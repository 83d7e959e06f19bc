//! The MarkdownV2-safe escaper.
//!
//! Telegram's MarkdownV2 dialect requires every literal metacharacter to be
//! backslash-escaped, while formatting entities already present in the text
//! must be kept. The escaper makes one left-to-right, non-overlapping scan:
//! at each position it tries to match an entity, preferring a fenced code
//! block, then an inline code span, a bold span, an italic span, a
//! strikethrough span, and last an inline link. Fenced code, inline code,
//! bold, italic and strikethrough entities are copied verbatim, delimiters
//! and interior included; a link `[label](url)` is rebuilt with every
//! character of the label and of the url escaped and the four delimiters kept
//! bare; plain text between entities is escaped character by character.

use vstd::prelude::*;
use crate::chars::{chars_to_string, str_to_chars};

verus! {

/// The MarkdownV2 metacharacters, backslash included.
pub open spec fn is_metachar(c: char) -> bool {
    ||| c == '_'
    ||| c == '*'
    ||| c == '['
    ||| c == ']'
    ||| c == '('
    ||| c == ')'
    ||| c == '~'
    ||| c == '`'
    ||| c == '>'
    ||| c == '#'
    ||| c == '+'
    ||| c == '-'
    ||| c == '='
    ||| c == '|'
    ||| c == '{'
    ||| c == '}'
    ||| c == '.'
    ||| c == '!'
    ||| c == '\\'
}

/// One character of plain text, escaped if it is a metacharacter.
pub open spec fn esc_char(c: char) -> Seq<char> {
    if is_metachar(c) {
        seq!['\\', c]
    } else {
        seq![c]
    }
}

/// The character-by-character escaping of the suffix of `s` that starts at
/// `pos`.
pub open spec fn escape_plain_from(s: Seq<char>, pos: int) -> Seq<char>
    decreases s.len() - pos,
        when 0 <= pos <= s.len()
{
    if pos >= s.len() {
        Seq::empty()
    } else {
        esc_char(s[pos]) + escape_plain_from(s, pos + 1)
    }
}

/// The character-by-character escaping of a whole text.
pub open spec fn escape_plain(s: Seq<char>) -> Seq<char> {
    escape_plain_from(s, 0)
}

/// The first position at or after `from` that holds `c`, or -1.
pub open spec fn find_from(t: Seq<char>, c: char, from: int) -> int
    decreases t.len() - from,
        when 0 <= from <= t.len()
{
    if from >= t.len() {
        -1
    } else if t[from] == c {
        from
    } else {
        find_from(t, c, from + 1)
    }
}

pub proof fn lemma_find_from_bounds(t: Seq<char>, c: char, from: int)
    requires
        0 <= from <= t.len(),
    ensures
        find_from(t, c, from) == -1 || (from <= find_from(t, c, from) < t.len() && t[find_from(
            t,
            c,
            from,
        )] == c),
    decreases t.len() - from,
{
    if from < t.len() && t[from] != c {
        lemma_find_from_bounds(t, c, from + 1);
    }
}

/// The first position at or after `from` where three backticks stand in a
/// row, or -1.
pub open spec fn find_fence(t: Seq<char>, from: int) -> int
    decreases t.len() - from,
        when 0 <= from <= t.len()
{
    if from + 3 > t.len() {
        -1
    } else if t[from] == '`' && t[from + 1] == '`' && t[from + 2] == '`' {
        from
    } else {
        find_fence(t, from + 1)
    }
}

pub proof fn lemma_find_fence_bounds(t: Seq<char>, from: int)
    requires
        0 <= from <= t.len(),
    ensures
        find_fence(t, from) == -1 || (from <= find_fence(t, from) && find_fence(t, from) + 3
            <= t.len()),
    decreases t.len() - from,
{
    if from + 3 <= t.len() && !(t[from] == '`' && t[from + 1] == '`' && t[from + 2] == '`') {
        lemma_find_fence_bounds(t, from + 1);
    }
}

/// The length of the fenced code block that starts at `pos` (three backticks,
/// the shortest interior, three backticks), or -1.
pub open spec fn fenced_len_at(t: Seq<char>, pos: int) -> int {
    if 0 <= pos && pos + 3 <= t.len() && t[pos] == '`' && t[pos + 1] == '`' && t[pos + 2] == '`' {
        let j = find_fence(t, pos + 3);
        if j >= 0 {
            j + 3 - pos
        } else {
            -1
        }
    } else {
        -1
    }
}

/// The length of the delimited span `d...d` (with no `d` inside) that starts
/// at `pos`, or -1. Inline code, bold, italic and strikethrough spans all
/// have this shape, with their own delimiter.
pub open spec fn delim_len_at(t: Seq<char>, pos: int, d: char) -> int {
    if 0 <= pos && pos < t.len() && t[pos] == d {
        let j = find_from(t, d, pos + 1);
        if j >= 0 {
            j + 1 - pos
        } else {
            -1
        }
    } else {
        -1
    }
}

/// The position of the `]` that closes the nonempty label of the link that
/// starts at `pos`, or -1.
pub open spec fn link_label_end(t: Seq<char>, pos: int) -> int {
    if 0 <= pos && pos < t.len() && t[pos] == '[' {
        let j = find_from(t, ']', pos + 1);
        if j >= pos + 2 {
            j
        } else {
            -1
        }
    } else {
        -1
    }
}

/// The position of the `)` that closes the nonempty url of the link that
/// starts at `pos`, or -1.
pub open spec fn link_url_end(t: Seq<char>, pos: int) -> int {
    let j = link_label_end(t, pos);
    if j >= 0 && j + 1 < t.len() && t[j + 1] == '(' {
        let k = find_from(t, ')', j + 2);
        if k >= j + 3 {
            k
        } else {
            -1
        }
    } else {
        -1
    }
}

/// The length of the inline link `[label](url)` that starts at `pos`, or -1.
pub open spec fn link_len_at(t: Seq<char>, pos: int) -> int {
    let k = link_url_end(t, pos);
    if k >= 0 {
        k + 1 - pos
    } else {
        -1
    }
}

/// The length of the entity that the scan matches at `pos`, or -1. The
/// alternatives are tried in preference order; only the first two (fenced
/// and inline code) can compete for one position.
pub open spec fn entity_len_at(t: Seq<char>, pos: int) -> int {
    if fenced_len_at(t, pos) >= 0 {
        fenced_len_at(t, pos)
    } else if delim_len_at(t, pos, '`') >= 0 {
        delim_len_at(t, pos, '`')
    } else if delim_len_at(t, pos, '*') >= 0 {
        delim_len_at(t, pos, '*')
    } else if delim_len_at(t, pos, '_') >= 0 {
        delim_len_at(t, pos, '_')
    } else if delim_len_at(t, pos, '~') >= 0 {
        delim_len_at(t, pos, '~')
    } else {
        link_len_at(t, pos)
    }
}

/// Whether the entity matched at `pos` is an inline link.
pub open spec fn is_link_at(t: Seq<char>, pos: int) -> bool {
    &&& fenced_len_at(t, pos) < 0
    &&& delim_len_at(t, pos, '`') < 0
    &&& delim_len_at(t, pos, '*') < 0
    &&& delim_len_at(t, pos, '_') < 0
    &&& delim_len_at(t, pos, '~') < 0
    &&& link_len_at(t, pos) >= 0
}

/// What the entity matched at `pos` contributes to the output: a link is
/// rebuilt with label and url escaped, any other entity is copied verbatim.
pub open spec fn entity_out_at(t: Seq<char>, pos: int) -> Seq<char> {
    if is_link_at(t, pos) {
        let j = link_label_end(t, pos);
        let k = link_url_end(t, pos);
        seq!['['] + escape_plain(t.subrange(pos + 1, j)) + seq![']', '('] + escape_plain(
            t.subrange(j + 2, k),
        ) + seq![')']
    } else {
        t.subrange(pos, pos + entity_len_at(t, pos))
    }
}

pub proof fn lemma_entity_len_bounds(t: Seq<char>, pos: int)
    requires
        0 <= pos < t.len(),
        entity_len_at(t, pos) >= 0,
    ensures
        2 <= entity_len_at(t, pos),
        pos + entity_len_at(t, pos) <= t.len(),
{
    if fenced_len_at(t, pos) >= 0 {
        lemma_find_fence_bounds(t, pos + 3);
    } else if delim_len_at(t, pos, '`') >= 0 {
        lemma_find_from_bounds(t, '`', pos + 1);
    } else if delim_len_at(t, pos, '*') >= 0 {
        lemma_find_from_bounds(t, '*', pos + 1);
    } else if delim_len_at(t, pos, '_') >= 0 {
        lemma_find_from_bounds(t, '_', pos + 1);
    } else if delim_len_at(t, pos, '~') >= 0 {
        lemma_find_from_bounds(t, '~', pos + 1);
    } else {
        let j = link_label_end(t, pos);
        if 0 <= pos && pos < t.len() && t[pos] == '[' {
            lemma_find_from_bounds(t, ']', pos + 1);
        }
        if j >= 0 && j + 1 < t.len() && t[j + 1] == '(' {
            lemma_find_from_bounds(t, ')', j + 2);
        }
    }
}

/// The escaping of the suffix of `t` that starts at `pos`: the matched
/// entity's contribution, or one escaped plain character, then the rest.
pub open spec fn escape_from(t: Seq<char>, pos: int) -> Seq<char>
    decreases t.len() - pos,
        when 0 <= pos <= t.len() via escape_from_decreases
{
    if pos >= t.len() {
        Seq::empty()
    } else if entity_len_at(t, pos) >= 0 {
        entity_out_at(t, pos) + escape_from(t, pos + entity_len_at(t, pos))
    } else {
        esc_char(t[pos]) + escape_from(t, pos + 1)
    }
}

#[via_fn]
proof fn escape_from_decreases(t: Seq<char>, pos: int) {
    if 0 <= pos < t.len() && entity_len_at(t, pos) >= 0 {
        lemma_entity_len_bounds(t, pos);
    }
}

/// What escaping a whole text means.
pub open spec fn escape_spec(t: Seq<char>) -> Seq<char> {
    escape_from(t, 0)
}

/// A fenced code, inline code, bold, italic or strikethrough entity at the
/// head of the text is copied to the output verbatim, delimiters and
/// interior included.
pub proof fn lemma_entity_verbatim(s: Seq<char>)
    requires
        0 < s.len(),
        entity_len_at(s, 0) >= 0,
        !is_link_at(s, 0),
    ensures
        escape_spec(s).subrange(0, entity_len_at(s, 0)) == s.subrange(0, entity_len_at(s, 0)),
{
    lemma_entity_len_bounds(s, 0);
    let el = entity_len_at(s, 0);
    assert(escape_spec(s) == s.subrange(0, el) + escape_from(s, el));
    assert(escape_spec(s).subrange(0, el) =~= s.subrange(0, el));
}

/// On a text in which no entity matches at any position, the scan escapes
/// character by character.
pub proof fn lemma_escape_entity_free(s: Seq<char>)
    requires
        forall|p: int| 0 <= p < s.len() ==> entity_len_at(s, p) < 0,
    ensures
        escape_spec(s) == escape_plain(s),
{
    lemma_escape_from_entity_free(s, 0);
}

proof fn lemma_escape_from_entity_free(s: Seq<char>, pos: int)
    requires
        0 <= pos <= s.len(),
        forall|p: int| 0 <= p < s.len() ==> entity_len_at(s, p) < 0,
    ensures
        escape_from(s, pos) == escape_plain_from(s, pos),
    decreases s.len() - pos,
{
    if pos < s.len() {
        lemma_escape_from_entity_free(s, pos + 1);
    }
}

/// On a text made of metacharacters alone, in which no entity matches, the
/// escaper prepends a backslash before every character.
pub proof fn lemma_escape_all_metachars(s: Seq<char>)
    requires
        forall|i: int| 0 <= i < s.len() ==> is_metachar(s[i]),
        forall|p: int| 0 <= p < s.len() ==> entity_len_at(s, p) < 0,
    ensures
        escape_spec(s).len() == 2 * s.len(),
        forall|i: int| 0 <= i < s.len() ==> #[trigger] escape_spec(s)[2 * i] == '\\',
        forall|i: int| 0 <= i < s.len() ==> #[trigger] escape_spec(s)[2 * i + 1] == s[i],
{
    lemma_escape_entity_free(s);
    lemma_plain_all_metachars(s, 0);
    assert forall|i: int| 0 <= i < s.len() implies #[trigger] escape_spec(s)[2 * i] == '\\' by {
        assert(escape_plain_from(s, 0)[2 * (i - 0)] == '\\');
    }
    assert forall|i: int|
        0 <= i < s.len() implies #[trigger] escape_spec(s)[2 * i + 1] == s[i] by {
        assert(escape_plain_from(s, 0)[2 * (i - 0) + 1] == s[i]);
    }
}

proof fn lemma_plain_all_metachars(s: Seq<char>, pos: int)
    requires
        0 <= pos <= s.len(),
        forall|i: int| 0 <= i < s.len() ==> is_metachar(s[i]),
    ensures
        escape_plain_from(s, pos).len() == 2 * (s.len() - pos),
        forall|i: int|
            pos <= i < s.len() ==> #[trigger] escape_plain_from(s, pos)[2 * (i - pos)] == '\\',
        forall|i: int|
            pos <= i < s.len() ==> #[trigger] escape_plain_from(s, pos)[2 * (i - pos) + 1] == s[i],
    decreases s.len() - pos,
{
    if pos < s.len() {
        lemma_plain_all_metachars(s, pos + 1);
        assert(is_metachar(s[pos]));
        assert(escape_plain_from(s, pos) == seq!['\\', s[pos]] + escape_plain_from(s, pos + 1));
    }
    assert forall|i: int|
        pos <= i < s.len() implies #[trigger] escape_plain_from(s, pos)[2 * (i - pos)]
        == '\\' by {
        if i == pos {
            assert(escape_plain_from(s, pos)[0] == '\\');
        } else {
            assert(escape_plain_from(s, pos + 1)[2 * (i - (pos + 1))] == '\\');
            assert(2 * (i - pos) - 2 == 2 * (i - (pos + 1)));
            assert(escape_plain_from(s, pos)[2 * (i - pos)] == escape_plain_from(s, pos + 1)[2 * (i
                - pos) - 2]);
        }
    }
    assert forall|i: int|
        pos <= i < s.len() implies #[trigger] escape_plain_from(s, pos)[2 * (i - pos) + 1]
        == s[i] by {
        if i == pos {
            assert(escape_plain_from(s, pos)[1] == s[pos]);
        } else {
            assert(escape_plain_from(s, pos + 1)[2 * (i - (pos + 1)) + 1] == s[i]);
            assert(2 * (i - pos) - 1 == 2 * (i - (pos + 1)) + 1);
            assert(escape_plain_from(s, pos)[2 * (i - pos) + 1] == escape_plain_from(s, pos + 1)[2
                * (i - pos) - 1]);
        }
    }
}

/// Whether `c` is a MarkdownV2 metacharacter.
fn metachar(c: char) -> (r: bool)
    ensures
        r == is_metachar(c),
{
    c == '_' || c == '*' || c == '[' || c == ']' || c == '(' || c == ')' || c == '~' || c == '`'
        || c == '>' || c == '#' || c == '+' || c == '-' || c == '=' || c == '|' || c == '{' || c
        == '}' || c == '.' || c == '!' || c == '\\'
}

/// Finds the first occurrence of `c` at or after `from`.
fn find_char_from(t: &Vec<char>, c: char, from: usize) -> (r: Option<usize>)
    requires
        from <= t@.len(),
    ensures
        match r {
            Some(j) => from <= j < t@.len() && find_from(t@, c, from as int) == j,
            None => find_from(t@, c, from as int) == -1,
        },
{
    let n = t.len();
    let mut j: usize = from;
    while j < n
        invariant
            from <= j <= n,
            n == t@.len(),
            find_from(t@, c, from as int) == find_from(t@, c, j as int),
        decreases n - j,
    {
        if t[j] == c {
            return Some(j);
        }
        j = j + 1;
    }
    None
}

/// Finds the first position at or after `from` where three backticks stand
/// in a row.
fn find_fence_from(t: &Vec<char>, from: usize) -> (r: Option<usize>)
    requires
        from <= t@.len(),
    ensures
        match r {
            Some(j) => from <= j && j + 3 <= t@.len() && find_fence(t@, from as int) == j,
            None => find_fence(t@, from as int) == -1,
        },
{
    let n = t.len();
    let mut j: usize = from;
    while n - j >= 3
        invariant
            from <= j <= n,
            n == t@.len(),
            find_fence(t@, from as int) == find_fence(t@, j as int),
        decreases n - j,
    {
        if t[j] == '`' && t[j + 1] == '`' && t[j + 2] == '`' {
            return Some(j);
        }
        j = j + 1;
    }
    None
}

/// Appends `t[lo..hi]` to `out` unchanged.
fn copy_range(out: &mut Vec<char>, t: &Vec<char>, lo: usize, hi: usize)
    requires
        lo <= hi <= t@.len(),
    ensures
        final(out)@ == old(out)@ + t@.subrange(lo as int, hi as int),
{
    let mut k: usize = lo;
    while k < hi
        invariant
            lo <= k <= hi <= t@.len(),
            out@ == old(out)@ + t@.subrange(lo as int, k as int),
        decreases hi - k,
    {
        out.push(t[k]);
        k = k + 1;
        proof {
            assert(old(out)@ + t@.subrange(lo as int, k - 1 as int) + seq![t@[k - 1 as int]]
                =~= old(out)@ + t@.subrange(lo as int, k as int));
        }
    }
    proof {
        assert(out@ =~= old(out)@ + t@.subrange(lo as int, hi as int));
    }
}

/// Appends the escaping of `t[lo..hi]`, character by character, to `out`.
fn escape_plain_range(out: &mut Vec<char>, t: &Vec<char>, lo: usize, hi: usize)
    requires
        lo <= hi <= t@.len(),
    ensures
        final(out)@ == old(out)@ + escape_plain(t@.subrange(lo as int, hi as int)),
{
    let ghost s = t@.subrange(lo as int, hi as int);
    let mut k: usize = lo;
    while k < hi
        invariant
            lo <= k <= hi <= t@.len(),
            s == t@.subrange(lo as int, hi as int),
            old(out)@ + escape_plain(s) == out@ + escape_plain_from(s, k - lo),
        decreases hi - k,
    {
        proof {
            assert(s[k - lo] == t@[k as int]);
            assert(escape_plain_from(s, k - lo) == esc_char(s[k - lo]) + escape_plain_from(
                s,
                k - lo + 1,
            ));
        }
        let c = t[k];
        if metachar(c) {
            out.push('\\');
        }
        out.push(c);
        k = k + 1;
        proof {
            assert(old(out)@ + escape_plain(s) =~= out@ + escape_plain_from(s, k - lo));
        }
    }
    proof {
        assert(out@ =~= old(out)@ + escape_plain(s));
    }
}

/// What the scanner matched at one position.
enum Scan {
    /// No entity begins here; the character is plain text.
    Plain,
    /// A verbatim entity (fenced code, inline code, bold, italic or
    /// strikethrough) ends just before `end`.
    Verbatim { end: usize },
    /// An inline link: its label closes at `label_close`, and it ends just
    /// before `end`.
    Link { label_close: usize, end: usize },
}

/// Tries to match one formatting entity at position `i`, in preference
/// order.
fn match_entity_at(t: &Vec<char>, i: usize) -> (r: Scan)
    requires
        i < t@.len(),
    ensures
        match r {
            Scan::Plain => entity_len_at(t@, i as int) < 0,
            Scan::Verbatim { end } => !is_link_at(t@, i as int) && entity_len_at(t@, i as int)
                == end - i && i < end <= t@.len(),
            Scan::Link { label_close, end } => is_link_at(t@, i as int) && entity_len_at(
                t@,
                i as int,
            ) == end - i && link_label_end(t@, i as int) == label_close && link_url_end(
                t@,
                i as int,
            ) == end - 1 && i + 1 <= label_close && label_close + 2 <= end - 1 && end <= t@.len(),
        },
{
    let n = t.len();
    if n - i >= 3 && t[i] == '`' && t[i + 1] == '`' && t[i + 2] == '`' {
        if let Some(j) = find_fence_from(t, i + 3) {
            proof {
                assert(fenced_len_at(t@, i as int) == j + 3 - i);
            }
            return Scan::Verbatim { end: j + 3 };
        }
    }
    proof {
        assert(fenced_len_at(t@, i as int) < 0);
    }
    if t[i] == '`' {
        if let Some(j) = find_char_from(t, '`', i + 1) {
            proof {
                assert(delim_len_at(t@, i as int, '`') == j + 1 - i);
            }
            return Scan::Verbatim { end: j + 1 };
        }
    }
    proof {
        assert(delim_len_at(t@, i as int, '`') < 0);
    }
    if t[i] == '*' {
        if let Some(j) = find_char_from(t, '*', i + 1) {
            return Scan::Verbatim { end: j + 1 };
        }
    }
    proof {
        assert(delim_len_at(t@, i as int, '*') < 0);
    }
    if t[i] == '_' {
        if let Some(j) = find_char_from(t, '_', i + 1) {
            return Scan::Verbatim { end: j + 1 };
        }
    }
    proof {
        assert(delim_len_at(t@, i as int, '_') < 0);
    }
    if t[i] == '~' {
        if let Some(j) = find_char_from(t, '~', i + 1) {
            return Scan::Verbatim { end: j + 1 };
        }
    }
    proof {
        assert(delim_len_at(t@, i as int, '~') < 0);
    }
    if t[i] == '[' {
        if let Some(j) = find_char_from(t, ']', i + 1) {
            if j >= i + 2 && j + 1 < n && t[j + 1] == '(' {
                if let Some(k) = find_char_from(t, ')', j + 2) {
                    if k >= j + 3 {
                        proof {
                            assert(link_label_end(t@, i as int) == j);
                            assert(link_url_end(t@, i as int) == k);
                            assert(link_len_at(t@, i as int) == k + 1 - i);
                        }
                        return Scan::Link { label_close: j, end: k + 1 };
                    }
                }
            }
        }
    }
    proof {
        assert(link_len_at(t@, i as int) < 0);
    }
    Scan::Plain
}

/// Escapes a text for MarkdownV2 in one left-to-right scan, keeping
/// formatting entities and escaping everything else.
pub fn escape_markdown(text: &str) -> (r: String)
    ensures
        r@ == escape_spec(text@),
{
    let t = str_to_chars(text);
    let n = t.len();
    let mut out: Vec<char> = Vec::new();
    let mut i: usize = 0;
    while i < n
        invariant
            t@ == text@,
            n == t@.len(),
            i <= n,
            escape_spec(t@) == out@ + escape_from(t@, i as int),
        decreases n - i,
    {
        let ghost base = out@;
        match match_entity_at(&t, i) {
            Scan::Plain => {
                proof {
                    assert(escape_from(t@, i as int) == esc_char(t@[i as int]) + escape_from(
                        t@,
                        i + 1 as int,
                    ));
                }
                let c = t[i];
                if metachar(c) {
                    out.push('\\');
                }
                out.push(c);
                proof {
                    assert(out@ =~= base + esc_char(t@[i as int]));
                    assert(escape_spec(t@) =~= out@ + escape_from(t@, i + 1 as int));
                }
                i = i + 1;
            },
            Scan::Verbatim { end } => {
                proof {
                    assert(escape_from(t@, i as int) == entity_out_at(t@, i as int) + escape_from(
                        t@,
                        end as int,
                    ));
                }
                copy_range(&mut out, &t, i, end);
                proof {
                    assert(out@ =~= base + entity_out_at(t@, i as int));
                    assert(escape_spec(t@) =~= out@ + escape_from(t@, end as int));
                }
                i = end;
            },
            Scan::Link { label_close, end } => {
                proof {
                    assert(escape_from(t@, i as int) == entity_out_at(t@, i as int) + escape_from(
                        t@,
                        end as int,
                    ));
                }
                out.push('[');
                escape_plain_range(&mut out, &t, i + 1, label_close);
                out.push(']');
                out.push('(');
                escape_plain_range(&mut out, &t, label_close + 2, end - 1);
                out.push(')');
                proof {
                    assert(out@ =~= base + entity_out_at(t@, i as int));
                    assert(escape_spec(t@) =~= out@ + escape_from(t@, end as int));
                }
                i = end;
            },
        }
    }
    proof {
        assert(escape_spec(t@) =~= out@);
    }
    chars_to_string(&out)
}

} // verus!
