//! The template renderer.
//!
//! A message template holds placeholder tokens of the exact form
//! `${identifier}`. Rendering substitutes each token whose identifier is
//! bound in the variable map by the bound value, verbatim; a token whose
//! identifier is unbound is left unchanged, delimiters included. Substituted
//! values are never rescanned, so no recursive expansion takes place.

use vstd::prelude::*;
use crate::chars::{chars_to_string, str_eq_chars_range, str_to_chars};

verus! {

/// A placeholder identifier is made of letters, digits and underscores.
pub open spec fn is_ident_char(c: char) -> bool {
    ('a' <= c && c <= 'z') || ('A' <= c && c <= 'Z') || ('0' <= c && c <= '9') || c == '_'
}

/// The first position at or after `pos` that does not hold an identifier
/// character, or the end of the text.
pub open spec fn ident_end(t: Seq<char>, pos: int) -> int
    decreases t.len() - pos,
        when 0 <= pos <= t.len()
{
    if pos == t.len() || !is_ident_char(t[pos]) {
        pos
    } else {
        ident_end(t, pos + 1)
    }
}

pub proof fn lemma_ident_end_bounds(t: Seq<char>, pos: int)
    requires
        0 <= pos <= t.len(),
    ensures
        pos <= ident_end(t, pos) <= t.len(),
    decreases t.len() - pos,
{
    if pos == t.len() || !is_ident_char(t[pos]) {
    } else {
        lemma_ident_end_bounds(t, pos + 1);
    }
}

/// Whether a `${identifier}` token, with a nonempty identifier, begins at
/// `pos`.
pub open spec fn token_at(t: Seq<char>, pos: int) -> bool {
    &&& 0 <= pos
    &&& pos + 1 < t.len()
    &&& t[pos] == '$'
    &&& t[pos + 1] == '{'
    &&& ident_end(t, pos + 2) > pos + 2
    &&& ident_end(t, pos + 2) < t.len()
    &&& t[ident_end(t, pos + 2)] == '}'
}

/// The identifier of the token that begins at `pos`.
pub open spec fn token_name(t: Seq<char>, pos: int) -> Seq<char> {
    t.subrange(pos + 2, ident_end(t, pos + 2))
}

/// The position one past the closing brace of the token that begins at `pos`.
pub open spec fn token_end(t: Seq<char>, pos: int) -> int {
    ident_end(t, pos + 2) + 1
}

/// The rendering of the template suffix that starts at `pos`: at a bound
/// token the value is emitted, at an unbound token the token itself, and any
/// other character is copied unchanged.
pub open spec fn render_from(t: Seq<char>, vars: Map<Seq<char>, Seq<char>>, pos: int) -> Seq<char>
    decreases t.len() - pos,
        when 0 <= pos <= t.len() via render_from_decreases
{
    if pos >= t.len() {
        Seq::empty()
    } else if token_at(t, pos) {
        (if vars.contains_key(token_name(t, pos)) {
            vars[token_name(t, pos)]
        } else {
            t.subrange(pos, token_end(t, pos))
        }) + render_from(t, vars, token_end(t, pos))
    } else {
        seq![t[pos]] + render_from(t, vars, pos + 1)
    }
}

#[via_fn]
proof fn render_from_decreases(t: Seq<char>, vars: Map<Seq<char>, Seq<char>>, pos: int) {
    if 0 <= pos < t.len() && token_at(t, pos) {
        lemma_ident_end_bounds(t, pos + 2);
    }
}

/// What rendering a whole template means.
pub open spec fn render_spec(t: Seq<char>, vars: Map<Seq<char>, Seq<char>>) -> Seq<char> {
    render_from(t, vars, 0)
}

/// Rendering against an empty variable map leaves the template unchanged:
/// every token is unbound and stays verbatim, delimiters included.
pub proof fn lemma_render_empty_map(t: Seq<char>)
    ensures
        render_spec(t, Map::<Seq<char>, Seq<char>>::empty()) == t,
{
    lemma_render_from_empty_map(t, 0);
    assert(t.subrange(0, t.len() as int) =~= t);
}

proof fn lemma_render_from_empty_map(t: Seq<char>, pos: int)
    requires
        0 <= pos <= t.len(),
    ensures
        render_from(t, Map::<Seq<char>, Seq<char>>::empty(), pos) == t.subrange(
            pos,
            t.len() as int,
        ),
    decreases t.len() - pos,
{
    let vars = Map::<Seq<char>, Seq<char>>::empty();
    if pos >= t.len() {
        assert(render_from(t, vars, pos) =~= t.subrange(pos, t.len() as int));
    } else if token_at(t, pos) {
        lemma_ident_end_bounds(t, pos + 2);
        lemma_render_from_empty_map(t, token_end(t, pos));
        assert(t.subrange(pos, token_end(t, pos)) + t.subrange(token_end(t, pos), t.len() as int)
            =~= t.subrange(pos, t.len() as int));
    } else {
        lemma_render_from_empty_map(t, pos + 1);
        assert(seq![t[pos]] + t.subrange(pos + 1, t.len() as int) =~= t.subrange(
            pos,
            t.len() as int,
        ));
    }
}

/// The variable map handed to one dispatch: name/value bindings, where a
/// binding inserted later shadows an earlier one of the same name.
pub struct VariableMap {
    entries: Vec<(String, String)>,
}

/// The map that a sequence of bindings denotes, later bindings winning.
pub open spec fn entries_map(s: Seq<(String, String)>) -> Map<Seq<char>, Seq<char>>
    decreases s.len(),
{
    if s.len() == 0 {
        Map::empty()
    } else {
        entries_map(s.drop_last()).insert(s.last().0@, s.last().1@)
    }
}

impl View for VariableMap {
    type V = Map<Seq<char>, Seq<char>>;

    closed spec fn view(&self) -> Map<Seq<char>, Seq<char>> {
        entries_map(self.entries@)
    }
}

proof fn lemma_entries_map_found(s: Seq<(String, String)>, k: Seq<char>, i: int)
    requires
        0 <= i < s.len(),
        s[i].0@ == k,
        forall|j: int| i < j < s.len() ==> s[j].0@ != k,
    ensures
        entries_map(s).contains_key(k),
        entries_map(s)[k] == s[i].1@,
    decreases s.len(),
{
    if i == s.len() - 1 {
    } else {
        lemma_entries_map_found(s.drop_last(), k, i);
    }
}

proof fn lemma_entries_map_absent(s: Seq<(String, String)>, k: Seq<char>)
    requires
        forall|j: int| 0 <= j < s.len() ==> s[j].0@ != k,
    ensures
        !entries_map(s).contains_key(k),
    decreases s.len(),
{
    if s.len() > 0 {
        lemma_entries_map_absent(s.drop_last(), k);
    }
}

impl VariableMap {
    /// An empty map.
    pub fn new() -> (m: Self)
        ensures
            m@ == Map::<Seq<char>, Seq<char>>::empty(),
    {
        VariableMap { entries: Vec::new() }
    }

    /// Binds `name` to `value`, shadowing any earlier binding of `name`.
    pub fn insert(&mut self, name: String, value: String)
        ensures
            final(self)@ == old(self)@.insert(name@, value@),
    {
        self.entries.push((name, value));
        proof {
            assert(self.entries@.drop_last() =~= old(self).entries@);
        }
    }

    /// Looks `name` up; the latest binding wins.
    pub fn get<'a>(&'a self, name: &String) -> (r: Option<&'a String>)
        ensures
            match r {
                Some(v) => self@.contains_key(name@) && v@ == self@[name@],
                None => !self@.contains_key(name@),
            },
    {
        let n = self.entries.len();
        let mut i: usize = n;
        while i > 0
            invariant
                i <= n,
                n == self.entries@.len(),
                forall|j: int| i <= j < n ==> self.entries@[j].0@ != name@,
            decreases i,
        {
            i = i - 1;
            if self.entries[i].0.eq(name) {
                proof {
                    lemma_entries_map_found(self.entries@, name@, i as int);
                }
                return Some(&self.entries[i].1);
            }
        }
        proof {
            lemma_entries_map_absent(self.entries@, name@);
        }
        None
    }

    /// Looks up the name held in the range `[lo, hi)` of a character vector;
    /// the latest binding wins.
    pub(crate) fn get_by_chars<'a>(&'a self, t: &Vec<char>, lo: usize, hi: usize) -> (r: Option<
        &'a String,
    >)
        requires
            lo <= hi <= t@.len(),
        ensures
            ({
                let k = t@.subrange(lo as int, hi as int);
                match r {
                    Some(v) => self@.contains_key(k) && v@ == self@[k],
                    None => !self@.contains_key(k),
                }
            }),
    {
        let ghost k = t@.subrange(lo as int, hi as int);
        let n = self.entries.len();
        let mut i: usize = n;
        while i > 0
            invariant
                i <= n,
                n == self.entries@.len(),
                lo <= hi <= t@.len(),
                k == t@.subrange(lo as int, hi as int),
                forall|j: int| i <= j < n ==> self.entries@[j].0@ != k,
            decreases i,
        {
            i = i - 1;
            if str_eq_chars_range(self.entries[i].0.as_str(), t, lo, hi) {
                proof {
                    lemma_entries_map_found(self.entries@, k, i as int);
                }
                return Some(&self.entries[i].1);
            }
        }
        proof {
            lemma_entries_map_absent(self.entries@, k);
        }
        None
    }
}

/// Whether `c` may stand in a placeholder identifier.
fn ident_char(c: char) -> (r: bool)
    ensures
        r == is_ident_char(c),
{
    ('a' <= c && c <= 'z') || ('A' <= c && c <= 'Z') || ('0' <= c && c <= '9') || c == '_'
}

/// Substitutes the bound variables into the template, left to right.
///
/// Each `${identifier}` token whose identifier is bound is replaced by the
/// bound value; an unbound token stays verbatim; substituted values are not
/// rescanned.
pub fn render(template: &str, variables: &VariableMap) -> (r: String)
    ensures
        r@ == render_spec(template@, variables@),
{
    let t = str_to_chars(template);
    let n = t.len();
    let mut out: Vec<char> = Vec::new();
    let mut i: usize = 0;
    while i < n
        invariant
            t@ == template@,
            n == t@.len(),
            i <= n,
            render_spec(t@, variables@) == out@ + render_from(t@, variables@, i as int),
        decreases n - i,
    {
        let mut is_token = false;
        let mut brace: usize = 0;
        if t[i] == '$' && i + 1 < n && t[i + 1] == '{' {
            let mut j: usize = i + 2;
            while j < n && ident_char(t[j])
                invariant
                    i + 2 <= j <= n,
                    n == t@.len(),
                    ident_end(t@, i + 2) == ident_end(t@, j as int),
                decreases n - j,
            {
                j = j + 1;
            }
            proof {
                assert(ident_end(t@, i + 2) == j);
            }
            if j > i + 2 && j < n && t[j] == '}' {
                is_token = true;
                brace = j;
            }
        }
        if is_token {
            proof {
                assert(token_at(t@, i as int));
            }
            let ghost name = token_name(t@, i as int);
            match variables.get_by_chars(&t, i + 2, brace) {
                Some(v) => {
                    let mut vc = str_to_chars(v.as_str());
                    proof {
                        assert(out@ + vc@ + render_from(t@, variables@, brace + 1 as int)
                            == render_spec(t@, variables@));
                    }
                    out.append(&mut vc);
                },
                None => {
                    let ghost base = out@;
                    let mut k: usize = i;
                    while k < brace + 1
                        invariant
                            i <= k <= brace + 1,
                            brace < n,
                            n == t@.len(),
                            out@ == base + t@.subrange(i as int, k as int),
                        decreases brace + 1 - k,
                    {
                        out.push(t[k]);
                        k = k + 1;
                        proof {
                            assert(base + t@.subrange(i as int, k - 1 as int) + seq![
                                t@[k - 1 as int],
                            ] =~= base + t@.subrange(i as int, k as int));
                        }
                    }
                },
            }
            i = brace + 1;
        } else {
            proof {
                assert(!token_at(t@, i as int));
            }
            out.push(t[i]);
            i = i + 1;
        }
    }
    proof {
        assert(render_spec(t@, variables@) =~= out@);
    }
    chars_to_string(&out)
}

} // verus!
