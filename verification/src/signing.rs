//! Request signing.
//!
//! When a channel is configured with a signing secret, the serialized
//! payload is authenticated with HMAC-SHA256 and the tag is sent, hex
//! encoded, in a configurable header.

use vstd::prelude::*;
use crate::chars::chars_to_string;
use crate::payload::{hex_digit, hex_digit_char};

verus! {

/// The HMAC-SHA256 authentication tag of the UTF-8 bytes of `msg` under the
/// UTF-8 bytes of `key`.
pub uninterp spec fn hmac_sha256_of(key: Seq<char>, msg: Seq<char>) -> Seq<u8>;

/// Relies on `hmac::SimpleHmac<sha2::Sha256>`: the tag is a function of the
/// key and the message alone (UTF-8 encoding is injective, so of their
/// characters too) and is 32 bytes long; `new_from_slice` accepts a key of
/// any length, so it never fails.
#[verifier::external_body]
fn hmac_sha256(key: &str, msg: &str) -> (r: Vec<u8>)
    ensures
        r@ == hmac_sha256_of(key@, msg@),
        r@.len() == 32,
{
    let mut mac = <hmac::SimpleHmac<sha2::Sha256> as hmac::KeyInit>::new_from_slice(
        key.as_bytes(),
    ).expect("HMAC accepts keys of any length");
    hmac::Mac::update(&mut mac, msg.as_bytes());
    hmac::Mac::finalize(mac).into_bytes().to_vec()
}

/// The two lower-case hexadecimal digits of one byte.
pub open spec fn hex_pair(x: u8) -> Seq<char> {
    seq![hex_digit(x as int / 16), hex_digit(x as int % 16)]
}

/// The hex encoding of the bytes of `b` from `pos` on.
pub open spec fn hex_from(b: Seq<u8>, pos: int) -> Seq<char>
    decreases b.len() - pos,
        when 0 <= pos <= b.len()
{
    if pos >= b.len() {
        Seq::empty()
    } else {
        hex_pair(b[pos]) + hex_from(b, pos + 1)
    }
}

/// The lower-case hex encoding of a byte string, two digits per byte.
pub open spec fn hex_of_bytes(b: Seq<u8>) -> Seq<char> {
    hex_from(b, 0)
}

/// Encodes bytes as lower-case hex, two digits per byte.
pub fn bytes_to_hex(b: &Vec<u8>) -> (r: String)
    ensures
        r@ == hex_of_bytes(b@),
{
    let n = b.len();
    let mut out: Vec<char> = Vec::new();
    let mut i: usize = 0;
    while i < n
        invariant
            n == b@.len(),
            i <= n,
            hex_of_bytes(b@) == out@ + hex_from(b@, i as int),
        decreases n - i,
    {
        let ghost base = out@;
        let x = b[i];
        out.push(hex_digit_char(x / 16));
        out.push(hex_digit_char(x % 16));
        proof {
            assert(out@ =~= base + hex_pair(b@[i as int]));
            assert(hex_of_bytes(b@) =~= out@ + hex_from(b@, i + 1 as int));
        }
        i = i + 1;
    }
    proof {
        assert(hex_of_bytes(b@) =~= out@);
    }
    chars_to_string(&out)
}

/// The signature that a secret yields over a serialized payload: the
/// HMAC-SHA256 tag, hex encoded.
pub open spec fn signature_of(secret: Seq<char>, body: Seq<char>) -> Seq<char> {
    hex_of_bytes(hmac_sha256_of(secret, body))
}

/// Signs a serialized payload with a secret; the result is 64 hex digits.
pub fn sign_payload(secret: &str, body: &str) -> (r: String)
    ensures
        r@ == signature_of(secret@, body@),
        r@.len() == 64,
{
    let tag = hmac_sha256(secret, body);
    let r = bytes_to_hex(&tag);
    proof {
        lemma_hex_len(tag@, 0);
    }
    r
}

proof fn lemma_hex_len(b: Seq<u8>, pos: int)
    requires
        0 <= pos <= b.len(),
    ensures
        hex_from(b, pos).len() == 2 * (b.len() - pos),
    decreases b.len() - pos,
{
    if pos < b.len() {
        lemma_hex_len(b, pos + 1);
    }
}

} // verus!
