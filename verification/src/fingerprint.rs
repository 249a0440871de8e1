//! The change-detection fingerprint: the lower-case hex SHA-256 digest of a
//! resource's name and prompt, joined by a hyphen.

use sha2::{Digest, Sha256};
use vstd::prelude::*;
use vstd::string::*;

verus! {

/// The SHA-256 digest of a byte string, as the `sha2` crate computes it.
pub uninterp spec fn sha256_digest(data: Seq<u8>) -> Seq<u8>;

/// Calls `sha2::Sha256::digest` on `data`. Trusted: the 32 bytes that come
/// back are the SHA-256 digest of `data`, a function of `data` alone.
#[verifier::external_body]
fn sha256(data: &[u8]) -> (digest: [u8; 32])
    ensures
        digest@ == sha256_digest(data@),
{
    Sha256::digest(data).into()
}

/// The sixteen lower-case hex digits, in order.
pub open spec fn hex_digits() -> Seq<char> {
    seq!['0', '1', '2', '3', '4', '5', '6', '7', '8', '9', 'a', 'b', 'c', 'd', 'e', 'f']
}

/// Byte `k` of the input gives characters `2k` and `2k + 1` of the output:
/// its high and its low nibble.
pub open spec fn hex_lower(bytes: Seq<u8>) -> Seq<char> {
    Seq::new(
        (2 * bytes.len()) as nat,
        |i: int|
            if i % 2 == 0 {
                hex_digits()[bytes[i / 2] as int / 16]
            } else {
                hex_digits()[bytes[i / 2] as int % 16]
            },
    )
}

/// What the fingerprint hashes: the name, a hyphen, the prompt.
pub open spec fn state_string(name: Seq<char>, prompt: Seq<char>) -> Seq<char> {
    name + seq!['-'] + prompt
}

/// The fingerprint of a resource: hex of the SHA-256 digest of the UTF-8
/// bytes of its state string.
pub open spec fn fingerprint(name: Seq<char>, prompt: Seq<char>) -> Seq<char> {
    hex_lower(sha256_digest(vstd::utf8::encode_utf8(state_string(name, prompt))))
}

/// Every fingerprint has this many characters.
pub const FINGERPRINT_LEN: usize = 64;

fn hex_digit(nibble: u8) -> (digit: &'static str)
    requires
        nibble < 16,
    ensures
        digit@ == seq![hex_digits()[nibble as int]],
{
    proof {
        reveal_strlit("0");
        reveal_strlit("1");
        reveal_strlit("2");
        reveal_strlit("3");
        reveal_strlit("4");
        reveal_strlit("5");
        reveal_strlit("6");
        reveal_strlit("7");
        reveal_strlit("8");
        reveal_strlit("9");
        reveal_strlit("a");
        reveal_strlit("b");
        reveal_strlit("c");
        reveal_strlit("d");
        reveal_strlit("e");
        reveal_strlit("f");
    }
    let digit = match nibble {
        0 => "0",
        1 => "1",
        2 => "2",
        3 => "3",
        4 => "4",
        5 => "5",
        6 => "6",
        7 => "7",
        8 => "8",
        9 => "9",
        10 => "a",
        11 => "b",
        12 => "c",
        13 => "d",
        14 => "e",
        _ => "f",
    };
    assert(digit@ =~= seq![hex_digits()[nibble as int]]);
    digit
}

/// Writes `bytes` as lower-case hex, two characters a byte.
pub fn hex_encode(bytes: &[u8]) -> (out: String)
    ensures
        out@ == hex_lower(bytes@),
        out@.len() == 2 * bytes@.len(),
{
    let mut out = String::new();
    let mut i: usize = 0;
    while i < bytes.len()
        invariant
            i <= bytes.len(),
            out@ == hex_lower(bytes@.take(i as int)),
        decreases bytes.len() - i,
    {
        let byte: u8 = bytes[i];
        let ghost before = out@;
        out.append(hex_digit(byte / 16));
        out.append(hex_digit(byte % 16));
        i += 1;
        assert(out@ =~= hex_lower(bytes@.take(i as int))) by {
            assert(out@ == before + seq![hex_digits()[byte as int / 16]] + seq![
                hex_digits()[byte as int % 16],
            ]);
        }
    }
    assert(bytes@.take(bytes.len() as int) =~= bytes@);
    out
}

/// The fingerprint of the resource called `name` whose spec holds `prompt`.
/// The same pair gives the same digest on every call and in every process;
/// any change to either is meant to show as a different digest.
pub fn create_hash(name: &str, prompt: String) -> (digest: String)
    ensures
        digest@ == fingerprint(name@, prompt@),
        digest@.len() == FINGERPRINT_LEN,
{
    proof {
        reveal_strlit("-");
    }
    let mut state = String::from_str(name);
    state.append("-");
    state.append(prompt.as_str());
    assert(state@ =~= state_string(name@, prompt@));
    let raw = sha256(state.as_str().as_bytes());
    hex_encode(raw.as_slice())
}

} // verus!
