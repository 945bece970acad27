//! A scan of a signature string for its signature token.
//!
//! A signature token is the text form of an Ed25519 signature: 86 characters
//! of the base64 alphabet, `==`, and the suffix `.sig.ed25519`, in which
//! either dot may be any one character but a line feed. A verifier reads the
//! leftmost token of the string. The last byte of the 64 that a token encodes
//! must have its three highest bits clear, which is the case exactly when the
//! 85th character of the token is one of `A` to `H`.

use vstd::prelude::*;

verus! {

/// Characters of the base64 part of a token.
pub const TOKEN_DIGITS: usize = 86;

/// Whether `b` may stand in the base64 part of a token: a letter, a digit,
/// `+`, `/` or a backslash.
pub open spec fn is_token_byte(b: u8) -> bool {
    ||| 0x41 <= b <= 0x5a
    ||| 0x61 <= b <= 0x7a
    ||| 0x30 <= b <= 0x39
    ||| b == 0x2b
    ||| b == 0x2f
    ||| b == 0x5c
}

/// Whether the word `sig` stands at `at`.
pub open spec fn sig_word_at(m: Seq<u8>, at: int) -> bool {
    &&& 0 <= at
    &&& at + 3 <= m.len()
    &&& m[at] == 0x73
    &&& m[at + 1] == 0x69
    &&& m[at + 2] == 0x67
}

/// Whether the word `ed25519` stands at `at`.
pub open spec fn key_word_at(m: Seq<u8>, at: int) -> bool {
    &&& 0 <= at
    &&& at + 7 <= m.len()
    &&& m[at] == 0x65
    &&& m[at + 1] == 0x64
    &&& m[at + 2] == 0x32
    &&& m[at + 3] == 0x35
    &&& m[at + 4] == 0x35
    &&& m[at + 5] == 0x31
    &&& m[at + 6] == 0x39
}

/// The number of bytes of the character that starts at `q` in UTF-8 text,
/// read off its first byte; 0 where no character starts, or a line feed.
pub open spec fn separator_width(m: Seq<u8>, q: int) -> int {
    if q < 0 || q >= m.len() || m[q] == 0x0a {
        0
    } else if m[q] < 0x80 {
        1
    } else if 0xc0 <= m[q] < 0xe0 {
        2
    } else if 0xe0 <= m[q] < 0xf0 {
        3
    } else if 0xf0 <= m[q] < 0xf8 {
        4
    } else {
        0
    }
}

/// Whether the suffix stands at `q`: one character, `sig`, one character,
/// `ed25519`.
pub open spec fn suffix_at(m: Seq<u8>, q: int) -> bool {
    let a = separator_width(m, q);
    let b = separator_width(m, q + a + 3);
    a > 0 && sig_word_at(m, q + a) && b > 0 && key_word_at(m, q + a + 3 + b)
}

/// Whether a signature token starts at `p`.
pub open spec fn token_at(m: Seq<u8>, p: int) -> bool {
    &&& 0 <= p
    &&& p + TOKEN_DIGITS + 2 <= m.len()
    &&& forall|k: int| p <= k < p + TOKEN_DIGITS ==> is_token_byte(#[trigger] m[k])
    &&& m[p + TOKEN_DIGITS] == 0x3d
    &&& m[p + TOKEN_DIGITS + 1] == 0x3d
    &&& suffix_at(m, p + TOKEN_DIGITS + 2)
}

/// Whether the token at `p` encodes a last byte with its three highest bits
/// clear: its 85th character is one of `A` to `H`.
pub open spec fn regular_at(m: Seq<u8>, p: int) -> bool {
    0x41 <= m[p + TOKEN_DIGITS - 2] <= 0x48
}

/// Whether the leftmost signature token starts at `p`.
pub open spec fn leftmost_token_at(m: Seq<u8>, p: int) -> bool {
    token_at(m, p) && forall|q: int| 0 <= q < p ==> !#[trigger] token_at(m, q)
}

/// Whether the leftmost signature token of the string is not regular.
pub open spec fn irregular_signature(m: Seq<u8>) -> bool {
    exists|p: int| #[trigger] leftmost_token_at(m, p) && !regular_at(m, p)
}

fn is_token(b: u8) -> (r: bool)
    ensures
        r == is_token_byte(b),
{
    (0x41 <= b && b <= 0x5a) || (0x61 <= b && b <= 0x7a) || (0x30 <= b && b <= 0x39) || b == 0x2b
        || b == 0x2f || b == 0x5c
}

fn sig_word(m: &[u8], at: usize) -> (r: bool)
    ensures
        r == sig_word_at(m@, at as int),
{
    at <= m.len() && m.len() - at >= 3 && m[at] == 0x73 && m[at + 1] == 0x69 && m[at + 2] == 0x67
}

fn key_word(m: &[u8], at: usize) -> (r: bool)
    ensures
        r == key_word_at(m@, at as int),
{
    at <= m.len() && m.len() - at >= 7 && m[at] == 0x65 && m[at + 1] == 0x64 && m[at + 2] == 0x32
        && m[at + 3] == 0x35 && m[at + 4] == 0x35 && m[at + 5] == 0x31 && m[at + 6] == 0x39
}

fn width(m: &[u8], q: usize) -> (r: usize)
    ensures
        r == separator_width(m@, q as int),
        r <= 4,
{
    if q >= m.len() || m[q] == 0x0a {
        0
    } else if m[q] < 0x80 {
        1
    } else if 0xc0 <= m[q] && m[q] < 0xe0 {
        2
    } else if 0xe0 <= m[q] && m[q] < 0xf0 {
        3
    } else if 0xf0 <= m[q] && m[q] < 0xf8 {
        4
    } else {
        0
    }
}

/// Whether the suffix stands at `q`.
fn suffix_follows(m: &[u8], q: usize) -> (r: bool)
    requires
        q <= m@.len(),
    ensures
        r == suffix_at(m@, q as int),
{
    let n = m.len();
    if n - q < 12 {
        return false;
    }
    let a = width(m, q);
    if a == 0 || !sig_word(m, q + a) {
        return false;
    }
    let b = width(m, q + a + 3);
    b > 0 && key_word(m, q + a + 3 + b)
}

/// Whether the leftmost signature token of the string is not regular. One
/// pass over the bytes, keeping the length of the run of token bytes that
/// ends at the current position.
pub fn has_irregular_signature(m: &[u8]) -> (r: bool)
    ensures
        r == irregular_signature(m@),
{
    let n = m.len();
    let mut run: usize = 0;
    let mut i: usize = 0;
    while i < n
        invariant
            n == m@.len(),
            i <= n,
            run <= i,
            forall|k: int| i - run <= k < i ==> is_token_byte(#[trigger] m@[k]),
            run < i ==> !is_token_byte(m@[i - run - 1]),
            forall|p: int| 0 <= p && p + TOKEN_DIGITS < i ==> !#[trigger] token_at(m@, p),
        decreases n - i,
    {
        let b = m[i];
        if b == 0x3d && run >= TOKEN_DIGITS && n - i >= 2 && m[i + 1] == 0x3d && suffix_follows(
            m,
            i + 2,
        ) {
            assert(leftmost_token_at(m@, i - TOKEN_DIGITS));
            let regular = 0x41 <= m[i - 2] && m[i - 2] <= 0x48;
            proof {
                assert forall|p: int| #[trigger] leftmost_token_at(m@, p) implies p == i
                    - TOKEN_DIGITS by {
                    if p < i - TOKEN_DIGITS {
                        assert(!token_at(m@, p));
                    } else if p > i - TOKEN_DIGITS {
                        assert(token_at(m@, i - TOKEN_DIGITS));
                    }
                }
            }
            return !regular;
        }
        assert forall|p: int| 0 <= p && p + TOKEN_DIGITS == i implies !#[trigger] token_at(m@, p) by {
            if token_at(m@, p) && run < TOKEN_DIGITS {
                assert(is_token_byte(m@[i - run - 1]));
            }
        }
        if is_token(b) {
            run = run + 1;
        } else {
            run = 0;
        }
        i = i + 1;
    }
    assert forall|p: int| !#[trigger] leftmost_token_at(m@, p) by {
        if token_at(m@, p) {
            assert(p + TOKEN_DIGITS < n);
        }
    }
    false
}

} // verus!
