//! Proof Key for Code Exchange: the random verifier, its challenge, and the
//! random state that guards an authorization attempt.

use vstd::prelude::*;
use vstd::utf8::encode_utf8;
use crate::outside::{base64url_encode, base64url_nopad, random_below, sha256, sha256_digest};

verus! {

/// The characters a verifier or a state may hold: the 66 unreserved characters
/// of a URI.
pub const PKCE_CHARSET: &'static str =
    "ABCDEFGHIJKLMNOPQRSTUVWXYZabcdefghijklmnopqrstuvwxyz0123456789-._~";

/// Number of symbols in [`PKCE_CHARSET`].
pub const CHARSET_LEN: usize = 66;

/// Number of characters in a generated verifier.
pub const VERIFIER_LEN: usize = 128;

/// Number of characters in a generated state.
pub const STATE_LEN: usize = 32;

/// Number of characters in the challenge of any verifier.
pub const CHALLENGE_LEN: usize = 43;

/// Whether `c` is one of `A-Z`, `a-z`, `0-9`, `-`, `.`, `_`, `~`.
pub open spec fn is_unreserved(c: char) -> bool {
    ||| 'A' <= c <= 'Z'
    ||| 'a' <= c <= 'z'
    ||| '0' <= c <= '9'
    ||| c == '-'
    ||| c == '.'
    ||| c == '_'
    ||| c == '~'
}

/// Whether every character of `s` is unreserved.
pub open spec fn all_unreserved(s: Seq<char>) -> bool {
    forall|i: int| 0 <= i < s.len() ==> is_unreserved(#[trigger] s[i])
}

/// Whether `c` belongs to the URL-safe base64 alphabet: `A-Z`, `a-z`, `0-9`,
/// `-`, `_`.
pub open spec fn is_base64url(c: char) -> bool {
    ||| 'A' <= c <= 'Z'
    ||| 'a' <= c <= 'z'
    ||| '0' <= c <= '9'
    ||| c == '-'
    ||| c == '_'
}

/// Whether every character of `s` belongs to the URL-safe base64 alphabet.
pub open spec fn all_base64url(s: Seq<char>) -> bool {
    forall|i: int| 0 <= i < s.len() ==> is_base64url(#[trigger] s[i])
}

/// Length of the unpadded base64 text of `n` bytes.
pub open spec fn base64_unpadded_len(n: nat) -> nat {
    (n / 3) * 4 + if n % 3 == 0 {
        0nat
    } else {
        n % 3 + 1
    }
}

/// The text that a sequence of indices into the alphabet stands for.
pub open spec fn spec_text_from_indices(indices: Seq<usize>) -> Seq<char> {
    Seq::new(indices.len(), |i: int| PKCE_CHARSET@[indices[i] as int])
}

/// The challenge that belongs to `verifier`: the unpadded URL-safe base64 text
/// of the SHA-256 digest of the verifier's bytes.
pub open spec fn spec_code_challenge(verifier: Seq<char>) -> Seq<char> {
    base64url_nopad(sha256(encode_utf8(verifier)))
}

/// Every character of the alphabet is unreserved and ASCII.
proof fn lemma_charset()
    ensures
        PKCE_CHARSET@.len() == CHARSET_LEN,
        all_unreserved(PKCE_CHARSET@),
        PKCE_CHARSET.is_ascii(),
{
    reveal_strlit("ABCDEFGHIJKLMNOPQRSTUVWXYZabcdefghijklmnopqrstuvwxyz0123456789-._~");
}

/// Text over the URL-safe base64 alphabet holds none of `+`, `/` and `=`.
pub proof fn lemma_base64url_has_no_plus_slash_or_pad(text: Seq<char>)
    requires
        all_base64url(text),
    ensures
        forall|i: int|
            0 <= i < text.len() ==> text[i] != '+' && text[i] != '/' && text[i] != '=',
{
}

/// Turns indices into text: the character at each place is the symbol of the
/// alphabet that the index at that place picks. Every index has to pick a
/// symbol.
pub fn text_from_indices(indices: &Vec<usize>) -> (text: String)
    requires
        forall|i: int| 0 <= i < indices@.len() ==> indices@[i] < CHARSET_LEN,
    ensures
        text@ == spec_text_from_indices(indices@),
        text@.len() == indices@.len(),
        all_unreserved(text@),
{
    proof {
        lemma_charset();
    }
    let count = indices.len();
    let mut text = String::new();
    let mut done: usize = 0;
    while done < count
        invariant
            count == indices@.len(),
            done <= count,
            forall|i: int| 0 <= i < indices@.len() ==> indices@[i] < CHARSET_LEN,
            text@ == spec_text_from_indices(indices@.take(done as int)),
            PKCE_CHARSET@.len() == CHARSET_LEN,
            PKCE_CHARSET.is_ascii(),
        decreases count - done,
    {
        let index = indices[done];
        let symbol = PKCE_CHARSET.substring_ascii(index, index + 1);
        text.append(symbol);
        done = done + 1;
    }
    text
}

/// Draws `count` indices into the alphabet, each by one call of the random
/// generator.
fn random_indices(count: usize) -> (indices: Vec<usize>)
    ensures
        indices@.len() == count,
        forall|i: int| 0 <= i < indices@.len() ==> indices@[i] < CHARSET_LEN,
{
    let mut rng = rand::thread_rng();
    let mut indices: Vec<usize> = Vec::new();
    while indices.len() < count
        invariant
            indices@.len() <= count,
            forall|i: int| 0 <= i < indices@.len() ==> indices@[i] < CHARSET_LEN,
        decreases count - indices@.len(),
    {
        let index = random_below(&mut rng, CHARSET_LEN);
        indices.push(index);
    }
    indices
}

/// Draws `len` characters from the alphabet at random.
pub(crate) fn random_text(len: usize) -> (text: String)
    ensures
        text@.len() == len,
        all_unreserved(text@),
{
    let indices = random_indices(len);
    text_from_indices(&indices)
}

/// Computes the challenge of `verifier`.
///
/// The result is a function of the verifier alone. It is 43 characters long
/// and holds only characters of the URL-safe base64 alphabet, so none of `+`,
/// `/` and `=`.
pub fn code_challenge(verifier: &str) -> (challenge: String)
    ensures
        challenge@ == spec_code_challenge(verifier@),
        challenge@.len() == CHALLENGE_LEN,
        all_base64url(challenge@),
        forall|i: int|
            0 <= i < challenge@.len() ==> challenge@[i] != '+' && challenge@[i] != '/'
                && challenge@[i] != '=',
{
    let digest = sha256_digest(verifier.as_bytes());
    base64url_encode(digest.as_slice())
}

} // verus!
