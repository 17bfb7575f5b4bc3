//! What this crate takes on trust.
//!
//! The random generator, SHA-256, base64, percent-encoding and the trimming of
//! text are the work of other code. Verus does not look into them: it believes
//! what is stated here of each call, and everything else in the crate is proved
//! from these statements. Each item names the function it stands for.

use vstd::prelude::*;
use vstd::utf8::encode_utf8;
use crate::pkce::{all_base64url, base64_unpadded_len};
use crate::prompt::trimmed;
use crate::url::percent_encode;

verus! {

/// The SHA-256 digest of `data`, as `sha2::Sha256::digest` computes it. The
/// digest is not written out here; it is only given this name.
pub uninterp spec fn sha256(data: Seq<u8>) -> Seq<u8>;

/// The URL-safe base64 text of `data` without padding, as the
/// `URL_SAFE_NO_PAD` engine of `base64` computes it. The text is not written
/// out here; it is only given this name.
pub uninterp spec fn base64url_nopad(data: Seq<u8>) -> Seq<char>;

/// Whether `c` counts as whitespace for `str::trim`, that is, whether it has
/// Unicode's `White_Space` property. The characters are not listed here; the
/// property is only given this name.
pub uninterp spec fn is_whitespace(c: char) -> bool;

/// `rand::rngs::ThreadRng`, the generator that each thread seeds from the
/// operating system. A value of it is only passed on.
#[verifier::external_type_specification]
#[verifier::external_body]
pub struct ExThreadRng(rand::rngs::ThreadRng);

/// `rand::thread_rng`: hands out the calling thread's generator. Nothing is
/// claimed of it. Where the operating system cannot seed the generator, the
/// call panics; that failure is taken to end the process.
pub assume_specification[ rand::thread_rng ]() -> (rng: rand::rngs::ThreadRng);

/// `rand::Rng::gen_range` on `0..bound`: some index below `bound`. Which one is
/// a matter of chance, so only the range is claimed. The range must not be
/// empty, since `gen_range` panics on an empty one.
#[verifier::external_body]
pub(crate) fn random_below(rng: &mut rand::rngs::ThreadRng, bound: usize) -> (index: usize)
    requires
        bound > 0,
    ensures
        index < bound,
{
    rand::Rng::gen_range(rng, 0..bound)
}

/// `sha2::Sha256::digest`: the SHA-256 digest of `data`, which is a function of
/// `data` alone and 32 bytes long.
#[verifier::external_body]
pub(crate) fn sha256_digest(data: &[u8]) -> (digest: Vec<u8>)
    ensures
        digest@ == sha256(data@),
        digest@.len() == 32,
{
    let digest = <sha2::Sha256 as sha2::Digest>::digest(data);
    digest.to_vec()
}

/// `base64::Engine::encode` of the `URL_SAFE_NO_PAD` engine: the base64 text of
/// `data`, which is a function of `data` alone, has four characters for each
/// full group of three bytes and two or three for a last group of one or two,
/// and holds only characters of the URL-safe alphabet. The engine panics where
/// that length does not fit in `usize`.
#[verifier::external_body]
pub(crate) fn base64url_encode(data: &[u8]) -> (text: String)
    requires
        (data@.len() / 3) * 4 + 3 <= usize::MAX,
    ensures
        text@ == base64url_nopad(data@),
        text@.len() == base64_unpadded_len(data@.len()),
        all_base64url(text@),
{
    base64::Engine::encode(&base64::engine::general_purpose::URL_SAFE_NO_PAD, data)
}

/// `urlencoding::encode`: goes through the UTF-8 bytes of `text` in order,
/// keeps each ASCII letter, digit, `-`, `.`, `_` and `~`, and writes any other
/// byte as `%` followed by its two upper-case hexadecimal digits.
#[verifier::external_body]
pub(crate) fn url_encode(text: &str) -> (encoded: String)
    ensures
        encoded@ == percent_encode(encode_utf8(text@)),
{
    urlencoding::encode(text).into_owned()
}

/// `str::trim`: the part of `text` that is left when the whitespace at its
/// start and at its end is taken away, so that what is left neither begins
/// nor ends with whitespace.
#[verifier::external_body]
pub(crate) fn trim(text: &str) -> (inner: &str)
    ensures
        inner@ == trimmed(text@),
        inner@.len() > 0 ==> !is_whitespace(inner@.first()) && !is_whitespace(inner@.last()),
{
    text.trim()
}

} // verus!
