//! Decoding a response body as UTF-8 text.

use vstd::prelude::*;
use vstd::utf8::{decode_utf8, valid_utf8};

use crate::error::FetchError;

verus! {

/// The most bytes of an undecodable body that its diagnostic snippet shows.
pub const SNIPPET_LIMIT: usize = 128;

/// The text that `String::from_utf8_lossy` makes of `b`: each invalid
/// sequence replaced by U+FFFD.
pub uninterp spec fn lossy_utf8(b: Seq<u8>) -> Seq<char>;

/// Relies on `std::str::from_utf8`: it succeeds exactly on valid UTF-8 and then
/// holds the text that the bytes encode; its error is kept as its description.
#[verifier::external_body]
fn strict_utf8(b: &[u8]) -> (r: Result<String, String>)
    ensures
        r is Ok <==> valid_utf8(b@),
        r is Ok ==> r->Ok_0@ == decode_utf8(b@),
{
    match std::str::from_utf8(b) {
        Ok(s) => Ok(s.to_string()),
        Err(e) => Err(e.to_string()),
    }
}

/// Relies on `String::from_utf8_lossy`: the result depends on the bytes alone,
/// and valid UTF-8 comes back as the text it encodes.
#[verifier::external_body]
fn lossy_text(b: &[u8]) -> (r: String)
    ensures
        r@ == lossy_utf8(b@),
        valid_utf8(b@) ==> r@ == decode_utf8(b@),
{
    String::from_utf8_lossy(b).into_owned()
}

/// How many leading bytes of an `n`-byte body the snippet shows.
pub open spec fn snippet_len(n: nat) -> nat {
    if n < SNIPPET_LIMIT {
        n
    } else {
        SNIPPET_LIMIT as nat
    }
}

/// The snippet of an undecodable body `b`: its first bytes, decoded lossily.
pub open spec fn snippet_of(b: Seq<u8>) -> Seq<char> {
    lossy_utf8(b.take(snippet_len(b.len()) as int))
}

/// What decoding the body `b` yields: its text when it is valid UTF-8, else a
/// `DecodeError` whose snippet is `snippet_of(b)`.
pub open spec fn decoded_as(b: Seq<u8>, r: Result<String, FetchError>) -> bool {
    match r {
        Ok(text) => valid_utf8(b) && text@ == decode_utf8(b),
        Err(FetchError::DecodeError { reason, snippet }) => !valid_utf8(b) && snippet@ == snippet_of(b),
        Err(_) => false,
    }
}

/// The diagnostic snippet of a body: at most `SNIPPET_LIMIT` leading bytes,
/// decoded lossily.
pub fn snippet(bytes: &[u8]) -> (r: String)
    ensures
        r@ == snippet_of(bytes@),
{
    let n: usize = if bytes.len() < SNIPPET_LIMIT {
        bytes.len()
    } else {
        SNIPPET_LIMIT
    };
    let mut head: Vec<u8> = Vec::new();
    let mut i: usize = 0;
    while i < n
        invariant
            n == snippet_len(bytes@.len()),
            n <= bytes@.len(),
            i <= n,
            head@ == bytes@.take(i as int),
        decreases n - i,
    {
        head.push(bytes[i]);
        i = i + 1;
        assert(head@ =~= bytes@.take(i as int));
    }
    lossy_text(head.as_slice())
}

/// Decodes a whole body as UTF-8 text.
pub fn decode_body(bytes: &[u8]) -> (r: Result<String, FetchError>)
    ensures
        decoded_as(bytes@, r),
{
    match strict_utf8(bytes) {
        Ok(text) => Ok(text),
        Err(reason) => Err(FetchError::DecodeError { reason, snippet: snippet(bytes) }),
    }
}

} // verus!
