//! Image bytes as a `data:` URI.
//!
//! The bytes are encoded with standard base64 (padded) through the `base64`
//! crate, and framed as `data:<mime>;base64,<encoded>` with the MIME type
//! that `crate::mime` derives from the file's extension.

use vstd::prelude::*;
use vstd::string::StringExecFns;
use crate::mime::mime_of_path;
use base64::Engine;

verus! {

/// What `base64::engine::general_purpose::STANDARD` encodes `bytes` to: the
/// standard alphabet with `=` padding, a function of the bytes alone.
pub uninterp spec fn base64_standard(bytes: Seq<u8>) -> Seq<char>;

/// The `data:` URI for the image at `p` whose bytes are `b`.
pub open spec fn data_uri_of(p: Seq<char>, b: Seq<u8>) -> Seq<char> {
    "data:"@ + mime_of_path(p) + ";base64,"@ + base64_standard(b)
}

/// Law: a `data:` URI splits back into its frame, its MIME type and its
/// base64 payload — the scheme prefix, the MIME type, the `;base64,`
/// marker and the encoded bytes stand at fixed places.
pub proof fn lemma_data_uri_shape(p: Seq<char>, b: Seq<u8>)
    ensures
        data_uri_of(p, b).len() == 13 + mime_of_path(p).len() + base64_standard(b).len(),
        data_uri_of(p, b).take(5) == "data:"@,
        data_uri_of(p, b).subrange(5, 5 + mime_of_path(p).len() as int) == mime_of_path(p),
        data_uri_of(p, b).subrange(
            5 + mime_of_path(p).len() as int,
            13 + mime_of_path(p).len() as int,
        ) == ";base64,"@,
        data_uri_of(p, b).skip(13 + mime_of_path(p).len() as int) == base64_standard(b),
{
    reveal_strlit("data:");
    reveal_strlit(";base64,");
    let m = mime_of_path(p);
    let e = base64_standard(b);
    assert(data_uri_of(p, b).take(5) =~= "data:"@);
    assert(data_uri_of(p, b).subrange(5, 5 + m.len() as int) =~= m);
    assert(data_uri_of(p, b).subrange(5 + m.len() as int, 13 + m.len() as int) =~= ";base64,"@);
    assert(data_uri_of(p, b).skip(13 + m.len() as int) =~= e);
}

/// Relies on `Engine::encode` of the `base64` crate with the `STANDARD`
/// engine: standard alphabet, `=` padding, four output characters for every
/// three input bytes begun.
#[verifier::external_body]
fn base64_encode(bytes: &[u8]) -> (r: String)
    requires
        4 * ((bytes@.len() + 2) / 3) <= usize::MAX,
    ensures
        r@ == base64_standard(bytes@),
        r@.len() == 4 * ((bytes@.len() + 2) / 3),
{
    base64::engine::general_purpose::STANDARD.encode(bytes)
}

/// The `data:` URI carrying `bytes` as base64, with the MIME type derived
/// from the extension of `path`.
pub fn image_data_uri(path: &str, bytes: &[u8]) -> (r: String)
    requires
        4 * ((bytes@.len() + 2) / 3) <= usize::MAX,
    ensures
        r@ == data_uri_of(path@, bytes@),
{
    let mime = crate::mime::mime_type_for_path(path);
    let encoded = base64_encode(bytes);
    let mut r = String::from_str("data:");
    r.append(mime.as_str());
    r.append(";base64,");
    r.append(encoded.as_str());
    proof {
        assert(r@ =~= data_uri_of(path@, bytes@));
    }
    r
}

} // verus!
