//! The calls into std that the library relies on, each with the contract
//! that its documentation gives.
use vstd::prelude::*;

verus! {

/// The characters that lossy UTF-8 decoding gives for a byte sequence,
/// each ill-formed run replaced by U+FFFD.
pub uninterp spec fn utf8_lossy(bytes: Seq<u8>) -> Seq<char>;

/// Relies on `String::from_utf8_lossy`: valid UTF-8 is decoded unchanged,
/// and the result depends on the bytes alone.
#[verifier::external_body]
pub(crate) fn lossy_string(bytes: &[u8]) -> (r: String)
    ensures
        r@ == utf8_lossy(bytes@),
        vstd::utf8::valid_utf8(bytes@) ==> r@ == vstd::utf8::decode_utf8(bytes@),
{
    String::from_utf8_lossy(bytes).into_owned()
}

/// Paths are opaque here: the library takes their platform text as bytes
/// through the two functions below and claims nothing more of them.
#[verifier::external_type_specification]
#[verifier::external_body]
pub struct ExPathBuf(std::path::PathBuf);

#[verifier::external_type_specification]
#[verifier::external_body]
pub struct ExPath(std::path::Path);

/// Relies on `OsString::into_encoded_bytes`: the platform text of an owned
/// path, as bytes.
#[verifier::external_body]
pub(crate) fn path_buf_bytes(p: std::path::PathBuf) -> Vec<u8> {
    p.into_os_string().into_encoded_bytes()
}

/// Relies on `OsStr::as_encoded_bytes`: the platform text of a borrowed
/// path, as bytes.
#[verifier::external_body]
pub(crate) fn path_bytes(p: &std::path::Path) -> Vec<u8> {
    p.as_os_str().as_encoded_bytes().to_vec()
}

} // verus!
