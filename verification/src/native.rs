//! What the standard library is trusted for: the bytes of a path, the test
//! for UTF-8, and the lossy rendering of bytes. Nothing here is proved.

use std::path::Path;
use vstd::prelude::*;
use vstd::string::StringSliceAdditionalSpecFns;
use vstd::utf8::valid_utf8;

verus! {

/// `std::path::Path`, carried through as an opaque value.
#[verifier::external_type_specification]
#[verifier::external_body]
pub struct ExPath(Path);

/// `core::str::Utf8Error`, the error of `core::str::from_utf8`. Nothing is
/// read from it.
#[verifier::external_type_specification]
#[verifier::external_body]
pub struct ExUtf8Error(core::str::Utf8Error);

/// The bytes that a path holds, in the platform's encoding of paths: what
/// `OsStr::as_encoded_bytes` yields for it.
pub uninterp spec fn path_bytes(path: &Path) -> Seq<u8>;

/// Calls `Path::as_os_str`, then `OsStr::as_encoded_bytes`: a view of the
/// path's own bytes, without a copy. Trusted: the slice holds exactly the
/// bytes that `path_bytes` names.
#[verifier::external_body]
pub(crate) fn encoded_bytes(path: &Path) -> (bytes: &[u8])
    ensures
        bytes@ == path_bytes(path),
{
    path.as_os_str().as_encoded_bytes()
}

/// `core::str::from_utf8`. Trusted: it succeeds exactly on well-formed
/// UTF-8, and the text it returns is a view of the very bytes it was given.
pub assume_specification<'a>[ core::str::from_utf8 ](bytes: &'a [u8]) -> (r: Result<
    &'a str,
    core::str::Utf8Error,
>)
    ensures
        r is Ok <==> valid_utf8(bytes@),
        r matches Ok(text) ==> text.spec_bytes() == bytes@,
;

/// The text that `String::from_utf8_lossy` makes of `bytes`: the well-formed
/// parts decoded, each ill-formed part shown as U+FFFD. How a run of
/// ill-formed bytes is cut into parts is the standard library's matter, so
/// the text is named and not written out.
pub uninterp spec fn lossy_text(bytes: Seq<u8>) -> Seq<char>;

/// Calls `String::from_utf8_lossy` and takes the result as an owned string.
/// Trusted: the string is the text that `lossy_text` names.
#[verifier::external_body]
pub(crate) fn lossy_rendering(bytes: &[u8]) -> (text: String)
    ensures
        text@ == lossy_text(bytes@),
{
    String::from_utf8_lossy(bytes).into_owned()
}

} // verus!
