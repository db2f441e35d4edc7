//! The conversion itself: a value's bytes are either UTF-8, and then they
//! are its text, or they are not, and then the value is refused.

use crate::error::InvalidUtf8Error;
use crate::native::{encoded_bytes, lossy_rendering, lossy_text, path_bytes};
use std::path::Path;
use vstd::prelude::*;
use vstd::string::StringSliceAdditionalSpecFns;
use vstd::utf8::{decode_utf8, encode_utf8_decode_utf8, valid_utf8};

verus! {

/// What converting a value with these bytes yields: its text where the bytes
/// are well-formed UTF-8, else the rendering that the error carries.
pub open spec fn conversion(bytes: Seq<u8>) -> Result<Seq<char>, Seq<char>> {
    if valid_utf8(bytes) {
        Ok(decode_utf8(bytes))
    } else {
        Err(lossy_text(bytes))
    }
}

/// What converting a fragment yields: nothing for an absent one, else what
/// converting the value yields.
pub open spec fn fragment_conversion(fragment: Option<Seq<u8>>) -> Result<
    Option<Seq<char>>,
    Seq<char>,
> {
    match fragment {
        None => Ok(None),
        Some(bytes) => match conversion(bytes) {
            Ok(text) => Ok(Some(text)),
            Err(rendering) => Err(rendering),
        },
    }
}

/// The result of a conversion, as plain values.
pub open spec fn outcome(r: Result<&str, InvalidUtf8Error>) -> Result<Seq<char>, Seq<char>> {
    match r {
        Ok(text) => Ok(text@),
        Err(e) => Err(e@),
    }
}

/// The result of converting a fragment, as plain values.
pub open spec fn fragment_outcome(r: Result<Option<&str>, InvalidUtf8Error>) -> Result<
    Option<Seq<char>>,
    Seq<char>,
> {
    match r {
        Ok(None) => Ok(None),
        Ok(Some(text)) => Ok(Some(text@)),
        Err(e) => Err(e@),
    }
}

/// A native value that can be read as text.
pub trait PathStrExt {
    /// The value's bytes in the platform's encoding.
    spec fn native_bytes(&self) -> Seq<u8>;

    /// The value as text, borrowed from the value itself, or the error that
    /// carries its rendering.
    fn try_to_str(&self) -> (r: Result<&str, InvalidUtf8Error>)
        ensures
            outcome(r) == conversion(self.native_bytes()),
            r matches Ok(text) ==> text.spec_bytes() == self.native_bytes(),
    ;
}

/// A fragment of a path, which may be absent, that can be read as text.
pub trait OptionPathStrExt {
    /// The fragment's bytes, where there is a fragment.
    spec fn native_bytes(&self) -> Option<Seq<u8>>;

    /// The fragment as text, `None` for an absent one, or the error that
    /// carries its rendering.
    fn try_to_str(&self) -> (r: Result<Option<&str>, InvalidUtf8Error>)
        ensures
            fragment_outcome(r) == fragment_conversion(self.native_bytes()),
            r matches Ok(Some(text)) ==> Some(text.spec_bytes()) == self.native_bytes(),
    ;
}

/// A native value given as its bytes: the conversion that every other value
/// goes through.
impl PathStrExt for [u8] {
    open spec fn native_bytes(&self) -> Seq<u8> {
        self@
    }

    fn try_to_str(&self) -> (r: Result<&str, InvalidUtf8Error>) {
        match core::str::from_utf8(self) {
            Ok(text) => {
                proof {
                    encode_utf8_decode_utf8(text@);
                }
                Ok(text)
            },
            Err(_) => Err(InvalidUtf8Error(lossy_rendering(self))),
        }
    }
}

/// A path converts as its bytes do, and its text is a view of those bytes.
impl PathStrExt for Path {
    open spec fn native_bytes(&self) -> Seq<u8> {
        path_bytes(self)
    }

    fn try_to_str(&self) -> (r: Result<&str, InvalidUtf8Error>) {
        encoded_bytes(self).try_to_str()
    }
}

/// A fragment of any kind of value: a parent as `Option<&Path>`, a file
/// name, stem or extension as `Option<&Path>` or as `Option<&[u8]>`. An
/// absent fragment is no error; a present one converts as the value does.
impl<'a, T: PathStrExt + ?Sized> OptionPathStrExt for Option<&'a T> {
    open spec fn native_bytes(&self) -> Option<Seq<u8>> {
        match self {
            None => None,
            Some(value) => Some(value.native_bytes()),
        }
    }

    fn try_to_str(&self) -> (r: Result<Option<&str>, InvalidUtf8Error>) {
        match self {
            None => Ok(None),
            Some(value) => match value.try_to_str() {
                Ok(text) => Ok(Some(text)),
                Err(e) => Err(e),
            },
        }
    }
}

} // verus!
