//! The one way a conversion can fail.

use vstd::prelude::*;
use vstd::string::StringExecFns;

verus! {

/// A native value that is not valid UTF-8.
///
/// The field holds the value's lossy rendering: text for a person to read,
/// in which each part that is not UTF-8 is shown by a replacement character.
/// It owns that text, so it outlives the value that was refused.
#[derive(Debug)]
pub struct InvalidUtf8Error(pub String);

impl View for InvalidUtf8Error {
    type V = Seq<char>;

    /// The rendering that the error carries.
    open spec fn view(&self) -> Seq<char> {
        self.0@
    }
}

/// The message of an error that carries `rendering`.
pub open spec fn message_text(rendering: Seq<char>) -> Seq<char> {
    "Invalid utf-8 encoding: "@ + rendering
}

impl InvalidUtf8Error {
    /// The message for a person to read: a fixed prefix, then the rendering.
    pub fn message(&self) -> (text: String)
        ensures
            text@ == message_text(self@),
    {
        String::from_str("Invalid utf-8 encoding: ").concat(self.0.as_str())
    }
}

} // verus!
