//! What holds of every conversion, proved from the contracts.

use crate::convert::{conversion, fragment_conversion, fragment_outcome, outcome};
use crate::error::{message_text, InvalidUtf8Error};
use crate::native::lossy_text;
use vstd::prelude::*;
use vstd::utf8::{
    decode_utf8, decode_utf8_encode_utf8, encode_utf8, encode_utf8_decode_utf8,
    encode_utf8_valid_utf8, valid_utf8,
};

verus! {

/// A value made from text converts back to that very text: the UTF-8
/// encoding of any text is accepted, and what comes out is the text that
/// went in.
pub proof fn lemma_text_round_trip(text: Seq<char>)
    ensures
        conversion(encode_utf8(text)) == Ok::<Seq<char>, Seq<char>>(text),
        fragment_conversion(Some(encode_utf8(text))) == Ok::<Option<Seq<char>>, Seq<char>>(
            Some(text),
        ),
{
    encode_utf8_valid_utf8(text);
    encode_utf8_decode_utf8(text);
}

/// Text that a conversion gives encodes to exactly the bytes that were
/// converted: nothing is changed and nothing is cut off.
pub proof fn lemma_text_keeps_bytes(bytes: Seq<u8>)
    requires
        conversion(bytes) is Ok,
    ensures
        encode_utf8(conversion(bytes)->Ok_0) == bytes,
{
    decode_utf8_encode_utf8(bytes);
}

/// An absent fragment converts to `Ok(None)`, and to nothing else.
pub proof fn lemma_absent_fragment(r: Result<Option<&str>, InvalidUtf8Error>)
    requires
        fragment_outcome(r) == fragment_conversion(None),
    ensures
        r == Ok::<Option<&str>, InvalidUtf8Error>(None),
{
}

/// Bytes that are not well-formed UTF-8 are refused, and the error carries
/// their lossy rendering, and so does its message.
pub proof fn lemma_invalid_is_refused(bytes: Seq<u8>, r: Result<&str, InvalidUtf8Error>)
    requires
        !valid_utf8(bytes),
        outcome(r) == conversion(bytes),
    ensures
        r is Err,
        r->Err_0@ == lossy_text(bytes),
        message_text(r->Err_0@) == "Invalid utf-8 encoding: "@ + lossy_text(bytes),
{
}

/// Two conversions of one value end alike: both give the same text, or both
/// give an error with the same rendering and the same message.
pub proof fn lemma_conversion_is_deterministic(
    bytes: Seq<u8>,
    first: Result<&str, InvalidUtf8Error>,
    second: Result<&str, InvalidUtf8Error>,
)
    requires
        outcome(first) == conversion(bytes),
        outcome(second) == conversion(bytes),
    ensures
        outcome(first) == outcome(second),
        first is Ok <==> second is Ok,
        first is Ok ==> first->Ok_0@ == second->Ok_0@,
        first is Err ==> message_text(first->Err_0@) == message_text(second->Err_0@),
{
}

/// The same for fragments: two conversions of one fragment end alike.
pub proof fn lemma_fragment_conversion_is_deterministic(
    fragment: Option<Seq<u8>>,
    first: Result<Option<&str>, InvalidUtf8Error>,
    second: Result<Option<&str>, InvalidUtf8Error>,
)
    requires
        fragment_outcome(first) == fragment_conversion(fragment),
        fragment_outcome(second) == fragment_conversion(fragment),
    ensures
        fragment_outcome(first) == fragment_outcome(second),
        first is Ok <==> second is Ok,
{
}

/// Every value has an outcome, and which one is decided by its bytes alone:
/// text exactly where they are well-formed UTF-8, an error elsewhere.
pub proof fn lemma_conversion_is_total(bytes: Seq<u8>)
    ensures
        conversion(bytes) is Ok <==> valid_utf8(bytes),
        conversion(bytes) is Err <==> !valid_utf8(bytes),
        conversion(bytes) is Ok ==> conversion(bytes)->Ok_0 == decode_utf8(bytes),
        conversion(bytes) is Err ==> conversion(bytes)->Err_0 == lossy_text(bytes),
{
}

/// A present fragment converts as the value itself does.
pub proof fn lemma_fragment_follows_value(bytes: Seq<u8>)
    ensures
        fragment_conversion(Some(bytes)) is Ok <==> conversion(bytes) is Ok,
        conversion(bytes) is Ok ==> fragment_conversion(Some(bytes)) == Ok::<
            Option<Seq<char>>,
            Seq<char>,
        >(Some(conversion(bytes)->Ok_0)),
        conversion(bytes) is Err ==> fragment_conversion(Some(bytes)) == Err::<
            Option<Seq<char>>,
            Seq<char>,
        >(conversion(bytes)->Err_0),
{
}

} // verus!
