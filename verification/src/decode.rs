//! Decoding captured bytes as UTF-8 text.

use vstd::prelude::*;
use vstd::utf8::{decode_utf8, valid_utf8};
use crate::error::{result_model, ApplicationError, ErrorModel};

verus! {

/// The error with which std rejects bytes that are not UTF-8. Nothing is read
/// from it.
#[verifier::external_type_specification]
#[verifier::external_body]
pub struct ExFromUtf8Error(std::string::FromUtf8Error);

/// `String::from_utf8` of std: it succeeds exactly on well-formed UTF-8, and
/// the string it gives holds the characters that the bytes encode.
pub assume_specification[ String::from_utf8 ](bytes: Vec<u8>) -> (res: Result<
    String,
    std::string::FromUtf8Error,
>)
    ensures
        res.is_ok() == valid_utf8(bytes@),
        res matches Ok(text) ==> text@ == decode_utf8(bytes@),
;

/// The text that captured bytes stand for, or the encoding error.
pub open spec fn decoded_model(bytes: Seq<u8>) -> Result<Seq<char>, ErrorModel> {
    if valid_utf8(bytes) {
        Ok(decode_utf8(bytes))
    } else {
        Err(ErrorModel::StringFormatError)
    }
}

/// Decodes captured output as UTF-8 text. Bytes that are not well-formed
/// UTF-8 give [`ApplicationError::StringFormatError`].
pub fn decode_output(bytes: Vec<u8>) -> (res: Result<String, ApplicationError>)
    ensures
        result_model(res) == decoded_model(bytes@),
{
    match String::from_utf8(bytes) {
        Ok(text) => Ok(text),
        Err(_) => Err(ApplicationError::StringFormatError),
    }
}

} // verus!
