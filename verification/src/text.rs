//! What is taken on trust of the standard library's UTF-8 decoding.

use vstd::prelude::*;
use vstd::utf8::*;

verus! {

/// The error of `String::from_utf8`, of which nothing is read.
#[verifier::external_type_specification]
#[verifier::external_body]
pub struct ExFromUtf8Error(std::string::FromUtf8Error);

/// `String::from_utf8` succeeds on exactly the byte vectors that are
/// well-formed UTF-8, and the string it makes then consists of those bytes.
pub assume_specification[ String::from_utf8 ](vec: Vec<u8>) -> (result: Result<
    String,
    std::string::FromUtf8Error,
>)
    ensures
        result is Ok <==> valid_utf8(vec@),
        result matches Ok(text) ==> encode_utf8(text@) == vec@,
;

} // verus!
