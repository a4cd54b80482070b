//! The message-signing result: the caller's original message echoed back,
//! plus the signature the provider returned.

use vstd::prelude::*;
use vstd::string::*;

use crate::error::{Error, ErrorView};
use crate::value::{read_required_string, spec_required_string, DynValue};

verus! {

/// The result of signing a message. The message field is the caller's
/// original string: the decoder does not re-read it from the provider.
#[derive(Debug, Clone, PartialEq, Eq)]
pub struct SignMessageResponse {
    /// The message that was signed, as the caller supplied it.
    pub message: String,
    /// The signature the provider returned.
    pub signature: String,
}

/// How a dynamic value decodes as a signing result: an object with a
/// required string property `signature`. Any `message` property the
/// provider echoes is ignored.
pub open spec fn spec_decode_sign_message(v: DynValue) -> Result<Seq<char>, ErrorView> {
    match v {
        DynValue::Obj(fields) => spec_required_string(
            fields@,
            "signature"@,
            "expected a string [signature]"@,
        ),
        _ => Err(ErrorView::SomethingGoneWrong),
    }
}

impl SignMessageResponse {
    /// Decode a dynamic value as a signing result, pairing the provider's
    /// signature with the caller's original message.
    pub fn deserialize(message: &str, value: &DynValue) -> (r: Result<SignMessageResponse, Error>)
        ensures
            match spec_decode_sign_message(*value) {
                Ok(sig) => r matches Ok(resp) && resp.message@ == message@ && resp.signature@
                    == sig,
                Err(ev) => r matches Err(e) && e@ == ev,
            },
    {
        match value {
            DynValue::Obj(fields) => match read_required_string(
                fields,
                "signature",
                "expected a string [signature]",
            ) {
                Ok(s) => Ok(
                    SignMessageResponse { message: String::from_str(message), signature: s },
                ),
                Err(e) => Err(e),
            },
            _ => Err(Error::SomethingGoneWrong),
        }
    }
}

} // verus!
