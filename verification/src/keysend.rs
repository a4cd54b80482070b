//! Keysend arguments: a destination public key in its canonical compressed
//! form, and an amount, encoded for the provider as two strings.

use vstd::prelude::*;

use crate::text::{bytes_to_hex, spec_decimal, spec_hex, u64_to_decimal};
use crate::value::{spec_obj_strings, DynValue};

verus! {

/// A node public key, held as its canonical 33-byte compressed-point
/// serialization. Parsing and validating a key is the business of a
/// cryptographic library; this layer only carries the parsed bytes and
/// serializes them back to their canonical hexadecimal string.
#[derive(Debug, Clone, PartialEq, Eq)]
pub struct PublicKey {
    bytes: Vec<u8>,
}

impl View for PublicKey {
    type V = Seq<u8>;

    closed spec fn view(&self) -> Seq<u8> {
        self.bytes@
    }
}

impl PublicKey {
    /// A well-formed key holds exactly the 33 bytes of a compressed point.
    pub open spec fn wf(&self) -> bool {
        self@.len() == 33
    }

    /// Build a key from its compressed-point serialization; any byte string
    /// of a different length is refused.
    pub fn from_compressed_bytes(bytes: Vec<u8>) -> (r: Option<PublicKey>)
        ensures
            bytes@.len() == 33 ==> (r matches Some(k) && k@ == bytes@ && k.wf()),
            bytes@.len() != 33 ==> r is None,
    {
        if bytes.len() == 33 {
            Some(PublicKey { bytes })
        } else {
            None
        }
    }

    /// The canonical lower-case hexadecimal form of the key.
    pub fn to_hex(&self) -> (r: String)
        ensures
            r@ == spec_hex(self@),
    {
        bytes_to_hex(&self.bytes)
    }
}

/// Arguments for a keysend payment: the destination key and an amount in
/// satoshis. No bound on the amount is enforced at this layer; any bound
/// checking is the provider's responsibility.
#[derive(Debug, Clone, PartialEq, Eq)]
pub struct KeysendArgs {
    /// The public key of the destination node.
    pub destination: PublicKey,
    /// The amount, in satoshis.
    pub amount: u64,
}

/// The wire encoding of keysend arguments: the destination as its canonical
/// hexadecimal string, and the amount as its base-10 text. Both keys are
/// always present.
pub open spec fn spec_encode_keysend(a: KeysendArgs) -> Seq<(Seq<char>, Seq<char>)> {
    seq![
        ("destination"@, spec_hex(a.destination@)),
        ("amount"@, spec_decimal(a.amount as int)),
    ]
}

impl KeysendArgs {
    /// Encode the arguments as the provider's dynamic object.
    pub fn encode(&self) -> (r: DynValue)
        ensures
            r matches DynValue::Obj(fields) && spec_obj_strings(
                fields@,
                spec_encode_keysend(*self),
            ),
    {
        let mut fields: Vec<(String, DynValue)> = Vec::new();
        fields.push((String::from_str("destination"), DynValue::Str(self.destination.to_hex())));
        fields.push((String::from_str("amount"), DynValue::Str(u64_to_decimal(self.amount))));
        DynValue::Obj(fields)
    }
}

} // verus!
