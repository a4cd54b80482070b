//! Invoice requests: the builder-style argument record, its wire encoding
//! with only the populated keys, and the invoice result.

use vstd::prelude::*;

use crate::error::{Error, ErrorView};
use crate::text::{spec_decimal, u64_to_decimal};
use crate::value::{read_required_string, spec_obj_strings, spec_required_string, DynValue};

verus! {

/// Arguments for requesting an invoice. All amounts are denominated in
/// satoshis. Every field is optional; an unset field is omitted entirely
/// from the wire encoding.
#[derive(Debug, Clone, PartialEq, Eq)]
pub struct RequestInvoiceArgs {
    /// The exact amount.
    pub amount: Option<u64>,
    /// The amount the provider should offer by default.
    pub default_amount: Option<u64>,
    /// The smallest acceptable amount.
    pub minimum_amount: Option<u64>,
    /// The largest acceptable amount.
    pub maximum_amount: Option<u64>,
    /// The memo the provider should offer by default.
    pub default_memo: Option<String>,
}

impl Default for RequestInvoiceArgs {
    /// The empty argument record: nothing set.
    fn default() -> (r: Self)
        ensures
            r.amount is None,
            r.default_amount is None,
            r.minimum_amount is None,
            r.maximum_amount is None,
            r.default_memo is None,
    {
        RequestInvoiceArgs {
            amount: None,
            default_amount: None,
            minimum_amount: None,
            maximum_amount: None,
            default_memo: None,
        }
    }
}

/// The wire encoding of an invoice request: only the populated keys, in a
/// fixed order, each amount as its base-10 text under its provider-specific
/// key name.
pub open spec fn spec_encode_invoice_args(a: RequestInvoiceArgs) -> Seq<(Seq<char>, Seq<char>)> {
    (match a.amount {
        Some(n) => seq![("amount"@, spec_decimal(n as int))],
        None => Seq::empty(),
    }) + (match a.default_amount {
        Some(n) => seq![("defaultAmount"@, spec_decimal(n as int))],
        None => Seq::empty(),
    }) + (match a.minimum_amount {
        Some(n) => seq![("minimumAmount"@, spec_decimal(n as int))],
        None => Seq::empty(),
    }) + (match a.maximum_amount {
        Some(n) => seq![("maximumAmount"@, spec_decimal(n as int))],
        None => Seq::empty(),
    }) + (match a.default_memo {
        Some(m) => seq![("defaultMemo"@, m@)],
        None => Seq::empty(),
    })
}

impl RequestInvoiceArgs {
    /// A new, empty argument record.
    pub fn new() -> (r: Self)
        ensures
            r.amount is None,
            r.default_amount is None,
            r.minimum_amount is None,
            r.maximum_amount is None,
            r.default_memo is None,
    {
        Self::default()
    }

    /// Set the exact amount, leaving every other field unchanged.
    pub fn amount(self, amount: u64) -> (r: Self)
        ensures
            r.amount == Some(amount),
            r.default_amount == self.default_amount,
            r.minimum_amount == self.minimum_amount,
            r.maximum_amount == self.maximum_amount,
            r.default_memo == self.default_memo,
    {
        Self { amount: Some(amount), ..self }
    }

    /// Set the default amount, leaving every other field unchanged.
    pub fn default_amount(self, default_amount: u64) -> (r: Self)
        ensures
            r.amount == self.amount,
            r.default_amount == Some(default_amount),
            r.minimum_amount == self.minimum_amount,
            r.maximum_amount == self.maximum_amount,
            r.default_memo == self.default_memo,
    {
        Self { default_amount: Some(default_amount), ..self }
    }

    /// Set the minimum amount, leaving every other field unchanged.
    pub fn minimum_amount(self, minimum_amount: u64) -> (r: Self)
        ensures
            r.amount == self.amount,
            r.default_amount == self.default_amount,
            r.minimum_amount == Some(minimum_amount),
            r.maximum_amount == self.maximum_amount,
            r.default_memo == self.default_memo,
    {
        Self { minimum_amount: Some(minimum_amount), ..self }
    }

    /// Set the maximum amount, leaving every other field unchanged.
    pub fn maximum_amount(self, maximum_amount: u64) -> (r: Self)
        ensures
            r.amount == self.amount,
            r.default_amount == self.default_amount,
            r.minimum_amount == self.minimum_amount,
            r.maximum_amount == Some(maximum_amount),
            r.default_memo == self.default_memo,
    {
        Self { maximum_amount: Some(maximum_amount), ..self }
    }

    /// Set the default memo, leaving every other field unchanged.
    pub fn default_memo(self, default_memo: String) -> (r: Self)
        ensures
            r.amount == self.amount,
            r.default_amount == self.default_amount,
            r.minimum_amount == self.minimum_amount,
            r.maximum_amount == self.maximum_amount,
            r.default_memo == Some(default_memo),
    {
        Self { default_memo: Some(default_memo), ..self }
    }

    /// Encode the arguments as the provider's dynamic object: exactly the
    /// populated keys, in a fixed order, amounts as base-10 strings.
    pub fn encode(&self) -> (r: DynValue)
        ensures
            r matches DynValue::Obj(fields) && spec_obj_strings(
                fields@,
                spec_encode_invoice_args(*self),
            ),
    {
        let mut fields: Vec<(String, DynValue)> = Vec::new();
        if let Some(n) = self.amount {
            fields.push((String::from_str("amount"), DynValue::Str(u64_to_decimal(n))));
        }
        if let Some(n) = self.default_amount {
            fields.push((String::from_str("defaultAmount"), DynValue::Str(u64_to_decimal(n))));
        }
        if let Some(n) = self.minimum_amount {
            fields.push((String::from_str("minimumAmount"), DynValue::Str(u64_to_decimal(n))));
        }
        if let Some(n) = self.maximum_amount {
            fields.push((String::from_str("maximumAmount"), DynValue::Str(u64_to_decimal(n))));
        }
        if let Some(m) = &self.default_memo {
            fields.push((String::from_str("defaultMemo"), DynValue::Str(m.clone())));
        }
        DynValue::Obj(fields)
    }
}

/// The result of an invoice request: the payment request string, opaque to
/// this layer.
#[derive(Debug, Clone, PartialEq, Eq)]
pub struct RequestInvoiceResponse {
    /// The BOLT-11-style payment request.
    pub payment_request: String,
}

/// How a dynamic value decodes as an invoice result: an object with a
/// required string property `paymentRequest`.
pub open spec fn spec_decode_request_invoice(v: DynValue) -> Result<Seq<char>, ErrorView> {
    match v {
        DynValue::Obj(fields) => spec_required_string(
            fields@,
            "paymentRequest"@,
            "expected a string [paymentRequest]"@,
        ),
        _ => Err(ErrorView::SomethingGoneWrong),
    }
}

impl RequestInvoiceResponse {
    /// Decode a dynamic value as an invoice result.
    pub fn deserialize(value: &DynValue) -> (r: Result<RequestInvoiceResponse, Error>)
        ensures
            match spec_decode_request_invoice(*value) {
                Ok(p) => r matches Ok(resp) && resp.payment_request@ == p,
                Err(ev) => r matches Err(e) && e@ == ev,
            },
    {
        match value {
            DynValue::Obj(fields) => match read_required_string(
                fields,
                "paymentRequest",
                "expected a string [paymentRequest]",
            ) {
                Ok(s) => Ok(RequestInvoiceResponse { payment_request: s }),
                Err(e) => Err(e),
            },
            _ => Err(Error::SomethingGoneWrong),
        }
    }
}

} // verus!
