//! The balance result: the host's floating-point balance carried opaquely
//! as its bit pattern, and an optional currency code.

use vstd::prelude::*;

use crate::error::{Error, ErrorView};
use crate::value::{get_value_by_key, read_optional_string, spec_lookup, spec_opt_string, DynValue};

verus! {

/// The balance of the current account. The balance is the bit pattern of
/// the 64-bit float the host reported; the adapter never computes with it,
/// it only passes it through.
#[derive(Debug, Clone, PartialEq, Eq)]
pub struct BalanceResponse {
    /// The reported balance, as the bit pattern of the host's 64-bit float.
    pub balance: u64,
    /// The currency code, if the provider reported one.
    pub currency: Option<String>,
}

/// The mathematical shape of a [`BalanceResponse`].
pub ghost struct BalanceResponseView {
    pub balance: u64,
    pub currency: Option<Seq<char>>,
}

impl View for BalanceResponse {
    type V = BalanceResponseView;

    open spec fn view(&self) -> BalanceResponseView {
        BalanceResponseView { balance: self.balance, currency: self.currency.deep_view() }
    }
}

/// How a dynamic value decodes as a balance result: an object with a
/// required number property `balance` and an optional string property
/// `currency`, read permissively.
pub open spec fn spec_decode_balance(v: DynValue) -> Result<BalanceResponseView, ErrorView> {
    match v {
        DynValue::Obj(fields) => match spec_lookup(fields@, "balance"@) {
            None => Err(ErrorView::ObjectKeyNotFound("balance"@)),
            Some(DynValue::Num(bits)) => Ok(
                BalanceResponseView {
                    balance: bits,
                    currency: spec_opt_string(fields@, "currency"@),
                },
            ),
            Some(_) => Err(ErrorView::TypeMismatch("expected a number [balance]"@)),
        },
        _ => Err(ErrorView::SomethingGoneWrong),
    }
}

impl BalanceResponse {
    /// Decode a dynamic value as a balance result.
    pub fn deserialize(value: &DynValue) -> (r: Result<BalanceResponse, Error>)
        ensures
            match spec_decode_balance(*value) {
                Ok(b) => r matches Ok(resp) && resp@ == b,
                Err(ev) => r matches Err(e) && e@ == ev,
            },
    {
        match value {
            DynValue::Obj(fields) => {
                let balance = match get_value_by_key(fields, "balance") {
                    Ok(DynValue::Num(bits)) => *bits,
                    Ok(_) => return Err(
                        Error::TypeMismatch(String::from_str("expected a number [balance]")),
                    ),
                    Err(e) => return Err(e),
                };
                let currency = read_optional_string(fields, "currency");
                Ok(BalanceResponse { balance, currency })
            },
            _ => Err(Error::SomethingGoneWrong),
        }
    }
}

} // verus!
