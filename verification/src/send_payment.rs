//! Payment results: the single-payment preimage response and the
//! multi-payment response with its per-invoice success and failure lists.

use vstd::prelude::*;

use crate::error::{Error, ErrorView};
use crate::value::{
    get_value_by_key, read_required_string, spec_lookup, spec_required_string, DynValue,
};

verus! {

/// The result of a payment: the preimage, verbatim as the provider
/// returned it. Only its presence as a string is enforced.
#[derive(Debug, Clone, PartialEq, Eq)]
pub struct SendPaymentResponse {
    /// The payment preimage.
    pub preimage: String,
}

/// How a dynamic value decodes as a payment result: an object with a
/// required string property `preimage`.
pub open spec fn spec_decode_send_payment(v: DynValue) -> Result<Seq<char>, ErrorView> {
    match v {
        DynValue::Obj(fields) => spec_required_string(
            fields@,
            "preimage"@,
            "expected a string [preimage]"@,
        ),
        _ => Err(ErrorView::SomethingGoneWrong),
    }
}

impl SendPaymentResponse {
    /// Decode a dynamic value as a payment result.
    pub fn deserialize(value: &DynValue) -> (r: Result<SendPaymentResponse, Error>)
        ensures
            match spec_decode_send_payment(*value) {
                Ok(p) => r matches Ok(resp) && resp.preimage@ == p,
                Err(ev) => r matches Err(e) && e@ == ev,
            },
    {
        match value {
            DynValue::Obj(fields) => match read_required_string(
                fields,
                "preimage",
                "expected a string [preimage]",
            ) {
                Ok(s) => Ok(SendPaymentResponse { preimage: s }),
                Err(e) => Err(e),
            },
            _ => Err(Error::SomethingGoneWrong),
        }
    }
}

/// One per-invoice success in a multi-payment result.
#[derive(Debug, Clone, PartialEq, Eq)]
pub struct SendMultiPaymentSingle {
    /// The payment request this success belongs to.
    pub payment_request: String,
    /// The payment result for it.
    pub response: SendPaymentResponse,
}

impl View for SendMultiPaymentSingle {
    type V = (Seq<char>, Seq<char>);

    open spec fn view(&self) -> (Seq<char>, Seq<char>) {
        (self.payment_request@, self.response.preimage@)
    }
}

impl DeepView for SendMultiPaymentSingle {
    type V = (Seq<char>, Seq<char>);

    open spec fn deep_view(&self) -> (Seq<char>, Seq<char>) {
        self.view()
    }
}

/// One per-invoice failure in a multi-payment result.
#[derive(Debug, Clone, PartialEq, Eq)]
pub struct SendMultiPaymentError {
    /// The payment request this failure belongs to.
    pub payment_request: String,
    /// The provider's failure message.
    pub message: String,
}

impl View for SendMultiPaymentError {
    type V = (Seq<char>, Seq<char>);

    open spec fn view(&self) -> (Seq<char>, Seq<char>) {
        (self.payment_request@, self.message@)
    }
}

impl DeepView for SendMultiPaymentError {
    type V = (Seq<char>, Seq<char>);

    open spec fn deep_view(&self) -> (Seq<char>, Seq<char>) {
        self.view()
    }
}

/// The result of a multi-payment call: the successes and the failures, as
/// independently sized lists. The provider, not this layer, is responsible
/// for an invoice appearing in at most one of them.
#[derive(Debug, Clone, PartialEq, Eq)]
pub struct SendMultiPaymentResponse {
    /// Per-invoice successes.
    pub payments: Vec<SendMultiPaymentSingle>,
    /// Per-invoice failures.
    pub errors: Vec<SendMultiPaymentError>,
}

/// How one element of the failure list decodes: an object with required
/// string properties `paymentRequest` and `message`.
pub open spec fn spec_decode_multi_error(v: DynValue) -> Result<(Seq<char>, Seq<char>), ErrorView> {
    match v {
        DynValue::Obj(fields) => match spec_required_string(
            fields@,
            "paymentRequest"@,
            "expected a string [paymentRequest]"@,
        ) {
            Err(e) => Err(e),
            Ok(pr) => match spec_required_string(
                fields@,
                "message"@,
                "expected a string [message]"@,
            ) {
                Err(e) => Err(e),
                Ok(msg) => Ok((pr, msg)),
            },
        },
        _ => Err(ErrorView::SomethingGoneWrong),
    }
}

/// How one element of the success list decodes: an object with a required
/// string property `paymentRequest` and a required property `response`
/// holding a payment result.
pub open spec fn spec_decode_multi_single(v: DynValue) -> Result<
    (Seq<char>, Seq<char>),
    ErrorView,
> {
    match v {
        DynValue::Obj(fields) => match spec_required_string(
            fields@,
            "paymentRequest"@,
            "expected a string [paymentRequest]"@,
        ) {
            Err(e) => Err(e),
            Ok(pr) => match spec_lookup(fields@, "response"@) {
                None => Err(ErrorView::ObjectKeyNotFound("response"@)),
                Some(rv) => match spec_decode_send_payment(rv) {
                    Err(e) => Err(e),
                    Ok(p) => Ok((pr, p)),
                },
            },
        },
        _ => Err(ErrorView::SomethingGoneWrong),
    }
}

/// How the failure list decodes, element by element in order; the first
/// failing element's error fails the whole list.
pub open spec fn spec_decode_error_list(items: Seq<DynValue>) -> Result<
    Seq<(Seq<char>, Seq<char>)>,
    ErrorView,
>
    decreases items.len(),
{
    if items.len() == 0 {
        Ok(Seq::empty())
    } else {
        match spec_decode_error_list(items.drop_last()) {
            Err(e) => Err(e),
            Ok(rest) => match spec_decode_multi_error(items.last()) {
                Err(e) => Err(e),
                Ok(p) => Ok(rest.push(p)),
            },
        }
    }
}

/// How the success list decodes, element by element in order; the first
/// failing element's error fails the whole list.
pub open spec fn spec_decode_single_list(items: Seq<DynValue>) -> Result<
    Seq<(Seq<char>, Seq<char>)>,
    ErrorView,
>
    decreases items.len(),
{
    if items.len() == 0 {
        Ok(Seq::empty())
    } else {
        match spec_decode_single_list(items.drop_last()) {
            Err(e) => Err(e),
            Ok(rest) => match spec_decode_multi_single(items.last()) {
                Err(e) => Err(e),
                Ok(p) => Ok(rest.push(p)),
            },
        }
    }
}

/// If the elements before position `i` all decode and the element at `i`
/// does not, every longer prefix of the failure list fails with exactly
/// that element's error.
proof fn lemma_error_list_first_failure(items: Seq<DynValue>, i: int, j: int)
    requires
        0 <= i < j <= items.len(),
        spec_decode_error_list(items.subrange(0, i)) is Ok,
        spec_decode_multi_error(items[i]) is Err,
    ensures
        spec_decode_error_list(items.subrange(0, j)) == Result::<
            Seq<(Seq<char>, Seq<char>)>,
            ErrorView,
        >::Err(spec_decode_multi_error(items[i])->Err_0),
    decreases j,
{
    if j == i + 1 {
        assert(items.subrange(0, j).drop_last() =~= items.subrange(0, i));
        assert(items.subrange(0, j).last() == items[i]);
    } else {
        lemma_error_list_first_failure(items, i, j - 1);
        assert(items.subrange(0, j).drop_last() =~= items.subrange(0, j - 1));
    }
}

/// The success-list counterpart of `lemma_error_list_first_failure`.
proof fn lemma_single_list_first_failure(items: Seq<DynValue>, i: int, j: int)
    requires
        0 <= i < j <= items.len(),
        spec_decode_single_list(items.subrange(0, i)) is Ok,
        spec_decode_multi_single(items[i]) is Err,
    ensures
        spec_decode_single_list(items.subrange(0, j)) == Result::<
            Seq<(Seq<char>, Seq<char>)>,
            ErrorView,
        >::Err(spec_decode_multi_single(items[i])->Err_0),
    decreases j,
{
    if j == i + 1 {
        assert(items.subrange(0, j).drop_last() =~= items.subrange(0, i));
        assert(items.subrange(0, j).last() == items[i]);
    } else {
        lemma_single_list_first_failure(items, i, j - 1);
        assert(items.subrange(0, j).drop_last() =~= items.subrange(0, j - 1));
    }
}

/// How a dynamic value decodes as a multi-payment result: an object with
/// required array properties `payments` and `errors`, decoded symmetrically.
pub open spec fn spec_decode_multi_payment(v: DynValue) -> Result<
    (Seq<(Seq<char>, Seq<char>)>, Seq<(Seq<char>, Seq<char>)>),
    ErrorView,
> {
    match v {
        DynValue::Obj(fields) => match spec_lookup(fields@, "payments"@) {
            None => Err(ErrorView::ObjectKeyNotFound("payments"@)),
            Some(pv) => if !(pv is List) {
                Err(ErrorView::TypeMismatch("expected an array [payments]"@))
            } else {
                match spec_lookup(fields@, "errors"@) {
                    None => Err(ErrorView::ObjectKeyNotFound("errors"@)),
                    Some(ev) => if !(ev is List) {
                        Err(ErrorView::TypeMismatch("expected an array [errors]"@))
                    } else {
                        match spec_decode_single_list(pv->List_0@) {
                            Err(e) => Err(e),
                            Ok(ps) => match spec_decode_error_list(ev->List_0@) {
                                Err(e) => Err(e),
                                Ok(es) => Ok((ps, es)),
                            },
                        }
                    },
                }
            },
        },
        _ => Err(ErrorView::SomethingGoneWrong),
    }
}

impl SendMultiPaymentError {
    /// Decode one element of the failure list.
    pub fn deserialize(value: &DynValue) -> (r: Result<SendMultiPaymentError, Error>)
        ensures
            match spec_decode_multi_error(*value) {
                Ok(p) => r matches Ok(resp) && resp@ == p,
                Err(ev) => r matches Err(e) && e@ == ev,
            },
    {
        match value {
            DynValue::Obj(fields) => {
                let payment_request = match read_required_string(
                    fields,
                    "paymentRequest",
                    "expected a string [paymentRequest]",
                ) {
                    Ok(s) => s,
                    Err(e) => return Err(e),
                };
                let message = match read_required_string(
                    fields,
                    "message",
                    "expected a string [message]",
                ) {
                    Ok(s) => s,
                    Err(e) => return Err(e),
                };
                Ok(SendMultiPaymentError { payment_request, message })
            },
            _ => Err(Error::SomethingGoneWrong),
        }
    }
}

impl SendMultiPaymentSingle {
    /// Decode one element of the success list.
    pub fn deserialize(value: &DynValue) -> (r: Result<SendMultiPaymentSingle, Error>)
        ensures
            match spec_decode_multi_single(*value) {
                Ok(p) => r matches Ok(resp) && resp@ == p,
                Err(ev) => r matches Err(e) && e@ == ev,
            },
    {
        match value {
            DynValue::Obj(fields) => {
                let payment_request = match read_required_string(
                    fields,
                    "paymentRequest",
                    "expected a string [paymentRequest]",
                ) {
                    Ok(s) => s,
                    Err(e) => return Err(e),
                };
                let response_v = match get_value_by_key(fields, "response") {
                    Ok(v) => v,
                    Err(e) => return Err(e),
                };
                match SendPaymentResponse::deserialize(response_v) {
                    Ok(response) => Ok(SendMultiPaymentSingle { payment_request, response }),
                    Err(e) => Err(e),
                }
            },
            _ => Err(Error::SomethingGoneWrong),
        }
    }
}

impl SendMultiPaymentResponse {
    /// Decode a dynamic value as a multi-payment result.
    #[verifier::loop_isolation(false)]
    pub fn deserialize(value: &DynValue) -> (r: Result<SendMultiPaymentResponse, Error>)
        ensures
            match spec_decode_multi_payment(*value) {
                Ok(lists) => r matches Ok(resp) && resp.payments.deep_view() == lists.0
                    && resp.errors.deep_view() == lists.1,
                Err(ev) => r matches Err(e) && e@ == ev,
            },
    {
        let fields = match value {
            DynValue::Obj(fields) => fields,
            _ => return Err(Error::SomethingGoneWrong),
        };
        let payments_v = match get_value_by_key(fields, "payments") {
            Ok(v) => v,
            Err(e) => return Err(e),
        };
        let payment_items = match payments_v {
            DynValue::List(items) => items,
            _ => return Err(Error::TypeMismatch(String::from_str("expected an array [payments]"))),
        };
        let errors_v = match get_value_by_key(fields, "errors") {
            Ok(v) => v,
            Err(e) => return Err(e),
        };
        let error_items = match errors_v {
            DynValue::List(items) => items,
            _ => return Err(Error::TypeMismatch(String::from_str("expected an array [errors]"))),
        };

        let mut payments: Vec<SendMultiPaymentSingle> = Vec::new();
        let mut i: usize = 0;
        while i < payment_items.len()
            invariant
                i <= payment_items@.len(),
                spec_decode_single_list(payment_items@.subrange(0, i as int)) matches Ok(ps)
                    && payments.deep_view() == ps,
            decreases payment_items@.len() - i,
        {
            match SendMultiPaymentSingle::deserialize(&payment_items[i]) {
                Ok(p) => {
                    payments.push(p);
                    proof {
                        let pre = payment_items@.subrange(0, i as int + 1);
                        assert(pre.drop_last() =~= payment_items@.subrange(0, i as int));
                        assert(pre.last() == payment_items@[i as int]);
                        assert(payments.deep_view() =~= spec_decode_single_list(pre)->Ok_0);
                    }
                },
                Err(e) => {
                    proof {
                        lemma_single_list_first_failure(
                            payment_items@,
                            i as int,
                            payment_items@.len() as int,
                        );
                        assert(payment_items@.subrange(0, payment_items@.len() as int)
                            =~= payment_items@);
                    }
                    return Err(e);
                },
            }
            i += 1;
        }
        proof {
            assert(payment_items@.subrange(0, payment_items@.len() as int) =~= payment_items@);
        }

        let mut errors: Vec<SendMultiPaymentError> = Vec::new();
        let mut j: usize = 0;
        while j < error_items.len()
            invariant
                j <= error_items@.len(),
                spec_decode_error_list(error_items@.subrange(0, j as int)) matches Ok(es)
                    && errors.deep_view() == es,
            decreases error_items@.len() - j,
        {
            match SendMultiPaymentError::deserialize(&error_items[j]) {
                Ok(p) => {
                    errors.push(p);
                    proof {
                        let pre = error_items@.subrange(0, j as int + 1);
                        assert(pre.drop_last() =~= error_items@.subrange(0, j as int));
                        assert(pre.last() == error_items@[j as int]);
                        assert(errors.deep_view() =~= spec_decode_error_list(pre)->Ok_0);
                    }
                },
                Err(e) => {
                    proof {
                        lemma_error_list_first_failure(
                            error_items@,
                            j as int,
                            error_items@.len() as int,
                        );
                        assert(error_items@.subrange(0, error_items@.len() as int)
                            =~= error_items@);
                    }
                    return Err(e);
                },
            }
            j += 1;
        }
        proof {
            assert(error_items@.subrange(0, error_items@.len() as int) =~= error_items@);
        }
        Ok(SendMultiPaymentResponse { payments, errors })
    }
}

} // verus!
