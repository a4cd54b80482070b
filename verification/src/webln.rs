//! The dispatcher: locating the provider namespace, resolving its methods,
//! and the two halves of every call.
//!
//! Each operation is a single round trip: `prepare_*` resolves the method
//! on the namespace model and encodes the arguments into a [`CallRequest`],
//! the host glue performs the one asynchronous invocation, and `finish_*`
//! turns the [`HostOutcome`] into the typed result, classifying rejections
//! on the way. Every half is pure, so concurrent calls through one handle
//! cannot interfere: each result is a function of its own outcome alone.

use vstd::prelude::*;
use vstd::string::*;

use crate::balance::{spec_decode_balance, BalanceResponse};
use crate::error::{spec_classify, Error, ErrorView};
use crate::get_info::{spec_decode_get_info, GetInfoResponse};
use crate::keysend::{spec_encode_keysend, KeysendArgs};
use crate::request_invoice::{
    spec_decode_request_invoice, spec_encode_invoice_args, RequestInvoiceArgs,
    RequestInvoiceResponse,
};
use crate::send_payment::{
    spec_decode_multi_payment, spec_decode_send_payment, SendMultiPaymentResponse,
    SendPaymentResponse,
};
use crate::sign_message::{spec_decode_sign_message, SignMessageResponse};
use crate::value::{
    deserialize_bool, find_key_index, spec_decode_bool, spec_lookup, spec_obj_strings, DynValue,
};

verus! {

/// One prepared host call: the method name to invoke on the provider, and
/// the encoded argument, if the operation takes one.
#[derive(Debug, PartialEq)]
pub struct CallRequest {
    /// The provider method to invoke.
    pub method: String,
    /// The single call argument, already encoded; `None` for a zero-argument
    /// call.
    pub arg: Option<DynValue>,
}

/// What the one asynchronous host invocation came back with: the resolved
/// value, or the rejection in its stringified form.
#[derive(Debug, PartialEq)]
pub enum HostOutcome {
    /// The call resolved to a value.
    Resolved(DynValue),
    /// The call rejected; the rejection is carried stringified.
    Rejected(String),
}

/// A handle to the validated provider namespace: the `webln` object's
/// properties, as read off the global environment at construction. The
/// handle is immutable for its whole lifetime; concurrent calls through it
/// never contend.
#[derive(Debug, PartialEq)]
pub struct WebLN {
    webln_obj: Vec<(String, DynValue)>,
}

impl View for WebLN {
    type V = Seq<(String, DynValue)>;

    closed spec fn view(&self) -> Seq<(String, DynValue)> {
        self.webln_obj@
    }
}

/// How construction reads the global environment: no global object at all
/// is fatal; a global without a `webln` property, or with one that is not
/// an object, is the missing-namespace failure.
pub open spec fn spec_new(global: Option<DynValue>) -> Result<Seq<(String, DynValue)>, ErrorView> {
    match global {
        None => Err(ErrorView::NoGlobalWindowObject),
        Some(g) => match g {
            DynValue::Obj(gf) => match spec_lookup(gf@, "webln"@) {
                Some(DynValue::Obj(nf)) => Ok(nf@),
                _ => Err(ErrorView::NamespaceNotFound("webln"@)),
            },
            _ => Err(ErrorView::NamespaceNotFound("webln"@)),
        },
    }
}

/// How a method resolves on the namespace: the name must be bound to a
/// callable property; a missing name and a non-callable binding fail the
/// same way, as "expected namespace/member not found".
pub open spec fn spec_get_func(ns: Seq<(String, DynValue)>, name: Seq<char>) -> Result<
    (),
    ErrorView,
> {
    match spec_lookup(ns, name) {
        Some(DynValue::Func) => Ok(()),
        _ => Err(ErrorView::NamespaceNotFound(name)),
    }
}

/// How an invoice-taking call prepares: an empty invoice is rejected
/// before the method is even resolved, so no host round trip is spent on
/// it; otherwise the call carries the invoice verbatim.
pub open spec fn spec_prepare_invoice_call(
    ns: Seq<(String, DynValue)>,
    name: Seq<char>,
    invoice: Seq<char>,
) -> Result<Seq<char>, ErrorView> {
    if invoice.len() == 0 {
        Err(ErrorView::EmptyInvoice)
    } else {
        match spec_get_func(ns, name) {
            Ok(_) => Ok(invoice),
            Err(e) => Err(e),
        }
    }
}

impl WebLN {
    /// Compose a new handle from the global environment, validating that
    /// the `webln` namespace is present and object-shaped.
    pub fn new(global: Option<DynValue>) -> (r: Result<WebLN, Error>)
        ensures
            match spec_new(global) {
                Ok(ns) => r matches Ok(w) && w@ == ns,
                Err(ev) => r matches Err(e) && e@ == ev,
            },
    {
        let g = match global {
            None => return Err(Error::NoGlobalWindowObject),
            Some(g) => g,
        };
        let mut gf = match g {
            DynValue::Obj(gf) => gf,
            _ => return Err(Error::NamespaceNotFound(String::from_str("webln"))),
        };
        match find_key_index(&gf, "webln") {
            Some(i) => {
                let entry = gf.remove(i);
                match entry.1 {
                    DynValue::Obj(nf) => Ok(WebLN { webln_obj: nf }),
                    _ => Err(Error::NamespaceNotFound(String::from_str("webln"))),
                }
            },
            None => Err(Error::NamespaceNotFound(String::from_str("webln"))),
        }
    }

    /// Resolve a named method on the namespace: it must be present and
    /// callable. Resolution is repeated on every call, so methods added or
    /// removed between calls are observed.
    pub fn get_func(&self, name: &str) -> (r: Result<(), Error>)
        ensures
            match spec_get_func(self@, name@) {
                Ok(_) => r is Ok,
                Err(ev) => r matches Err(e) && e@ == ev,
            },
    {
        match find_key_index(&self.webln_obj, name) {
            Some(i) => match &self.webln_obj[i].1 {
                DynValue::Func => Ok(()),
                _ => Err(Error::NamespaceNotFound(String::from_str(name))),
            },
            None => Err(Error::NamespaceNotFound(String::from_str(name))),
        }
    }

    /// Resolve a method and pair it with its already-encoded argument.
    fn prepare_call(&self, name: &str, arg: Option<DynValue>) -> (r: Result<CallRequest, Error>)
        ensures
            match spec_get_func(self@, name@) {
                Ok(_) => r matches Ok(req) && req.method@ == name@ && req.arg == arg,
                Err(ev) => r matches Err(e) && e@ == ev,
            },
    {
        match self.get_func(name) {
            Ok(_) => Ok(CallRequest { method: String::from_str(name), arg }),
            Err(e) => Err(e),
        }
    }

    /// Prepare the capability query: a zero-argument `isEnabled` call.
    pub fn prepare_is_enabled(&self) -> (r: Result<CallRequest, Error>)
        ensures
            match spec_get_func(self@, "isEnabled"@) {
                Ok(_) => r matches Ok(req) && req.method@ == "isEnabled"@ && req.arg is None,
                Err(ev) => r matches Err(e) && e@ == ev,
            },
    {
        self.prepare_call("isEnabled", None)
    }

    /// Prepare the consent request: a zero-argument `enable` call.
    pub fn prepare_enable(&self) -> (r: Result<CallRequest, Error>)
        ensures
            match spec_get_func(self@, "enable"@) {
                Ok(_) => r matches Ok(req) && req.method@ == "enable"@ && req.arg is None,
                Err(ev) => r matches Err(e) && e@ == ev,
            },
    {
        self.prepare_call("enable", None)
    }

    /// Prepare the information query: a zero-argument `getInfo` call.
    pub fn prepare_get_info(&self) -> (r: Result<CallRequest, Error>)
        ensures
            match spec_get_func(self@, "getInfo"@) {
                Ok(_) => r matches Ok(req) && req.method@ == "getInfo"@ && req.arg is None,
                Err(ev) => r matches Err(e) && e@ == ev,
            },
    {
        self.prepare_call("getInfo", None)
    }

    /// Prepare a keysend payment: a `keysend` call carrying the encoded
    /// destination and amount.
    pub fn prepare_keysend(&self, args: &KeysendArgs) -> (r: Result<CallRequest, Error>)
        ensures
            match spec_get_func(self@, "keysend"@) {
                Ok(_) => r matches Ok(req) && req.method@ == "keysend"@ && (req.arg matches Some(
                    a,
                ) && (a matches DynValue::Obj(f) && spec_obj_strings(
                    f@,
                    spec_encode_keysend(*args),
                ))),
                Err(ev) => r matches Err(e) && e@ == ev,
            },
    {
        match self.get_func("keysend") {
            Ok(_) => Ok(
                CallRequest { method: String::from_str("keysend"), arg: Some(args.encode()) },
            ),
            Err(e) => Err(e),
        }
    }

    /// Prepare an invoice request: a `makeInvoice` call carrying only the
    /// populated argument keys.
    pub fn prepare_make_invoice(&self, args: &RequestInvoiceArgs) -> (r: Result<
        CallRequest,
        Error,
    >)
        ensures
            match spec_get_func(self@, "makeInvoice"@) {
                Ok(_) => r matches Ok(req) && req.method@ == "makeInvoice"@ && (req.arg
                    matches Some(a) && (a matches DynValue::Obj(f) && spec_obj_strings(
                    f@,
                    spec_encode_invoice_args(*args),
                ))),
                Err(ev) => r matches Err(e) && e@ == ev,
            },
    {
        match self.get_func("makeInvoice") {
            Ok(_) => Ok(
                CallRequest { method: String::from_str("makeInvoice"), arg: Some(args.encode()) },
            ),
            Err(e) => Err(e),
        }
    }

    /// Prepare an invoice payment: an empty invoice fails with
    /// `EmptyInvoice` before any host call; otherwise a `sendPayment` call
    /// carries the invoice verbatim.
    pub fn prepare_send_payment(&self, invoice: &str) -> (r: Result<CallRequest, Error>)
        ensures
            match spec_prepare_invoice_call(self@, "sendPayment"@, invoice@) {
                Ok(arg) => r matches Ok(req) && req.method@ == "sendPayment"@ && (req.arg
                    matches Some(a) && (a matches DynValue::Str(s) && s@ == arg)),
                Err(ev) => r matches Err(e) && e@ == ev,
            },
    {
        if invoice.is_empty() {
            return Err(Error::EmptyInvoice);
        }
        self.prepare_call("sendPayment", Some(DynValue::Str(String::from_str(invoice))))
    }

    /// Prepare a fire-and-forget invoice payment: the same empty-invoice
    /// pre-check, then a `sendPaymentAsync` call with the invoice verbatim.
    pub fn prepare_send_payment_async(&self, invoice: &str) -> (r: Result<CallRequest, Error>)
        ensures
            match spec_prepare_invoice_call(self@, "sendPaymentAsync"@, invoice@) {
                Ok(arg) => r matches Ok(req) && req.method@ == "sendPaymentAsync"@ && (req.arg
                    matches Some(a) && (a matches DynValue::Str(s) && s@ == arg)),
                Err(ev) => r matches Err(e) && e@ == ev,
            },
    {
        if invoice.is_empty() {
            return Err(Error::EmptyInvoice);
        }
        self.prepare_call("sendPaymentAsync", Some(DynValue::Str(String::from_str(invoice))))
    }

    /// Prepare a multi-payment: a `sendMultiPayment` call carrying the
    /// invoices as an array of strings, in order.
    pub fn prepare_send_multi_payment(&self, invoices: &Vec<String>) -> (r: Result<
        CallRequest,
        Error,
    >)
        ensures
            match spec_get_func(self@, "sendMultiPayment"@) {
                Ok(_) => r matches Ok(req) && req.method@ == "sendMultiPayment"@ && (req.arg
                    matches Some(a) && (a matches DynValue::List(items) && items@.len()
                    == invoices@.len() && (forall|k: int|
                    0 <= k < invoices@.len() ==> ((#[trigger] items@[k])
                        matches DynValue::Str(s) && s@ == invoices@[k]@)))),
                Err(ev) => r matches Err(e) && e@ == ev,
            },
    {
        let mut items: Vec<DynValue> = Vec::new();
        let mut i: usize = 0;
        while i < invoices.len()
            invariant
                i <= invoices@.len(),
                items@.len() == i,
                forall|k: int|
                    0 <= k < i ==> ((#[trigger] items@[k]) matches DynValue::Str(s) && s@
                        == invoices@[k]@),
            decreases invoices@.len() - i,
        {
            items.push(DynValue::Str(invoices[i].clone()));
            i += 1;
        }
        self.prepare_call("sendMultiPayment", Some(DynValue::List(items)))
    }

    /// Prepare a message signature: a `signMessage` call carrying the
    /// message verbatim.
    pub fn prepare_sign_message(&self, message: &str) -> (r: Result<CallRequest, Error>)
        ensures
            match spec_get_func(self@, "signMessage"@) {
                Ok(_) => r matches Ok(req) && req.method@ == "signMessage"@ && (req.arg
                    matches Some(a) && (a matches DynValue::Str(s) && s@ == message@)),
                Err(ev) => r matches Err(e) && e@ == ev,
            },
    {
        self.prepare_call("signMessage", Some(DynValue::Str(String::from_str(message))))
    }

    /// Prepare the balance query: a zero-argument `getBalance` call.
    pub fn prepare_get_balance(&self) -> (r: Result<CallRequest, Error>)
        ensures
            match spec_get_func(self@, "getBalance"@) {
                Ok(_) => r matches Ok(req) && req.method@ == "getBalance"@ && req.arg is None,
                Err(ev) => r matches Err(e) && e@ == ev,
            },
    {
        self.prepare_call("getBalance", None)
    }
}

/// How the capability query settles: a rejection is classified; a resolved
/// value must decode as a boolean.
pub open spec fn spec_finish_is_enabled(o: HostOutcome) -> Result<bool, ErrorView> {
    match o {
        HostOutcome::Rejected(s) => Err(spec_classify(s@)),
        HostOutcome::Resolved(v) => spec_decode_bool(v),
    }
}

/// Settle the capability query.
pub fn finish_is_enabled(outcome: HostOutcome) -> (r: Result<bool, Error>)
    ensures
        match spec_finish_is_enabled(outcome) {
            Ok(b) => r matches Ok(rb) && rb == b,
            Err(ev) => r matches Err(e) && e@ == ev,
        },
{
    match outcome {
        HostOutcome::Rejected(s) => Err(Error::from_host_failure(s)),
        HostOutcome::Resolved(v) => deserialize_bool(&v),
    }
}

/// How the consent request settles: a rejection is classified; any
/// resolved value is discarded, success is the call not rejecting.
pub open spec fn spec_finish_enable(o: HostOutcome) -> Result<(), ErrorView> {
    match o {
        HostOutcome::Rejected(s) => Err(spec_classify(s@)),
        HostOutcome::Resolved(_) => Ok(()),
    }
}

/// Settle the consent request.
pub fn finish_enable(outcome: HostOutcome) -> (r: Result<(), Error>)
    ensures
        match spec_finish_enable(outcome) {
            Ok(_) => r is Ok,
            Err(ev) => r matches Err(e) && e@ == ev,
        },
{
    match outcome {
        HostOutcome::Rejected(s) => Err(Error::from_host_failure(s)),
        HostOutcome::Resolved(_) => Ok(()),
    }
}

/// How the information query settles: a rejection is classified; a
/// resolved value goes through the information decoder.
pub open spec fn spec_finish_get_info(o: HostOutcome) -> Result<
    crate::get_info::GetInfoResponseView,
    ErrorView,
> {
    match o {
        HostOutcome::Rejected(s) => Err(spec_classify(s@)),
        HostOutcome::Resolved(v) => spec_decode_get_info(v),
    }
}

/// Settle the information query.
pub fn finish_get_info(outcome: HostOutcome) -> (r: Result<GetInfoResponse, Error>)
    ensures
        match spec_finish_get_info(outcome) {
            Ok(g) => r matches Ok(resp) && resp@ == g,
            Err(ev) => r matches Err(e) && e@ == ev,
        },
{
    match outcome {
        HostOutcome::Rejected(s) => Err(Error::from_host_failure(s)),
        HostOutcome::Resolved(v) => GetInfoResponse::deserialize(&v),
    }
}

/// How a payment call settles: a rejection is classified; a resolved value
/// goes through the payment-result decoder. `keysend` and `sendPayment`
/// settle identically.
pub open spec fn spec_finish_send_payment(o: HostOutcome) -> Result<Seq<char>, ErrorView> {
    match o {
        HostOutcome::Rejected(s) => Err(spec_classify(s@)),
        HostOutcome::Resolved(v) => spec_decode_send_payment(v),
    }
}

/// Settle a keysend payment.
pub fn finish_keysend(outcome: HostOutcome) -> (r: Result<SendPaymentResponse, Error>)
    ensures
        match spec_finish_send_payment(outcome) {
            Ok(p) => r matches Ok(resp) && resp.preimage@ == p,
            Err(ev) => r matches Err(e) && e@ == ev,
        },
{
    match outcome {
        HostOutcome::Rejected(s) => Err(Error::from_host_failure(s)),
        HostOutcome::Resolved(v) => SendPaymentResponse::deserialize(&v),
    }
}

/// Settle an invoice payment.
pub fn finish_send_payment(outcome: HostOutcome) -> (r: Result<SendPaymentResponse, Error>)
    ensures
        match spec_finish_send_payment(outcome) {
            Ok(p) => r matches Ok(resp) && resp.preimage@ == p,
            Err(ev) => r matches Err(e) && e@ == ev,
        },
{
    match outcome {
        HostOutcome::Rejected(s) => Err(Error::from_host_failure(s)),
        HostOutcome::Resolved(v) => SendPaymentResponse::deserialize(&v),
    }
}

/// How an invoice request settles: a rejection is classified; a resolved
/// value goes through the invoice decoder.
pub open spec fn spec_finish_make_invoice(o: HostOutcome) -> Result<Seq<char>, ErrorView> {
    match o {
        HostOutcome::Rejected(s) => Err(spec_classify(s@)),
        HostOutcome::Resolved(v) => spec_decode_request_invoice(v),
    }
}

/// Settle an invoice request.
pub fn finish_make_invoice(outcome: HostOutcome) -> (r: Result<RequestInvoiceResponse, Error>)
    ensures
        match spec_finish_make_invoice(outcome) {
            Ok(p) => r matches Ok(resp) && resp.payment_request@ == p,
            Err(ev) => r matches Err(e) && e@ == ev,
        },
{
    match outcome {
        HostOutcome::Rejected(s) => Err(Error::from_host_failure(s)),
        HostOutcome::Resolved(v) => RequestInvoiceResponse::deserialize(&v),
    }
}

/// How a multi-payment settles: a rejection is classified; a resolved
/// value goes through the multi-payment decoder.
pub open spec fn spec_finish_send_multi_payment(o: HostOutcome) -> Result<
    (Seq<(Seq<char>, Seq<char>)>, Seq<(Seq<char>, Seq<char>)>),
    ErrorView,
> {
    match o {
        HostOutcome::Rejected(s) => Err(spec_classify(s@)),
        HostOutcome::Resolved(v) => spec_decode_multi_payment(v),
    }
}

/// Settle a multi-payment.
pub fn finish_send_multi_payment(outcome: HostOutcome) -> (r: Result<
    SendMultiPaymentResponse,
    Error,
>)
    ensures
        match spec_finish_send_multi_payment(outcome) {
            Ok(lists) => r matches Ok(resp) && resp.payments.deep_view() == lists.0
                && resp.errors.deep_view() == lists.1,
            Err(ev) => r matches Err(e) && e@ == ev,
        },
{
    match outcome {
        HostOutcome::Rejected(s) => Err(Error::from_host_failure(s)),
        HostOutcome::Resolved(v) => SendMultiPaymentResponse::deserialize(&v),
    }
}

/// How a fire-and-forget payment settles: a rejection is classified; a
/// resolved value only has to be object-shaped, nothing in it is decoded.
pub open spec fn spec_finish_send_payment_async(o: HostOutcome) -> Result<(), ErrorView> {
    match o {
        HostOutcome::Rejected(s) => Err(spec_classify(s@)),
        HostOutcome::Resolved(v) => if v is Obj {
            Ok(())
        } else {
            Err(ErrorView::SomethingGoneWrong)
        },
    }
}

/// Settle a fire-and-forget payment.
pub fn finish_send_payment_async(outcome: HostOutcome) -> (r: Result<(), Error>)
    ensures
        match spec_finish_send_payment_async(outcome) {
            Ok(_) => r is Ok,
            Err(ev) => r matches Err(e) && e@ == ev,
        },
{
    match outcome {
        HostOutcome::Rejected(s) => Err(Error::from_host_failure(s)),
        HostOutcome::Resolved(v) => match v {
            DynValue::Obj(_) => Ok(()),
            _ => Err(Error::SomethingGoneWrong),
        },
    }
}

/// How a message signature settles: a rejection is classified; a resolved
/// value goes through the signing decoder, which pairs the signature with
/// the caller's original message.
pub open spec fn spec_finish_sign_message(o: HostOutcome) -> Result<Seq<char>, ErrorView> {
    match o {
        HostOutcome::Rejected(s) => Err(spec_classify(s@)),
        HostOutcome::Resolved(v) => spec_decode_sign_message(v),
    }
}

/// Settle a message signature for the given original message.
pub fn finish_sign_message(message: &str, outcome: HostOutcome) -> (r: Result<
    SignMessageResponse,
    Error,
>)
    ensures
        match spec_finish_sign_message(outcome) {
            Ok(sig) => r matches Ok(resp) && resp.message@ == message@ && resp.signature@ == sig,
            Err(ev) => r matches Err(e) && e@ == ev,
        },
{
    match outcome {
        HostOutcome::Rejected(s) => Err(Error::from_host_failure(s)),
        HostOutcome::Resolved(v) => SignMessageResponse::deserialize(message, &v),
    }
}

/// How the balance query settles: a rejection is classified; a resolved
/// value goes through the balance decoder.
pub open spec fn spec_finish_get_balance(o: HostOutcome) -> Result<
    crate::balance::BalanceResponseView,
    ErrorView,
> {
    match o {
        HostOutcome::Rejected(s) => Err(spec_classify(s@)),
        HostOutcome::Resolved(v) => spec_decode_balance(v),
    }
}

/// Settle the balance query.
pub fn finish_get_balance(outcome: HostOutcome) -> (r: Result<BalanceResponse, Error>)
    ensures
        match spec_finish_get_balance(outcome) {
            Ok(b) => r matches Ok(resp) && resp@ == b,
            Err(ev) => r matches Err(e) && e@ == ev,
        },
{
    match outcome {
        HostOutcome::Rejected(s) => Err(Error::from_host_failure(s)),
        HostOutcome::Resolved(v) => BalanceResponse::deserialize(&v),
    }
}

/// Law: an empty invoice short-circuits. Whatever the provider offers,
/// preparing an invoice-taking call with the empty invoice fails with
/// `EmptyInvoice`, so no host call is ever issued for it.
pub proof fn lemma_empty_invoice_short_circuit(ns: Seq<(String, DynValue)>, name: Seq<char>)
    ensures
        spec_prepare_invoice_call(ns, name, Seq::empty()) == Result::<
            Seq<char>,
            ErrorView,
        >::Err(ErrorView::EmptyInvoice),
{
}

/// Law: construction against a global object with no `webln` property, or
/// with a `webln` property that is not an object, fails with
/// `NamespaceNotFound("webln")`.
pub proof fn lemma_missing_namespace(g: DynValue)
    requires
        g matches DynValue::Obj(gf) ==> !(spec_lookup(gf@, "webln"@) matches Some(v) && v is Obj),
    ensures
        spec_new(Some(g)) == Result::<Seq<(String, DynValue)>, ErrorView>::Err(
            ErrorView::NamespaceNotFound("webln"@),
        ),
{
}

} // verus!
