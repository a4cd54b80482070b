use webln::balance::BalanceResponse;
use webln::error::Error;
use webln::get_info::GetInfoResponse;
use webln::method::GetInfoMethod;
use webln::request_invoice::RequestInvoiceResponse;
use webln::send_payment::{
    SendMultiPaymentError, SendMultiPaymentResponse, SendMultiPaymentSingle, SendPaymentResponse,
};
use webln::sign_message::SignMessageResponse;
use webln::value::{deserialize_bool, DynValue};

fn str_val(s: &str) -> DynValue {
    DynValue::Str(String::from(s))
}

fn obj(entries: Vec<(&str, DynValue)>) -> DynValue {
    DynValue::Obj(entries.into_iter().map(|(k, v)| (String::from(k), v)).collect())
}

#[test]
fn bool_decodes_only_booleans() {
    assert_eq!(deserialize_bool(&DynValue::Bool(true)), Ok(true));
    assert_eq!(deserialize_bool(&DynValue::Bool(false)), Ok(false));
    assert_eq!(
        deserialize_bool(&str_val("true")),
        Err(Error::TypeMismatch(String::from("expected a bool")))
    );
    assert_eq!(
        deserialize_bool(&DynValue::Undefined),
        Err(Error::TypeMismatch(String::from("expected a bool")))
    );
}

#[test]
fn get_info_full_object_decodes() {
    let v = obj(vec![
        (
            "node",
            obj(vec![
                ("alias", str_val("carol")),
                ("pubkey", str_val("02aa")),
                ("color", str_val("#ff9900")),
            ]),
        ),
        ("methods", DynValue::List(vec![str_val("getInfo"), str_val("sendPayment")])),
    ]);
    let r = GetInfoResponse::deserialize(&v).unwrap();
    assert_eq!(r.node.alias.as_deref(), Some("carol"));
    assert_eq!(r.node.pubkey.as_deref(), Some("02aa"));
    assert_eq!(r.node.color.as_deref(), Some("#ff9900"));
    assert_eq!(r.methods, vec![GetInfoMethod::GetInfo, GetInfoMethod::SendPayment]);
}

#[test]
fn get_info_missing_optionals_decode_as_none() {
    let v = obj(vec![("node", obj(vec![])), ("methods", DynValue::List(vec![]))]);
    let r = GetInfoResponse::deserialize(&v).unwrap();
    assert_eq!(r.node.alias, None);
    assert_eq!(r.node.pubkey, None);
    assert_eq!(r.node.color, None);
    assert_eq!(r.methods, Vec::new());
}

#[test]
fn get_info_wrongly_typed_optionals_decode_as_none() {
    let v = obj(vec![
        (
            "node",
            obj(vec![("alias", DynValue::Num(3)), ("pubkey", DynValue::Bool(true))]),
        ),
        ("methods", DynValue::List(vec![])),
    ]);
    let r = GetInfoResponse::deserialize(&v).unwrap();
    assert_eq!(r.node.alias, None);
    assert_eq!(r.node.pubkey, None);
    assert_eq!(r.node.color, None);
}

#[test]
fn get_info_mixed_methods_keep_strings_in_order() {
    let v = obj(vec![
        ("node", obj(vec![])),
        (
            "methods",
            DynValue::List(vec![
                str_val("keysend"),
                DynValue::Num(7),
                str_val("somethingNew"),
                DynValue::Bool(false),
                str_val("enable"),
            ]),
        ),
    ]);
    let r = GetInfoResponse::deserialize(&v).unwrap();
    assert_eq!(
        r.methods,
        vec![
            GetInfoMethod::Keysend,
            GetInfoMethod::Other(String::from("somethingNew")),
            GetInfoMethod::Enable,
        ]
    );
}

#[test]
fn get_info_duplicate_methods_are_kept() {
    // No uniqueness is enforced: a provider may report a method twice.
    let v = obj(vec![
        ("node", obj(vec![])),
        ("methods", DynValue::List(vec![str_val("enable"), str_val("enable")])),
    ]);
    let r = GetInfoResponse::deserialize(&v).unwrap();
    assert_eq!(r.methods, vec![GetInfoMethod::Enable, GetInfoMethod::Enable]);
}

#[test]
fn duplicate_object_keys_bind_at_first_occurrence() {
    let v = obj(vec![("preimage", str_val("first")), ("preimage", str_val("second"))]);
    let r = SendPaymentResponse::deserialize(&v).unwrap();
    assert_eq!(r.preimage, "first");
}

#[test]
fn get_info_missing_node_fails() {
    let v = obj(vec![("methods", DynValue::List(vec![]))]);
    assert_eq!(
        GetInfoResponse::deserialize(&v),
        Err(Error::ObjectKeyNotFound(String::from("node")))
    );
}

#[test]
fn get_info_non_object_node_fails() {
    let v = obj(vec![("node", str_val("nope")), ("methods", DynValue::List(vec![]))]);
    assert_eq!(GetInfoResponse::deserialize(&v), Err(Error::SomethingGoneWrong));
}

#[test]
fn get_info_missing_methods_fails() {
    let v = obj(vec![("node", obj(vec![]))]);
    assert_eq!(
        GetInfoResponse::deserialize(&v),
        Err(Error::ObjectKeyNotFound(String::from("methods")))
    );
}

#[test]
fn get_info_non_list_methods_fails() {
    let v = obj(vec![("node", obj(vec![])), ("methods", str_val("getInfo"))]);
    assert_eq!(
        GetInfoResponse::deserialize(&v),
        Err(Error::TypeMismatch(String::from("expected an array [methods]")))
    );
}

#[test]
fn get_info_non_object_value_fails() {
    assert_eq!(
        GetInfoResponse::deserialize(&DynValue::Num(1)),
        Err(Error::SomethingGoneWrong)
    );
}

#[test]
fn send_payment_decodes_preimage_verbatim() {
    let v = obj(vec![("preimage", str_val("00ff00"))]);
    let r = SendPaymentResponse::deserialize(&v).unwrap();
    assert_eq!(r.preimage, "00ff00");
}

#[test]
fn send_payment_empty_preimage_passes_through() {
    let v = obj(vec![("preimage", str_val(""))]);
    let r = SendPaymentResponse::deserialize(&v).unwrap();
    assert_eq!(r.preimage, "");
}

#[test]
fn send_payment_missing_preimage_fails() {
    let v = obj(vec![("something", str_val("else"))]);
    assert_eq!(
        SendPaymentResponse::deserialize(&v),
        Err(Error::ObjectKeyNotFound(String::from("preimage")))
    );
}

#[test]
fn send_payment_wrongly_typed_preimage_fails() {
    let v = obj(vec![("preimage", DynValue::Num(5))]);
    assert_eq!(
        SendPaymentResponse::deserialize(&v),
        Err(Error::TypeMismatch(String::from("expected a string [preimage]")))
    );
}

#[test]
fn send_payment_non_object_fails() {
    assert_eq!(
        SendPaymentResponse::deserialize(&str_val("raw")),
        Err(Error::SomethingGoneWrong)
    );
}

#[test]
fn request_invoice_decodes_payment_request() {
    let v = obj(vec![("paymentRequest", str_val("lnbc1..."))]);
    let r = RequestInvoiceResponse::deserialize(&v).unwrap();
    assert_eq!(r.payment_request, "lnbc1...");
}

#[test]
fn request_invoice_missing_payment_request_fails() {
    let v = obj(vec![]);
    assert_eq!(
        RequestInvoiceResponse::deserialize(&v),
        Err(Error::ObjectKeyNotFound(String::from("paymentRequest")))
    );
}

#[test]
fn sign_message_uses_callers_message() {
    // The provider echoes a different message; the decoder must keep the
    // caller's original and only read the signature.
    let v = obj(vec![("message", str_val("tampered")), ("signature", str_val("sig1"))]);
    let r = SignMessageResponse::deserialize("original", &v).unwrap();
    assert_eq!(r.message, "original");
    assert_eq!(r.signature, "sig1");
}

#[test]
fn sign_message_missing_signature_fails() {
    let v = obj(vec![("message", str_val("original"))]);
    assert_eq!(
        SignMessageResponse::deserialize("original", &v),
        Err(Error::ObjectKeyNotFound(String::from("signature")))
    );
}

#[test]
fn sign_message_wrongly_typed_signature_fails() {
    let v = obj(vec![("signature", DynValue::Bool(true))]);
    assert_eq!(
        SignMessageResponse::deserialize("m", &v),
        Err(Error::TypeMismatch(String::from("expected a string [signature]")))
    );
}

#[test]
fn balance_decodes_bits_and_currency() {
    let bits = 21.5f64.to_bits();
    let v = obj(vec![("balance", DynValue::Num(bits)), ("currency", str_val("sat"))]);
    let r = BalanceResponse::deserialize(&v).unwrap();
    assert_eq!(f64::from_bits(r.balance), 21.5);
    assert_eq!(r.currency.as_deref(), Some("sat"));
}

#[test]
fn balance_missing_currency_is_none() {
    let v = obj(vec![("balance", DynValue::Num(0))]);
    let r = BalanceResponse::deserialize(&v).unwrap();
    assert_eq!(r.balance, 0);
    assert_eq!(r.currency, None);
}

#[test]
fn balance_missing_balance_fails() {
    let v = obj(vec![("currency", str_val("sat"))]);
    assert_eq!(
        BalanceResponse::deserialize(&v),
        Err(Error::ObjectKeyNotFound(String::from("balance")))
    );
}

#[test]
fn balance_wrongly_typed_balance_fails() {
    let v = obj(vec![("balance", str_val("21"))]);
    assert_eq!(
        BalanceResponse::deserialize(&v),
        Err(Error::TypeMismatch(String::from("expected a number [balance]")))
    );
}

fn multi_error(pr: &str, msg: &str) -> DynValue {
    obj(vec![("paymentRequest", str_val(pr)), ("message", str_val(msg))])
}

fn multi_single(pr: &str, preimage: &str) -> DynValue {
    obj(vec![
        ("paymentRequest", str_val(pr)),
        ("response", obj(vec![("preimage", str_val(preimage))])),
    ])
}

#[test]
fn multi_payment_decodes_both_lists() {
    let v = obj(vec![
        (
            "payments",
            DynValue::List(vec![multi_single("lnbc1", "aa"), multi_single("lnbc2", "bb")]),
        ),
        ("errors", DynValue::List(vec![multi_error("lnbc3", "expired")])),
    ]);
    let r = SendMultiPaymentResponse::deserialize(&v).unwrap();
    assert_eq!(
        r.payments,
        vec![
            SendMultiPaymentSingle {
                payment_request: String::from("lnbc1"),
                response: SendPaymentResponse { preimage: String::from("aa") },
            },
            SendMultiPaymentSingle {
                payment_request: String::from("lnbc2"),
                response: SendPaymentResponse { preimage: String::from("bb") },
            },
        ]
    );
    assert_eq!(
        r.errors,
        vec![SendMultiPaymentError {
            payment_request: String::from("lnbc3"),
            message: String::from("expired"),
        }]
    );
}

#[test]
fn multi_payment_empty_lists_decode() {
    let v = obj(vec![
        ("payments", DynValue::List(vec![])),
        ("errors", DynValue::List(vec![])),
    ]);
    let r = SendMultiPaymentResponse::deserialize(&v).unwrap();
    assert_eq!(r.payments, Vec::new());
    assert_eq!(r.errors, Vec::new());
}

#[test]
fn multi_payment_bad_error_element_fails_whole_response() {
    let v = obj(vec![
        ("payments", DynValue::List(vec![])),
        (
            "errors",
            DynValue::List(vec![
                multi_error("lnbc1", "ok-shaped"),
                obj(vec![("paymentRequest", str_val("lnbc2"))]),
            ]),
        ),
    ]);
    assert_eq!(
        SendMultiPaymentResponse::deserialize(&v),
        Err(Error::ObjectKeyNotFound(String::from("message")))
    );
}

#[test]
fn multi_payment_bad_success_element_fails_whole_response() {
    let v = obj(vec![
        (
            "payments",
            DynValue::List(vec![obj(vec![("paymentRequest", str_val("lnbc1"))])]),
        ),
        ("errors", DynValue::List(vec![])),
    ]);
    assert_eq!(
        SendMultiPaymentResponse::deserialize(&v),
        Err(Error::ObjectKeyNotFound(String::from("response")))
    );
}

#[test]
fn multi_payment_missing_lists_fail() {
    let only_errors = obj(vec![("errors", DynValue::List(vec![]))]);
    assert_eq!(
        SendMultiPaymentResponse::deserialize(&only_errors),
        Err(Error::ObjectKeyNotFound(String::from("payments")))
    );
    let only_payments = obj(vec![("payments", DynValue::List(vec![]))]);
    assert_eq!(
        SendMultiPaymentResponse::deserialize(&only_payments),
        Err(Error::ObjectKeyNotFound(String::from("errors")))
    );
}

#[test]
fn multi_payment_non_list_errors_fail() {
    let v = obj(vec![
        ("payments", DynValue::List(vec![])),
        ("errors", str_val("none")),
    ]);
    assert_eq!(
        SendMultiPaymentResponse::deserialize(&v),
        Err(Error::TypeMismatch(String::from("expected an array [errors]")))
    );
}
