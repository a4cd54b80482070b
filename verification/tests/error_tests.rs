use webln::error::Error;

#[test]
fn rejection_with_marker_classifies_as_user_rejected() {
    let e = Error::from_host_failure(String::from(
        "JsValue(Error: User rejected the request.)",
    ));
    assert_eq!(e, Error::UserRejected);
}

#[test]
fn bare_marker_classifies_as_user_rejected() {
    let e = Error::from_host_failure(String::from("User rejected"));
    assert_eq!(e, Error::UserRejected);
}

#[test]
fn other_rejections_keep_their_text() {
    let e = Error::from_host_failure(String::from("JsValue(TypeError: boom)"));
    assert_eq!(e, Error::Wasm(String::from("JsValue(TypeError: boom)")));
}

#[test]
fn empty_rejection_is_generic() {
    let e = Error::from_host_failure(String::new());
    assert_eq!(e, Error::Wasm(String::new()));
}

#[test]
fn marker_is_case_sensitive() {
    let e = Error::from_host_failure(String::from("user rejected"));
    assert_eq!(e, Error::Wasm(String::from("user rejected")));
}

#[test]
fn messages_render_each_kind() {
    assert_eq!(Error::Wasm(String::from("boom")).message(), "boom");
    assert_eq!(Error::NoGlobalWindowObject.message(), "No global `window` object");
    assert_eq!(
        Error::NamespaceNotFound(String::from("webln")).message(),
        "`webln` namespace not found"
    );
    assert_eq!(
        Error::ObjectKeyNotFound(String::from("preimage")).message(),
        "Key `preimage` not found in object"
    );
    assert_eq!(
        Error::TypeMismatch(String::from("expected a bool")).message(),
        "Type mismatch: expected a bool"
    );
    assert_eq!(Error::UserRejected.message(), "User rejected");
    assert_eq!(Error::EmptyInvoice.message(), "Empty invoice");
    assert_eq!(Error::SomethingGoneWrong.message(), "Something's gone wrong");
}
