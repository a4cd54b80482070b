use webln::method::GetInfoMethod;

fn known_variants() -> Vec<GetInfoMethod> {
    vec![
        GetInfoMethod::IsEnabled,
        GetInfoMethod::Enable,
        GetInfoMethod::GetInfo,
        GetInfoMethod::Keysend,
        GetInfoMethod::MakeInvoice,
        GetInfoMethod::SendPayment,
        GetInfoMethod::SendMultiPayment,
        GetInfoMethod::SendPaymentAsync,
        GetInfoMethod::SignMessage,
        GetInfoMethod::VerifyMessage,
        GetInfoMethod::Request,
        GetInfoMethod::Lnurl,
        GetInfoMethod::On,
        GetInfoMethod::Off,
        GetInfoMethod::GetBalance,
    ]
}

#[test]
fn known_variants_round_trip() {
    for m in known_variants() {
        let name = m.to_string();
        assert_eq!(GetInfoMethod::from_name(&name), m, "round trip failed for {name}");
    }
}

#[test]
fn known_names_are_exact_literals() {
    assert_eq!(GetInfoMethod::IsEnabled.to_string(), "isEnabled");
    assert_eq!(GetInfoMethod::Enable.to_string(), "enable");
    assert_eq!(GetInfoMethod::GetInfo.to_string(), "getInfo");
    assert_eq!(GetInfoMethod::Keysend.to_string(), "keysend");
    assert_eq!(GetInfoMethod::MakeInvoice.to_string(), "makeInvoice");
    assert_eq!(GetInfoMethod::SendPayment.to_string(), "sendPayment");
    assert_eq!(GetInfoMethod::SendMultiPayment.to_string(), "sendMultiPayment");
    assert_eq!(GetInfoMethod::SendPaymentAsync.to_string(), "sendPaymentAsync");
    assert_eq!(GetInfoMethod::SignMessage.to_string(), "signMessage");
    assert_eq!(GetInfoMethod::VerifyMessage.to_string(), "verifyMessage");
    assert_eq!(GetInfoMethod::Request.to_string(), "request");
    assert_eq!(GetInfoMethod::Lnurl.to_string(), "lnurl");
    assert_eq!(GetInfoMethod::On.to_string(), "on");
    assert_eq!(GetInfoMethod::Off.to_string(), "off");
    assert_eq!(GetInfoMethod::GetBalance.to_string(), "getBalance");
}

#[test]
fn unknown_name_round_trips_verbatim() {
    let m = GetInfoMethod::from_name("payInvoiceFaster");
    assert_eq!(m, GetInfoMethod::Other(String::from("payInvoiceFaster")));
    assert_eq!(m.to_string(), "payInvoiceFaster");
}

#[test]
fn empty_name_is_open_variant() {
    let m = GetInfoMethod::from_name("");
    assert_eq!(m, GetInfoMethod::Other(String::new()));
    assert_eq!(m.to_string(), "");
}

#[test]
fn near_miss_names_are_open_variants() {
    // Case and prefix variations of known names must not match.
    for name in ["isenabled", "IsEnabled", "getinfo", "sendPayments", "enable ", " keysend"] {
        let m = GetInfoMethod::from_name(name);
        assert_eq!(m, GetInfoMethod::Other(String::from(name)));
        assert_eq!(m.to_string(), name);
    }
}
