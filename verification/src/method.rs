//! The capability identifiers a provider may report: one variant per known
//! method name, plus an open variant carrying an arbitrary name, so that
//! methods unknown to this version of the adapter still round-trip.

use vstd::prelude::*;
use vstd::string::*;

use crate::text::str_eq;

verus! {

/// A method the provider may support, by name.
#[derive(Debug, Clone, PartialEq, Eq, PartialOrd, Ord, Hash)]
pub enum GetInfoMethod {
    IsEnabled,
    Enable,
    GetInfo,
    Keysend,
    MakeInvoice,
    SendPayment,
    SendMultiPayment,
    SendPaymentAsync,
    SignMessage,
    VerifyMessage,
    Request,
    Lnurl,
    On,
    Off,
    GetBalance,
    /// A method name unknown to this version of the adapter, kept verbatim.
    Other(String),
}

/// The mathematical shape of a [`GetInfoMethod`], with the open variant's
/// name as a character sequence.
pub ghost enum MethodView {
    IsEnabled,
    Enable,
    GetInfo,
    Keysend,
    MakeInvoice,
    SendPayment,
    SendMultiPayment,
    SendPaymentAsync,
    SignMessage,
    VerifyMessage,
    Request,
    Lnurl,
    On,
    Off,
    GetBalance,
    Other(Seq<char>),
}

impl View for GetInfoMethod {
    type V = MethodView;

    open spec fn view(&self) -> MethodView {
        match self {
            GetInfoMethod::IsEnabled => MethodView::IsEnabled,
            GetInfoMethod::Enable => MethodView::Enable,
            GetInfoMethod::GetInfo => MethodView::GetInfo,
            GetInfoMethod::Keysend => MethodView::Keysend,
            GetInfoMethod::MakeInvoice => MethodView::MakeInvoice,
            GetInfoMethod::SendPayment => MethodView::SendPayment,
            GetInfoMethod::SendMultiPayment => MethodView::SendMultiPayment,
            GetInfoMethod::SendPaymentAsync => MethodView::SendPaymentAsync,
            GetInfoMethod::SignMessage => MethodView::SignMessage,
            GetInfoMethod::VerifyMessage => MethodView::VerifyMessage,
            GetInfoMethod::Request => MethodView::Request,
            GetInfoMethod::Lnurl => MethodView::Lnurl,
            GetInfoMethod::On => MethodView::On,
            GetInfoMethod::Off => MethodView::Off,
            GetInfoMethod::GetBalance => MethodView::GetBalance,
            GetInfoMethod::Other(s) => MethodView::Other(s@),
        }
    }
}

impl DeepView for GetInfoMethod {
    type V = MethodView;

    open spec fn deep_view(&self) -> MethodView {
        self.view()
    }
}

/// The canonical name of a capability identifier: the exact literal for
/// each known variant, the carried name verbatim for the open variant.
pub open spec fn spec_method_name(m: MethodView) -> Seq<char> {
    match m {
        MethodView::IsEnabled => "isEnabled"@,
        MethodView::Enable => "enable"@,
        MethodView::GetInfo => "getInfo"@,
        MethodView::Keysend => "keysend"@,
        MethodView::MakeInvoice => "makeInvoice"@,
        MethodView::SendPayment => "sendPayment"@,
        MethodView::SendMultiPayment => "sendMultiPayment"@,
        MethodView::SendPaymentAsync => "sendPaymentAsync"@,
        MethodView::SignMessage => "signMessage"@,
        MethodView::VerifyMessage => "verifyMessage"@,
        MethodView::Request => "request"@,
        MethodView::Lnurl => "lnurl"@,
        MethodView::On => "on"@,
        MethodView::Off => "off"@,
        MethodView::GetBalance => "getBalance"@,
        MethodView::Other(s) => s,
    }
}

/// The capability identifier a name parses to: the matching known variant,
/// or the open variant carrying the name verbatim.
pub open spec fn spec_method_of(s: Seq<char>) -> MethodView {
    if s == "isEnabled"@ {
        MethodView::IsEnabled
    } else if s == "enable"@ {
        MethodView::Enable
    } else if s == "getInfo"@ {
        MethodView::GetInfo
    } else if s == "keysend"@ {
        MethodView::Keysend
    } else if s == "makeInvoice"@ {
        MethodView::MakeInvoice
    } else if s == "sendPayment"@ {
        MethodView::SendPayment
    } else if s == "sendMultiPayment"@ {
        MethodView::SendMultiPayment
    } else if s == "sendPaymentAsync"@ {
        MethodView::SendPaymentAsync
    } else if s == "signMessage"@ {
        MethodView::SignMessage
    } else if s == "verifyMessage"@ {
        MethodView::VerifyMessage
    } else if s == "request"@ {
        MethodView::Request
    } else if s == "lnurl"@ {
        MethodView::Lnurl
    } else if s == "on"@ {
        MethodView::On
    } else if s == "off"@ {
        MethodView::Off
    } else if s == "getBalance"@ {
        MethodView::GetBalance
    } else {
        MethodView::Other(s)
    }
}

impl GetInfoMethod {
    /// Parse a method name into a capability identifier.
    pub fn from_name(name: &str) -> (r: GetInfoMethod)
        ensures
            r@ == spec_method_of(name@),
    {
        if str_eq(name, "isEnabled") {
            GetInfoMethod::IsEnabled
        } else if str_eq(name, "enable") {
            GetInfoMethod::Enable
        } else if str_eq(name, "getInfo") {
            GetInfoMethod::GetInfo
        } else if str_eq(name, "keysend") {
            GetInfoMethod::Keysend
        } else if str_eq(name, "makeInvoice") {
            GetInfoMethod::MakeInvoice
        } else if str_eq(name, "sendPayment") {
            GetInfoMethod::SendPayment
        } else if str_eq(name, "sendMultiPayment") {
            GetInfoMethod::SendMultiPayment
        } else if str_eq(name, "sendPaymentAsync") {
            GetInfoMethod::SendPaymentAsync
        } else if str_eq(name, "signMessage") {
            GetInfoMethod::SignMessage
        } else if str_eq(name, "verifyMessage") {
            GetInfoMethod::VerifyMessage
        } else if str_eq(name, "request") {
            GetInfoMethod::Request
        } else if str_eq(name, "lnurl") {
            GetInfoMethod::Lnurl
        } else if str_eq(name, "on") {
            GetInfoMethod::On
        } else if str_eq(name, "off") {
            GetInfoMethod::Off
        } else if str_eq(name, "getBalance") {
            GetInfoMethod::GetBalance
        } else {
            GetInfoMethod::Other(String::from_str(name))
        }
    }

    /// The canonical name of this capability identifier.
    pub fn as_str(&self) -> (r: &str)
        ensures
            r@ == spec_method_name(self@),
    {
        match self {
            GetInfoMethod::IsEnabled => "isEnabled",
            GetInfoMethod::Enable => "enable",
            GetInfoMethod::GetInfo => "getInfo",
            GetInfoMethod::Keysend => "keysend",
            GetInfoMethod::MakeInvoice => "makeInvoice",
            GetInfoMethod::SendPayment => "sendPayment",
            GetInfoMethod::SendMultiPayment => "sendMultiPayment",
            GetInfoMethod::SendPaymentAsync => "sendPaymentAsync",
            GetInfoMethod::SignMessage => "signMessage",
            GetInfoMethod::VerifyMessage => "verifyMessage",
            GetInfoMethod::Request => "request",
            GetInfoMethod::Lnurl => "lnurl",
            GetInfoMethod::On => "on",
            GetInfoMethod::Off => "off",
            GetInfoMethod::GetBalance => "getBalance",
            GetInfoMethod::Other(s) => s.as_str(),
        }
    }

    /// The canonical name of this capability identifier, as an owned string.
    pub fn to_string(&self) -> (r: String)
        ensures
            r@ == spec_method_name(self@),
    {
        String::from_str(self.as_str())
    }
}

/// Law: every known capability identifier round-trips through its canonical
/// name: parsing the name yields the identifier back.
pub proof fn lemma_method_round_trip(m: MethodView)
    requires
        !(m is Other),
    ensures
        spec_method_of(spec_method_name(m)) == m,
{
    reveal_strlit("isEnabled");
    reveal_strlit("enable");
    reveal_strlit("getInfo");
    reveal_strlit("keysend");
    reveal_strlit("makeInvoice");
    reveal_strlit("sendPayment");
    reveal_strlit("sendMultiPayment");
    reveal_strlit("sendPaymentAsync");
    reveal_strlit("signMessage");
    reveal_strlit("verifyMessage");
    reveal_strlit("request");
    reveal_strlit("lnurl");
    reveal_strlit("on");
    reveal_strlit("off");
    reveal_strlit("getBalance");
    assert("isEnabled"@.len() == 9);
    assert("enable"@.len() == 6);
    assert("getInfo"@.len() == 7);
    assert("keysend"@.len() == 7);
    assert("makeInvoice"@.len() == 11);
    assert("sendPayment"@.len() == 11);
    assert("sendMultiPayment"@.len() == 16);
    assert("sendPaymentAsync"@.len() == 16);
    assert("signMessage"@.len() == 11);
    assert("verifyMessage"@.len() == 13);
    assert("request"@.len() == 7);
    assert("lnurl"@.len() == 5);
    assert("on"@.len() == 2);
    assert("off"@.len() == 3);
    assert("getBalance"@.len() == 10);
    assert("keysend"@ != "getInfo"@) by {
        assert("keysend"@[0] != "getInfo"@[0]);
    }
    assert("sendPayment"@ != "makeInvoice"@) by {
        assert("sendPayment"@[0] != "makeInvoice"@[0]);
    }
    assert("sendPaymentAsync"@ != "sendMultiPayment"@) by {
        assert("sendPaymentAsync"@[4] != "sendMultiPayment"@[4]);
    }
    assert("signMessage"@ != "makeInvoice"@) by {
        assert("signMessage"@[0] != "makeInvoice"@[0]);
    }
    assert("signMessage"@ != "sendPayment"@) by {
        assert("signMessage"@[1] != "sendPayment"@[1]);
    }
    assert("request"@ != "getInfo"@) by {
        assert("request"@[0] != "getInfo"@[0]);
    }
    assert("request"@ != "keysend"@) by {
        assert("request"@[0] != "keysend"@[0]);
    }
}

/// Law: a name that matches no known literal parses to the open variant
/// carrying it, and the open variant's canonical name is that name,
/// verbatim. Together: unknown names round-trip unchanged.
pub proof fn lemma_unknown_name_round_trip(s: Seq<char>)
    requires
        s != "isEnabled"@,
        s != "enable"@,
        s != "getInfo"@,
        s != "keysend"@,
        s != "makeInvoice"@,
        s != "sendPayment"@,
        s != "sendMultiPayment"@,
        s != "sendPaymentAsync"@,
        s != "signMessage"@,
        s != "verifyMessage"@,
        s != "request"@,
        s != "lnurl"@,
        s != "on"@,
        s != "off"@,
        s != "getBalance"@,
    ensures
        spec_method_of(s) == MethodView::Other(s),
        spec_method_name(spec_method_of(s)) == s,
{
}

} // verus!
