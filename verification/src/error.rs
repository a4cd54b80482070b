//! The flat error taxonomy of the adapter, and the classifier that turns a
//! stringified host rejection into one of its kinds.

use vstd::prelude::*;
use vstd::string::*;

use crate::text::{spec_contains, str_contains};

verus! {

/// Everything that can go wrong in the adapter, as a flat enumeration.
/// Each variant carries at most one string of context.
#[derive(Debug, Clone, PartialEq, Eq)]
pub enum Error {
    /// Generic host-call failure, carrying the stringified original rejection.
    Wasm(String),
    /// The global `window` object is unreachable; the adapter cannot be built.
    NoGlobalWindowObject,
    /// A required namespace or method is absent or has the wrong shape.
    NamespaceNotFound(String),
    /// A required key is absent from a decoded object.
    ObjectKeyNotFound(String),
    /// A key is present but holds a value of the wrong dynamic type.
    TypeMismatch(String),
    /// The provider signalled that the user declined the request.
    UserRejected,
    /// The caller supplied an empty invoice string.
    EmptyInvoice,
    /// A result was structurally malformed in a way no other kind covers.
    SomethingGoneWrong,
}

/// The mathematical shape of an [`Error`], with strings as character
/// sequences. Contracts throughout the crate speak of this view.
pub ghost enum ErrorView {
    Wasm(Seq<char>),
    NoGlobalWindowObject,
    NamespaceNotFound(Seq<char>),
    ObjectKeyNotFound(Seq<char>),
    TypeMismatch(Seq<char>),
    UserRejected,
    EmptyInvoice,
    SomethingGoneWrong,
}

impl View for Error {
    type V = ErrorView;

    open spec fn view(&self) -> ErrorView {
        match self {
            Error::Wasm(s) => ErrorView::Wasm(s@),
            Error::NoGlobalWindowObject => ErrorView::NoGlobalWindowObject,
            Error::NamespaceNotFound(s) => ErrorView::NamespaceNotFound(s@),
            Error::ObjectKeyNotFound(s) => ErrorView::ObjectKeyNotFound(s@),
            Error::TypeMismatch(s) => ErrorView::TypeMismatch(s@),
            Error::UserRejected => ErrorView::UserRejected,
            Error::EmptyInvoice => ErrorView::EmptyInvoice,
            Error::SomethingGoneWrong => ErrorView::SomethingGoneWrong,
        }
    }
}

/// How a stringified host-call rejection is classified: a text containing
/// the provider's user-refusal marker means the user declined; any other
/// text is kept verbatim as a generic host failure.
pub open spec fn spec_classify(s: Seq<char>) -> ErrorView {
    if spec_contains(s, "User rejected"@) {
        ErrorView::UserRejected
    } else {
        ErrorView::Wasm(s)
    }
}

/// The human-readable message of each error kind.
pub open spec fn spec_message(e: ErrorView) -> Seq<char> {
    match e {
        ErrorView::Wasm(s) => s,
        ErrorView::NoGlobalWindowObject => "No global `window` object"@,
        ErrorView::NamespaceNotFound(n) => "`"@ + n + "` namespace not found"@,
        ErrorView::ObjectKeyNotFound(n) => "Key `"@ + n + "` not found in object"@,
        ErrorView::TypeMismatch(d) => "Type mismatch: "@ + d,
        ErrorView::UserRejected => "User rejected"@,
        ErrorView::EmptyInvoice => "Empty invoice"@,
        ErrorView::SomethingGoneWrong => "Something's gone wrong"@,
    }
}

impl Error {
    /// Classify a failure surfaced from the asynchronous host-call boundary,
    /// given in its stringified form. This is the single conversion point
    /// between host rejections and the adapter's error kinds.
    pub fn from_host_failure(s: String) -> (e: Error)
        ensures
            e@ == spec_classify(s@),
    {
        if str_contains(s.as_str(), "User rejected") {
            Error::UserRejected
        } else {
            Error::Wasm(s)
        }
    }

    /// The error rendered as a human-readable message.
    pub fn message(&self) -> (r: String)
        ensures
            r@ == spec_message(self@),
    {
        match self {
            Error::Wasm(s) => s.clone(),
            Error::NoGlobalWindowObject => String::from_str("No global `window` object"),
            Error::NamespaceNotFound(n) => String::from_str("`").concat(n.as_str()).concat(
                "` namespace not found",
            ),
            Error::ObjectKeyNotFound(n) => String::from_str("Key `").concat(n.as_str()).concat(
                "` not found in object",
            ),
            Error::TypeMismatch(d) => String::from_str("Type mismatch: ").concat(d.as_str()),
            Error::UserRejected => String::from_str("User rejected"),
            Error::EmptyInvoice => String::from_str("Empty invoice"),
            Error::SomethingGoneWrong => String::from_str("Something's gone wrong"),
        }
    }
}

/// Law: a host rejection whose text contains the user-refusal marker
/// classifies as `UserRejected`; any other rejection classifies as the
/// generic host failure carrying that exact text.
pub proof fn lemma_classify_host_failure(s: Seq<char>)
    ensures
        spec_contains(s, "User rejected"@) ==> spec_classify(s) == ErrorView::UserRejected,
        !spec_contains(s, "User rejected"@) ==> spec_classify(s) == ErrorView::Wasm(s),
{
}

} // verus!
