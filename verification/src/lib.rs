//! A typed adapter for a browser-injected WebLN Lightning payment provider.
//!
//! The provider is a loosely-typed dynamic object placed on the page by a
//! wallet extension. This crate models that dynamic surface as the
//! [`value::DynValue`] data type and verifies the whole translation layer on
//! that model: locating and validating the provider namespace, resolving its
//! string-named methods, encoding typed request arguments into dynamic
//! objects, decoding dynamic results into typed responses, and classifying
//! host-call failures. The host glue that talks to the real browser objects
//! stays outside the library and hands it plain values.

pub mod balance;
pub mod error;
pub mod get_info;
pub mod keysend;
pub mod method;
pub mod request_invoice;
pub mod send_payment;
pub mod sign_message;
pub mod text;
pub mod value;
pub mod webln;
