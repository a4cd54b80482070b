//! The adapter's model of the host's dynamic values.
//!
//! The provider's surface is a loosely-typed object graph. [`DynValue`]
//! captures exactly what the adapter reads of it: booleans, numbers
//! (carried as the bit pattern of the host's 64-bit float), strings,
//! arrays, plain objects as ordered key/value lists, callable properties,
//! and the absent value (both `undefined` and `null` map to it). The host
//! glue converts real host values into this type at the boundary; every
//! function here is verified against it.

use vstd::prelude::*;
use vstd::string::*;

use crate::error::{Error, ErrorView};
use crate::text::str_eq;

verus! {

/// A dynamic host value, as far as the adapter inspects it.
#[derive(Debug, PartialEq)]
pub enum DynValue {
    /// The absent value: a missing property, `undefined`, or `null`.
    Undefined,
    /// A boolean.
    Bool(bool),
    /// A number, carried as the bit pattern of the host's 64-bit float.
    Num(u64),
    /// A string.
    Str(String),
    /// An array of dynamic values.
    List(Vec<DynValue>),
    /// A plain object: its properties in order. A key binds at its first
    /// occurrence.
    Obj(Vec<(String, DynValue)>),
    /// A callable property. The model records only that it is invocable.
    Func,
}

/// The binding of `key` in the property list `fields`, searching from
/// position `i`: the value of the first matching key, if any.
pub open spec fn spec_lookup_from(
    fields: Seq<(String, DynValue)>,
    key: Seq<char>,
    i: int,
) -> Option<DynValue>
    decreases fields.len() - i,
{
    if i < 0 || i >= fields.len() {
        None
    } else if fields[i].0@ == key {
        Some(fields[i].1)
    } else {
        spec_lookup_from(fields, key, i + 1)
    }
}

/// The binding of `key` in the property list `fields`, if any.
pub open spec fn spec_lookup(fields: Seq<(String, DynValue)>, key: Seq<char>) -> Option<DynValue> {
    spec_lookup_from(fields, key, 0)
}

/// A permissive read of an optional string property: absence or a
/// non-string value both mean "no value", never an error.
pub open spec fn spec_opt_string(
    fields: Seq<(String, DynValue)>,
    key: Seq<char>,
) -> Option<Seq<char>> {
    match spec_lookup(fields, key) {
        Some(DynValue::Str(s)) => Some(s@),
        _ => None,
    }
}

/// A strict read of a required string property: absence is
/// `ObjectKeyNotFound(key)`, a non-string value is `TypeMismatch` with the
/// given description.
pub open spec fn spec_required_string(
    fields: Seq<(String, DynValue)>,
    key: Seq<char>,
    mismatch: Seq<char>,
) -> Result<Seq<char>, ErrorView> {
    match spec_lookup(fields, key) {
        None => Err(ErrorView::ObjectKeyNotFound(key)),
        Some(DynValue::Str(s)) => Ok(s@),
        Some(_) => Err(ErrorView::TypeMismatch(mismatch)),
    }
}

/// A property list is exactly the given sequence of string-valued entries:
/// same keys in the same order, every value a string with the given text.
pub open spec fn spec_obj_strings(
    fields: Seq<(String, DynValue)>,
    entries: Seq<(Seq<char>, Seq<char>)>,
) -> bool {
    &&& fields.len() == entries.len()
    &&& forall|i: int|
        0 <= i < entries.len() ==> (#[trigger] fields[i].0)@ == entries[i].0 && (fields[i].1
            matches DynValue::Str(s) && s@ == entries[i].1)
}

/// Find the position of the first binding of `key` in `fields`.
pub fn find_key_index(fields: &Vec<(String, DynValue)>, key: &str) -> (r: Option<usize>)
    ensures
        match r {
            Some(i) => i < fields@.len() && fields@[i as int].0@ == key@ && spec_lookup(
                fields@,
                key@,
            ) == Some(fields@[i as int].1),
            None => spec_lookup(fields@, key@) is None,
        },
{
    let n = fields.len();
    let mut i: usize = 0;
    while i < n
        invariant
            n == fields@.len(),
            i <= n,
            spec_lookup(fields@, key@) == spec_lookup_from(fields@, key@, i as int),
        decreases n - i,
    {
        if str_eq(fields[i].0.as_str(), key) {
            return Some(i);
        }
        i += 1;
    }
    None
}

/// Read a required property off an object's property list, as the decoders
/// do: a missing key is an `ObjectKeyNotFound` error.
pub fn get_value_by_key<'a>(fields: &'a Vec<(String, DynValue)>, key: &str) -> (r: Result<
    &'a DynValue,
    Error,
>)
    ensures
        match spec_lookup(fields@, key@) {
            Some(v) => r matches Ok(rv) && *rv == v,
            None => r matches Err(e) && e@ == ErrorView::ObjectKeyNotFound(key@),
        },
{
    match find_key_index(fields, key) {
        Some(i) => Ok(&fields[i].1),
        None => Err(Error::ObjectKeyNotFound(String::from_str(key))),
    }
}

/// Read an optional string property permissively: absence or a wrong type
/// yields `None`, never an error.
pub fn read_optional_string(fields: &Vec<(String, DynValue)>, key: &str) -> (r: Option<String>)
    ensures
        match spec_opt_string(fields@, key@) {
            Some(v) => r matches Some(s) && s@ == v,
            None => r is None,
        },
{
    match find_key_index(fields, key) {
        Some(i) => match &fields[i].1 {
            DynValue::Str(s) => Some(s.clone()),
            _ => None,
        },
        None => None,
    }
}

/// Read a required string property strictly, with the given type-mismatch
/// description.
pub fn read_required_string(fields: &Vec<(String, DynValue)>, key: &str, mismatch: &str) -> (r:
    Result<String, Error>)
    ensures
        match spec_required_string(fields@, key@, mismatch@) {
            Ok(v) => r matches Ok(s) && s@ == v,
            Err(ev) => r matches Err(e) && e@ == ev,
        },
{
    match get_value_by_key(fields, key) {
        Ok(v) => match v {
            DynValue::Str(s) => Ok(s.clone()),
            _ => Err(Error::TypeMismatch(String::from_str(mismatch))),
        },
        Err(e) => Err(e),
    }
}

/// How a dynamic value decodes as a boolean: only an actual boolean does.
pub open spec fn spec_decode_bool(v: DynValue) -> Result<bool, ErrorView> {
    match v {
        DynValue::Bool(b) => Ok(b),
        _ => Err(ErrorView::TypeMismatch("expected a bool"@)),
    }
}

/// Decode a dynamic value as a boolean.
pub fn deserialize_bool(value: &DynValue) -> (r: Result<bool, Error>)
    ensures
        match spec_decode_bool(*value) {
            Ok(b) => r matches Ok(rb) && rb == b,
            Err(ev) => r matches Err(e) && e@ == ev,
        },
{
    match value {
        DynValue::Bool(b) => Ok(*b),
        _ => Err(Error::TypeMismatch(String::from_str("expected a bool"))),
    }
}

/// Law: optional properties decode permissively. A key that is absent or
/// bound to a non-string never raises an error: it reads as no value. A key
/// bound to a string reads as exactly that string.
pub proof fn lemma_optional_fields_permissive(fields: Seq<(String, DynValue)>, key: Seq<char>)
    ensures
        !(spec_lookup(fields, key) matches Some(v) && v is Str) ==> spec_opt_string(fields, key)
            is None,
        spec_lookup(fields, key) matches Some(v) ==> (v matches DynValue::Str(s)
            ==> spec_opt_string(fields, key) == Some(s@)),
{
}

} // verus!
