use std::str::FromStr;

use webln::keysend::{KeysendArgs, PublicKey};
use webln::request_invoice::RequestInvoiceArgs;
use webln::text::{bytes_to_hex, u64_to_decimal};
use webln::value::DynValue;

/// The property list of an encoded object, with every value expected to be
/// a string.
fn entries(v: &DynValue) -> Vec<(String, String)> {
    match v {
        DynValue::Obj(fields) => fields
            .iter()
            .map(|(k, val)| match val {
                DynValue::Str(s) => (k.clone(), s.clone()),
                other => panic!("non-string value under key {k}: {other:?}"),
            })
            .collect(),
        other => panic!("expected an object, got {other:?}"),
    }
}

#[test]
fn decimal_rendering_exact_values() {
    assert_eq!(u64_to_decimal(0), "0");
    assert_eq!(u64_to_decimal(9), "9");
    assert_eq!(u64_to_decimal(10), "10");
    assert_eq!(u64_to_decimal(65535), "65535");
    assert_eq!(u64_to_decimal(1_000_000), "1000000");
    assert_eq!(u64_to_decimal(u64::MAX), "18446744073709551615");
}

#[test]
fn hex_rendering_exact_values() {
    assert_eq!(bytes_to_hex(&vec![]), "");
    assert_eq!(bytes_to_hex(&vec![0x00, 0xff, 0x0a]), "00ff0a");
    assert_eq!(bytes_to_hex(&vec![0x12, 0x34, 0xab, 0xcd]), "1234abcd");
}

#[test]
fn invoice_args_amount_only_encodes_one_key() {
    let args = RequestInvoiceArgs::new().amount(21);
    assert_eq!(
        entries(&args.encode()),
        vec![(String::from("amount"), String::from("21"))]
    );
}

#[test]
fn invoice_args_all_fields_encode_all_keys() {
    let args = RequestInvoiceArgs::new()
        .amount(21)
        .default_amount(42)
        .minimum_amount(1)
        .maximum_amount(100_000)
        .default_memo(String::from("coffee"));
    assert_eq!(
        entries(&args.encode()),
        vec![
            (String::from("amount"), String::from("21")),
            (String::from("defaultAmount"), String::from("42")),
            (String::from("minimumAmount"), String::from("1")),
            (String::from("maximumAmount"), String::from("100000")),
            (String::from("defaultMemo"), String::from("coffee")),
        ]
    );
}

#[test]
fn invoice_args_empty_encodes_no_keys() {
    let args = RequestInvoiceArgs::new();
    assert_eq!(entries(&args.encode()), Vec::new());
}

#[test]
fn invoice_args_subset_keeps_only_set_keys() {
    let args = RequestInvoiceArgs::new()
        .minimum_amount(5)
        .default_memo(String::from("m"));
    assert_eq!(
        entries(&args.encode()),
        vec![
            (String::from("minimumAmount"), String::from("5")),
            (String::from("defaultMemo"), String::from("m")),
        ]
    );
}

#[test]
fn invoice_args_builders_leave_other_fields_alone() {
    let args = RequestInvoiceArgs::new().amount(1).maximum_amount(9);
    assert_eq!(args.amount, Some(1));
    assert_eq!(args.default_amount, None);
    assert_eq!(args.minimum_amount, None);
    assert_eq!(args.maximum_amount, Some(9));
    assert_eq!(args.default_memo, None);
}

fn test_key_bytes() -> Vec<u8> {
    // The generator point of the curve, compressed: a well-known valid key.
    let mut bytes = vec![0x02, 0x79, 0xbe, 0x66, 0x7e, 0xf9, 0xdc, 0xbb, 0xac, 0x55, 0xa0];
    bytes.extend_from_slice(&[0x62, 0x95, 0xce, 0x87, 0x0b, 0x07, 0x02, 0x9b, 0xfc, 0xdb, 0x2d]);
    bytes.extend_from_slice(&[0xce, 0x28, 0xd9, 0x59, 0xf2, 0x81, 0x5b, 0x16, 0xf8, 0x17, 0x98]);
    bytes
}

const TEST_KEY_HEX: &str = "0279be667ef9dcbbac55a06295ce870b07029bfcdb2dce28d959f2815b16f81798";

#[test]
fn public_key_accepts_exactly_33_bytes() {
    assert!(PublicKey::from_compressed_bytes(test_key_bytes()).is_some());
    assert!(PublicKey::from_compressed_bytes(vec![0x02; 32]).is_none());
    assert!(PublicKey::from_compressed_bytes(vec![0x02; 34]).is_none());
    assert!(PublicKey::from_compressed_bytes(Vec::new()).is_none());
}

#[test]
fn public_key_hex_is_canonical() {
    let key = PublicKey::from_compressed_bytes(test_key_bytes()).unwrap();
    assert_eq!(key.to_hex(), TEST_KEY_HEX);
}

#[test]
fn keysend_encodes_destination_and_amount() {
    let key = PublicKey::from_compressed_bytes(test_key_bytes()).unwrap();
    let args = KeysendArgs { destination: key, amount: 1000 };
    assert_eq!(
        entries(&args.encode()),
        vec![
            (String::from("destination"), String::from(TEST_KEY_HEX)),
            (String::from("amount"), String::from("1000")),
        ]
    );
}

#[test]
fn public_key_hex_matches_crypto_library_canonical_form() {
    let parsed = secp256k1::PublicKey::from_str(TEST_KEY_HEX).unwrap();
    let key = PublicKey::from_compressed_bytes(parsed.serialize().to_vec()).unwrap();
    assert_eq!(key.to_hex(), parsed.to_string());
}
