//! Snapshots built by hand through the checks that take plain values.

use juno::hydra::error::{HexField, ScriptError, ValidationError, ValueError};
use juno::hydra::hex::{hex_digit, validate_hex_string};
use juno::hydra::initial_utxo::{
    hex_field_at_fault, locate_value_error, read_snapshot, valid_asset_name, valid_policy_id,
    validate_document, validate_entry, validate_policy, validate_script, validate_snapshot,
    validate_value,
};
use juno::hydra::snapshot::{AssetBundle, Script, ScriptDetails, ScriptType, TxOut, UTxO};
use juno::hydra::utxo_ref::{KeyFormat, KEY_PATTERN};

fn plain_output(address: &str) -> TxOut {
    TxOut {
        address: address.to_string(),
        value: AssetBundle { lovelace: 0, assets: vec![] },
        reference_script: None,
        datumhash: None,
        inline_datum: None,
        inline_datumhash: None,
        inline_datum_raw: None,
        datum: None,
    }
}

fn a_script(language: &str, cbor_hex: &str) -> Script {
    Script {
        script_language: language.to_string(),
        script: ScriptDetails {
            cbor_hex: cbor_hex.to_string(),
            description: "free text, not hex".to_string(),
            script_type: ScriptType::PlutusScriptV3,
        },
    }
}

fn a_ref(index: u32) -> String {
    format!("{}#{}", "0123456789abcdef".repeat(4), index)
}

#[test]
fn hex_digits_are_ascii_and_of_either_case() {
    for c in "0123456789abcdefABCDEF".chars() {
        assert!(hex_digit(c), "{}", c);
    }
    for c in "gGzZ /:@`[{-_#\u{0660}\u{ff11}é".chars() {
        assert!(!hex_digit(c), "{}", c);
    }
    for c in '\0'..='\u{ff}' {
        assert_eq!(hex_digit(c), c.is_ascii_hexdigit());
    }
}

#[test]
fn hex_strings() {
    assert!(validate_hex_string(""));
    assert!(validate_hex_string("00"));
    assert!(validate_hex_string("DeadBeef0123456789"));
    assert!(validate_hex_string("abc"));
    assert!(!validate_hex_string("zz"));
    assert!(!validate_hex_string("0x00"));
    assert!(!validate_hex_string("00 "));
    assert!(!validate_hex_string("０１"));
    assert!(!validate_hex_string("abcdefg"));
}

#[test]
fn key_format_is_the_compiled_pattern() {
    assert_eq!(KEY_PATTERN, "^[0-9a-f]{64}#[0-9]+$");
    let keys = KeyFormat::new().expect("the key pattern compiles");
    assert!(keys.accepts(&a_ref(0)));
    assert!(keys.accepts(&a_ref(4294967295)));
    assert!(!keys.accepts("^[0-9a-f]{64}#[0-9]+$"));
    assert!(!keys.accepts(&"0123456789abcdef".repeat(4)));
    assert!(!keys.accepts(&format!("{}\n", a_ref(0))));
    assert!(!keys.accepts(&format!("x{}", a_ref(0))));
    assert!(!keys.accepts(&a_ref(0).to_uppercase()));
    assert!(!keys.accepts(&format!("{}#٣", "0123456789abcdef".repeat(4))));
}

#[test]
fn policy_ids_and_asset_names() {
    assert!(valid_policy_id(&"0".repeat(56)));
    assert!(valid_policy_id(&"aB".repeat(28)));
    assert!(!valid_policy_id(&"0".repeat(55)));
    assert!(!valid_policy_id(&"0".repeat(57)));
    assert!(!valid_policy_id(&"z".repeat(56)));
    assert!(!valid_policy_id(&"é".repeat(28)));
    assert!(!valid_policy_id(&"é".repeat(56)));
    assert!(valid_asset_name(""));
    assert!(valid_asset_name(&"f".repeat(64)));
    assert!(!valid_asset_name(&"f".repeat(65)));
    assert!(!valid_asset_name("token"));
    assert!(!valid_asset_name(&"é".repeat(3)));
}

#[test]
fn policies_report_id_then_emptiness_then_names() {
    let id = "1".repeat(56);
    assert_eq!(validate_policy(&id, &vec![("00".to_string(), -5)]), Ok(()));
    assert_eq!(
        validate_policy(&"short".to_string(), &vec![]),
        Err(ValueError::InvalidPolicyId("short".to_string()))
    );
    assert_eq!(validate_policy(&id, &vec![]), Err(ValueError::EmptyAssetMap(id.clone())));
    assert_eq!(
        validate_policy(
            &id,
            &vec![("00".to_string(), 1), ("no".to_string(), 2), ("nn".to_string(), 3)]
        ),
        Err(ValueError::InvalidAssetName("no".to_string()))
    );
}

#[test]
fn values_report_the_first_policy_at_fault() {
    let id = "1".repeat(56);
    let good = (id.clone(), vec![("".to_string(), 0)]);
    let empty = ("2".repeat(56), vec![]);
    let bad_id = ("3".repeat(5), vec![]);
    assert_eq!(validate_value(&AssetBundle { lovelace: u64::MAX, assets: vec![] }), Ok(()));
    assert_eq!(
        validate_value(&AssetBundle { lovelace: 0, assets: vec![good.clone(), good.clone()] }),
        Ok(())
    );
    assert_eq!(
        validate_value(&AssetBundle {
            lovelace: 0,
            assets: vec![good.clone(), empty.clone(), bad_id.clone()]
        }),
        Err(ValueError::EmptyAssetMap("2".repeat(56)))
    );
    assert_eq!(
        validate_value(&AssetBundle { lovelace: 0, assets: vec![bad_id, empty, good] }),
        Err(ValueError::InvalidPolicyId("33333".to_string()))
    );
}

#[test]
fn negative_quantities_are_not_at_fault() {
    let value = AssetBundle {
        lovelace: 0,
        assets: vec![("a".repeat(56), vec![("00".to_string(), i64::MIN)])],
    };
    assert_eq!(validate_value(&value), Ok(()));
}

#[test]
fn scripts_report_payload_then_language() {
    assert_eq!(validate_script(&a_script("lang", "")), Ok(()));
    assert_eq!(validate_script(&a_script("lang", "00FFaa")), Ok(()));
    assert_eq!(validate_script(&a_script("lang", "0g")), Err(ScriptError::InvalidCborHex));
    assert_eq!(validate_script(&a_script("", "00")), Err(ScriptError::EmptyLanguage));
    assert_eq!(validate_script(&a_script("", "0g")), Err(ScriptError::InvalidCborHex));
}

#[test]
fn optional_fields_have_three_states() {
    assert!(!hex_field_at_fault(&None));
    assert!(!hex_field_at_fault(&Some(None)));
    assert!(!hex_field_at_fault(&Some(Some("00".to_string()))));
    assert!(hex_field_at_fault(&Some(Some("zz".to_string()))));
}

#[test]
fn value_errors_are_placed_in_their_output() {
    assert_eq!(
        locate_value_error("r".to_string(), ValueError::InvalidPolicyId("p".to_string())),
        ValidationError::InvalidPolicyId { utxo_ref: "r".to_string(), policy_id: "p".to_string() }
    );
    assert_eq!(
        locate_value_error("r".to_string(), ValueError::EmptyAssetMap("p".to_string())),
        ValidationError::EmptyAssetMap { utxo_ref: "r".to_string(), policy_id: "p".to_string() }
    );
    assert_eq!(
        locate_value_error("r".to_string(), ValueError::InvalidAssetName("n".to_string())),
        ValidationError::InvalidAssetName {
            utxo_ref: "r".to_string(),
            asset_name: "n".to_string()
        }
    );
}

#[test]
fn entries_are_checked_in_a_fixed_order() {
    let mut out = plain_output("");
    out.value.assets.push(("p".to_string(), vec![]));
    out.reference_script = Some(Some(a_script("", "zz")));
    out.datumhash = Some(Some("zz".to_string()));
    out.inline_datumhash = Some(Some("zz".to_string()));
    out.datum = Some(Some("zz".to_string()));
    let r = || "r".to_string();
    assert_eq!(
        validate_entry("r", false, &out),
        Err(ValidationError::InvalidReferenceFormat { utxo_ref: r() })
    );
    assert_eq!(
        validate_entry("r", true, &out),
        Err(ValidationError::EmptyAddress { utxo_ref: r() })
    );
    out.address = "addr".to_string();
    assert_eq!(
        validate_entry("r", true, &out),
        Err(ValidationError::InvalidPolicyId { utxo_ref: r(), policy_id: "p".to_string() })
    );
    out.value.assets.clear();
    assert_eq!(
        validate_entry("r", true, &out),
        Err(ValidationError::InvalidScript { utxo_ref: r(), fault: ScriptError::InvalidCborHex })
    );
    out.reference_script = Some(Some(a_script("", "00")));
    assert_eq!(
        validate_entry("r", true, &out),
        Err(ValidationError::InvalidScript { utxo_ref: r(), fault: ScriptError::EmptyLanguage })
    );
    out.reference_script = Some(None);
    assert_eq!(
        validate_entry("r", true, &out),
        Err(ValidationError::InvalidHexField { utxo_ref: r(), field: HexField::Datumhash })
    );
    out.datumhash = Some(None);
    assert_eq!(
        validate_entry("r", true, &out),
        Err(ValidationError::InvalidHexField { utxo_ref: r(), field: HexField::InlineDatumhash })
    );
    out.inline_datumhash = None;
    assert_eq!(
        validate_entry("r", true, &out),
        Err(ValidationError::InvalidHexField { utxo_ref: r(), field: HexField::Datum })
    );
    out.datum = Some(Some("".to_string()));
    out.inline_datum_raw = Some(Some("zz".to_string()));
    out.inline_datum = Some(Some(serde_json::Value::String("zz".to_string())));
    assert_eq!(validate_entry("r", true, &out), Ok(()));
}

#[test]
fn snapshots_stop_at_the_first_entry_at_fault() {
    let keys = KeyFormat::new().unwrap();
    let empty: UTxO = vec![];
    assert_eq!(validate_snapshot(&empty, &keys), Ok(()));
    let snapshot: UTxO = vec![
        (a_ref(1), plain_output("a")),
        (a_ref(0), plain_output("b")),
        (a_ref(1), plain_output("c")),
    ];
    assert_eq!(validate_snapshot(&snapshot, &keys), Ok(()));
    let snapshot: UTxO = vec![
        (a_ref(1), plain_output("a")),
        (a_ref(2), plain_output("")),
        ("nope".to_string(), plain_output("c")),
    ];
    assert_eq!(
        validate_snapshot(&snapshot, &keys),
        Err(ValidationError::EmptyAddress { utxo_ref: a_ref(2) })
    );
    let snapshot: UTxO = vec![
        (a_ref(1), plain_output("a")),
        ("nope".to_string(), plain_output("")),
        (a_ref(2), plain_output("")),
    ];
    assert_eq!(
        validate_snapshot(&snapshot, &keys),
        Err(ValidationError::InvalidReferenceFormat { utxo_ref: "nope".to_string() })
    );
}

#[test]
fn a_snapshot_that_was_read_validates_as_its_document_does() {
    let keys = KeyFormat::new().unwrap();
    let texts = [
        format!(r#"{{"{}": {{"address":"a","value":{{"lovelace":3}}}}}}"#, a_ref(0)),
        format!(r#"{{"{}": {{"address":"","value":{{"lovelace":3}}}}}}"#, a_ref(0)),
        r#"{"k": {"address":"a","value":{}}}"#.to_string(),
    ];
    for text in texts {
        let snapshot = read_snapshot(&text).unwrap();
        assert_eq!(validate_snapshot(&snapshot, &keys), validate_document(&text, &keys));
    }
}
