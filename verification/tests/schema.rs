//! Reading snapshots out of parsed documents.

use juno::hydra::error::{DocumentError, Expected, SchemaError};
use juno::hydra::initial_utxo::read_snapshot;
use juno::hydra::schema::{decode_snapshot, decode_tx_out, parse_script_type};
use juno::hydra::snapshot::{AssetBundle, Script, ScriptDetails, ScriptType, TxOut};

fn parsed(text: &str) -> serde_json::Value {
    serde_json::from_str(text).unwrap()
}

#[test]
fn script_type_tags() {
    assert_eq!(parse_script_type("SimpleScript"), Some(ScriptType::SimpleScript));
    assert_eq!(parse_script_type("PlutusScriptV1"), Some(ScriptType::PlutusScriptV1));
    assert_eq!(parse_script_type("PlutusScriptV2"), Some(ScriptType::PlutusScriptV2));
    assert_eq!(parse_script_type("PlutusScriptV3"), Some(ScriptType::PlutusScriptV3));
    assert_eq!(parse_script_type("PlutusScriptV4"), None);
    assert_eq!(parse_script_type("simpleScript"), None);
    assert_eq!(parse_script_type("plutusScriptV1"), None);
    assert_eq!(parse_script_type(""), None);
}

#[test]
fn an_entry_is_read_member_by_member() {
    let entry = parsed(
        r#"{
            "datum": "d0",
            "inlineDatumRaw": "raw",
            "inlineDatumhash": null,
            "inlineDatum": {"int": 42, "list": [1, {"k": null}]},
            "datumhash": "aa",
            "referenceScript": {
                "script": {"type": "PlutusScriptV1", "description": "about", "cborHex": "4e"},
                "scriptLanguage": "PlutusScriptLanguage PlutusScriptV1"
            },
            "value": {"ffff": {"01": 7, "00": -7}, "lovelace": 12, "eeee": {}},
            "address": "addr_test1"
        }"#,
    );
    let expected = TxOut {
        address: "addr_test1".to_string(),
        value: AssetBundle {
            lovelace: 12,
            assets: vec![
                ("ffff".to_string(), vec![("01".to_string(), 7), ("00".to_string(), -7)]),
                ("eeee".to_string(), vec![]),
            ],
        },
        reference_script: Some(Some(Script {
            script_language: "PlutusScriptLanguage PlutusScriptV1".to_string(),
            script: ScriptDetails {
                cbor_hex: "4e".to_string(),
                description: "about".to_string(),
                script_type: ScriptType::PlutusScriptV1,
            },
        })),
        datumhash: Some(Some("aa".to_string())),
        inline_datum: Some(Some(parsed(r#"{"int": 42, "list": [1, {"k": null}]}"#))),
        inline_datumhash: Some(None),
        inline_datum_raw: Some(Some("raw".to_string())),
        datum: Some(Some("d0".to_string())),
    };
    assert_eq!(decode_tx_out("any key", &entry), Ok(expected));
}

#[test]
fn absent_and_null_members_are_told_apart() {
    let absent = decode_tx_out("k", &parsed(r#"{"address":"a","value":{}}"#)).unwrap();
    assert_eq!(absent.value, AssetBundle { lovelace: 0, assets: vec![] });
    assert_eq!(absent.reference_script, None);
    assert_eq!(absent.datumhash, None);
    assert_eq!(absent.inline_datum, None);
    assert_eq!(absent.inline_datumhash, None);
    assert_eq!(absent.inline_datum_raw, None);
    assert_eq!(absent.datum, None);
    let null = decode_tx_out(
        "k",
        &parsed(
            r#"{"address":"a","value":{},"referenceScript":null,"datumhash":null,
                "inlineDatum":null,"inlineDatumhash":null,"inlineDatumRaw":null,"datum":null}"#,
        ),
    )
    .unwrap();
    assert_eq!(null.reference_script, Some(None));
    assert_eq!(null.datumhash, Some(None));
    assert_eq!(null.inline_datum, Some(None));
    assert_eq!(null.inline_datumhash, Some(None));
    assert_eq!(null.inline_datum_raw, Some(None));
    assert_eq!(null.datum, Some(None));
}

#[test]
fn numbers_are_read_at_their_full_range() {
    let out = decode_tx_out(
        "k",
        &parsed(
            r#"{"address":"a","value":{"lovelace":18446744073709551615,
                "p":{"min":-9223372036854775808,"max":9223372036854775807,"zero":0}}}"#,
        ),
    )
    .unwrap();
    assert_eq!(out.value.lovelace, u64::MAX);
    assert_eq!(
        out.value.assets,
        vec![(
            "p".to_string(),
            vec![
                ("min".to_string(), i64::MIN),
                ("max".to_string(), i64::MAX),
                ("zero".to_string(), 0)
            ]
        )]
    );
    for quantity in ["1.0", "1e3", "9223372036854775808", "-9223372036854775809", "true"] {
        let text = format!(r#"{{"address":"a","value":{{"p":{{"n":{}}}}}}}"#, quantity);
        assert_eq!(
            decode_tx_out("k", &parsed(&text)),
            Err(SchemaError::Mistyped {
                utxo_ref: "k".to_string(),
                field: "n".to_string(),
                expected: Expected::Signed
            })
        );
    }
}

#[test]
fn the_first_member_that_does_not_fit_is_reported() {
    let entry = parsed(r#"{"datum":1,"datumhash":2,"value":3,"address":4}"#);
    assert_eq!(
        decode_tx_out("k", &entry),
        Err(SchemaError::Mistyped {
            utxo_ref: "k".to_string(),
            field: "address".to_string(),
            expected: Expected::Text
        })
    );
    let entry = parsed(r#"{"datum":1,"datumhash":2,"value":{},"address":"a"}"#);
    assert_eq!(
        decode_tx_out("k", &entry),
        Err(SchemaError::Mistyped {
            utxo_ref: "k".to_string(),
            field: "datumhash".to_string(),
            expected: Expected::Text
        })
    );
    let entry = parsed(r#"{"value":{"p":{"a":1,"b":"x"},"q":1,"lovelace":"x"},"address":"a"}"#);
    assert_eq!(
        decode_tx_out("k", &entry),
        Err(SchemaError::Mistyped {
            utxo_ref: "k".to_string(),
            field: "lovelace".to_string(),
            expected: Expected::Unsigned
        })
    );
    let entry = parsed(r#"{"value":{"p":{"a":1,"b":"x"},"q":1},"address":"a"}"#);
    assert_eq!(
        decode_tx_out("k", &entry),
        Err(SchemaError::Mistyped {
            utxo_ref: "k".to_string(),
            field: "b".to_string(),
            expected: Expected::Signed
        })
    );
}

#[test]
fn a_snapshot_keeps_document_order() {
    let document = parsed(
        r#"{"b": {"address":"2","value":{}}, "a": {"address":"1","value":{}},
            "c": {"address":"3","value":{"z":{"y":1,"x":2},"lovelace":1,"w":{}}}}"#,
    );
    let snapshot = decode_snapshot(&document).unwrap();
    let keys: Vec<&str> = snapshot.iter().map(|entry| entry.0.as_str()).collect();
    assert_eq!(keys, vec!["b", "a", "c"]);
    let addresses: Vec<&str> = snapshot.iter().map(|entry| entry.1.address.as_str()).collect();
    assert_eq!(addresses, vec!["2", "1", "3"]);
    assert_eq!(
        snapshot[2].1.value.assets,
        vec![
            ("z".to_string(), vec![("y".to_string(), 1), ("x".to_string(), 2)]),
            ("w".to_string(), vec![])
        ]
    );
}

#[test]
fn a_repeated_key_keeps_its_last_value() {
    let snapshot =
        read_snapshot(r#"{"k": {"address":"1","value":{}}, "k": {"address":"2","value":{}}}"#)
            .unwrap();
    assert_eq!(snapshot.len(), 1);
    assert_eq!(snapshot[0].1.address, "2");
}

#[test]
fn the_first_entry_that_is_no_output_is_reported() {
    let document = parsed(r#"{"a": {"address":"1","value":{}}, "b": 1, "c": 2}"#);
    assert_eq!(decode_snapshot(&document), Err(SchemaError::Entry { utxo_ref: "b".to_string() }));
    assert_eq!(decode_snapshot(&parsed("[{}]")), Err(SchemaError::Document));
    assert_eq!(decode_snapshot(&parsed("{}")), Ok(vec![]));
}

#[test]
fn reading_tells_syntax_from_shape() {
    assert_eq!(
        read_snapshot("[]"),
        Err(DocumentError::Schema(SchemaError::Document))
    );
    match read_snapshot("[") {
        Err(DocumentError::Syntax(message)) => {
            assert_eq!(message, "EOF while parsing a list at line 1 column 1")
        }
        other => panic!("{:?}", other),
    }
    assert_eq!(read_snapshot(" { } "), Ok(vec![]));
}
