//! A snapshot put into JSON again holds the same snapshot and validates as
//! before.

use juno::hydra::initial_utxo::{read_snapshot, validate_json};
use juno::hydra::snapshot::{ScriptType, TxOut, UTxO};
use serde_json::Value;

fn optional(members: &mut serde_json::Map<String, Value>, key: &str, field: Option<Option<Value>>) {
    match field {
        None => {}
        Some(None) => {
            members.insert(key.to_string(), Value::Null);
        }
        Some(Some(value)) => {
            members.insert(key.to_string(), value);
        }
    }
}

fn text(field: &Option<Option<String>>) -> Option<Option<Value>> {
    field.clone().map(|state| state.map(Value::String))
}

fn tag(script_type: ScriptType) -> &'static str {
    match script_type {
        ScriptType::SimpleScript => "SimpleScript",
        ScriptType::PlutusScriptV1 => "PlutusScriptV1",
        ScriptType::PlutusScriptV2 => "PlutusScriptV2",
        ScriptType::PlutusScriptV3 => "PlutusScriptV3",
    }
}

fn output_document(tx_out: &TxOut) -> Value {
    let mut members = serde_json::Map::new();
    members.insert("address".to_string(), Value::String(tx_out.address.clone()));
    let mut value = serde_json::Map::new();
    value.insert("lovelace".to_string(), Value::from(tx_out.value.lovelace));
    for (policy_id, assets) in &tx_out.value.assets {
        let mut policy = serde_json::Map::new();
        for (asset_name, quantity) in assets {
            policy.insert(asset_name.clone(), Value::from(*quantity));
        }
        value.insert(policy_id.clone(), Value::Object(policy));
    }
    members.insert("value".to_string(), Value::Object(value));
    let script = tx_out.reference_script.clone().map(|state| {
        state.map(|script| {
            let mut details = serde_json::Map::new();
            details.insert("cborHex".to_string(), Value::String(script.script.cbor_hex));
            details.insert("description".to_string(), Value::String(script.script.description));
            details.insert(
                "type".to_string(),
                Value::String(tag(script.script.script_type).to_string()),
            );
            let mut outer = serde_json::Map::new();
            outer.insert("scriptLanguage".to_string(), Value::String(script.script_language));
            outer.insert("script".to_string(), Value::Object(details));
            Value::Object(outer)
        })
    });
    optional(&mut members, "referenceScript", script);
    optional(&mut members, "datumhash", text(&tx_out.datumhash));
    optional(&mut members, "inlineDatum", tx_out.inline_datum.clone());
    optional(&mut members, "inlineDatumhash", text(&tx_out.inline_datumhash));
    optional(&mut members, "inlineDatumRaw", text(&tx_out.inline_datum_raw));
    optional(&mut members, "datum", text(&tx_out.datum));
    Value::Object(members)
}

fn snapshot_text(snapshot: &UTxO) -> String {
    let mut entries = serde_json::Map::new();
    for (utxo_ref, tx_out) in snapshot {
        entries.insert(utxo_ref.clone(), output_document(tx_out));
    }
    serde_json::to_string(&Value::Object(entries)).unwrap()
}

fn sample_documents() -> Vec<String> {
    let hash = "0f".repeat(32);
    let policy = "ab".repeat(28);
    vec![
        "{}".to_string(),
        format!(r#"{{"{hash}#0": {{"address":"addr1","value":{{"lovelace":1000000}}}}}}"#),
        format!(
            r#"{{
              "{hash}#2": {{"value":{{"{policy}":{{"":-1,"00ff":5}},"lovelace":7}},"address":"a",
                           "datum":"AA","datumhash":null,"inlineDatum":{{"k":[1,"two",null]}},
                           "inlineDatumRaw":"raw text","inlineDatumhash":"",
                           "referenceScript":{{"script":{{"type":"PlutusScriptV3","cborHex":"4e",
                                                        "description":"d"}},
                                              "scriptLanguage":"lang"}}}},
              "{hash}#1": {{"address":"b","value":{{}},"referenceScript":null,"inlineDatum":null}}
            }}"#
        ),
    ]
}

#[test]
fn a_valid_document_stays_valid_when_put_into_json_again() {
    for first in sample_documents() {
        assert_eq!(validate_json(first.clone()), Ok(()), "{}", first);
        let snapshot = read_snapshot(&first).unwrap();
        let second = snapshot_text(&snapshot);
        assert_eq!(read_snapshot(&second), Ok(snapshot), "{}", second);
        assert_eq!(validate_json(second.clone()), Ok(()), "{}", second);
    }
}

#[test]
fn a_violation_stays_the_same_when_put_into_json_again() {
    let hash = "0f".repeat(32);
    let firsts = [
        format!(r#"{{"{hash}#0": {{"address":"","value":{{"lovelace":1}}}}}}"#),
        format!(r#"{{"{hash}": {{"address":"a","value":{{}}}}}}"#),
        format!(r#"{{"{hash}#0": {{"value":{{"p":{{}}}},"address":"a"}}}}"#),
        format!(r#"{{"{hash}#0": {{"value":{{}},"address":"a","datum":"zz"}}}}"#),
    ];
    for first in firsts {
        let outcome = validate_json(first.clone());
        assert!(outcome.is_err());
        let second = snapshot_text(&read_snapshot(&first).unwrap());
        assert_eq!(validate_json(second), outcome);
    }
}

#[test]
fn key_order_and_casing_are_kept() {
    let text = format!(
        r#"{{"{0}#9":{{"address":"a","value":{{"lovelace":0}}}},"{0}#1":{{"address":"b","value":{{"lovelace":0}}}}}}"#,
        "0f".repeat(32)
    );
    let snapshot = read_snapshot(&text).unwrap();
    assert_eq!(snapshot_text(&snapshot), text);
}
