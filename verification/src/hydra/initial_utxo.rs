//! Validation of the initial UTxO set of an offline head.
//!
//! Validation stops at the first violation. Entries are taken in document
//! order; within an entry the reference comes first, then the address, the
//! value (policy by policy: the policy ID, the asset map, its asset names), the
//! reference script (its CBOR payload, then its language tag), and last the
//! fields `datumhash`, `inlineDatumhash` and `datum`.

use crate::hydra::error::{
    reports, DocumentError, DocumentErrorView, HexField, ScriptError, ValidationError,
    ValidationErrorView, ValueError, ValueErrorView,
};
use crate::hydra::hex::{is_hex_digit, is_hex_string, validate_hex_string};
use crate::hydra::json::{json_parse, parse};
use crate::hydra::schema::{decode_snapshot, snapshot_of};
use crate::hydra::snapshot::{
    keys_unique, AssetBundle, AssetBundleView, Script, ScriptView, TxOut, TxOutView, UTxO,
    UTxOView,
};
use crate::hydra::utxo_ref::{is_utxo_ref, regex_refusal, KeyFormat, KEY_PATTERN};
use vstd::prelude::*;
use vstd::string::StringSliceAdditionalSpecFns;

verus! {

/// A policy ID is 56 hexadecimal digits.
pub open spec fn policy_id_ok(policy_id: Seq<char>) -> bool {
    policy_id.len() == 56 && is_hex_string(policy_id)
}

/// An asset name is at most 64 hexadecimal digits.
pub open spec fn asset_name_ok(asset_name: Seq<char>) -> bool {
    asset_name.len() <= 64 && is_hex_string(asset_name)
}

/// The first asset name at or after `start` that is not well formed.
pub open spec fn asset_fault_from(assets: Seq<(Seq<char>, i64)>, start: int) -> Option<
    ValueErrorView,
>
    decreases assets.len() - start,
{
    if start < 0 || start >= assets.len() {
        None
    } else if !asset_name_ok(assets[start].0) {
        Some(ValueErrorView::InvalidAssetName(assets[start].0))
    } else {
        asset_fault_from(assets, start + 1)
    }
}

/// The first violation of one policy: its ID, then its asset map being empty,
/// then its asset names in order.
pub open spec fn policy_fault(policy_id: Seq<char>, assets: Seq<(Seq<char>, i64)>) -> Option<
    ValueErrorView,
> {
    if !policy_id_ok(policy_id) {
        Some(ValueErrorView::InvalidPolicyId(policy_id))
    } else if assets.len() == 0 {
        Some(ValueErrorView::EmptyAssetMap(policy_id))
    } else {
        asset_fault_from(assets, 0)
    }
}

/// The first violation among the policies at or after `start`.
pub open spec fn value_fault_from(
    policies: Seq<(Seq<char>, Seq<(Seq<char>, i64)>)>,
    start: int,
) -> Option<ValueErrorView>
    decreases policies.len() - start,
{
    if start < 0 || start >= policies.len() {
        None
    } else {
        match policy_fault(policies[start].0, policies[start].1) {
            Some(fault) => Some(fault),
            None => value_fault_from(policies, start + 1),
        }
    }
}

/// The first violation of a value. The amount of lovelace is never at fault.
pub open spec fn value_fault(value: AssetBundleView) -> Option<ValueErrorView> {
    value_fault_from(value.assets, 0)
}

/// The first violation of a script: its CBOR payload, then its language tag.
pub open spec fn script_fault(script: ScriptView) -> Option<ScriptError> {
    if !is_hex_string(script.script.cbor_hex) {
        Some(ScriptError::InvalidCborHex)
    } else if script.script_language.len() == 0 {
        Some(ScriptError::EmptyLanguage)
    } else {
        None
    }
}

/// An optional hexadecimal field is at fault only where it is present with a
/// value that is not hexadecimal.
pub open spec fn hex_field_fault(field: Option<Option<Seq<char>>>) -> bool {
    field matches Some(Some(text)) && !is_hex_string(text)
}

/// A violation of a value, as a violation of the output under `utxo_ref`.
pub open spec fn value_error_in(utxo_ref: Seq<char>, fault: ValueErrorView) -> ValidationErrorView {
    match fault {
        ValueErrorView::InvalidPolicyId(policy_id) => ValidationErrorView::InvalidPolicyId {
            utxo_ref,
            policy_id,
        },
        ValueErrorView::EmptyAssetMap(policy_id) => ValidationErrorView::EmptyAssetMap {
            utxo_ref,
            policy_id,
        },
        ValueErrorView::InvalidAssetName(asset_name) => ValidationErrorView::InvalidAssetName {
            utxo_ref,
            asset_name,
        },
    }
}

/// The first violation of the reference script, if one is present with a value.
pub open spec fn reference_script_fault(script: Option<Option<ScriptView>>) -> Option<ScriptError> {
    match script {
        Some(Some(script)) => script_fault(script),
        _ => None,
    }
}

/// The first violation of an output, the format of its reference apart.
pub open spec fn output_fault(utxo_ref: Seq<char>, tx_out: TxOutView) -> Option<
    ValidationErrorView,
> {
    if tx_out.address.len() == 0 {
        Some(ValidationErrorView::EmptyAddress { utxo_ref })
    } else if value_fault(tx_out.value) is Some {
        Some(value_error_in(utxo_ref, value_fault(tx_out.value)->Some_0))
    } else if reference_script_fault(tx_out.reference_script) is Some {
        Some(
            ValidationErrorView::InvalidScript {
                utxo_ref,
                fault: reference_script_fault(tx_out.reference_script)->Some_0,
            },
        )
    } else if hex_field_fault(tx_out.datumhash) {
        Some(ValidationErrorView::InvalidHexField { utxo_ref, field: HexField::Datumhash })
    } else if hex_field_fault(tx_out.inline_datumhash) {
        Some(ValidationErrorView::InvalidHexField { utxo_ref, field: HexField::InlineDatumhash })
    } else if hex_field_fault(tx_out.datum) {
        Some(ValidationErrorView::InvalidHexField { utxo_ref, field: HexField::Datum })
    } else {
        None
    }
}

/// The first violation of an entry, given whether its reference has the
/// format of a UTxO reference.
pub open spec fn entry_fault_given(utxo_ref: Seq<char>, ref_ok: bool, tx_out: TxOutView) -> Option<
    ValidationErrorView,
> {
    if !ref_ok {
        Some(ValidationErrorView::InvalidReferenceFormat { utxo_ref })
    } else {
        output_fault(utxo_ref, tx_out)
    }
}

/// The first violation of an entry.
pub open spec fn entry_fault(utxo_ref: Seq<char>, tx_out: TxOutView) -> Option<
    ValidationErrorView,
> {
    entry_fault_given(utxo_ref, is_utxo_ref(utxo_ref), tx_out)
}

/// The first violation among the entries at or after `start`.
pub open spec fn snapshot_fault_from(snapshot: UTxOView, start: int) -> Option<ValidationErrorView>
    decreases snapshot.len() - start,
{
    if start < 0 || start >= snapshot.len() {
        None
    } else {
        match entry_fault(snapshot[start].0, snapshot[start].1) {
            Some(fault) => Some(fault),
            None => snapshot_fault_from(snapshot, start + 1),
        }
    }
}

/// The first violation of a snapshot, `None` where it is valid.
pub open spec fn snapshot_fault(snapshot: UTxOView) -> Option<ValidationErrorView> {
    snapshot_fault_from(snapshot, 0)
}

/// The snapshot that a document in text holds, or why the text is malformed:
/// it is not JSON, or it has not the shape of a snapshot.
pub open spec fn document_snapshot(text: Seq<char>) -> Result<UTxOView, DocumentErrorView> {
    match json_parse(text) {
        Err(message) => Err(DocumentErrorView::Syntax(message)),
        Ok(document) => match snapshot_of(document) {
            Err(fault) => Err(DocumentErrorView::Schema(fault)),
            Ok(snapshot) => Ok(snapshot),
        },
    }
}

/// The first violation of a document in text, `None` where it holds a valid
/// snapshot.
pub open spec fn document_fault(text: Seq<char>) -> Option<ValidationErrorView> {
    match document_snapshot(text) {
        Err(cause) => Some(ValidationErrorView::MalformedDocument(cause)),
        Ok(snapshot) => snapshot_fault(snapshot),
    }
}

/// What validation of a document in text reports. A malformed document comes
/// first; then the key pattern, should the regex engine refuse it; then the
/// first violation of the snapshot.
pub open spec fn validation_fault(text: Seq<char>) -> Option<ValidationErrorView> {
    match document_snapshot(text) {
        Err(cause) => Some(ValidationErrorView::MalformedDocument(cause)),
        Ok(snapshot) => match regex_refusal(KEY_PATTERN@) {
            Some(message) => Some(ValidationErrorView::KeyPatternRejected(message)),
            None => snapshot_fault(snapshot),
        },
    }
}

/// Hexadecimal text takes one byte for each character.
pub proof fn lemma_hex_string_byte_len(s: &str)
    requires
        is_hex_string(s@),
    ensures
        s.spec_bytes().len() == s@.len(),
{
    assert(vstd::utf8::is_ascii_chars(s@)) by {
        assert forall|i: int| 0 <= i < s@.len() implies '\0' <= #[trigger] s@[i] <= '\u{7f}' by {
            assert(is_hex_digit(s@[i]));
        }
    }
    vstd::utf8::is_ascii_chars_encode_utf8(s@);
}

/// Tells whether `policy_id` is 56 hexadecimal digits.
pub fn valid_policy_id(policy_id: &str) -> (b: bool)
    ensures
        b == policy_id_ok(policy_id@),
{
    let hex = validate_hex_string(policy_id);
    proof {
        if hex {
            lemma_hex_string_byte_len(policy_id);
        }
    }
    hex && policy_id.as_bytes().len() == 56
}

/// Tells whether `asset_name` is at most 64 hexadecimal digits.
pub fn valid_asset_name(asset_name: &str) -> (b: bool)
    ensures
        b == asset_name_ok(asset_name@),
{
    let hex = validate_hex_string(asset_name);
    proof {
        if hex {
            lemma_hex_string_byte_len(asset_name);
        }
    }
    hex && asset_name.as_bytes().len() <= 64
}

/// Checks the assets of one policy: the ID, that there is an asset, and each
/// asset name.
pub fn validate_policy(policy_id: &String, assets: &Vec<(String, i64)>) -> (r: Result<
    (),
    ValueError,
>)
    ensures
        reports(r, policy_fault(policy_id@, assets.deep_view())),
{
    if !valid_policy_id(policy_id.as_str()) {
        return Err(ValueError::InvalidPolicyId(policy_id.clone()));
    }
    if assets.len() == 0 {
        return Err(ValueError::EmptyAssetMap(policy_id.clone()));
    }
    let mut i: usize = 0;
    while i < assets.len()
        invariant
            i <= assets.len(),
            policy_fault(policy_id@, assets.deep_view()) == asset_fault_from(
                assets.deep_view(),
                i as int,
            ),
        decreases assets.len() - i,
    {
        let asset_name = &assets[i].0;
        if !valid_asset_name(asset_name.as_str()) {
            return Err(ValueError::InvalidAssetName(asset_name.clone()));
        }
        i += 1;
    }
    Ok(())
}

/// Checks the value of an output, policy by policy, and reports the first
/// policy ID, empty asset map or asset name that is at fault.
pub fn validate_value(value: &AssetBundle) -> (r: Result<(), ValueError>)
    ensures
        reports(r, value_fault(value.deep_view())),
{
    let mut i: usize = 0;
    while i < value.assets.len()
        invariant
            i <= value.assets.len(),
            value_fault(value.deep_view()) == value_fault_from(
                value.deep_view().assets,
                i as int,
            ),
        decreases value.assets.len() - i,
    {
        match validate_policy(&value.assets[i].0, &value.assets[i].1) {
            Err(fault) => {
                return Err(fault);
            },
            Ok(_) => {},
        }
        i += 1;
    }
    Ok(())
}

/// Checks a script: its CBOR payload is hexadecimal and its language tag is
/// not empty.
pub fn validate_script(script: &Script) -> (r: Result<(), ScriptError>)
    ensures
        reports(r, script_fault(script.deep_view())),
{
    if !validate_hex_string(script.script.cbor_hex.as_str()) {
        return Err(ScriptError::InvalidCborHex);
    }
    if script.script_language.as_str().is_empty() {
        return Err(ScriptError::EmptyLanguage);
    }
    Ok(())
}

/// Tells whether an optional hexadecimal field is at fault.
pub fn hex_field_at_fault(field: &Option<Option<String>>) -> (b: bool)
    ensures
        b == hex_field_fault(field.deep_view()),
{
    match field {
        Some(Some(text)) => !validate_hex_string(text.as_str()),
        _ => false,
    }
}

/// Places a violation of a value in the output under `utxo_ref`.
pub fn locate_value_error(utxo_ref: String, fault: ValueError) -> (e: ValidationError)
    ensures
        e.deep_view() == value_error_in(utxo_ref@, fault.deep_view()),
{
    match fault {
        ValueError::InvalidPolicyId(policy_id) => ValidationError::InvalidPolicyId {
            utxo_ref,
            policy_id,
        },
        ValueError::EmptyAssetMap(policy_id) => ValidationError::EmptyAssetMap {
            utxo_ref,
            policy_id,
        },
        ValueError::InvalidAssetName(asset_name) => ValidationError::InvalidAssetName {
            utxo_ref,
            asset_name,
        },
    }
}

/// Checks one entry, given whether its reference has the format of a UTxO
/// reference, and reports its first violation.
pub fn validate_entry(utxo_ref: &str, ref_ok: bool, tx_out: &TxOut) -> (r: Result<
    (),
    ValidationError,
>)
    ensures
        reports(r, entry_fault_given(utxo_ref@, ref_ok, tx_out.deep_view())),
{
    if !ref_ok {
        return Err(ValidationError::InvalidReferenceFormat { utxo_ref: utxo_ref.to_owned() });
    }
    if tx_out.address.as_str().is_empty() {
        return Err(ValidationError::EmptyAddress { utxo_ref: utxo_ref.to_owned() });
    }
    match validate_value(&tx_out.value) {
        Err(fault) => {
            return Err(locate_value_error(utxo_ref.to_owned(), fault));
        },
        Ok(_) => {},
    }
    match &tx_out.reference_script {
        Some(Some(script)) => {
            match validate_script(script) {
                Err(fault) => {
                    return Err(
                        ValidationError::InvalidScript { utxo_ref: utxo_ref.to_owned(), fault },
                    );
                },
                Ok(_) => {},
            }
        },
        _ => {},
    }
    if hex_field_at_fault(&tx_out.datumhash) {
        return Err(
            ValidationError::InvalidHexField {
                utxo_ref: utxo_ref.to_owned(),
                field: HexField::Datumhash,
            },
        );
    }
    if hex_field_at_fault(&tx_out.inline_datumhash) {
        return Err(
            ValidationError::InvalidHexField {
                utxo_ref: utxo_ref.to_owned(),
                field: HexField::InlineDatumhash,
            },
        );
    }
    if hex_field_at_fault(&tx_out.datum) {
        return Err(
            ValidationError::InvalidHexField {
                utxo_ref: utxo_ref.to_owned(),
                field: HexField::Datum,
            },
        );
    }
    Ok(())
}

/// Checks every entry of a snapshot in order and reports the first violation.
pub fn validate_snapshot(snapshot: &UTxO, keys: &KeyFormat) -> (r: Result<(), ValidationError>)
    ensures
        reports(r, snapshot_fault(snapshot.deep_view())),
{
    let mut i: usize = 0;
    while i < snapshot.len()
        invariant
            i <= snapshot.len(),
            snapshot_fault(snapshot.deep_view()) == snapshot_fault_from(
                snapshot.deep_view(),
                i as int,
            ),
        decreases snapshot.len() - i,
    {
        let utxo_ref = snapshot[i].0.as_str();
        let ref_ok = keys.accepts(utxo_ref);
        match validate_entry(utxo_ref, ref_ok, &snapshot[i].1) {
            Err(fault) => {
                return Err(fault);
            },
            Ok(_) => {},
        }
        i += 1;
    }
    Ok(())
}

/// Reads the snapshot out of a document in text. A snapshot that was read
/// is a mapping.
pub fn read_snapshot(json: &str) -> (r: Result<UTxO, DocumentError>)
    ensures
        match r {
            Ok(snapshot) => document_snapshot(json@) == Ok::<UTxOView, DocumentErrorView>(
                snapshot.deep_view(),
            ),
            Err(cause) => document_snapshot(json@) == Err::<UTxOView, DocumentErrorView>(
                cause.deep_view(),
            ),
        },
        r matches Ok(snapshot) ==> keys_unique(snapshot.deep_view()),
{
    match parse(json) {
        Err(message) => Err(DocumentError::Syntax(message)),
        Ok(document) => match decode_snapshot(&document) {
            Err(fault) => Err(DocumentError::Schema(fault)),
            Ok(snapshot) => Ok(snapshot),
        },
    }
}

/// Validates a document in text against a compiled key pattern: reads the
/// snapshot, then checks its entries in order, and reports the first violation.
pub fn validate_document(json: &str, keys: &KeyFormat) -> (r: Result<(), ValidationError>)
    ensures
        reports(r, document_fault(json@)),
{
    match read_snapshot(json) {
        Err(cause) => Err(ValidationError::MalformedDocument(cause)),
        Ok(snapshot) => validate_snapshot(&snapshot, keys),
    }
}

/// Validates a document in text.
///
/// The document is read first: text that is not JSON, or not a snapshot, is
/// reported as malformed whatever else holds. The pattern of UTxO references
/// is compiled next; should the regex engine refuse it, that is reported and
/// no entry is checked. Then the entries are checked in order.
pub fn validate_json(json: String) -> (r: Result<(), ValidationError>)
    ensures
        reports(r, validation_fault(json@)),
{
    let snapshot = match read_snapshot(json.as_str()) {
        Err(cause) => {
            return Err(ValidationError::MalformedDocument(cause));
        },
        Ok(snapshot) => snapshot,
    };
    match KeyFormat::new() {
        Err(message) => Err(ValidationError::KeyPatternRejected(message)),
        Ok(keys) => validate_snapshot(&snapshot, &keys),
    }
}

} // verus!
