//! What holds of validation for every snapshot and every document.

use crate::hydra::document::{
    lemma_read_payloads_are_values, lemma_snapshot_read_back, snapshot_document, tx_out_readable,
};
use crate::hydra::error::{occurs_in, DocumentErrorView, HexField, ValidationErrorView};
use crate::hydra::hex::is_hex_string;
use crate::hydra::initial_utxo::{
    asset_fault_from, asset_name_ok, document_fault, document_snapshot, entry_fault,
    hex_field_fault, policy_fault, policy_id_ok, snapshot_fault, snapshot_fault_from,
    validation_fault, value_fault, value_fault_from,
};
use crate::hydra::json::{json_parse, JsonTree};
use crate::hydra::snapshot::{AssetBundleView, ScriptView, TxOutView, UTxOView};
use crate::hydra::utxo_ref::{is_utxo_ref, regex_refusal, KEY_PATTERN};
use vstd::prelude::*;

verus! {

/// A policy is valid: its ID is 56 hexadecimal digits, it holds an asset, and
/// each asset name is at most 64 hexadecimal digits.
pub open spec fn policy_valid(policy: (Seq<char>, Seq<(Seq<char>, i64)>)) -> bool {
    &&& policy_id_ok(policy.0)
    &&& policy.1.len() > 0
    &&& forall|k: int| 0 <= k < policy.1.len() ==> asset_name_ok((#[trigger] policy.1[k]).0)
}

/// A value is valid where each of its policies is.
pub open spec fn value_valid(value: AssetBundleView) -> bool {
    forall|j: int| 0 <= j < value.assets.len() ==> policy_valid(#[trigger] value.assets[j])
}

/// A script is valid: its CBOR payload is hexadecimal and its language tag
/// is not empty.
pub open spec fn script_valid(script: ScriptView) -> bool {
    is_hex_string(script.script.cbor_hex) && script.script_language.len() > 0
}

/// An entry is valid: its reference has the format of one, its address is not
/// empty, its value is valid, and what is present with a value of its script
/// and of its hexadecimal fields is valid.
pub open spec fn entry_valid(utxo_ref: Seq<char>, tx_out: TxOutView) -> bool {
    &&& is_utxo_ref(utxo_ref)
    &&& tx_out.address.len() > 0
    &&& value_valid(tx_out.value)
    &&& (tx_out.reference_script matches Some(Some(script)) ==> script_valid(script))
    &&& !hex_field_fault(tx_out.datumhash)
    &&& !hex_field_fault(tx_out.inline_datumhash)
    &&& !hex_field_fault(tx_out.datum)
}

/// A snapshot is valid where each of its entries is.
pub open spec fn snapshot_valid(snapshot: UTxOView) -> bool {
    forall|i: int|
        0 <= i < snapshot.len() ==> entry_valid((#[trigger] snapshot[i]).0, snapshot[i].1)
}

/// One of the optional hexadecimal fields of an output.
pub open spec fn hex_field_of(tx_out: TxOutView, field: HexField) -> Option<Option<Seq<char>>> {
    match field {
        HexField::Datumhash => tx_out.datumhash,
        HexField::InlineDatumhash => tx_out.inline_datumhash,
        HexField::Datum => tx_out.datum,
    }
}

/// No asset name at or after `start` is at fault exactly where each of them is
/// well formed.
pub proof fn lemma_asset_names(assets: Seq<(Seq<char>, i64)>, start: int)
    requires
        0 <= start <= assets.len(),
    ensures
        asset_fault_from(assets, start) is None <==> forall|k: int|
            start <= k < assets.len() ==> asset_name_ok((#[trigger] assets[k]).0),
    decreases assets.len() - start,
{
    if start < assets.len() {
        lemma_asset_names(assets, start + 1);
    }
}

/// A policy has no fault exactly where it is valid.
pub proof fn lemma_policy(policy: (Seq<char>, Seq<(Seq<char>, i64)>))
    ensures
        policy_fault(policy.0, policy.1) is None <==> policy_valid(policy),
{
    lemma_asset_names(policy.1, 0);
}

/// No policy at or after `start` is at fault exactly where each of them is
/// valid.
pub proof fn lemma_policies(policies: Seq<(Seq<char>, Seq<(Seq<char>, i64)>)>, start: int)
    requires
        0 <= start <= policies.len(),
    ensures
        value_fault_from(policies, start) is None <==> forall|j: int|
            start <= j < policies.len() ==> policy_valid(#[trigger] policies[j]),
    decreases policies.len() - start,
{
    if start < policies.len() {
        lemma_policy(policies[start]);
        lemma_policies(policies, start + 1);
    }
}

/// An entry has no fault exactly where it is valid.
pub proof fn lemma_entry(utxo_ref: Seq<char>, tx_out: TxOutView)
    ensures
        entry_fault(utxo_ref, tx_out) is None <==> entry_valid(utxo_ref, tx_out),
{
    lemma_policies(tx_out.value.assets, 0);
}

/// No entry at or after `start` is at fault exactly where each of them is
/// valid.
pub proof fn lemma_entries(snapshot: UTxOView, start: int)
    requires
        0 <= start <= snapshot.len(),
    ensures
        snapshot_fault_from(snapshot, start) is None <==> forall|i: int|
            start <= i < snapshot.len() ==> entry_valid((#[trigger] snapshot[i]).0, snapshot[i].1),
    decreases snapshot.len() - start,
{
    if start < snapshot.len() {
        lemma_entry(snapshot[start].0, snapshot[start].1);
        lemma_entries(snapshot, start + 1);
    }
}

/// Validation of a snapshot succeeds exactly where the snapshot is valid.
pub proof fn lemma_valid_snapshot_passes(snapshot: UTxOView)
    ensures
        snapshot_fault(snapshot) is None <==> snapshot_valid(snapshot),
{
    lemma_entries(snapshot, 0);
}

/// Validation of a document succeeds exactly where the text is JSON, holds a
/// snapshot, the regex engine compiles the key pattern, and the snapshot is
/// valid. Against a compiled key pattern, the same holds without the third.
pub proof fn lemma_valid_document_passes(text: Seq<char>)
    ensures
        validation_fault(text) is None <==> (document_snapshot(text) matches Ok(snapshot)
            && regex_refusal(KEY_PATTERN@) is None && snapshot_valid(snapshot)),
        document_fault(text) is None <==> (document_snapshot(text) matches Ok(snapshot)
            && snapshot_valid(snapshot)),
{
    if document_snapshot(text) is Ok {
        lemma_valid_snapshot_passes(document_snapshot(text)->Ok_0);
    }
}

/// Text that is not JSON is reported as a malformed document, with the
/// parser's message, whatever else holds.
pub proof fn lemma_invalid_json_is_malformed(text: Seq<char>)
    requires
        json_parse(text) is Err,
    ensures
        validation_fault(text) == Some(
            ValidationErrorView::MalformedDocument(
                DocumentErrorView::Syntax(json_parse(text)->Err_0),
            ),
        ),
        document_fault(text) == validation_fault(text),
{
}

/// Where the regex engine compiles the key pattern, validation of a document
/// reports the first violation of the document, and nothing else.
pub proof fn lemma_compiled_pattern_is_never_reported(text: Seq<char>)
    requires
        regex_refusal(KEY_PATTERN@) is None,
    ensures
        validation_fault(text) == document_fault(text),
{
}

/// Two documents that hold the same snapshot, or are malformed for the same
/// cause, have the same first violation or none: nothing else in the text
/// counts. So the JSON text of a snapshot validates as any other text that
/// holds that snapshot.
pub proof fn lemma_outcome_depends_on_snapshot(first: Seq<char>, second: Seq<char>)
    requires
        document_snapshot(first) == document_snapshot(second),
    ensures
        validation_fault(first) == validation_fault(second),
        document_fault(first) == document_fault(second),
{
}

/// A document that validates still validates when its snapshot is put into
/// JSON again: any text that parses to the document of that snapshot holds
/// the same snapshot, and has no violation either.
pub proof fn lemma_valid_document_stays_valid(first: Seq<char>, second: Seq<char>)
    requires
        document_fault(first) is None,
        json_parse(second) == Ok::<JsonTree, Seq<char>>(
            snapshot_document(document_snapshot(first)->Ok_0),
        ),
    ensures
        document_snapshot(second) == document_snapshot(first),
        document_fault(second) is None,
        validation_fault(second) == validation_fault(first),
{
    let snapshot = document_snapshot(first)->Ok_0;
    lemma_valid_snapshot_passes(snapshot);
    lemma_read_payloads_are_values(json_parse(first)->Ok_0);
    reveal_strlit("lovelace");
    assert forall|i: int| 0 <= i < snapshot.len() implies tx_out_readable(
        (#[trigger] snapshot[i]).1,
    ) by {
        let tx_out = snapshot[i].1;
        assert(entry_valid(snapshot[i].0, tx_out));
        assert forall|j: int| 0 <= j < tx_out.value.assets.len() implies (
        #[trigger] tx_out.value.assets[j]).0 != "lovelace"@ by {
            assert(policy_valid(tx_out.value.assets[j]));
        }
    }
    lemma_snapshot_read_back(snapshot);
}

/// Where every entry before `at` is valid, the first violation of the
/// snapshot is the first one at or after `at`.
pub proof fn lemma_valid_entries_are_passed_over(snapshot: UTxOView, at: int)
    requires
        0 <= at <= snapshot.len(),
        forall|i: int| 0 <= i < at ==> entry_valid((#[trigger] snapshot[i]).0, snapshot[i].1),
    ensures
        snapshot_fault(snapshot) == snapshot_fault_from(snapshot, at),
    decreases at,
{
    if at > 0 {
        lemma_valid_entries_are_passed_over(snapshot, at - 1);
        lemma_entry(snapshot[at - 1].0, snapshot[at - 1].1);
    }
}

/// Where every policy before `at` is valid, the first violation of the value
/// is the first one at or after `at`.
pub proof fn lemma_valid_policies_are_passed_over(value: AssetBundleView, at: int)
    requires
        0 <= at <= value.assets.len(),
        forall|j: int| 0 <= j < at ==> policy_valid(#[trigger] value.assets[j]),
    ensures
        value_fault(value) == value_fault_from(value.assets, at),
    decreases at,
{
    if at > 0 {
        lemma_valid_policies_are_passed_over(value, at - 1);
        lemma_policy(value.assets[at - 1]);
    }
}

/// `needle` occurs in any text that holds it between two others.
pub proof fn lemma_occurs_between(before: Seq<char>, needle: Seq<char>, after: Seq<char>)
    ensures
        occurs_in(needle, before + needle + after),
{
    let text = before + needle + after;
    assert(text.subrange(before.len() as int, (before.len() + needle.len()) as int) =~= needle);
}

/// `needle` occurs in any text that ends with it.
pub proof fn lemma_occurs_at_end(before: Seq<char>, needle: Seq<char>)
    ensures
        occurs_in(needle, before + needle),
{
    let text = before + needle;
    assert(text.subrange(before.len() as int, (before.len() + needle.len()) as int) =~= needle);
}

/// A key that has not the format of a UTxO reference is reported as such,
/// and the message holds the key, where every entry before it is valid.
pub proof fn lemma_malformed_reference_is_reported(snapshot: UTxOView, at: int)
    requires
        0 <= at < snapshot.len(),
        forall|i: int| 0 <= i < at ==> entry_valid((#[trigger] snapshot[i]).0, snapshot[i].1),
        !is_utxo_ref(snapshot[at].0),
    ensures
        snapshot_fault(snapshot) == Some(
            ValidationErrorView::InvalidReferenceFormat { utxo_ref: snapshot[at].0 },
        ),
        occurs_in(snapshot[at].0, snapshot_fault(snapshot)->Some_0.text()),
{
    lemma_valid_entries_are_passed_over(snapshot, at);
    lemma_occurs_at_end("Invalid UTxO ref: "@, snapshot[at].0);
}

/// A policy ID that is not 56 hexadecimal digits is reported as such, where
/// every entry before its own is valid, its own entry has a well-formed
/// reference and an address, and every policy before it is valid.
pub proof fn lemma_invalid_policy_id_is_reported(snapshot: UTxOView, at: int, policy: int)
    requires
        0 <= at < snapshot.len(),
        forall|i: int| 0 <= i < at ==> entry_valid((#[trigger] snapshot[i]).0, snapshot[i].1),
        is_utxo_ref(snapshot[at].0),
        snapshot[at].1.address.len() > 0,
        0 <= policy < snapshot[at].1.value.assets.len(),
        forall|j: int| 0 <= j < policy ==> policy_valid(#[trigger] snapshot[at].1.value.assets[j]),
        !policy_id_ok(snapshot[at].1.value.assets[policy].0),
    ensures
        snapshot_fault(snapshot) == Some(
            ValidationErrorView::InvalidPolicyId {
                utxo_ref: snapshot[at].0,
                policy_id: snapshot[at].1.value.assets[policy].0,
            },
        ),
{
    lemma_valid_entries_are_passed_over(snapshot, at);
    lemma_valid_policies_are_passed_over(snapshot[at].1.value, policy);
}

/// A policy with a well-formed ID and no asset is reported as an empty asset
/// map, where every entry before its own is valid, its own entry has a
/// well-formed reference and an address, and every policy before it is valid.
/// Nothing is asked of what comes after it.
pub proof fn lemma_empty_asset_map_is_reported(snapshot: UTxOView, at: int, policy: int)
    requires
        0 <= at < snapshot.len(),
        forall|i: int| 0 <= i < at ==> entry_valid((#[trigger] snapshot[i]).0, snapshot[i].1),
        is_utxo_ref(snapshot[at].0),
        snapshot[at].1.address.len() > 0,
        0 <= policy < snapshot[at].1.value.assets.len(),
        forall|j: int| 0 <= j < policy ==> policy_valid(#[trigger] snapshot[at].1.value.assets[j]),
        policy_id_ok(snapshot[at].1.value.assets[policy].0),
        snapshot[at].1.value.assets[policy].1.len() == 0,
    ensures
        snapshot_fault(snapshot) == Some(
            ValidationErrorView::EmptyAssetMap {
                utxo_ref: snapshot[at].0,
                policy_id: snapshot[at].1.value.assets[policy].0,
            },
        ),
{
    lemma_valid_entries_are_passed_over(snapshot, at);
    lemma_valid_policies_are_passed_over(snapshot[at].1.value, policy);
}

/// Hexadecimal text of 64 characters is an asset name; of 65 it is none.
pub proof fn lemma_asset_name_boundary(asset_name: Seq<char>)
    requires
        is_hex_string(asset_name),
    ensures
        asset_name.len() == 64 ==> asset_name_ok(asset_name),
        asset_name.len() == 65 ==> !asset_name_ok(asset_name),
        asset_name_ok(asset_name) <==> asset_name.len() <= 64,
{
}

/// A hexadecimal field that is absent, or present with `null`, is not at
/// fault.
pub proof fn lemma_field_without_value_is_no_fault(field: Option<Option<Seq<char>>>)
    requires
        field is None || field == Some(None::<Seq<char>>),
    ensures
        !hex_field_fault(field),
{
}

/// Where a hexadecimal field is reported, an entry at or after `start` has
/// that reference and holds the field with a value that is not hexadecimal.
pub proof fn lemma_reported_field_has_a_value(snapshot: UTxOView, start: int)
    requires
        0 <= start <= snapshot.len(),
    ensures
        snapshot_fault_from(snapshot, start) matches Some(
            ValidationErrorView::InvalidHexField { utxo_ref, field },
        ) ==> exists|i: int|
            start <= i < snapshot.len() && (#[trigger] snapshot[i]).0 == utxo_ref && (hex_field_of(
                snapshot[i].1,
                field,
            ) matches Some(Some(text)) && !is_hex_string(text)),
    decreases snapshot.len() - start,
{
    if start < snapshot.len() {
        if entry_fault(snapshot[start].0, snapshot[start].1) is None {
            lemma_reported_field_has_a_value(snapshot, start + 1);
        } else {
            assert(snapshot_fault_from(snapshot, start) == entry_fault(
                snapshot[start].0,
                snapshot[start].1,
            ));
        }
    }
}

/// The message of a violation holds the UTxO reference it was found under.
pub proof fn lemma_message_names_reference(fault: ValidationErrorView)
    ensures
        match fault {
            ValidationErrorView::MalformedDocument(_) => true,
            ValidationErrorView::KeyPatternRejected(_) => true,
            ValidationErrorView::InvalidReferenceFormat { utxo_ref } => occurs_in(
                utxo_ref,
                fault.text(),
            ),
            ValidationErrorView::EmptyAddress { utxo_ref } => occurs_in(utxo_ref, fault.text()),
            ValidationErrorView::InvalidPolicyId { utxo_ref, .. } => occurs_in(
                utxo_ref,
                fault.text(),
            ),
            ValidationErrorView::EmptyAssetMap { utxo_ref, .. } => occurs_in(
                utxo_ref,
                fault.text(),
            ),
            ValidationErrorView::InvalidAssetName { utxo_ref, .. } => occurs_in(
                utxo_ref,
                fault.text(),
            ),
            ValidationErrorView::InvalidScript { utxo_ref, .. } => occurs_in(
                utxo_ref,
                fault.text(),
            ),
            ValidationErrorView::InvalidHexField { utxo_ref, .. } => occurs_in(
                utxo_ref,
                fault.text(),
            ),
        },
{
    match fault {
        ValidationErrorView::MalformedDocument(_) => {},
        ValidationErrorView::KeyPatternRejected(_) => {},
        ValidationErrorView::InvalidReferenceFormat { utxo_ref } => {
            lemma_occurs_at_end("Invalid UTxO ref: "@, utxo_ref);
        },
        ValidationErrorView::EmptyAddress { utxo_ref } => {
            lemma_occurs_at_end("Empty address in UTxO: "@, utxo_ref);
        },
        ValidationErrorView::InvalidPolicyId { utxo_ref, policy_id } => {
            let rest = ": "@ + ("Invalid Policy ID: "@ + policy_id);
            lemma_occurs_between("Failed to validate value in UtxO "@, utxo_ref, rest);
            assert(fault.text() =~= "Failed to validate value in UtxO "@ + utxo_ref + rest);
        },
        ValidationErrorView::EmptyAssetMap { utxo_ref, policy_id } => {
            let rest = ": "@ + ("Asset map for policy "@ + policy_id + " cannot be empty"@);
            lemma_occurs_between("Failed to validate value in UtxO "@, utxo_ref, rest);
            assert(fault.text() =~= "Failed to validate value in UtxO "@ + utxo_ref + rest);
        },
        ValidationErrorView::InvalidAssetName { utxo_ref, asset_name } => {
            let rest = ": "@ + ("Invalid asset name: "@ + asset_name);
            lemma_occurs_between("Failed to validate value in UtxO "@, utxo_ref, rest);
            assert(fault.text() =~= "Failed to validate value in UtxO "@ + utxo_ref + rest);
        },
        ValidationErrorView::InvalidScript { utxo_ref, fault: script_fault } => {
            let rest = ": "@ + script_fault.text();
            lemma_occurs_between("Failed to validate script in UTxO "@, utxo_ref, rest);
            assert(fault.text() =~= "Failed to validate script in UTxO "@ + utxo_ref + rest);
        },
        ValidationErrorView::InvalidHexField { utxo_ref, field } => {
            lemma_occurs_at_end(field.heading(), utxo_ref);
        },
    }
}

/// The message of a violation inside a value holds the policy ID or the asset
/// name at fault.
pub proof fn lemma_message_names_what_is_at_fault(fault: ValidationErrorView)
    ensures
        match fault {
            ValidationErrorView::InvalidPolicyId { policy_id, .. } => occurs_in(
                policy_id,
                fault.text(),
            ),
            ValidationErrorView::EmptyAssetMap { policy_id, .. } => occurs_in(
                policy_id,
                fault.text(),
            ),
            ValidationErrorView::InvalidAssetName { asset_name, .. } => occurs_in(
                asset_name,
                fault.text(),
            ),
            _ => true,
        },
{
    match fault {
        ValidationErrorView::InvalidPolicyId { utxo_ref, policy_id } => {
            let before = "Failed to validate value in UtxO "@ + utxo_ref + ": "@
                + "Invalid Policy ID: "@;
            lemma_occurs_at_end(before, policy_id);
            assert(fault.text() =~= before + policy_id);
        },
        ValidationErrorView::EmptyAssetMap { utxo_ref, policy_id } => {
            let before = "Failed to validate value in UtxO "@ + utxo_ref + ": "@
                + "Asset map for policy "@;
            lemma_occurs_between(before, policy_id, " cannot be empty"@);
            assert(fault.text() =~= before + policy_id + " cannot be empty"@);
        },
        ValidationErrorView::InvalidAssetName { utxo_ref, asset_name } => {
            let before = "Failed to validate value in UtxO "@ + utxo_ref + ": "@
                + "Invalid asset name: "@;
            lemma_occurs_at_end(before, asset_name);
            assert(fault.text() =~= before + asset_name);
        },
        _ => {},
    }
}

} // verus!
