//! The document of a snapshot: the JSON that holds it, member by member, and
//! the proof that reading that document gives the snapshot back.

use crate::hydra::error::SchemaErrorView;
use crate::hydra::json::{JsonNumber, JsonTree};
use crate::hydra::schema::{
    entries_fault_from, lovelace_of, member, member_from, optional_payload, optional_script,
    optional_text, policies_fault_from, policies_upto, policy_assets, quantities_of,
    quantity_fault_from, required_text, required_value, script_details_of, script_of,
    script_type_of, snapshot_of, tx_out_of, value_of, Members,
};
use crate::hydra::snapshot::{
    AssetBundleView, ScriptDetailsView, ScriptType, ScriptView, TxOutView, UTxOView,
};
use vstd::prelude::*;

verus! {

/// The tag that names a script type.
pub open spec fn script_type_tag(script_type: ScriptType) -> Seq<char> {
    match script_type {
        ScriptType::SimpleScript => "SimpleScript"@,
        ScriptType::PlutusScriptV1 => "PlutusScriptV1"@,
        ScriptType::PlutusScriptV2 => "PlutusScriptV2"@,
        ScriptType::PlutusScriptV3 => "PlutusScriptV3"@,
    }
}

/// The member of an optional field: none where the field is absent, `null`,
/// or its value.
pub open spec fn optional_member(key: Seq<char>, field: Option<Option<JsonTree>>) -> Members {
    match field {
        None => Seq::empty(),
        Some(None) => seq![(key, JsonTree::Null)],
        Some(Some(tree)) => seq![(key, tree)],
    }
}

/// An optional text as an optional document.
pub open spec fn text_document(field: Option<Option<Seq<char>>>) -> Option<Option<JsonTree>> {
    match field {
        None => None,
        Some(None) => Some(None),
        Some(Some(text)) => Some(Some(JsonTree::Text(text))),
    }
}

/// The document of the payload of a script.
pub open spec fn script_details_document(details: ScriptDetailsView) -> JsonTree {
    JsonTree::Object(
        seq![
            ("cborHex"@, JsonTree::Text(details.cbor_hex)),
            ("description"@, JsonTree::Text(details.description)),
            ("type"@, JsonTree::Text(script_type_tag(details.script_type))),
        ],
    )
}

/// The document of a script.
pub open spec fn script_document(script: ScriptView) -> JsonTree {
    JsonTree::Object(
        seq![
            ("scriptLanguage"@, JsonTree::Text(script.script_language)),
            ("script"@, script_details_document(script.script)),
        ],
    )
}

/// An optional script as an optional document.
pub open spec fn optional_script_document(field: Option<Option<ScriptView>>) -> Option<
    Option<JsonTree>,
> {
    match field {
        None => None,
        Some(None) => Some(None),
        Some(Some(script)) => Some(Some(script_document(script))),
    }
}

/// The members of a policy: each asset name with its quantity.
pub open spec fn quantity_members(assets: Seq<(Seq<char>, i64)>) -> Members {
    Seq::new(
        assets.len(),
        |i: int| (assets[i].0, JsonTree::Number(JsonNumber::Integer(assets[i].1 as int))),
    )
}

/// The members of a value after `lovelace`: each policy ID with its assets.
pub open spec fn policy_members(policies: Seq<(Seq<char>, Seq<(Seq<char>, i64)>)>) -> Members {
    Seq::new(
        policies.len(),
        |j: int| (policies[j].0, JsonTree::Object(quantity_members(policies[j].1))),
    )
}

/// The members of a value: `lovelace`, then the policies in order.
pub open spec fn value_members(value: AssetBundleView) -> Members {
    seq![("lovelace"@, JsonTree::Number(JsonNumber::Integer(value.lovelace as int)))]
        + policy_members(value.assets)
}

/// The members of an output, in the order of the shape. An optional field
/// that is absent has no member.
pub open spec fn tx_out_members(tx_out: TxOutView) -> Members {
    seq![
        ("address"@, JsonTree::Text(tx_out.address)),
        ("value"@, JsonTree::Object(value_members(tx_out.value))),
    ] + optional_member("referenceScript"@, optional_script_document(tx_out.reference_script))
        + optional_member("datumhash"@, text_document(tx_out.datumhash)) + optional_member(
        "inlineDatum"@,
        tx_out.inline_datum,
    ) + optional_member("inlineDatumhash"@, text_document(tx_out.inline_datumhash))
        + optional_member("inlineDatumRaw"@, text_document(tx_out.inline_datum_raw))
        + optional_member("datum"@, text_document(tx_out.datum))
}

/// The document of a snapshot: an object with one member for each entry, in
/// order.
pub open spec fn snapshot_document(snapshot: UTxOView) -> JsonTree {
    JsonTree::Object(
        Seq::new(
            snapshot.len(),
            |i: int| (snapshot[i].0, JsonTree::Object(tx_out_members(snapshot[i].1))),
        ),
    )
}

/// An output can be told from its document: no policy is called `lovelace`,
/// and a payload that is present with a value is not `null`.
pub open spec fn tx_out_readable(tx_out: TxOutView) -> bool {
    &&& forall|j: int|
        0 <= j < tx_out.value.assets.len() ==> (#[trigger] tx_out.value.assets[j]).0
            != "lovelace"@
    &&& tx_out.inline_datum != Some(Some(JsonTree::Null))
}

/// A snapshot can be told from its document where each of its outputs can.
pub open spec fn snapshot_readable(snapshot: UTxOView) -> bool {
    forall|i: int| 0 <= i < snapshot.len() ==> tx_out_readable((#[trigger] snapshot[i]).1)
}

/// A key is looked up in the first of two runs of members, and in the second
/// where the first has it not.
pub proof fn lemma_member_of_runs(first: Members, second: Members, key: Seq<char>, start: int)
    requires
        0 <= start <= first.len(),
    ensures
        member_from(first + second, key, start) == (match member_from(first, key, start) {
            Some(tree) => Some(tree),
            None => member(second, key),
        }),
    decreases first.len() - start,
{
    let all = first + second;
    if start < first.len() {
        assert(all[start] == first[start]);
        lemma_member_of_runs(first, second, key, start + 1);
    } else {
        lemma_member_after(first, second, key, 0);
    }
}

/// Past the first of two runs of members, a key is looked up in the second.
proof fn lemma_member_after(first: Members, second: Members, key: Seq<char>, start: int)
    requires
        0 <= start <= second.len(),
    ensures
        member_from(first + second, key, first.len() + start) == member_from(second, key, start),
    decreases second.len() - start,
{
    let all = first + second;
    if start < second.len() {
        assert(all[first.len() + start] == second[start]);
        lemma_member_after(first, second, key, start + 1);
    }
}

/// The payload of a script is read back from its document.
pub proof fn lemma_script_details_read_back(utxo_ref: Seq<char>, details: ScriptDetailsView)
    ensures
        script_details_of(utxo_ref, script_details_document(details)) == Ok::<
            ScriptDetailsView,
            SchemaErrorView,
        >(details),
{
    reveal_strlit("cborHex");
    reveal_strlit("description");
    reveal_strlit("type");
    reveal_strlit("SimpleScript");
    reveal_strlit("PlutusScriptV1");
    reveal_strlit("PlutusScriptV2");
    reveal_strlit("PlutusScriptV3");
    reveal_with_fuel(member_from, 4);
    let members = script_details_document(details)->Object_0;
    assert(members[0].0 == "cborHex"@);
    assert(members[1].0 == "description"@);
    assert(members[2].0 == "type"@);
    assert("cborHex"@[0] != "description"@[0]);
    assert("cborHex"@[0] != "type"@[0]);
    assert("description"@[0] != "type"@[0]);
    assert(member(members, "cborHex"@) == Some(JsonTree::Text(details.cbor_hex)));
    assert(member(members, "description"@) == Some(JsonTree::Text(details.description)));
    assert(member(members, "type"@) == Some(
        JsonTree::Text(script_type_tag(details.script_type)),
    ));
    assert("SimpleScript"@[0] != "PlutusScriptV1"@[0]);
    assert("PlutusScriptV1"@[13] != "PlutusScriptV2"@[13]);
    assert("PlutusScriptV1"@[13] != "PlutusScriptV3"@[13]);
    assert("PlutusScriptV2"@[13] != "PlutusScriptV3"@[13]);
    assert(script_type_of(script_type_tag(details.script_type)) == Some(details.script_type));
}

/// A script is read back from its document.
pub proof fn lemma_script_read_back(utxo_ref: Seq<char>, script: ScriptView)
    ensures
        script_of(utxo_ref, script_document(script)) == Ok::<ScriptView, SchemaErrorView>(script),
{
    reveal_strlit("scriptLanguage");
    reveal_strlit("script");
    reveal_with_fuel(member_from, 3);
    let members = script_document(script)->Object_0;
    assert(members[0].0 == "scriptLanguage"@);
    assert(members[1].0 == "script"@);
    assert("scriptLanguage"@.len() != "script"@.len());
    assert(member(members, "scriptLanguage"@) == Some(JsonTree::Text(script.script_language)));
    assert(member(members, "script"@) == Some(script_details_document(script.script)));
    lemma_script_details_read_back(utxo_ref, script.script);
}

/// The assets of a policy are read back from their members.
pub proof fn lemma_quantities_read_back(utxo_ref: Seq<char>, assets: Seq<(Seq<char>, i64)>, start: int)
    requires
        0 <= start <= assets.len(),
    ensures
        quantity_fault_from(utxo_ref, quantity_members(assets), start) is None,
        quantities_of(quantity_members(assets)) == assets,
    decreases assets.len() - start,
{
    if start < assets.len() {
        lemma_quantities_read_back(utxo_ref, assets, start + 1);
    }
    assert(quantities_of(quantity_members(assets)) =~= assets);
}

/// No member of a value is at fault as a policy, where no policy is called
/// `lovelace`.
proof fn lemma_policies_fit(utxo_ref: Seq<char>, value: AssetBundleView, start: int)
    requires
        0 <= start <= value_members(value).len(),
    ensures
        policies_fault_from(utxo_ref, value_members(value), start) is None,
    decreases value_members(value).len() - start,
{
    let members = value_members(value);
    if start < members.len() {
        lemma_policies_fit(utxo_ref, value, start + 1);
        if start > 0 {
            let policy = value.assets[start - 1];
            assert(members[start] == (policy.0, JsonTree::Object(quantity_members(policy.1))));
            lemma_quantities_read_back(utxo_ref, policy.1, 0);
        }
    }
}

/// The policies among the first members of a value are the first policies of
/// the value, where no policy is called `lovelace`.
pub proof fn lemma_policies_read_back(value: AssetBundleView, count: int)
    requires
        1 <= count <= value_members(value).len(),
        forall|j: int|
            0 <= j < value.assets.len() ==> (#[trigger] value.assets[j]).0 != "lovelace"@,
    ensures
        policies_upto(value_members(value), count) == value.assets.take(count - 1),
    decreases count,
{
    let members = value_members(value);
    if count == 1 {
        reveal_with_fuel(policies_upto, 2);
        assert(policies_upto(members, 1) =~= value.assets.take(0));
    } else {
        lemma_policies_read_back(value, count - 1);
        let policy = value.assets[count - 2];
        assert(members[count - 1] == (policy.0, JsonTree::Object(quantity_members(policy.1))));
        lemma_quantities_read_back(Seq::empty(), policy.1, 0);
        assert(policy_assets(members[count - 1].1) == policy.1);
        assert(value.assets.take(count - 2).push(policy) =~= value.assets.take(count - 1));
    }
}

/// A value is read back from its members.
pub proof fn lemma_value_read_back(utxo_ref: Seq<char>, value: AssetBundleView)
    requires
        forall|j: int|
            0 <= j < value.assets.len() ==> (#[trigger] value.assets[j]).0 != "lovelace"@,
    ensures
        value_of(utxo_ref, JsonTree::Object(value_members(value))) == Ok::<
            AssetBundleView,
            SchemaErrorView,
        >(value),
{
    let members = value_members(value);
    assert(members[0] == ("lovelace"@, JsonTree::Number(JsonNumber::Integer(value.lovelace as int))));
    assert(lovelace_of(members, utxo_ref) == Ok::<u64, SchemaErrorView>(value.lovelace));
    lemma_policies_fit(utxo_ref, value, 0);
    lemma_policies_read_back(value, members.len() as int);
    assert(value.assets.take(value.assets.len() as int) =~= value.assets);
}

/// What the shape names is found among the members of an output, each under
/// its own name.
proof fn lemma_members_by_name(tx_out: TxOutView)
    ensures
        member(tx_out_members(tx_out), "address"@) == Some(JsonTree::Text(tx_out.address)),
        member(tx_out_members(tx_out), "value"@) == Some(
            JsonTree::Object(value_members(tx_out.value)),
        ),
        member(tx_out_members(tx_out), "referenceScript"@) == member(
            optional_member(
                "referenceScript"@,
                optional_script_document(tx_out.reference_script),
            ),
            "referenceScript"@,
        ),
        member(tx_out_members(tx_out), "datumhash"@) == member(
            optional_member("datumhash"@, text_document(tx_out.datumhash)),
            "datumhash"@,
        ),
        member(tx_out_members(tx_out), "inlineDatum"@) == member(
            optional_member("inlineDatum"@, tx_out.inline_datum),
            "inlineDatum"@,
        ),
        member(tx_out_members(tx_out), "inlineDatumhash"@) == member(
            optional_member("inlineDatumhash"@, text_document(tx_out.inline_datumhash)),
            "inlineDatumhash"@,
        ),
        member(tx_out_members(tx_out), "inlineDatumRaw"@) == member(
            optional_member("inlineDatumRaw"@, text_document(tx_out.inline_datum_raw)),
            "inlineDatumRaw"@,
        ),
        member(tx_out_members(tx_out), "datum"@) == member(
            optional_member("datum"@, text_document(tx_out.datum)),
            "datum"@,
        ),
{
    reveal_strlit("address");
    reveal_strlit("value");
    reveal_strlit("referenceScript");
    reveal_strlit("datumhash");
    reveal_strlit("inlineDatum");
    reveal_strlit("inlineDatumhash");
    reveal_strlit("inlineDatumRaw");
    reveal_strlit("datum");
    reveal_with_fuel(member_from, 3);
    let names = seq![
        "address"@,
        "value"@,
        "referenceScript"@,
        "datumhash"@,
        "inlineDatum"@,
        "inlineDatumhash"@,
        "inlineDatumRaw"@,
        "datum"@,
    ];
    assert forall|a: int, b: int| 0 <= a < b < 8 implies #[trigger] names[a] != #[trigger] names[b] by {
        assert(names[a].len() != names[b].len() || names[a][0] != names[b][0]);
    }
    let run0 = seq![
        ("address"@, JsonTree::Text(tx_out.address)),
        ("value"@, JsonTree::Object(value_members(tx_out.value))),
    ];
    let run1 = optional_member(
        "referenceScript"@,
        optional_script_document(tx_out.reference_script),
    );
    let run2 = optional_member("datumhash"@, text_document(tx_out.datumhash));
    let run3 = optional_member("inlineDatum"@, tx_out.inline_datum);
    let run4 = optional_member("inlineDatumhash"@, text_document(tx_out.inline_datumhash));
    let run5 = optional_member("inlineDatumRaw"@, text_document(tx_out.inline_datum_raw));
    let run6 = optional_member("datum"@, text_document(tx_out.datum));
    assert(tx_out_members(tx_out) == run0 + run1 + run2 + run3 + run4 + run5 + run6);
    assert forall|k: int| 0 <= k < 8 implies {
        let key = #[trigger] names[k];
        &&& member(run0, key) == (if k == 0 {
            Some(JsonTree::Text(tx_out.address))
        } else if k == 1 {
            Some(JsonTree::Object(value_members(tx_out.value)))
        } else {
            None
        })
        &&& (k != 2 ==> member(run1, key) is None)
        &&& (k != 3 ==> member(run2, key) is None)
        &&& (k != 4 ==> member(run3, key) is None)
        &&& (k != 5 ==> member(run4, key) is None)
        &&& (k != 6 ==> member(run5, key) is None)
        &&& (k != 7 ==> member(run6, key) is None)
        &&& member(run0 + run1 + run2 + run3 + run4 + run5 + run6, key) == (match member(
            run0,
            key,
        ) {
            Some(tree) => Some(tree),
            None => match member(run1, key) {
                Some(tree) => Some(tree),
                None => match member(run2, key) {
                    Some(tree) => Some(tree),
                    None => match member(run3, key) {
                        Some(tree) => Some(tree),
                        None => match member(run4, key) {
                            Some(tree) => Some(tree),
                            None => match member(run5, key) {
                                Some(tree) => Some(tree),
                                None => member(run6, key),
                            },
                        },
                    },
                },
            },
        })
    } by {
        let key = names[k];
        assert(forall|j: int| 0 <= j < 8 && j != k ==> names[j] != key);
        assert(names[0] == "address"@ && names[1] == "value"@ && names[2] == "referenceScript"@
            && names[3] == "datumhash"@ && names[4] == "inlineDatum"@ && names[5]
            == "inlineDatumhash"@ && names[6] == "inlineDatumRaw"@ && names[7] == "datum"@);
        lemma_member_of_runs(run0, run1, key, 0);
        lemma_member_of_runs(run0 + run1, run2, key, 0);
        lemma_member_of_runs(run0 + run1 + run2, run3, key, 0);
        lemma_member_of_runs(run0 + run1 + run2 + run3, run4, key, 0);
        lemma_member_of_runs(run0 + run1 + run2 + run3 + run4, run5, key, 0);
        lemma_member_of_runs(run0 + run1 + run2 + run3 + run4 + run5, run6, key, 0);
    }
    assert(names[0] == "address"@ && names[1] == "value"@ && names[2] == "referenceScript"@
        && names[3] == "datumhash"@ && names[4] == "inlineDatum"@ && names[5]
        == "inlineDatumhash"@ && names[6] == "inlineDatumRaw"@ && names[7] == "datum"@);
}

/// An output is read back from its members, under any reference.
pub proof fn lemma_tx_out_read_back(utxo_ref: Seq<char>, tx_out: TxOutView)
    requires
        tx_out_readable(tx_out),
    ensures
        tx_out_of(utxo_ref, JsonTree::Object(tx_out_members(tx_out))) == Ok::<
            TxOutView,
            SchemaErrorView,
        >(tx_out),
{
    let members = tx_out_members(tx_out);
    lemma_members_by_name(tx_out);
    lemma_value_read_back(utxo_ref, tx_out.value);
    reveal_with_fuel(member_from, 2);
    assert(required_text(members, utxo_ref, "address"@) == Ok::<Seq<char>, SchemaErrorView>(
        tx_out.address,
    ));
    assert(required_value(members, utxo_ref) == Ok::<AssetBundleView, SchemaErrorView>(
        tx_out.value,
    ));
    assert(optional_script(members, utxo_ref) == Ok::<
        Option<Option<ScriptView>>,
        SchemaErrorView,
    >(tx_out.reference_script)) by {
        if let Some(Some(script)) = tx_out.reference_script {
            lemma_script_read_back(utxo_ref, script);
        }
    }
    assert(optional_text(members, utxo_ref, "datumhash"@) == Ok::<
        Option<Option<Seq<char>>>,
        SchemaErrorView,
    >(tx_out.datumhash));
    assert(optional_text(members, utxo_ref, "inlineDatumhash"@) == Ok::<
        Option<Option<Seq<char>>>,
        SchemaErrorView,
    >(tx_out.inline_datumhash));
    assert(optional_text(members, utxo_ref, "inlineDatumRaw"@) == Ok::<
        Option<Option<Seq<char>>>,
        SchemaErrorView,
    >(tx_out.inline_datum_raw));
    assert(optional_text(members, utxo_ref, "datum"@) == Ok::<
        Option<Option<Seq<char>>>,
        SchemaErrorView,
    >(tx_out.datum));
    assert(optional_payload(members, "inlineDatum"@) == tx_out.inline_datum);
}

/// No entry of the document of a snapshot is at fault.
proof fn lemma_entries_fit(snapshot: UTxOView, start: int)
    requires
        snapshot_readable(snapshot),
        0 <= start <= snapshot.len(),
    ensures
        entries_fault_from(snapshot_document(snapshot)->Object_0, start) is None,
    decreases snapshot.len() - start,
{
    if start < snapshot.len() {
        lemma_tx_out_read_back(snapshot[start].0, snapshot[start].1);
        lemma_entries_fit(snapshot, start + 1);
    }
}

/// A snapshot is read back from its document: each entry under its
/// reference, in order, with every field in the state it had.
pub proof fn lemma_snapshot_read_back(snapshot: UTxOView)
    requires
        snapshot_readable(snapshot),
    ensures
        snapshot_of(snapshot_document(snapshot)) == Ok::<UTxOView, SchemaErrorView>(snapshot),
{
    lemma_entries_fit(snapshot, 0);
    let entries = snapshot_document(snapshot)->Object_0;
    assert forall|i: int| 0 <= i < snapshot.len() implies (
        entries[i].0,
        tx_out_of(entries[i].0, entries[i].1)->Ok_0,
    ) == snapshot[i] by {
        lemma_tx_out_read_back(snapshot[i].0, snapshot[i].1);
    }
    assert(snapshot_of(snapshot_document(snapshot))->Ok_0 =~= snapshot);
}

/// Where no entry at or after `start` is at fault, each of them is an output.
proof fn lemma_entries_without_fault(entries: Members, start: int)
    requires
        0 <= start <= entries.len(),
        entries_fault_from(entries, start) is None,
    ensures
        forall|i: int|
            start <= i < entries.len() ==> tx_out_of((#[trigger] entries[i]).0, entries[i].1)
                is Ok,
    decreases entries.len() - start,
{
    if start < entries.len() {
        lemma_entries_without_fault(entries, start + 1);
    }
}

/// Reading never gives a payload that is present with `null` for its value:
/// `null` is read as the second state of the field.
pub proof fn lemma_read_payloads_are_values(document: JsonTree)
    ensures
        snapshot_of(document) matches Ok(snapshot) ==> forall|i: int|
            0 <= i < snapshot.len() ==> (#[trigger] snapshot[i]).1.inline_datum != Some(
                Some(JsonTree::Null),
            ),
{
    if let Ok(snapshot) = snapshot_of(document) {
        let entries = document->Object_0;
        lemma_entries_without_fault(entries, 0);
        assert forall|i: int| 0 <= i < snapshot.len() implies (
        #[trigger] snapshot[i]).1.inline_datum != Some(Some(JsonTree::Null)) by {
            assert(tx_out_of(entries[i].0, entries[i].1) is Ok);
            assert(snapshot[i].1 == tx_out_of(entries[i].0, entries[i].1)->Ok_0);
        }
    }
}

} // verus!
