//! The shape of a snapshot document, and reading a snapshot out of one.
//!
//! ```text
//! { "<reference>": {
//!     "address": "<text>",
//!     "value": { "lovelace": <u64>, "<policy ID>": { "<asset name>": <i64>, .. }, .. },
//!     "referenceScript": { "scriptLanguage": "<text>",
//!                          "script": { "cborHex": "<text>", "description": "<text>",
//!                                      "type": "SimpleScript" | "PlutusScriptV1"
//!                                            | "PlutusScriptV2" | "PlutusScriptV3" } },
//!     "datumhash": "<text>", "inlineDatum": <any>, "inlineDatumhash": "<text>",
//!     "inlineDatumRaw": "<text>", "datum": "<text>" },
//!   .. }
//! ```
//!
//! `address` and `value` are required, and so is every member of a script.
//! `lovelace` is 0 where absent. The other members of an entry may be absent
//! or `null`. Members that the shape does not name are passed over, except in
//! `value`, where every member but `lovelace` is a policy.
//!
//! Reading stops at the first member that does not fit. Entries are taken in
//! document order, the members of an entry in the order above.

use crate::hydra::error::{Expected, SchemaError, SchemaErrorView};
use crate::hydra::json::{
    distinct_keys, duplicate, is_null, json_tree, member_trees, object_members, signed_number,
    string_text, unsigned_number, JsonNumber, JsonTree,
};
use crate::hydra::snapshot::{
    keys_unique, value_keys_unique, AssetBundle, AssetBundleView, Script, ScriptDetails,
    ScriptDetailsView, ScriptType, ScriptView, TxOut, TxOutView, UTxO, UTxOView,
};
use vstd::prelude::*;

verus! {

/// The members of an object, each a key and a document.
pub type Members = Seq<(Seq<char>, JsonTree)>;

/// The first member at or after `start` that has the key.
pub open spec fn member_from(members: Members, key: Seq<char>, start: int) -> Option<JsonTree>
    decreases members.len() - start,
{
    if start < 0 || start >= members.len() {
        None
    } else if members[start].0 == key {
        Some(members[start].1)
    } else {
        member_from(members, key, start + 1)
    }
}

/// The member of an object that has the key.
pub open spec fn member(members: Members, key: Seq<char>) -> Option<JsonTree> {
    member_from(members, key, 0)
}

/// A member that must be there and hold text.
pub open spec fn required_text(members: Members, utxo_ref: Seq<char>, field: Seq<char>) -> Result<
    Seq<char>,
    SchemaErrorView,
> {
    match member(members, field) {
        None => Err(SchemaErrorView::Missing { utxo_ref, field }),
        Some(JsonTree::Text(text)) => Ok(text),
        Some(_) => Err(SchemaErrorView::Mistyped { utxo_ref, field, expected: Expected::Text }),
    }
}

/// A member that may be absent or `null`, and else holds text.
pub open spec fn optional_text(members: Members, utxo_ref: Seq<char>, field: Seq<char>) -> Result<
    Option<Option<Seq<char>>>,
    SchemaErrorView,
> {
    match member(members, field) {
        None => Ok(None),
        Some(JsonTree::Null) => Ok(Some(None)),
        Some(JsonTree::Text(text)) => Ok(Some(Some(text))),
        Some(_) => Err(SchemaErrorView::Mistyped { utxo_ref, field, expected: Expected::Text }),
    }
}

/// A member that may be absent or `null`, and else holds any document.
pub open spec fn optional_payload(members: Members, field: Seq<char>) -> Option<Option<JsonTree>> {
    match member(members, field) {
        None => None,
        Some(JsonTree::Null) => Some(None),
        Some(tree) => Some(Some(tree)),
    }
}

/// The script type that a tag names.
pub open spec fn script_type_of(tag: Seq<char>) -> Option<ScriptType> {
    if tag == "SimpleScript"@ {
        Some(ScriptType::SimpleScript)
    } else if tag == "PlutusScriptV1"@ {
        Some(ScriptType::PlutusScriptV1)
    } else if tag == "PlutusScriptV2"@ {
        Some(ScriptType::PlutusScriptV2)
    } else if tag == "PlutusScriptV3"@ {
        Some(ScriptType::PlutusScriptV3)
    } else {
        None
    }
}

/// The payload of a script: `cborHex`, `description`, then `type`.
pub open spec fn script_details_of(utxo_ref: Seq<char>, tree: JsonTree) -> Result<
    ScriptDetailsView,
    SchemaErrorView,
> {
    match tree {
        JsonTree::Object(members) => {
            let cbor_hex = required_text(members, utxo_ref, "cborHex"@);
            let description = required_text(members, utxo_ref, "description"@);
            let tag = required_text(members, utxo_ref, "type"@);
            if cbor_hex is Err {
                Err(cbor_hex->Err_0)
            } else if description is Err {
                Err(description->Err_0)
            } else if tag is Err {
                Err(tag->Err_0)
            } else {
                match script_type_of(tag->Ok_0) {
                    None => Err(
                        SchemaErrorView::Mistyped {
                            utxo_ref,
                            field: "type"@,
                            expected: Expected::ScriptTypeTag,
                        },
                    ),
                    Some(script_type) => Ok(
                        ScriptDetailsView {
                            cbor_hex: cbor_hex->Ok_0,
                            description: description->Ok_0,
                            script_type,
                        },
                    ),
                }
            }
        },
        _ => Err(
            SchemaErrorView::Mistyped { utxo_ref, field: "script"@, expected: Expected::Object },
        ),
    }
}

/// A script: `scriptLanguage`, then `script`.
pub open spec fn script_of(utxo_ref: Seq<char>, tree: JsonTree) -> Result<
    ScriptView,
    SchemaErrorView,
> {
    match tree {
        JsonTree::Object(members) => {
            let language = required_text(members, utxo_ref, "scriptLanguage"@);
            if language is Err {
                Err(language->Err_0)
            } else {
                match member(members, "script"@) {
                    None => Err(SchemaErrorView::Missing { utxo_ref, field: "script"@ }),
                    Some(details) => match script_details_of(utxo_ref, details) {
                        Err(fault) => Err(fault),
                        Ok(script) => Ok(ScriptView { script_language: language->Ok_0, script }),
                    },
                }
            }
        },
        _ => Err(
            SchemaErrorView::Mistyped {
                utxo_ref,
                field: "referenceScript"@,
                expected: Expected::Object,
            },
        ),
    }
}

/// The member `referenceScript`, which may be absent or `null`.
pub open spec fn optional_script(members: Members, utxo_ref: Seq<char>) -> Result<
    Option<Option<ScriptView>>,
    SchemaErrorView,
> {
    match member(members, "referenceScript"@) {
        None => Ok(None),
        Some(JsonTree::Null) => Ok(Some(None)),
        Some(tree) => match script_of(utxo_ref, tree) {
            Err(fault) => Err(fault),
            Ok(script) => Ok(Some(Some(script))),
        },
    }
}

/// The quantity that a document holds: an integer of 64 bits with a sign.
pub open spec fn quantity_of(tree: JsonTree) -> Option<i64> {
    match tree {
        JsonTree::Number(JsonNumber::Integer(n)) if i64::MIN <= n <= i64::MAX => Some(n as i64),
        _ => None,
    }
}

/// The first asset at or after `start` whose quantity does not fit.
pub open spec fn quantity_fault_from(utxo_ref: Seq<char>, assets: Members, start: int) -> Option<
    SchemaErrorView,
>
    decreases assets.len() - start,
{
    if start < 0 || start >= assets.len() {
        None
    } else if quantity_of(assets[start].1) is None {
        Some(
            SchemaErrorView::Mistyped {
                utxo_ref,
                field: assets[start].0,
                expected: Expected::Signed,
            },
        )
    } else {
        quantity_fault_from(utxo_ref, assets, start + 1)
    }
}

/// The assets of a policy, name by name, where every quantity fits.
pub open spec fn quantities_of(assets: Members) -> Seq<(Seq<char>, i64)> {
    Seq::new(assets.len(), |i: int| (assets[i].0, quantity_of(assets[i].1)->Some_0))
}

/// What is wrong with one member of `value` as a policy. The member
/// `lovelace` is no policy.
pub open spec fn policy_shape_fault(utxo_ref: Seq<char>, key: Seq<char>, tree: JsonTree) -> Option<
    SchemaErrorView,
> {
    if key == "lovelace"@ {
        None
    } else {
        match tree {
            JsonTree::Object(assets) => quantity_fault_from(utxo_ref, assets, 0),
            _ => Some(
                SchemaErrorView::Mistyped { utxo_ref, field: key, expected: Expected::Object },
            ),
        }
    }
}

/// The first member of `value` at or after `start` that is no policy.
pub open spec fn policies_fault_from(utxo_ref: Seq<char>, members: Members, start: int) -> Option<
    SchemaErrorView,
>
    decreases members.len() - start,
{
    if start < 0 || start >= members.len() {
        None
    } else {
        match policy_shape_fault(utxo_ref, members[start].0, members[start].1) {
            Some(fault) => Some(fault),
            None => policies_fault_from(utxo_ref, members, start + 1),
        }
    }
}

/// The assets of one policy.
pub open spec fn policy_assets(tree: JsonTree) -> Seq<(Seq<char>, i64)> {
    match tree {
        JsonTree::Object(assets) => quantities_of(assets),
        _ => Seq::empty(),
    }
}

/// The policies among the first `count` members of `value`, in order.
pub open spec fn policies_upto(members: Members, count: int) -> Seq<
    (Seq<char>, Seq<(Seq<char>, i64)>),
>
    decreases count,
{
    if count <= 0 || count > members.len() {
        Seq::empty()
    } else if members[count - 1].0 == "lovelace"@ {
        policies_upto(members, count - 1)
    } else {
        policies_upto(members, count - 1).push(
            (members[count - 1].0, policy_assets(members[count - 1].1)),
        )
    }
}

/// The policies among the first `count` members are members, and where no
/// member's key occurs twice, no policy ID does.
pub proof fn lemma_policies_are_members(members: Members, count: int)
    requires
        0 <= count <= members.len(),
        distinct_keys(members),
    ensures
        distinct_keys(policies_upto(members, count)),
        forall|k: int|
            0 <= k < policies_upto(members, count).len() ==> exists|j: int|
                0 <= j < count && (#[trigger] members[j]).0 == (#[trigger] policies_upto(
                    members,
                    count,
                )[k]).0,
    decreases count,
{
    if count > 0 {
        lemma_policies_are_members(members, count - 1);
        let before = policies_upto(members, count - 1);
        let now = policies_upto(members, count);
        assert forall|k: int| 0 <= k < now.len() implies exists|j: int|
            0 <= j < count && (#[trigger] members[j]).0 == (#[trigger] now[k]).0 by {
            if k < before.len() {
                assert(now[k] == before[k]);
                let j = choose|j: int|
                    0 <= j < count - 1 && (#[trigger] members[j]).0 == before[k].0;
                assert(members[j].0 == now[k].0);
            } else {
                assert(members[count - 1].0 == now[k].0);
            }
        }
        assert forall|a: int, b: int| 0 <= a < b < now.len() implies (#[trigger] now[a]).0 != (
        #[trigger] now[b]).0 by {
            if b < before.len() {
                assert(now[a] == before[a] && now[b] == before[b]);
            } else {
                assert(now[a] == before[a]);
                let j = choose|j: int|
                    0 <= j < count - 1 && (#[trigger] members[j]).0 == before[a].0;
                assert(members[j].0 != members[count - 1].0);
            }
        }
    }
}

/// The amount of lovelace: 0 where the member is absent.
pub open spec fn lovelace_of(members: Members, utxo_ref: Seq<char>) -> Result<
    u64,
    SchemaErrorView,
> {
    match member(members, "lovelace"@) {
        None => Ok(0),
        Some(JsonTree::Number(JsonNumber::Integer(n))) if 0 <= n <= u64::MAX => Ok(n as u64),
        Some(_) => Err(
            SchemaErrorView::Mistyped {
                utxo_ref,
                field: "lovelace"@,
                expected: Expected::Unsigned,
            },
        ),
    }
}

/// A value: `lovelace`, then the policies in order.
pub open spec fn value_of(utxo_ref: Seq<char>, tree: JsonTree) -> Result<
    AssetBundleView,
    SchemaErrorView,
> {
    match tree {
        JsonTree::Object(members) => match lovelace_of(members, utxo_ref) {
            Err(fault) => Err(fault),
            Ok(lovelace) => match policies_fault_from(utxo_ref, members, 0) {
                Some(fault) => Err(fault),
                None => Ok(
                    AssetBundleView {
                        lovelace,
                        assets: policies_upto(members, members.len() as int),
                    },
                ),
            },
        },
        _ => Err(
            SchemaErrorView::Mistyped { utxo_ref, field: "value"@, expected: Expected::Object },
        ),
    }
}

/// The member `value`, which must be there.
pub open spec fn required_value(members: Members, utxo_ref: Seq<char>) -> Result<
    AssetBundleView,
    SchemaErrorView,
> {
    match member(members, "value"@) {
        None => Err(SchemaErrorView::Missing { utxo_ref, field: "value"@ }),
        Some(tree) => value_of(utxo_ref, tree),
    }
}

/// One output, read from the entry under `utxo_ref`.
pub open spec fn tx_out_of(utxo_ref: Seq<char>, tree: JsonTree) -> Result<
    TxOutView,
    SchemaErrorView,
> {
    match tree {
        JsonTree::Object(members) => {
            let address = required_text(members, utxo_ref, "address"@);
            let value = required_value(members, utxo_ref);
            let reference_script = optional_script(members, utxo_ref);
            let datumhash = optional_text(members, utxo_ref, "datumhash"@);
            let inline_datumhash = optional_text(members, utxo_ref, "inlineDatumhash"@);
            let inline_datum_raw = optional_text(members, utxo_ref, "inlineDatumRaw"@);
            let datum = optional_text(members, utxo_ref, "datum"@);
            if address is Err {
                Err(address->Err_0)
            } else if value is Err {
                Err(value->Err_0)
            } else if reference_script is Err {
                Err(reference_script->Err_0)
            } else if datumhash is Err {
                Err(datumhash->Err_0)
            } else if inline_datumhash is Err {
                Err(inline_datumhash->Err_0)
            } else if inline_datum_raw is Err {
                Err(inline_datum_raw->Err_0)
            } else if datum is Err {
                Err(datum->Err_0)
            } else {
                Ok(
                    TxOutView {
                        address: address->Ok_0,
                        value: value->Ok_0,
                        reference_script: reference_script->Ok_0,
                        datumhash: datumhash->Ok_0,
                        inline_datum: optional_payload(members, "inlineDatum"@),
                        inline_datumhash: inline_datumhash->Ok_0,
                        inline_datum_raw: inline_datum_raw->Ok_0,
                        datum: datum->Ok_0,
                    },
                )
            }
        },
        _ => Err(SchemaErrorView::Entry { utxo_ref }),
    }
}

/// The first entry at or after `start` that is no output.
pub open spec fn entries_fault_from(entries: Members, start: int) -> Option<SchemaErrorView>
    decreases entries.len() - start,
{
    if start < 0 || start >= entries.len() {
        None
    } else {
        match tx_out_of(entries[start].0, entries[start].1) {
            Err(fault) => Some(fault),
            Ok(_) => entries_fault_from(entries, start + 1),
        }
    }
}

/// The snapshot that a document holds: its entries in document order.
pub open spec fn snapshot_of(document: JsonTree) -> Result<UTxOView, SchemaErrorView> {
    match document {
        JsonTree::Object(entries) => match entries_fault_from(entries, 0) {
            Some(fault) => Err(fault),
            None => Ok(
                Seq::new(
                    entries.len(),
                    |i: int| (entries[i].0, tx_out_of(entries[i].0, entries[i].1)->Ok_0),
                ),
            ),
        },
        _ => Err(SchemaErrorView::Document),
    }
}

/// A result of reading is what the shape says: the value read or the fault.
pub open spec fn yields<T: DeepView>(
    result: Result<T, SchemaError>,
    expected: Result<T::V, SchemaErrorView>,
) -> bool {
    match result {
        Ok(value) => expected == Ok::<T::V, SchemaErrorView>(value.deep_view()),
        Err(fault) => expected == Err::<T::V, SchemaErrorView>(fault.deep_view()),
    }
}

/// Finds the member with the key.
fn find_member<'a>(members: &Vec<(&'a String, &'a serde_json::Value)>, key: &str) -> (r: Option<
    &'a serde_json::Value,
>)
    ensures
        match r {
            Some(value) => member(member_trees(members@), key@) == Some(json_tree(*value)),
            None => member(member_trees(members@), key@) is None,
        },
{
    let wanted = key.to_owned();
    let mut i: usize = 0;
    while i < members.len()
        invariant
            i <= members.len(),
            wanted@ == key@,
            member(member_trees(members@), key@) == member_from(
                member_trees(members@),
                key@,
                i as int,
            ),
        decreases members.len() - i,
    {
        if *members[i].0 == wanted {
            return Some(members[i].1);
        }
        i += 1;
    }
    None
}

/// Reads a member that must be there and hold text.
fn read_required_text(
    members: &Vec<(&String, &serde_json::Value)>,
    utxo_ref: &str,
    field: &str,
) -> (r: Result<String, SchemaError>)
    ensures
        yields(r, required_text(member_trees(members@), utxo_ref@, field@)),
{
    match find_member(members, field) {
        None => Err(SchemaError::Missing { utxo_ref: utxo_ref.to_owned(), field: field.to_owned() }),
        Some(value) => match string_text(value) {
            Some(text) => Ok(text.to_owned()),
            None => Err(
                SchemaError::Mistyped {
                    utxo_ref: utxo_ref.to_owned(),
                    field: field.to_owned(),
                    expected: Expected::Text,
                },
            ),
        },
    }
}

/// Reads a member that may be absent or `null`, and else holds text.
fn read_optional_text(
    members: &Vec<(&String, &serde_json::Value)>,
    utxo_ref: &str,
    field: &str,
) -> (r: Result<Option<Option<String>>, SchemaError>)
    ensures
        yields(r, optional_text(member_trees(members@), utxo_ref@, field@)),
{
    match find_member(members, field) {
        None => Ok(None),
        Some(value) => {
            if is_null(value) {
                Ok(Some(None))
            } else {
                match string_text(value) {
                    Some(text) => Ok(Some(Some(text.to_owned()))),
                    None => Err(
                        SchemaError::Mistyped {
                            utxo_ref: utxo_ref.to_owned(),
                            field: field.to_owned(),
                            expected: Expected::Text,
                        },
                    ),
                }
            }
        },
    }
}

/// Reads a member that may be absent or `null`, and else holds any document.
fn read_optional_payload(members: &Vec<(&String, &serde_json::Value)>, field: &str) -> (r: Option<
    Option<serde_json::Value>,
>)
    ensures
        crate::hydra::snapshot::payload_view(r) == optional_payload(
            member_trees(members@),
            field@,
        ),
{
    match find_member(members, field) {
        None => None,
        Some(value) => {
            if is_null(value) {
                Some(None)
            } else {
                Some(Some(duplicate(value)))
            }
        },
    }
}

/// Tells the script type that a tag names.
pub fn parse_script_type(tag: &str) -> (r: Option<ScriptType>)
    ensures
        r == script_type_of(tag@),
{
    let tag = tag.to_owned();
    if tag == "SimpleScript".to_owned() {
        Some(ScriptType::SimpleScript)
    } else if tag == "PlutusScriptV1".to_owned() {
        Some(ScriptType::PlutusScriptV1)
    } else if tag == "PlutusScriptV2".to_owned() {
        Some(ScriptType::PlutusScriptV2)
    } else if tag == "PlutusScriptV3".to_owned() {
        Some(ScriptType::PlutusScriptV3)
    } else {
        None
    }
}

/// Reads the payload of a script.
fn read_script_details(utxo_ref: &str, value: &serde_json::Value) -> (r: Result<
    ScriptDetails,
    SchemaError,
>)
    ensures
        yields(r, script_details_of(utxo_ref@, json_tree(*value))),
{
    let members = match object_members(value) {
        Some(members) => members,
        None => {
            return Err(
                SchemaError::Mistyped {
                    utxo_ref: utxo_ref.to_owned(),
                    field: "script".to_owned(),
                    expected: Expected::Object,
                },
            );
        },
    };
    let cbor_hex = match read_required_text(&members, utxo_ref, "cborHex") {
        Ok(text) => text,
        Err(fault) => {
            return Err(fault);
        },
    };
    let description = match read_required_text(&members, utxo_ref, "description") {
        Ok(text) => text,
        Err(fault) => {
            return Err(fault);
        },
    };
    let tag = match read_required_text(&members, utxo_ref, "type") {
        Ok(text) => text,
        Err(fault) => {
            return Err(fault);
        },
    };
    match parse_script_type(tag.as_str()) {
        Some(script_type) => Ok(ScriptDetails { cbor_hex, description, script_type }),
        None => Err(
            SchemaError::Mistyped {
                utxo_ref: utxo_ref.to_owned(),
                field: "type".to_owned(),
                expected: Expected::ScriptTypeTag,
            },
        ),
    }
}

/// Reads a script.
fn read_script(utxo_ref: &str, value: &serde_json::Value) -> (r: Result<Script, SchemaError>)
    ensures
        yields(r, script_of(utxo_ref@, json_tree(*value))),
{
    let members = match object_members(value) {
        Some(members) => members,
        None => {
            return Err(
                SchemaError::Mistyped {
                    utxo_ref: utxo_ref.to_owned(),
                    field: "referenceScript".to_owned(),
                    expected: Expected::Object,
                },
            );
        },
    };
    let script_language = match read_required_text(&members, utxo_ref, "scriptLanguage") {
        Ok(text) => text,
        Err(fault) => {
            return Err(fault);
        },
    };
    match find_member(&members, "script") {
        None => Err(
            SchemaError::Missing { utxo_ref: utxo_ref.to_owned(), field: "script".to_owned() },
        ),
        Some(details) => match read_script_details(utxo_ref, details) {
            Ok(script) => Ok(Script { script_language, script }),
            Err(fault) => Err(fault),
        },
    }
}

/// Reads the member `referenceScript`.
fn read_optional_script(members: &Vec<(&String, &serde_json::Value)>, utxo_ref: &str) -> (r: Result<
    Option<Option<Script>>,
    SchemaError,
>)
    ensures
        yields(r, optional_script(member_trees(members@), utxo_ref@)),
{
    match find_member(members, "referenceScript") {
        None => Ok(None),
        Some(value) => {
            if is_null(value) {
                Ok(Some(None))
            } else {
                match read_script(utxo_ref, value) {
                    Ok(script) => Ok(Some(Some(script))),
                    Err(fault) => Err(fault),
                }
            }
        },
    }
}

/// Reads the assets of one policy.
fn read_quantities(utxo_ref: &str, assets: &Vec<(&String, &serde_json::Value)>) -> (r: Result<
    Vec<(String, i64)>,
    SchemaError,
>)
    ensures
        match r {
            Ok(list) => quantity_fault_from(utxo_ref@, member_trees(assets@), 0) is None
                && list.deep_view() == quantities_of(member_trees(assets@)),
            Err(fault) => quantity_fault_from(utxo_ref@, member_trees(assets@), 0) == Some(
                fault.deep_view(),
            ),
        },
        distinct_keys(member_trees(assets@)) ==> distinct_keys(
            quantities_of(member_trees(assets@)),
        ),
{
    let mut list: Vec<(String, i64)> = Vec::new();
    let mut i: usize = 0;
    while i < assets.len()
        invariant
            i <= assets.len(),
            list.len() == i,
            quantity_fault_from(utxo_ref@, member_trees(assets@), 0) == quantity_fault_from(
                utxo_ref@,
                member_trees(assets@),
                i as int,
            ),
            forall|k: int|
                0 <= k < i ==> (#[trigger] list@[k]).deep_view() == quantities_of(
                    member_trees(assets@),
                )[k],
        decreases assets.len() - i,
    {
        match signed_number(assets[i].1) {
            Some(quantity) => {
                list.push((assets[i].0.clone(), quantity));
            },
            None => {
                return Err(
                    SchemaError::Mistyped {
                        utxo_ref: utxo_ref.to_owned(),
                        field: assets[i].0.clone(),
                        expected: Expected::Signed,
                    },
                );
            },
        }
        i += 1;
    }
    assert(list.deep_view() =~= quantities_of(member_trees(assets@)));
    Ok(list)
}

/// Reads the amount of lovelace.
fn read_lovelace(members: &Vec<(&String, &serde_json::Value)>, utxo_ref: &str) -> (r: Result<
    u64,
    SchemaError,
>)
    ensures
        yields(r, lovelace_of(member_trees(members@), utxo_ref@)),
{
    match find_member(members, "lovelace") {
        None => Ok(0),
        Some(value) => match unsigned_number(value) {
            Some(lovelace) => Ok(lovelace),
            None => Err(
                SchemaError::Mistyped {
                    utxo_ref: utxo_ref.to_owned(),
                    field: "lovelace".to_owned(),
                    expected: Expected::Unsigned,
                },
            ),
        },
    }
}

/// Reads a value.
fn read_value(utxo_ref: &str, value: &serde_json::Value) -> (r: Result<AssetBundle, SchemaError>)
    ensures
        yields(r, value_of(utxo_ref@, json_tree(*value))),
        r matches Ok(bundle) ==> value_keys_unique(bundle.deep_view()),
{
    let members = match object_members(value) {
        Some(members) => members,
        None => {
            return Err(
                SchemaError::Mistyped {
                    utxo_ref: utxo_ref.to_owned(),
                    field: "value".to_owned(),
                    expected: Expected::Object,
                },
            );
        },
    };
    let lovelace = match read_lovelace(&members, utxo_ref) {
        Ok(lovelace) => lovelace,
        Err(fault) => {
            return Err(fault);
        },
    };
    let lovelace_key = "lovelace".to_owned();
    let ghost trees = member_trees(members@);
    let mut assets: Vec<(String, Vec<(String, i64)>)> = Vec::new();
    let mut i: usize = 0;
    while i < members.len()
        invariant
            i <= members.len(),
            trees == member_trees(members@),
            json_tree(*value) == JsonTree::Object(trees),
            lovelace_key@ == "lovelace"@,
            lovelace_of(trees, utxo_ref@) == Ok::<u64, SchemaErrorView>(lovelace),
            policies_fault_from(utxo_ref@, trees, 0) == policies_fault_from(
                utxo_ref@,
                trees,
                i as int,
            ),
            assets.deep_view() == policies_upto(trees, i as int),
            forall|j: int|
                0 <= j < assets.len() ==> distinct_keys((#[trigger] assets.deep_view()[j]).1),
        decreases members.len() - i,
    {
        if !(*members[i].0 == lovelace_key) {
            let list = match object_members(members[i].1) {
                Some(policy) => match read_quantities(utxo_ref, &policy) {
                    Ok(list) => list,
                    Err(fault) => {
                        return Err(fault);
                    },
                },
                None => {
                    return Err(
                        SchemaError::Mistyped {
                            utxo_ref: utxo_ref.to_owned(),
                            field: members[i].0.clone(),
                            expected: Expected::Object,
                        },
                    );
                },
            };
            let ghost before = assets.deep_view();
            assets.push((members[i].0.clone(), list));
            assert(assets.deep_view() =~= before.push((trees[i as int].0, policy_assets(trees[i as int].1))));
        }
        i += 1;
    }
    proof {
        lemma_policies_are_members(trees, members.len() as int);
    }
    Ok(AssetBundle { lovelace, assets })
}

/// Reads the member `value`.
fn read_required_value(members: &Vec<(&String, &serde_json::Value)>, utxo_ref: &str) -> (r: Result<
    AssetBundle,
    SchemaError,
>)
    ensures
        yields(r, required_value(member_trees(members@), utxo_ref@)),
        r matches Ok(bundle) ==> value_keys_unique(bundle.deep_view()),
{
    match find_member(members, "value") {
        None => Err(
            SchemaError::Missing { utxo_ref: utxo_ref.to_owned(), field: "value".to_owned() },
        ),
        Some(value) => read_value(utxo_ref, value),
    }
}

/// Reads one output from the entry under `utxo_ref`.
pub fn decode_tx_out(utxo_ref: &str, entry: &serde_json::Value) -> (r: Result<TxOut, SchemaError>)
    ensures
        yields(r, tx_out_of(utxo_ref@, json_tree(*entry))),
        r matches Ok(tx_out) ==> value_keys_unique(tx_out.deep_view().value),
{
    let members = match object_members(entry) {
        Some(members) => members,
        None => {
            return Err(SchemaError::Entry { utxo_ref: utxo_ref.to_owned() });
        },
    };
    let address = match read_required_text(&members, utxo_ref, "address") {
        Ok(text) => text,
        Err(fault) => {
            return Err(fault);
        },
    };
    let value = match read_required_value(&members, utxo_ref) {
        Ok(value) => value,
        Err(fault) => {
            return Err(fault);
        },
    };
    let reference_script = match read_optional_script(&members, utxo_ref) {
        Ok(script) => script,
        Err(fault) => {
            return Err(fault);
        },
    };
    let datumhash = match read_optional_text(&members, utxo_ref, "datumhash") {
        Ok(text) => text,
        Err(fault) => {
            return Err(fault);
        },
    };
    let inline_datum = read_optional_payload(&members, "inlineDatum");
    let inline_datumhash = match read_optional_text(&members, utxo_ref, "inlineDatumhash") {
        Ok(text) => text,
        Err(fault) => {
            return Err(fault);
        },
    };
    let inline_datum_raw = match read_optional_text(&members, utxo_ref, "inlineDatumRaw") {
        Ok(text) => text,
        Err(fault) => {
            return Err(fault);
        },
    };
    let datum = match read_optional_text(&members, utxo_ref, "datum") {
        Ok(text) => text,
        Err(fault) => {
            return Err(fault);
        },
    };
    Ok(
        TxOut {
            address,
            value,
            reference_script,
            datumhash,
            inline_datum,
            inline_datumhash,
            inline_datum_raw,
            datum,
        },
    )
}

/// Reads the snapshot that a document holds, or reports the first member
/// that does not fit the shape. A snapshot that was read is a mapping: the
/// objects of a document hold no key twice.
pub fn decode_snapshot(document: &serde_json::Value) -> (r: Result<UTxO, SchemaError>)
    ensures
        yields(r, snapshot_of(json_tree(*document))),
        r matches Ok(snapshot) ==> keys_unique(snapshot.deep_view()),
{
    let entries = match object_members(document) {
        Some(entries) => entries,
        None => {
            return Err(SchemaError::Document);
        },
    };
    let ghost trees = member_trees(entries@);
    let mut snapshot: UTxO = Vec::new();
    let mut i: usize = 0;
    while i < entries.len()
        invariant
            i <= entries.len(),
            snapshot.len() == i,
            trees == member_trees(entries@),
            json_tree(*document) == JsonTree::Object(trees),
            entries_fault_from(trees, 0) == entries_fault_from(trees, i as int),
            distinct_keys(trees),
            forall|k: int|
                0 <= k < i ==> (#[trigger] snapshot@[k]).deep_view() == (
                    trees[k].0,
                    tx_out_of(trees[k].0, trees[k].1)->Ok_0,
                ),
            forall|k: int|
                0 <= k < i ==> value_keys_unique((#[trigger] snapshot@[k]).deep_view().1.value),
        decreases entries.len() - i,
    {
        match decode_tx_out(entries[i].0.as_str(), entries[i].1) {
            Ok(tx_out) => {
                snapshot.push((entries[i].0.clone(), tx_out));
            },
            Err(fault) => {
                return Err(fault);
            },
        }
        i += 1;
    }
    assert(snapshot.deep_view() =~= snapshot_of(json_tree(*document))->Ok_0);
    Ok(snapshot)
}

} // verus!
