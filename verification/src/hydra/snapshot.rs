//! The UTxO snapshot: unspent outputs by reference, each with its address,
//! its bundle of assets and its optional script and datum fields.
//!
//! An optional field has three states: the member is absent (`None`), it is
//! present with JSON `null` (`Some(None)`), or it is present with a value
//! (`Some(Some(..))`).

use crate::hydra::json::{distinct_keys, json_tree, JsonTree};
use vstd::prelude::*;

verus! {

/// The kind of a script.
#[derive(Clone, Copy, Debug, PartialEq, Eq, Structural)]
pub enum ScriptType {
    SimpleScript,
    PlutusScriptV1,
    PlutusScriptV2,
    PlutusScriptV3,
}

/// The payload of a script: its CBOR encoding in hexadecimal, a description
/// in free text, and its kind.
#[derive(Clone, Debug, PartialEq, Eq)]
pub struct ScriptDetails {
    pub cbor_hex: String,
    pub description: String,
    pub script_type: ScriptType,
}

/// A script attached to an output.
#[derive(Clone, Debug, PartialEq, Eq)]
pub struct Script {
    pub script_language: String,
    pub script: ScriptDetails,
}

/// What an output holds: lovelace, and quantities of native assets by policy
/// ID and asset name, in document order.
#[derive(Clone, Debug, PartialEq, Eq)]
pub struct AssetBundle {
    pub lovelace: u64,
    pub assets: Vec<(String, Vec<(String, i64)>)>,
}

/// One unspent output.
#[derive(Clone, Debug, PartialEq, Eq)]
pub struct TxOut {
    pub address: String,
    pub value: AssetBundle,
    pub reference_script: Option<Option<Script>>,
    pub datumhash: Option<Option<String>>,
    pub inline_datum: Option<Option<serde_json::Value>>,
    pub inline_datumhash: Option<Option<String>>,
    pub inline_datum_raw: Option<Option<String>>,
    pub datum: Option<Option<String>>,
}

/// The snapshot: the outputs by UTxO reference, in document order.
pub type UTxO = Vec<(String, TxOut)>;

pub struct ScriptDetailsView {
    pub cbor_hex: Seq<char>,
    pub description: Seq<char>,
    pub script_type: ScriptType,
}

pub struct ScriptView {
    pub script_language: Seq<char>,
    pub script: ScriptDetailsView,
}

pub struct AssetBundleView {
    pub lovelace: u64,
    pub assets: Seq<(Seq<char>, Seq<(Seq<char>, i64)>)>,
}

pub struct TxOutView {
    pub address: Seq<char>,
    pub value: AssetBundleView,
    pub reference_script: Option<Option<ScriptView>>,
    pub datumhash: Option<Option<Seq<char>>>,
    pub inline_datum: Option<Option<JsonTree>>,
    pub inline_datumhash: Option<Option<Seq<char>>>,
    pub inline_datum_raw: Option<Option<Seq<char>>>,
    pub datum: Option<Option<Seq<char>>>,
}

/// The snapshot as a sequence of references and outputs.
pub type UTxOView = Seq<(Seq<char>, TxOutView)>;

impl DeepView for ScriptType {
    type V = ScriptType;

    open spec fn deep_view(&self) -> ScriptType {
        *self
    }
}

impl DeepView for ScriptDetails {
    type V = ScriptDetailsView;

    open spec fn deep_view(&self) -> ScriptDetailsView {
        ScriptDetailsView {
            cbor_hex: self.cbor_hex@,
            description: self.description@,
            script_type: self.script_type,
        }
    }
}

impl DeepView for Script {
    type V = ScriptView;

    open spec fn deep_view(&self) -> ScriptView {
        ScriptView {
            script_language: self.script_language@,
            script: self.script.deep_view(),
        }
    }
}

impl DeepView for AssetBundle {
    type V = AssetBundleView;

    open spec fn deep_view(&self) -> AssetBundleView {
        AssetBundleView { lovelace: self.lovelace, assets: self.assets.deep_view() }
    }
}

/// A value is a mapping: no policy ID occurs twice, and under one policy no
/// asset name occurs twice.
pub open spec fn value_keys_unique(value: AssetBundleView) -> bool {
    &&& distinct_keys(value.assets)
    &&& forall|j: int|
        0 <= j < value.assets.len() ==> distinct_keys((#[trigger] value.assets[j]).1)
}

/// A snapshot is a mapping: no UTxO reference occurs twice, and each value
/// is a mapping.
pub open spec fn keys_unique(snapshot: UTxOView) -> bool {
    &&& distinct_keys(snapshot)
    &&& forall|i: int|
        0 <= i < snapshot.len() ==> value_keys_unique((#[trigger] snapshot[i]).1.value)
}

/// The document that an arbitrary JSON payload holds, state by state.
pub open spec fn payload_view(payload: Option<Option<serde_json::Value>>) -> Option<Option<JsonTree>> {
    match payload {
        None => None,
        Some(None) => Some(None),
        Some(Some(value)) => Some(Some(json_tree(value))),
    }
}

impl DeepView for TxOut {
    type V = TxOutView;

    open spec fn deep_view(&self) -> TxOutView {
        TxOutView {
            address: self.address@,
            value: self.value.deep_view(),
            reference_script: self.reference_script.deep_view(),
            datumhash: self.datumhash.deep_view(),
            inline_datum: payload_view(self.inline_datum),
            inline_datumhash: self.inline_datumhash.deep_view(),
            inline_datum_raw: self.inline_datum_raw.deep_view(),
            datum: self.datum.deep_view(),
        }
    }
}

} // verus!
