//! What validation reports: the first violation found, with the UTxO
//! reference and the member it was found at.

use vstd::prelude::*;
use vstd::string::StringExecFns;

verus! {

/// `head` followed by `tail`.
fn join(head: &str, tail: &str) -> (text: String)
    ensures
        text@ == head@ + tail@,
{
    let mut text = head.to_owned();
    text.append(tail);
    text
}

/// `needle` stands somewhere in `text`, whole and unbroken.
pub open spec fn occurs_in(needle: Seq<char>, text: Seq<char>) -> bool {
    exists|at: int|
        0 <= at && at + needle.len() <= text.len() && #[trigger] text.subrange(
            at,
            at + needle.len(),
        ) == needle
}

/// A violation inside the value of an output.
#[derive(Clone, Debug, PartialEq, Eq)]
pub enum ValueError {
    /// The policy ID is not 56 hexadecimal digits.
    InvalidPolicyId(String),
    /// The policy with this ID holds no asset.
    EmptyAssetMap(String),
    /// The asset name is longer than 64 characters or not hexadecimal.
    InvalidAssetName(String),
}

pub enum ValueErrorView {
    InvalidPolicyId(Seq<char>),
    EmptyAssetMap(Seq<char>),
    InvalidAssetName(Seq<char>),
}

impl DeepView for ValueError {
    type V = ValueErrorView;

    open spec fn deep_view(&self) -> ValueErrorView {
        match self {
            ValueError::InvalidPolicyId(policy_id) => ValueErrorView::InvalidPolicyId(policy_id@),
            ValueError::EmptyAssetMap(policy_id) => ValueErrorView::EmptyAssetMap(policy_id@),
            ValueError::InvalidAssetName(asset_name) => ValueErrorView::InvalidAssetName(
                asset_name@,
            ),
        }
    }
}

impl ValueErrorView {
    /// The message of the violation.
    pub open spec fn text(self) -> Seq<char> {
        match self {
            ValueErrorView::InvalidPolicyId(policy_id) => "Invalid Policy ID: "@ + policy_id,
            ValueErrorView::EmptyAssetMap(policy_id) => "Asset map for policy "@ + policy_id
                + " cannot be empty"@,
            ValueErrorView::InvalidAssetName(asset_name) => "Invalid asset name: "@ + asset_name,
        }
    }
}

impl ValueError {
    /// The message of the violation, which names the policy ID or the asset
    /// name at fault.
    pub fn message(&self) -> (text: String)
        ensures
            text@ == self.deep_view().text(),
    {
        match self {
            ValueError::InvalidPolicyId(policy_id) => join(
                "Invalid Policy ID: ",
                policy_id.as_str(),
            ),
            ValueError::EmptyAssetMap(policy_id) => {
                let mut text = join("Asset map for policy ", policy_id.as_str());
                text.append(" cannot be empty");
                text
            },
            ValueError::InvalidAssetName(asset_name) => join(
                "Invalid asset name: ",
                asset_name.as_str(),
            ),
        }
    }
}

/// A violation inside a reference script.
#[derive(Clone, Copy, Debug, PartialEq, Eq, Structural)]
pub enum ScriptError {
    /// The CBOR payload is not hexadecimal.
    InvalidCborHex,
    /// The language tag is empty.
    EmptyLanguage,
}

impl DeepView for ScriptError {
    type V = ScriptError;

    open spec fn deep_view(&self) -> ScriptError {
        *self
    }
}

impl ScriptError {
    /// The message of the violation.
    pub open spec fn text(self) -> Seq<char> {
        match self {
            ScriptError::InvalidCborHex => "Invalid hex in script"@,
            ScriptError::EmptyLanguage => "Script language cannot be empty"@,
        }
    }

    /// The message of the violation.
    pub fn message(&self) -> (text: String)
        ensures
            text@ == self.text(),
    {
        match self {
            ScriptError::InvalidCborHex => "Invalid hex in script".to_owned(),
            ScriptError::EmptyLanguage => "Script language cannot be empty".to_owned(),
        }
    }
}

/// The optional members of an output that hold hexadecimal text.
#[derive(Clone, Copy, Debug, PartialEq, Eq, Structural)]
pub enum HexField {
    Datumhash,
    InlineDatumhash,
    Datum,
}

impl HexField {
    /// How a message opens that reports this field.
    pub open spec fn heading(self) -> Seq<char> {
        match self {
            HexField::Datumhash => "Invalid datumhash format in UTxO: "@,
            HexField::InlineDatumhash => "Invalid inline_datumhash format in UTxO: "@,
            HexField::Datum => "Invalid datum format in UTxO: "@,
        }
    }

    fn heading_text(&self) -> (text: &'static str)
        ensures
            text@ == self.heading(),
    {
        match self {
            HexField::Datumhash => "Invalid datumhash format in UTxO: ",
            HexField::InlineDatumhash => "Invalid inline_datumhash format in UTxO: ",
            HexField::Datum => "Invalid datum format in UTxO: ",
        }
    }
}

/// What a member of the document was expected to be.
#[derive(Clone, Copy, Debug, PartialEq, Eq, Structural)]
pub enum Expected {
    Object,
    Text,
    Unsigned,
    Signed,
    ScriptTypeTag,
}

impl Expected {
    /// The expectation in words.
    pub open spec fn text(self) -> Seq<char> {
        match self {
            Expected::Object => "a JSON object"@,
            Expected::Text => "a string"@,
            Expected::Unsigned => "an unsigned 64-bit integer"@,
            Expected::Signed => "a signed 64-bit integer"@,
            Expected::ScriptTypeTag => "a script type"@,
        }
    }

    fn words(&self) -> (text: &'static str)
        ensures
            text@ == self.text(),
    {
        match self {
            Expected::Object => "a JSON object",
            Expected::Text => "a string",
            Expected::Unsigned => "an unsigned 64-bit integer",
            Expected::Signed => "a signed 64-bit integer",
            Expected::ScriptTypeTag => "a script type",
        }
    }
}

/// A place where the document does not have the shape of a snapshot.
#[derive(Clone, Debug, PartialEq, Eq)]
pub enum SchemaError {
    /// The document is not a JSON object.
    Document,
    /// The entry under this reference is not a JSON object.
    Entry { utxo_ref: String },
    /// A required member is absent.
    Missing { utxo_ref: String, field: String },
    /// A member is not what the schema expects there.
    Mistyped { utxo_ref: String, field: String, expected: Expected },
}

pub enum SchemaErrorView {
    Document,
    Entry { utxo_ref: Seq<char> },
    Missing { utxo_ref: Seq<char>, field: Seq<char> },
    Mistyped { utxo_ref: Seq<char>, field: Seq<char>, expected: Expected },
}

impl DeepView for SchemaError {
    type V = SchemaErrorView;

    open spec fn deep_view(&self) -> SchemaErrorView {
        match self {
            SchemaError::Document => SchemaErrorView::Document,
            SchemaError::Entry { utxo_ref } => SchemaErrorView::Entry { utxo_ref: utxo_ref@ },
            SchemaError::Missing { utxo_ref, field } => SchemaErrorView::Missing {
                utxo_ref: utxo_ref@,
                field: field@,
            },
            SchemaError::Mistyped { utxo_ref, field, expected } => SchemaErrorView::Mistyped {
                utxo_ref: utxo_ref@,
                field: field@,
                expected: *expected,
            },
        }
    }
}

impl SchemaErrorView {
    /// The message of the fault.
    pub open spec fn text(self) -> Seq<char> {
        match self {
            SchemaErrorView::Document => "the document is not a JSON object"@,
            SchemaErrorView::Entry { utxo_ref } => "UTxO "@ + utxo_ref
                + ": the entry is not a JSON object"@,
            SchemaErrorView::Missing { utxo_ref, field } => "UTxO "@ + utxo_ref
                + ": missing field `"@ + field + "`"@,
            SchemaErrorView::Mistyped { utxo_ref, field, expected } => "UTxO "@ + utxo_ref
                + ": field `"@ + field + "` is not "@ + expected.text(),
        }
    }
}

impl SchemaError {
    /// The message of the fault, which names the UTxO reference and the
    /// member at fault.
    pub fn message(&self) -> (text: String)
        ensures
            text@ == self.deep_view().text(),
    {
        match self {
            SchemaError::Document => "the document is not a JSON object".to_owned(),
            SchemaError::Entry { utxo_ref } => {
                let mut text = join("UTxO ", utxo_ref.as_str());
                text.append(": the entry is not a JSON object");
                text
            },
            SchemaError::Missing { utxo_ref, field } => {
                let mut text = join("UTxO ", utxo_ref.as_str());
                text.append(": missing field `");
                text.append(field.as_str());
                text.append("`");
                text
            },
            SchemaError::Mistyped { utxo_ref, field, expected } => {
                let mut text = join("UTxO ", utxo_ref.as_str());
                text.append(": field `");
                text.append(field.as_str());
                text.append("` is not ");
                text.append(expected.words());
                text
            },
        }
    }
}

/// Why a document is malformed.
#[derive(Clone, Debug, PartialEq, Eq)]
pub enum DocumentError {
    /// The text is not JSON; the parser's message.
    Syntax(String),
    /// The text is JSON but not a snapshot.
    Schema(SchemaError),
}

pub enum DocumentErrorView {
    Syntax(Seq<char>),
    Schema(SchemaErrorView),
}

impl DeepView for DocumentError {
    type V = DocumentErrorView;

    open spec fn deep_view(&self) -> DocumentErrorView {
        match self {
            DocumentError::Syntax(message) => DocumentErrorView::Syntax(message@),
            DocumentError::Schema(fault) => DocumentErrorView::Schema(fault.deep_view()),
        }
    }
}

impl DocumentErrorView {
    /// The message: the parser's own, or that of the fault in the shape.
    pub open spec fn text(self) -> Seq<char> {
        match self {
            DocumentErrorView::Syntax(message) => message,
            DocumentErrorView::Schema(fault) => fault.text(),
        }
    }
}

impl DocumentError {
    /// The message: the parser's own, or that of the fault in the shape.
    pub fn message(&self) -> (text: String)
        ensures
            text@ == self.deep_view().text(),
    {
        match self {
            DocumentError::Syntax(message) => message.clone(),
            DocumentError::Schema(fault) => fault.message(),
        }
    }
}

/// The first violation that validation found.
#[derive(Clone, Debug, PartialEq, Eq)]
pub enum ValidationError {
    MalformedDocument(DocumentError),
    InvalidReferenceFormat { utxo_ref: String },
    EmptyAddress { utxo_ref: String },
    InvalidPolicyId { utxo_ref: String, policy_id: String },
    EmptyAssetMap { utxo_ref: String, policy_id: String },
    InvalidAssetName { utxo_ref: String, asset_name: String },
    InvalidScript { utxo_ref: String, fault: ScriptError },
    InvalidHexField { utxo_ref: String, field: HexField },
    /// The regex engine refused the pattern of UTxO references; its message.
    KeyPatternRejected(String),
}

pub enum ValidationErrorView {
    MalformedDocument(DocumentErrorView),
    InvalidReferenceFormat { utxo_ref: Seq<char> },
    EmptyAddress { utxo_ref: Seq<char> },
    InvalidPolicyId { utxo_ref: Seq<char>, policy_id: Seq<char> },
    EmptyAssetMap { utxo_ref: Seq<char>, policy_id: Seq<char> },
    InvalidAssetName { utxo_ref: Seq<char>, asset_name: Seq<char> },
    InvalidScript { utxo_ref: Seq<char>, fault: ScriptError },
    InvalidHexField { utxo_ref: Seq<char>, field: HexField },
    KeyPatternRejected(Seq<char>),
}

impl DeepView for ValidationError {
    type V = ValidationErrorView;

    open spec fn deep_view(&self) -> ValidationErrorView {
        match self {
            ValidationError::MalformedDocument(cause) => ValidationErrorView::MalformedDocument(
                cause.deep_view(),
            ),
            ValidationError::InvalidReferenceFormat { utxo_ref } => {
                ValidationErrorView::InvalidReferenceFormat { utxo_ref: utxo_ref@ }
            },
            ValidationError::EmptyAddress { utxo_ref } => ValidationErrorView::EmptyAddress {
                utxo_ref: utxo_ref@,
            },
            ValidationError::InvalidPolicyId { utxo_ref, policy_id } => {
                ValidationErrorView::InvalidPolicyId { utxo_ref: utxo_ref@, policy_id: policy_id@ }
            },
            ValidationError::EmptyAssetMap { utxo_ref, policy_id } => {
                ValidationErrorView::EmptyAssetMap { utxo_ref: utxo_ref@, policy_id: policy_id@ }
            },
            ValidationError::InvalidAssetName { utxo_ref, asset_name } => {
                ValidationErrorView::InvalidAssetName {
                    utxo_ref: utxo_ref@,
                    asset_name: asset_name@,
                }
            },
            ValidationError::InvalidScript { utxo_ref, fault } => {
                ValidationErrorView::InvalidScript { utxo_ref: utxo_ref@, fault: *fault }
            },
            ValidationError::InvalidHexField { utxo_ref, field } => {
                ValidationErrorView::InvalidHexField { utxo_ref: utxo_ref@, field: *field }
            },
            ValidationError::KeyPatternRejected(message) => ValidationErrorView::KeyPatternRejected(
                message@,
            ),
        }
    }
}

impl ValidationErrorView {
    /// The message of the violation.
    pub open spec fn text(self) -> Seq<char> {
        match self {
            ValidationErrorView::MalformedDocument(cause) => cause.text(),
            ValidationErrorView::InvalidReferenceFormat { utxo_ref } => "Invalid UTxO ref: "@
                + utxo_ref,
            ValidationErrorView::EmptyAddress { utxo_ref } => "Empty address in UTxO: "@
                + utxo_ref,
            ValidationErrorView::InvalidPolicyId { utxo_ref, policy_id } => {
                "Failed to validate value in UtxO "@ + utxo_ref + ": "@
                    + ValueErrorView::InvalidPolicyId(policy_id).text()
            },
            ValidationErrorView::EmptyAssetMap { utxo_ref, policy_id } => {
                "Failed to validate value in UtxO "@ + utxo_ref + ": "@
                    + ValueErrorView::EmptyAssetMap(policy_id).text()
            },
            ValidationErrorView::InvalidAssetName { utxo_ref, asset_name } => {
                "Failed to validate value in UtxO "@ + utxo_ref + ": "@
                    + ValueErrorView::InvalidAssetName(asset_name).text()
            },
            ValidationErrorView::InvalidScript { utxo_ref, fault } => {
                "Failed to validate script in UTxO "@ + utxo_ref + ": "@ + fault.text()
            },
            ValidationErrorView::InvalidHexField { utxo_ref, field } => field.heading()
                + utxo_ref,
            ValidationErrorView::KeyPatternRejected(message) => message,
        }
    }
}

/// The message of a violation inside the value of the output under `utxo_ref`.
fn value_message(utxo_ref: &str, fault: ValueError) -> (text: String)
    ensures
        text@ == "Failed to validate value in UtxO "@ + utxo_ref@ + ": "@
            + fault.deep_view().text(),
{
    let mut text = join("Failed to validate value in UtxO ", utxo_ref);
    text.append(": ");
    text.append(fault.message().as_str());
    text
}

impl ValidationError {
    /// The message of the violation. It names the UTxO reference, and the
    /// policy ID, asset name or field at fault.
    pub fn message(&self) -> (text: String)
        ensures
            text@ == self.deep_view().text(),
    {
        match self {
            ValidationError::MalformedDocument(cause) => cause.message(),
            ValidationError::InvalidReferenceFormat { utxo_ref } => join(
                "Invalid UTxO ref: ",
                utxo_ref.as_str(),
            ),
            ValidationError::EmptyAddress { utxo_ref } => join(
                "Empty address in UTxO: ",
                utxo_ref.as_str(),
            ),
            ValidationError::InvalidPolicyId { utxo_ref, policy_id } => value_message(
                utxo_ref.as_str(),
                ValueError::InvalidPolicyId(policy_id.clone()),
            ),
            ValidationError::EmptyAssetMap { utxo_ref, policy_id } => value_message(
                utxo_ref.as_str(),
                ValueError::EmptyAssetMap(policy_id.clone()),
            ),
            ValidationError::InvalidAssetName { utxo_ref, asset_name } => value_message(
                utxo_ref.as_str(),
                ValueError::InvalidAssetName(asset_name.clone()),
            ),
            ValidationError::InvalidScript { utxo_ref, fault } => {
                let mut text = join("Failed to validate script in UTxO ", utxo_ref.as_str());
                text.append(": ");
                text.append(fault.message().as_str());
                text
            },
            ValidationError::InvalidHexField { utxo_ref, field } => join(
                field.heading_text(),
                utxo_ref.as_str(),
            ),
            ValidationError::KeyPatternRejected(message) => message.clone(),
        }
    }
}

/// A result reports a fault: `Ok` where there is none, else the fault itself.
pub open spec fn reports<E: DeepView>(result: Result<(), E>, fault: Option<E::V>) -> bool {
    match result {
        Ok(_) => fault is None,
        Err(e) => fault == Some(e.deep_view()),
    }
}

} // verus!
