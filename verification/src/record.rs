//! The values a parse produces: typed values, the record that holds them,
//! and the outcome of a scan.
use vstd::prelude::*;

verus! {

/// One coerced value.
#[derive(Clone, Debug, PartialEq, Eq)]
pub enum Value {
    /// A signed integer of any width.
    Signed(i128),
    /// An unsigned integer of any width.
    Unsigned(u128),
    /// A UTF-8 string.
    Text(String),
    /// A platform string, held as the token it was given as.
    Platform(String),
    /// A filesystem path, held as the token it was given as.
    Path(String),
}

/// A [`Value`] as a plain mathematical value.
pub enum ValueModel {
    Signed(int),
    Unsigned(int),
    Text(Seq<char>),
    Platform(Seq<char>),
    Path(Seq<char>),
}

impl View for Value {
    type V = ValueModel;

    open spec fn view(&self) -> ValueModel {
        match self {
            Value::Signed(v) => ValueModel::Signed(*v as int),
            Value::Unsigned(v) => ValueModel::Unsigned(*v as int),
            Value::Text(s) => ValueModel::Text(s@),
            Value::Platform(s) => ValueModel::Platform(s@),
            Value::Path(s) => ValueModel::Path(s@),
        }
    }
}

/// The view of a value that may be absent.
pub open spec fn slot_view(slot: Option<Value>) -> Option<ValueModel> {
    match slot {
        Some(v) => Some(v@),
        None => None,
    }
}

/// The views of a list of values.
pub open spec fn values_view(values: Seq<Value>) -> Seq<ValueModel> {
    values.map_values(|v: Value| v@)
}

/// The views of a list of values that may be absent.
pub open spec fn slots_view(slots: Seq<Option<Value>>) -> Seq<Option<ValueModel>> {
    slots.map_values(|s: Option<Value>| slot_view(s))
}

/// What a successful parse hands back.
#[derive(Clone, Debug, PartialEq, Eq)]
pub struct ParsedRecord {
    /// One boolean per declared flag, in the plan's order.
    pub flags: Vec<bool>,
    /// One value per declared option, in the plan's order; `None` where the
    /// option was not given.
    pub options: Vec<Option<Value>>,
    /// The positional values, in the order of the tokens.
    pub positional: Vec<Value>,
}

/// A [`ParsedRecord`] as plain mathematical values.
pub struct RecordModel {
    pub flags: Seq<bool>,
    pub options: Seq<Option<ValueModel>>,
    pub positional: Seq<ValueModel>,
}

impl View for ParsedRecord {
    type V = RecordModel;

    open spec fn view(&self) -> RecordModel {
        RecordModel {
            flags: self.flags@,
            options: slots_view(self.options@),
            positional: values_view(self.positional@),
        }
    }
}

/// How a scan ends when it does not fail.
#[derive(Clone, Debug, PartialEq, Eq)]
pub enum Outcome {
    /// The help was asked for; the caller prints the plan's help text.
    Help,
    /// The version was asked for; the caller prints the plan's version line.
    Version,
    /// The tokens gave a record.
    Record(ParsedRecord),
}

/// An [`Outcome`] as plain mathematical values.
pub enum OutcomeModel {
    Help,
    Version,
    Record(RecordModel),
}

impl View for Outcome {
    type V = OutcomeModel;

    open spec fn view(&self) -> OutcomeModel {
        match self {
            Outcome::Help => OutcomeModel::Help,
            Outcome::Version => OutcomeModel::Version,
            Outcome::Record(r) => OutcomeModel::Record(r@),
        }
    }
}

} // verus!
