//! JSON values as the validation rules see them.
use vstd::prelude::*;

verus! {

/// The kind of a JSON value.
#[derive(Clone, Copy, Debug, PartialEq, Eq, Structural)]
pub enum JsonKind {
    Null,
    Bool,
    Number,
    String,
    Array,
    Object,
}

impl JsonKind {
    /// Strings, numbers and booleans.
    pub open spec fn is_primitive(self) -> bool {
        self == JsonKind::String || self == JsonKind::Number || self == JsonKind::Bool
    }

    pub fn primitive(&self) -> (r: bool)
        ensures
            r == self.is_primitive(),
    {
        match self {
            JsonKind::String | JsonKind::Number | JsonKind::Bool => true,
            _ => false,
        }
    }
}

/// A JSON value, held as what the rules read of it: its kind, the kinds of
/// its items when it is an array (empty otherwise), and its compact encoding
/// as `serde_json::to_string` writes it.
#[derive(Clone, Debug)]
pub struct JsonValue {
    pub kind: JsonKind,
    pub items: Vec<JsonKind>,
    pub encoded: String,
}

} // verus!
