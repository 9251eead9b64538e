//! The formats in which data is stored.
use vstd::prelude::*;

verus! {

/// A format of stored data.
#[derive(Copy, Clone, Debug, PartialEq, Eq, Structural)]
pub enum DataFormat {
    /// Json format via serde_json.
    Json,
    /// Pretty Json format via serde_json.
    JsonPretty,
    /// Default binary format via bincode.
    Bincode,
}

impl DataFormat {
    /// The format is a text, Json, which can be held in a `String`; bincode cannot.
    pub fn is_text(&self) -> (r: bool)
        ensures
            r == (*self != DataFormat::Bincode),
    {
        match self {
            DataFormat::Json | DataFormat::JsonPretty => true,
            DataFormat::Bincode => false,
        }
    }
}

} // verus!
