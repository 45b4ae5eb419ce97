//! Payload encodings.
use vstd::prelude::*;

verus! {

/// Why a value could not be turned into a payload, or back.
#[derive(Debug)]
pub enum ConverterError {
    /// The value could not be written.
    Encode(String),
    /// The bytes could not be read.
    Decode(String),
}

impl ConverterError {
    /// The message of this error.
    pub open spec fn message(self) -> Seq<char> {
        match self {
            ConverterError::Encode(why) => "encode failed: "@ + why@,
            ConverterError::Decode(why) => "decode failed: "@ + why@,
        }
    }

    /// Writes the message of this error.
    pub fn to_string(&self) -> (s: String)
        ensures
            s@ == self.message(),
    {
        match self {
            ConverterError::Encode(why) => "encode failed: ".to_owned().concat(why.as_str()),
            ConverterError::Decode(why) => "decode failed: ".to_owned().concat(why.as_str()),
        }
    }
}

/// Writes values as JSON.
#[derive(Debug, Clone, Copy)]
pub struct JsonConverter;

impl JsonConverter {
    /// The encoding hint of payloads written by this converter.
    pub fn encoding(&self) -> (s: &'static str)
        ensures
            s@ == "json"@,
    {
        "json"
    }
}

} // verus!
