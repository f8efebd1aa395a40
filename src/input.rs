//! Script inputs given on the command line as `name=value`.

use vstd::prelude::*;
use vstd::string::StrSliceExecFns;
use crate::errors::Error;
use crate::text::{find_char, first_index_of};

verus! {

/// Is `s` a complete JSON text?
pub uninterp spec fn is_json_text(s: Seq<char>) -> bool;

/// Relies on `serde_json::from_str` into `serde_json::Value`: the value
/// written `s`, or `None` where `s` is not JSON.
#[verifier::external_body]
fn parse_json(s: &str) -> (r: Option<serde_json::Value>)
    ensures
        r is Some == is_json_text(s@),
{
    serde_json::from_str::<serde_json::Value>(s).ok()
}

/// Relies on `serde_json::Value::String`: the JSON string holding `s`.
#[verifier::external_body]
fn string_value(s: String) -> serde_json::Value {
    serde_json::Value::String(s)
}

/// An input argument for a script execution.
#[derive(Debug)]
pub struct ExecutionInput {
    /// The name of this input.
    pub name: String,
    /// The JSON value of this input.
    pub value: serde_json::Value,
}

impl ExecutionInput {
    /// Read `name=value`: the name is what precedes the first `=`; the
    /// value is what follows it, read as JSON where it is JSON, and taken
    /// as a JSON string otherwise. Without `=`, `InvalidInput`.
    pub fn parse(s: &str) -> (r: Result<ExecutionInput, Error>)
        ensures
            match first_index_of(s@, '=') {
                Some(k) => match r {
                    Ok(input) => input.name@ == s@.take(k),
                    Err(_) => false,
                },
                None => match r {
                    Err(Error::InvalidInput { input }) => input@ == s@,
                    _ => false,
                },
            },
    {
        match find_char(s, '=') {
            None => Err(Error::InvalidInput { input: s.to_owned() }),
            Some(k) => {
                let n = s.unicode_len();
                let name = s.substring_char(0, k).to_owned();
                let text = s.substring_char(k + 1, n);
                let value = match parse_json(text) {
                    Some(v) => v,
                    None => string_value(text.to_owned()),
                };
                Ok(ExecutionInput { name, value })
            },
        }
    }
}

impl std::str::FromStr for ExecutionInput {
    type Err = Error;

    fn from_str(s: &str) -> Result<ExecutionInput, Error> {
        ExecutionInput::parse(s)
    }
}

} // verus!
