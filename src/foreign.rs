//! Types of other crates that values of this library carry through.

use vstd::prelude::*;

verus! {

/// The URL parse error of the `url` crate.
#[verifier::external_type_specification]
#[verifier::external_body]
pub struct ExParseError(url::ParseError);

/// The compiled regular expression type of the `regex` crate.
#[verifier::external_type_specification]
#[verifier::external_body]
pub struct ExRegex(regex::Regex);

/// The JSON value type of the `serde_json` crate.
#[verifier::external_type_specification]
#[verifier::external_body]
pub struct ExValue(serde_json::Value);

} // verus!
