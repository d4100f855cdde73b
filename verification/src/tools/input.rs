//! Reading the arguments that a model passes to a tool.
use vstd::prelude::*;
use crate::json::{field_str, Json};
use crate::text::concat3;

verus! {

/// The answer of a tool called without a required string argument.
pub open spec fn missing_param_text(key: Seq<char>) -> Seq<char> {
    "error: missing required parameter \""@ + key + "\""@
}

/// The string argument `key`, or the answer for its absence.
pub fn required_str(input: &Json, key: &str) -> (r: Result<String, String>)
    ensures
        match r {
            Ok(v) => field_str(input@, key@) == Some(v@),
            Err(e) => field_str(input@, key@) is None && e@ == missing_param_text(key@),
        },
{
    match input.str_field(key) {
        Some(v) => Ok(v),
        None => Err(concat3("error: missing required parameter \"", key, "\"")),
    }
}

} // verus!
