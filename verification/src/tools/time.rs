//! The `get_current_time` tool.
use vstd::prelude::*;
use crate::clock::{is_rfc3339_utc, now_rfc3339};

verus! {

/// `get_current_time`: the current date and time.
pub struct TimeTool;

impl TimeTool {
    pub fn name(&self) -> (r: &'static str)
        ensures
            r@ == "get_current_time"@,
    {
        "get_current_time"
    }

    pub fn description(&self) -> (r: &'static str)
        ensures
            r@ == "Returns the current date and time in ISO 8601 format (UTC)"@,
    {
        "Returns the current date and time in ISO 8601 format (UTC)"
    }

    /// The current time in UTC, in RFC 3339 form.
    pub fn execute(&self) -> (r: String)
        ensures
            is_rfc3339_utc(r@),
    {
        now_rfc3339()
    }
}

} // verus!
