//! The clipboard tools: their argument and the text they answer. The system
//! clipboard itself is reached by the caller.
use vstd::prelude::*;
use crate::json::{field_str, Json};
use crate::text::owned;
use crate::tools::filesystem::{error_message, error_text};
use crate::tools::input::{missing_param_text, required_str};

verus! {

/// `clipboard_read`: the text on the system clipboard.
pub struct ClipboardReadTool;

/// `clipboard_write`: puts text on the system clipboard.
pub struct ClipboardWriteTool;

impl ClipboardReadTool {
    pub fn name(&self) -> (r: &'static str)
        ensures
            r@ == "clipboard_read"@,
    {
        "clipboard_read"
    }

    pub fn description(&self) -> (r: &'static str)
        ensures
            r@ == "Read the current text content of the system clipboard."@,
    {
        "Read the current text content of the system clipboard."
    }

    /// The answer for what the clipboard gave: its text, or the error.
    pub fn output(&self, read: Result<String, String>) -> (r: String)
        ensures
            match read {
                Ok(t) => r@ == t@,
                Err(e) => r@ == error_text(e@),
            },
    {
        match read {
            Ok(t) => t,
            Err(e) => error_message(e.as_str()),
        }
    }
}

impl ClipboardWriteTool {
    pub fn name(&self) -> (r: &'static str)
        ensures
            r@ == "clipboard_write"@,
    {
        "clipboard_write"
    }

    pub fn description(&self) -> (r: &'static str)
        ensures
            r@ == "Write text to the system clipboard."@,
    {
        "Write text to the system clipboard."
    }

    /// The text to put on the clipboard, or the answer for its absence.
    pub fn text(&self, input: &Json) -> (r: Result<String, String>)
        ensures
            match r {
                Ok(t) => field_str(input@, "text"@) == Some(t@),
                Err(e) => field_str(input@, "text"@) is None && e@ == missing_param_text("text"@),
            },
    {
        required_str(input, "text")
    }

    /// The answer once the text was put on the clipboard, or the error.
    pub fn output(&self, written: Result<(), String>) -> (r: String)
        ensures
            match written {
                Ok(_) => r@ == "ok: text copied to clipboard"@,
                Err(e) => r@ == error_text(e@),
            },
    {
        match written {
            Ok(_) => owned("ok: text copied to clipboard"),
            Err(e) => error_message(e.as_str()),
        }
    }
}

} // verus!
