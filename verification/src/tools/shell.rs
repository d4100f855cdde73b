//! The `run_shell_command` tool: its argument, the program line that runs the
//! command, and the text it answers.
use vstd::prelude::*;
use crate::json::{field_str, Json};
use crate::text::{concat2, i64_to_text, int_dec_seq, owned, push_str, utf8_lossy, utf8_lossy_seq};
use crate::tools::ssh::shown_code;

verus! {

/// `run_shell_command`: runs a command in the system shell.
pub struct ShellTool;

impl ShellTool {
    pub fn name(&self) -> (r: &'static str)
        ensures
            r@ == "run_shell_command"@,
    {
        "run_shell_command"
    }

    pub fn description(&self) -> (r: &'static str)
        ensures
            r@ == "Executes a shell command on the user's machine and returns stdout/stderr output"@,
    {
        "Executes a shell command on the user's machine and returns stdout/stderr output"
    }
}

/// The answer when the command argument is missing.
pub open spec fn missing_command_text() -> Seq<char> {
    "Error: 'command' field is required"@
}

/// The `command` argument, or the answer for its absence.
pub fn shell_command(input: &Json) -> (r: Result<String, String>)
    ensures
        match r {
            Ok(c) => field_str(input@, "command"@) == Some(c@),
            Err(e) => field_str(input@, "command"@) is None && e@ == missing_command_text(),
        },
{
    match input.str_field("command") {
        Some(c) => Ok(c),
        None => Err(owned("Error: 'command' field is required")),
    }
}

/// The program and arguments that run `command`: PowerShell on Windows,
/// `sh -c` elsewhere.
pub fn shell_invocation(command: &str, windows: bool) -> (r: (String, Vec<String>))
    ensures
        windows ==> r.0@ == "powershell"@ && r.1@.map_values(|s: String| s@) == seq![
            "-NoProfile"@,
            "-NonInteractive"@,
            "-Command"@,
            command@,
        ],
        !windows ==> r.0@ == "sh"@ && r.1@.map_values(|s: String| s@) == seq!["-c"@, command@],
{
    let mut args: Vec<String> = Vec::new();
    if windows {
        args.push(owned("-NoProfile"));
        args.push(owned("-NonInteractive"));
        args.push(owned("-Command"));
        args.push(owned(command));
        assert(args@.map_values(|s: String| s@) =~= seq![
            "-NoProfile"@,
            "-NonInteractive"@,
            "-Command"@,
            command@,
        ]);
        (owned("powershell"), args)
    } else {
        args.push(owned("-c"));
        args.push(owned(command));
        assert(args@.map_values(|s: String| s@) =~= seq!["-c"@, command@]);
        (owned("sh"), args)
    }
}

/// What the tool answers for a finished command: the exit code and the
/// output, with the standard error shown apart when there is any.
pub open spec fn shell_output_text(code: Option<i32>, stdout: Seq<char>, stderr: Seq<char>) -> Seq<char> {
    let head = "exit code: "@ + int_dec_seq(shown_code(code));
    if stderr.len() == 0 {
        head + "\n"@ + stdout
    } else {
        head + "\nstdout:\n"@ + stdout + "\nstderr:\n"@ + stderr
    }
}

/// The answer for the command's exit code and output bytes.
pub fn shell_output(code: Option<i32>, stdout: &[u8], stderr: &[u8]) -> (r: String)
    ensures
        r@ == shell_output_text(code, utf8_lossy_seq(stdout@), utf8_lossy_seq(stderr@)),
{
    let out = utf8_lossy(stdout);
    let err = utf8_lossy(stderr);
    let c: i64 = match code {
        Some(c) => c as i64,
        None => -1,
    };
    let mut r = concat2("exit code: ", i64_to_text(c).as_str());
    if err.unicode_len() == 0 {
        push_str(&mut r, "\n");
        push_str(&mut r, out.as_str());
    } else {
        push_str(&mut r, "\nstdout:\n");
        push_str(&mut r, out.as_str());
        push_str(&mut r, "\nstderr:\n");
        push_str(&mut r, err.as_str());
    }
    r
}

/// The answer when the shell cannot be started.
pub fn shell_spawn_error(err: &str) -> (r: String)
    ensures
        r@ == "Failed to execute command: "@ + err@,
{
    concat2("Failed to execute command: ", err)
}

} // verus!
