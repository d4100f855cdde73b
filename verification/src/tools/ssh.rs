//! The SSH tools: the `~/.ssh/config` parser, and the argument building and
//! output formatting of `ssh_list_hosts`, `ssh_exec`, `ssh_upload` and
//! `ssh_download`.
use vstd::prelude::*;
use crate::json::{field_str, field_u64, Json};
use crate::text::{
    chars_of, concat2, concat3, contains_char, dec_seq, i64_to_text, int_dec_seq, is_whitespace, is_ws,
    join, join_seq, lines, lines_seq, lower_text, owned, parse_u16, parse_u16_seq, push_str,
    str_eq, string_of, string_of_range, to_lowercase, trim, trim_seq, u64_to_text, utf8_lossy,
    utf8_lossy_seq,
};
use crate::tools::input::{missing_param_text, required_str};

verus! {

/// A host entry of the SSH configuration.
pub struct SshHost {
    pub alias: String,
    pub hostname: Option<String>,
    pub user: Option<String>,
    pub port: Option<u16>,
    pub identity_file: Option<String>,
}

/// The view of a host entry.
pub struct HostV {
    pub alias: Seq<char>,
    pub hostname: Option<Seq<char>>,
    pub user: Option<Seq<char>>,
    pub port: Option<u16>,
    pub identity_file: Option<Seq<char>>,
}

impl View for SshHost {
    type V = HostV;

    open spec fn view(&self) -> HostV {
        HostV {
            alias: self.alias@,
            hostname: self.hostname.deep_view(),
            user: self.user.deep_view(),
            port: self.port,
            identity_file: self.identity_file.deep_view(),
        }
    }
}

impl DeepView for SshHost {
    type V = HostV;

    open spec fn deep_view(&self) -> HostV {
        self@
    }
}

/// The position of the first whitespace character.
pub open spec fn first_ws(s: Seq<char>) -> Option<int>
    decreases s.len(),
{
    if s.len() == 0 {
        None
    } else if is_ws(s[0]) {
        Some(0)
    } else {
        match first_ws(s.drop_first()) {
            Some(i) => Some(i + 1),
            None => None,
        }
    }
}

/// The directive on a line: its keyword in lower case and its value. Blank
/// lines, comments and lines without whitespace after the keyword have none.
pub open spec fn directive(line: Seq<char>) -> Option<(Seq<char>, Seq<char>)> {
    let t = trim_seq(line);
    if t.len() == 0 || t[0] == '#' {
        None
    } else {
        match first_ws(t) {
            None => None,
            Some(i) => Some((lower_text(t.take(i)), trim_seq(t.skip(i + 1)))),
        }
    }
}

/// Whether a host entry is listed: wildcard patterns are not.
pub open spec fn listed(h: HostV) -> bool {
    h.alias != "*"@ && !h.alias.contains('*') && !h.alias.contains('?')
}

/// The entries found so far and the entry being read.
pub type ScanState = (Seq<HostV>, Option<HostV>);

/// `hosts` with `current` added when it is listed.
pub open spec fn close_entry(hosts: Seq<HostV>, current: Option<HostV>) -> Seq<HostV> {
    match current {
        Some(h) => if listed(h) {
            hosts.push(h)
        } else {
            hosts
        },
        None => hosts,
    }
}

/// The effect of one directive. `Host` closes the current entry and opens a
/// new one; `HostName`, `User`, `Port` and `IdentityFile` set a field of the
/// current entry (a `Port` that does not parse clears it); anything else,
/// and any directive before the first `Host`, changes nothing.
pub open spec fn apply_directive(st: ScanState, key: Seq<char>, value: Seq<char>) -> ScanState {
    if key == "host"@ {
        (
            close_entry(st.0, st.1),
            Some(
                HostV { alias: value, hostname: None, user: None, port: None, identity_file: None },
            ),
        )
    } else if key == "hostname"@ {
        (st.0, match st.1 {
            Some(h) => Some(HostV { hostname: Some(value), ..h }),
            None => None,
        })
    } else if key == "user"@ {
        (st.0, match st.1 {
            Some(h) => Some(HostV { user: Some(value), ..h }),
            None => None,
        })
    } else if key == "port"@ {
        (st.0, match st.1 {
            Some(h) => Some(HostV { port: parse_u16_seq(value), ..h }),
            None => None,
        })
    } else if key == "identityfile"@ {
        (st.0, match st.1 {
            Some(h) => Some(HostV { identity_file: Some(value), ..h }),
            None => None,
        })
    } else {
        st
    }
}

/// The state after reading `lines`.
pub open spec fn scan(lines: Seq<Seq<char>>) -> ScanState
    decreases lines.len(),
{
    if lines.len() == 0 {
        (Seq::empty(), None)
    } else {
        let st = scan(lines.drop_last());
        match directive(lines.last()) {
            Some((k, v)) => apply_directive(st, k, v),
            None => st,
        }
    }
}

/// The listed host entries of an SSH configuration, in order.
pub open spec fn ssh_hosts(content: Seq<char>) -> Seq<HostV> {
    let st = scan(lines_seq(content));
    close_entry(st.0, st.1)
}

/// The position of the first whitespace character of `cs`.
fn find_ws(cs: &[char]) -> (r: Option<usize>)
    ensures
        match r {
            Some(i) => i < cs@.len() && first_ws(cs@) == Some(i as int),
            None => first_ws(cs@) is None,
        },
{
    let mut i: usize = 0;
    assert(cs@.skip(0) =~= cs@);
    while i < cs.len()
        invariant
            i <= cs@.len(),
            first_ws(cs@) == match first_ws(cs@.skip(i as int)) {
                Some(k) => Some(k + i),
                None => None,
            },
        decreases cs@.len() - i,
    {
        assert(cs@.skip(i as int)[0] == cs@[i as int]);
        assert(cs@.skip(i as int).drop_first() =~= cs@.skip(i + 1));
        if is_whitespace(cs[i]) {
            return Some(i);
        }
        i = i + 1;
    }
    None
}

fn entry_listed(h: &SshHost) -> (r: bool)
    ensures
        r == listed(h@),
{
    !str_eq(h.alias.as_str(), "*") && !contains_char(h.alias.as_str(), '*') && !contains_char(
        h.alias.as_str(),
        '?',
    )
}

/// The directive of a line, if it has one.
fn line_directive(line: &str) -> (r: Option<(String, String)>)
    ensures
        match r {
            Some((k, v)) => directive(line@) == Some((k@, v@)),
            None => directive(line@) is None,
        },
{
    let t = trim(line);
    let cs = chars_of(t.as_str());
    if cs.len() == 0 || cs[0] == '#' {
        return None;
    }
    match find_ws(cs.as_slice()) {
        None => None,
        Some(i) => {
            let key_raw = string_of_range(cs.as_slice(), 0, i);
            let rest = string_of_range(cs.as_slice(), i + 1, cs.len());
            assert(cs@.subrange(0, i as int) =~= cs@.take(i as int));
            assert(cs@.subrange(i + 1, cs@.len() as int) =~= cs@.skip(i + 1));
            Some((to_lowercase(key_raw.as_str()), trim(rest.as_str())))
        },
    }
}

/// Parses the text of an SSH configuration into its listed host entries.
pub fn parse_ssh_config(content: &str) -> (r: Vec<SshHost>)
    ensures
        r.deep_view() == ssh_hosts(content@),
{
    let ls = lines(content);
    let ghost lv = lines_seq(content@);
    let mut hosts: Vec<SshHost> = Vec::new();
    let mut current: Option<SshHost> = None;
    let mut i: usize = 0;
    while i < ls.len()
        invariant
            i <= ls@.len(),
            lv == lines_seq(content@),
            ls@.len() == lv.len(),
            forall|k: int| 0 <= k < ls@.len() ==> #[trigger] ls@[k]@ == lv[k],
            (hosts.deep_view(), current.deep_view()) == scan(lv.take(i as int)),
        decreases ls@.len() - i,
    {
        assert(lv.take(i + 1).drop_last() =~= lv.take(i as int));
        assert(lv.take(i + 1).last() == ls@[i as int]@);
        let line = string_of(ls[i].as_slice());
        match line_directive(line.as_str()) {
            None => {},
            Some((key, value)) => {
                if str_eq(key.as_str(), "host") {
                    match current {
                        Some(h) => {
                            if entry_listed(&h) {
                                hosts.push(h);
                            }
                        },
                        None => {},
                    }
                    current = Some(
                        SshHost {
                            alias: value,
                            hostname: None,
                            user: None,
                            port: None,
                            identity_file: None,
                        },
                    );
                } else if str_eq(key.as_str(), "hostname") {
                    if let Some(h) = &mut current {
                        h.hostname = Some(value);
                    }
                } else if str_eq(key.as_str(), "user") {
                    if let Some(h) = &mut current {
                        h.user = Some(value);
                    }
                } else if str_eq(key.as_str(), "port") {
                    if let Some(h) = &mut current {
                        h.port = parse_u16(value.as_str());
                    }
                } else if str_eq(key.as_str(), "identityfile") {
                    if let Some(h) = &mut current {
                        h.identity_file = Some(value);
                    }
                }
            },
        }
        i = i + 1;
    }
    assert(lv.take(ls@.len() as int) =~= lv);
    match current {
        Some(h) => {
            if entry_listed(&h) {
                hosts.push(h);
            }
        },
        None => {},
    }
    hosts
}

// ---------------------------------------------------------------------------
// ssh_list_hosts
// ---------------------------------------------------------------------------

/// The path of the SSH configuration under a home directory.
pub fn ssh_config_path(home: &str) -> (r: String)
    ensures
        r@ == home@ + "/.ssh/config"@,
{
    concat2(home, "/.ssh/config")
}

/// The message when the configuration cannot be read.
pub fn config_read_error(path: &str, err: &str) -> (r: String)
    ensures
        r@ == "could not read "@ + path@ + ": "@ + err@,
{
    let mut r = concat2("could not read ", path);
    push_str(&mut r, ": ");
    push_str(&mut r, err);
    r
}

/// What a host line says besides its alias: host name, user and port.
pub open spec fn host_meta(h: HostV) -> Seq<Seq<char>> {
    let a: Seq<Seq<char>> = match h.hostname {
        Some(n) => seq![n],
        None => Seq::empty(),
    };
    let b = match h.user {
        Some(u) => a.push("user: "@ + u),
        None => a,
    };
    match h.port {
        Some(p) => b.push("port: "@ + dec_seq(p as nat)),
        None => b,
    }
}

/// A host as `ssh_list_hosts` shows it: `alias (host name, user: u, port: p)`,
/// or the alias alone.
pub open spec fn host_line_text(h: HostV) -> Seq<char> {
    let meta = host_meta(h);
    if meta.len() == 0 {
        h.alias
    } else {
        h.alias + " ("@ + join_seq(meta, ", "@) + ")"@
    }
}

/// The line that shows a host.
pub fn host_line(h: &SshHost) -> (r: String)
    ensures
        r@ == host_line_text(h@),
{
    let mut meta: Vec<String> = Vec::new();
    match &h.hostname {
        Some(n) => meta.push(n.clone()),
        None => {},
    }
    match &h.user {
        Some(u) => meta.push(concat2("user: ", u.as_str())),
        None => {},
    }
    match h.port {
        Some(p) => meta.push(concat2("port: ", u64_to_text(p as u64).as_str())),
        None => {},
    }
    assert(meta@.map_values(|p: String| p@) =~= host_meta(h@));
    if meta.len() == 0 {
        h.alias.clone()
    } else {
        let mut r = concat2(h.alias.as_str(), " (");
        push_str(&mut r, join(meta.as_slice(), ", ").as_str());
        push_str(&mut r, ")");
        r
    }
}

pub open spec fn host_lines(hosts: Seq<HostV>) -> Seq<Seq<char>> {
    hosts.map_values(|h: HostV| host_line_text(h))
}

/// What `ssh_list_hosts` answers for the hosts found.
pub open spec fn list_hosts_text(hosts: Seq<HostV>) -> Seq<char> {
    if hosts.len() == 0 {
        "no hosts found in ~/.ssh/config (only wildcard Host * entries were skipped)"@
    } else {
        "Found "@ + dec_seq(hosts.len()) + " host(s). Pass these as choices to present_choices:\n"@
            + join_seq(host_lines(hosts), "\n"@)
    }
}

/// The answer of `ssh_list_hosts`: the hosts, one per line, or the error
/// met reading the configuration.
pub fn list_hosts_output(read: Result<Vec<SshHost>, String>) -> (r: String)
    ensures
        match read {
            Err(e) => r@ == "error: "@ + e@,
            Ok(hosts) => r@ == list_hosts_text(hosts.deep_view()),
        },
{
    match read {
        Err(e) => concat2("error: ", e.as_str()),
        Ok(hosts) => {
            if hosts.len() == 0 {
                return owned(
                    "no hosts found in ~/.ssh/config (only wildcard Host * entries were skipped)",
                );
            }
            let mut lines_out: Vec<String> = Vec::new();
            let mut i: usize = 0;
            while i < hosts.len()
                invariant
                    i <= hosts@.len(),
                    lines_out@.len() == i,
                    forall|k: int|
                        0 <= k < i ==> (#[trigger] lines_out@[k])@ == host_line_text(hosts@[k]@),
                decreases hosts@.len() - i,
            {
                lines_out.push(host_line(&hosts[i]));
                i = i + 1;
            }
            assert(lines_out@.map_values(|p: String| p@) =~= host_lines(hosts.deep_view()));
            let mut r = concat2("Found ", u64_to_text(hosts.len() as u64).as_str());
            push_str(&mut r, " host(s). Pass these as choices to present_choices:\n");
            push_str(&mut r, join(lines_out.as_slice(), "\n").as_str());
            r
        },
    }
}

// ---------------------------------------------------------------------------
// ssh_exec
// ---------------------------------------------------------------------------

/// What `ssh_exec` was asked: host, command and connection timeout.
pub struct SshExecRequest {
    pub host: String,
    pub command: String,
    pub timeout_secs: u64,
}

/// Reads the arguments of `ssh_exec`: `host` and `command` are required;
/// `timeout_secs` defaults to 15.
pub fn exec_request(input: &Json) -> (r: Result<SshExecRequest, String>)
    ensures
        match r {
            Ok(q) => field_str(input@, "host"@) == Some(q.host@) && field_str(input@, "command"@)
                == Some(q.command@) && q.timeout_secs == match field_u64(input@, "timeout_secs"@) {
                Some(t) => t,
                None => 15,
            },
            Err(e) => if field_str(input@, "host"@) is None {
                e@ == missing_param_text("host"@)
            } else {
                field_str(input@, "command"@) is None && e@ == missing_param_text("command"@)
            },
        },
{
    let host = required_str(input, "host")?;
    let command = required_str(input, "command")?;
    let timeout_secs = match input.u64_field("timeout_secs") {
        Some(t) => t,
        None => 15,
    };
    Ok(SshExecRequest { host, command, timeout_secs })
}

/// Whether some host has the alias `host`.
pub fn host_known(hosts: &Vec<SshHost>, host: &str) -> (r: bool)
    ensures
        r == exists|i: int| 0 <= i < hosts@.len() && #[trigger] hosts@[i].alias@ == host@,
{
    let mut i: usize = 0;
    while i < hosts.len()
        invariant
            i <= hosts@.len(),
            forall|k: int| 0 <= k < i ==> hosts@[k].alias@ != host@,
        decreases hosts@.len() - i,
    {
        if str_eq(hosts[i].alias.as_str(), host) {
            return true;
        }
        i = i + 1;
    }
    false
}

/// The error for a host that the configuration does not define.
pub fn unknown_host_error(host: &str) -> (r: String)
    ensures
        r@ == "error: host \""@ + host@
            + "\" not found in ~/.ssh/config. Use ssh_list_hosts to see available hosts."@,
{
    concat3(
        "error: host \"",
        host,
        "\" not found in ~/.ssh/config. Use ssh_list_hosts to see available hosts.",
    )
}

/// The arguments of the `ssh` command for a request.
pub fn ssh_args(q: &SshExecRequest) -> (r: Vec<String>)
    ensures
        r@.map_values(|a: String| a@) == seq![
            "-o"@,
            "BatchMode=yes"@,
            "-o"@,
            "ConnectTimeout="@ + dec_seq(q.timeout_secs as nat),
            "-o"@,
            "StrictHostKeyChecking=accept-new"@,
            q.host@,
            q.command@,
        ],
{
    let mut r: Vec<String> = Vec::new();
    r.push(owned("-o"));
    r.push(owned("BatchMode=yes"));
    r.push(owned("-o"));
    r.push(concat2("ConnectTimeout=", u64_to_text(q.timeout_secs).as_str()));
    r.push(owned("-o"));
    r.push(owned("StrictHostKeyChecking=accept-new"));
    r.push(q.host.clone());
    r.push(q.command.clone());
    assert(r@.map_values(|a: String| a@) =~= seq![
        "-o"@,
        "BatchMode=yes"@,
        "-o"@,
        "ConnectTimeout="@ + dec_seq(q.timeout_secs as nat),
        "-o"@,
        "StrictHostKeyChecking=accept-new"@,
        q.host@,
        q.command@,
    ]);
    r
}

/// The exit code shown for a process: its code, or -1 when it has none.
pub open spec fn shown_code(code: Option<i32>) -> int {
    match code {
        Some(c) => c as int,
        None => -1,
    }
}

/// What `ssh_exec` answers for a finished command: the exit code, then the
/// standard output and the standard error when they are not empty.
pub open spec fn exec_output_text(code: Option<i32>, stdout: Seq<char>, stderr: Seq<char>) -> Seq<char> {
    let a = "exit code: "@ + int_dec_seq(shown_code(code));
    let b = if stdout.len() > 0 {
        a + "\n"@ + stdout
    } else {
        a
    };
    if stderr.len() > 0 {
        b + "\n[stderr]\n"@ + stderr
    } else {
        b
    }
}

/// The answer of `ssh_exec` for the command's exit code and output bytes.
pub fn exec_output(code: Option<i32>, stdout: &[u8], stderr: &[u8]) -> (r: String)
    ensures
        r@ == exec_output_text(code, utf8_lossy_seq(stdout@), utf8_lossy_seq(stderr@)),
{
    let out = utf8_lossy(stdout);
    let err = utf8_lossy(stderr);
    let c: i64 = match code {
        Some(c) => c as i64,
        None => -1,
    };
    let mut r = concat2("exit code: ", i64_to_text(c).as_str());
    if out.unicode_len() > 0 {
        push_str(&mut r, "\n");
        push_str(&mut r, out.as_str());
    }
    if err.unicode_len() > 0 {
        push_str(&mut r, "\n[stderr]\n");
        push_str(&mut r, err.as_str());
    }
    r
}

/// The answer when a program cannot be started.
pub fn spawn_error(program: &str, err: &str) -> (r: String)
    ensures
        r@ == "error: failed to spawn "@ + program@ + ": "@ + err@,
{
    let mut r = concat3("error: failed to spawn ", program, ": ");
    push_str(&mut r, err);
    r
}

// ---------------------------------------------------------------------------
// ssh_upload and ssh_download
// ---------------------------------------------------------------------------

/// A copy between the local machine and a host.
pub struct ScpRequest {
    pub host: String,
    pub local_path: String,
    pub remote_path: String,
}

/// Reads the arguments of `ssh_upload`, in the order it checks them: `host`,
/// `local_path`, `remote_path`.
pub fn upload_request(input: &Json) -> (r: Result<ScpRequest, String>)
    ensures
        match r {
            Ok(q) => field_str(input@, "host"@) == Some(q.host@) && field_str(input@, "local_path"@)
                == Some(q.local_path@) && field_str(input@, "remote_path"@) == Some(q.remote_path@),
            Err(e) => if field_str(input@, "host"@) is None {
                e@ == missing_param_text("host"@)
            } else if field_str(input@, "local_path"@) is None {
                e@ == missing_param_text("local_path"@)
            } else {
                field_str(input@, "remote_path"@) is None && e@ == missing_param_text(
                    "remote_path"@,
                )
            },
        },
{
    let host = required_str(input, "host")?;
    let local_path = required_str(input, "local_path")?;
    let remote_path = required_str(input, "remote_path")?;
    Ok(ScpRequest { host, local_path, remote_path })
}

/// Reads the arguments of `ssh_download`, in the order it checks them:
/// `host`, `remote_path`, `local_path`.
pub fn download_request(input: &Json) -> (r: Result<ScpRequest, String>)
    ensures
        match r {
            Ok(q) => field_str(input@, "host"@) == Some(q.host@) && field_str(input@, "local_path"@)
                == Some(q.local_path@) && field_str(input@, "remote_path"@) == Some(q.remote_path@),
            Err(e) => if field_str(input@, "host"@) is None {
                e@ == missing_param_text("host"@)
            } else if field_str(input@, "remote_path"@) is None {
                e@ == missing_param_text("remote_path"@)
            } else {
                field_str(input@, "local_path"@) is None && e@ == missing_param_text("local_path"@)
            },
        },
{
    let host = required_str(input, "host")?;
    let remote_path = required_str(input, "remote_path")?;
    let local_path = required_str(input, "local_path")?;
    Ok(ScpRequest { host, local_path, remote_path })
}

/// `host:path`, the remote end of a copy.
pub fn remote_spec(q: &ScpRequest) -> (r: String)
    ensures
        r@ == q.host@ + ":"@ + q.remote_path@,
{
    concat3(q.host.as_str(), ":", q.remote_path.as_str())
}

/// The arguments of `scp` for copying `from` to `to`.
pub fn scp_args(from: &str, to: &str) -> (r: Vec<String>)
    ensures
        r@.map_values(|a: String| a@) == seq![
            "-o"@,
            "BatchMode=yes"@,
            "-o"@,
            "StrictHostKeyChecking=accept-new"@,
            from@,
            to@,
        ],
{
    let mut r: Vec<String> = Vec::new();
    r.push(owned("-o"));
    r.push(owned("BatchMode=yes"));
    r.push(owned("-o"));
    r.push(owned("StrictHostKeyChecking=accept-new"));
    r.push(owned(from));
    r.push(owned(to));
    assert(r@.map_values(|a: String| a@) =~= seq![
        "-o"@,
        "BatchMode=yes"@,
        "-o"@,
        "StrictHostKeyChecking=accept-new"@,
        from@,
        to@,
    ]);
    r
}

/// What a copy answers: on success `ok: <verb> <from> → <to>`, otherwise
/// the exit code and the standard error.
pub open spec fn copy_output_text(
    verb: Seq<char>,
    from: Seq<char>,
    to: Seq<char>,
    success: bool,
    code: Option<i32>,
    stderr: Seq<char>,
) -> Seq<char> {
    if success {
        "ok: "@ + verb + " "@ + from + " → "@ + to
    } else {
        "error (exit "@ + int_dec_seq(shown_code(code)) + "): "@ + stderr
    }
}

/// The answer of `ssh_upload` (verb `uploaded`) or `ssh_download` (verb
/// `downloaded`) for a finished `scp`.
pub fn copy_output(verb: &str, from: &str, to: &str, success: bool, code: Option<i32>, stderr: &[u8]) -> (r:
    String)
    ensures
        r@ == copy_output_text(verb@, from@, to@, success, code, utf8_lossy_seq(stderr@)),
{
    if success {
        let mut r = concat3("ok: ", verb, " ");
        push_str(&mut r, from);
        push_str(&mut r, " → ");
        push_str(&mut r, to);
        r
    } else {
        let c: i64 = match code {
            Some(c) => c as i64,
            None => -1,
        };
        let mut r = concat3("error (exit ", i64_to_text(c).as_str(), "): ");
        push_str(&mut r, utf8_lossy(stderr).as_str());
        r
    }
}

// ---------------------------------------------------------------------------
// The tools
// ---------------------------------------------------------------------------

/// `ssh_list_hosts`: the hosts of the SSH configuration.
pub struct SshListHostsTool;

/// `ssh_exec`: runs a command on a configured host.
pub struct SshExecTool;

/// `ssh_upload`: copies a local file to a configured host.
pub struct SshUploadTool;

/// `ssh_download`: copies a file from a configured host.
pub struct SshDownloadTool;

impl SshListHostsTool {
    pub fn name(&self) -> (r: &'static str)
        ensures
            r@ == "ssh_list_hosts"@,
    {
        "ssh_list_hosts"
    }

    pub fn description(&self) -> (r: &'static str)
        ensures
            r@ == "List SSH hosts defined in ~/.ssh/config. IMPORTANT: After calling this tool you MUST call present_choices with the returned host aliases as the choices array \u{2014} never write the list as plain text in your reply. This lets the user pick interactively."@,
    {
        "List SSH hosts defined in ~/.ssh/config. IMPORTANT: After calling this tool you MUST call present_choices with the returned host aliases as the choices array \u{2014} never write the list as plain text in your reply. This lets the user pick interactively."
    }
}

impl SshExecTool {
    pub fn name(&self) -> (r: &'static str)
        ensures
            r@ == "ssh_exec"@,
    {
        "ssh_exec"
    }

    pub fn description(&self) -> (r: &'static str)
        ensures
            r@ == "Execute a shell command on a remote host via SSH. The host must be defined in ~/.ssh/config. If the target host is not yet determined, call ssh_list_hosts then present_choices first. Uses key-based authentication only (no password prompts)."@,
    {
        "Execute a shell command on a remote host via SSH. The host must be defined in ~/.ssh/config. If the target host is not yet determined, call ssh_list_hosts then present_choices first. Uses key-based authentication only (no password prompts)."
    }
}

impl SshUploadTool {
    pub fn name(&self) -> (r: &'static str)
        ensures
            r@ == "ssh_upload"@,
    {
        "ssh_upload"
    }

    pub fn description(&self) -> (r: &'static str)
        ensures
            r@ == "Upload a local file to a remote host via SCP. The host must be defined in ~/.ssh/config."@,
    {
        "Upload a local file to a remote host via SCP. The host must be defined in ~/.ssh/config."
    }
}

impl SshDownloadTool {
    pub fn name(&self) -> (r: &'static str)
        ensures
            r@ == "ssh_download"@,
    {
        "ssh_download"
    }

    pub fn description(&self) -> (r: &'static str)
        ensures
            r@ == "Download a file from a remote host via SCP. The host must be defined in ~/.ssh/config."@,
    {
        "Download a file from a remote host via SCP. The host must be defined in ~/.ssh/config."
    }
}

} // verus!
