//! The file system tools: home expansion of paths, the reading of their
//! arguments, and the text each of them answers. The file system calls
//! themselves are made by the caller, who hands their outcomes back here.
use vstd::prelude::*;
use vstd::utf8::{decode_utf8, encode_utf8, valid_utf8};
use crate::encoding::{base64_encode, base64_len, base64_seq, decode_text};
use crate::json::{field_bool, field_str, Json};
use crate::text::{
    concat2, concat3, contains_seq, contains_str, dec_seq, ends_with, join, join_seq, lines,
    lines_seq, lower_text, owned, push_str, str_eq, string_of, to_lowercase, u64_to_text,
};
use crate::tools::input::{missing_param_text, required_str};

verus! {

/// `"~"` is the home directory, and `"~/rest"` or `"~\rest"` is `rest` under
/// it, joined with `/`; any other path is left as it is.
pub open spec fn expand_path_seq(path: Seq<char>, home: Seq<char>) -> Seq<char> {
    if path == seq!['~'] {
        home
    } else if path.len() >= 2 && path[0] == '~' && (path[1] == '/' || path[1] == '\\') {
        home + seq!['/'] + path.skip(2)
    } else {
        path
    }
}

/// Expands a leading `~` of `path` to the home directory `home`.
pub fn expand_path(path: &str, home: &str) -> (r: String)
    ensures
        r@ == expand_path_seq(path@, home@),
{
    let n = path.unicode_len();
    if n == 1 && path.get_char(0) == '~' {
        assert(path@ =~= seq!['~']);
        return owned(home);
    }
    if n >= 2 && path.get_char(0) == '~' && (path.get_char(1) == '/' || path.get_char(1) == '\\') {
        let mut r = concat2(home, "/");
        let rest = path.substring_char(2, n);
        push_str(&mut r, rest);
        proof {
            reveal_strlit("/");
        }
        assert(r@ =~= home@ + seq!['/'] + path@.skip(2));
        return r;
    }
    proof {
        if path@ == seq!['~'] {
            assert(path@.len() == 1);
        }
    }
    owned(path)
}

/// The answer for a failed file system call.
pub open spec fn error_text(e: Seq<char>) -> Seq<char> {
    "error: "@ + e
}

/// `"error: " + e`.
pub fn error_message(e: &str) -> (r: String)
    ensures
        r@ == error_text(e@),
{
    concat2("error: ", e)
}

/// The string argument `key`, read as a path and expanded under `home`.
pub fn path_arg(input: &Json, key: &str, home: &str) -> (r: Result<String, String>)
    ensures
        match r {
            Ok(p) => field_str(input@, key@) matches Some(v) && p@ == expand_path_seq(v, home@),
            Err(e) => field_str(input@, key@) is None && e@ == missing_param_text(key@),
        },
{
    match required_str(input, key) {
        Ok(p) => Ok(expand_path(p.as_str(), home)),
        Err(e) => Err(e),
    }
}

// ---------------------------------------------------------------------------
// The tools
// ---------------------------------------------------------------------------

/// `read_file`: the contents of a file, as text or as Base64.
pub struct ReadFileTool;

/// `write_file`: writes text to a file.
pub struct WriteFileTool;

/// `list_directory`: the entries of a directory.
pub struct ListDirectoryTool;

/// `search_in_files`: the lines of files that contain a pattern.
pub struct SearchInFilesTool;

/// `move_file`: moves or renames a file or directory.
pub struct MoveFileTool;

/// `copy_file`: copies a file.
pub struct CopyFileTool;

/// `trash_file`: moves a file or directory to the trash.
pub struct TrashFileTool;

impl ReadFileTool {
    pub fn name(&self) -> (r: &'static str)
        ensures
            r@ == "read_file"@,
    {
        "read_file"
    }

    pub fn description(&self) -> (r: &'static str)
        ensures
            r@ == "Read the contents of a file. Returns text content by default, or base64-encoded bytes when encoding is set to \"base64\"."@,
    {
        "Read the contents of a file. Returns text content by default, or base64-encoded bytes when encoding is set to \"base64\"."
    }
}

impl WriteFileTool {
    pub fn name(&self) -> (r: &'static str)
        ensures
            r@ == "write_file"@,
    {
        "write_file"
    }

    pub fn description(&self) -> (r: &'static str)
        ensures
            r@ == "Write text content to a file, creating it if it does not exist. Optionally creates parent directories."@,
    {
        "Write text content to a file, creating it if it does not exist. Optionally creates parent directories."
    }
}

impl ListDirectoryTool {
    pub fn name(&self) -> (r: &'static str)
        ensures
            r@ == "list_directory"@,
    {
        "list_directory"
    }

    pub fn description(&self) -> (r: &'static str)
        ensures
            r@ == "List files and directories inside a directory. Supports recursive listing."@,
    {
        "List files and directories inside a directory. Supports recursive listing."
    }
}

impl SearchInFilesTool {
    pub fn name(&self) -> (r: &'static str)
        ensures
            r@ == "search_in_files"@,
    {
        "search_in_files"
    }

    pub fn description(&self) -> (r: &'static str)
        ensures
            r@ == "Search for a text pattern inside files in a directory (like grep). Returns matching file paths and lines."@,
    {
        "Search for a text pattern inside files in a directory (like grep). Returns matching file paths and lines."
    }
}

impl MoveFileTool {
    pub fn name(&self) -> (r: &'static str)
        ensures
            r@ == "move_file"@,
    {
        "move_file"
    }

    pub fn description(&self) -> (r: &'static str)
        ensures
            r@ == "Move or rename a file or directory."@,
    {
        "Move or rename a file or directory."
    }
}

impl CopyFileTool {
    pub fn name(&self) -> (r: &'static str)
        ensures
            r@ == "copy_file"@,
    {
        "copy_file"
    }

    pub fn description(&self) -> (r: &'static str)
        ensures
            r@ == "Copy a file to a new location."@,
    {
        "Copy a file to a new location."
    }
}

impl TrashFileTool {
    pub fn name(&self) -> (r: &'static str)
        ensures
            r@ == "trash_file"@,
    {
        "trash_file"
    }

    pub fn description(&self) -> (r: &'static str)
        ensures
            r@ == "Move a file or directory to the OS trash/recycle bin instead of permanently deleting it."@,
    {
        "Move a file or directory to the OS trash/recycle bin instead of permanently deleting it."
    }
}

// ---------------------------------------------------------------------------
// read_file
// ---------------------------------------------------------------------------

/// What `read_file` reads: the expanded path, and whether Base64 was asked.
pub struct ReadRequest {
    pub path: String,
    pub base64: bool,
}

/// The arguments of `read_file`: `path`, and `encoding`, which asks for
/// Base64 when it is exactly `"base64"`.
pub fn read_file_request(input: &Json, home: &str) -> (r: Result<ReadRequest, String>)
    ensures
        match r {
            Ok(q) => field_str(input@, "path"@) matches Some(p) && q.path@ == expand_path_seq(p, home@)
                && q.base64 == (field_str(input@, "encoding"@) == Some("base64"@)),
            Err(e) => field_str(input@, "path"@) is None && e@ == missing_param_text("path"@),
        },
{
    let path = match path_arg(input, "path", home) {
        Ok(p) => p,
        Err(e) => return Err(e),
    };
    let base64 = match input.str_field("encoding") {
        Some(enc) => str_eq(enc.as_str(), "base64"),
        None => false,
    };
    Ok(ReadRequest { path, base64 })
}

/// The answer of `read_file` for a file that is not valid UTF-8.
pub open spec fn not_utf8_text() -> Seq<char> {
    "error: file is not valid UTF-8. Use encoding=\"base64\" to read binary files."@
}

/// What `read_file` answers for the outcome of reading the file.
pub open spec fn read_file_text(read: Result<Seq<u8>, Seq<char>>, base64: bool) -> Seq<char> {
    match read {
        Err(e) => error_text(e),
        Ok(b) => if base64 {
            base64_seq(b)
        } else if valid_utf8(b) {
            decode_utf8(b)
        } else {
            not_utf8_text()
        },
    }
}

/// The answer of `read_file` for the bytes read, or the error of the read.
pub fn read_file_output(read: Result<Vec<u8>, String>, base64: bool) -> (r: String)
    requires
        base64 ==> (read matches Ok(b) ==> base64_len(b@.len()) <= usize::MAX),
    ensures
        r@ == read_file_text(
            match read {
                Ok(b) => Ok(b@),
                Err(e) => Err(e@),
            },
            base64,
        ),
{
    match read {
        Err(e) => error_message(e.as_str()),
        Ok(bytes) => {
            if base64 {
                base64_encode(bytes.as_slice())
            } else {
                match decode_text(bytes) {
                    Some(text) => text,
                    None => owned(
                        "error: file is not valid UTF-8. Use encoding=\"base64\" to read binary files.",
                    ),
                }
            }
        },
    }
}

// ---------------------------------------------------------------------------
// write_file
// ---------------------------------------------------------------------------

/// What `write_file` writes, where, and whether it first creates the parent
/// directories.
pub struct WriteRequest {
    pub path: String,
    pub content: String,
    pub create_dirs: bool,
}

/// The arguments of `write_file`: `path` and `content` are required (in that
/// order), `create_dirs` defaults to false.
pub fn write_file_request(input: &Json, home: &str) -> (r: Result<WriteRequest, String>)
    ensures
        match r {
            Ok(q) => field_str(input@, "path"@) matches Some(p) && q.path@ == expand_path_seq(p, home@)
                && field_str(input@, "content"@) == Some(q.content@)
                && q.create_dirs == (field_bool(input@, "create_dirs"@) == Some(true)),
            Err(e) => (field_str(input@, "path"@) is None && e@ == missing_param_text("path"@)) || (
            field_str(input@, "path"@) is Some && field_str(input@, "content"@) is None && e@
                == missing_param_text("content"@)),
        },
{
    let path = match path_arg(input, "path", home) {
        Ok(p) => p,
        Err(e) => return Err(e),
    };
    let content = match required_str(input, "content") {
        Ok(c) => c,
        Err(e) => return Err(e),
    };
    let create_dirs = match input.bool_field("create_dirs") {
        Some(b) => b,
        None => false,
    };
    Ok(WriteRequest { path, content, create_dirs })
}

/// The answer of `write_file` when the parent directories cannot be made.
pub fn dirs_error(e: &str) -> (r: String)
    ensures
        r@ == "error creating directories: "@ + e@,
{
    concat2("error creating directories: ", e)
}

/// What `write_file` answers once the write was tried: the number of UTF-8
/// bytes written and the path, or the error.
pub open spec fn write_file_text(result: Result<(), Seq<char>>, path: Seq<char>, content: Seq<char>) -> Seq<char> {
    match result {
        Ok(_) => "ok: wrote "@ + dec_seq(encode_utf8(content).len()) + " bytes to "@ + path,
        Err(e) => error_text(e),
    }
}

/// The answer of `write_file` for the outcome of the write.
pub fn write_file_output(result: Result<(), String>, path: &str, content: &str) -> (r: String)
    requires
        encode_utf8(content@).len() <= usize::MAX,
    ensures
        r@ == write_file_text(
            match result {
                Ok(u) => Ok(u),
                Err(e) => Err(e@),
            },
            path@,
            content@,
        ),
{
    match result {
        Ok(_) => {
            let n = content.len();
            let mut r = concat2("ok: wrote ", u64_to_text(n as u64).as_str());
            push_str(&mut r, " bytes to ");
            push_str(&mut r, path);
            r
        },
        Err(e) => error_message(e.as_str()),
    }
}

// ---------------------------------------------------------------------------
// list_directory
// ---------------------------------------------------------------------------

/// The arguments of `list_directory`: `path`, and `recursive`, false unless
/// given as true.
pub fn list_directory_request(input: &Json, home: &str) -> (r: Result<(String, bool), String>)
    ensures
        match r {
            Ok((path, recursive)) => field_str(input@, "path"@) matches Some(p) && path@
                == expand_path_seq(p, home@) && recursive == (field_bool(input@, "recursive"@) == Some(
                true,
            )),
            Err(e) => field_str(input@, "path"@) is None && e@ == missing_param_text("path"@),
        },
{
    let path = match path_arg(input, "path", home) {
        Ok(p) => p,
        Err(e) => return Err(e),
    };
    let recursive = match input.bool_field("recursive") {
        Some(b) => b,
        None => false,
    };
    Ok((path, recursive))
}

/// `n` copies of two spaces.
pub open spec fn indent(n: nat) -> Seq<char>
    decreases n,
{
    if n == 0 {
        Seq::empty()
    } else {
        indent((n - 1) as nat) + "  "@
    }
}

/// The line of one directory entry: two spaces per level of depth, the kind
/// (`"DIR "` or `"FILE"`), two spaces and the name.
pub open spec fn entry_line_text(depth: nat, is_dir: bool, name: Seq<char>) -> Seq<char> {
    indent(depth) + (if is_dir {
        "DIR "@
    } else {
        "FILE"@
    }) + "  "@ + name
}

/// The line of one directory entry.
pub fn entry_line(depth: usize, is_dir: bool, name: &str) -> (r: String)
    ensures
        r@ == entry_line_text(depth as nat, is_dir, name@),
{
    let mut r = String::new();
    let mut i: usize = 0;
    while i < depth
        invariant
            i <= depth,
            r@ == indent(i as nat),
        decreases depth - i,
    {
        push_str(&mut r, "  ");
        i = i + 1;
    }
    if is_dir {
        push_str(&mut r, "DIR ");
    } else {
        push_str(&mut r, "FILE");
    }
    push_str(&mut r, "  ");
    push_str(&mut r, name);
    r
}

/// Whether the listing goes down into an entry.
pub fn descend(recursive: bool, is_dir: bool) -> (r: bool)
    ensures
        r == (recursive && is_dir),
{
    recursive && is_dir
}

/// What `list_directory` answers for the lines collected, or for the error
/// that stopped the listing.
pub open spec fn list_directory_text(listing: Result<Seq<Seq<char>>, Seq<char>>) -> Seq<char> {
    match listing {
        Ok(lines) => if lines.len() == 0 {
            "(empty directory)"@
        } else {
            join_seq(lines, "\n"@)
        },
        Err(e) => error_text(e),
    }
}

/// The answer of `list_directory`.
pub fn list_directory_output(listing: Result<Vec<String>, String>) -> (r: String)
    ensures
        r@ == list_directory_text(
            match listing {
                Ok(v) => Ok(v@.map_values(|s: String| s@)),
                Err(e) => Err(e@),
            },
        ),
{
    match listing {
        Ok(v) => {
            if v.len() == 0 {
                owned("(empty directory)")
            } else {
                join(v.as_slice(), "\n")
            }
        },
        Err(e) => error_message(e.as_str()),
    }
}

// ---------------------------------------------------------------------------
// search_in_files
// ---------------------------------------------------------------------------

/// What `search_in_files` looks for: where, the lowercased pattern, and the
/// optional ending that file names must have.
pub struct SearchRequest {
    pub path: String,
    pub pattern: String,
    pub file_glob: Option<String>,
}

/// The arguments of `search_in_files`: `path` and `pattern` are required (in
/// that order); the pattern is lowercased; `file_glob` is optional.
pub fn search_request(input: &Json, home: &str) -> (r: Result<SearchRequest, String>)
    ensures
        match r {
            Ok(q) => {
                &&& field_str(input@, "path"@) matches Some(p) && q.path@ == expand_path_seq(p, home@)
                &&& field_str(input@, "pattern"@) matches Some(pat) && q.pattern@ == lower_text(pat)
                &&& q.file_glob.deep_view() == field_str(input@, "file_glob"@)
            },
            Err(e) => (field_str(input@, "path"@) is None && e@ == missing_param_text("path"@)) || (
            field_str(input@, "path"@) is Some && field_str(input@, "pattern"@) is None && e@
                == missing_param_text("pattern"@)),
        },
{
    let path = match path_arg(input, "path", home) {
        Ok(p) => p,
        Err(e) => return Err(e),
    };
    let pattern = match required_str(input, "pattern") {
        Ok(p) => to_lowercase(p.as_str()),
        Err(e) => return Err(e),
    };
    let file_glob = input.str_field("file_glob");
    Ok(SearchRequest { path, pattern, file_glob })
}

/// Whether a file is searched: always without a filter, else when its name
/// ends with the filter.
pub fn glob_accepts(name: &str, file_glob: &Option<String>) -> (r: bool)
    ensures
        r == match file_glob {
            Some(g) => g@.is_suffix_of(name@),
            None => true,
        },
{
    match file_glob {
        Some(g) => ends_with(name, g.as_str()),
        None => true,
    }
}

/// The answer line for line `number` (counted from 1) of a file.
pub open spec fn match_line_text(display: Seq<char>, number: nat, line: Seq<char>) -> Seq<char> {
    display + ":"@ + dec_seq(number) + ": "@ + line
}

/// The answer lines for those of `lines` whose lowercase form contains
/// `pattern`, numbered by position from 1.
pub open spec fn matching_lines(display: Seq<char>, lines: Seq<Seq<char>>, pattern: Seq<char>) -> Seq<
    Seq<char>,
>
    decreases lines.len(),
{
    if lines.len() == 0 {
        Seq::empty()
    } else {
        let rest = matching_lines(display, lines.drop_last(), pattern);
        if contains_seq(lower_text(lines.last()), pattern) {
            rest.push(match_line_text(display, lines.len(), lines.last()))
        } else {
            rest
        }
    }
}

/// The answer lines for one file's text, shown under `display`.
pub fn search_text(display: &str, text: &str, pattern: &str) -> (r: Vec<String>)
    ensures
        r@.map_values(|s: String| s@) == matching_lines(display@, lines_seq(text@), pattern@),
{
    let ls = lines(text);
    let ghost lv = lines_seq(text@);
    let mut out: Vec<String> = Vec::new();
    let mut i: usize = 0;
    while i < ls.len()
        invariant
            i <= ls@.len(),
            ls@.len() == lv.len(),
            lv == lines_seq(text@),
            forall|k: int| 0 <= k < ls@.len() ==> #[trigger] ls@[k]@ == lv[k],
            out@.map_values(|s: String| s@) == matching_lines(display@, lv.take(i as int), pattern@),
        decreases ls@.len() - i,
    {
        assert(lv.take(i + 1).drop_last() =~= lv.take(i as int));
        assert(lv.take(i + 1).last() == ls@[i as int]@);
        let line = string_of(ls[i].as_slice());
        let lower = to_lowercase(line.as_str());
        if contains_str(lower.as_str(), pattern) {
            let mut s = concat2(display, ":");
            push_str(&mut s, u64_to_text((i + 1) as u64).as_str());
            push_str(&mut s, ": ");
            push_str(&mut s, line.as_str());
            out.push(s);
            assert(out@.map_values(|s: String| s@) =~= matching_lines(
                display@,
                lv.take(i + 1),
                pattern@,
            ));
        } else {
            assert(out@.map_values(|s: String| s@) =~= matching_lines(
                display@,
                lv.take(i + 1),
                pattern@,
            ));
        }
        i = i + 1;
    }
    assert(lv.take(ls@.len() as int) =~= lv);
    out
}

/// What `search_in_files` answers for the lines found, or for the error that
/// stopped the search.
pub open spec fn search_text_answer(found: Result<Seq<Seq<char>>, Seq<char>>, pattern: Seq<char>) -> Seq<char> {
    match found {
        Ok(lines) => if lines.len() == 0 {
            "no matches found for \""@ + pattern + "\""@
        } else {
            join_seq(lines, "\n"@)
        },
        Err(e) => error_text(e),
    }
}

/// The answer of `search_in_files`.
pub fn search_output(found: Result<Vec<String>, String>, pattern: &str) -> (r: String)
    ensures
        r@ == search_text_answer(
            match found {
                Ok(v) => Ok(v@.map_values(|s: String| s@)),
                Err(e) => Err(e@),
            },
            pattern@,
        ),
{
    match found {
        Ok(v) => {
            if v.len() == 0 {
                concat3("no matches found for \"", pattern, "\"")
            } else {
                join(v.as_slice(), "\n")
            }
        },
        Err(e) => error_message(e.as_str()),
    }
}

// ---------------------------------------------------------------------------
// move_file, copy_file and trash_file
// ---------------------------------------------------------------------------

/// The arguments `from` and `to` of `move_file` and `copy_file`, in that
/// order, both expanded.
pub fn from_to_request(input: &Json, home: &str) -> (r: Result<(String, String), String>)
    ensures
        match r {
            Ok((from, to)) => {
                &&& field_str(input@, "from"@) matches Some(f) && from@ == expand_path_seq(f, home@)
                &&& field_str(input@, "to"@) matches Some(t) && to@ == expand_path_seq(t, home@)
            },
            Err(e) => (field_str(input@, "from"@) is None && e@ == missing_param_text("from"@)) || (
            field_str(input@, "from"@) is Some && field_str(input@, "to"@) is None && e@
                == missing_param_text("to"@)),
        },
{
    let from = match path_arg(input, "from", home) {
        Ok(p) => p,
        Err(e) => return Err(e),
    };
    let to = match path_arg(input, "to", home) {
        Ok(p) => p,
        Err(e) => return Err(e),
    };
    Ok((from, to))
}

/// The answer of `move_file`.
pub fn move_output(result: Result<(), String>, from: &str, to: &str) -> (r: String)
    ensures
        match result {
            Ok(_) => r@ == "ok: moved "@ + from@ + " \u{2192} "@ + to@,
            Err(e) => r@ == error_text(e@),
        },
{
    match result {
        Ok(_) => {
            let mut r = concat3("ok: moved ", from, " \u{2192} ");
            push_str(&mut r, to);
            r
        },
        Err(e) => error_message(e.as_str()),
    }
}

/// The answer of `copy_file`, with the number of bytes copied.
pub fn copy_output(result: Result<u64, String>, from: &str, to: &str) -> (r: String)
    ensures
        match result {
            Ok(n) => r@ == "ok: copied "@ + dec_seq(n as nat) + " bytes from "@ + from@ + " to "@ + to@,
            Err(e) => r@ == error_text(e@),
        },
{
    match result {
        Ok(n) => {
            let mut r = concat2("ok: copied ", u64_to_text(n).as_str());
            push_str(&mut r, " bytes from ");
            push_str(&mut r, from);
            push_str(&mut r, " to ");
            push_str(&mut r, to);
            r
        },
        Err(e) => error_message(e.as_str()),
    }
}

/// The answer of `trash_file`.
pub fn trash_output(result: Result<(), String>, path: &str) -> (r: String)
    ensures
        match result {
            Ok(_) => r@ == "ok: moved to trash: "@ + path@,
            Err(e) => r@ == error_text(e@),
        },
{
    match result {
        Ok(_) => concat2("ok: moved to trash: ", path),
        Err(e) => error_message(e.as_str()),
    }
}

/// The answer when a blocking task of a tool panicked.
pub fn task_panicked(e: &str) -> (r: String)
    ensures
        r@ == "error: task panicked: "@ + e@,
{
    concat2("error: task panicked: ", e)
}

} // verus!
