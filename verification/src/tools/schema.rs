//! The JSON schemas of the tools' arguments, as models are told them: an
//! object whose properties each have a type and a description.
use vstd::prelude::*;
use crate::json::{Json, JsonV};
use crate::text::owned;
use crate::tools::browser::BrowserTool;
use crate::tools::choice::ChoiceTool;
use crate::tools::clipboard::{ClipboardReadTool, ClipboardWriteTool};
use crate::tools::filesystem::{
    CopyFileTool, ListDirectoryTool, MoveFileTool, ReadFileTool, SearchInFilesTool, TrashFileTool,
    WriteFileTool,
};
use crate::tools::shell::ShellTool;
use crate::tools::ssh::{SshDownloadTool, SshExecTool, SshListHostsTool, SshUploadTool};
use crate::tools::time::TimeTool;

verus! {

broadcast use vstd::std_specs::vec::group_vec_axioms;

/// A JSON string value.
pub open spec fn jstr(s: Seq<char>) -> JsonV {
    JsonV::Str(s)
}

/// A property with a type and a description.
pub open spec fn prop_spec(kind: Seq<char>, description: Seq<char>) -> JsonV {
    JsonV::Object(seq![("type"@, jstr(kind)), ("description"@, jstr(description))])
}

/// A string property limited to some values.
pub open spec fn enum_prop_spec(values: Seq<Seq<char>>, description: Seq<char>) -> JsonV {
    JsonV::Object(
        seq![
            ("type"@, jstr("string"@)),
            ("enum"@, JsonV::Array(values.map_values(|v: Seq<char>| jstr(v)))),
            ("description"@, jstr(description)),
        ],
    )
}

/// An array property whose items have a type.
pub open spec fn array_prop_spec(item_kind: Seq<char>, description: Seq<char>) -> JsonV {
    JsonV::Object(
        seq![
            ("type"@, jstr("array"@)),
            ("items"@, JsonV::Object(seq![("type"@, jstr(item_kind))])),
            ("description"@, jstr(description)),
        ],
    )
}

/// The schema of an object with these properties, some of them required.
pub open spec fn schema_spec(props: Seq<(Seq<char>, JsonV)>, required: Seq<Seq<char>>) -> JsonV {
    if required.len() == 0 {
        JsonV::Object(seq![("type"@, jstr("object"@)), ("properties"@, JsonV::Object(props))])
    } else {
        JsonV::Object(
            seq![
                ("type"@, jstr("object"@)),
                ("properties"@, JsonV::Object(props)),
                ("required"@, JsonV::Array(required.map_values(|v: Seq<char>| jstr(v)))),
            ],
        )
    }
}

fn str_json(s: &str) -> (r: Json)
    ensures
        r@ == jstr(s@),
{
    Json::Str(owned(s))
}

fn object_of(members: Vec<(String, Json)>) -> (r: Json)
    ensures
        r@ == JsonV::Object(members@.map_values(|p: (String, Json)| (p.0@, p.1@))),
{
    let r = Json::Object(members);
    assert(r@ =~= JsonV::Object(members@.map_values(|p: (String, Json)| (p.0@, p.1@)))) by {
        if let JsonV::Object(a) = r@ {
            assert(a =~= members@.map_values(|p: (String, Json)| (p.0@, p.1@)));
        }
    }
    r
}

fn strings_array(values: &Vec<&str>) -> (r: Json)
    ensures
        r@ == JsonV::Array(values@.map_values(|v: &str| v@).map_values(|v: Seq<char>| jstr(v))),
{
    let mut items: Vec<Json> = Vec::new();
    let mut i: usize = 0;
    while i < values.len()
        invariant
            i <= values@.len(),
            items@.len() == i,
            forall|k: int| 0 <= k < i ==> (#[trigger] items@[k])@ == jstr(values@[k]@),
        decreases values@.len() - i,
    {
        items.push(str_json(values[i]));
        i = i + 1;
    }
    let r = Json::Array(items);
    assert(r@ =~= JsonV::Array(values@.map_values(|v: &str| v@).map_values(|v: Seq<char>| jstr(v)))) by {
        if let JsonV::Array(a) = r@ {
            assert(a =~= values@.map_values(|v: &str| v@).map_values(|v: Seq<char>| jstr(v)));
        }
    }
    r
}

/// The view of an object's members.
pub open spec fn members_view(m: Seq<(String, Json)>) -> Seq<(Seq<char>, JsonV)> {
    m.map_values(|p: (String, Json)| (p.0@, p.1@))
}

pub(crate) fn member(key: &str, value: Json) -> (r: (String, Json))
    ensures
        r.0@ == key@,
        r.1@ == value@,
{
    (owned(key), value)
}

fn two(a: (String, Json), b: (String, Json)) -> (r: Json)
    ensures
        r@ == JsonV::Object(seq![(a.0@, a.1@), (b.0@, b.1@)]),
{
    let ghost va = (a.0@, a.1@);
    let ghost vb = (b.0@, b.1@);
    let mut m: Vec<(String, Json)> = Vec::new();
    m.push(a);
    m.push(b);
    assert(members_view(m@) =~= seq![va, vb]);
    object_of(m)
}

fn three(a: (String, Json), b: (String, Json), c: (String, Json)) -> (r: Json)
    ensures
        r@ == JsonV::Object(seq![(a.0@, a.1@), (b.0@, b.1@), (c.0@, c.1@)]),
{
    let ghost va = (a.0@, a.1@);
    let ghost vb = (b.0@, b.1@);
    let ghost vc = (c.0@, c.1@);
    let mut m: Vec<(String, Json)> = Vec::new();
    m.push(a);
    m.push(b);
    m.push(c);
    assert(members_view(m@) =~= seq![va, vb, vc]);
    object_of(m)
}

/// A property with a type and a description.
pub fn prop(kind: &str, description: &str) -> (r: Json)
    ensures
        r@ == prop_spec(kind@, description@),
{
    two(member("type", str_json(kind)), member("description", str_json(description)))
}

/// A string property limited to `values`.
pub fn enum_prop(values: Vec<&str>, description: &str) -> (r: Json)
    ensures
        r@ == enum_prop_spec(values@.map_values(|v: &str| v@), description@),
{
    three(
        member("type", str_json("string")),
        member("enum", strings_array(&values)),
        member("description", str_json(description)),
    )
}

/// An array property whose items have type `item_kind`.
pub fn array_prop(item_kind: &str, description: &str) -> (r: Json)
    ensures
        r@ == array_prop_spec(item_kind@, description@),
{
    let mut m: Vec<(String, Json)> = Vec::new();
    m.push(member("type", str_json(item_kind)));
    assert(members_view(m@) =~= seq![("type"@, jstr(item_kind@))]);
    let items = object_of(m);
    three(member("type", str_json("array")), member("items", items), member("description", str_json(description)))
}

/// The schema of an object with the properties `props`, of which
/// `required` must be given.
pub fn object_schema(props: Vec<(String, Json)>, required: Vec<&str>) -> (r: Json)
    ensures
        r@ == schema_spec(members_view(props@), required@.map_values(|v: &str| v@)),
{
    let properties = object_of(props);
    if required.len() == 0 {
        two(member("type", str_json("object")), member("properties", properties))
    } else {
        three(
            member("type", str_json("object")),
            member("properties", properties),
            member("required", strings_array(&required)),
        )
    }
}

/// The arguments of `ShellTool`.
pub open spec fn shell_tool_schema() -> JsonV {
    schema_spec(
        seq![
            ("command"@, prop_spec("string"@, "The shell command to execute"@)),
        ],
        seq!["command"@],
    )
}

impl ShellTool {
    /// The JSON schema of the tool's arguments.
    pub fn parameters_schema(&self) -> (r: Json)
        ensures
            r@ == shell_tool_schema(),
    {
        let mut props: Vec<(String, Json)> = Vec::new();
        props.push(member("command", prop("string", "The shell command to execute")));
        assert(members_view(props@) =~= seq![("command"@, prop_spec("string"@, "The shell command to execute"@))]);
        let mut required: Vec<&str> = Vec::new();
        required.push("command");
        assert(required@.map_values(|v: &str| v@) =~= seq!["command"@]);
        object_schema(props, required)
    }
}

/// The arguments of `TimeTool`.
pub open spec fn time_tool_schema() -> JsonV {
    schema_spec(
        Seq::empty(),
        Seq::empty(),
    )
}

impl TimeTool {
    /// The JSON schema of the tool's arguments.
    pub fn parameters_schema(&self) -> (r: Json)
        ensures
            r@ == time_tool_schema(),
    {
        let mut props: Vec<(String, Json)> = Vec::new();
        assert(members_view(props@) =~= Seq::<(Seq<char>, JsonV)>::empty());
        let mut required: Vec<&str> = Vec::new();
        assert(required@.map_values(|v: &str| v@) =~= Seq::<Seq<char>>::empty());
        object_schema(props, required)
    }
}

/// The arguments of `ClipboardReadTool`.
pub open spec fn clipboard_read_tool_schema() -> JsonV {
    schema_spec(
        Seq::empty(),
        Seq::empty(),
    )
}

impl ClipboardReadTool {
    /// The JSON schema of the tool's arguments.
    pub fn parameters_schema(&self) -> (r: Json)
        ensures
            r@ == clipboard_read_tool_schema(),
    {
        let mut props: Vec<(String, Json)> = Vec::new();
        assert(members_view(props@) =~= Seq::<(Seq<char>, JsonV)>::empty());
        let mut required: Vec<&str> = Vec::new();
        assert(required@.map_values(|v: &str| v@) =~= Seq::<Seq<char>>::empty());
        object_schema(props, required)
    }
}

/// The arguments of `ClipboardWriteTool`.
pub open spec fn clipboard_write_tool_schema() -> JsonV {
    schema_spec(
        seq![
            ("text"@, prop_spec("string"@, "Text to copy to the clipboard"@)),
        ],
        seq!["text"@],
    )
}

impl ClipboardWriteTool {
    /// The JSON schema of the tool's arguments.
    pub fn parameters_schema(&self) -> (r: Json)
        ensures
            r@ == clipboard_write_tool_schema(),
    {
        let mut props: Vec<(String, Json)> = Vec::new();
        props.push(member("text", prop("string", "Text to copy to the clipboard")));
        assert(members_view(props@) =~= seq![("text"@, prop_spec("string"@, "Text to copy to the clipboard"@))]);
        let mut required: Vec<&str> = Vec::new();
        required.push("text");
        assert(required@.map_values(|v: &str| v@) =~= seq!["text"@]);
        object_schema(props, required)
    }
}

/// The arguments of `ChoiceTool`.
pub open spec fn choice_tool_schema() -> JsonV {
    schema_spec(
        seq![
            ("question"@, prop_spec("string"@, "The question or prompt to show the user"@)),
            ("choices"@, array_prop_spec("string"@, "List of 2-5 choices to present. A free-text option is always added automatically."@)),
        ],
        seq!["question"@, "choices"@],
    )
}

impl ChoiceTool {
    /// The JSON schema of the tool's arguments.
    pub fn parameters_schema(&self) -> (r: Json)
        ensures
            r@ == choice_tool_schema(),
    {
        let mut props: Vec<(String, Json)> = Vec::new();
        props.push(member("question", prop("string", "The question or prompt to show the user")));
        props.push(member("choices", array_prop("string", "List of 2-5 choices to present. A free-text option is always added automatically.")));
        assert(members_view(props@) =~= seq![("question"@, prop_spec("string"@, "The question or prompt to show the user"@)), ("choices"@, array_prop_spec("string"@, "List of 2-5 choices to present. A free-text option is always added automatically."@))]);
        let mut required: Vec<&str> = Vec::new();
        required.push("question");
        required.push("choices");
        assert(required@.map_values(|v: &str| v@) =~= seq!["question"@, "choices"@]);
        object_schema(props, required)
    }
}

/// The arguments of `ReadFileTool`.
pub open spec fn read_file_tool_schema() -> JsonV {
    schema_spec(
        seq![
            ("path"@, prop_spec("string"@, "Absolute or relative path to the file"@)),
            ("encoding"@, enum_prop_spec(seq!["text"@, "base64"@], "How to return the content. Default: \"text\""@)),
        ],
        seq!["path"@],
    )
}

impl ReadFileTool {
    /// The JSON schema of the tool's arguments.
    pub fn parameters_schema(&self) -> (r: Json)
        ensures
            r@ == read_file_tool_schema(),
    {
        let mut props: Vec<(String, Json)> = Vec::new();
        props.push(member("path", prop("string", "Absolute or relative path to the file")));
        let mut values: Vec<&str> = Vec::new();
        values.push("text");
        values.push("base64");
        assert(values@.map_values(|v: &str| v@) =~= seq!["text"@, "base64"@]);
        props.push(member("encoding", enum_prop(values, "How to return the content. Default: \"text\"")));
        assert(members_view(props@) =~= seq![("path"@, prop_spec("string"@, "Absolute or relative path to the file"@)), ("encoding"@, enum_prop_spec(seq!["text"@, "base64"@], "How to return the content. Default: \"text\""@))]);
        let mut required: Vec<&str> = Vec::new();
        required.push("path");
        assert(required@.map_values(|v: &str| v@) =~= seq!["path"@]);
        object_schema(props, required)
    }
}

/// The arguments of `WriteFileTool`.
pub open spec fn write_file_tool_schema() -> JsonV {
    schema_spec(
        seq![
            ("path"@, prop_spec("string"@, "Absolute or relative path to the file"@)),
            ("content"@, prop_spec("string"@, "Text content to write"@)),
            ("create_dirs"@, prop_spec("boolean"@, "Create parent directories if they do not exist (default: false)"@)),
        ],
        seq!["path"@, "content"@],
    )
}

impl WriteFileTool {
    /// The JSON schema of the tool's arguments.
    pub fn parameters_schema(&self) -> (r: Json)
        ensures
            r@ == write_file_tool_schema(),
    {
        let mut props: Vec<(String, Json)> = Vec::new();
        props.push(member("path", prop("string", "Absolute or relative path to the file")));
        props.push(member("content", prop("string", "Text content to write")));
        props.push(member("create_dirs", prop("boolean", "Create parent directories if they do not exist (default: false)")));
        assert(members_view(props@) =~= seq![("path"@, prop_spec("string"@, "Absolute or relative path to the file"@)), ("content"@, prop_spec("string"@, "Text content to write"@)), ("create_dirs"@, prop_spec("boolean"@, "Create parent directories if they do not exist (default: false)"@))]);
        let mut required: Vec<&str> = Vec::new();
        required.push("path");
        required.push("content");
        assert(required@.map_values(|v: &str| v@) =~= seq!["path"@, "content"@]);
        object_schema(props, required)
    }
}

/// The arguments of `ListDirectoryTool`.
pub open spec fn list_directory_tool_schema() -> JsonV {
    schema_spec(
        seq![
            ("path"@, prop_spec("string"@, "Path to the directory to list"@)),
            ("recursive"@, prop_spec("boolean"@, "List files recursively (default: false)"@)),
        ],
        seq!["path"@],
    )
}

impl ListDirectoryTool {
    /// The JSON schema of the tool's arguments.
    pub fn parameters_schema(&self) -> (r: Json)
        ensures
            r@ == list_directory_tool_schema(),
    {
        let mut props: Vec<(String, Json)> = Vec::new();
        props.push(member("path", prop("string", "Path to the directory to list")));
        props.push(member("recursive", prop("boolean", "List files recursively (default: false)")));
        assert(members_view(props@) =~= seq![("path"@, prop_spec("string"@, "Path to the directory to list"@)), ("recursive"@, prop_spec("boolean"@, "List files recursively (default: false)"@))]);
        let mut required: Vec<&str> = Vec::new();
        required.push("path");
        assert(required@.map_values(|v: &str| v@) =~= seq!["path"@]);
        object_schema(props, required)
    }
}

/// The arguments of `SearchInFilesTool`.
pub open spec fn search_in_files_tool_schema() -> JsonV {
    schema_spec(
        seq![
            ("path"@, prop_spec("string"@, "Directory (or file) to search in"@)),
            ("pattern"@, prop_spec("string"@, "Text pattern to search for (case-insensitive)"@)),
            ("file_glob"@, prop_spec("string"@, "Optional file extension filter, e.g. \".rs\" or \".ts\""@)),
        ],
        seq!["path"@, "pattern"@],
    )
}

impl SearchInFilesTool {
    /// The JSON schema of the tool's arguments.
    pub fn parameters_schema(&self) -> (r: Json)
        ensures
            r@ == search_in_files_tool_schema(),
    {
        let mut props: Vec<(String, Json)> = Vec::new();
        props.push(member("path", prop("string", "Directory (or file) to search in")));
        props.push(member("pattern", prop("string", "Text pattern to search for (case-insensitive)")));
        props.push(member("file_glob", prop("string", "Optional file extension filter, e.g. \".rs\" or \".ts\"")));
        assert(members_view(props@) =~= seq![("path"@, prop_spec("string"@, "Directory (or file) to search in"@)), ("pattern"@, prop_spec("string"@, "Text pattern to search for (case-insensitive)"@)), ("file_glob"@, prop_spec("string"@, "Optional file extension filter, e.g. \".rs\" or \".ts\""@))]);
        let mut required: Vec<&str> = Vec::new();
        required.push("path");
        required.push("pattern");
        assert(required@.map_values(|v: &str| v@) =~= seq!["path"@, "pattern"@]);
        object_schema(props, required)
    }
}

/// The arguments of `MoveFileTool`.
pub open spec fn move_file_tool_schema() -> JsonV {
    schema_spec(
        seq![
            ("from"@, prop_spec("string"@, "Source path"@)),
            ("to"@, prop_spec("string"@, "Destination path"@)),
        ],
        seq!["from"@, "to"@],
    )
}

impl MoveFileTool {
    /// The JSON schema of the tool's arguments.
    pub fn parameters_schema(&self) -> (r: Json)
        ensures
            r@ == move_file_tool_schema(),
    {
        let mut props: Vec<(String, Json)> = Vec::new();
        props.push(member("from", prop("string", "Source path")));
        props.push(member("to", prop("string", "Destination path")));
        assert(members_view(props@) =~= seq![("from"@, prop_spec("string"@, "Source path"@)), ("to"@, prop_spec("string"@, "Destination path"@))]);
        let mut required: Vec<&str> = Vec::new();
        required.push("from");
        required.push("to");
        assert(required@.map_values(|v: &str| v@) =~= seq!["from"@, "to"@]);
        object_schema(props, required)
    }
}

/// The arguments of `CopyFileTool`.
pub open spec fn copy_file_tool_schema() -> JsonV {
    schema_spec(
        seq![
            ("from"@, prop_spec("string"@, "Source file path"@)),
            ("to"@, prop_spec("string"@, "Destination file path"@)),
        ],
        seq!["from"@, "to"@],
    )
}

impl CopyFileTool {
    /// The JSON schema of the tool's arguments.
    pub fn parameters_schema(&self) -> (r: Json)
        ensures
            r@ == copy_file_tool_schema(),
    {
        let mut props: Vec<(String, Json)> = Vec::new();
        props.push(member("from", prop("string", "Source file path")));
        props.push(member("to", prop("string", "Destination file path")));
        assert(members_view(props@) =~= seq![("from"@, prop_spec("string"@, "Source file path"@)), ("to"@, prop_spec("string"@, "Destination file path"@))]);
        let mut required: Vec<&str> = Vec::new();
        required.push("from");
        required.push("to");
        assert(required@.map_values(|v: &str| v@) =~= seq!["from"@, "to"@]);
        object_schema(props, required)
    }
}

/// The arguments of `TrashFileTool`.
pub open spec fn trash_file_tool_schema() -> JsonV {
    schema_spec(
        seq![
            ("path"@, prop_spec("string"@, "Path to the file or directory to move to trash"@)),
        ],
        seq!["path"@],
    )
}

impl TrashFileTool {
    /// The JSON schema of the tool's arguments.
    pub fn parameters_schema(&self) -> (r: Json)
        ensures
            r@ == trash_file_tool_schema(),
    {
        let mut props: Vec<(String, Json)> = Vec::new();
        props.push(member("path", prop("string", "Path to the file or directory to move to trash")));
        assert(members_view(props@) =~= seq![("path"@, prop_spec("string"@, "Path to the file or directory to move to trash"@))]);
        let mut required: Vec<&str> = Vec::new();
        required.push("path");
        assert(required@.map_values(|v: &str| v@) =~= seq!["path"@]);
        object_schema(props, required)
    }
}

/// The arguments of `SshListHostsTool`.
pub open spec fn ssh_list_hosts_tool_schema() -> JsonV {
    schema_spec(
        Seq::empty(),
        Seq::empty(),
    )
}

impl SshListHostsTool {
    /// The JSON schema of the tool's arguments.
    pub fn parameters_schema(&self) -> (r: Json)
        ensures
            r@ == ssh_list_hosts_tool_schema(),
    {
        let mut props: Vec<(String, Json)> = Vec::new();
        assert(members_view(props@) =~= Seq::<(Seq<char>, JsonV)>::empty());
        let mut required: Vec<&str> = Vec::new();
        assert(required@.map_values(|v: &str| v@) =~= Seq::<Seq<char>>::empty());
        object_schema(props, required)
    }
}

/// The arguments of `SshExecTool`.
pub open spec fn ssh_exec_tool_schema() -> JsonV {
    schema_spec(
        seq![
            ("host"@, prop_spec("string"@, "Host alias from ~/.ssh/config"@)),
            ("command"@, prop_spec("string"@, "Shell command to run on the remote host"@)),
            ("timeout_secs"@, prop_spec("integer"@, "Connection timeout in seconds (default: 15)"@)),
        ],
        seq!["host"@, "command"@],
    )
}

impl SshExecTool {
    /// The JSON schema of the tool's arguments.
    pub fn parameters_schema(&self) -> (r: Json)
        ensures
            r@ == ssh_exec_tool_schema(),
    {
        let mut props: Vec<(String, Json)> = Vec::new();
        props.push(member("host", prop("string", "Host alias from ~/.ssh/config")));
        props.push(member("command", prop("string", "Shell command to run on the remote host")));
        props.push(member("timeout_secs", prop("integer", "Connection timeout in seconds (default: 15)")));
        assert(members_view(props@) =~= seq![("host"@, prop_spec("string"@, "Host alias from ~/.ssh/config"@)), ("command"@, prop_spec("string"@, "Shell command to run on the remote host"@)), ("timeout_secs"@, prop_spec("integer"@, "Connection timeout in seconds (default: 15)"@))]);
        let mut required: Vec<&str> = Vec::new();
        required.push("host");
        required.push("command");
        assert(required@.map_values(|v: &str| v@) =~= seq!["host"@, "command"@]);
        object_schema(props, required)
    }
}

/// The arguments of `SshUploadTool`.
pub open spec fn ssh_upload_tool_schema() -> JsonV {
    schema_spec(
        seq![
            ("host"@, prop_spec("string"@, "Host alias from ~/.ssh/config"@)),
            ("local_path"@, prop_spec("string"@, "Local file path to upload"@)),
            ("remote_path"@, prop_spec("string"@, "Destination path on the remote host (e.g. \"/home/user/file.txt\")"@)),
        ],
        seq!["host"@, "local_path"@, "remote_path"@],
    )
}

impl SshUploadTool {
    /// The JSON schema of the tool's arguments.
    pub fn parameters_schema(&self) -> (r: Json)
        ensures
            r@ == ssh_upload_tool_schema(),
    {
        let mut props: Vec<(String, Json)> = Vec::new();
        props.push(member("host", prop("string", "Host alias from ~/.ssh/config")));
        props.push(member("local_path", prop("string", "Local file path to upload")));
        props.push(member("remote_path", prop("string", "Destination path on the remote host (e.g. \"/home/user/file.txt\")")));
        assert(members_view(props@) =~= seq![("host"@, prop_spec("string"@, "Host alias from ~/.ssh/config"@)), ("local_path"@, prop_spec("string"@, "Local file path to upload"@)), ("remote_path"@, prop_spec("string"@, "Destination path on the remote host (e.g. \"/home/user/file.txt\")"@))]);
        let mut required: Vec<&str> = Vec::new();
        required.push("host");
        required.push("local_path");
        required.push("remote_path");
        assert(required@.map_values(|v: &str| v@) =~= seq!["host"@, "local_path"@, "remote_path"@]);
        object_schema(props, required)
    }
}

/// The arguments of `SshDownloadTool`.
pub open spec fn ssh_download_tool_schema() -> JsonV {
    schema_spec(
        seq![
            ("host"@, prop_spec("string"@, "Host alias from ~/.ssh/config"@)),
            ("remote_path"@, prop_spec("string"@, "File path on the remote host"@)),
            ("local_path"@, prop_spec("string"@, "Local destination path"@)),
        ],
        seq!["host"@, "remote_path"@, "local_path"@],
    )
}

impl SshDownloadTool {
    /// The JSON schema of the tool's arguments.
    pub fn parameters_schema(&self) -> (r: Json)
        ensures
            r@ == ssh_download_tool_schema(),
    {
        let mut props: Vec<(String, Json)> = Vec::new();
        props.push(member("host", prop("string", "Host alias from ~/.ssh/config")));
        props.push(member("remote_path", prop("string", "File path on the remote host")));
        props.push(member("local_path", prop("string", "Local destination path")));
        assert(members_view(props@) =~= seq![("host"@, prop_spec("string"@, "Host alias from ~/.ssh/config"@)), ("remote_path"@, prop_spec("string"@, "File path on the remote host"@)), ("local_path"@, prop_spec("string"@, "Local destination path"@))]);
        let mut required: Vec<&str> = Vec::new();
        required.push("host");
        required.push("remote_path");
        required.push("local_path");
        assert(required@.map_values(|v: &str| v@) =~= seq!["host"@, "remote_path"@, "local_path"@]);
        object_schema(props, required)
    }
}

/// The arguments of `http_request`.
pub open spec fn http_request_schema() -> JsonV {
    schema_spec(
        seq![
            ("url"@, prop_spec("string"@, "Full URL to request"@)),
            ("method"@, enum_prop_spec(seq!["GET"@, "POST"@, "PUT"@, "PATCH"@, "DELETE"@], "HTTP method (default: \"GET\")"@)),
            ("headers"@, prop_spec("object"@, "Optional request headers as key-value pairs"@)),
            ("body"@, prop_spec("string"@, "Optional request body (for POST/PUT/PATCH)"@)),
            ("content_type"@, prop_spec("string"@, "Content-Type header shorthand, e.g. \"application/json\""@)),
        ],
        seq!["url"@],
    )
}

/// The JSON schema of the arguments of `http_request`.
pub fn http_request_parameters() -> (r: Json)
    ensures
        r@ == http_request_schema(),
{
    let mut props: Vec<(String, Json)> = Vec::new();
    props.push(member("url", prop("string", "Full URL to request")));
    let mut values: Vec<&str> = Vec::new();
    values.push("GET");
    values.push("POST");
    values.push("PUT");
    values.push("PATCH");
    values.push("DELETE");
    assert(values@.map_values(|v: &str| v@) =~= seq!["GET"@, "POST"@, "PUT"@, "PATCH"@, "DELETE"@]);
    props.push(member("method", enum_prop(values, "HTTP method (default: \"GET\")")));
    props.push(member("headers", prop("object", "Optional request headers as key-value pairs")));
    props.push(member("body", prop("string", "Optional request body (for POST/PUT/PATCH)")));
    props.push(member("content_type", prop("string", "Content-Type header shorthand, e.g. \"application/json\"")));
    assert(members_view(props@) =~= seq![("url"@, prop_spec("string"@, "Full URL to request"@)), ("method"@, enum_prop_spec(seq!["GET"@, "POST"@, "PUT"@, "PATCH"@, "DELETE"@], "HTTP method (default: \"GET\")"@)), ("headers"@, prop_spec("object"@, "Optional request headers as key-value pairs"@)), ("body"@, prop_spec("string"@, "Optional request body (for POST/PUT/PATCH)"@)), ("content_type"@, prop_spec("string"@, "Content-Type header shorthand, e.g. \"application/json\""@))]);
    let mut required: Vec<&str> = Vec::new();
    required.push("url");
    assert(required@.map_values(|v: &str| v@) =~= seq!["url"@]);
    object_schema(props, required)
}

/// The arguments of a browser tool.
pub open spec fn browser_schema(t: BrowserTool) -> JsonV {
    match t {
        BrowserTool::Search => schema_spec(
            seq![
                ("query"@, prop_spec("string"@, "The search query (Japanese or English)"@)),
            ],
            seq!["query"@],
        ),
        BrowserTool::Navigate => schema_spec(
            seq![
                ("url"@, prop_spec("string"@, "Full URL to navigate to (e.g. https://www.google.com)"@)),
            ],
            seq!["url"@],
        ),
        BrowserTool::GetUrl => schema_spec(
            Seq::empty(),
            Seq::empty(),
        ),
        BrowserTool::GetText => schema_spec(
            seq![
                ("max_chars"@, prop_spec("integer"@, "Maximum characters to return (default: 8000)"@)),
            ],
            Seq::empty(),
        ),
        BrowserTool::FindText => schema_spec(
            seq![
                ("pattern"@, prop_spec("string"@, "Text to search for (case-insensitive)"@)),
                ("context_lines"@, prop_spec("integer"@, "Number of surrounding lines to include before/after each match (default: 3)"@)),
                ("max_matches"@, prop_spec("integer"@, "Maximum number of matches to return (default: 10)"@)),
            ],
            seq!["pattern"@],
        ),
        BrowserTool::GetElement => schema_spec(
            seq![
                ("selector"@, prop_spec("string"@, "CSS selector of the element to read (e.g. 'main', 'article', '#content', '.results')"@)),
                ("max_chars"@, prop_spec("integer"@, "Maximum characters to return (default: 4000)"@)),
            ],
            seq!["selector"@],
        ),
        BrowserTool::QuerySelectorAll => schema_spec(
            seq![
                ("selector"@, prop_spec("string"@, "CSS selector (e.g. 'li.result', 'tr', '.card', 'a[data-id]')"@)),
                ("max_chars"@, prop_spec("integer"@, "Maximum total characters to return across all elements (default: 8000)"@)),
            ],
            seq!["selector"@],
        ),
        BrowserTool::GetLinks => schema_spec(
            seq![
                ("max_links"@, prop_spec("integer"@, "Maximum number of links to return (default: 30)"@)),
            ],
            Seq::empty(),
        ),
        BrowserTool::Click => schema_spec(
            seq![
                ("selector"@, prop_spec("string"@, "CSS selector of the element to click"@)),
            ],
            seq!["selector"@],
        ),
        BrowserTool::Type => schema_spec(
            seq![
                ("selector"@, prop_spec("string"@, "CSS selector of the input/textarea element"@)),
                ("text"@, prop_spec("string"@, "Text to type into the element"@)),
                ("submit"@, prop_spec("boolean"@, "Press Enter after typing to submit (default: false)"@)),
            ],
            seq!["selector"@, "text"@],
        ),
        BrowserTool::Screenshot => schema_spec(
            Seq::empty(),
            Seq::empty(),
        ),
        BrowserTool::Close => schema_spec(
            Seq::empty(),
            Seq::empty(),
        ),
        BrowserTool::OpenTab => schema_spec(
            seq![
                ("url"@, prop_spec("string"@, "Full URL to open in a new tab (e.g. https://www.example.com)"@)),
            ],
            seq!["url"@],
        ),
        BrowserTool::CloseTab => schema_spec(
            Seq::empty(),
            Seq::empty(),
        ),
        BrowserTool::ListTabs => schema_spec(
            Seq::empty(),
            Seq::empty(),
        ),
        BrowserTool::ActivateTab => schema_spec(
            seq![
                ("index"@, prop_spec("integer"@, "Zero-based index of the tab to activate (from browser_list_tabs)"@)),
            ],
            seq!["index"@],
        ),
    }
}

impl BrowserTool {
    /// The JSON schema of the tool's arguments.
    pub fn parameters_schema(&self) -> (r: Json)
        ensures
            r@ == browser_schema(*self),
    {
        match self {
            BrowserTool::Search => {
                let mut props: Vec<(String, Json)> = Vec::new();
                props.push(member("query", prop("string", "The search query (Japanese or English)")));
                assert(members_view(props@) =~= seq![("query"@, prop_spec("string"@, "The search query (Japanese or English)"@))]);
                let mut required: Vec<&str> = Vec::new();
                required.push("query");
                assert(required@.map_values(|v: &str| v@) =~= seq!["query"@]);
                object_schema(props, required)
            },
            BrowserTool::Navigate => {
                let mut props: Vec<(String, Json)> = Vec::new();
                props.push(member("url", prop("string", "Full URL to navigate to (e.g. https://www.google.com)")));
                assert(members_view(props@) =~= seq![("url"@, prop_spec("string"@, "Full URL to navigate to (e.g. https://www.google.com)"@))]);
                let mut required: Vec<&str> = Vec::new();
                required.push("url");
                assert(required@.map_values(|v: &str| v@) =~= seq!["url"@]);
                object_schema(props, required)
            },
            BrowserTool::GetUrl => {
                let mut props: Vec<(String, Json)> = Vec::new();
                assert(members_view(props@) =~= Seq::<(Seq<char>, JsonV)>::empty());
                let mut required: Vec<&str> = Vec::new();
                assert(required@.map_values(|v: &str| v@) =~= Seq::<Seq<char>>::empty());
                object_schema(props, required)
            },
            BrowserTool::GetText => {
                let mut props: Vec<(String, Json)> = Vec::new();
                props.push(member("max_chars", prop("integer", "Maximum characters to return (default: 8000)")));
                assert(members_view(props@) =~= seq![("max_chars"@, prop_spec("integer"@, "Maximum characters to return (default: 8000)"@))]);
                let mut required: Vec<&str> = Vec::new();
                assert(required@.map_values(|v: &str| v@) =~= Seq::<Seq<char>>::empty());
                object_schema(props, required)
            },
            BrowserTool::FindText => {
                let mut props: Vec<(String, Json)> = Vec::new();
                props.push(member("pattern", prop("string", "Text to search for (case-insensitive)")));
                props.push(member("context_lines", prop("integer", "Number of surrounding lines to include before/after each match (default: 3)")));
                props.push(member("max_matches", prop("integer", "Maximum number of matches to return (default: 10)")));
                assert(members_view(props@) =~= seq![("pattern"@, prop_spec("string"@, "Text to search for (case-insensitive)"@)), ("context_lines"@, prop_spec("integer"@, "Number of surrounding lines to include before/after each match (default: 3)"@)), ("max_matches"@, prop_spec("integer"@, "Maximum number of matches to return (default: 10)"@))]);
                let mut required: Vec<&str> = Vec::new();
                required.push("pattern");
                assert(required@.map_values(|v: &str| v@) =~= seq!["pattern"@]);
                object_schema(props, required)
            },
            BrowserTool::GetElement => {
                let mut props: Vec<(String, Json)> = Vec::new();
                props.push(member("selector", prop("string", "CSS selector of the element to read (e.g. 'main', 'article', '#content', '.results')")));
                props.push(member("max_chars", prop("integer", "Maximum characters to return (default: 4000)")));
                assert(members_view(props@) =~= seq![("selector"@, prop_spec("string"@, "CSS selector of the element to read (e.g. 'main', 'article', '#content', '.results')"@)), ("max_chars"@, prop_spec("integer"@, "Maximum characters to return (default: 4000)"@))]);
                let mut required: Vec<&str> = Vec::new();
                required.push("selector");
                assert(required@.map_values(|v: &str| v@) =~= seq!["selector"@]);
                object_schema(props, required)
            },
            BrowserTool::QuerySelectorAll => {
                let mut props: Vec<(String, Json)> = Vec::new();
                props.push(member("selector", prop("string", "CSS selector (e.g. 'li.result', 'tr', '.card', 'a[data-id]')")));
                props.push(member("max_chars", prop("integer", "Maximum total characters to return across all elements (default: 8000)")));
                assert(members_view(props@) =~= seq![("selector"@, prop_spec("string"@, "CSS selector (e.g. 'li.result', 'tr', '.card', 'a[data-id]')"@)), ("max_chars"@, prop_spec("integer"@, "Maximum total characters to return across all elements (default: 8000)"@))]);
                let mut required: Vec<&str> = Vec::new();
                required.push("selector");
                assert(required@.map_values(|v: &str| v@) =~= seq!["selector"@]);
                object_schema(props, required)
            },
            BrowserTool::GetLinks => {
                let mut props: Vec<(String, Json)> = Vec::new();
                props.push(member("max_links", prop("integer", "Maximum number of links to return (default: 30)")));
                assert(members_view(props@) =~= seq![("max_links"@, prop_spec("integer"@, "Maximum number of links to return (default: 30)"@))]);
                let mut required: Vec<&str> = Vec::new();
                assert(required@.map_values(|v: &str| v@) =~= Seq::<Seq<char>>::empty());
                object_schema(props, required)
            },
            BrowserTool::Click => {
                let mut props: Vec<(String, Json)> = Vec::new();
                props.push(member("selector", prop("string", "CSS selector of the element to click")));
                assert(members_view(props@) =~= seq![("selector"@, prop_spec("string"@, "CSS selector of the element to click"@))]);
                let mut required: Vec<&str> = Vec::new();
                required.push("selector");
                assert(required@.map_values(|v: &str| v@) =~= seq!["selector"@]);
                object_schema(props, required)
            },
            BrowserTool::Type => {
                let mut props: Vec<(String, Json)> = Vec::new();
                props.push(member("selector", prop("string", "CSS selector of the input/textarea element")));
                props.push(member("text", prop("string", "Text to type into the element")));
                props.push(member("submit", prop("boolean", "Press Enter after typing to submit (default: false)")));
                assert(members_view(props@) =~= seq![("selector"@, prop_spec("string"@, "CSS selector of the input/textarea element"@)), ("text"@, prop_spec("string"@, "Text to type into the element"@)), ("submit"@, prop_spec("boolean"@, "Press Enter after typing to submit (default: false)"@))]);
                let mut required: Vec<&str> = Vec::new();
                required.push("selector");
                required.push("text");
                assert(required@.map_values(|v: &str| v@) =~= seq!["selector"@, "text"@]);
                object_schema(props, required)
            },
            BrowserTool::Screenshot => {
                let mut props: Vec<(String, Json)> = Vec::new();
                assert(members_view(props@) =~= Seq::<(Seq<char>, JsonV)>::empty());
                let mut required: Vec<&str> = Vec::new();
                assert(required@.map_values(|v: &str| v@) =~= Seq::<Seq<char>>::empty());
                object_schema(props, required)
            },
            BrowserTool::Close => {
                let mut props: Vec<(String, Json)> = Vec::new();
                assert(members_view(props@) =~= Seq::<(Seq<char>, JsonV)>::empty());
                let mut required: Vec<&str> = Vec::new();
                assert(required@.map_values(|v: &str| v@) =~= Seq::<Seq<char>>::empty());
                object_schema(props, required)
            },
            BrowserTool::OpenTab => {
                let mut props: Vec<(String, Json)> = Vec::new();
                props.push(member("url", prop("string", "Full URL to open in a new tab (e.g. https://www.example.com)")));
                assert(members_view(props@) =~= seq![("url"@, prop_spec("string"@, "Full URL to open in a new tab (e.g. https://www.example.com)"@))]);
                let mut required: Vec<&str> = Vec::new();
                required.push("url");
                assert(required@.map_values(|v: &str| v@) =~= seq!["url"@]);
                object_schema(props, required)
            },
            BrowserTool::CloseTab => {
                let mut props: Vec<(String, Json)> = Vec::new();
                assert(members_view(props@) =~= Seq::<(Seq<char>, JsonV)>::empty());
                let mut required: Vec<&str> = Vec::new();
                assert(required@.map_values(|v: &str| v@) =~= Seq::<Seq<char>>::empty());
                object_schema(props, required)
            },
            BrowserTool::ListTabs => {
                let mut props: Vec<(String, Json)> = Vec::new();
                assert(members_view(props@) =~= Seq::<(Seq<char>, JsonV)>::empty());
                let mut required: Vec<&str> = Vec::new();
                assert(required@.map_values(|v: &str| v@) =~= Seq::<Seq<char>>::empty());
                object_schema(props, required)
            },
            BrowserTool::ActivateTab => {
                let mut props: Vec<(String, Json)> = Vec::new();
                props.push(member("index", prop("integer", "Zero-based index of the tab to activate (from browser_list_tabs)")));
                assert(members_view(props@) =~= seq![("index"@, prop_spec("integer"@, "Zero-based index of the tab to activate (from browser_list_tabs)"@))]);
                let mut required: Vec<&str> = Vec::new();
                required.push("index");
                assert(required@.map_values(|v: &str| v@) =~= seq!["index"@]);
                object_schema(props, required)
            },
        }
    }
}

} // verus!
