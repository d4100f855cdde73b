use ai_gui::json::Json;
use ai_gui::tools::filesystem::{
    copy_output, dirs_error, entry_line, expand_path, from_to_request, glob_accepts,
    list_directory_output, list_directory_request, move_output, read_file_output,
    read_file_request, search_output, search_request, search_text, task_panicked, trash_output,
    write_file_output, write_file_request, ReadFileTool, TrashFileTool,
};

fn obj(members: Vec<(&str, Json)>) -> Json {
    Json::Object(members.into_iter().map(|(k, v)| (k.to_string(), v)).collect())
}

fn s(v: &str) -> Json {
    Json::Str(v.to_string())
}

#[test]
fn home_is_expanded() {
    assert_eq!(expand_path("~", "/home/u"), "/home/u");
    assert_eq!(expand_path("~/notes.txt", "/home/u"), "/home/u/notes.txt");
    assert_eq!(expand_path("~\\notes.txt", "C:\\Users\\u"), "C:\\Users\\u/notes.txt");
    assert_eq!(expand_path("/etc/hosts", "/home/u"), "/etc/hosts");
    assert_eq!(expand_path("~other/x", "/home/u"), "~other/x");
}

#[test]
fn read_file_arguments() {
    match read_file_request(&obj(vec![]), "/h") {
        Err(e) => assert_eq!(e, "error: missing required parameter \"path\""),
        Ok(_) => panic!("expected an error"),
    }
    let q = read_file_request(&obj(vec![("path", s("~/a.bin")), ("encoding", s("base64"))]), "/h").unwrap();
    assert_eq!(q.path, "/h/a.bin");
    assert!(q.base64);
    let q = read_file_request(&obj(vec![("path", s("a.txt")), ("encoding", s("text"))]), "/h").unwrap();
    assert!(!q.base64);
}

#[test]
fn read_file_answers() {
    assert_eq!(read_file_output(Ok(b"hello".to_vec()), true), "aGVsbG8=");
    assert_eq!(read_file_output(Ok(b"hi".to_vec()), true), "aGk=");
    assert_eq!(read_file_output(Ok(b"abc".to_vec()), true), "YWJj");
    assert_eq!(read_file_output(Ok(vec![0xfb, 0xff]), true), "+/8=");
    assert_eq!(read_file_output(Ok("héllo".as_bytes().to_vec()), false), "héllo");
    assert_eq!(
        read_file_output(Ok(vec![0xff, 0xfe]), false),
        "error: file is not valid UTF-8. Use encoding=\"base64\" to read binary files."
    );
    assert_eq!(read_file_output(Err("No such file".to_string()), false), "error: No such file");
}

#[test]
fn write_file_arguments_and_answers() {
    match write_file_request(&obj(vec![("path", s("a.txt"))]), "/h") {
        Err(e) => assert_eq!(e, "error: missing required parameter \"content\""),
        Ok(_) => panic!("expected an error"),
    }
    let q = write_file_request(
        &obj(vec![("path", s("~/a.txt")), ("content", s("héllo")), ("create_dirs", Json::Bool(true))]),
        "/h",
    )
    .unwrap();
    assert_eq!(q.path, "/h/a.txt");
    assert!(q.create_dirs);
    assert_eq!(write_file_output(Ok(()), &q.path, &q.content), "ok: wrote 6 bytes to /h/a.txt");
    assert_eq!(write_file_output(Err("denied".to_string()), "/x", "y"), "error: denied");
    assert_eq!(dirs_error("denied"), "error creating directories: denied");
}

#[test]
fn directory_listing() {
    assert_eq!(entry_line(0, true, "src"), "DIR   src");
    assert_eq!(entry_line(2, false, "main.rs"), "    FILE  main.rs");
    assert_eq!(list_directory_output(Ok(vec![])), "(empty directory)");
    assert_eq!(
        list_directory_output(Ok(vec!["DIR   a".to_string(), "FILE  b".to_string()])),
        "DIR   a\nFILE  b"
    );
    assert_eq!(list_directory_output(Err("gone".to_string())), "error: gone");
    let (path, recursive) = list_directory_request(&obj(vec![("path", s("."))]), "/h").unwrap();
    assert_eq!(path, ".");
    assert!(!recursive);
}

#[test]
fn searching_files() {
    let q = search_request(&obj(vec![("path", s("~")), ("pattern", s("ALERT")), ("file_glob", s(".rs"))]), "/h")
        .unwrap();
    assert_eq!(q.path, "/h");
    assert_eq!(q.pattern, "alert");
    assert_eq!(q.file_glob, Some(".rs".to_string()));
    match search_request(&obj(vec![("path", s("~"))]), "/h") {
        Err(e) => assert_eq!(e, "error: missing required parameter \"pattern\""),
        Ok(_) => panic!("expected an error"),
    }
    assert!(glob_accepts("src/main.rs", &Some(".rs".to_string())));
    assert!(!glob_accepts("README.md", &Some(".rs".to_string())));
    assert!(glob_accepts("README.md", &None));
    let found = search_text("a.rs", "fn main() {\n    // ALERT: x\r\n}\n// alert again", "alert");
    assert_eq!(found, vec!["a.rs:2:     // ALERT: x".to_string(), "a.rs:4: // alert again".to_string()]);
    assert_eq!(search_output(Ok(vec![]), "alert"), "no matches found for \"alert\"");
    assert_eq!(search_output(Ok(found), "alert"), "a.rs:2:     // ALERT: x\na.rs:4: // alert again");
}

#[test]
fn moving_copying_trashing() {
    match from_to_request(&obj(vec![("from", s("a"))]), "/h") {
        Err(e) => assert_eq!(e, "error: missing required parameter \"to\""),
        Ok(_) => panic!("expected an error"),
    }
    let (from, to) = from_to_request(&obj(vec![("from", s("~/a")), ("to", s("~/b"))]), "/h").unwrap();
    assert_eq!(move_output(Ok(()), &from, &to), "ok: moved /h/a → /h/b");
    assert_eq!(copy_output(Ok(42), &from, &to), "ok: copied 42 bytes from /h/a to /h/b");
    assert_eq!(copy_output(Err("busy".to_string()), &from, &to), "error: busy");
    assert_eq!(trash_output(Ok(()), "/h/a"), "ok: moved to trash: /h/a");
    assert_eq!(task_panicked("oops"), "error: task panicked: oops");
}

#[test]
fn file_tool_names() {
    assert_eq!(ReadFileTool.name(), "read_file");
    assert_eq!(TrashFileTool.name(), "trash_file");
    assert!(ReadFileTool.description().contains("base64"));
}

#[test]
fn read_file_returns_what_was_written() {
    let content = "héllo\n日本";
    let bytes = content.as_bytes().to_vec();
    assert_eq!(read_file_output(Ok(bytes.clone()), false), content);
    assert_eq!(read_file_output(Ok(bytes), true), "aMOpbGxvCuaXpeacrA==");
}
