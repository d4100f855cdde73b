use ai_gui::json::{Json, JsonNumber};
use ai_gui::tools::choice::{
    choice_answer, choice_request, drops_pending, emit_error, ChoiceTool, ChoiceWait, PendingChoices, CHOICE_TIMEOUT_SECS,
};
use ai_gui::tools::clipboard::{ClipboardReadTool, ClipboardWriteTool};
use ai_gui::tools::http::{http_output, http_request_plan, http_send_error, HttpMethod};
use ai_gui::tools::shell::{shell_command, shell_invocation, shell_output, shell_spawn_error, ShellTool};
use ai_gui::tools::time::TimeTool;

fn obj(members: Vec<(&str, Json)>) -> Json {
    Json::Object(members.into_iter().map(|(k, v)| (k.to_string(), v)).collect())
}

fn s(v: &str) -> Json {
    Json::Str(v.to_string())
}

#[test]
fn shell_command_and_output() {
    assert_eq!(shell_command(&obj(vec![])).unwrap_err(), "Error: 'command' field is required");
    assert_eq!(shell_command(&obj(vec![("command", s("ls"))])).unwrap(), "ls");
    let (program, args) = shell_invocation("ls -l", false);
    assert_eq!(program, "sh");
    assert_eq!(args, vec!["-c".to_string(), "ls -l".to_string()]);
    let (program, args) = shell_invocation("dir", true);
    assert_eq!(program, "powershell");
    assert_eq!(args.len(), 4);
    assert_eq!(shell_output(Some(0), b"out\n", b""), "exit code: 0\nout\n");
    assert_eq!(shell_output(None, b"", b"bad"), "exit code: -1\nstdout:\n\nstderr:\nbad");
    assert_eq!(shell_output(Some(2), &[0x66, 0xff], b""), "exit code: 2\nf\u{fffd}");
    assert_eq!(shell_spawn_error("no sh"), "Failed to execute command: no sh");
    assert_eq!(ShellTool.name(), "run_shell_command");
}

#[test]
fn time_tool_answers_an_rfc3339_time() {
    let t = TimeTool.execute();
    assert!(t.len() >= 25);
    assert!(t.ends_with("+00:00"));
    assert_eq!(&t[4..5], "-");
    assert_eq!(&t[10..11], "T");
    assert_eq!(&t[13..14], ":");
    assert_eq!(&t[16..17], ":");
    let frac = &t[19..t.len() - 6];
    assert!(frac.is_empty() || [4, 7, 10].contains(&frac.len()));
    assert_eq!(TimeTool.name(), "get_current_time");
}

#[test]
fn clipboard_answers() {
    assert_eq!(ClipboardReadTool.output(Ok("copied".to_string())), "copied");
    assert_eq!(ClipboardReadTool.output(Err("no display".to_string())), "error: no display");
    assert_eq!(ClipboardWriteTool.text(&obj(vec![])).unwrap_err(), "error: missing required parameter \"text\"");
    assert_eq!(ClipboardWriteTool.output(Ok(())), "ok: text copied to clipboard");
}

#[test]
fn choices_are_offered() {
    let p = choice_request(&obj(vec![(
        "choices",
        Json::Array(vec![s("a"), Json::Number(JsonNumber::PosInt(1)), s("b")]),
    )]))
    .unwrap();
    assert_eq!(p.question, "Please choose an option");
    assert_eq!(p.choices, vec!["a".to_string(), "b".to_string()]);
    assert_eq!(p.call_id.len(), 36);
    assert_eq!(&p.call_id[14..15], "4");
    match choice_request(&obj(vec![("question", s("Which?")), ("choices", Json::Array(vec![]))])) {
        Err(e) => assert_eq!(e, "Error: no choices provided"),
        Ok(_) => panic!("expected an error"),
    }
    assert_eq!(choice_answer(ChoiceWait::Answered("b".to_string())), "b");
    assert_eq!(choice_answer(ChoiceWait::TimedOut), "Error: timed out waiting for user selection");
    assert_eq!(choice_answer(ChoiceWait::Closed), "Error: choice channel was closed");
    assert!(drops_pending(&ChoiceWait::TimedOut));
    assert!(!drops_pending(&ChoiceWait::Closed));
    assert_eq!(emit_error("x"), "Error emitting choices event: x");
    assert_eq!(ChoiceTool.name(), "present_choices");
}

#[test]
fn http_plans() {
    match http_request_plan(&obj(vec![])) {
        Err(e) => assert_eq!(e, "error: missing required parameter \"url\""),
        Ok(_) => panic!("expected an error"),
    }
    match http_request_plan(&obj(vec![("url", s("http://x")), ("method", s("trace"))])) {
        Err(e) => assert_eq!(e, "error: unsupported method \"TRACE\""),
        Ok(_) => panic!("expected an error"),
    }
    let p = http_request_plan(&obj(vec![
        ("url", s("http://x")),
        ("method", s("post")),
        ("headers", obj(vec![("Accept", s("text/plain")), ("X-N", Json::Number(JsonNumber::PosInt(1)))])),
        ("content_type", s("application/json")),
        ("body", s("{}")),
    ]))
    .unwrap();
    assert!(p.method == HttpMethod::Post);
    assert_eq!(
        p.headers,
        vec![
            ("Accept".to_string(), "text/plain".to_string()),
            ("Content-Type".to_string(), "application/json".to_string())
        ]
    );
    assert_eq!(p.body, Some("{}".to_string()));
    let p = http_request_plan(&obj(vec![("url", s("http://x"))])).unwrap();
    assert!(p.method == HttpMethod::Get);
    assert!(p.headers.is_empty());
}

#[test]
fn http_answers_show_selected_headers() {
    let headers = vec![
        ("date".to_string(), Some("today".to_string())),
        ("content-type".to_string(), Some("text/html".to_string())),
        ("location".to_string(), None),
        ("content-type".to_string(), Some("text/plain".to_string())),
    ];
    assert_eq!(
        http_output(200, &headers, Some("body".to_string())),
        "status: 200\ncontent-type: text/plain\nlocation: (non-utf8)\n\nbody"
    );
    assert_eq!(http_output(404, &vec![], None), "status: 404\n\n\n(unreadable body)");
    assert_eq!(http_send_error("timeout"), "error: timeout");
}

fn member<'a>(j: &'a Json, key: &str) -> &'a Json {
    match j {
        Json::Object(m) => &m.iter().find(|(k, _)| k == key).expect("member").1,
        _ => panic!("not an object"),
    }
}

#[test]
fn tool_schemas_describe_the_arguments() {
    let shell = ShellTool.parameters_schema();
    assert!(matches!(member(&shell, "type"), Json::Str(t) if t == "object"));
    let command = member(member(&shell, "properties"), "command");
    assert!(matches!(member(command, "description"), Json::Str(d) if d == "The shell command to execute"));
    match member(&shell, "required") {
        Json::Array(items) => assert!(matches!(&items[0], Json::Str(r) if r == "command")),
        _ => panic!("expected the required names"),
    }
    let time = TimeTool.parameters_schema();
    match &time {
        Json::Object(m) => assert_eq!(m.len(), 2),
        _ => panic!("expected an object"),
    }
    let http = ai_gui::tools::schema::http_request_parameters();
    match member(member(member(&http, "properties"), "method"), "enum") {
        Json::Array(items) => assert_eq!(items.len(), 5),
        _ => panic!("expected the methods"),
    }
    let choice = ChoiceTool.parameters_schema();
    let choices = member(member(&choice, "properties"), "choices");
    assert!(matches!(member(member(choices, "items"), "type"), Json::Str(t) if t == "string"));
    let activate = ai_gui::tools::browser::BrowserTool::ActivateTab.parameters_schema();
    assert!(matches!(member(member(member(&activate, "properties"), "index"), "type"), Json::Str(t) if t == "integer"));
}

#[test]
fn a_choice_is_answered_once() {
    let mut pending: PendingChoices<u32> = PendingChoices::new();
    pending.open("a".to_string(), 1);
    pending.open("b".to_string(), 2);
    assert!(pending.is_pending("a"));
    assert_eq!(pending.take("a"), Some(1));
    assert!(!pending.is_pending("a"));
    assert_eq!(pending.take("a"), None);
    assert!(pending.is_pending("b"));
    pending.open("b".to_string(), 3);
    assert_eq!(pending.take("b"), Some(3));
    assert_eq!(pending.take("b"), None);
    assert_eq!(CHOICE_TIMEOUT_SECS, 600);
}
