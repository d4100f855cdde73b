use ai_gui::json::{Json, JsonNumber};
use ai_gui::tools::ssh::{
    config_read_error, copy_output, download_request, exec_output, exec_request, host_known,
    list_hosts_output, parse_ssh_config, remote_spec, scp_args, spawn_error, ssh_args,
    ssh_config_path, unknown_host_error, upload_request, SshExecTool, SshListHostsTool,
};

fn obj(members: Vec<(&str, Json)>) -> Json {
    Json::Object(members.into_iter().map(|(k, v)| (k.to_string(), v)).collect())
}

fn s(v: &str) -> Json {
    Json::Str(v.to_string())
}

const CONFIG: &str = "# my hosts\nHost *\n  ServerAliveInterval 30\n\nHost web\n  HostName 10.0.0.5\n  User deploy\n  Port 2222\n  IdentityFile ~/.ssh/web\n\nHost db?\n  HostName 10.0.0.6\nHost bastion\n  hostname  jump.example.com \n  port notanumber\nHost\n";

#[test]
fn config_hosts_are_parsed_without_wildcards() {
    let hosts = parse_ssh_config(CONFIG);
    let aliases: Vec<&str> = hosts.iter().map(|h| h.alias.as_str()).collect();
    assert_eq!(aliases, vec!["web", "bastion"]);
    assert_eq!(hosts[0].hostname, Some("10.0.0.5".to_string()));
    assert_eq!(hosts[0].user, Some("deploy".to_string()));
    assert_eq!(hosts[0].port, Some(2222));
    assert_eq!(hosts[0].identity_file, Some("~/.ssh/web".to_string()));
    assert_eq!(hosts[1].hostname, Some("jump.example.com".to_string()));
    assert_eq!(hosts[1].port, None);
    assert!(parse_ssh_config("").is_empty());
}

#[test]
fn hosts_are_listed_one_per_line() {
    let hosts = parse_ssh_config(CONFIG);
    assert_eq!(
        list_hosts_output(Ok(hosts)),
        "Found 2 host(s). Pass these as choices to present_choices:\nweb (10.0.0.5, user: deploy, port: 2222)\nbastion (jump.example.com)"
    );
    assert_eq!(
        list_hosts_output(Ok(vec![])),
        "no hosts found in ~/.ssh/config (only wildcard Host * entries were skipped)"
    );
    assert_eq!(
        list_hosts_output(Err(config_read_error("/h/.ssh/config", "denied"))),
        "error: could not read /h/.ssh/config: denied"
    );
    assert_eq!(ssh_config_path("/home/u"), "/home/u/.ssh/config");
}

#[test]
fn exec_arguments_and_answers() {
    match exec_request(&obj(vec![("host", s("web"))])) {
        Err(e) => assert_eq!(e, "error: missing required parameter \"command\""),
        Ok(_) => panic!("expected an error"),
    }
    let q = exec_request(&obj(vec![("host", s("web")), ("command", s("uptime"))])).unwrap();
    assert_eq!(q.timeout_secs, 15);
    assert_eq!(
        ssh_args(&q),
        vec!["-o", "BatchMode=yes", "-o", "ConnectTimeout=15", "-o", "StrictHostKeyChecking=accept-new", "web", "uptime"]
            .into_iter()
            .map(|a| a.to_string())
            .collect::<Vec<String>>()
    );
    let q = exec_request(&obj(vec![
        ("host", s("web")),
        ("command", s("ls")),
        ("timeout_secs", Json::Number(JsonNumber::PosInt(3))),
    ]))
    .unwrap();
    assert_eq!(q.timeout_secs, 3);
    let hosts = parse_ssh_config(CONFIG);
    assert!(host_known(&hosts, "web"));
    assert!(!host_known(&hosts, "db?"));
    assert_eq!(
        unknown_host_error("db"),
        "error: host \"db\" not found in ~/.ssh/config. Use ssh_list_hosts to see available hosts."
    );
    assert_eq!(exec_output(Some(0), b"up 3 days", b""), "exit code: 0\nup 3 days");
    assert_eq!(exec_output(Some(1), b"", b"denied"), "exit code: 1\n[stderr]\ndenied");
    assert_eq!(exec_output(None, b"", b""), "exit code: -1");
    assert_eq!(spawn_error("ssh", "not found"), "error: failed to spawn ssh: not found");
}

#[test]
fn copies_between_machines() {
    match upload_request(&obj(vec![("host", s("web")), ("remote_path", s("/tmp/a"))])) {
        Err(e) => assert_eq!(e, "error: missing required parameter \"local_path\""),
        Ok(_) => panic!("expected an error"),
    }
    match download_request(&obj(vec![("host", s("web")), ("local_path", s("a"))])) {
        Err(e) => assert_eq!(e, "error: missing required parameter \"remote_path\""),
        Ok(_) => panic!("expected an error"),
    }
    let q = upload_request(&obj(vec![("host", s("web")), ("local_path", s("a.txt")), ("remote_path", s("/tmp/a.txt"))]))
        .unwrap();
    let dest = remote_spec(&q);
    assert_eq!(dest, "web:/tmp/a.txt");
    assert_eq!(scp_args(&q.local_path, &dest)[4], "a.txt");
    assert_eq!(copy_output("uploaded", "a.txt", &dest, true, Some(0), b""), "ok: uploaded a.txt → web:/tmp/a.txt");
    assert_eq!(copy_output("downloaded", "x", "y", false, Some(1), b"no such file"), "error (exit 1): no such file");
    assert_eq!(SshListHostsTool.name(), "ssh_list_hosts");
    assert!(SshExecTool.description().starts_with("Execute a shell command"));
}
