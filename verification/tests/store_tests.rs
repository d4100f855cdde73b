use ai_gui::config::{choose_config, config_path, Config, LegacyConfig};
use ai_gui::playbook::{find_playbook, playbook_model, playbook_prompt, Playbook};
use ai_gui::session::{Session, SessionSummary};
use ai_gui::session_table::SessionTable;
use ai_gui::settings::Settings;
use ai_gui::store::{has_json_extension, join_path, sort_newest_first, LocalPlaybookStore, LocalSessionStore};

fn session(id: &str, updated_at: i64) -> Session {
    Session {
        id: id.to_string(),
        title: format!("title {id}"),
        model_name: "m".to_string(),
        messages: Vec::new(),
        created_at: 1,
        updated_at,
        total_input_tokens: 0,
        total_output_tokens: 0,
    }
}

fn playbook(id: &str, steps: Vec<&str>) -> Playbook {
    Playbook {
        id: id.to_string(),
        title: "Deploy".to_string(),
        description: "Ship the release".to_string(),
        steps: steps.into_iter().map(|s| s.to_string()).collect(),
        notes: "Be careful".to_string(),
        model_id: Some("gemini-2.5-flash".to_string()),
        created_at: 0,
        updated_at: 0,
    }
}

#[test]
fn records_are_sorted_newest_first_and_stably() {
    let sorted = sort_newest_first(vec![session("a", 5), session("b", 9), session("c", 5), session("d", 1)]);
    let ids: Vec<&str> = sorted.iter().map(|s| s.id.as_str()).collect();
    assert_eq!(ids, vec!["b", "a", "c", "d"]);
    let empty: Vec<Session> = sort_newest_first(Vec::new());
    assert!(empty.is_empty());
}

#[test]
fn record_files() {
    assert_eq!(join_path("/data/sessions", "x.json"), "/data/sessions/x.json");
    assert_eq!(join_path("/data/sessions/", "x.json"), "/data/sessions/x.json");
    assert_eq!(join_path("", "x.json"), "x.json");
    assert_eq!(join_path("/data", "/abs.json"), "/abs.json");
    let store = LocalSessionStore::new("/data/sessions".to_string());
    assert_eq!(store.session_path("abc"), "/data/sessions/abc.json");
    assert_eq!(store.base_dir(), "/data/sessions");
    let pstore = LocalPlaybookStore::new("/data/playbooks".to_string());
    assert_eq!(pstore.playbook_path("p1"), "/data/playbooks/p1.json");
    assert!(has_json_extension("abc.json"));
    assert!(has_json_extension("a.b.json"));
    assert!(!has_json_extension(".json"));
    assert!(!has_json_extension("abc.json.bak"));
    assert!(!has_json_extension("json"));
}

#[test]
fn playbook_prompt_has_all_parts() {
    let p = playbook("p1", vec!["Build", "Test"]);
    assert_eq!(
        playbook_prompt(&p, &Some("  now please \n".to_string())),
        "# Deploy\nShip the release\n\nnow please\n\n## Steps\n\n1. Build\n2. Test\n\n\n## Notes\n\nBe careful"
    );
    let mut bare = playbook("p2", vec![]);
    bare.description = String::new();
    bare.notes = String::new();
    assert_eq!(playbook_prompt(&bare, &Some("   ".to_string())), "# Deploy");
    assert_eq!(playbook_prompt(&bare, &None), "# Deploy");
}

#[test]
fn playbooks_are_found_by_id() {
    let books = vec![playbook("p1", vec![]), playbook("p2", vec![])];
    assert_eq!(find_playbook(&books, "p2"), Ok(1));
    assert_eq!(find_playbook(&books, "zz"), Err("Playbook not found: zz".to_string()));
    let mut no_model = playbook("p3", vec![]);
    no_model.model_id = None;
    assert_eq!(
        playbook_model(&no_model),
        Err("Playbook has no model set. Please set a model before running.".to_string())
    );
    assert_eq!(playbook_model(&books[0]), Ok("gemini-2.5-flash".to_string()));
}

#[test]
fn configuration_is_migrated_and_chosen() {
    let legacy = LegacyConfig {
        gemini_api_key: Some("g".to_string()),
        openai_api_key: None,
        anthropic_api_key: Some("a".to_string()),
    };
    let c = Config::from_legacy(legacy);
    assert_eq!(c.settings.get("GEMINI_API_KEY"), Some(&"g".to_string()));
    assert_eq!(c.settings.get("OPENAI_API_KEY"), None);
    assert_eq!(c.settings.get("ANTHROPIC_API_KEY"), Some(&"a".to_string()));
    assert_eq!(c.settings.len(), 2);

    let mut current = Settings::new();
    current.insert("K".to_string(), "v".to_string());
    let chosen = choose_config(
        Some(Config { settings: current }),
        Some(LegacyConfig { gemini_api_key: Some("g".to_string()), openai_api_key: None, anthropic_api_key: None }),
    );
    assert_eq!(chosen.settings.get("K"), Some(&"v".to_string()));
    assert_eq!(chosen.settings.get("GEMINI_API_KEY"), None);

    let chosen = choose_config(
        Some(Config::default()),
        Some(LegacyConfig { gemini_api_key: Some("g".to_string()), openai_api_key: None, anthropic_api_key: None }),
    );
    assert_eq!(chosen.settings.get("GEMINI_API_KEY"), Some(&"g".to_string()));
    assert!(choose_config(None, None).settings.is_empty());
    assert_eq!(config_path("/cfg"), "/cfg/config.json");
}

#[test]
fn session_table_reads_what_was_written() {
    let mut table = SessionTable::new();
    table.insert(session("a", 1));
    table.insert(session("b", 3));
    assert_eq!(table.get("a").unwrap().updated_at, 1);
    let mut newer = session("a", 7);
    newer.title = "renamed".to_string();
    table.insert(newer);
    assert_eq!(table.get("a").unwrap().title, "renamed");
    table.remove("b");
    assert!(table.get("b").is_none());
    table.remove("zz");
    assert!(table.get("a").is_some());
}

#[test]
fn loaded_sessions_keep_the_last_of_an_id_and_list_newest_first() {
    let table = SessionTable::from_loaded(vec![session("a", 1), session("b", 5), session("a", 9)]);
    assert_eq!(table.get("a").unwrap().updated_at, 9);
    let summaries: Vec<SessionSummary> = table.summaries();
    let ids: Vec<&str> = summaries.iter().map(|s| s.id.as_str()).collect();
    assert_eq!(ids, vec!["a", "b"]);
    assert_eq!(summaries[0].title, "title a");
}

#[test]
fn different_ids_get_different_files() {
    let store = LocalSessionStore::new("/data/sessions".to_string());
    assert_ne!(store.session_path("a"), store.session_path("a.json"));
    assert_ne!(store.session_path("ab"), store.session_path("a"));
}

#[test]
fn a_saved_configuration_loads_back() {
    let none = || LegacyConfig { gemini_api_key: None, openai_api_key: None, anthropic_api_key: None };
    let mut saved = Settings::new();
    saved.insert("GEMINI_API_KEY".to_string(), "k".to_string());
    saved.insert("URL".to_string(), "u".to_string());
    let loaded = choose_config(Some(Config { settings: saved }), Some(none()));
    assert_eq!(loaded.settings.len(), 2);
    assert_eq!(loaded.settings.get("GEMINI_API_KEY"), Some(&"k".to_string()));
    assert_eq!(loaded.settings.get("URL"), Some(&"u".to_string()));
    // Empty settings load as empty settings.
    assert!(choose_config(Some(Config::default()), Some(none())).settings.is_empty());
}
