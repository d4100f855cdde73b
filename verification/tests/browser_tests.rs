use ai_gui::json::{Json, JsonNumber};
use ai_gui::tools::browser::{
    activate_answer, browser_call, browser_gate, browser_tools, chrome_executable, click_answer,
    list_tabs_answer, page_text_answer, query_all_answer, screenshot_answer, search_url, tab_not_found, truncate_text,
    type_answer, url_encode_query, BrowserCall, BrowserTool, ElementAction, Gate, HostOs,
};

fn obj(members: Vec<(&str, Json)>) -> Json {
    Json::Object(members.into_iter().map(|(k, v)| (k.to_string(), v)).collect())
}

fn s(v: &str) -> Json {
    Json::Str(v.to_string())
}

#[test]
fn url_encoding_keeps_unreserved_and_encodes_the_rest() {
    assert_eq!(url_encode_query("Rust-lang_1.0~x"), "Rust-lang_1.0~x");
    assert_eq!(url_encode_query("a b&c=d"), "a+b%26c%3Dd");
    assert_eq!(url_encode_query("日本"), "%E6%97%A5%E6%9C%AC");
    assert_eq!(url_encode_query(""), "");
}

#[test]
fn search_url_is_a_google_query_in_japanese() {
    assert_eq!(search_url("rust verus"), "https://www.google.com/search?q=rust+verus&hl=ja");
}

#[test]
fn chrome_path_per_system() {
    assert_eq!(chrome_executable(HostOs::Other, &vec![]), "/usr/bin/google-chrome");
    assert_eq!(
        chrome_executable(HostOs::MacOs, &vec![false]),
        "/Applications/Google Chrome.app/Contents/MacOS/Google Chrome"
    );
    assert_eq!(
        chrome_executable(HostOs::Windows, &vec![false, true]),
        "C:\\Program Files (x86)\\Google\\Chrome\\Application\\chrome.exe"
    );
    assert_eq!(
        chrome_executable(HostOs::Windows, &vec![false, false]),
        "C:\\Program Files\\Google\\Chrome\\Application\\chrome.exe"
    );
}

#[test]
fn truncation_counts_characters() {
    assert_eq!(truncate_text("hello", 10), "hello");
    assert_eq!(truncate_text("hello", 5), "hello");
    assert_eq!(truncate_text("hello world", 5), "hello…[truncated at 5 chars]");
    // Two characters of three bytes each fit a limit of two characters.
    assert_eq!(truncate_text("ああ", 2), "ああ");
    assert_eq!(truncate_text("ああい", 2), "ああ…[truncated at 2 chars]");
    assert_eq!(truncate_text("ああ", 0), "…[truncated at 0 chars]");
}

#[test]
fn page_text_is_cut_by_characters() {
    assert_eq!(page_text_answer(Ok(Some("日本語".to_string())), 3, false), "日本語");
    assert_eq!(page_text_answer(Ok(Some("日本語".to_string())), 2, true), "日本…[truncated at 2 chars]");
    assert_eq!(
        query_all_answer(Ok(Some("[\"é\"]".to_string())), 5, "p"),
        "[\"é\"]"
    );
    assert_eq!(
        query_all_answer(Ok(Some("[\"éé\"]".to_string())), 5, "p"),
        "[\"éé\"…[truncated at 5 chars]"
    );
}

#[test]
fn encoded_queries_decode_back() {
    let q = "日本 a+b%";
    let enc = url_encode_query(q);
    let mut out: Vec<u8> = Vec::new();
    let cs: Vec<char> = enc.chars().collect();
    let mut i = 0;
    while i < cs.len() {
        if cs[i] == '+' {
            out.push(b' ');
            i += 1;
        } else if cs[i] == '%' {
            let hex: String = cs[i + 1..i + 3].iter().collect();
            assert_eq!(hex, hex.to_uppercase());
            out.push(u8::from_str_radix(&hex, 16).unwrap());
            i += 3;
        } else {
            out.push(cs[i] as u8);
            i += 1;
        }
    }
    assert_eq!(out, q.as_bytes());
    // 6 bytes of 日本 and the three reserved bytes take three characters each.
    assert_eq!(enc.len(), 6 * 3 + 1 + 1 + 3 + 1 + 3);
}

#[test]
fn search_needs_a_query() {
    match browser_call(BrowserTool::Search, &obj(vec![])) {
        Err(e) => assert_eq!(e, "Error: 'query' is required"),
        Ok(_) => panic!("expected an error"),
    }
    match browser_call(BrowserTool::Search, &obj(vec![("query", s("a b"))])) {
        Ok(BrowserCall::Search { url }) => {
            assert_eq!(url, "https://www.google.com/search?q=a+b&hl=ja")
        }
        _ => panic!("expected a search"),
    }
}

#[test]
fn type_reads_selector_then_text() {
    match browser_call(BrowserTool::Type, &obj(vec![("text", s("x"))])) {
        Err(e) => assert_eq!(e, "Error: 'selector' is required"),
        Ok(_) => panic!("expected an error"),
    }
    match browser_call(BrowserTool::Type, &obj(vec![("selector", s("#q"))])) {
        Err(e) => assert_eq!(e, "Error: 'text' is required"),
        Ok(_) => panic!("expected an error"),
    }
    match browser_call(
        BrowserTool::Type,
        &obj(vec![("selector", s("a[name='q']")), ("text", s("hi")), ("submit", Json::Bool(true))]),
    ) {
        Ok(BrowserCall::Type { selector, text, submit, clear_script, submit_script }) => {
            assert_eq!(selector, "a[name='q']");
            assert_eq!(text, "hi");
            assert!(submit);
            assert_eq!(
                clear_script,
                "(function(){ var el=document.querySelector('a[name=\\'q\\']'); if(el){el.value='';el.dispatchEvent(new Event('input',{bubbles:true}));return true;} return false; })()"
            );
            assert!(submit_script.contains("document.querySelector('a[name=\\'q\\']')"));
        }
        _ => panic!("expected a type call"),
    }
}

#[test]
fn limits_default_and_can_be_given() {
    match browser_call(BrowserTool::GetText, &obj(vec![])) {
        Ok(BrowserCall::GetText { max_chars }) => assert_eq!(max_chars, 8000),
        _ => panic!("expected get text"),
    }
    match browser_call(
        BrowserTool::GetText,
        &obj(vec![("max_chars", Json::Number(JsonNumber::PosInt(12)))]),
    ) {
        Ok(BrowserCall::GetText { max_chars }) => assert_eq!(max_chars, 12),
        _ => panic!("expected get text"),
    }
    match browser_call(BrowserTool::GetLinks, &obj(vec![])) {
        Ok(BrowserCall::GetLinks { script }) => assert!(script.contains(".slice(0, 30)")),
        _ => panic!("expected get links"),
    }
}

#[test]
fn find_text_quotes_the_pattern_as_json() {
    match browser_call(BrowserTool::FindText, &obj(vec![("pattern", s("say \"hi\"\n"))])) {
        Ok(BrowserCall::FindText { script }) => {
            assert!(script.contains("var pattern = \"say \\\"hi\\\"\\n\";"));
            assert!(script.contains("var contextLines = 3;"));
            assert!(script.contains("var maxMatches = 10;"));
        }
        _ => panic!("expected find text"),
    }
}

#[test]
fn element_script_names_the_selector() {
    match browser_call(BrowserTool::GetElement, &obj(vec![("selector", s("main"))])) {
        Ok(BrowserCall::GetElement { script, max_chars }) => {
            assert_eq!(max_chars, 4000);
            assert!(script.contains("document.querySelector(\"main\")"));
            assert!(script.contains("'Element not found: main'"));
        }
        _ => panic!("expected get element"),
    }
}

#[test]
fn activate_tab_needs_an_index() {
    match browser_call(BrowserTool::ActivateTab, &obj(vec![])) {
        Err(e) => assert_eq!(e, "Error: 'index' is required"),
        Ok(_) => panic!("expected an error"),
    }
    match browser_call(
        BrowserTool::ActivateTab,
        &obj(vec![("index", Json::Number(JsonNumber::PosInt(2)))]),
    ) {
        Ok(BrowserCall::ActivateTab { index }) => assert_eq!(index, 2),
        _ => panic!("expected activate"),
    }
}

#[test]
fn gates_follow_the_browser_state() {
    assert!(matches!(browser_gate(BrowserTool::Search, false, false), Gate::Launch));
    assert!(matches!(browser_gate(BrowserTool::Navigate, true, false), Gate::Ready));
    match browser_gate(BrowserTool::GetText, true, false) {
        Gate::Answer(a) => assert_eq!(a, "Browser not open. Use browser_navigate to open a URL first."),
        _ => panic!("expected an answer"),
    }
    match browser_gate(BrowserTool::Screenshot, false, false) {
        Gate::Answer(a) => assert_eq!(a, "Browser not open. Use browser_navigate first."),
        _ => panic!("expected an answer"),
    }
    match browser_gate(BrowserTool::Close, false, false) {
        Gate::Answer(a) => assert_eq!(a, "Browser is not currently open."),
        _ => panic!("expected an answer"),
    }
    match browser_gate(BrowserTool::Click, true, false) {
        Gate::Answer(a) => assert_eq!(a, "Browser not open."),
        _ => panic!("expected an answer"),
    }
    assert!(matches!(browser_gate(BrowserTool::ListTabs, true, false), Gate::Ready));
}

#[test]
fn answers_of_the_tools() {
    assert_eq!(
        click_answer("#go", ElementAction::Done(true)),
        "Clicked '#go' — page navigated"
    );
    assert_eq!(
        click_answer("#go", ElementAction::NotFound("none".to_string())),
        "Element not found '#go': none"
    );
    assert_eq!(
        type_answer("#q", "abc", true, ElementAction::Done(false)),
        "Typed 'abc' into '#q' and submitted"
    );
    assert_eq!(type_answer("#q", "abc", false, ElementAction::Done(false)), "Typed 'abc' into '#q'");
    assert_eq!(tab_not_found(7), "Tab index 7 not found");
    assert_eq!(activate_answer(1, Ok(Some("Home".to_string()))), "Activated tab 1: Home");
    assert_eq!(activate_answer(1, Ok(None)), "Activated tab 1: ");
    assert_eq!(
        query_all_answer(Ok(Some("[]".to_string())), 8000, ".card"),
        "No elements matched selector: .card"
    );
    assert_eq!(screenshot_answer(Ok(vec![1, 2, 3])), "SCREENSHOT:image/png:AQID");
    assert_eq!(screenshot_answer(Err("boom".to_string())), "Screenshot error: boom");
}

#[test]
fn tabs_are_listed_as_json() {
    let tabs = vec![
        (Some("A \"quoted\" tab".to_string()), Some("https://a.example/".to_string())),
        (None, None),
    ];
    assert_eq!(
        list_tabs_answer(Ok(tabs)),
        "[{\"index\":0,\"title\":\"A \\\"quoted\\\" tab\",\"url\":\"https://a.example/\"},{\"index\":1,\"title\":\"\",\"url\":\"about:blank\"}]"
    );
    assert_eq!(list_tabs_answer(Ok(vec![])), "[]");
}

#[test]
fn browser_tools_in_order() {
    let tools = browser_tools();
    assert_eq!(tools.len(), 16);
    assert_eq!(tools[0].name(), "browser_search");
    assert_eq!(tools[15].name(), "browser_activate_tab");
    assert!(tools[0].description().starts_with("Search the web"));
}
