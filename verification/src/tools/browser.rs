//! The browser tools: what each one reads from its arguments, when it needs
//! the browser or a page, the scripts it runs in the page, and the text it
//! answers. Driving Chrome itself is done by the caller.
use vstd::prelude::*;
use vstd::utf8::encode_utf8;
use vstd::string::StringSliceAdditionalSpecFns;
use crate::encoding::{base64_encode, base64_len, base64_seq, json_quote, json_quoted};
use crate::json::{field_bool, field_str, field_u64, Json, JsonV};
use crate::text::{chars_of, concat2, concat3, dec_seq, owned, push_str, string_of_range, u64_to_text};

verus! {

broadcast use vstd::utf8::encode_utf8_valid_utf8;

// ---------------------------------------------------------------------------
// Search URLs
// ---------------------------------------------------------------------------

/// The bytes kept as they are in a query: ASCII letters, digits and `-_.~`.
pub open spec fn is_unreserved(b: u8) -> bool {
    (65 <= b <= 90) || (97 <= b <= 122) || (48 <= b <= 57) || b == 45 || b == 95 || b == 46 || b
        == 126
}

/// An uppercase hexadecimal digit.
pub open spec fn hex_upper(d: int) -> char {
    if d < 10 {
        (48 + d) as char
    } else {
        (55 + d) as char
    }
}

/// How one byte of the query is written: itself, `+` for a space, else `%`
/// and two uppercase hexadecimal digits.
pub open spec fn encode_byte(b: u8) -> Seq<char> {
    if is_unreserved(b) {
        seq![b as char]
    } else if b == 32 {
        seq!['+']
    } else {
        seq!['%', hex_upper((b / 16) as int), hex_upper((b % 16) as int)]
    }
}

/// The bytes of a query, each written by `encode_byte`.
pub open spec fn encode_bytes(bs: Seq<u8>) -> Seq<char>
    decreases bs.len(),
{
    if bs.len() == 0 {
        Seq::empty()
    } else {
        encode_bytes(bs.drop_last()) + encode_byte(bs.last())
    }
}

fn hex_digit(d: u8) -> (c: char)
    requires
        d < 16,
    ensures
        c == hex_upper(d as int),
{
    if d < 10 {
        (48 + d) as char
    } else {
        (55 + d) as char
    }
}

/// Percent-encodes a search query for a URL query string: the UTF-8 bytes
/// of the query, spaces as `+`.
pub fn url_encode_query(s: &str) -> (r: String)
    ensures
        r@ == encode_bytes(encode_utf8(s@)),
{
    let bytes = s.as_bytes();
    let mut out = String::new();
    let mut i: usize = 0;
    while i < bytes.len()
        invariant
            i <= bytes@.len(),
            bytes@ == encode_utf8(s@),
            out@ == encode_bytes(bytes@.take(i as int)),
        decreases bytes@.len() - i,
    {
        let b = bytes[i];
        assert(bytes@.take(i + 1).drop_last() =~= bytes@.take(i as int));
        assert(bytes@.take(i + 1).last() == b);
        if (65 <= b && b <= 90) || (97 <= b && b <= 122) || (48 <= b && b <= 57) || b == 45 || b
            == 95 || b == 46 || b == 126 {
            out.push(b as char);
            assert(out@ =~= encode_bytes(bytes@.take(i + 1)));
        } else if b == 32 {
            out.push('+');
            assert(out@ =~= encode_bytes(bytes@.take(i + 1)));
        } else {
            out.push('%');
            out.push(hex_digit(b / 16));
            out.push(hex_digit(b % 16));
            assert(out@ =~= encode_bytes(bytes@.take(i + 1)));
        }
        i = i + 1;
    }
    assert(bytes@.take(bytes@.len() as int) =~= bytes@);
    out
}

/// The Google results page for a query, in Japanese.
pub fn search_url(query: &str) -> (r: String)
    ensures
        r@ == "https://www.google.com/search?q="@ + encode_bytes(encode_utf8(query@)) + "&hl=ja"@,
{
    concat3("https://www.google.com/search?q=", url_encode_query(query).as_str(), "&hl=ja")
}

// ---------------------------------------------------------------------------
// Chrome
// ---------------------------------------------------------------------------

/// The operating systems Chrome is looked for on.
#[derive(PartialEq, Eq, Structural, Clone, Copy)]
pub enum HostOs {
    Windows,
    MacOs,
    Other,
}

/// Where Chrome is looked for, in order of preference.
pub open spec fn chrome_candidate_paths(os: HostOs) -> Seq<Seq<char>> {
    match os {
        HostOs::Windows => seq![
            "C:\\Program Files\\Google\\Chrome\\Application\\chrome.exe"@,
            "C:\\Program Files (x86)\\Google\\Chrome\\Application\\chrome.exe"@,
        ],
        HostOs::MacOs => seq!["/Applications/Google Chrome.app/Contents/MacOS/Google Chrome"@],
        HostOs::Other => seq!["/usr/bin/google-chrome"@],
    }
}

/// The places Chrome is looked for on `os`.
pub fn chrome_candidates(os: HostOs) -> (r: Vec<String>)
    ensures
        r@.map_values(|s: String| s@) == chrome_candidate_paths(os),
{
    let mut v: Vec<String> = Vec::new();
    match os {
        HostOs::Windows => {
            v.push(owned("C:\\Program Files\\Google\\Chrome\\Application\\chrome.exe"));
            v.push(owned("C:\\Program Files (x86)\\Google\\Chrome\\Application\\chrome.exe"));
        },
        HostOs::MacOs => {
            v.push(owned("/Applications/Google Chrome.app/Contents/MacOS/Google Chrome"));
        },
        HostOs::Other => {
            v.push(owned("/usr/bin/google-chrome"));
        },
    }
    assert(v@.map_values(|s: String| s@) =~= chrome_candidate_paths(os));
    v
}

/// The Chrome executable: on Windows the first candidate that exists, or
/// the first candidate when none does; elsewhere the one fixed path.
/// `exists` says, for each candidate in order, whether it is there.
pub fn chrome_executable(os: HostOs, exists: &Vec<bool>) -> (r: String)
    ensures
        os != HostOs::Windows ==> r@ == chrome_candidate_paths(os)[0],
        os == HostOs::Windows ==> (exists|i: int|
            0 <= i < 2 && i < exists@.len() && exists@[i] && (forall|k: int|
                0 <= k < i ==> !exists@[k]) && r@ == chrome_candidate_paths(os)[i]) || ((forall|
            k: int|
            0 <= k < 2 && k < exists@.len() ==> !exists@[k]) && r@ == chrome_candidate_paths(os)[0]),
{
    let candidates = chrome_candidates(os);
    let ghost cv = candidates@.map_values(|s: String| s@);
    assert(cv.len() == candidates@.len());
    assert(cv[0] == candidates@[0]@);
    if os == HostOs::Windows {
        assert(cv[1] == candidates@[1]@);
        let mut i: usize = 0;
        while i < 2
            invariant
                i <= 2,
                os == HostOs::Windows,
                cv == candidates@.map_values(|s: String| s@),
                cv == chrome_candidate_paths(os),
                candidates@.len() == 2,
                forall|k: int| 0 <= k < i && k < exists@.len() ==> !exists@[k],
            decreases 2 - i,
        {
            if i < exists.len() && exists[i] {
                assert(cv[i as int] == candidates@[i as int]@);
                return candidates[i].clone();
            }
            i = i + 1;
        }
    }
    candidates[0].clone()
}

// ---------------------------------------------------------------------------
// The tools
// ---------------------------------------------------------------------------

/// The browser tools, all driving one shared Chrome.
#[derive(PartialEq, Eq, Structural, Clone, Copy)]
pub enum BrowserTool {
    Search,
    Navigate,
    GetUrl,
    GetText,
    FindText,
    GetElement,
    QuerySelectorAll,
    GetLinks,
    Click,
    Type,
    Screenshot,
    Close,
    OpenTab,
    CloseTab,
    ListTabs,
    ActivateTab,
}

/// The browser tools in the order they are offered.
pub open spec fn browser_tool_order() -> Seq<BrowserTool> {
    seq![
        BrowserTool::Search,
        BrowserTool::Navigate,
        BrowserTool::GetUrl,
        BrowserTool::GetText,
        BrowserTool::FindText,
        BrowserTool::GetElement,
        BrowserTool::QuerySelectorAll,
        BrowserTool::GetLinks,
        BrowserTool::Click,
        BrowserTool::Type,
        BrowserTool::Screenshot,
        BrowserTool::Close,
        BrowserTool::OpenTab,
        BrowserTool::CloseTab,
        BrowserTool::ListTabs,
        BrowserTool::ActivateTab,
    ]
}

/// All browser tools, in the order they are offered.
pub fn browser_tools() -> (r: Vec<BrowserTool>)
    ensures
        r@ == browser_tool_order(),
{
    let r = vec![
        BrowserTool::Search,
        BrowserTool::Navigate,
        BrowserTool::GetUrl,
        BrowserTool::GetText,
        BrowserTool::FindText,
        BrowserTool::GetElement,
        BrowserTool::QuerySelectorAll,
        BrowserTool::GetLinks,
        BrowserTool::Click,
        BrowserTool::Type,
        BrowserTool::Screenshot,
        BrowserTool::Close,
        BrowserTool::OpenTab,
        BrowserTool::CloseTab,
        BrowserTool::ListTabs,
        BrowserTool::ActivateTab,
    ];
    assert(r@ =~= browser_tool_order());
    r
}

/// The name a model calls a browser tool by.
pub open spec fn browser_tool_name(t: BrowserTool) -> Seq<char> {
    match t {
        BrowserTool::Search => "browser_search"@,
        BrowserTool::Navigate => "browser_navigate"@,
        BrowserTool::GetUrl => "browser_get_url"@,
        BrowserTool::GetText => "browser_get_text"@,
        BrowserTool::FindText => "browser_find_text"@,
        BrowserTool::GetElement => "browser_get_element"@,
        BrowserTool::QuerySelectorAll => "browser_query_selector_all"@,
        BrowserTool::GetLinks => "browser_get_links"@,
        BrowserTool::Click => "browser_click"@,
        BrowserTool::Type => "browser_type"@,
        BrowserTool::Screenshot => "browser_screenshot"@,
        BrowserTool::Close => "browser_close"@,
        BrowserTool::OpenTab => "browser_open_tab"@,
        BrowserTool::CloseTab => "browser_close_tab"@,
        BrowserTool::ListTabs => "browser_list_tabs"@,
        BrowserTool::ActivateTab => "browser_activate_tab"@,
    }
}

/// What a model is told a browser tool does.
pub open spec fn browser_tool_description(t: BrowserTool) -> Seq<char> {
    match t {
        BrowserTool::Search => SEARCH_DESCRIPTION@,
        BrowserTool::Navigate => NAVIGATE_DESCRIPTION@,
        BrowserTool::GetUrl => GET_URL_DESCRIPTION@,
        BrowserTool::GetText => GET_TEXT_DESCRIPTION@,
        BrowserTool::FindText => FIND_TEXT_DESCRIPTION@,
        BrowserTool::GetElement => GET_ELEMENT_DESCRIPTION@,
        BrowserTool::QuerySelectorAll => QUERY_ALL_DESCRIPTION@,
        BrowserTool::GetLinks => GET_LINKS_DESCRIPTION@,
        BrowserTool::Click => CLICK_DESCRIPTION@,
        BrowserTool::Type => TYPE_DESCRIPTION@,
        BrowserTool::Screenshot => SCREENSHOT_DESCRIPTION@,
        BrowserTool::Close => CLOSE_DESCRIPTION@,
        BrowserTool::OpenTab => OPEN_TAB_DESCRIPTION@,
        BrowserTool::CloseTab => CLOSE_TAB_DESCRIPTION@,
        BrowserTool::ListTabs => LIST_TABS_DESCRIPTION@,
        BrowserTool::ActivateTab => ACTIVATE_TAB_DESCRIPTION@,
    }
}

pub const SEARCH_DESCRIPTION: &'static str = "Search the web by navigating directly to Google search results. This is the PREFERRED way to search \u{2014} much more reliable than typing in the search box. Use this whenever you need to search for something. Returns a JSON array of {title, url, description} objects.";
pub const NAVIGATE_DESCRIPTION: &'static str = "Opens a URL in Chrome. Launches Chrome automatically if it is not already open. Returns the page title once navigation completes. Always include the full URL with http:// or https://.";
pub const GET_URL_DESCRIPTION: &'static str = "Returns the current URL of the browser page. Useful for confirming navigation succeeded or determining where you are.";
pub const GET_TEXT_DESCRIPTION: &'static str = "Gets the visible text content of the current browser page. Use this to read page content, search results, listings, or any text on screen. Returns up to 8000 characters by default.";
pub const FIND_TEXT_DESCRIPTION: &'static str = "Search for a text pattern within the current page and return matching lines with surrounding context (like grep -C). Use this instead of browser_get_text when you are looking for specific information \u{2014} it avoids reading the entire page.";
pub const GET_ELEMENT_DESCRIPTION: &'static str = "Get the text content of a specific DOM element (CSS selector). Use this to extract a focused section of the page (e.g. 'main', 'article', '#search-results', '.listing') instead of reading the entire page with browser_get_text. Prefer this tool when the page structure is known.";
pub const QUERY_ALL_DESCRIPTION: &'static str = "Returns the outerHTML of every DOM element that matches a CSS selector \u{2014} equivalent to Array.from(document.querySelectorAll(selector)).map(e => e.outerHTML). Useful for extracting repeated structures such as search result cards, table rows, or list items. Returns a JSON array of HTML strings.";
pub const GET_LINKS_DESCRIPTION: &'static str = "Gets all links on the current page as a JSON array of {text, href} objects. Useful for discovering navigation options, search results, or URLs to follow.";
pub const CLICK_DESCRIPTION: &'static str = "Clicks an element on the current page identified by a CSS selector. Examples: 'button.search-submit', 'a[href*=\"example\"]', 'input[type=\"submit\"]'.";
pub const TYPE_DESCRIPTION: &'static str = "Types text into an input element. Clears any existing value first. Set submit:true to press Enter after typing (useful for search boxes).";
pub const SCREENSHOT_DESCRIPTION: &'static str = "Takes a screenshot of the current browser page and returns it as a base64 PNG image. Use this when you need to visually inspect the page layout or verify content.";
pub const CLOSE_DESCRIPTION: &'static str = "Closes the Chrome browser window and frees all browser resources.";
pub const OPEN_TAB_DESCRIPTION: &'static str = "Opens a URL in a NEW browser tab and makes it the active tab. Use this instead of browser_navigate when you want to preserve the current page. Each agent session should open its own tab with this tool and close it with browser_close_tab when finished.";
pub const CLOSE_TAB_DESCRIPTION: &'static str = "Closes the current active tab and switches focus to another open tab. If no other tabs exist, a blank tab is created. Use this to clean up after a session that opened its own tab with browser_open_tab.";
pub const LIST_TABS_DESCRIPTION: &'static str = "Returns a JSON array of all open browser tabs with their index, title, and url. Use the index value with browser_activate_tab to switch to a specific tab.";
pub const ACTIVATE_TAB_DESCRIPTION: &'static str = "Switches the active tab to the tab at the given index. Use browser_list_tabs first to find the index of the tab you want.";

impl BrowserTool {
    /// The name a model calls the tool by.
    pub fn name(&self) -> (r: &'static str)
        ensures
            r@ == browser_tool_name(*self),
    {
        match self {
            BrowserTool::Search => "browser_search",
            BrowserTool::Navigate => "browser_navigate",
            BrowserTool::GetUrl => "browser_get_url",
            BrowserTool::GetText => "browser_get_text",
            BrowserTool::FindText => "browser_find_text",
            BrowserTool::GetElement => "browser_get_element",
            BrowserTool::QuerySelectorAll => "browser_query_selector_all",
            BrowserTool::GetLinks => "browser_get_links",
            BrowserTool::Click => "browser_click",
            BrowserTool::Type => "browser_type",
            BrowserTool::Screenshot => "browser_screenshot",
            BrowserTool::Close => "browser_close",
            BrowserTool::OpenTab => "browser_open_tab",
            BrowserTool::CloseTab => "browser_close_tab",
            BrowserTool::ListTabs => "browser_list_tabs",
            BrowserTool::ActivateTab => "browser_activate_tab",
        }
    }

    /// What a model is told the tool does.
    pub fn description(&self) -> (r: &'static str)
        ensures
            r@ == browser_tool_description(*self),
    {
        match self {
            BrowserTool::Search => SEARCH_DESCRIPTION,
            BrowserTool::Navigate => NAVIGATE_DESCRIPTION,
            BrowserTool::GetUrl => GET_URL_DESCRIPTION,
            BrowserTool::GetText => GET_TEXT_DESCRIPTION,
            BrowserTool::FindText => FIND_TEXT_DESCRIPTION,
            BrowserTool::GetElement => GET_ELEMENT_DESCRIPTION,
            BrowserTool::QuerySelectorAll => QUERY_ALL_DESCRIPTION,
            BrowserTool::GetLinks => GET_LINKS_DESCRIPTION,
            BrowserTool::Click => CLICK_DESCRIPTION,
            BrowserTool::Type => TYPE_DESCRIPTION,
            BrowserTool::Screenshot => SCREENSHOT_DESCRIPTION,
            BrowserTool::Close => CLOSE_DESCRIPTION,
            BrowserTool::OpenTab => OPEN_TAB_DESCRIPTION,
            BrowserTool::CloseTab => CLOSE_TAB_DESCRIPTION,
            BrowserTool::ListTabs => LIST_TABS_DESCRIPTION,
            BrowserTool::ActivateTab => ACTIVATE_TAB_DESCRIPTION,
        }
    }
}

// ---------------------------------------------------------------------------
// Scripts run in the page
// ---------------------------------------------------------------------------

/// Reads the results of a Google results page as a JSON array.
pub const SEARCH_SCRIPT: &'static str = "(function() {\n                        var rso = document.querySelector('#rso');\n                        if (!rso) return '[]';\n                        var items = rso.querySelectorAll('[data-rpos]');\n                        var results = [];\n                        items.forEach(function(item) {\n                            var h3 = item.querySelector('h3');\n                            if (!h3) return;\n                            var anchor = h3.closest('a');\n                            if (!anchor) return;\n                            var url = anchor.href || '';\n                            var title = (h3.innerText || h3.textContent || '').trim();\n                            var descEl = item.querySelector('div[style*=\"-webkit-line-clamp\"]');\n                            var desc = descEl\n                                ? (descEl.innerText || descEl.textContent || '').trim()\n                                : '';\n                            if (title) results.push({ title: title, url: url, description: desc });\n                        });\n                        return JSON.stringify(results);\n                    })()";

/// Hides that the page is driven by automation.
pub const WEBDRIVER_SCRIPT: &'static str = "Object.defineProperty(navigator,'webdriver',{get:()=>undefined})";

/// The visible text of the page.
pub const PAGE_TEXT_SCRIPT: &'static str = "document.body ? document.body.innerText : ''";

/// The links script, before the number of links.
pub const LINKS_SCRIPT_HEAD: &'static str = "JSON.stringify(\n                Array.from(document.querySelectorAll('a[href]'))\n                    .filter(a => a.innerText.trim().length > 0 && a.href.startsWith('http'))\n                    .slice(0, ";

/// The links script, after the number of links.
pub const LINKS_SCRIPT_TAIL: &'static str = ")\n                    .map(a => ({text: a.innerText.trim().replace(/\\s+/g, ' '), href: a.href}))\n            )";

/// The script that empties an input, before the selector.
pub const CLEAR_SCRIPT_HEAD: &'static str = "(function(){ var el=document.querySelector('";

/// The script that empties an input, after the selector.
pub const CLEAR_SCRIPT_TAIL: &'static str = "'); if(el){el.value='';el.dispatchEvent(new Event('input',{bubbles:true}));return true;} return false; })()";

/// The script that presses Enter in an input, before the selector.
pub const SUBMIT_SCRIPT_HEAD: &'static str = "(function(){\n                                var el=document.querySelector('";

/// The script that presses Enter in an input, after the selector.
pub const SUBMIT_SCRIPT_TAIL: &'static str = "');\n                                if(!el)return;\n                                ['keydown','keypress','keyup'].forEach(function(t){\n                                    el.dispatchEvent(new KeyboardEvent(t,{\n                                        key:'Enter',code:'Enter',keyCode:13,\n                                        which:13,bubbles:true,cancelable:true\n                                    }));\n                                });\n                                if(el.form){\n                                    try{el.form.requestSubmit();}\n                                    catch(e){try{el.form.submit();}catch(e2){}}\n                                }\n                            })();";

/// The page search script, before the pattern.
pub const FIND_SCRIPT_A: &'static str = "(function() {\n                var pattern = ";

/// The page search script, between the pattern and the context size.
pub const FIND_SCRIPT_B: &'static str = ";\n                var contextLines = ";

/// The page search script, between the context size and the match limit.
pub const FIND_SCRIPT_C: &'static str = ";\n                var maxMatches = ";

/// The page search script, after the match limit.
pub const FIND_SCRIPT_D: &'static str = ";\n                var text = document.body ? document.body.innerText : '';\n                var lines = text.split('\\n');\n                var results = [];\n                var lastEnd = -1;\n                for (var i = 0; i < lines.length && results.length < maxMatches; i++) {\n                    if (lines[i].toLowerCase().indexOf(pattern.toLowerCase()) !== -1) {\n                        var start = Math.max(0, i - contextLines);\n                        var end = Math.min(lines.length - 1, i + contextLines);\n                        if (start <= lastEnd) start = lastEnd + 1;\n                        if (start > end) continue;\n                        lastEnd = end;\n                        var chunk = lines.slice(start, end + 1).map(function(l, idx) {\n                            return (start + idx === i ? '>>>' : '   ') + ' ' + l.trim();\n                        }).filter(function(l) { return l.trim().length > 3; }).join('\\n');\n                        if (chunk.trim()) results.push(chunk);\n                    }\n                }\n                if (results.length === 0) return 'No matches found for: ' + pattern;\n                return results.join('\\n---\\n') + '\\n(' + results.length + ' match(es))';\n            })()";

/// The element text script, before the quoted selector.
pub const ELEMENT_SCRIPT_A: &'static str = "(function() {\n                var el = document.querySelector(";

/// The element text script, between the quoted and the bare selector.
pub const ELEMENT_SCRIPT_B: &'static str = ");\n                if (!el) return 'Element not found: ";

/// The element text script, after the bare selector.
pub const ELEMENT_SCRIPT_C: &'static str = "';\n                return el.innerText || el.textContent || '';\n            })()";

/// The outerHTML script, before the quoted selector.
pub const QUERY_ALL_SCRIPT_HEAD: &'static str = "JSON.stringify(\n                Array.from(document.querySelectorAll(";

/// The outerHTML script, after the quoted selector.
pub const QUERY_ALL_SCRIPT_TAIL: &'static str = "))\n                    .map(function(e) { return e.outerHTML; })\n            )";

/// `s` with each `'` preceded by a backslash.
pub open spec fn escape_quotes(s: Seq<char>) -> Seq<char>
    decreases s.len(),
{
    if s.len() == 0 {
        Seq::empty()
    } else {
        escape_quotes(s.drop_last()) + if s.last() == '\'' {
            seq!['\\', '\'']
        } else {
            seq![s.last()]
        }
    }
}

/// Escapes the single quotes of a selector put in a quoted script string.
pub fn escape_selector(s: &str) -> (r: String)
    ensures
        r@ == escape_quotes(s@),
{
    let cs = crate::text::chars_of(s);
    let mut out = String::new();
    let mut i: usize = 0;
    while i < cs.len()
        invariant
            i <= cs@.len(),
            cs@ == s@,
            out@ == escape_quotes(cs@.take(i as int)),
        decreases cs@.len() - i,
    {
        assert(cs@.take(i + 1).drop_last() =~= cs@.take(i as int));
        if cs[i] == '\'' {
            out.push('\\');
            out.push('\'');
        } else {
            out.push(cs[i]);
        }
        assert(out@ =~= escape_quotes(cs@.take(i + 1)));
        i = i + 1;
    }
    assert(cs@.take(cs@.len() as int) =~= cs@);
    out
}

/// The links script for at most `max` links.
pub open spec fn links_script_text(max: u64) -> Seq<char> {
    LINKS_SCRIPT_HEAD@ + dec_seq(max as nat) + LINKS_SCRIPT_TAIL@
}

/// The script that empties the input matched by an escaped selector.
pub open spec fn clear_script_text(safe: Seq<char>) -> Seq<char> {
    CLEAR_SCRIPT_HEAD@ + safe + CLEAR_SCRIPT_TAIL@
}

/// The script that presses Enter in the input matched by an escaped
/// selector and submits its form.
pub open spec fn submit_script_text(safe: Seq<char>) -> Seq<char> {
    SUBMIT_SCRIPT_HEAD@ + safe + SUBMIT_SCRIPT_TAIL@
}

/// The page search script for a pattern, context size and match limit.
pub open spec fn find_script_text(pattern: Seq<char>, context: u64, max_matches: u64) -> Seq<char> {
    FIND_SCRIPT_A@ + json_quoted(pattern) + FIND_SCRIPT_B@ + dec_seq(context as nat) + FIND_SCRIPT_C@
        + dec_seq(max_matches as nat) + FIND_SCRIPT_D@
}

/// The script that reads the text of the element a selector matches.
pub open spec fn element_script_text(selector: Seq<char>) -> Seq<char> {
    ELEMENT_SCRIPT_A@ + json_quoted(selector) + ELEMENT_SCRIPT_B@ + selector + ELEMENT_SCRIPT_C@
}

/// The script that lists the outerHTML of every element a selector matches.
pub open spec fn query_all_script_text(selector: Seq<char>) -> Seq<char> {
    QUERY_ALL_SCRIPT_HEAD@ + json_quoted(selector) + QUERY_ALL_SCRIPT_TAIL@
}

/// The links script for at most `max` links.
pub fn links_script(max: u64) -> (r: String)
    ensures
        r@ == links_script_text(max),
{
    concat3(LINKS_SCRIPT_HEAD, u64_to_text(max).as_str(), LINKS_SCRIPT_TAIL)
}

/// The script that empties an input.
pub fn clear_script(safe_selector: &str) -> (r: String)
    ensures
        r@ == clear_script_text(safe_selector@),
{
    concat3(CLEAR_SCRIPT_HEAD, safe_selector, CLEAR_SCRIPT_TAIL)
}

/// The script that presses Enter in an input and submits its form.
pub fn submit_script(safe_selector: &str) -> (r: String)
    ensures
        r@ == submit_script_text(safe_selector@),
{
    concat3(SUBMIT_SCRIPT_HEAD, safe_selector, SUBMIT_SCRIPT_TAIL)
}

/// The page search script.
pub fn find_script(pattern: &str, context: u64, max_matches: u64) -> (r: String)
    ensures
        r@ == find_script_text(pattern@, context, max_matches),
{
    let mut r = concat2(FIND_SCRIPT_A, json_quote(pattern).as_str());
    push_str(&mut r, FIND_SCRIPT_B);
    push_str(&mut r, u64_to_text(context).as_str());
    push_str(&mut r, FIND_SCRIPT_C);
    push_str(&mut r, u64_to_text(max_matches).as_str());
    push_str(&mut r, FIND_SCRIPT_D);
    r
}

/// The element text script.
pub fn element_script(selector: &str) -> (r: String)
    ensures
        r@ == element_script_text(selector@),
{
    let mut r = concat2(ELEMENT_SCRIPT_A, json_quote(selector).as_str());
    push_str(&mut r, ELEMENT_SCRIPT_B);
    push_str(&mut r, selector);
    push_str(&mut r, ELEMENT_SCRIPT_C);
    r
}

/// The outerHTML script.
pub fn query_all_script(selector: &str) -> (r: String)
    ensures
        r@ == query_all_script_text(selector@),
{
    concat3(QUERY_ALL_SCRIPT_HEAD, json_quote(selector).as_str(), QUERY_ALL_SCRIPT_TAIL)
}

// ---------------------------------------------------------------------------
// Reading the arguments
// ---------------------------------------------------------------------------

/// What a browser tool will do, with its arguments read and its scripts
/// built.
pub enum BrowserCall {
    /// Open the results page at `url` in a temporary tab and read it.
    Search { url: String },
    /// Go to `url` in the active tab.
    Navigate { url: String },
    GetUrl,
    /// Read the page text, cut at `max_chars` characters.
    GetText { max_chars: u64 },
    /// Run the page search script.
    FindText { script: String },
    /// Run the element text script, cut at `max_chars` characters.
    GetElement { script: String, max_chars: u64 },
    /// Run the outerHTML script for `selector`, cut at `max_chars` characters.
    QuerySelectorAll { selector: String, script: String, max_chars: u64 },
    /// Run the links script.
    GetLinks { script: String },
    /// Click the element `selector` matches.
    Click { selector: String },
    /// Empty the input, type `text`, and submit when asked.
    Type { selector: String, text: String, submit: bool, clear_script: String, submit_script: String },
    Screenshot,
    Close,
    /// Open `url` in a new tab.
    OpenTab { url: String },
    CloseTab,
    ListTabs,
    /// Activate the tab at `index`.
    ActivateTab { index: u64 },
}

/// The answer of a browser tool called without a required argument.
pub open spec fn required_text(key: Seq<char>) -> Seq<char> {
    "Error: '"@ + key + "' is required"@
}

fn required_arg(input: &Json, key: &str) -> (r: Result<String, String>)
    ensures
        match r {
            Ok(v) => field_str(input@, key@) == Some(v@),
            Err(e) => field_str(input@, key@) is None && e@ == required_text(key@),
        },
{
    match input.str_field(key) {
        Some(v) => Ok(v),
        None => Err(concat3("Error: '", key, "' is required")),
    }
}

/// An integer argument, or its default.
pub open spec fn u64_or(input: JsonV, key: Seq<char>, default: u64) -> u64 {
    match field_u64(input, key) {
        Some(v) => v,
        None => default,
    }
}

fn u64_arg(input: &Json, key: &str, default: u64) -> (r: u64)
    ensures
        r == u64_or(input@, key@, default),
{
    match input.u64_field(key) {
        Some(v) => v,
        None => default,
    }
}

/// What the arguments of a browser tool ask for: the call, or the answer
/// naming the first required argument that is missing.
pub open spec fn call_spec(tool: BrowserTool, input: JsonV, r: Result<BrowserCall, String>) -> bool {
    match tool {
        BrowserTool::Search => match field_str(input, "query"@) {
            Some(q) => r matches Ok(BrowserCall::Search { url }) && url@
                == "https://www.google.com/search?q="@ + encode_bytes(encode_utf8(q)) + "&hl=ja"@,
            None => r matches Err(e) && e@ == required_text("query"@),
        },
        BrowserTool::Navigate => match field_str(input, "url"@) {
            Some(u) => r matches Ok(BrowserCall::Navigate { url }) && url@ == u,
            None => r matches Err(e) && e@ == required_text("url"@),
        },
        BrowserTool::GetUrl => r matches Ok(BrowserCall::GetUrl),
        BrowserTool::GetText => r matches Ok(BrowserCall::GetText { max_chars }) && max_chars
            == u64_or(input, "max_chars"@, 8000),
        BrowserTool::FindText => match field_str(input, "pattern"@) {
            Some(p) => r matches Ok(BrowserCall::FindText { script }) && script@ == find_script_text(
                p,
                u64_or(input, "context_lines"@, 3),
                u64_or(input, "max_matches"@, 10),
            ),
            None => r matches Err(e) && e@ == required_text("pattern"@),
        },
        BrowserTool::GetElement => match field_str(input, "selector"@) {
            Some(sel) => r matches Ok(BrowserCall::GetElement { script, max_chars }) && script@
                == element_script_text(sel) && max_chars == u64_or(input, "max_chars"@, 4000),
            None => r matches Err(e) && e@ == required_text("selector"@),
        },
        BrowserTool::QuerySelectorAll => match field_str(input, "selector"@) {
            Some(sel) => r matches Ok(BrowserCall::QuerySelectorAll { selector, script, max_chars })
                && selector@ == sel && script@ == query_all_script_text(sel) && max_chars == u64_or(
                input,
                "max_chars"@,
                8000,
            ),
            None => r matches Err(e) && e@ == required_text("selector"@),
        },
        BrowserTool::GetLinks => r matches Ok(BrowserCall::GetLinks { script }) && script@
            == links_script_text(u64_or(input, "max_links"@, 30)),
        BrowserTool::Click => match field_str(input, "selector"@) {
            Some(sel) => r matches Ok(BrowserCall::Click { selector }) && selector@ == sel,
            None => r matches Err(e) && e@ == required_text("selector"@),
        },
        BrowserTool::Type => match (field_str(input, "selector"@), field_str(input, "text"@)) {
            (Some(sel), Some(t)) => r matches Ok(
                BrowserCall::Type { selector, text, submit, clear_script, submit_script },
            ) && selector@ == sel && text@ == t && submit == (field_bool(input, "submit"@) == Some(
                true,
            )) && clear_script@ == clear_script_text(escape_quotes(sel)) && submit_script@
                == submit_script_text(escape_quotes(sel)),
            (None, _) => r matches Err(e) && e@ == required_text("selector"@),
            (Some(_), None) => r matches Err(e) && e@ == required_text("text"@),
        },
        BrowserTool::Screenshot => r matches Ok(BrowserCall::Screenshot),
        BrowserTool::Close => r matches Ok(BrowserCall::Close),
        BrowserTool::OpenTab => match field_str(input, "url"@) {
            Some(u) => r matches Ok(BrowserCall::OpenTab { url }) && url@ == u,
            None => r matches Err(e) && e@ == required_text("url"@),
        },
        BrowserTool::CloseTab => r matches Ok(BrowserCall::CloseTab),
        BrowserTool::ListTabs => r matches Ok(BrowserCall::ListTabs),
        BrowserTool::ActivateTab => match field_u64(input, "index"@) {
            Some(i) => r matches Ok(BrowserCall::ActivateTab { index }) && index == i,
            None => r matches Err(e) && e@ == required_text("index"@),
        },
    }
}

/// Reads the arguments of a browser tool.
pub fn browser_call(tool: BrowserTool, input: &Json) -> (r: Result<BrowserCall, String>)
    ensures
        call_spec(tool, input@, r),
{
    match tool {
        BrowserTool::Search => match required_arg(input, "query") {
            Ok(q) => Ok(BrowserCall::Search { url: search_url(q.as_str()) }),
            Err(e) => Err(e),
        },
        BrowserTool::Navigate => match required_arg(input, "url") {
            Ok(url) => Ok(BrowserCall::Navigate { url }),
            Err(e) => Err(e),
        },
        BrowserTool::GetUrl => Ok(BrowserCall::GetUrl),
        BrowserTool::GetText => Ok(BrowserCall::GetText { max_chars: u64_arg(input, "max_chars", 8000) }),
        BrowserTool::FindText => match required_arg(input, "pattern") {
            Ok(p) => {
                let context = u64_arg(input, "context_lines", 3);
                let max_matches = u64_arg(input, "max_matches", 10);
                Ok(BrowserCall::FindText { script: find_script(p.as_str(), context, max_matches) })
            },
            Err(e) => Err(e),
        },
        BrowserTool::GetElement => match required_arg(input, "selector") {
            Ok(sel) => Ok(
                BrowserCall::GetElement {
                    script: element_script(sel.as_str()),
                    max_chars: u64_arg(input, "max_chars", 4000),
                },
            ),
            Err(e) => Err(e),
        },
        BrowserTool::QuerySelectorAll => match required_arg(input, "selector") {
            Ok(sel) => {
                let script = query_all_script(sel.as_str());
                let max_chars = u64_arg(input, "max_chars", 8000);
                Ok(BrowserCall::QuerySelectorAll { selector: sel, script, max_chars })
            },
            Err(e) => Err(e),
        },
        BrowserTool::GetLinks => Ok(
            BrowserCall::GetLinks { script: links_script(u64_arg(input, "max_links", 30)) },
        ),
        BrowserTool::Click => match required_arg(input, "selector") {
            Ok(selector) => Ok(BrowserCall::Click { selector }),
            Err(e) => Err(e),
        },
        BrowserTool::Type => {
            let selector = match required_arg(input, "selector") {
                Ok(s) => s,
                Err(e) => return Err(e),
            };
            let text = match required_arg(input, "text") {
                Ok(t) => t,
                Err(e) => return Err(e),
            };
            let submit = match input.bool_field("submit") {
                Some(b) => b,
                None => false,
            };
            let safe = escape_selector(selector.as_str());
            let clear_script = clear_script(safe.as_str());
            let submit_script = submit_script(safe.as_str());
            Ok(BrowserCall::Type { selector, text, submit, clear_script, submit_script })
        },
        BrowserTool::Screenshot => Ok(BrowserCall::Screenshot),
        BrowserTool::Close => Ok(BrowserCall::Close),
        BrowserTool::OpenTab => match required_arg(input, "url") {
            Ok(url) => Ok(BrowserCall::OpenTab { url }),
            Err(e) => Err(e),
        },
        BrowserTool::CloseTab => Ok(BrowserCall::CloseTab),
        BrowserTool::ListTabs => Ok(BrowserCall::ListTabs),
        BrowserTool::ActivateTab => match input.u64_field("index") {
            Some(index) => Ok(BrowserCall::ActivateTab { index }),
            None => Err(concat3("Error: '", "index", "' is required")),
        },
    }
}

// ---------------------------------------------------------------------------
// Whether the tool can run
// ---------------------------------------------------------------------------

/// What a tool does about the browser before its call.
pub enum Gate {
    /// Start Chrome first.
    Launch,
    /// Go ahead.
    Ready,
    /// Answer this without a call.
    Answer(String),
}

/// What a browser tool does when Chrome is (or is not) running and has (or
/// has not) an active page: the tools that open pages start Chrome; `Close`
/// needs it running; the tab tools need it running; the others need an
/// active page, and each answers in its own words when there is none.
pub open spec fn gate_spec(tool: BrowserTool, has_browser: bool, has_page: bool, g: Gate) -> bool {
    match tool {
        BrowserTool::Search | BrowserTool::Navigate | BrowserTool::OpenTab => if has_browser {
            g is Ready
        } else {
            g is Launch
        },
        BrowserTool::Close => if has_browser {
            g is Ready
        } else {
            g matches Gate::Answer(a) && a@ == "Browser is not currently open."@
        },
        BrowserTool::CloseTab | BrowserTool::ListTabs | BrowserTool::ActivateTab => if has_browser {
            g is Ready
        } else {
            g matches Gate::Answer(a) && a@ == "Browser not open."@
        },
        BrowserTool::GetUrl | BrowserTool::Click | BrowserTool::Type => if has_browser && has_page {
            g is Ready
        } else {
            g matches Gate::Answer(a) && a@ == "Browser not open."@
        },
        BrowserTool::GetText => if has_browser && has_page {
            g is Ready
        } else {
            g matches Gate::Answer(a) && a@
                == "Browser not open. Use browser_navigate to open a URL first."@
        },
        _ => if has_browser && has_page {
            g is Ready
        } else {
            g matches Gate::Answer(a) && a@ == "Browser not open. Use browser_navigate first."@
        },
    }
}

/// Whether a browser tool can run now, must start Chrome, or answers at once.
pub fn browser_gate(tool: BrowserTool, has_browser: bool, has_page: bool) -> (g: Gate)
    ensures
        gate_spec(tool, has_browser, has_page, g),
{
    match tool {
        BrowserTool::Search | BrowserTool::Navigate | BrowserTool::OpenTab => if has_browser {
            Gate::Ready
        } else {
            Gate::Launch
        },
        BrowserTool::Close => if has_browser {
            Gate::Ready
        } else {
            Gate::Answer(owned("Browser is not currently open."))
        },
        BrowserTool::CloseTab | BrowserTool::ListTabs | BrowserTool::ActivateTab => if has_browser {
            Gate::Ready
        } else {
            Gate::Answer(owned("Browser not open."))
        },
        BrowserTool::GetUrl | BrowserTool::Click | BrowserTool::Type => if has_browser && has_page {
            Gate::Ready
        } else {
            Gate::Answer(owned("Browser not open."))
        },
        BrowserTool::GetText => if has_browser && has_page {
            Gate::Ready
        } else {
            Gate::Answer(owned("Browser not open. Use browser_navigate to open a URL first."))
        },
        _ => if has_browser && has_page {
            Gate::Ready
        } else {
            Gate::Answer(owned("Browser not open. Use browser_navigate first."))
        },
    }
}

// ---------------------------------------------------------------------------
// Answers
// ---------------------------------------------------------------------------

/// A text cut to its first `max` characters, with a note naming the limit;
/// a text of at most `max` characters is kept whole.
pub open spec fn truncated_text(text: Seq<char>, max: u64) -> Seq<char> {
    if text.len() > max {
        text.take(max as int) + "\u{2026}[truncated at "@ + dec_seq(max as nat) + " chars]"@
    } else {
        text
    }
}

/// Cuts a text to its first `max` characters.
pub fn truncate_text(text: &str, max: u64) -> (r: String)
    ensures
        r@ == truncated_text(text@, max),
{
    let cs = chars_of(text);
    if (cs.len() as u64) <= max {
        return owned(text);
    }
    let mut r = string_of_range(cs.as_slice(), 0, max as usize);
    push_str(&mut r, "\u{2026}[truncated at ");
    push_str(&mut r, u64_to_text(max).as_str());
    push_str(&mut r, " chars]");
    r
}

/// The answer of `browser_search` for the results read, or the failure.
pub fn search_answer(found: Result<String, String>) -> (r: String)
    ensures
        match found {
            Ok(json) => r@ == json@,
            Err(e) => r@ == "Search error: "@ + e@,
        },
{
    match found {
        Ok(json) => json,
        Err(e) => concat2("Search error: ", e.as_str()),
    }
}

/// The answer of `browser_navigate`: the URL and the page title (the URL
/// when the page has none), or the failure.
pub fn navigate_answer(url: &str, result: Result<Option<String>, String>) -> (r: String)
    ensures
        match result {
            Ok(Some(t)) => r@ == "Navigated to: "@ + url@ + "\nPage title: "@ + t@,
            Ok(None) => r@ == "Navigated to: "@ + url@ + "\nPage title: "@ + url@,
            Err(e) => r@ == "Navigation error: "@ + e@,
        },
{
    match result {
        Ok(title) => {
            let mut r = concat3("Navigated to: ", url, "\nPage title: ");
            match title {
                Some(t) => push_str(&mut r, t.as_str()),
                None => push_str(&mut r, url),
            }
            r
        },
        Err(e) => concat2("Navigation error: ", e.as_str()),
    }
}

/// The answer of `browser_get_url`.
pub fn get_url_answer(result: Result<Option<String>, String>) -> (r: String)
    ensures
        match result {
            Ok(Some(u)) => r@ == u@,
            Ok(None) => r@ == "about:blank"@,
            Err(e) => r@ == "Error getting URL: "@ + e@,
        },
{
    match result {
        Ok(Some(u)) => u,
        Ok(None) => owned("about:blank"),
        Err(e) => concat2("Error getting URL: ", e.as_str()),
    }
}

/// The text a script returned: its string, or nothing when it returned
/// something else.
pub open spec fn script_text(v: Option<Seq<char>>) -> Seq<char> {
    match v {
        Some(t) => t,
        None => Seq::empty(),
    }
}

/// The answer of `browser_get_text` (`element` false) or
/// `browser_get_element` (`element` true): the text cut at `max_chars`
/// characters, or the failure.
pub fn page_text_answer(result: Result<Option<String>, String>, max_chars: u64, element: bool) -> (r:
    String)
    ensures
        match result {
            Ok(v) => r@ == truncated_text(script_text(v.deep_view()), max_chars),
            Err(e) => r@ == (if element {
                "Error getting element text: "@
            } else {
                "Error getting page text: "@
            }) + e@,
        },
{
    match result {
        Ok(Some(t)) => truncate_text(t.as_str(), max_chars),
        Ok(None) => {
            proof {
                reveal_strlit("");
            }
            truncate_text("", max_chars)
        },
        Err(e) => if element {
            concat2("Error getting element text: ", e.as_str())
        } else {
            concat2("Error getting page text: ", e.as_str())
        },
    }
}

/// The answer of `browser_find_text` (`links` false) or `browser_get_links`
/// (`links` true): what the script returned, or the failure.
pub fn script_answer(result: Result<Option<String>, String>, links: bool) -> (r: String)
    ensures
        match result {
            Ok(v) => r@ == script_text(v.deep_view()),
            Err(e) => r@ == (if links {
                "Error getting links: "@
            } else {
                "Error searching page: "@
            }) + e@,
        },
{
    match result {
        Ok(Some(t)) => t,
        Ok(None) => String::new(),
        Err(e) => if links {
            concat2("Error getting links: ", e.as_str())
        } else {
            concat2("Error searching page: ", e.as_str())
        },
    }
}

/// The answer of `browser_query_selector_all`: the JSON cut at `max_chars`,
/// a note when nothing matched, or the failure.
pub fn query_all_answer(result: Result<Option<String>, String>, max_chars: u64, selector: &str) -> (r:
    String)
    ensures
        match result {
            Ok(v) => {
                let json = script_text(v.deep_view());
                r@ == if json.len() > max_chars {
                    truncated_text(json, max_chars)
                } else if json == "[]"@ {
                    "No elements matched selector: "@ + selector@
                } else {
                    json
                }
            },
            Err(e) => r@ == "Error running querySelectorAll: "@ + e@,
        },
{
    match result {
        Ok(v) => {
            let json = match v {
                Some(t) => t,
                None => String::new(),
            };
            if (json.as_str().unicode_len() as u64) > max_chars {
                truncate_text(json.as_str(), max_chars)
            } else if crate::text::str_eq(json.as_str(), "[]") {
                concat2("No elements matched selector: ", selector)
            } else {
                json
            }
        },
        Err(e) => concat2("Error running querySelectorAll: ", e.as_str()),
    }
}

/// How an action on an element ended.
pub enum ElementAction {
    /// No element matched the selector.
    NotFound(String),
    /// The element was found, but the action failed.
    Failed(String),
    /// The action was done; for a click, whether a navigation followed.
    Done(bool),
}

/// The answer of `browser_click`.
pub fn click_answer(selector: &str, outcome: ElementAction) -> (r: String)
    ensures
        match outcome {
            ElementAction::NotFound(e) => r@ == "Element not found '"@ + selector@ + "': "@ + e@,
            ElementAction::Failed(e) => r@ == "Click error on '"@ + selector@ + "': "@ + e@,
            ElementAction::Done(true) => r@ == "Clicked '"@ + selector@ + "' \u{2014} page navigated"@,
            ElementAction::Done(false) => r@ == "Clicked '"@ + selector@
                + "' \u{2014} no navigation detected"@,
        },
{
    match outcome {
        ElementAction::NotFound(e) => {
            let mut r = concat3("Element not found '", selector, "': ");
            push_str(&mut r, e.as_str());
            r
        },
        ElementAction::Failed(e) => {
            let mut r = concat3("Click error on '", selector, "': ");
            push_str(&mut r, e.as_str());
            r
        },
        ElementAction::Done(navigated) => if navigated {
            concat3("Clicked '", selector, "' \u{2014} page navigated")
        } else {
            concat3("Clicked '", selector, "' \u{2014} no navigation detected")
        },
    }
}

/// The answer of `browser_type`.
pub fn type_answer(selector: &str, text: &str, submit: bool, outcome: ElementAction) -> (r: String)
    ensures
        match outcome {
            ElementAction::NotFound(e) => r@ == "Element not found '"@ + selector@ + "': "@ + e@,
            ElementAction::Failed(e) => r@ == "Type error on '"@ + selector@ + "': "@ + e@,
            ElementAction::Done(_) => r@ == "Typed '"@ + text@ + "' into '"@ + selector@ + (if submit {
                "' and submitted"@
            } else {
                "'"@
            }),
        },
{
    match outcome {
        ElementAction::NotFound(e) => {
            let mut r = concat3("Element not found '", selector, "': ");
            push_str(&mut r, e.as_str());
            r
        },
        ElementAction::Failed(e) => {
            let mut r = concat3("Type error on '", selector, "': ");
            push_str(&mut r, e.as_str());
            r
        },
        ElementAction::Done(_) => {
            let mut r = concat3("Typed '", text, "' into '");
            push_str(&mut r, selector);
            if submit {
                push_str(&mut r, "' and submitted");
            } else {
                push_str(&mut r, "'");
            }
            r
        },
    }
}

/// The answer of `browser_screenshot`: the PNG bytes in Base64 behind a
/// marker, or the failure.
pub fn screenshot_answer(result: Result<Vec<u8>, String>) -> (r: String)
    requires
        result matches Ok(b) ==> base64_len(b@.len()) <= usize::MAX,
    ensures
        match result {
            Ok(b) => r@ == "SCREENSHOT:image/png:"@ + base64_seq(b@),
            Err(e) => r@ == "Screenshot error: "@ + e@,
        },
{
    match result {
        Ok(b) => concat2("SCREENSHOT:image/png:", base64_encode(b.as_slice()).as_str()),
        Err(e) => concat2("Screenshot error: ", e.as_str()),
    }
}

/// The answer of `browser_close` once Chrome is shut.
pub fn closed_answer() -> (r: String)
    ensures
        r@ == "Browser closed."@,
{
    owned("Browser closed.")
}

/// The answer of `browser_open_tab`: the URL and the title (the URL when the
/// page has none), or the failure.
pub fn open_tab_answer(url: &str, result: Result<Option<String>, String>) -> (r: String)
    ensures
        match result {
            Ok(Some(t)) => r@ == "Opened new tab: "@ + url@ + "\nPage title: "@ + t@,
            Ok(None) => r@ == "Opened new tab: "@ + url@ + "\nPage title: "@ + url@,
            Err(e) => r@ == "Error opening tab: "@ + e@,
        },
{
    match result {
        Ok(title) => {
            let mut r = concat3("Opened new tab: ", url, "\nPage title: ");
            match title {
                Some(t) => push_str(&mut r, t.as_str()),
                None => push_str(&mut r, url),
            }
            r
        },
        Err(e) => concat2("Error opening tab: ", e.as_str()),
    }
}

/// The answer of `browser_close_tab`.
pub fn close_tab_answer(result: Result<(), String>) -> (r: String)
    ensures
        match result {
            Ok(_) => r@ == "Tab closed."@,
            Err(e) => r@ == "Error closing tab: "@ + e@,
        },
{
    match result {
        Ok(_) => owned("Tab closed."),
        Err(e) => concat2("Error closing tab: ", e.as_str()),
    }
}

/// The JSON object of one tab: its index, title and URL.
pub open spec fn tab_json(index: nat, title: Seq<char>, url: Seq<char>) -> Seq<char> {
    "{\"index\":"@ + dec_seq(index) + ",\"title\":"@ + json_quoted(title) + ",\"url\":"@
        + json_quoted(url) + "}"@
}

/// The JSON array of the tabs: a tab without a title shows an empty one, a
/// tab without a URL shows `about:blank`.
pub open spec fn tabs_json_text(tabs: Seq<(Option<Seq<char>>, Option<Seq<char>>)>) -> Seq<char> {
    "["@ + crate::text::join_seq(
        Seq::new(
            tabs.len(),
            |i: int|
                tab_json(
                    i as nat,
                    match tabs[i].0 {
                        Some(t) => t,
                        None => Seq::empty(),
                    },
                    match tabs[i].1 {
                        Some(u) => u,
                        None => "about:blank"@,
                    },
                ),
        ),
        ","@,
    ) + "]"@
}

/// The view of a list of tabs given as (title, URL).
pub open spec fn tabs_view(v: Seq<(Option<String>, Option<String>)>) -> Seq<
    (Option<Seq<char>>, Option<Seq<char>>),
> {
    v.map_values(|t: (Option<String>, Option<String>)| (t.0.deep_view(), t.1.deep_view()))
}

/// The answer of `browser_list_tabs`: the tabs (title and URL of each, in
/// order) as JSON, or the failure.
pub fn list_tabs_answer(result: Result<Vec<(Option<String>, Option<String>)>, String>) -> (r: String)
    ensures
        match result {
            Ok(tabs) => r@ == tabs_json_text(tabs_view(tabs@)),
            Err(e) => r@ == "Error listing tabs: "@ + e@,
        },
{
    match result {
        Ok(tabs) => {
            let ghost tv = tabs_view(tabs@);
            let ghost items = Seq::new(
                tv.len(),
                |i: int|
                    tab_json(
                        i as nat,
                        match tv[i].0 {
                            Some(t) => t,
                            None => Seq::empty(),
                        },
                        match tv[i].1 {
                            Some(u) => u,
                            None => "about:blank"@,
                        },
                    ),
            );
            let mut parts: Vec<String> = Vec::new();
            let mut i: usize = 0;
            while i < tabs.len()
                invariant
                    i <= tabs@.len(),
                    tv == tabs_view(tabs@),
                    items.len() == tv.len(),
                    items == Seq::new(
                        tv.len(),
                        |i: int|
                            tab_json(
                                i as nat,
                                match tv[i].0 {
                                    Some(t) => t,
                                    None => Seq::empty(),
                                },
                                match tv[i].1 {
                                    Some(u) => u,
                                    None => "about:blank"@,
                                },
                            ),
                    ),
                    parts@.map_values(|s: String| s@) == items.take(i as int),
                decreases tabs@.len() - i,
            {
                let title = match &tabs[i].0 {
                    Some(t) => t.clone(),
                    None => String::new(),
                };
                let url = match &tabs[i].1 {
                    Some(u) => u.clone(),
                    None => owned("about:blank"),
                };
                let mut item = concat3("{\"index\":", u64_to_text(i as u64).as_str(), ",\"title\":");
                push_str(&mut item, json_quote(title.as_str()).as_str());
                push_str(&mut item, ",\"url\":");
                push_str(&mut item, json_quote(url.as_str()).as_str());
                push_str(&mut item, "}");
                assert(item@ == items[i as int]);
                let ghost prev = parts@;
                parts.push(item);
                assert(parts@.map_values(|s: String| s@) =~= prev.map_values(|s: String| s@).push(
                    items[i as int],
                ));
                assert(items.take(i + 1) =~= items.take(i as int).push(items[i as int]));
                i = i + 1;
            }
            assert(items.take(tabs@.len() as int) =~= items);
            concat3("[", crate::text::join(parts.as_slice(), ",").as_str(), "]")
        },
        Err(e) => concat2("Error listing tabs: ", e.as_str()),
    }
}

/// The failure when no tab has the index asked for.
pub fn tab_not_found(index: u64) -> (r: String)
    ensures
        r@ == "Tab index "@ + dec_seq(index as nat) + " not found"@,
{
    concat3("Tab index ", u64_to_text(index).as_str(), " not found")
}

/// The answer of `browser_activate_tab`: the index and the tab's title
/// (empty when it has none), or the failure.
pub fn activate_answer(index: u64, result: Result<Option<String>, String>) -> (r: String)
    ensures
        match result {
            Ok(t) => r@ == "Activated tab "@ + dec_seq(index as nat) + ": "@ + script_text(
                t.deep_view(),
            ),
            Err(e) => r@ == "Error activating tab: "@ + e@,
        },
{
    match result {
        Ok(t) => {
            let mut r = concat3("Activated tab ", u64_to_text(index).as_str(), ": ");
            match t {
                Some(title) => push_str(&mut r, title.as_str()),
                None => {},
            }
            r
        },
        Err(e) => concat2("Error activating tab: ", e.as_str()),
    }
}

} // verus!
