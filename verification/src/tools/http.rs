//! The `http_request` tool: reading its arguments into a request plan, and
//! the text it answers for the response. The request itself is sent by the
//! caller.
use vstd::prelude::*;
use crate::json::{field_str, jget, Json, JsonV};
use crate::text::{concat2, concat3, dec_seq, join, join_seq, owned, push_str, str_eq, to_uppercase,
    u64_to_text, upper_text};
use crate::tools::filesystem::{error_message, error_text};
use crate::tools::input::{missing_param_text, required_str};

verus! {

/// The methods the tool sends.
#[derive(PartialEq, Eq, Structural, Clone, Copy)]
pub enum HttpMethod {
    Get,
    Post,
    Put,
    Patch,
    Delete,
}

/// The request to send: URL, method, the headers in order (the `headers`
/// members, then a `Content-Type` from `content_type`), and the body.
pub struct HttpPlan {
    pub url: String,
    pub method: HttpMethod,
    pub headers: Vec<(String, String)>,
    pub body: Option<String>,
}

/// The method name asked for, uppercased; `GET` when none is given.
pub open spec fn method_name(input: JsonV) -> Seq<char> {
    match field_str(input, "method"@) {
        Some(m) => upper_text(m),
        None => "GET"@,
    }
}

/// The method of an uppercase name, if the tool sends it.
pub open spec fn method_of(name: Seq<char>) -> Option<HttpMethod> {
    if name == "GET"@ {
        Some(HttpMethod::Get)
    } else if name == "POST"@ {
        Some(HttpMethod::Post)
    } else if name == "PUT"@ {
        Some(HttpMethod::Put)
    } else if name == "PATCH"@ {
        Some(HttpMethod::Patch)
    } else if name == "DELETE"@ {
        Some(HttpMethod::Delete)
    } else {
        None
    }
}

/// The members of an object whose values are strings, in order.
pub open spec fn string_members(fields: Seq<(Seq<char>, JsonV)>) -> Seq<(Seq<char>, Seq<char>)>
    decreases fields.len(),
{
    if fields.len() == 0 {
        Seq::empty()
    } else {
        let rest = string_members(fields.drop_last());
        match fields.last().1 {
            JsonV::Str(s) => rest.push((fields.last().0, s)),
            _ => rest,
        }
    }
}

/// The headers to send: the string members of `headers`, then
/// `Content-Type` when `content_type` is given.
pub open spec fn planned_headers(input: JsonV) -> Seq<(Seq<char>, Seq<char>)> {
    let given = match jget(input, "headers"@) {
        Some(JsonV::Object(fields)) => string_members(fields),
        _ => Seq::empty(),
    };
    match field_str(input, "content_type"@) {
        Some(ct) => given.push(("Content-Type"@, ct)),
        None => given,
    }
}

/// The view of a list of string pairs.
pub open spec fn pairs_view(v: Seq<(String, String)>) -> Seq<(Seq<char>, Seq<char>)> {
    v.map_values(|p: (String, String)| (p.0@, p.1@))
}

/// The string members of an object's fields.
fn collect_string_members(fields: &Vec<(String, Json)>) -> (r: Vec<(String, String)>)
    ensures
        pairs_view(r@) == string_members(
            Seq::new(fields@.len(), |i: int| (fields@[i].0@, fields@[i].1@)),
        ),
{
    let ghost fv = Seq::new(fields@.len(), |i: int| (fields@[i].0@, fields@[i].1@));
    let mut out: Vec<(String, String)> = Vec::new();
    let mut i: usize = 0;
    while i < fields.len()
        invariant
            i <= fields@.len(),
            fv == Seq::new(fields@.len(), |i: int| (fields@[i].0@, fields@[i].1@)),
            pairs_view(out@) == string_members(fv.take(i as int)),
        decreases fields@.len() - i,
    {
        assert(fv.take(i + 1).drop_last() =~= fv.take(i as int));
        assert(fv.take(i + 1).last() == fv[i as int]);
        match &fields[i].1 {
            Json::Str(s) => {
                out.push((fields[i].0.clone(), s.clone()));
            },
            _ => {},
        }
        assert(pairs_view(out@) =~= string_members(fv.take(i + 1)));
        i = i + 1;
    }
    assert(fv.take(fields@.len() as int) =~= fv);
    out
}

/// Reads the arguments: `url` is required; an unknown method is refused
/// with its uppercased name.
pub fn http_request_plan(input: &Json) -> (r: Result<HttpPlan, String>)
    ensures
        match r {
            Ok(p) => {
                &&& field_str(input@, "url"@) == Some(p.url@)
                &&& method_of(method_name(input@)) == Some(p.method)
                &&& pairs_view(p.headers@) == planned_headers(input@)
                &&& p.body.deep_view() == field_str(input@, "body"@)
            },
            Err(e) => {
                ||| field_str(input@, "url"@) is None && e@ == missing_param_text("url"@)
                ||| field_str(input@, "url"@) is Some && method_of(method_name(input@)) is None
                    && e@ == "error: unsupported method \""@ + method_name(input@) + "\""@
            },
        },
{
    let url = match required_str(input, "url") {
        Ok(u) => u,
        Err(e) => return Err(e),
    };
    let name = match input.str_field("method") {
        Some(m) => to_uppercase(m.as_str()),
        None => owned("GET"),
    };
    proof {
        reveal_strlit("GET");
        reveal_strlit("POST");
        reveal_strlit("PUT");
        reveal_strlit("PATCH");
        reveal_strlit("DELETE");
    }
    let method = if str_eq(name.as_str(), "GET") {
        HttpMethod::Get
    } else if str_eq(name.as_str(), "POST") {
        HttpMethod::Post
    } else if str_eq(name.as_str(), "PUT") {
        HttpMethod::Put
    } else if str_eq(name.as_str(), "PATCH") {
        HttpMethod::Patch
    } else if str_eq(name.as_str(), "DELETE") {
        HttpMethod::Delete
    } else {
        return Err(concat3("error: unsupported method \"", name.as_str(), "\""));
    };
    let mut headers: Vec<(String, String)> = match input.get("headers") {
        Some(Json::Object(fields)) => {
            let ghost fv = match jget(input@, "headers"@) {
                Some(JsonV::Object(f)) => f,
                _ => Seq::empty(),
            };
            assert(fv =~= Seq::new(fields@.len(), |i: int| (fields@[i].0@, fields@[i].1@)));
            collect_string_members(fields)
        },
        _ => {
            let v: Vec<(String, String)> = Vec::new();
            assert(pairs_view(v@) =~= Seq::<(Seq<char>, Seq<char>)>::empty());
            v
        },
    };
    proof {
        match jget(input@, "headers"@) {
            Some(JsonV::Object(f)) => {},
            _ => {},
        }
    }
    match input.str_field("content_type") {
        Some(ct) => {
            let ghost before = headers@;
            headers.push((owned("Content-Type"), ct));
            assert(pairs_view(headers@) =~= pairs_view(before).push(("Content-Type"@, ct@)));
        },
        None => {},
    }
    let body = input.str_field("body");
    Ok(HttpPlan { url, method, headers, body })
}

/// The response headers the answer shows.
pub open spec fn is_shown_header(name: Seq<char>) -> bool {
    name == "content-type"@ || name == "content-length"@ || name == "location"@ || name
        == "x-request-id"@
}

/// A header value as shown: its text, or a mark when it is not visible
/// ASCII text.
pub open spec fn shown_value(v: Option<Seq<char>>) -> Seq<char> {
    match v {
        Some(s) => s,
        None => "(non-utf8)"@,
    }
}

/// Records `name: value` among the shown headers: a later value of a name
/// replaces the earlier one in place, a new name comes last.
pub open spec fn upsert(acc: Seq<(Seq<char>, Seq<char>)>, name: Seq<char>, value: Seq<char>) -> Seq<
    (Seq<char>, Seq<char>),
> {
    if exists|j: int| 0 <= j < acc.len() && #[trigger] acc[j].0 == name {
        acc.map_values(
            |e: (Seq<char>, Seq<char>)|
                if e.0 == name {
                    (name, value)
                } else {
                    e
                },
        )
    } else {
        acc.push((name, value))
    }
}

/// The shown headers of a response, each name once with its last value.
pub open spec fn shown_headers(hs: Seq<(Seq<char>, Option<Seq<char>>)>) -> Seq<(Seq<char>, Seq<char>)>
    decreases hs.len(),
{
    if hs.len() == 0 {
        Seq::empty()
    } else {
        let acc = shown_headers(hs.drop_last());
        if is_shown_header(hs.last().0) {
            upsert(acc, hs.last().0, shown_value(hs.last().1))
        } else {
            acc
        }
    }
}

/// The `name: value` line of a header.
pub open spec fn header_line(h: (Seq<char>, Seq<char>)) -> Seq<char> {
    h.0 + ": "@ + h.1
}

/// What the tool answers for a response: the status code, the shown
/// headers one per line, an empty line, and the body (or a mark when it
/// could not be read).
pub open spec fn http_answer_text(
    status: u16,
    headers: Seq<(Seq<char>, Option<Seq<char>>)>,
    body: Option<Seq<char>>,
) -> Seq<char> {
    let lines = shown_headers(headers).map_values(|h: (Seq<char>, Seq<char>)| header_line(h));
    let shown_body = match body {
        Some(b) => b,
        None => "(unreadable body)"@,
    };
    "status: "@ + dec_seq(status as nat) + "\n"@ + join_seq(lines, "\n"@) + "\n\n"@ + shown_body
}

/// The view of a list of response headers.
pub open spec fn response_headers_view(v: Seq<(String, Option<String>)>) -> Seq<
    (Seq<char>, Option<Seq<char>>),
> {
    v.map_values(|p: (String, Option<String>)| (p.0@, p.1.deep_view()))
}

/// Adds one shown header to `acc`.
fn upsert_header(acc: &mut Vec<(String, String)>, name: &str, value: &str)
    ensures
        pairs_view(final(acc)@) == upsert(pairs_view(old(acc)@), name@, value@),
{
    let ghost before = pairs_view(acc@);
    let mut found = false;
    let mut i: usize = 0;
    while i < acc.len()
        invariant
            i <= acc@.len(),
            before.len() == acc@.len(),
            found == exists|j: int| 0 <= j < i && #[trigger] before[j].0 == name@,
            forall|j: int|
                0 <= j < i ==> #[trigger] pairs_view(acc@)[j] == (if before[j].0 == name@ {
                    (name@, value@)
                } else {
                    before[j]
                }),
            forall|j: int| i <= j < acc@.len() ==> #[trigger] pairs_view(acc@)[j] == before[j],
        decreases acc@.len() - i,
    {
        let ghost prev = acc@;
        assert(pairs_view(prev)[i as int] == before[i as int]);
        if str_eq(acc[i].0.as_str(), name) {
            acc.set(i, (owned(name), owned(value)));
            found = true;
            assert(before[i as int].0 == name@);
        } else {
            assert(before[i as int].0 != name@);
        }
        assert forall|j: int| 0 <= j < acc@.len() && j != i implies #[trigger] pairs_view(acc@)[j]
            == pairs_view(prev)[j] by {}
        i = i + 1;
    }
    if !found {
        assert(!exists|j: int| 0 <= j < before.len() && #[trigger] before[j].0 == name@);
        assert(pairs_view(acc@) =~= before);
        acc.push((owned(name), owned(value)));
        assert(pairs_view(acc@) =~= before.push((name@, value@)));
    } else {
        assert(pairs_view(acc@) =~= upsert(before, name@, value@));
    }
}

/// The answer of the tool for a response's status, headers and body.
pub fn http_output(status: u16, headers: &Vec<(String, Option<String>)>, body: Option<String>) -> (r: String)
    ensures
        r@ == http_answer_text(status, response_headers_view(headers@), body.deep_view()),
{
    let ghost hv = response_headers_view(headers@);
    let mut shown: Vec<(String, String)> = Vec::new();
    let mut i: usize = 0;
    while i < headers.len()
        invariant
            i <= headers@.len(),
            hv == response_headers_view(headers@),
            pairs_view(shown@) == shown_headers(hv.take(i as int)),
        decreases headers@.len() - i,
    {
        assert(hv.take(i + 1).drop_last() =~= hv.take(i as int));
        assert(hv.take(i + 1).last() == hv[i as int]);
        let name = headers[i].0.as_str();
        proof {
            reveal_strlit("content-type");
            reveal_strlit("content-length");
            reveal_strlit("location");
            reveal_strlit("x-request-id");
        }
        if str_eq(name, "content-type") || str_eq(name, "content-length") || str_eq(name, "location")
            || str_eq(name, "x-request-id") {
            let value = match &headers[i].1 {
                Some(v) => v.clone(),
                None => owned("(non-utf8)"),
            };
            upsert_header(&mut shown, name, value.as_str());
        }
        i = i + 1;
    }
    assert(hv.take(headers@.len() as int) =~= hv);
    let ghost hl = pairs_view(shown@).map_values(|h: (Seq<char>, Seq<char>)| header_line(h));
    let mut lines: Vec<String> = Vec::new();
    let mut k: usize = 0;
    while k < shown.len()
        invariant
            k <= shown@.len(),
            hl == pairs_view(shown@).map_values(|h: (Seq<char>, Seq<char>)| header_line(h)),
            lines@.map_values(|s: String| s@) == hl.take(k as int),
        decreases shown@.len() - k,
    {
        let line = concat3(shown[k].0.as_str(), ": ", shown[k].1.as_str());
        assert(hl[k as int] == header_line((shown@[k as int].0@, shown@[k as int].1@)));
        assert(line@ == hl[k as int]);
        let ghost prev = lines@;
        lines.push(line);
        assert(lines@.map_values(|s: String| s@) =~= prev.map_values(|s: String| s@).push(hl[k as int]));
        assert(hl.take(k + 1) =~= hl.take(k as int).push(hl[k as int]));
        k = k + 1;
    }
    assert(hl.take(shown@.len() as int) =~= hl);
    let mut r = concat2("status: ", u64_to_text(status as u64).as_str());
    push_str(&mut r, "\n");
    push_str(&mut r, join(lines.as_slice(), "\n").as_str());
    push_str(&mut r, "\n\n");
    match body {
        Some(b) => push_str(&mut r, b.as_str()),
        None => push_str(&mut r, "(unreadable body)"),
    }
    r
}

/// The answer when the request could not be sent.
pub fn http_send_error(e: &str) -> (r: String)
    ensures
        r@ == error_text(e@),
{
    error_message(e)
}

} // verus!
