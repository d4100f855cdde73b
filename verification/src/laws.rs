//! Properties of the library that span several functions or hold of every
//! input, each stated over the spec functions that the functions' own
//! contracts use, and proved.
use vstd::prelude::*;
use crate::config::{chosen_settings, legacy_settings, LegacyConfig};
use crate::encoding::base64_seq;
use crate::gemini::{
    assistant_part, assistant_parts, block_if_any, gemini_contents, lemma_run_len_bound, output_object,
    run_len, screenshot_note, tool_part, tool_parts, user_parts, function_calls, BlockV, PartV,
};
use crate::model::{field_keys, first_by_key, seeded, ConfigFieldV};
use crate::session::{ContentV, MessageV, Role, SessionV};
use crate::store::{path_join, record_file_name};
use crate::text::lines_seq;
use crate::tools::ssh::{apply_directive, close_entry, directive, listed, scan, ssh_hosts};
use crate::text::{lemma_first_index_of, strip_prefix_seq};
use crate::tools::browser::{encode_byte, encode_bytes, is_unreserved, truncated_text};
use crate::tools::filesystem::read_file_text;
use crate::tools::http::{is_shown_header, method_name, method_of, shown_headers, shown_value, upsert, HttpMethod};
use crate::tools::filesystem::matching_lines;
use crate::agent_api::parsed_calls;
use crate::json::{field_str, jget, JsonV};
use crate::text::{ascii_upper, contains_seq, dec_seq, first_index_of, is_ascii_text, lower_text};

verus! {

// ---------------------------------------------------------------------------
// The record of an agent run
// ---------------------------------------------------------------------------

/// What a run has recorded between two calls of the model: the session's
/// messages followed by the message about to be sent are the messages of
/// the session before the run, the run's first message, and the run's new
/// messages.
pub open spec fn run_record(
    start: Seq<MessageV>,
    first: MessageV,
    messages: Seq<MessageV>,
    pending: MessageV,
    new_messages: Seq<MessageV>,
) -> bool {
    messages.push(pending) == start.push(first) + new_messages
}

/// A run starts with its first message pending and nothing new.
pub proof fn law_run_starts(start: Seq<MessageV>, first: MessageV)
    ensures
        run_record(start, first, start, first, Seq::empty()),
{
    assert(start.push(first) + Seq::<MessageV>::empty() =~= start.push(first));
}

/// Once the model has answered the pending message, the session holds
/// exactly the messages before the run, the run's first message and the
/// run's new messages: nothing is lost, repeated or reordered. This is the
/// state after the last answer of a run, and while tools run.
pub proof fn law_answer_completes_record(
    start: Seq<MessageV>,
    first: MessageV,
    before: Seq<MessageV>,
    pending: MessageV,
    new_before: Seq<MessageV>,
    added: Seq<MessageV>,
    after: Seq<MessageV>,
    new_after: Seq<MessageV>,
)
    requires
        run_record(start, first, before, pending, new_before),
        after == before.push(pending) + added,
        new_after == new_before + added,
    ensures
        after == start.push(first) + new_after,
{
    assert(after =~= start.push(first) + new_after);
}

/// Recording the results of a round of tool calls keeps the run's record,
/// with the last result as the next message to send.
pub proof fn law_tool_results_keep_record(
    start: Seq<MessageV>,
    first: MessageV,
    messages: Seq<MessageV>,
    new_before: Seq<MessageV>,
    results: Seq<MessageV>,
)
    requires
        messages == start.push(first) + new_before,
        results.len() > 0,
    ensures
        run_record(
            start,
            first,
            messages + results.drop_last(),
            results.last(),
            new_before + results,
        ),
{
    assert((messages + results.drop_last()).push(results.last()) =~= start.push(first) + (
    new_before + results));
}

// ---------------------------------------------------------------------------
// Settings seeded from the schema
// ---------------------------------------------------------------------------

/// Seeding keeps every value that was set.
pub proof fn law_seed_keeps_values(settings: Map<Seq<char>, Seq<char>>, keys: Seq<Seq<char>>, k: Seq<char>)
    requires
        settings.contains_key(k),
    ensures
        seeded(settings, keys).contains_key(k),
        seeded(settings, keys)[k] == settings[k],
    decreases keys.len(),
{
    if keys.len() > 0 {
        law_seed_keeps_values(settings, keys.drop_last(), k);
    }
}

/// After seeding, every key of the schema is present; a key that was
/// missing holds the empty string; no other key is added.
pub proof fn law_seed_adds_missing(settings: Map<Seq<char>, Seq<char>>, keys: Seq<Seq<char>>, k: Seq<char>)
    ensures
        keys.contains(k) ==> seeded(settings, keys).contains_key(k),
        keys.contains(k) && !settings.contains_key(k) ==> seeded(settings, keys)[k] == Seq::<
            char,
        >::empty(),
        seeded(settings, keys).contains_key(k) ==> settings.contains_key(k) || keys.contains(k),
    decreases keys.len(),
{
    if keys.len() > 0 {
        let rest = keys.drop_last();
        law_seed_adds_missing(settings, rest, k);
        if keys.contains(k) && k != keys.last() {
            let i = choose|i: int| 0 <= i < keys.len() && keys[i] == k;
            assert(rest[i] == k);
        }
        if rest.contains(k) {
            let i = choose|i: int| 0 <= i < rest.len() && rest[i] == k;
            assert(keys[i] == k);
        }
        if k == keys.last() {
            assert(keys[keys.len() - 1] == k);
        }
    }
}

/// Seeding twice with the same keys changes nothing the second time.
pub proof fn law_seed_idempotent(settings: Map<Seq<char>, Seq<char>>, keys: Seq<Seq<char>>)
    ensures
        seeded(seeded(settings, keys), keys) == seeded(settings, keys),
{
    let once = seeded(settings, keys);
    law_seeded_has_all_keys(settings, keys);
    lemma_seed_identity(once, keys);
}

/// Seeding settings that hold every key changes nothing.
proof fn lemma_seed_identity(settings: Map<Seq<char>, Seq<char>>, keys: Seq<Seq<char>>)
    requires
        forall|i: int| 0 <= i < keys.len() ==> settings.contains_key(#[trigger] keys[i]),
    ensures
        seeded(settings, keys) == settings,
    decreases keys.len(),
{
    if keys.len() > 0 {
        lemma_seed_identity(settings, keys.drop_last());
        assert(settings.contains_key(keys[keys.len() - 1]));
    }
}

/// Every key of the schema is present after seeding: what `seeded` is
/// applied to in `law_seed_idempotent`.
pub proof fn law_seeded_has_all_keys(settings: Map<Seq<char>, Seq<char>>, keys: Seq<Seq<char>>)
    ensures
        forall|i: int| 0 <= i < keys.len() ==> seeded(settings, keys).contains_key(#[trigger] keys[i]),
{
    assert forall|i: int| 0 <= i < keys.len() implies seeded(settings, keys).contains_key(
        #[trigger] keys[i],
    ) by {
        law_seed_adds_missing(settings, keys, keys[i]);
        assert(keys.contains(keys[i]));
    }
}

// ---------------------------------------------------------------------------
// The settings schema
// ---------------------------------------------------------------------------

/// The schema holds each key once.
pub proof fn law_schema_keys_distinct(fields: Seq<ConfigFieldV>)
    ensures
        field_keys(first_by_key(fields)).no_duplicates(),
    decreases fields.len(),
{
    if fields.len() > 0 {
        law_schema_keys_distinct(fields.drop_last());
        let kept = first_by_key(fields.drop_last());
        if !field_keys(kept).contains(fields.last().key) {
            let ks = field_keys(kept.push(fields.last()));
            assert(ks =~= field_keys(kept).push(fields.last().key));
            assert forall|a: int, b: int| 0 <= a < ks.len() && 0 <= b < ks.len() && a != b implies ks[a]
                != ks[b] by {
                if a == ks.len() - 1 {
                    assert(field_keys(kept)[b] == ks[b]);
                } else if b == ks.len() - 1 {
                    assert(field_keys(kept)[a] == ks[a]);
                }
            }
        }
    }
}

proof fn lemma_push_contains<A>(s: Seq<A>, a: A, b: A)
    ensures
        s.push(a).contains(b) <==> s.contains(b) || a == b,
{
    if s.push(a).contains(b) && a != b {
        let j = choose|j: int| 0 <= j < s.push(a).len() && s.push(a)[j] == b;
        assert(s[j] == b);
    }
    if s.contains(b) {
        let j = choose|j: int| 0 <= j < s.len() && s[j] == b;
        assert(s.push(a)[j] == b);
    }
    if a == b {
        assert(s.push(a)[s.len() as int] == b);
    }
}

/// The schema keeps, for each key of any model's fields, the first field
/// with that key, and nothing else.
pub proof fn law_schema_covers(fields: Seq<ConfigFieldV>, k: Seq<char>)
    ensures
        field_keys(fields).contains(k) <==> field_keys(first_by_key(fields)).contains(k),
        forall|i: int|
            0 <= i < first_by_key(fields).len() ==> fields.contains(#[trigger] first_by_key(fields)[i]),
    decreases fields.len(),
{
    if fields.len() > 0 {
        let rest = fields.drop_last();
        let last = fields.last();
        law_schema_covers(rest, k);
        law_schema_covers(rest, last.key);
        let kept = first_by_key(rest);
        assert(field_keys(fields) =~= field_keys(rest).push(last.key));
        lemma_push_contains(field_keys(rest), last.key, k);
        if !field_keys(kept).contains(last.key) {
            assert(field_keys(kept.push(last)) =~= field_keys(kept).push(last.key));
            lemma_push_contains(field_keys(kept), last.key, k);
        }
        assert forall|i: int| 0 <= i < first_by_key(fields).len() implies fields.contains(
            #[trigger] first_by_key(fields)[i],
        ) by {
            if i < kept.len() {
                assert(first_by_key(fields)[i] == kept[i]);
                assert(rest.contains(kept[i]));
                let j = choose|j: int| 0 <= j < rest.len() && rest[j] == kept[i];
                assert(fields[j] == rest[j]);
            } else {
                assert(first_by_key(fields)[i] == last);
                assert(fields[fields.len() - 1] == last);
            }
        }
    }
}

// ---------------------------------------------------------------------------
// Screenshots reach the model as images
// ---------------------------------------------------------------------------

/// The answer of `browser_screenshot` reaches Gemini as a function response
/// with a note, followed by the image itself as PNG data.
pub proof fn law_screenshot_reaches_model(call_id: Seq<char>, tool_name: Seq<char>, is_error: bool, png: Seq<u8>)
    ensures
        tool_part(
            ContentV::ToolResult {
                call_id,
                tool_name,
                output: "SCREENSHOT:image/png:"@ + base64_seq(png),
                is_error,
            },
        ) == seq![
            PartV::FunctionResponse { name: tool_name, response: output_object(screenshot_note()) },
            PartV::InlineData { mime_type: "image/png"@, data: base64_seq(png) },
        ],
{
    reveal_strlit("SCREENSHOT:image/png:");
    reveal_strlit("SCREENSHOT:");
    reveal_strlit("image/png");
    reveal_strlit("image/png:");
    let output = "SCREENSHOT:image/png:"@ + base64_seq(png);
    let rest = "image/png:"@ + base64_seq(png);
    assert(output.take(11) =~= "SCREENSHOT:"@);
    assert(output.skip(11) =~= rest);
    assert(strip_prefix_seq(output, "SCREENSHOT:"@) == Some(rest));
    assert(rest[9] == ':');
    assert(forall|j: int| 0 <= j < 9 ==> rest[j] != ':');
    lemma_first_index_of(rest, ':', 9);
    assert(rest.take(9) =~= "image/png"@);
    assert(rest.skip(10) =~= base64_seq(png));
}

// ---------------------------------------------------------------------------
// Search queries in URLs
// ---------------------------------------------------------------------------

/// A character that may stand in a URL query without further encoding.
pub open spec fn is_query_safe(c: char) -> bool {
    ('A' <= c <= 'Z') || ('a' <= c <= 'z') || ('0' <= c <= '9') || c == '-' || c == '_' || c == '.'
        || c == '~' || c == '+' || c == '%'
}

/// An encoded query holds only letters, digits, `-_.~`, `+` and `%`, so it
/// can stand in a URL as it is.
pub proof fn law_query_encoding_is_url_safe(bytes: Seq<u8>)
    ensures
        forall|i: int| 0 <= i < encode_bytes(bytes).len() ==> is_query_safe(#[trigger] encode_bytes(bytes)[i]),
    decreases bytes.len(),
{
    if bytes.len() > 0 {
        law_query_encoding_is_url_safe(bytes.drop_last());
        let head = encode_bytes(bytes.drop_last());
        let tail = encode_byte(bytes.last());
        assert(forall|i: int| 0 <= i < tail.len() ==> is_query_safe(#[trigger] tail[i])) by {
            let b = bytes.last();
            assert((b / 16) < 16);
            assert((b % 16) < 16);
        }
        assert forall|i: int| 0 <= i < encode_bytes(bytes).len() implies is_query_safe(
            #[trigger] encode_bytes(bytes)[i],
        ) by {
            if i < head.len() {
                assert(encode_bytes(bytes)[i] == head[i]);
            } else {
                assert(encode_bytes(bytes)[i] == tail[i - head.len()]);
            }
        }
    }
}

/// An uppercase hexadecimal digit.
pub open spec fn is_upper_hex(c: char) -> bool {
    ('0' <= c <= '9') || ('A' <= c <= 'F')
}

/// Every `%` of an encoded query is followed by two uppercase hexadecimal
/// digits.
pub proof fn law_query_percent_escapes(bytes: Seq<u8>)
    ensures
        forall|i: int|
            0 <= i < encode_bytes(bytes).len() && #[trigger] encode_bytes(bytes)[i] == '%' ==> i + 2
                < encode_bytes(bytes).len() && is_upper_hex(encode_bytes(bytes)[i + 1])
                && is_upper_hex(encode_bytes(bytes)[i + 2]),
    decreases bytes.len(),
{
    if bytes.len() > 0 {
        law_query_percent_escapes(bytes.drop_last());
        let head = encode_bytes(bytes.drop_last());
        let tail = encode_byte(bytes.last());
        let e = encode_bytes(bytes);
        assert(e == head + tail);
        let b = bytes.last();
        assert((b / 16) < 16);
        assert((b % 16) < 16);
        assert forall|i: int| 0 <= i < e.len() && #[trigger] e[i] == '%' implies i + 2 < e.len()
            && is_upper_hex(e[i + 1]) && is_upper_hex(e[i + 2]) by {
            if i < head.len() {
                assert(e[i] == head[i]);
                assert(e[i + 1] == head[i + 1]);
                assert(e[i + 2] == head[i + 2]);
            } else {
                assert(e[i] == tail[i - head.len()]);
                assert(i == head.len());
                assert(e[i + 1] == tail[1]);
                assert(e[i + 2] == tail[2]);
            }
        }
    }
}

/// How many characters a byte takes in an encoded query: one when it is
/// kept or is a space, three for a `%` escape.
pub open spec fn encoded_width(b: u8) -> nat {
    if is_unreserved(b) || b == 32 {
        1
    } else {
        3
    }
}

/// The sum of the widths of the bytes.
pub open spec fn encoded_len(bytes: Seq<u8>) -> nat
    decreases bytes.len(),
{
    if bytes.len() == 0 {
        0
    } else {
        encoded_len(bytes.drop_last()) + encoded_width(bytes.last())
    }
}

/// An encoded query is as long as the widths of its bytes add up to.
pub proof fn law_query_encoding_length(bytes: Seq<u8>)
    ensures
        encode_bytes(bytes).len() == encoded_len(bytes),
    decreases bytes.len(),
{
    if bytes.len() > 0 {
        law_query_encoding_length(bytes.drop_last());
    }
}

/// The value of a hexadecimal digit.
pub open spec fn hex_value(c: char) -> int {
    if c <= '9' {
        c as int - 48
    } else {
        c as int - 55
    }
}

/// Form decoding: `+` is a space, `%` and two hexadecimal digits are the
/// byte they write, any other character is its own code.
pub open spec fn form_decode(cs: Seq<char>) -> Seq<u8>
    decreases cs.len(),
{
    if cs.len() == 0 {
        Seq::empty()
    } else if cs[0] == '+' {
        seq![32u8] + form_decode(cs.drop_first())
    } else if cs[0] == '%' && cs.len() >= 3 {
        seq![(hex_value(cs[1]) * 16 + hex_value(cs[2])) as u8] + form_decode(cs.skip(3))
    } else {
        seq![cs[0] as u8] + form_decode(cs.drop_first())
    }
}

proof fn lemma_encode_bytes_front(bytes: Seq<u8>)
    requires
        bytes.len() > 0,
    ensures
        encode_bytes(bytes) == encode_byte(bytes[0]) + encode_bytes(bytes.drop_first()),
    decreases bytes.len(),
{
    if bytes.len() == 1 {
        assert(bytes.drop_last() =~= Seq::<u8>::empty());
        assert(bytes.drop_first() =~= Seq::<u8>::empty());
        assert(encode_bytes(bytes.drop_last()) == Seq::<char>::empty());
        assert(bytes.last() == bytes[0]);
        assert(encode_bytes(bytes.drop_first()) == Seq::<char>::empty());
        assert(encode_bytes(bytes) =~= encode_byte(bytes[0]) + encode_bytes(bytes.drop_first()));
    } else {
        lemma_encode_bytes_front(bytes.drop_last());
        assert(bytes.drop_last().drop_first() =~= bytes.drop_first().drop_last());
        assert(bytes.drop_first().last() == bytes.last());
        assert(bytes.drop_last()[0] == bytes[0]);
    }
}

proof fn lemma_hex_digit_value(d: int)
    requires
        0 <= d < 16,
    ensures
        is_upper_hex(crate::tools::browser::hex_upper(d)),
        hex_value(crate::tools::browser::hex_upper(d)) == d,
        crate::tools::browser::hex_upper(d) != '+',
        crate::tools::browser::hex_upper(d) != '%',
{
}

/// Form-decoding an encoded query gives back its bytes exactly.
pub proof fn law_query_encoding_round_trip(bytes: Seq<u8>)
    ensures
        form_decode(encode_bytes(bytes)) == bytes,
    decreases bytes.len(),
{
    if bytes.len() > 0 {
        let b = bytes[0];
        let rest = bytes.drop_first();
        lemma_encode_bytes_front(bytes);
        law_query_encoding_round_trip(rest);
        let e = encode_bytes(bytes);
        let re = encode_bytes(rest);
        if is_unreserved(b) {
            assert(e.drop_first() =~= re);
            assert(e[0] == b as char);
            assert((b as char) as u8 == b);
            assert(form_decode(e) == seq![b] + form_decode(re));
        } else if b == 32 {
            assert(e.drop_first() =~= re);
            assert(form_decode(e) == seq![32u8] + form_decode(re));
        } else {
            lemma_hex_digit_value((b / 16) as int);
            lemma_hex_digit_value((b % 16) as int);
            assert(e.skip(3) =~= re);
            assert(e[1] == crate::tools::browser::hex_upper((b / 16) as int));
            assert(e[2] == crate::tools::browser::hex_upper((b % 16) as int));
            assert(((b / 16) as int) * 16 + ((b % 16) as int) == b);
            assert(form_decode(e) == seq![b] + form_decode(re));
        }
        assert(bytes =~= seq![b] + rest);
    }
}

// ---------------------------------------------------------------------------
// Cutting long page text
// ---------------------------------------------------------------------------

/// A text longer than the limit is cut to its first `max` characters,
/// followed by the note; a text within the limit is kept whole.
pub proof fn law_truncation_keeps_prefix(text: Seq<char>, max: u64)
    ensures
        text.len() <= max ==> truncated_text(text, max) == text,
        text.len() > max ==> exists|kept: Seq<char>|
            {
                &&& kept.is_prefix_of(text)
                &&& kept.len() == max
                &&& truncated_text(text, max) == kept + "\u{2026}[truncated at "@
                    + crate::text::dec_seq(max as nat) + " chars]"@
            },
{
    if text.len() > max {
        let kept = text.take(max as int);
        assert(kept.is_prefix_of(text)) by {
            assert(text.subrange(0, kept.len() as int) =~= kept);
        }
    }
}

// ---------------------------------------------------------------------------
// Response headers
// ---------------------------------------------------------------------------

/// The headers an HTTP answer shows are among the four it shows, each name
/// at most once.
pub proof fn law_shown_headers_distinct(hs: Seq<(Seq<char>, Option<Seq<char>>)>)
    ensures
        forall|i: int| 0 <= i < shown_headers(hs).len() ==> is_shown_header(#[trigger] shown_headers(hs)[i].0),
        forall|a: int, b: int|
            0 <= a < b < shown_headers(hs).len() ==> shown_headers(hs)[a].0 != shown_headers(hs)[b].0,
    decreases hs.len(),
{
    if hs.len() > 0 {
        law_shown_headers_distinct(hs.drop_last());
        let acc = shown_headers(hs.drop_last());
        let name = hs.last().0;
        if is_shown_header(name) {
            let v = shown_value(hs.last().1);
            let r = upsert(acc, name, v);
            if exists|j: int| 0 <= j < acc.len() && #[trigger] acc[j].0 == name {
                assert(r.len() == acc.len());
                assert forall|i: int| 0 <= i < r.len() implies #[trigger] r[i].0 == acc[i].0 by {}
            } else {
                assert(r == acc.push((name, v)));
                assert forall|a: int, b: int| 0 <= a < b < r.len() implies r[a].0 != r[b].0 by {
                    if b == acc.len() {
                        assert(acc[a].0 != name);
                    }
                }
            }
        }
    }
}

// ---------------------------------------------------------------------------
// Record files
// ---------------------------------------------------------------------------

/// Records with different ids are kept in different files, so that saving
/// one never overwrites another (for ids that are not absolute paths).
pub proof fn law_record_files_distinct(dir: Seq<char>, id1: Seq<char>, id2: Seq<char>)
    requires
        id1 != id2,
        !(id1.len() > 0 && id1[0] == '/'),
        !(id2.len() > 0 && id2[0] == '/'),
    ensures
        path_join(dir, record_file_name(id1)) != path_join(dir, record_file_name(id2)),
{
    reveal_strlit(".json");
    let n1 = record_file_name(id1);
    let n2 = record_file_name(id2);
    if n1.len() > 0 && n1[0] == '/' {
        assert(id1.len() == 0);
        assert(n1[0] == '.');
    }
    if n2.len() > 0 && n2[0] == '/' {
        assert(id2.len() == 0);
        assert(n2[0] == '.');
    }
    let prefix = if dir.len() == 0 || dir.last() == '/' {
        dir
    } else {
        dir + seq!['/']
    };
    assert(path_join(dir, n1) =~= prefix + n1);
    assert(path_join(dir, n2) =~= prefix + n2);
    if prefix + n1 == prefix + n2 {
        assert(n1 =~= (prefix + n1).skip(prefix.len() as int));
        assert(n2 =~= (prefix + n2).skip(prefix.len() as int));
        assert(id1 =~= n1.take(id1.len() as int));
        if id1.len() < id2.len() {
            assert(n1.len() < n2.len());
        } else if id2.len() < id1.len() {
            assert(n2.len() < n1.len());
        }
        assert(id2 =~= n2.take(id2.len() as int));
    }
}

// ---------------------------------------------------------------------------
// Sessions in memory
// ---------------------------------------------------------------------------

/// Reading a session back after storing it gives what was stored, and the
/// other sessions are as they were.
pub proof fn law_session_read_after_write(table: Map<Seq<char>, SessionV>, s: SessionV, other: Seq<char>)
    ensures
        table.insert(s.id, s).contains_key(s.id),
        table.insert(s.id, s)[s.id] == s,
        other != s.id ==> (table.insert(s.id, s).contains_key(other) == table.contains_key(other)),
        other != s.id && table.contains_key(other) ==> table.insert(s.id, s)[other] == table[other],
        !table.remove(s.id).contains_key(s.id),
{
}

// ---------------------------------------------------------------------------
// Conversations sent to Gemini
// ---------------------------------------------------------------------------

/// The parts one message contributes to a Gemini request.
pub open spec fn message_parts(m: MessageV) -> Seq<PartV> {
    match m.role {
        Role::User => user_parts(m.content),
        Role::Assistant => assistant_part(m.content),
        Role::Tool => tool_part(m.content),
    }
}

/// The parts of the messages, one message after the other.
pub open spec fn all_message_parts(msgs: Seq<MessageV>) -> Seq<PartV>
    decreases msgs.len(),
{
    if msgs.len() == 0 {
        Seq::empty()
    } else {
        message_parts(msgs[0]) + all_message_parts(msgs.drop_first())
    }
}

/// The parts of the blocks, one block after the other.
pub open spec fn block_parts(blocks: Seq<BlockV>) -> Seq<PartV>
    decreases blocks.len(),
{
    if blocks.len() == 0 {
        Seq::empty()
    } else {
        blocks[0].parts + block_parts(blocks.drop_first())
    }
}

proof fn lemma_block_parts_concat(a: Seq<BlockV>, b: Seq<BlockV>)
    ensures
        block_parts(a + b) == block_parts(a) + block_parts(b),
    decreases a.len(),
{
    if a.len() == 0 {
        assert(a + b =~= b);
    } else {
        assert((a + b).drop_first() =~= a.drop_first() + b);
        lemma_block_parts_concat(a.drop_first(), b);
        assert(block_parts(a + b) =~= block_parts(a) + block_parts(b));
    }
}

proof fn lemma_block_if_any_parts(role: Seq<char>, parts: Seq<PartV>)
    ensures
        block_parts(block_if_any(role, parts)) == parts,
{
    if parts.len() > 0 {
        let b = seq![BlockV { role, parts }];
        assert(b.drop_first() =~= Seq::<BlockV>::empty());
        assert(block_parts(b.drop_first()) == Seq::<PartV>::empty());
        assert(block_parts(b) =~= parts);
    } else {
        assert(parts =~= Seq::<PartV>::empty());
    }
}

proof fn lemma_message_parts_concat(a: Seq<MessageV>, b: Seq<MessageV>)
    ensures
        all_message_parts(a + b) == all_message_parts(a) + all_message_parts(b),
    decreases a.len(),
{
    if a.len() == 0 {
        assert(a + b =~= b);
    } else {
        assert((a + b).drop_first() =~= a.drop_first() + b);
        lemma_message_parts_concat(a.drop_first(), b);
        assert(all_message_parts(a + b) =~= all_message_parts(a) + all_message_parts(b));
    }
}

proof fn lemma_message_parts_last(s: Seq<MessageV>)
    requires
        s.len() > 0,
    ensures
        all_message_parts(s) == all_message_parts(s.drop_last()) + message_parts(s.last()),
{
    lemma_message_parts_concat(s.drop_last(), seq![s.last()]);
    assert(s.drop_last() + seq![s.last()] =~= s);
    assert(seq![s.last()].drop_first() =~= Seq::<MessageV>::empty());
    assert(all_message_parts(seq![s.last()].drop_first()) == Seq::<PartV>::empty());
    assert(all_message_parts(seq![s.last()]) =~= message_parts(s.last()));
}

proof fn lemma_assistant_run_parts(s: Seq<MessageV>)
    requires
        forall|k: int| 0 <= k < s.len() ==> #[trigger] s[k].role == Role::Assistant,
    ensures
        assistant_parts(s) == all_message_parts(s),
    decreases s.len(),
{
    if s.len() > 0 {
        lemma_assistant_run_parts(s.drop_last());
        lemma_message_parts_last(s);
        assert(s[s.len() - 1].role == Role::Assistant);
    }
}

proof fn lemma_tool_run_parts(s: Seq<MessageV>)
    requires
        forall|k: int| 0 <= k < s.len() ==> #[trigger] s[k].role == Role::Tool,
    ensures
        tool_parts(s) == all_message_parts(s),
    decreases s.len(),
{
    if s.len() > 0 {
        lemma_tool_run_parts(s.drop_last());
        lemma_message_parts_last(s);
        assert(s[s.len() - 1].role == Role::Tool);
    }
}

proof fn lemma_run_len_roles(s: Seq<MessageV>, r: Role)
    ensures
        run_len(s, r) <= s.len(),
        forall|k: int| 0 <= k < run_len(s, r) ==> #[trigger] s[k].role == r,
    decreases s.len(),
{
    if s.len() > 0 && s[0].role == r {
        lemma_run_len_roles(s.drop_first(), r);
        assert forall|k: int| 0 <= k < run_len(s, r) implies #[trigger] s[k].role == r by {
            if k > 0 {
                assert(s[k] == s.drop_first()[k - 1]);
            }
        }
    }
}

/// Turning a conversation into Gemini content blocks keeps every part of
/// every message, in order, and adds none: the blocks only group them.
pub proof fn law_gemini_blocks_keep_all_parts(msgs: Seq<MessageV>)
    ensures
        block_parts(gemini_contents(msgs)) == all_message_parts(msgs),
    decreases msgs.len(),
{
    reveal(gemini_contents);
    if msgs.len() > 0 {
        let m0 = msgs[0];
        match m0.role {
            Role::User => {
                let rest = msgs.drop_first();
                law_gemini_blocks_keep_all_parts(rest);
                lemma_block_parts_concat(block_if_any("user"@, user_parts(m0.content)), gemini_contents(rest));
                lemma_block_if_any_parts("user"@, user_parts(m0.content));
            },
            Role::Assistant => {
                lemma_run_len_roles(msgs, Role::Assistant);
                lemma_run_len_bound(msgs, Role::Assistant);
                let k = run_len(msgs, Role::Assistant) as int;
                let head = msgs.take(k);
                let tail = msgs.skip(k);
                law_gemini_blocks_keep_all_parts(tail);
                lemma_block_parts_concat(block_if_any("model"@, assistant_parts(head)), gemini_contents(tail));
                lemma_block_if_any_parts("model"@, assistant_parts(head));
                assert forall|j: int| 0 <= j < head.len() implies #[trigger] head[j].role == Role::Assistant by {
                    assert(head[j] == msgs[j]);
                }
                lemma_assistant_run_parts(head);
                lemma_message_parts_concat(head, tail);
                assert(head + tail =~= msgs);
            },
            Role::Tool => {
                lemma_run_len_roles(msgs, Role::Tool);
                lemma_run_len_bound(msgs, Role::Tool);
                let k = run_len(msgs, Role::Tool) as int;
                let head = msgs.take(k);
                let tail = msgs.skip(k);
                law_gemini_blocks_keep_all_parts(tail);
                lemma_block_parts_concat(block_if_any("user"@, tool_parts(head)), gemini_contents(tail));
                lemma_block_if_any_parts("user"@, tool_parts(head));
                assert forall|j: int| 0 <= j < head.len() implies #[trigger] head[j].role == Role::Tool by {
                    assert(head[j] == msgs[j]);
                }
                lemma_tool_run_parts(head);
                lemma_message_parts_concat(head, tail);
                assert(head + tail =~= msgs);
            },
        }
    }
}

// ---------------------------------------------------------------------------
// SSH hosts
// ---------------------------------------------------------------------------

proof fn lemma_scan_lists_only(lines: Seq<Seq<char>>)
    ensures
        forall|i: int| 0 <= i < scan(lines).0.len() ==> listed(#[trigger] scan(lines).0[i]),
    decreases lines.len(),
{
    if lines.len() > 0 {
        lemma_scan_lists_only(lines.drop_last());
        let st = scan(lines.drop_last());
        match directive(lines.last()) {
            Some((k, v)) => {
                let ns = apply_directive(st, k, v);
                assert(scan(lines) == ns);
                if k == "host"@ {
                    assert(ns.0 == close_entry(st.0, st.1));
                    assert forall|i: int| 0 <= i < ns.0.len() implies listed(#[trigger] ns.0[i]) by {
                        if i < st.0.len() {
                            assert(ns.0[i] == st.0[i]);
                        }
                    }
                } else {
                    assert(ns.0 == st.0);
                }
            },
            None => {},
        }
    }
}

/// The hosts read from an SSH configuration never include a wildcard
/// pattern: entries whose alias is `*` or holds `*` or `?` are skipped.
pub proof fn law_ssh_hosts_are_not_patterns(content: Seq<char>)
    ensures
        forall|i: int| 0 <= i < ssh_hosts(content).len() ==> listed(#[trigger] ssh_hosts(content)[i]),
{
    lemma_scan_lists_only(lines_seq(content));
}

// ---------------------------------------------------------------------------
// Reading back what was written
// ---------------------------------------------------------------------------

/// `read_file` gives back what `write_file` wrote: the bytes of the written
/// content, read as text, are the content itself, and read as Base64 are the
/// standard Base64 of those bytes.
pub proof fn law_read_returns_written(content: Seq<char>)
    ensures
        read_file_text(Ok(vstd::utf8::encode_utf8(content)), false) == content,
        read_file_text(Ok(vstd::utf8::encode_utf8(content)), true) == base64_seq(
            vstd::utf8::encode_utf8(content),
        ),
{
    vstd::utf8::encode_utf8_valid_utf8(content);
    vstd::utf8::encode_utf8_decode_utf8(content);
}

/// Whether an older-format reading of a file has none of the older keys, as
/// for a file that holds only `settings`.
pub open spec fn no_legacy_keys(legacy: Option<LegacyConfig>) -> bool {
    match legacy {
        Some(old) => old.gemini_api_key is None && old.openai_api_key is None
            && old.anthropic_api_key is None,
        None => true,
    }
}

/// Loading the configuration file gives back the settings that were saved
/// in it: the file reads back as those settings, and its reading in the
/// older format, if any, has none of the older keys; empty settings load
/// as empty settings.
pub proof fn law_config_load_after_save(saved: Map<Seq<char>, Seq<char>>, legacy: Option<LegacyConfig>)
    requires
        no_legacy_keys(legacy),
    ensures
        chosen_settings(Some(saved), legacy) == saved,
{
    if saved == Map::<Seq<char>, Seq<char>>::empty() {
        if let Some(old) = legacy {
            assert(legacy_settings(old) =~= Map::<Seq<char>, Seq<char>>::empty());
        }
    }
}

// ---------------------------------------------------------------------------
// Waiting for the user's choice
// ---------------------------------------------------------------------------

/// A choice is answered at most once: once its call waits, taking it gives
/// what was left to deliver the answer and ends the wait, so a second
/// answer, or the timeout after it, finds nothing; the other waiting calls
/// are as they were.
pub proof fn law_choice_taken_once<T>(pending: Map<Seq<char>, T>, id: Seq<char>, waiter: T, other: Seq<char>)
    ensures
        pending.insert(id, waiter).contains_key(id),
        pending.insert(id, waiter)[id] == waiter,
        !pending.insert(id, waiter).remove(id).contains_key(id),
        other != id ==> pending.insert(id, waiter).remove(id).contains_key(other)
            == pending.contains_key(other),
        other != id && pending.contains_key(other) ==> pending.insert(id, waiter).remove(id)[other]
            == pending[other],
{
}

// ---------------------------------------------------------------------------
// What the model sees of a tool's result
// ---------------------------------------------------------------------------

proof fn lemma_all_message_parts_concat(a: Seq<MessageV>, b: Seq<MessageV>)
    ensures
        all_message_parts(a + b) == all_message_parts(a) + all_message_parts(b),
    decreases a.len(),
{
    if a.len() == 0 {
        assert(a + b =~= b);
    } else {
        assert((a + b).drop_first() =~= a.drop_first() + b);
        assert((a + b)[0] == a[0]);
        lemma_all_message_parts_concat(a.drop_first(), b);
        assert(all_message_parts(a + b) =~= all_message_parts(a) + all_message_parts(b));
    }
}

/// A tool's result reaches Gemini as a function response named after the
/// tool that the model called, never after the call's id. Its place among
/// the request's parts is after the parts of the messages before it; unless
/// it is a screenshot, the response is `{"output": output}`.
pub proof fn law_tool_result_answers_the_called_function(msgs: Seq<MessageV>, i: int)
    requires
        0 <= i < msgs.len(),
        msgs[i].role == Role::Tool,
        msgs[i].content is ToolResult,
    ensures
        ({
            let parts = block_parts(gemini_contents(msgs));
            let at = all_message_parts(msgs.take(i)).len() as int;
            let tool_name = msgs[i].content->ToolResult_tool_name;
            let output = msgs[i].content->ToolResult_output;
            &&& at < parts.len()
            &&& parts[at] matches PartV::FunctionResponse { name, .. } && name == tool_name
            &&& !"SCREENSHOT:"@.is_prefix_of(output) ==> parts[at] == PartV::FunctionResponse {
                name: tool_name,
                response: JsonV::Object(seq![("output"@, JsonV::Str(output))]),
            }
        }),
{
    law_gemini_blocks_keep_all_parts(msgs);
    let head = msgs.take(i);
    let tail = msgs.skip(i);
    assert(msgs =~= head + tail);
    lemma_all_message_parts_concat(head, tail);
    assert(tail[0] == msgs[i]);
    let mp = message_parts(msgs[i]);
    assert(all_message_parts(tail) == mp + all_message_parts(tail.drop_first()));
    let output = msgs[i].content->ToolResult_output;
    if let Some(rest) = strip_prefix_seq(output, "SCREENSHOT:"@) {
        match first_index_of(rest, ':') {
            Some(k) => {},
            None => {},
        }
    }
    assert(mp.len() >= 1);
    let parts = block_parts(gemini_contents(msgs));
    let at = all_message_parts(head).len() as int;
    assert(parts[at] == mp[0]);
}

// ---------------------------------------------------------------------------
// The tool calls of a Gemini reply
// ---------------------------------------------------------------------------

/// Whether a part is a function call.
pub open spec fn is_function_call() -> spec_fn(PartV) -> bool {
    |p: PartV| p is FunctionCall
}

/// Every function call of the reply becomes a tool call, in order: there are
/// as many as there are function-call parts, the i-th with the name and the
/// arguments of the i-th function-call part; and a function call added at
/// the end adds one tool call at the end, keeping the others.
pub proof fn law_reply_keeps_every_function_call(parts: Seq<PartV>, name: Seq<char>, args: JsonV)
    ensures
        function_calls(parts).len() == parts.filter(is_function_call()).len(),
        forall|i: int|
            0 <= i < function_calls(parts).len() ==> parts.filter(is_function_call())[i]
                == (PartV::FunctionCall {
                name: #[trigger] function_calls(parts)[i].0,
                args: function_calls(parts)[i].1,
            }),
        function_calls(parts.push(PartV::FunctionCall { name, args })) == function_calls(parts).push(
            (name, args),
        ),
    decreases parts.len(),
{
    reveal(Seq::filter);
    let pred = is_function_call();
    let f = parts.filter(pred);
    if parts.len() > 0 {
        law_reply_keeps_every_function_call(parts.drop_last(), name, args);
        let fc = function_calls(parts);
        let f0 = parts.drop_last().filter(pred);
        let fc0 = function_calls(parts.drop_last());
        assert forall|i: int| 0 <= i < fc.len() implies f[i] == (PartV::FunctionCall {
            name: #[trigger] fc[i].0,
            args: fc[i].1,
        }) by {
            if i < fc0.len() {
                assert(fc[i] == fc0[i]);
                assert(f[i] == f0[i]);
            }
        }
    }
    let pushed = parts.push(PartV::FunctionCall { name, args });
    assert(pushed.drop_last() =~= parts);
}

// ---------------------------------------------------------------------------
// The tool calls of an agent service reply
// ---------------------------------------------------------------------------

/// Whether a part describes a tool call: a string `call_id`, a string
/// `tool_name` and an `input`.
pub open spec fn is_call_part() -> spec_fn(JsonV) -> bool {
    |p: JsonV|
        {
            &&& field_str(p, "call_id"@) is Some
            &&& field_str(p, "tool_name"@) is Some
            &&& jget(p, "input"@) is Some
        }
}

/// The call a part describes: its id, tool name and input.
pub open spec fn described_call(p: JsonV) -> (Seq<char>, Seq<char>, JsonV) {
    (field_str(p, "call_id"@)->0, field_str(p, "tool_name"@)->0, jget(p, "input"@)->0)
}

/// Every part that describes a tool call yields one tool call, in order:
/// there are as many calls as such parts, the i-th from the i-th such part;
/// a call part added at the end adds exactly its call at the end and keeps
/// the others; any other part added changes nothing.
pub proof fn law_agent_reply_keeps_every_call(parts: Seq<JsonV>, p: JsonV)
    ensures
        parsed_calls(parts).len() == parts.filter(is_call_part()).len(),
        forall|i: int|
            0 <= i < parsed_calls(parts).len() ==> #[trigger] parsed_calls(parts)[i]
                == described_call(parts.filter(is_call_part())[i]),
        is_call_part()(p) ==> parsed_calls(parts.push(p)) == parsed_calls(parts).push(described_call(p)),
        !is_call_part()(p) ==> parsed_calls(parts.push(p)) == parsed_calls(parts),
    decreases parts.len(),
{
    reveal(Seq::filter);
    let pred = is_call_part();
    let f = parts.filter(pred);
    if parts.len() > 0 {
        law_agent_reply_keeps_every_call(parts.drop_last(), p);
        let pc = parsed_calls(parts);
        let f0 = parts.drop_last().filter(pred);
        let pc0 = parsed_calls(parts.drop_last());
        assert forall|i: int| 0 <= i < pc.len() implies #[trigger] pc[i] == described_call(f[i]) by {
            if i < pc0.len() {
                assert(pc[i] == pc0[i]);
                assert(f[i] == f0[i]);
            }
        }
    }
    let pushed = parts.push(p);
    assert(pushed.drop_last() =~= parts);
}

// ---------------------------------------------------------------------------
// The methods the HTTP tool sends
// ---------------------------------------------------------------------------

/// The HTTP tool sends GET, POST, PUT, PATCH and DELETE and no other method;
/// a method given in ASCII letters of any case is taken by its upper case.
pub proof fn law_http_methods(input: JsonV, m: Seq<char>, n: Seq<char>)
    ensures
        method_of("GET"@) == Some(HttpMethod::Get),
        method_of("POST"@) == Some(HttpMethod::Post),
        method_of("PUT"@) == Some(HttpMethod::Put),
        method_of("PATCH"@) == Some(HttpMethod::Patch),
        method_of("DELETE"@) == Some(HttpMethod::Delete),
        method_of(n) is Some ==> n == "GET"@ || n == "POST"@ || n == "PUT"@ || n == "PATCH"@ || n
            == "DELETE"@,
        field_str(input, "method"@) == Some(m) && is_ascii_text(m) ==> method_name(input)
            == m.map_values(|c: char| ascii_upper(c)),
        field_str(input, "method"@) is None ==> method_name(input) == "GET"@,
{
    reveal_strlit("GET");
    reveal_strlit("POST");
    reveal_strlit("PUT");
    reveal_strlit("PATCH");
    reveal_strlit("DELETE");
    assert("POST"@.len() != "GET"@.len());
    assert("PUT"@[0] != "GET"@[0]);
    assert("PUT"@.len() != "POST"@.len());
    assert("PATCH"@.len() != "GET"@.len() && "PATCH"@.len() != "POST"@.len());
    assert("DELETE"@.len() != "GET"@.len() && "DELETE"@.len() != "POST"@.len() && "DELETE"@.len()
        != "PATCH"@.len());
}

// ---------------------------------------------------------------------------
// Searching the lines of a file
// ---------------------------------------------------------------------------

/// How the search reports line k (counted from 0) of a file shown as
/// `display`: `display:n: line` with n = k + 1.
pub open spec fn reported_line(display: Seq<char>, lines: Seq<Seq<char>>, k: int) -> Seq<char> {
    display + ":"@ + dec_seq((k + 1) as nat) + ": "@ + lines[k]
}

/// Whether line k's lowercase form contains the pattern.
pub open spec fn line_matches(lines: Seq<Seq<char>>, pattern: Seq<char>, k: int) -> bool {
    0 <= k < lines.len() && contains_seq(lower_text(lines[k]), pattern)
}

proof fn lemma_reported_source(display: Seq<char>, lines: Seq<Seq<char>>, pattern: Seq<char>, j: int) -> (k: int)
    requires
        0 <= j < matching_lines(display, lines, pattern).len(),
    ensures
        line_matches(lines, pattern, k),
        matching_lines(display, lines, pattern)[j] == reported_line(display, lines, k),
    decreases lines.len(),
{
    let init = lines.drop_last();
    let rest = matching_lines(display, init, pattern);
    let n = lines.len() as int;
    if j < rest.len() {
        let k = lemma_reported_source(display, init, pattern, j);
        assert(lines[k] == init[k]);
        k
    } else {
        assert(lines[n - 1] == lines.last());
        n - 1
    }
}

proof fn lemma_matching_reported(display: Seq<char>, lines: Seq<Seq<char>>, pattern: Seq<char>, k: int)
    requires
        line_matches(lines, pattern, k),
    ensures
        matching_lines(display, lines, pattern).contains(reported_line(display, lines, k)),
    decreases lines.len(),
{
    let init = lines.drop_last();
    let rest = matching_lines(display, init, pattern);
    let all = matching_lines(display, lines, pattern);
    let n = lines.len() as int;
    let t = reported_line(display, lines, k);
    if k == n - 1 {
        assert(all[all.len() - 1] == t);
    } else {
        assert(init[k] == lines[k]);
        lemma_matching_reported(display, init, pattern, k);
        assert(reported_line(display, init, k) == t);
        let j = choose|j: int| 0 <= j < rest.len() && rest[j] == t;
        assert(all[j] == t);
    }
}

/// Whether `s` is how the search reports some line that matches.
pub open spec fn reports_a_match(display: Seq<char>, lines: Seq<Seq<char>>, pattern: Seq<char>, s: Seq<char>) -> bool {
    exists|k: int| #[trigger] line_matches(lines, pattern, k) && s == reported_line(display, lines, k)
}

/// The search reports every line, at any position, whose lowercase form
/// contains the pattern, as `display:n: line` with n its number from 1; and
/// it reports nothing else.
pub proof fn law_search_reports_matching_lines(display: Seq<char>, lines: Seq<Seq<char>>, pattern: Seq<char>)
    ensures
        forall|k: int|
            #[trigger] line_matches(lines, pattern, k) ==> matching_lines(display, lines, pattern).contains(
                reported_line(display, lines, k),
            ),
        forall|j: int|
            0 <= j < matching_lines(display, lines, pattern).len() ==> reports_a_match(
                display,
                lines,
                pattern,
                #[trigger] matching_lines(display, lines, pattern)[j],
            ),
{
    assert forall|k: int| #[trigger] line_matches(lines, pattern, k) implies matching_lines(
        display,
        lines,
        pattern,
    ).contains(reported_line(display, lines, k)) by {
        lemma_matching_reported(display, lines, pattern, k);
    }
    assert forall|j: int| 0 <= j < matching_lines(display, lines, pattern).len() implies reports_a_match(
        display,
        lines,
        pattern,
        #[trigger] matching_lines(display, lines, pattern)[j],
    ) by {
        let k = lemma_reported_source(display, lines, pattern, j);
        assert(line_matches(lines, pattern, k));
    }
}

} // verus!
