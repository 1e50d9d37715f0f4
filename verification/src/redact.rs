//! Traces of failed tool calls: what is taken out of them before they are analysed.

use vstd::prelude::*;
use crate::api::ApiError;
use crate::api::ApiErrorView;
use crate::api::bad_gateway;
use crate::api::bad_request;
use crate::json::Json;
use crate::json::JsonView;
use crate::json::array_view;
use crate::json::field_trees;
use crate::json::object_view;
use crate::json::trees;
use crate::numbers::decimal;
use crate::numbers::print_usize;
use crate::pieces::is_word;
use crate::pieces::joined_words_are_words;
use crate::pieces::lines;
use crate::pieces::split_lines;
use crate::pieces::split_words;
use crate::pieces::words;
use crate::pieces::words_are_words;
use crate::session::ChatMessage;
use crate::session::ModelRequest;
use crate::session::ModelRequestView;
use crate::session::system_message;
use crate::session::user_message;
use crate::table::lookup;
use crate::table::pairs_of;
use vstd::string::StringSliceAdditionalSpecFns;
use crate::table::put;
use crate::table::put_is_found;
use crate::table::table_put;
use crate::text::begins;
use crate::text::blank;
use crate::text::chars_of;
use crate::text::contains;
use crate::text::first_chars;
use crate::text::has;
use crate::text::is_ascii_alphanumeric;
use crate::text::is_ascii_alphanumeric_char;
use crate::text::is_blank;
use crate::text::is_digit;
use crate::text::is_digit_char;
use crate::text::is_space;
use crate::text::join;
use crate::text::joined;
use crate::text::lower;
use crate::text::same;
use crate::text::occurs_at;
use crate::text::starts_with;
use crate::text::string_of;
use crate::text::take_chars;
use crate::text::texts;
use crate::text::texts_empty;
use crate::text::texts_push;
use crate::text::to_lower;
use crate::views::Duplicate;
use crate::views::duplicate_opt;
use crate::views::opt;
use crate::views::views;
use crate::views::views_empty;
use crate::views::views_push;

verus! {

broadcast use {texts_push, texts_empty, views_push, views_empty, array_view, object_view};

/// A tool call in a trace.
#[derive(Debug)]
pub struct ToolFailureTraceItem {
    pub sequence: u64,
    pub tool: String,
    pub argument_shape: Json,
    pub status: String,
    pub category: Option<String>,
    pub error_summary: Option<String>,
    pub elapsed_ms: Option<u64>,
}

/// What a `ToolFailureTraceItem` holds.
#[verifier::ext_equal]
pub struct ToolFailureTraceItemView {
    pub sequence: u64,
    pub tool: Seq<char>,
    pub argument_shape: JsonView,
    pub status: Seq<char>,
    pub category: Option<Seq<char>>,
    pub error_summary: Option<Seq<char>>,
    pub elapsed_ms: Option<u64>,
}

impl View for ToolFailureTraceItem {
    type V = ToolFailureTraceItemView;

    open spec fn view(&self) -> ToolFailureTraceItemView {
        ToolFailureTraceItemView {
            sequence: self.sequence,
            tool: self.tool@,
            argument_shape: self.argument_shape@,
            status: self.status@,
            category: opt(self.category),
            error_summary: opt(self.error_summary),
            elapsed_ms: self.elapsed_ms,
        }
    }
}

impl Duplicate for ToolFailureTraceItem {
    fn duplicate(&self) -> (result: Self) {
        ToolFailureTraceItem {
            sequence: self.sequence,
            tool: self.tool.clone(),
            argument_shape: self.argument_shape.duplicate(),
            status: self.status.clone(),
            category: duplicate_opt(&self.category),
            error_summary: duplicate_opt(&self.error_summary),
            elapsed_ms: self.elapsed_ms,
        }
    }
}

// ---------------------------------------------------------------------------
// Names and words
// ---------------------------------------------------------------------------

/// Whether a name stands for something secret.
pub open spec fn names_secret(key: Seq<char>) -> bool {
    let name = lower(key);
    contains(name, "key"@) || contains(name, "token"@) || contains(name, "secret"@) || contains(
        name,
        "password"@,
    ) || contains(name, "authorization"@) || contains(name, "credential"@)
}

/// Tells whether a name stands for something secret.
pub fn is_secret_key(key: &str) -> (result: bool)
    ensures
        result == names_secret(key@),
{
    let name = to_lower(key);
    has(&name, "key") || has(&name, "token") || has(&name, "secret") || has(&name, "password")
        || has(&name, "authorization") || has(&name, "credential")
}

/// Whether a character may stand in an identifier.
pub open spec fn in_identifier(c: char) -> bool {
    is_ascii_alphanumeric(c) || c == '_' || c == '-' || c == '.' || c == ':'
}

/// The characters of a text that may stand in an identifier.
pub open spec fn identifier_chars(s: Seq<char>) -> Seq<char>
    decreases s.len(),
{
    if s.len() == 0 {
        Seq::empty()
    } else if in_identifier(s.last()) {
        identifier_chars(s.drop_last()).push(s.last())
    } else {
        identifier_chars(s.drop_last())
    }
}

/// A text as an identifier of at most `max` characters.
pub open spec fn clean_identifier(s: Seq<char>, max: nat) -> Seq<char> {
    let kept = first_chars(identifier_chars(s), max);
    if kept.len() == 0 {
        "unknown"@
    } else {
        kept
    }
}

/// Makes an identifier of at most `max_chars` characters of a text.
pub fn sanitize_identifier(value: &str, max_chars: usize) -> (result: String)
    ensures
        result@ == clean_identifier(value@, max_chars as nat),
{
    let chars = chars_of(value);
    let mut kept: Vec<char> = Vec::new();
    let mut i: usize = 0;
    while i < chars.len()
        invariant
            i <= chars@.len(),
            kept@ == identifier_chars(chars@.take(i as int)),
        decreases chars@.len() - i,
    {
        let ghost part = chars@.take(i + 1);
        assert(part.drop_last() =~= chars@.take(i as int));
        let c = chars[i];
        if is_ascii_alphanumeric_char(c) || c == '_' || c == '-' || c == '.' || c == ':' {
            kept.push(c);
        }
        i = i + 1;
    }
    assert(chars@.take(i as int) =~= chars@);
    let text = take_chars(&string_of(&kept), max_chars);
    if text.as_str().is_empty() {
        "unknown".to_owned()
    } else {
        text
    }
}

/// Whether a character is a hexadecimal digit.
pub open spec fn is_hex(c: char) -> bool {
    is_digit(c) || ('a' <= c && c <= 'f') || ('A' <= c && c <= 'F')
}

/// Whether a text is nothing but hexadecimal digits.
pub open spec fn all_hex(s: Seq<char>) -> bool {
    forall|k: int| 0 <= k < s.len() ==> is_hex(#[trigger] s[k])
}

/// Whether a word looks like a web address.
pub open spec fn looks_like_url(word: Seq<char>) -> bool {
    starts_with(lower(word), "http://"@) || starts_with(lower(word), "https://"@)
}

/// Whether a word looks like a path of a file.
pub open spec fn looks_like_path(word: Seq<char>) -> bool {
    ||| word.len() > 0 && word[0] == '/'
    ||| word.len() > 1 && (word[0] as u32) < 128 && word[1] == ':'
    ||| contains(word, "\\"@)
    ||| contains(word, "/data/"@)
    ||| contains(word, "/storage/"@)
}

/// Whether a word looks like a secret: a key, the name of a token, or a long run of
/// hexadecimal digits.
pub open spec fn looks_like_secret(word: Seq<char>) -> bool {
    starts_with(lower(word), "sk-"@) || starts_with(lower(word), "bearer"@) || (word.len() >= 24
        && all_hex(word))
}

/// Whether a word looks like an address of mail.
pub open spec fn looks_like_email(word: Seq<char>) -> bool {
    contains(word, "@"@) && contains(word, "."@)
}

/// Whether a word may be shown.
#[verifier::opaque]
pub open spec fn harmless(word: Seq<char>) -> bool {
    !looks_like_url(word) && !looks_like_path(word) && !looks_like_secret(word)
        && !looks_like_email(word)
}

/// A word, or what stands for it where it may not be shown.
#[verifier::opaque]
pub open spec fn clean_word(word: Seq<char>) -> Seq<char> {
    if looks_like_url(word) {
        "[redacted_url]"@
    } else if looks_like_path(word) {
        "[redacted_path]"@
    } else if looks_like_secret(word) {
        "[redacted_secret]"@
    } else if looks_like_email(word) {
        "[redacted_email]"@
    } else {
        word
    }
}

/// Words, or what stands for them.
pub open spec fn clean_words(list: Seq<Seq<char>>) -> Seq<Seq<char>> {
    Seq::new(list.len(), |i: int| clean_word(list[i]))
}

/// The first `max` characters of a text, word by word, without what may not be shown.
pub open spec fn clean_text(s: Seq<char>, max: nat) -> Seq<char> {
    joined(clean_words(words(first_chars(s, max))), " "@)
}

fn only_hex(chars: &Vec<char>) -> (result: bool)
    ensures
        result == all_hex(chars@),
{
    let mut i: usize = 0;
    while i < chars.len()
        invariant
            i <= chars@.len(),
            forall|k: int| 0 <= k < i ==> is_hex(#[trigger] chars@[k]),
        decreases chars@.len() - i,
    {
        let c = chars[i];
        if !(is_digit_char(c) || ('a' <= c && c <= 'f') || ('A' <= c && c <= 'F')) {
            return false;
        }
        i = i + 1;
    }
    true
}

fn redact_word(word: &str) -> (result: String)
    ensures
        result@ == clean_word(word@),
{
    proof {
        reveal(clean_word);
    }
    let name = to_lower(word);
    let chars = chars_of(word);
    if begins(&name, "http://") || begins(&name, "https://") {
        return "[redacted_url]".to_owned();
    }
    if (chars.len() > 0 && chars[0] == '/') || (chars.len() > 1 && (chars[0] as u32) < 128
        && chars[1] == ':') || has(word, "\\") || has(word, "/data/") || has(word, "/storage/") {
        return "[redacted_path]".to_owned();
    }
    if begins(&name, "sk-") || begins(&name, "bearer") || (chars.len() >= 24 && only_hex(&chars)) {
        return "[redacted_secret]".to_owned();
    }
    if has(word, "@") && has(word, ".") {
        return "[redacted_email]".to_owned();
    }
    word.to_owned()
}

/// Takes out of the first `max_chars` characters of a text what may not be shown. The words
/// that are left stand with one blank between them.
pub fn sanitize_diagnostic_string(value: &str, max_chars: usize) -> (result: String)
    ensures
        result@ == clean_text(value@, max_chars as nat),
{
    let parts = split_words(&take_chars(value, max_chars));
    let ghost wanted = clean_words(texts(parts@));
    let mut kept: Vec<String> = Vec::new();
    let mut i: usize = 0;
    assert(wanted.take(0) =~= Seq::empty());
    while i < parts.len()
        invariant
            i <= parts@.len(),
            wanted == clean_words(texts(parts@)),
            texts(kept@) == wanted.take(i as int),
        decreases parts@.len() - i,
    {
        assert(texts(parts@)[i as int] == parts@[i as int]@);
        kept.push(redact_word(&parts[i]));
        assert(wanted.take(i + 1) =~= wanted.take(i as int).push(wanted[i as int]));
        i = i + 1;
    }
    assert(wanted.take(i as int) =~= wanted);
    join(&kept, " ")
}

/// Lines, each without what may not be shown.
pub open spec fn clean_lines(list: Seq<Seq<char>>) -> Seq<Seq<char>> {
    Seq::new(list.len(), |i: int| clean_text(list[i], 2_000))
}

/// An analysis, line by line, without what may not be shown.
pub open spec fn clean_analysis(s: Seq<char>) -> Seq<char> {
    joined(clean_lines(lines(first_chars(s, 24_000))), "\n"@)
}

/// Takes out of an analysis, line by line, what may not be shown.
pub fn sanitize_generated_analysis(value: &str) -> (result: String)
    ensures
        result@ == clean_analysis(value@),
{
    let parts = split_lines(&take_chars(value, 24_000));
    let ghost wanted = clean_lines(texts(parts@));
    let mut kept: Vec<String> = Vec::new();
    let mut i: usize = 0;
    assert(wanted.take(0) =~= Seq::empty());
    while i < parts.len()
        invariant
            i <= parts@.len(),
            wanted == clean_lines(texts(parts@)),
            texts(kept@) == wanted.take(i as int),
        decreases parts@.len() - i,
    {
        assert(texts(parts@)[i as int] == parts@[i as int]@);
        kept.push(sanitize_diagnostic_string(&parts[i], 2_000));
        assert(wanted.take(i + 1) =~= wanted.take(i as int).push(wanted[i as int]));
        i = i + 1;
    }
    assert(wanted.take(i as int) =~= wanted);
    join(&kept, "\n")
}

// ---------------------------------------------------------------------------
// Values
// ---------------------------------------------------------------------------

/// What is kept of a value in a trace. `key` is the name under which it stands.
pub open spec fn clean_value(value: JsonView, key: Seq<char>, depth: nat) -> JsonView
    decreases 13 - 2 * depth, 0nat,
{
    if depth > 5 {
        JsonView::Text("[max_depth]"@)
    } else {
        match value {
            JsonView::Object(fields) => JsonView::Object(
                clean_fields(
                    if fields.len() > 30 {
                        fields.take(30)
                    } else {
                        fields
                    },
                    depth,
                ),
            ),
            JsonView::Array(items) => JsonView::Array(
                clean_items(
                    if items.len() > 12 {
                        items.take(12)
                    } else {
                        items
                    },
                    key,
                    depth,
                ),
            ),
            JsonView::Text(text) => JsonView::Text(
                if names_secret(key) {
                    "[redacted_secret]"@
                } else {
                    clean_text(text, 240)
                },
            ),
            JsonView::Number(_) => JsonView::Text("[number]"@),
            JsonView::Bool(flag) => JsonView::Bool(flag),
            JsonView::Null => JsonView::Text("[null]"@),
        }
    }
}

/// What is kept of the fields of an object.
pub open spec fn clean_fields(fields: Seq<(Seq<char>, JsonView)>, depth: nat) -> Seq<
    (Seq<char>, JsonView),
>
    decreases 12 - 2 * depth, fields.len(),
{
    if fields.len() == 0 || depth > 5 {
        Seq::empty()
    } else {
        let name = clean_identifier(fields.last().0, 80);
        put(
            clean_fields(fields.drop_last(), depth),
            name,
            if names_secret(name) {
                JsonView::Text("[redacted_secret]"@)
            } else {
                clean_value(fields.last().1, name, depth + 1)
            },
        )
    }
}

/// What is kept of the items of an array.
pub open spec fn clean_items(items: Seq<JsonView>, key: Seq<char>, depth: nat) -> Seq<JsonView>
    decreases 12 - 2 * depth, items.len(),
{
    if items.len() == 0 || depth > 5 {
        Seq::empty()
    } else {
        clean_items(items.drop_last(), key, depth).push(clean_value(items.last(), key, depth + 1))
    }
}

/// Takes out of a value in a trace what may not be shown.
pub fn sanitize_trace_value(value: &Json, key: &str, depth: usize) -> (result: Json)
    ensures
        result@ == clean_value(value@, key@, depth as nat),
    decreases 13 - 2 * depth, 0nat,
{
    if depth > 5 {
        return Json::text("[max_depth]");
    }
    match value {
        Json::Object(fields) => Json::Object(sanitize_fields(fields, depth)),
        Json::Array(items) => Json::Array(sanitize_items(items, key, depth)),
        Json::Text(text) => if is_secret_key(key) {
            Json::text("[redacted_secret]")
        } else {
            Json::Text(sanitize_diagnostic_string(text, 240))
        },
        Json::Number(_) => Json::text("[number]"),
        Json::Bool(flag) => Json::Bool(*flag),
        Json::Null => Json::text("[null]"),
    }
}

fn sanitize_fields(fields: &Vec<(String, Json)>, depth: usize) -> (result: Vec<(String, Json)>)
    requires
        depth <= 5,
    ensures
        field_trees(result@) == clean_fields(
            if field_trees(fields@).len() > 30 {
                field_trees(fields@).take(30)
            } else {
                field_trees(fields@)
            },
            depth as nat,
        ),
    decreases 12 - 2 * depth, fields@.len(),
{
    let ghost all = field_trees(fields@);
    let mut kept: Vec<(String, Json)> = Vec::new();
    let mut i: usize = 0;
    assert(field_trees(kept@) =~= Seq::empty());
    assert(all.take(0) =~= Seq::empty());
    while i < fields.len() && i < 30
        invariant
            i <= fields@.len(),
            i <= 30,
            depth <= 5,
            all == field_trees(fields@),
            field_trees(kept@) == clean_fields(all.take(i as int), depth as nat),
        decreases fields@.len() - i,
    {
        let ghost part = all.take(i + 1);
        assert(part.drop_last() =~= all.take(i as int));
        assert(part.last() == (fields@[i as int].0@, fields@[i as int].1@));
        let name = sanitize_identifier(&fields[i].0, 80);
        let kept_value = if is_secret_key(&name) {
            Json::text("[redacted_secret]")
        } else {
            sanitize_trace_value(&fields[i].1, &name, depth + 1)
        };
        assert(field_trees(kept@) =~= pairs_of(kept@));
        table_put(&mut kept, name, kept_value);
        assert(field_trees(kept@) =~= pairs_of(kept@));
        i = i + 1;
    }
    if fields.len() <= 30 {
        assert(all.take(i as int) =~= all);
    }
    kept
}

fn sanitize_items(items: &Vec<Json>, key: &str, depth: usize) -> (result: Vec<Json>)
    requires
        depth <= 5,
    ensures
        trees(result@) == clean_items(
            if trees(items@).len() > 12 {
                trees(items@).take(12)
            } else {
                trees(items@)
            },
            key@,
            depth as nat,
        ),
    decreases 12 - 2 * depth, items@.len(),
{
    let ghost all = trees(items@);
    let mut kept: Vec<Json> = Vec::new();
    let mut i: usize = 0;
    assert(trees(kept@) =~= Seq::empty());
    assert(all.take(0) =~= Seq::empty());
    while i < items.len() && i < 12
        invariant
            i <= items@.len(),
            i <= 12,
            depth <= 5,
            all == trees(items@),
            trees(kept@) == clean_items(all.take(i as int), key@, depth as nat),
        decreases items@.len() - i,
    {
        let ghost part = all.take(i + 1);
        assert(part.drop_last() =~= all.take(i as int));
        assert(part.last() == items@[i as int]@);
        let ghost before = kept@;
        let item = sanitize_trace_value(&items[i], key, depth + 1);
        kept.push(item);
        assert(trees(kept@) =~= trees(before).push(item@));
        i = i + 1;
    }
    if items.len() <= 12 {
        assert(all.take(i as int) =~= all);
    }
    kept
}

/// The smaller of two numbers.
pub open spec fn at_most(value: u64, max: u64) -> u64 {
    if value < max {
        value
    } else {
        max
    }
}

/// A status that is known, or the name for an unknown one.
pub open spec fn known_status(status: Seq<char>) -> Seq<char> {
    if status == "success"@ || status == "error"@ {
        status
    } else {
        "unknown"@
    }
}

/// What is kept of a tool call in a trace.
pub open spec fn clean_item(item: ToolFailureTraceItemView) -> ToolFailureTraceItemView {
    ToolFailureTraceItemView {
        sequence: at_most(item.sequence, 10_000),
        tool: clean_identifier(item.tool, 80),
        argument_shape: clean_value(item.argument_shape, ""@, 0),
        status: known_status(item.status),
        category: match item.category {
            Some(text) => Some(clean_identifier(text, 80)),
            None => None,
        },
        error_summary: match item.error_summary {
            Some(text) => Some(clean_text(text, 600)),
            None => None,
        },
        elapsed_ms: match item.elapsed_ms {
            Some(value) => Some(at_most(value, 3_600_000)),
            None => None,
        },
    }
}

/// Takes out of a tool call in a trace what may not be shown.
pub fn sanitize_tool_failure_item(item: &ToolFailureTraceItem) -> (result: ToolFailureTraceItem)
    ensures
        result@ == clean_item(item@),
{
    let status = if same(&item.status, "success") {
        "success"
    } else if same(&item.status, "error") {
        "error"
    } else {
        "unknown"
    };
    ToolFailureTraceItem {
        sequence: if item.sequence < 10_000 {
            item.sequence
        } else {
            10_000
        },
        tool: sanitize_identifier(&item.tool, 80),
        argument_shape: sanitize_trace_value(&item.argument_shape, "", 0),
        status: status.to_owned(),
        category: match &item.category {
            Some(text) => Some(sanitize_identifier(text, 80)),
            None => None,
        },
        error_summary: match &item.error_summary {
            Some(text) => Some(sanitize_diagnostic_string(text, 600)),
            None => None,
        },
        elapsed_ms: match item.elapsed_ms {
            Some(value) => Some(
                if value < 3_600_000 {
                    value
                } else {
                    3_600_000
                },
            ),
            None => None,
        },
    }
}

// ---------------------------------------------------------------------------
// The analysis
// ---------------------------------------------------------------------------

/// What is kept of the calls of a trace.
pub open spec fn clean_trace(trace: Seq<ToolFailureTraceItemView>) -> Seq<ToolFailureTraceItemView> {
    Seq::new(trace.len(), |i: int| clean_item(trace[i]))
}

/// The number of failed calls of a trace.
pub open spec fn failures(trace: Seq<ToolFailureTraceItemView>) -> nat
    decreases trace.len(),
{
    if trace.len() == 0 {
        0
    } else {
        failures(trace.drop_last()) + if trace.last().status == "error"@ {
            1nat
        } else {
            0nat
        }
    }
}

/// What stands against analysing a trace.
pub open spec fn trace_fault(trace: Seq<ToolFailureTraceItemView>) -> Option<ApiErrorView> {
    if trace.len() == 0 {
        Some(bad_request("tool trace must not be empty"@))
    } else if trace.len() > 40 {
        Some(bad_request("tool trace exceeds 40 calls"@))
    } else if failures(clean_trace(trace)) < 3 {
        Some(bad_request("at least three failed tool calls are required"@))
    } else {
        None
    }
}

/// Checks a trace and takes out of it what may not be shown. Returns the trace and the number
/// of its failed calls.
pub fn prepare_failure_trace(trace: &Vec<ToolFailureTraceItem>) -> (result: Result<
    (Vec<ToolFailureTraceItem>, usize),
    ApiError,
>)
    ensures
        match result {
            Ok((kept, count)) => trace_fault(views(trace@)) is None && views(kept@) == clean_trace(
                views(trace@),
            ) && count == failures(clean_trace(views(trace@))),
            Err(error) => trace_fault(views(trace@)) == Some(error@),
        },
{
    assert(views(trace@).len() == trace@.len());
    if trace.len() == 0 {
        return Err(ApiError::bad_request("tool trace must not be empty"));
    }
    if trace.len() > 40 {
        return Err(ApiError::bad_request("tool trace exceeds 40 calls"));
    }
    let ghost wanted = clean_trace(views(trace@));
    let mut kept: Vec<ToolFailureTraceItem> = Vec::new();
    let mut count: usize = 0;
    let mut i: usize = 0;
    assert(wanted.take(0) =~= Seq::empty());
    while i < trace.len()
        invariant
            i <= trace.len(),
            trace.len() <= 40,
            wanted == clean_trace(views(trace@)),
            views(kept@) == wanted.take(i as int),
            count == failures(wanted.take(i as int)),
            count <= i,
        decreases trace.len() - i,
    {
        let ghost part = wanted.take(i + 1);
        assert(part.drop_last() =~= wanted.take(i as int));
        let item = sanitize_tool_failure_item(&trace[i]);
        assert(part.last() == item@);
        assert(part =~= wanted.take(i as int).push(item@));
        if same(&item.status, "error") {
            count = count + 1;
        }
        kept.push(item);
        i = i + 1;
    }
    assert(wanted.take(i as int) =~= wanted);
    if count < 3 {
        return Err(ApiError::bad_request("at least three failed tool calls are required"));
    }
    Ok((kept, count))
}

/// What the model that analyses a trace is told first.
pub const TOOL_FAILURE_ANALYSIS_PROMPT: &'static str = r#"
你是 Coomi 的工具调用可靠性分析器。输入只包含程序生成并经过脱敏的工具调用轨迹，不包含用户对话、文件内容、原始参数值或模型隐藏思维。

你的目标不是统计失败次数，而是形成可直接指导工程迭代的精炼中文报告。必须基于证据分析“失败 -> 调整 -> 后续成功/仍失败”的链路。严格区分【证据确认】与【合理推测】，不得把推测写成事实。总长度控制在 400 至 700 个汉字，不写背景铺垫或重复结论。

按以下结构输出 Markdown：
1. 失败与恢复链路（合并同类项，突出参数结构变化）
2. 根因判断（标注证据确认或合理推测）
3. 优先级最高的 3 至 4 条工程修复建议
4. 每条建议对应的一句测试与验收标准
5. 仍缺少的关键证据（没有则省略）

不得输出或猜测用户对话、真实路径、URL、密钥、文件内容、原始参数值和隐藏思维/思维链。可以给出简洁的判断依据。不要只复述错误分类，不要给“检查配置”“稍后重试”一类无法验收的泛化建议。
"#;

/// The request that asks a model to analyse a trace.
pub open spec fn analysis_request(
    model: Seq<char>,
    count: nat,
    trace: Seq<char>,
) -> ModelRequestView {
    ModelRequestView {
        model,
        messages: seq![
            system_message(TOOL_FAILURE_ANALYSIS_PROMPT@),
            user_message(
                "请分析以下本轮脱敏工具轨迹（共 "@ + decimal(count) + " 次失败）：\n\n"@ + trace,
            ),
        ],
        tools: Seq::empty(),
        reasoning_effort: Some("low"@),
    }
}

/// Checks the size of a written trace.
pub fn check_trace_size(trace_json: &str) -> (result: Result<(), ApiError>)
    ensures
        match result {
            Ok(_) => trace_json.spec_bytes().len() as usize <= 28_672,
            Err(error) => trace_json.spec_bytes().len() as usize > 28_672 && error@ == bad_request(
                "sanitized tool trace is too large"@,
            ),
        },
{
    if trace_json.len() > 28_672 {
        return Err(ApiError::bad_request("sanitized tool trace is too large"));
    }
    Ok(())
}

/// Writes the request that asks a model to analyse a trace.
pub fn build_analysis_request(model: &str, count: usize, trace_json: &str) -> (result: ModelRequest)
    ensures
        result@ == analysis_request(model@, count as nat, trace_json@),
{
    let mut question = "请分析以下本轮脱敏工具轨迹（共 ".to_owned();
    question.push_str(&print_usize(count));
    question.push_str(" 次失败）：\n\n");
    question.push_str(trace_json);
    let mut messages: Vec<ChatMessage> = Vec::new();
    messages.push(ChatMessage::system(TOOL_FAILURE_ANALYSIS_PROMPT.to_owned()));
    messages.push(ChatMessage::user(question));
    let result = ModelRequest {
        model: model.to_owned(),
        messages,
        tools: Vec::new(),
        reasoning_effort: Some("low".to_owned()),
    };
    assert(result@.messages =~= analysis_request(model@, count as nat, trace_json@).messages);
    assert(result@.tools =~= Seq::empty());
    result
}

/// Judges the answer of the model: what may be shown of it, or an error where nothing is left.
pub fn accept_analysis(content: &str) -> (result: Result<String, ApiError>)
    ensures
        match result {
            Ok(text) => text@ == clean_analysis(content@) && !is_blank(text@),
            Err(error) => is_blank(clean_analysis(content@)) && error@ == bad_gateway(
                "tool failure analysis returned an empty report"@,
            ),
        },
{
    let analysis = sanitize_generated_analysis(content);
    if blank(&analysis) {
        return Err(ApiError::bad_gateway("tool failure analysis returned an empty report"));
    }
    Ok(analysis)
}

// ---------------------------------------------------------------------------
// Laws
// ---------------------------------------------------------------------------

/// Every word of a cleaned text may be shown.
pub proof fn clean_texts_are_harmless(s: Seq<char>, max: nat)
    ensures
        forall|i: int|
            0 <= i < words(clean_text(s, max)).len() ==> harmless(
                #[trigger] words(clean_text(s, max))[i],
            ),
        words(clean_text(s, max)).len() == words(first_chars(s, max)).len(),
{
    let list = words(first_chars(s, max));
    let kept = clean_words(list);
    words_are_words(first_chars(s, max));
    markers_are_harmless();
    assert forall|i: int| 0 <= i < kept.len() implies is_word(#[trigger] kept[i]) && harmless(
        kept[i],
    ) by {
        reveal(clean_word);
        reveal(harmless);
        assert(is_word(list[i]));
    }
    reveal_strlit(" ");
    assert(" "@ =~= seq![' ']);
    joined_words_are_words(kept);
}

/// What stands for a word that may not be shown is a word that may be shown.
proof fn markers_are_harmless()
    ensures
        is_word("[redacted_url]"@) && harmless("[redacted_url]"@),
        is_word("[redacted_path]"@) && harmless("[redacted_path]"@),
        is_word("[redacted_secret]"@) && harmless("[redacted_secret]"@),
        is_word("[redacted_email]"@) && harmless("[redacted_email]"@),
{
    reveal_strlit("[redacted_url]");
    reveal_strlit("[redacted_path]");
    reveal_strlit("[redacted_secret]");
    reveal_strlit("[redacted_email]");
    plain_bracketed_is_harmless("[redacted_url]"@);
    plain_bracketed_is_harmless("[redacted_path]"@);
    plain_bracketed_is_harmless("[redacted_secret]"@);
    plain_bracketed_is_harmless("[redacted_email]"@);
}

/// Whether a character is a lower-case letter, an underscore or a square bracket.
spec fn plain(c: char) -> bool {
    ('a' <= c && c <= 'z') || c == '_' || c == '[' || c == ']'
}

proof fn plain_bracketed_is_harmless(s: Seq<char>)
    requires
        s.len() > 1,
        s[0] == '[',
        forall|k: int| 0 <= k < s.len() ==> plain(#[trigger] s[k]),
    ensures
        is_word(s),
        harmless(s),
{
    reveal(harmless);
    reveal_strlit("http://");
    reveal_strlit("https://");
    reveal_strlit("\\");
    reveal_strlit("/data/");
    reveal_strlit("/storage/");
    reveal_strlit("sk-");
    reveal_strlit("bearer");
    reveal_strlit("@");
    assert(lower(s)[0] == '[');
    begins_with_its_first(lower(s), "http://"@);
    begins_with_its_first(lower(s), "https://"@);
    begins_with_its_first(lower(s), "sk-"@);
    begins_with_its_first(lower(s), "bearer"@);
    holds_the_first(s, "\\"@);
    holds_the_first(s, "/data/"@);
    holds_the_first(s, "/storage/"@);
    holds_the_first(s, "@"@);
    assert(plain(s[1]));
    assert(!is_hex(s[0]));
    assert forall|k: int| 0 <= k < s.len() implies !is_space(#[trigger] s[k]) by {
        assert(plain(s[k]));
    }
}

proof fn begins_with_its_first(s: Seq<char>, prefix: Seq<char>)
    requires
        prefix.len() > 0,
        s.len() > 0,
        s[0] != prefix[0],
    ensures
        !starts_with(s, prefix),
{
    if starts_with(s, prefix) {
        assert(s.take(prefix.len() as int)[0] == s[0]);
    }
}

proof fn holds_the_first(s: Seq<char>, needle: Seq<char>)
    requires
        needle.len() > 0,
        forall|k: int| 0 <= k < s.len() ==> (#[trigger] s[k]) != needle[0],
    ensures
        !contains(s, needle),
{
    if contains(s, needle) {
        let i = choose|i: int| occurs_at(s, needle, i);
        assert(s.subrange(i, i + needle.len())[0] == s[i]);
    }
}

/// Under a name that stands for something secret nothing of a value is kept, at any depth.
pub proof fn secret_fields_are_covered(fields: Seq<(Seq<char>, JsonView)>, depth: nat, name: Seq<char>)
    requires
        names_secret(name),
    ensures
        match lookup(clean_fields(fields, depth), name) {
            Some(value) => value == JsonView::Text("[redacted_secret]"@),
            None => true,
        },
    decreases fields.len(),
{
    if fields.len() > 0 && depth <= 5 {
        secret_fields_are_covered(fields.drop_last(), depth, name);
        let last = clean_identifier(fields.last().0, 80);
        put_is_found(
            clean_fields(fields.drop_last(), depth),
            last,
            if names_secret(last) {
                JsonView::Text("[redacted_secret]"@)
            } else {
                clean_value(fields.last().1, last, depth + 1)
            },
            name,
        );
    }
}

/// Identifiers are short and hold only the characters that may stand in them.
pub proof fn identifiers_are_clean(s: Seq<char>, max: nat)
    ensures
        clean_identifier(s, max).len() <= max || clean_identifier(s, max) == "unknown"@,
        forall|k: int|
            0 <= k < clean_identifier(s, max).len() ==> in_identifier(
                #[trigger] clean_identifier(s, max)[k],
            ),
{
    identifier_chars_are_clean(s);
    reveal_strlit("unknown");
}

proof fn identifier_chars_are_clean(s: Seq<char>)
    ensures
        forall|k: int|
            0 <= k < identifier_chars(s).len() ==> in_identifier(#[trigger] identifier_chars(s)[k]),
    decreases s.len(),
{
    if s.len() > 0 {
        identifier_chars_are_clean(s.drop_last());
        let before = identifier_chars(s.drop_last());
        assert forall|k: int| 0 <= k < identifier_chars(s).len() implies in_identifier(
            #[trigger] identifier_chars(s)[k],
        ) by {
            if k < before.len() {
                assert(identifier_chars(s)[k] == before[k]);
            }
        }
    }
}

} // verus!
