//! Settings of the bridge: the document they stand in, and what is read from it.

use vstd::prelude::*;
use crate::api::ApiError;
use crate::api::ApiErrorView;
use crate::api::bad_request;
use crate::api::verdict;
use crate::codec::json_document;
use crate::codec::parse_json;
use crate::json::Json;
use crate::json::JsonView;
use crate::json::bool_of;
use crate::json::field;
use crate::json::member;
use crate::json::object_view;
use crate::json::text_of;
use crate::json::u64_of;
use crate::json_ops::Fields;
use crate::json_ops::assigned;
use crate::numbers::decimal;
use crate::numbers::decimal_is_digits;
use crate::numbers::decimal_reads_back;
use crate::table::lookup;
use crate::table::put;
use crate::table::put_is_found;
use crate::text::first_chars;
use crate::text::is_digit;
use crate::text::same;
use crate::text::take_chars;

verus! {

broadcast use {object_view};

/// The most characters of a custom prompt.
pub const CUSTOM_PROMPT_MAX_CHARS: usize = 20_000;

/// How many tasks run at a time where nothing is configured.
pub const DEFAULT_MAX_CONCURRENT_SESSION_TASKS: usize = 5;

/// Who decides on risky tool calls.
#[derive(Clone, Copy, Debug, PartialEq, Eq, Structural)]
pub enum PermissionMode {
    Ask,
    Auto,
    Full,
}

/// How often and how fast connections are tried again.
#[derive(Clone, Copy, Debug, PartialEq, Eq, Structural)]
pub struct ConnectionSettings {
    pub provider_retry_count: u8,
    pub ws_retry_count: u8,
    pub reconnect_initial_delay_ms: u64,
    pub reconnect_max_delay_ms: u64,
    pub max_concurrent_tasks: usize,
}

/// How many tasks run at a time where nothing is configured.
pub fn default_max_concurrent_tasks() -> (result: usize)
    ensures
        result == DEFAULT_MAX_CONCURRENT_SESSION_TASKS,
{
    DEFAULT_MAX_CONCURRENT_SESSION_TASKS
}

/// The connection settings where nothing is configured.
pub open spec fn default_connection() -> ConnectionSettings {
    ConnectionSettings {
        provider_retry_count: 2,
        ws_retry_count: 10,
        reconnect_initial_delay_ms: 500,
        reconnect_max_delay_ms: 10_000,
        max_concurrent_tasks: 5,
    }
}

impl Default for ConnectionSettings {
    fn default() -> (result: ConnectionSettings)
        ensures
            result == default_connection(),
    {
        ConnectionSettings {
            provider_retry_count: 2,
            ws_retry_count: 10,
            reconnect_initial_delay_ms: 500,
            reconnect_max_delay_ms: 10_000,
            max_concurrent_tasks: DEFAULT_MAX_CONCURRENT_SESSION_TASKS,
        }
    }
}

// ---------------------------------------------------------------------------
// The document
// ---------------------------------------------------------------------------

/// The settings that a file holds: an empty object where there is no file or no object in it.
pub open spec fn stored_settings(file: Option<Seq<u8>>) -> JsonView {
    match file {
        Some(bytes) => match json_document(bytes) {
            Ok(JsonView::Object(fields)) => JsonView::Object(fields),
            _ => JsonView::Object(Seq::empty()),
        },
        None => JsonView::Object(Seq::empty()),
    }
}

/// What a file that may be absent holds.
pub open spec fn content(file: Option<&Vec<u8>>) -> Option<Seq<u8>> {
    match file {
        Some(bytes) => Some(bytes@),
        None => None,
    }
}

/// The object that a parsed document is, or an empty one.
pub fn object_or_empty(document: Result<Json, String>) -> (result: Json)
    ensures
        result@ == match document {
            Ok(value) => if value@ is Object {
                value@
            } else {
                JsonView::Object(Seq::empty())
            },
            Err(_) => JsonView::Object(Seq::empty()),
        },
        result@ is Object,
{
    match document {
        Ok(Json::Object(fields)) => Json::Object(fields),
        _ => Fields::new().done(),
    }
}

/// Reads the settings that a file holds.
pub fn read_settings(file: Option<&Vec<u8>>) -> (result: Json)
    ensures
        result@ == stored_settings(content(file)),
        result@ is Object,
{
    match file {
        Some(bytes) => object_or_empty(parse_json(bytes.as_slice())),
        None => Fields::new().done(),
    }
}

// ---------------------------------------------------------------------------
// Single settings
// ---------------------------------------------------------------------------

/// A switch that is off unless it is set.
pub open spec fn switched_on(settings: JsonView, key: Seq<char>) -> bool {
    bool_of(member(settings, key)) == Some(true)
}

/// Tells whether a switch is set.
fn read_switch(settings: &Json, key: &str) -> (result: bool)
    ensures
        result == switched_on(settings@, key@),
{
    match settings.bool_member(key) {
        Some(enabled) => enabled,
        None => false,
    }
}

/// Tells whether tools may read past sessions. Off unless it is switched on.
pub fn global_memory_enabled(settings: &Json) -> (result: bool)
    ensures
        result == switched_on(settings@, "global_memory"@),
{
    read_switch(settings, "global_memory")
}

/// Tells whether answers are also spoken.
pub fn configured_voice_broadcast(settings: &Json) -> (result: bool)
    ensures
        result == switched_on(settings@, "voice_broadcast"@),
{
    read_switch(settings, "voice_broadcast")
}

/// Whether a text is a level of reasoning effort.
pub open spec fn is_effort(text: Seq<char>) -> bool {
    text == "auto"@ || text == "low"@ || text == "medium"@ || text == "high"@ || text == "xhigh"@
}

/// Tells whether a text is a level of reasoning effort.
pub fn known_effort(text: &str) -> (result: bool)
    ensures
        result == is_effort(text@),
{
    same(text, "auto") || same(text, "low") || same(text, "medium") || same(text, "high") || same(
        text,
        "xhigh",
    )
}

/// The reasoning effort that is set, or the automatic one.
pub open spec fn stored_effort(settings: JsonView) -> Seq<char> {
    match text_of(member(settings, "reasoning_effort"@)) {
        Some(text) => if is_effort(text) {
            text
        } else {
            "auto"@
        },
        None => "auto"@,
    }
}

/// Returns the reasoning effort that is set, or the automatic one.
pub fn configured_reasoning_effort(settings: &Json) -> (result: String)
    ensures
        result@ == stored_effort(settings@),
{
    match settings.text_member("reasoning_effort") {
        Some(text) => if known_effort(&text) {
            text
        } else {
            "auto".to_owned()
        },
        None => "auto".to_owned(),
    }
}

/// A number between two bounds.
pub open spec fn between(value: nat, low: nat, high: nat) -> nat {
    if value < low {
        low
    } else if value > high {
        high
    } else {
        value
    }
}

/// A number that is set and not above `max`, else `default`.
pub open spec fn stored_number(settings: JsonView, key: Seq<char>, max: nat, default: nat) -> nat {
    match u64_of(member(settings, key)) {
        Some(value) => if value <= max {
            value
        } else {
            default
        },
        None => default,
    }
}

/// Returns a number that is set and not above `max`, between two bounds.
fn read_number(settings: &Json, key: &str, max: u64, default: u64, low: u64, high: u64) -> (result:
    u64)
    requires
        low <= high,
    ensures
        result == between(
            stored_number(settings@, key@, max as nat, default as nat),
            low as nat,
            high as nat,
        ),
{
    let value: u64 = match settings.u64_member(key) {
        Some(value) => if value <= max {
            value
        } else {
            default
        },
        None => default,
    };
    if value < low {
        low
    } else if value > high {
        high
    } else {
        value
    }
}

/// The number of tool rounds that a turn may take.
pub open spec fn stored_rounds(settings: JsonView) -> nat {
    between(stored_number(settings, "max_tool_rounds"@, usize::MAX as nat, 192), 1, 512)
}

/// Returns the number of tool rounds that a turn may take.
pub fn configured_max_tool_rounds(settings: &Json) -> (result: usize)
    ensures
        result == stored_rounds(settings@),
        1 <= result <= 512,
{
    read_number(settings, "max_tool_rounds", usize::MAX as u64, 192, 1, 512) as usize
}

// ---------------------------------------------------------------------------
// Connections
// ---------------------------------------------------------------------------

/// The connection settings that are stored, each within its bounds.
pub open spec fn stored_connection(settings: JsonView) -> ConnectionSettings {
    let initial = between(
        stored_number(settings, "reconnect_initial_delay_ms"@, u64::MAX as nat, 500),
        500,
        60_000,
    );
    let longest = between(
        stored_number(settings, "reconnect_max_delay_ms"@, u64::MAX as nat, 10_000),
        1_000,
        120_000,
    );
    ConnectionSettings {
        provider_retry_count: between(
            stored_number(settings, "provider_retry_count"@, 255, 2),
            0,
            10,
        ) as u8,
        ws_retry_count: between(stored_number(settings, "ws_retry_count"@, 255, 10), 0, 30) as u8,
        reconnect_initial_delay_ms: initial as u64,
        reconnect_max_delay_ms: if longest < initial {
            initial as u64
        } else {
            longest as u64
        },
        max_concurrent_tasks: between(
            stored_number(settings, "max_concurrent_tasks"@, usize::MAX as nat, 5),
            1,
            20,
        ) as usize,
    }
}

/// Reads the connection settings, each within its bounds.
pub fn configured_connection_settings(settings: &Json) -> (result: ConnectionSettings)
    ensures
        result == stored_connection(settings@),
{
    let initial: u64 = read_number(
        settings,
        "reconnect_initial_delay_ms",
        u64::MAX,
        500,
        500,
        60_000,
    );
    let longest: u64 = read_number(
        settings,
        "reconnect_max_delay_ms",
        u64::MAX,
        10_000,
        1_000,
        120_000,
    );
    ConnectionSettings {
        provider_retry_count: read_number(settings, "provider_retry_count", 255, 2, 0, 10) as u8,
        ws_retry_count: read_number(settings, "ws_retry_count", 255, 10, 0, 30) as u8,
        reconnect_initial_delay_ms: initial,
        reconnect_max_delay_ms: if longest < initial {
            initial
        } else {
            longest
        },
        max_concurrent_tasks: read_number(
            settings,
            "max_concurrent_tasks",
            usize::MAX as u64,
            5,
            1,
            20,
        ) as usize,
    }
}

/// What stands against connection settings; the first fault decides.
pub open spec fn connection_verdict(body: ConnectionSettings) -> Result<(), ApiErrorView> {
    if body.provider_retry_count > 10 {
        Err(bad_request("providerRetryCount must be between 0 and 10"@))
    } else if body.ws_retry_count > 30 {
        Err(bad_request("wsRetryCount must be between 0 and 30"@))
    } else if !(500 <= body.reconnect_initial_delay_ms <= 60_000) {
        Err(bad_request("reconnectInitialDelayMs must be between 500 and 60000"@))
    } else if !(1_000 <= body.reconnect_max_delay_ms <= 120_000) || body.reconnect_max_delay_ms
        < body.reconnect_initial_delay_ms {
        Err(
            bad_request(
                "reconnectMaxDelayMs must be between 1000 and 120000 and not below the initial delay"@,
            ),
        )
    } else if !(1 <= body.max_concurrent_tasks <= 20) {
        Err(bad_request("maxConcurrentTasks must be between 1 and 20"@))
    } else {
        Ok(())
    }
}

/// A number as a tree.
pub open spec fn number_data(value: nat) -> JsonView {
    JsonView::Number(decimal(value))
}

/// The settings with the connection settings written to them.
pub open spec fn with_connection(settings: JsonView, body: ConnectionSettings) -> JsonView {
    assigned(
        assigned(
            assigned(
                assigned(
                    assigned(
                        settings,
                        "provider_retry_count"@,
                        number_data(body.provider_retry_count as nat),
                    ),
                    "ws_retry_count"@,
                    number_data(body.ws_retry_count as nat),
                ),
                "reconnect_initial_delay_ms"@,
                number_data(body.reconnect_initial_delay_ms as nat),
            ),
            "reconnect_max_delay_ms"@,
            number_data(body.reconnect_max_delay_ms as nat),
        ),
        "max_concurrent_tasks"@,
        number_data(body.max_concurrent_tasks as nat),
    )
}

/// Checks connection settings and writes them to the settings. Settings with a fault change
/// nothing.
pub fn set_connection_settings(settings: &mut Json, body: &ConnectionSettings) -> (result: Result<
    (),
    ApiError,
>)
    requires
        old(settings)@ is Object,
    ensures
        verdict(result) == connection_verdict(*body),
        final(settings)@ == if result is Ok {
            with_connection(old(settings)@, *body)
        } else {
            old(settings)@
        },
        final(settings)@ is Object,
{
    if body.provider_retry_count > 10 {
        return Err(ApiError::bad_request("providerRetryCount must be between 0 and 10"));
    }
    if body.ws_retry_count > 30 {
        return Err(ApiError::bad_request("wsRetryCount must be between 0 and 30"));
    }
    if body.reconnect_initial_delay_ms < 500 || body.reconnect_initial_delay_ms > 60_000 {
        return Err(ApiError::bad_request("reconnectInitialDelayMs must be between 500 and 60000"));
    }
    if body.reconnect_max_delay_ms < 1_000 || body.reconnect_max_delay_ms > 120_000
        || body.reconnect_max_delay_ms < body.reconnect_initial_delay_ms {
        return Err(
            ApiError::bad_request(
                "reconnectMaxDelayMs must be between 1000 and 120000 and not below the initial delay",
            ),
        );
    }
    if body.max_concurrent_tasks < 1 || body.max_concurrent_tasks > 20 {
        return Err(ApiError::bad_request("maxConcurrentTasks must be between 1 and 20"));
    }
    settings.assign("provider_retry_count", Json::number(body.provider_retry_count as u64));
    settings.assign("ws_retry_count", Json::number(body.ws_retry_count as u64));
    settings.assign("reconnect_initial_delay_ms", Json::number(body.reconnect_initial_delay_ms));
    settings.assign("reconnect_max_delay_ms", Json::number(body.reconnect_max_delay_ms));
    settings.assign("max_concurrent_tasks", Json::number(body.max_concurrent_tasks as u64));
    Ok(())
}

// ---------------------------------------------------------------------------
// Memory and the custom prompt
// ---------------------------------------------------------------------------

/// Switches the reading of past sessions. Returns the new value.
pub fn set_global_memory(settings: &mut Json, body: &Json) -> (enabled: bool)
    requires
        old(settings)@ is Object,
    ensures
        enabled == switched_on(body@, "enabled"@),
        final(settings)@ == assigned(old(settings)@, "global_memory"@, JsonView::Bool(enabled)),
{
    let enabled = read_switch(body, "enabled");
    settings.assign("global_memory", Json::Bool(enabled));
    enabled
}

/// A text that is set, or the empty text.
pub open spec fn stored_text(settings: JsonView, key: Seq<char>) -> Seq<char> {
    match text_of(member(settings, key)) {
        Some(text) => text,
        None => ""@,
    }
}

/// Returns a text that is set, or the empty text.
fn read_text(settings: &Json, key: &str) -> (result: String)
    ensures
        result@ == stored_text(settings@, key@),
{
    match settings.text_member(key) {
        Some(text) => text,
        None => "".to_owned(),
    }
}

/// Returns the custom prompt.
pub fn custom_prompt(settings: &Json) -> (result: String)
    ensures
        result@ == stored_text(settings@, "custom_prompt"@),
{
    read_text(settings, "custom_prompt")
}

/// Cuts a custom prompt to the most characters that it may have.
pub fn truncate_custom_prompt(text: &str) -> (result: String)
    ensures
        result@ == first_chars(text@, CUSTOM_PROMPT_MAX_CHARS as nat),
{
    take_chars(text, CUSTOM_PROMPT_MAX_CHARS)
}

/// Sets the custom prompt. Returns it as it was stored.
pub fn set_custom_prompt(settings: &mut Json, body: &Json) -> (text: String)
    requires
        old(settings)@ is Object,
    ensures
        text@ == first_chars(stored_text(body@, "text"@), CUSTOM_PROMPT_MAX_CHARS as nat),
        final(settings)@ == assigned(old(settings)@, "custom_prompt"@, JsonView::Text(text@)),
{
    let text = truncate_custom_prompt(&read_text(body, "text"));
    settings.assign("custom_prompt", Json::Text(text.clone()));
    text
}

// ---------------------------------------------------------------------------
// Permission
// ---------------------------------------------------------------------------

/// The name of a permission mode.
pub open spec fn mode_name(mode: PermissionMode) -> Seq<char> {
    match mode {
        PermissionMode::Ask => "ask"@,
        PermissionMode::Auto => "auto"@,
        PermissionMode::Full => "full"@,
    }
}

/// The permission mode that a text names; a text that names none stands for asking.
pub open spec fn mode_of(name: Option<Seq<char>>) -> PermissionMode {
    if name == Some("auto"@) {
        PermissionMode::Auto
    } else if name == Some("full"@) {
        PermissionMode::Full
    } else {
        PermissionMode::Ask
    }
}

/// The permission mode that a file holds.
pub open spec fn stored_mode(file: Option<Seq<u8>>) -> PermissionMode {
    match file {
        Some(bytes) => match json_document(bytes) {
            Ok(value) => mode_of(text_of(member(value, "permissionMode"@))),
            Err(_) => PermissionMode::Ask,
        },
        None => PermissionMode::Ask,
    }
}

/// The permission mode in a document.
pub fn permission_mode_in(value: &Json) -> (result: PermissionMode)
    ensures
        result == mode_of(text_of(member(value@, "permissionMode"@))),
{
    match value.text_member("permissionMode") {
        Some(name) => if same(&name, "auto") {
            PermissionMode::Auto
        } else if same(&name, "full") {
            PermissionMode::Full
        } else {
            PermissionMode::Ask
        },
        None => PermissionMode::Ask,
    }
}

/// Reads the permission mode that a file holds.
pub fn load_permission_mode(file: Option<&Vec<u8>>) -> (result: PermissionMode)
    ensures
        result == stored_mode(content(file)),
{
    match file {
        Some(bytes) => match parse_json(bytes.as_slice()) {
            Ok(value) => permission_mode_in(&value),
            Err(_) => PermissionMode::Ask,
        },
        None => PermissionMode::Ask,
    }
}

/// The document that holds a permission mode.
pub open spec fn mode_data(mode: PermissionMode) -> JsonView {
    JsonView::Object(seq![("permissionMode"@, JsonView::Text(mode_name(mode)))])
}

/// Returns the name of a permission mode.
pub fn permission_mode_name(mode: PermissionMode) -> (result: String)
    ensures
        result@ == mode_name(mode),
{
    match mode {
        PermissionMode::Ask => "ask".to_owned(),
        PermissionMode::Auto => "auto".to_owned(),
        PermissionMode::Full => "full".to_owned(),
    }
}

/// The document that holds a permission mode.
pub fn save_permission_mode(mode: PermissionMode) -> (result: Json)
    ensures
        result@ == mode_data(mode),
{
    let mut fields = Fields::new();
    fields.add("permissionMode", Json::Text(permission_mode_name(mode)));
    assert(fields@ =~= mode_data(mode)->Object_0);
    fields.done()
}

// ---------------------------------------------------------------------------
// Laws
// ---------------------------------------------------------------------------

/// Connection settings that are read from any document pass the check that new ones must
/// pass.
pub proof fn stored_connections_are_valid(settings: JsonView)
    ensures
        connection_verdict(stored_connection(settings)) is Ok,
{
}

/// A field that was set is read; every other field gives what it gave.
pub proof fn assigned_is_read(value: JsonView, key: Seq<char>, data: JsonView, other: Seq<char>)
    requires
        value is Object,
    ensures
        member(assigned(value, key, data), key) == Some(data),
        other != key ==> member(assigned(value, key, data), other) == member(value, other),
        assigned(value, key, data) is Object,
{
    let fields = value->Object_0;
    put_is_found(fields, key, data, other);
    fields_are_looked_up(fields, other);
    fields_are_looked_up(put(fields, key, data), key);
    fields_are_looked_up(put(fields, key, data), other);
}

/// The fields of an object are a table.
proof fn fields_are_looked_up(fields: Seq<(Seq<char>, JsonView)>, key: Seq<char>)
    ensures
        field(fields, key) == lookup(fields, key),
    decreases fields.len(),
{
    if fields.len() > 0 {
        fields_are_looked_up(fields.skip(1), key);
    }
}

/// A number that was set is read back.
proof fn number_is_read(value: JsonView, key: Seq<char>, number: nat, max: nat, default: nat)
    requires
        member(value, key) == Some(number_data(number)),
        number <= max,
        number <= u64::MAX,
    ensures
        stored_number(value, key, max, default) == number,
{
    decimal_reads_back(number);
    decimal_is_digits(number);
    assert(is_digit(decimal(number)[0]));
}

/// Connection settings that passed the check are read back as they were written.
pub proof fn connections_are_read_back(settings: JsonView, body: ConnectionSettings)
    requires
        settings is Object,
        connection_verdict(body) is Ok,
    ensures
        stored_connection(with_connection(settings, body)) == body,
{
    reveal_strlit("provider_retry_count");
    reveal_strlit("ws_retry_count");
    reveal_strlit("reconnect_initial_delay_ms");
    reveal_strlit("reconnect_max_delay_ms");
    reveal_strlit("max_concurrent_tasks");
    let k1 = "provider_retry_count"@;
    let k2 = "ws_retry_count"@;
    let k3 = "reconnect_initial_delay_ms"@;
    let k4 = "reconnect_max_delay_ms"@;
    let k5 = "max_concurrent_tasks"@;
    assert(k1[0] == 'p' && k5[0] == 'm');
    assert(k1.len() == 20 && k2.len() == 14 && k3.len() == 26 && k4.len() == 22 && k5.len() == 20);
    let n1 = number_data(body.provider_retry_count as nat);
    let n2 = number_data(body.ws_retry_count as nat);
    let n3 = number_data(body.reconnect_initial_delay_ms as nat);
    let n4 = number_data(body.reconnect_max_delay_ms as nat);
    let n5 = number_data(body.max_concurrent_tasks as nat);
    let s1 = assigned(settings, k1, n1);
    let s2 = assigned(s1, k2, n2);
    let s3 = assigned(s2, k3, n3);
    let s4 = assigned(s3, k4, n4);
    let s5 = assigned(s4, k5, n5);
    assigned_is_read(settings, k1, n1, k1);
    assigned_is_read(s1, k2, n2, k1);
    assigned_is_read(s2, k3, n3, k1);
    assigned_is_read(s3, k4, n4, k1);
    assigned_is_read(s4, k5, n5, k1);
    assigned_is_read(s2, k3, n3, k2);
    assigned_is_read(s3, k4, n4, k2);
    assigned_is_read(s4, k5, n5, k2);
    assigned_is_read(s3, k4, n4, k3);
    assigned_is_read(s4, k5, n5, k3);
    assigned_is_read(s4, k5, n5, k4);
    number_is_read(s5, k1, body.provider_retry_count as nat, 255, 2);
    number_is_read(s5, k2, body.ws_retry_count as nat, 255, 10);
    number_is_read(s5, k3, body.reconnect_initial_delay_ms as nat, u64::MAX as nat, 500);
    number_is_read(s5, k4, body.reconnect_max_delay_ms as nat, u64::MAX as nat, 10_000);
    number_is_read(s5, k5, body.max_concurrent_tasks as nat, usize::MAX as nat, 5);
}

/// The switch of the memory and the custom prompt do not touch each other.
pub proof fn memory_and_prompt_are_kept_apart(settings: JsonView, enabled: bool, text: Seq<char>)
    requires
        settings is Object,
    ensures
        stored_text(
            assigned(settings, "global_memory"@, JsonView::Bool(enabled)),
            "custom_prompt"@,
        ) == stored_text(settings, "custom_prompt"@),
        switched_on(
            assigned(settings, "custom_prompt"@, JsonView::Text(text)),
            "global_memory"@,
        ) == switched_on(settings, "global_memory"@),
        switched_on(
            assigned(settings, "global_memory"@, JsonView::Bool(enabled)),
            "global_memory"@,
        ) == enabled,
        stored_text(
            assigned(settings, "custom_prompt"@, JsonView::Text(text)),
            "custom_prompt"@,
        ) == text,
{
    reveal_strlit("global_memory");
    reveal_strlit("custom_prompt");
    assert("global_memory"@[0] == 'g' && "custom_prompt"@[0] == 'c');
    assigned_is_read(settings, "global_memory"@, JsonView::Bool(enabled), "custom_prompt"@);
    assigned_is_read(settings, "custom_prompt"@, JsonView::Text(text), "global_memory"@);
}

/// A permission mode that was written is read back from a file that holds what was written.
pub proof fn modes_are_read_back(mode: PermissionMode, file: Seq<u8>)
    requires
        json_document(file) == Ok::<JsonView, Seq<char>>(mode_data(mode)),
    ensures
        stored_mode(Some(file)) == mode,
{
    reveal_strlit("ask");
    reveal_strlit("auto");
    reveal_strlit("full");
    assert("ask"@.len() == 3);
    assert("auto"@[0] == 'a');
    assert("full"@[0] == 'f');
}

} // verus!
