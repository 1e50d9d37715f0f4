//! The form for a provider: filling it in and reading it.

use vstd::prelude::*;
use crate::cli::ModelChoice;
use crate::editor::Editor;
use crate::editor::editing;
use crate::numbers::decimal;
use crate::numbers::decimal_is_digits;
use crate::numbers::decimal_reads_back;
use crate::numbers::parse_u64;
use crate::numbers::parse_up_to;
use crate::numbers::parsed;
use crate::numbers::print_u64;
use crate::provider::AutoCompactScope;
use crate::provider::ProviderDocument;
use crate::provider::ProviderDocumentView;
use crate::provider::ProviderSettings;
use crate::provider::ProviderSettingsView;
use crate::provider::RemoteCompactionMode;
use crate::provider::blank_settings;
use crate::table::keys_of;
use crate::table::lookup;
use crate::table::pairs_of;
use crate::table::put;
use crate::table::put_is_found;
use crate::table::table_get;
use crate::table::table_keys;
use crate::table::table_put;
use crate::table::table_remove;
use crate::table::without;
use crate::text::blank;
use crate::text::chars_of;
use crate::text::is_blank;
use crate::text::is_digit;
use crate::text::is_space;
use crate::text::lower;
use crate::text::same;
use crate::text::texts;
use crate::text::texts_empty;
use crate::text::texts_push;
use crate::text::to_lower;
use crate::text::trim;
use crate::text::trimmed;
use crate::text::trimmed_end;
use crate::text::trimmed_start;
use crate::tui::DeleteTarget;
use crate::tui::DeleteTargetView;
use crate::tui::FormField;
use crate::tui::FormFieldView;
use crate::tui::ModelUse;
use crate::tui::PROVIDER_FIELD_COUNT;
use crate::tui::ProviderForm;
use crate::tui::ProviderFormView;
use crate::tui::ProvidersUse;
use crate::tui::ProvidersUseView;
use crate::tui::SettingsState;
use crate::tui::SettingsStateView;
use crate::tui::TuiAction;
use crate::tui::TuiActionView;
use crate::tui::TuiState;
use crate::tui::TuiStateView;
use crate::tui::asking;
use crate::tui::inside;
use crate::tui::is_provider_form;
use crate::tui::kept_inside;
use crate::tui::nothing;
use crate::tui::only;
use crate::tui::quiet;
use crate::tui_events::saving;
use crate::views::Duplicate;
use crate::views::group_views;
use crate::views::opt;
use crate::views::views;

verus! {

broadcast use {group_views, texts_push, texts_empty};

// ---------------------------------------------------------------------------
// Single fields
// ---------------------------------------------------------------------------

/// A text without the white space around it, where anything is left.
pub open spec fn given_text(value: Seq<char>) -> Option<Seq<char>> {
    if is_blank(value) {
        None
    } else {
        Some(trimmed(value))
    }
}

/// Returns a text without the white space around it, where anything is left.
pub fn optional_string(value: &str) -> (result: Option<String>)
    ensures
        opt(result) == given_text(value@),
{
    if blank(value) {
        None
    } else {
        Some(trim(value))
    }
}

/// What is told of a field that holds no number.
pub open spec fn not_a_number(label: Seq<char>) -> Seq<char> {
    label + " must be a positive integer"@
}

/// The number that a text writes, if it is not blank; the message if it writes none up to the
/// largest one.
pub open spec fn given_number(value: Seq<char>, label: Seq<char>, max: nat) -> Result<Option<nat>, Seq<char>> {
    if is_blank(value) {
        Ok(None)
    } else {
        match parsed(trimmed(value), max) {
            Some(n) => Ok(Some(n)),
            None => Err(not_a_number(label)),
        }
    }
}

fn number_message(label: &str) -> (result: String)
    ensures
        result@ == not_a_number(label@),
{
    let mut text = label.to_owned();
    text.push_str(" must be a positive integer");
    text
}

/// Reads a number from a field that may be blank.
pub fn parse_optional_u64(value: &str, label: &str) -> (result: Result<Option<u64>, String>)
    ensures
        match result {
            Ok(Some(n)) => given_number(value@, label@, u64::MAX as nat) == Ok::<Option<nat>, Seq<char>>(Some(n as nat)),
            Ok(None) => given_number(value@, label@, u64::MAX as nat) == Ok::<Option<nat>, Seq<char>>(None),
            Err(message) => given_number(value@, label@, u64::MAX as nat) == Err::<Option<nat>, Seq<char>>(message@),
        },
{
    if blank(value) {
        return Ok(None);
    }
    match parse_u64(&trim(value)) {
        Some(n) => Ok(Some(n)),
        None => Err(number_message(label)),
    }
}

/// Reads a small number from a field that may be blank.
pub fn parse_optional_u8(value: &str, label: &str) -> (result: Result<Option<u8>, String>)
    ensures
        match result {
            Ok(Some(n)) => given_number(value@, label@, u8::MAX as nat) == Ok::<Option<nat>, Seq<char>>(Some(n as nat)),
            Ok(None) => given_number(value@, label@, u8::MAX as nat) == Ok::<Option<nat>, Seq<char>>(None),
            Err(message) => given_number(value@, label@, u8::MAX as nat) == Err::<Option<nat>, Seq<char>>(message@),
        },
{
    if blank(value) {
        return Ok(None);
    }
    match parse_up_to(&trim(value), 255) {
        Some(n) => Ok(Some(n as u8)),
        None => Err(number_message(label)),
    }
}

/// What is told of a field that holds no switch.
pub open spec fn not_a_switch(label: Seq<char>) -> Seq<char> {
    label + " must be true or false"@
}

/// The switch that a text writes, whatever its case.
pub open spec fn given_switch(value: Seq<char>) -> Option<bool> {
    let word = lower(trimmed(value));
    if word == "true"@ || word == "yes"@ || word == "1"@ || word == "on"@ {
        Some(true)
    } else if word == "false"@ || word == "no"@ || word == "0"@ || word == "off"@ {
        Some(false)
    } else {
        None
    }
}

/// Reads a switch.
pub fn parse_bool(value: &str, label: &str) -> (result: Result<bool, String>)
    ensures
        match result {
            Ok(on) => given_switch(value@) == Some(on),
            Err(message) => given_switch(value@) is None && message@ == not_a_switch(label@),
        },
{
    let word = to_lower(&trim(value));
    if same(&word, "true") || same(&word, "yes") || same(&word, "1") || same(&word, "on") {
        Ok(true)
    } else if same(&word, "false") || same(&word, "no") || same(&word, "0") || same(&word, "off") {
        Ok(false)
    } else {
        let mut text = label.to_owned();
        text.push_str(" must be true or false");
        Err(text)
    }
}

/// Reads a switch from a field that may be blank.
pub fn parse_optional_bool(value: &str, label: &str) -> (result: Result<Option<bool>, String>)
    ensures
        match result {
            Ok(Some(on)) => !is_blank(value@) && given_switch(value@) == Some(on),
            Ok(None) => is_blank(value@),
            Err(message) => !is_blank(value@) && given_switch(value@) is None && message@ == not_a_switch(label@),
        },
{
    if blank(value) {
        return Ok(None);
    }
    match parse_bool(value, label) {
        Ok(on) => Ok(Some(on)),
        Err(message) => Err(message),
    }
}

// ---------------------------------------------------------------------------
// Filling in
// ---------------------------------------------------------------------------

/// A text, or nothing.
pub open spec fn text_or_empty(value: Option<Seq<char>>) -> Seq<char> {
    match value {
        Some(text) => text,
        None => Seq::empty(),
    }
}

/// A number in decimal, or nothing.
pub open spec fn number_text(value: Option<u64>) -> Seq<char> {
    match value {
        Some(n) => decimal(n as nat),
        None => Seq::empty(),
    }
}

/// A percentage in decimal, or nothing.
pub open spec fn percent_text(value: Option<u8>) -> Seq<char> {
    match value {
        Some(n) => decimal(n as nat),
        None => Seq::empty(),
    }
}

/// How a switch is written.
pub open spec fn switch_text(on: bool) -> Seq<char> {
    if on {
        "true"@
    } else {
        "false"@
    }
}

/// How a switch is written, or nothing.
pub open spec fn switch_or_empty(value: Option<bool>) -> Seq<char> {
    match value {
        Some(on) => switch_text(on),
        None => Seq::empty(),
    }
}

/// How a scope is written.
pub open spec fn scope_text(scope: AutoCompactScope) -> Seq<char> {
    match scope {
        AutoCompactScope::Total => "total"@,
        AutoCompactScope::BodyAfterPrefix => "body_after_prefix"@,
    }
}

/// How a mode is written.
pub open spec fn mode_text(mode: RemoteCompactionMode) -> Seq<char> {
    match mode {
        RemoteCompactionMode::Legacy => "legacy"@,
        RemoteCompactionMode::V2 => "v2"@,
    }
}

/// A field with a text in it.
pub open spec fn filled(key: Seq<char>, label: Seq<char>, secret: bool, text: Seq<char>) -> FormFieldView {
    FormFieldView { key, label, secret, editor: editing(text) }
}

/// The fields of the form for a provider.
pub open spec fn provider_fields(id: Option<Seq<char>>, p: ProviderSettingsView) -> Seq<FormFieldView> {
    seq![
        filled("id"@, "Provider ID"@, false, match id { Some(id) => id, None => Seq::empty() }),
        filled("display"@, "Display name"@, false, p.display),
        filled("type"@, "Protocol type"@, false, p.provider_type),
        filled("tool_protocol"@, "Tool protocol"@, false, text_or_empty(p.tool_protocol)),
        filled("base_url"@, "Base URL"@, false, p.base_url),
        filled("model"@, "Model"@, false, p.model),
        filled("fast_model"@, "Fast model"@, false, text_or_empty(p.fast_model)),
        filled("api_key"@, "API Key"@, true, p.api_key),
        filled("context_window"@, "Context window"@, false, number_text(p.context_window)),
        filled("effective_context_window_percent"@, "Effective window %"@, false, percent_text(p.effective_context_window_percent)),
        filled("auto_compact_token_limit"@, "Compact token limit"@, false, number_text(p.auto_compact_token_limit)),
        filled("auto_compact_scope"@, "Compact scope"@, false, scope_text(p.auto_compact_scope)),
        filled("max_output_tokens"@, "Max output tokens"@, false, number_text(p.max_output_tokens)),
        filled("supports_remote_compaction"@, "Remote compaction"@, false, switch_or_empty(p.supports_remote_compaction)),
        filled("remote_compaction_mode"@, "Remote mode"@, false, mode_text(p.remote_compaction_mode)),
        filled("supports_vision"@, "Vision"@, false, switch_text(p.supports_vision)),
        filled("supports_native_tools"@, "Native tools"@, false, switch_text(p.supports_native_tools)),
        filled("supports_web_search"@, "Native web search"@, false, switch_text(p.supports_web_search)),
        filled("supports_parallel_tool_calls"@, "Parallel tools"@, false, switch_text(p.supports_parallel_tool_calls)),
    ]
}

fn write_text(value: &Option<String>) -> (result: String)
    ensures
        result@ == text_or_empty(opt(*value)),
{
    match value {
        Some(text) => text.clone(),
        None => String::new(),
    }
}

fn write_number(value: Option<u64>) -> (result: String)
    ensures
        result@ == number_text(value),
{
    match value {
        Some(n) => print_u64(n),
        None => String::new(),
    }
}

fn write_percent(value: Option<u8>) -> (result: String)
    ensures
        result@ == percent_text(value),
{
    match value {
        Some(n) => print_u64(n as u64),
        None => String::new(),
    }
}

fn write_switch(on: bool) -> (result: String)
    ensures
        result@ == switch_text(on),
{
    if on {
        "true".to_owned()
    } else {
        "false".to_owned()
    }
}

fn write_optional_switch(value: Option<bool>) -> (result: String)
    ensures
        result@ == switch_or_empty(value),
{
    match value {
        Some(on) => write_switch(on),
        None => String::new(),
    }
}

fn write_scope(scope: AutoCompactScope) -> (result: String)
    ensures
        result@ == scope_text(scope),
{
    match scope {
        AutoCompactScope::Total => "total".to_owned(),
        AutoCompactScope::BodyAfterPrefix => "body_after_prefix".to_owned(),
    }
}

fn write_mode(mode: RemoteCompactionMode) -> (result: String)
    ensures
        result@ == mode_text(mode),
{
    match mode {
        RemoteCompactionMode::Legacy => "legacy".to_owned(),
        RemoteCompactionMode::V2 => "v2".to_owned(),
    }
}

fn field(key: &str, label: &str, secret: bool, text: String) -> (result: FormField)
    ensures
        result@ == filled(key@, label@, secret, text@),
{
    let mut editor = Editor::new();
    editor.set(&text);
    FormField { key: key.to_owned(), label: label.to_owned(), secret, editor }
}

fn make_fields(id: &Option<String>, p: &ProviderSettings) -> (result: Vec<FormField>)
    ensures
        views(result@) == provider_fields(opt(*id), p@),
{
    let mut fields: Vec<FormField> = Vec::new();
    fields.push(field("id", "Provider ID", false, match id { Some(id) => id.clone(), None => String::new() }));
    fields.push(field("display", "Display name", false, p.display.clone()));
    fields.push(field("type", "Protocol type", false, p.provider_type.clone()));
    fields.push(field("tool_protocol", "Tool protocol", false, write_text(&p.tool_protocol)));
    fields.push(field("base_url", "Base URL", false, p.base_url.clone()));
    fields.push(field("model", "Model", false, p.model.clone()));
    fields.push(field("fast_model", "Fast model", false, write_text(&p.fast_model)));
    fields.push(field("api_key", "API Key", true, p.api_key.clone()));
    fields.push(field("context_window", "Context window", false, write_number(p.context_window)));
    fields.push(field("effective_context_window_percent", "Effective window %", false, write_percent(p.effective_context_window_percent)));
    fields.push(field("auto_compact_token_limit", "Compact token limit", false, write_number(p.auto_compact_token_limit)));
    fields.push(field("auto_compact_scope", "Compact scope", false, write_scope(p.auto_compact_scope)));
    fields.push(field("max_output_tokens", "Max output tokens", false, write_number(p.max_output_tokens)));
    fields.push(field("supports_remote_compaction", "Remote compaction", false, write_optional_switch(p.supports_remote_compaction)));
    fields.push(field("remote_compaction_mode", "Remote mode", false, write_mode(p.remote_compaction_mode)));
    fields.push(field("supports_vision", "Vision", false, write_switch(p.supports_vision)));
    fields.push(field("supports_native_tools", "Native tools", false, write_switch(p.supports_native_tools)));
    fields.push(field("supports_web_search", "Native web search", false, write_switch(p.supports_web_search)));
    fields.push(field("supports_parallel_tool_calls", "Parallel tools", false, write_switch(p.supports_parallel_tool_calls)));
    assert(views(fields@) =~= provider_fields(opt(*id), p@));
    fields
}

/// The settings of a provider, or blank ones.
pub open spec fn known_settings(document: ProviderDocumentView, id: Option<Seq<char>>) -> ProviderSettingsView {
    match id {
        Some(id) => match lookup(document.providers, id) {
            Some(settings) => settings,
            None => blank_settings(),
        },
        None => blank_settings(),
    }
}

fn find_settings(document: &ProviderDocument, id: &Option<String>) -> (result: ProviderSettings)
    ensures
        result@ == known_settings(document@, opt(*id)),
{
    match id {
        Some(id) => match table_get(&document.providers, id) {
            Some(settings) => settings.duplicate(),
            None => ProviderSettings::default(),
        },
        None => ProviderSettings::default(),
    }
}

/// The settings with the form for a provider open, or for a new one.
pub open spec fn form_begun(settings: SettingsStateView, id: Option<Seq<char>>) -> SettingsStateView {
    SettingsStateView {
        error: None,
        form: Some(
            ProviderFormView {
                original_id: id,
                fields: provider_fields(id, known_settings(settings.document, id)),
                selected: 0,
                show_secret: false,
            },
        ),
        ..settings
    }
}

/// Opens the form for a provider, or for a new one.
pub fn begin_provider_form(settings: &mut SettingsState, id: Option<String>)
    ensures
        final(settings)@ == form_begun(old(settings)@, opt(id)),
        is_provider_form(final(settings)@.form->0),
{
    let provider = find_settings(&settings.document, &id);
    let fields = make_fields(&id, &provider);
    settings.error = None;
    settings.form = Some(
        ProviderForm { original_id: id, fields, selected: 0, show_secret: false },
    );
    assert(provider_fields(opt(id), provider@).len() == PROVIDER_FIELD_COUNT);
}

// ---------------------------------------------------------------------------
// Reading
// ---------------------------------------------------------------------------

/// What stands in a field, without the white space around it.
pub open spec fn entry(fields: Seq<FormFieldView>, at: int) -> Seq<char> {
    trimmed(fields[at].editor.text())
}

fn read_field(fields: &Vec<FormField>, at: usize) -> (result: String)
    requires
        at < fields@.len(),
    ensures
        result@ == entry(views(fields@), at as int),
{
    trim(&fields[at].editor.text())
}

/// The scope that a text writes.
pub open spec fn given_scope(value: Seq<char>) -> Option<AutoCompactScope> {
    if value.len() == 0 || value == "total"@ {
        Some(AutoCompactScope::Total)
    } else if value == "body_after_prefix"@ {
        Some(AutoCompactScope::BodyAfterPrefix)
    } else {
        None
    }
}

/// The mode that a text writes.
pub open spec fn given_mode(value: Seq<char>) -> Option<RemoteCompactionMode> {
    if value.len() == 0 || value == "v2"@ {
        Some(RemoteCompactionMode::V2)
    } else if value == "legacy"@ {
        Some(RemoteCompactionMode::Legacy)
    } else {
        None
    }
}

/// A number of a field as the settings hold it.
pub open spec fn as_limit(value: Result<Option<nat>, Seq<char>>) -> Option<u64> {
    match value {
        Ok(Some(n)) => Some(n as u64),
        _ => None,
    }
}

/// A percentage of a field as the settings hold it.
pub open spec fn as_percent(value: Result<Option<nat>, Seq<char>>) -> Option<u8> {
    match value {
        Ok(Some(n)) => Some(n as u8),
        _ => None,
    }
}

/// The first message for the limits of a form.
#[verifier::opaque]
pub open spec fn limits_error(fields: Seq<FormFieldView>) -> Option<Seq<char>> {
    let window = given_number(entry(fields, 8), "Context window"@, u64::MAX as nat);
    let percent = given_number(entry(fields, 9), "Effective window"@, u8::MAX as nat);
    let limit = given_number(entry(fields, 10), "Compact token limit"@, u64::MAX as nat);
    let output = given_number(entry(fields, 12), "Max output tokens"@, u64::MAX as nat);
    if window is Err {
        Some(window->Err_0)
    } else if percent is Err {
        Some(percent->Err_0)
    } else if percent->Ok_0 is Some && !(1 <= percent->Ok_0->0 <= 100) {
        Some("Effective window must be between 1 and 100"@)
    } else if limit is Err {
        Some(limit->Err_0)
    } else if given_scope(entry(fields, 11)) is None {
        Some("Compact scope must be total or body_after_prefix"@)
    } else if output is Err {
        Some(output->Err_0)
    } else {
        None
    }
}

/// The first message for the switches of a form.
#[verifier::opaque]
pub open spec fn switches_error(fields: Seq<FormFieldView>) -> Option<Seq<char>> {
    if !is_blank(entry(fields, 13)) && given_switch(entry(fields, 13)) is None {
        Some(not_a_switch("Remote compaction"@))
    } else if given_mode(entry(fields, 14)) is None {
        Some("Remote mode must be v2 or legacy"@)
    } else if given_switch(entry(fields, 15)) is None {
        Some(not_a_switch("Vision"@))
    } else if given_switch(entry(fields, 16)) is None {
        Some(not_a_switch("Native tools"@))
    } else if given_switch(entry(fields, 17)) is None {
        Some(not_a_switch("Native web search"@))
    } else if given_switch(entry(fields, 18)) is None {
        Some(not_a_switch("Parallel tools"@))
    } else {
        None
    }
}

/// The first message for what a form holds: fields are looked at from the top.
pub open spec fn form_error(fields: Seq<FormFieldView>) -> Option<Seq<char>> {
    match limits_error(fields) {
        Some(message) => Some(message),
        None => switches_error(fields),
    }
}

/// Settings with the texts and limits of a form.
#[verifier::opaque]
pub open spec fn with_limits(base: ProviderSettingsView, fields: Seq<FormFieldView>) -> ProviderSettingsView {
    ProviderSettingsView {
        display: entry(fields, 1),
        provider_type: entry(fields, 2),
        tool_protocol: given_text(entry(fields, 3)),
        base_url: entry(fields, 4),
        model: entry(fields, 5),
        fast_model: given_text(entry(fields, 6)),
        api_key: entry(fields, 7),
        context_window: as_limit(
            given_number(entry(fields, 8), "Context window"@, u64::MAX as nat),
        ),
        effective_context_window_percent: as_percent(
            given_number(entry(fields, 9), "Effective window"@, u8::MAX as nat),
        ),
        auto_compact_token_limit: as_limit(
            given_number(entry(fields, 10), "Compact token limit"@, u64::MAX as nat),
        ),
        auto_compact_scope: given_scope(entry(fields, 11))->0,
        max_output_tokens: as_limit(
            given_number(entry(fields, 12), "Max output tokens"@, u64::MAX as nat),
        ),
        ..base
    }
}

/// Settings with the switches of a form.
#[verifier::opaque]
pub open spec fn with_switches(base: ProviderSettingsView, fields: Seq<FormFieldView>) -> ProviderSettingsView {
    ProviderSettingsView {
        supports_remote_compaction: if is_blank(entry(fields, 13)) {
            None
        } else {
            given_switch(entry(fields, 13))
        },
        remote_compaction_mode: given_mode(entry(fields, 14))->0,
        supports_vision: given_switch(entry(fields, 15))->0,
        supports_native_tools: given_switch(entry(fields, 16))->0,
        supports_web_search: given_switch(entry(fields, 17))->0,
        supports_parallel_tool_calls: given_switch(entry(fields, 18))->0,
        ..base
    }
}

/// The settings that a form without a message holds. What the form does not show stays.
pub open spec fn form_settings(base: ProviderSettingsView, fields: Seq<FormFieldView>) -> ProviderSettingsView {
    with_switches(with_limits(base, fields), fields)
}

/// The settings that a form holds, or its message.
pub open spec fn form_read(base: ProviderSettingsView, fields: Seq<FormFieldView>) -> Result<
    ProviderSettingsView,
    Seq<char>,
> {
    match form_error(fields) {
        Some(message) => Err(message),
        None => Ok(form_settings(base, fields)),
    }
}

fn read_scope(value: &str) -> (result: Option<AutoCompactScope>)
    ensures
        result == given_scope(value@),
{
    if value.is_empty() || same(value, "total") {
        Some(AutoCompactScope::Total)
    } else if same(value, "body_after_prefix") {
        Some(AutoCompactScope::BodyAfterPrefix)
    } else {
        None
    }
}

fn read_mode(value: &str) -> (result: Option<RemoteCompactionMode>)
    ensures
        result == given_mode(value@),
{
    if value.is_empty() || same(value, "v2") {
        Some(RemoteCompactionMode::V2)
    } else if same(value, "legacy") {
        Some(RemoteCompactionMode::Legacy)
    } else {
        None
    }
}

fn read_limits(settings: &mut ProviderSettings, fields: &Vec<FormField>) -> (result: Option<String>)
    requires
        fields@.len() == PROVIDER_FIELD_COUNT,
    ensures
        opt(result) == limits_error(views(fields@)),
        result is None ==> final(settings)@ == with_limits(old(settings)@, views(fields@)),
{
    proof {
        reveal(limits_error);
        reveal(with_limits);
    }
    let context_window = match parse_optional_u64(&read_field(fields, 8), "Context window") {
        Ok(value) => value,
        Err(message) => {
            return Some(message);
        },
    };
    let percent = match parse_optional_u8(&read_field(fields, 9), "Effective window") {
        Ok(value) => value,
        Err(message) => {
            return Some(message);
        },
    };
    if let Some(n) = percent {
        if n < 1 || n > 100 {
            return Some("Effective window must be between 1 and 100".to_owned());
        }
    }
    let limit = match parse_optional_u64(&read_field(fields, 10), "Compact token limit") {
        Ok(value) => value,
        Err(message) => {
            return Some(message);
        },
    };
    let scope = match read_scope(&read_field(fields, 11)) {
        Some(scope) => scope,
        None => {
            return Some("Compact scope must be total or body_after_prefix".to_owned());
        },
    };
    let output = match parse_optional_u64(&read_field(fields, 12), "Max output tokens") {
        Ok(value) => value,
        Err(message) => {
            return Some(message);
        },
    };
    settings.display = read_field(fields, 1);
    settings.provider_type = read_field(fields, 2);
    settings.tool_protocol = optional_string(&read_field(fields, 3));
    settings.base_url = read_field(fields, 4);
    settings.model = read_field(fields, 5);
    settings.fast_model = optional_string(&read_field(fields, 6));
    settings.api_key = read_field(fields, 7);
    settings.context_window = context_window;
    settings.effective_context_window_percent = percent;
    settings.auto_compact_token_limit = limit;
    settings.auto_compact_scope = scope;
    settings.max_output_tokens = output;
    None
}

fn read_switches(settings: &mut ProviderSettings, fields: &Vec<FormField>) -> (result: Option<String>)
    requires
        fields@.len() == PROVIDER_FIELD_COUNT,
    ensures
        opt(result) == switches_error(views(fields@)),
        result is None ==> final(settings)@ == with_switches(old(settings)@, views(fields@)),
{
    proof {
        reveal(switches_error);
        reveal(with_switches);
    }
    let remote = match parse_optional_bool(&read_field(fields, 13), "Remote compaction") {
        Ok(value) => value,
        Err(message) => {
            return Some(message);
        },
    };
    let mode = match read_mode(&read_field(fields, 14)) {
        Some(mode) => mode,
        None => {
            return Some("Remote mode must be v2 or legacy".to_owned());
        },
    };
    let vision = match parse_bool(&read_field(fields, 15), "Vision") {
        Ok(on) => on,
        Err(message) => {
            return Some(message);
        },
    };
    let native_tools = match parse_bool(&read_field(fields, 16), "Native tools") {
        Ok(on) => on,
        Err(message) => {
            return Some(message);
        },
    };
    let web_search = match parse_bool(&read_field(fields, 17), "Native web search") {
        Ok(on) => on,
        Err(message) => {
            return Some(message);
        },
    };
    let parallel = match parse_bool(&read_field(fields, 18), "Parallel tools") {
        Ok(on) => on,
        Err(message) => {
            return Some(message);
        },
    };
    settings.supports_remote_compaction = remote;
    settings.remote_compaction_mode = mode;
    settings.supports_vision = vision;
    settings.supports_native_tools = native_tools;
    settings.supports_web_search = web_search;
    settings.supports_parallel_tool_calls = parallel;
    None
}

/// Reads the settings that a form holds. What the form does not show stays as in `base`.
pub fn read_provider_form(base: ProviderSettings, fields: &Vec<FormField>) -> (result: Result<ProviderSettings, String>)
    requires
        fields@.len() == PROVIDER_FIELD_COUNT,
    ensures
        match result {
            Ok(settings) => form_read(base@, views(fields@)) == Ok::<ProviderSettingsView, Seq<char>>(settings@),
            Err(message) => form_read(base@, views(fields@)) == Err::<ProviderSettingsView, Seq<char>>(message@),
        },
{
    let mut settings = base;
    if let Some(message) = read_limits(&mut settings, fields) {
        return Err(message);
    }
    if let Some(message) = read_switches(&mut settings, fields) {
        return Err(message);
    }
    Ok(settings)
}

// ---------------------------------------------------------------------------
// Saving
// ---------------------------------------------------------------------------

/// Whether a text can name a provider.
pub open spec fn is_provider_id(id: Seq<char>) -> bool {
    id.len() > 0 && !id.contains('/') && !id.contains('\\') && !id.contains(':')
}

fn names_a_provider(id: &str) -> (result: bool)
    ensures
        result == is_provider_id(id@),
{
    let chars = chars_of(id);
    let mut i: usize = 0;
    while i < chars.len()
        invariant
            i <= chars@.len(),
            chars@ == id@,
            forall|k: int| 0 <= k < i ==> chars@[k] != '/' && chars@[k] != '\\' && chars@[k] != ':',
        decreases chars@.len() - i,
    {
        if chars[i] == '/' || chars[i] == '\\' || chars[i] == ':' {
            assert(id@[i as int] == chars@[i as int]);
            return false;
        }
        i = i + 1;
    }
    chars.len() > 0
}

/// The document with a provider that was changed or added.
pub open spec fn document_saved(
    document: ProviderDocumentView,
    original: Option<Seq<char>>,
    id: Seq<char>,
    settings: ProviderSettingsView,
) -> Result<ProviderDocumentView, Seq<char>> {
    let others = match original {
        Some(original) => without(document.providers, original),
        None => document.providers,
    };
    let active = if original == Some(document.active) {
        id
    } else {
        document.active
    };
    if original is None && lookup(document.providers, id) is Some {
        Err("Provider `"@ + id + "` already exists"@)
    } else {
        Ok(
            ProviderDocumentView {
                active: if active.len() == 0 {
                    id
                } else {
                    active
                },
                providers: put(others, id, settings),
            },
        )
    }
}

/// Saves a provider that was changed or added in a document.
pub fn save_in_document(
    document: &ProviderDocument,
    original: &Option<String>,
    id: String,
    settings: ProviderSettings,
) -> (result: Result<ProviderDocument, String>)
    ensures
        match result {
            Ok(saved) => document_saved(document@, opt(*original), id@, settings@) == Ok::<ProviderDocumentView, Seq<char>>(saved@),
            Err(message) => document_saved(document@, opt(*original), id@, settings@) == Err::<ProviderDocumentView, Seq<char>>(message@),
        },
{
    let mut saved = document.duplicate();
    match original {
        Some(original) => {
            table_remove(&mut saved.providers, original);
            if same(&saved.active, original) {
                saved.active = id.clone();
            }
        },
        None => {
            if table_get(&saved.providers, &id).is_some() {
                let mut text = "Provider `".to_owned();
                text.push_str(&id);
                text.push_str("` already exists");
                return Err(text);
            }
        },
    }
    if saved.active.as_str().is_empty() {
        saved.active = id.clone();
        assert(saved.active@ == id@);
    }
    table_put(&mut saved.providers, id, settings);
    Ok(saved)
}

/// The document that a form leads to, or its message.
pub open spec fn form_document(settings: SettingsStateView) -> Result<ProviderDocumentView, Seq<char>> {
    let form = settings.form->0;
    let id = entry(form.fields, 0);
    if !is_provider_id(id) {
        Err("Provider ID is empty or contains an invalid path character"@)
    } else {
        match form_read(known_settings(settings.document, form.original_id), form.fields) {
            Err(message) => Err(message),
            Ok(provider) => document_saved(settings.document, form.original_id, id, provider),
        }
    }
}

fn build_document(settings: &SettingsState) -> (result: Result<ProviderDocument, String>)
    requires
        settings@.form is Some,
        is_provider_form(settings@.form->0),
    ensures
        match result {
            Ok(saved) => form_document(settings@) == Ok::<ProviderDocumentView, Seq<char>>(saved@),
            Err(message) => form_document(settings@) == Err::<ProviderDocumentView, Seq<char>>(message@),
        },
{
    match &settings.form {
        Some(form) => {
            let id = read_field(&form.fields, 0);
            if !names_a_provider(&id) {
                return Err(
                    "Provider ID is empty or contains an invalid path character".to_owned(),
                );
            }
            let base = find_settings(&settings.document, &form.original_id);
            match read_provider_form(base, &form.fields) {
                Err(message) => Err(message),
                Ok(provider) => save_in_document(
                    &settings.document,
                    &form.original_id,
                    id,
                    provider,
                ),
            }
        },
        None => Err(String::new()),
    }
}

/// The settings with a message.
pub open spec fn with_error(settings: SettingsStateView, message: Seq<char>) -> SettingsStateView {
    SettingsStateView { error: Some(message), ..settings }
}

/// The state with other settings.
pub open spec fn with_settings(s: TuiStateView, settings: SettingsStateView) -> TuiStateView {
    TuiStateView { settings: Some(settings), ..s }
}

/// The step that saves the form: the providers are written, or the message is shown.
#[verifier::opaque]
pub open spec fn form_saved(s: TuiStateView) -> (TuiStateView, Seq<TuiActionView>) {
    if s.settings is None || s.settings->0.form is None {
        quiet(s)
    } else {
        match form_document(s.settings->0) {
            Err(message) => quiet(with_settings(s, with_error(s.settings->0, message))),
            Ok(document) => asking(
                s,
                TuiActionView::WriteProviders { document, after: ProvidersUseView::Save },
            ),
        }
    }
}

/// Saves the form: has the providers written, or shows the message.
pub fn save_provider_form(app: &mut TuiState) -> (result: Vec<TuiAction>)
    requires
        old(app)@.wf(),
    ensures
        (final(app)@, views(result@)) == form_saved(old(app)@),
{
    proof {
        reveal(form_saved);
    }
    match &mut app.settings {
        Some(settings) => {
            if settings.form.is_none() {
                return nothing();
            }
            match build_document(settings) {
                Err(message) => {
                    settings.error = Some(message);
                    nothing()
                },
                Ok(document) => only(
                    TuiAction::WriteProviders { document, after: ProvidersUse::Save },
                ),
            }
        },
        None => nothing(),
    }
}

/// Where a text stands first in a list, or the first place.
pub open spec fn place_of(list: Seq<Seq<char>>, text: Seq<char>) -> usize
    decreases list.len(),
{
    if list.len() == 0 {
        0
    } else if list.drop_last().contains(text) {
        place_of(list.drop_last(), text)
    } else if list.last() == text {
        (list.len() - 1) as usize
    } else {
        0
    }
}

fn find_place(list: &Vec<String>, text: &str) -> (result: usize)
    ensures
        result == place_of(texts(list@), text@),
{
    let ghost all = texts(list@);
    let mut i: usize = 0;
    assert(all.take(0) =~= Seq::<Seq<char>>::empty());
    while i < list.len()
        invariant
            i <= list@.len(),
            all == texts(list@),
            !all.take(i as int).contains(text@),
            place_of(all.take(i as int), text@) == 0,
        decreases list@.len() - i,
    {
        let ghost part = all.take(i + 1);
        assert(part.drop_last() =~= all.take(i as int));
        assert(part.last() == list@[i as int]@);
        if same(&list[i], text) {
            proof {
                place_is_kept(all, text@, i + 1);
                assert(part[i as int] == text@);
            }
            return i;
        }
        assert(!part.contains(text@)) by {
            if part.contains(text@) {
                let k = choose|k: int| 0 <= k < part.len() && part[k] == text@;
                if k < i {
                    assert(all.take(i as int)[k] == text@);
                }
            }
        }
        i = i + 1;
    }
    assert(all.take(i as int) =~= all);
    0
}

/// What stands behind a text does not move its place.
proof fn place_is_kept(list: Seq<Seq<char>>, text: Seq<char>, count: int)
    requires
        0 < count <= list.len(),
        list.take(count).contains(text),
    ensures
        place_of(list, text) == place_of(list.take(count), text),
    decreases list.len(),
{
    if count == list.len() {
        assert(list.take(count) =~= list);
    } else {
        let k = choose|k: int| 0 <= k < count && list.take(count)[k] == text;
        assert(list.drop_last()[k] == text);
        assert(list.drop_last().take(count) =~= list.take(count));
        place_is_kept(list.drop_last(), text, count);
    }
}

/// The settings after the form was saved.
pub open spec fn form_closed(settings: SettingsStateView, document: ProviderDocumentView) -> SettingsStateView {
    SettingsStateView {
        document,
        provider_ids: keys_of(document.providers),
        selected: place_of(keys_of(document.providers), document.active),
        form: None,
        error: None,
        ..settings
    }
}

fn close_form(settings: &mut SettingsState, document: ProviderDocument)
    ensures
        final(settings)@ == form_closed(old(settings)@, document@),
{
    settings.provider_ids = table_keys(&document.providers);
    settings.selected = find_place(&settings.provider_ids, &document.active);
    settings.document = document;
    settings.form = None;
    settings.error = None;
}

/// The step after the providers were written, or not.
#[verifier::opaque]
pub open spec fn providers_step(
    s: TuiStateView,
    purpose: ProvidersUseView,
    document: ProviderDocumentView,
    written: Result<(), Seq<char>>,
) -> (TuiStateView, Seq<TuiActionView>) {
    if s.settings is None {
        quiet(s)
    } else {
        let settings = s.settings->0;
        match written {
            Err(message) => quiet(with_settings(s, with_error(settings, message))),
            Ok(_) => match purpose {
                ProvidersUseView::Save => asking(
                    with_settings(s, form_closed(settings, document)),
                    TuiActionView::ReadModels { status: "Provider saved"@ },
                ),
                ProvidersUseView::Activate(id) => asking(
                    s,
                    TuiActionView::ResolveModel { selector: id, purpose: ModelUse::Activate },
                ),
                ProvidersUseView::Delete(id) => asking(
                    with_settings(s, ids_listed(settings)),
                    TuiActionView::ReadModels { status: "Deleted provider "@ + id },
                ),
            },
        }
    }
}

/// The settings with the providers of their document listed.
pub open spec fn ids_listed(settings: SettingsStateView) -> SettingsStateView {
    SettingsStateView {
        provider_ids: keys_of(settings.document.providers),
        selected: inside(settings.selected, keys_of(settings.document.providers).len()),
        ..settings
    }
}

fn list_ids(settings: &mut SettingsState)
    ensures
        final(settings)@ == ids_listed(old(settings)@),
{
    settings.provider_ids = table_keys(&settings.document.providers);
    settings.selected = kept_inside(settings.selected, settings.provider_ids.len());
    assert(settings@.provider_ids.len() == settings.provider_ids@.len());
}

/// Takes the outcome of writing the providers.
pub fn providers_written(
    app: &mut TuiState,
    purpose: ProvidersUse,
    document: ProviderDocument,
    written: Result<(), String>,
) -> (result: Vec<TuiAction>)
    ensures
        (final(app)@, views(result@)) == providers_step(
            old(app)@,
            purpose@,
            document@,
            saving(written),
        ),
{
    proof {
        reveal(providers_step);
    }
    match &mut app.settings {
        Some(settings) => match written {
            Err(message) => {
                settings.error = Some(message);
                nothing()
            },
            Ok(_) => match purpose {
                ProvidersUse::Save => {
                    close_form(settings, document);
                    only(TuiAction::ReadModels { status: "Provider saved".to_owned() })
                },
                ProvidersUse::Activate(id) => only(
                    TuiAction::ResolveModel { selector: id, purpose: ModelUse::Activate },
                ),
                ProvidersUse::Delete(id) => {
                    list_ids(settings);
                    let mut status = "Deleted provider ".to_owned();
                    status.push_str(&id);
                    only(TuiAction::ReadModels { status })
                },
            },
        },
        None => nothing(),
    }
}

/// Takes the choices of models that were read.
pub fn models_read(app: &mut TuiState, models: Vec<ModelChoice>, status: String)
    ensures
        final(app)@ == (TuiStateView { models: views(models@), status: status@, ..old(app)@ }),
{
    app.models = models;
    app.status = status;
}

// ---------------------------------------------------------------------------
// The list of providers
// ---------------------------------------------------------------------------

/// The provider that is selected.
pub open spec fn chosen_provider(s: TuiStateView) -> Option<Seq<char>> {
    match s.settings {
        Some(settings) => if settings.selected < settings.provider_ids.len() {
            Some(settings.provider_ids[settings.selected as int])
        } else {
            None
        },
        None => None,
    }
}

/// Returns the provider that is selected.
pub fn selected_provider_id(app: &TuiState) -> (result: Option<String>)
    ensures
        opt(result) == chosen_provider(app@),
{
    match &app.settings {
        Some(settings) => {
            if settings.selected < settings.provider_ids.len() {
                assert(settings@.provider_ids[settings.selected as int] == settings.provider_ids@[settings.selected as int]@);
                Some(settings.provider_ids[settings.selected].clone())
            } else {
                None
            }
        },
        None => None,
    }
}

/// The state after the deletion of the selected provider was asked for.
#[verifier::opaque]
pub open spec fn provider_deletion_asked(s: TuiStateView) -> TuiStateView {
    match chosen_provider(s) {
        None => s,
        Some(id) => if s.settings->0.document.providers.len() <= 1 {
            with_settings(
                s,
                with_error(s.settings->0, "The last Provider cannot be deleted"@),
            )
        } else {
            TuiStateView { confirm_delete: Some(DeleteTargetView::Provider(id)), ..s }
        },
    }
}

/// Asks whether the selected provider shall be deleted. The last one cannot be.
pub fn request_selected_provider_delete(app: &mut TuiState)
    ensures
        final(app)@ == provider_deletion_asked(old(app)@),
{
    proof {
        reveal(provider_deletion_asked);
    }
    if let Some(id) = selected_provider_id(app) {
        let last = match &app.settings {
            Some(settings) => settings.document.providers.len() <= 1,
            None => true,
        };
        if last {
            if let Some(settings) = &mut app.settings {
                settings.error = Some("The last Provider cannot be deleted".to_owned());
            }
        } else {
            app.confirm_delete = Some(DeleteTarget::Provider(id));
        }
    }
}

/// The step that makes the selected provider the active one.
#[verifier::opaque]
pub open spec fn provider_activated(s: TuiStateView) -> (TuiStateView, Seq<TuiActionView>) {
    match chosen_provider(s) {
        None => quiet(s),
        Some(id) => {
            let document = ProviderDocumentView { active: id, ..s.settings->0.document };
            asking(
                with_settings(s, SettingsStateView { document, ..s.settings->0 }),
                TuiActionView::WriteProviders {
                    document,
                    after: ProvidersUseView::Activate(id),
                },
            )
        },
    }
}

/// Makes the selected provider the active one.
pub fn activate_selected_provider(app: &mut TuiState) -> (result: Vec<TuiAction>)
    ensures
        (final(app)@, views(result@)) == provider_activated(old(app)@),
{
    proof {
        reveal(provider_activated);
    }
    match selected_provider_id(app) {
        Some(id) => match &mut app.settings {
            Some(settings) => {
                settings.document.active = id.clone();
                only(
                    TuiAction::WriteProviders {
                        document: settings.document.duplicate(),
                        after: ProvidersUse::Activate(id),
                    },
                )
            },
            None => nothing(),
        },
        None => nothing(),
    }
}

/// A document without a provider. If it was the active one, the first of the others is.
pub open spec fn provider_removed(document: ProviderDocumentView, id: Seq<char>) -> ProviderDocumentView {
    let providers = without(document.providers, id);
    ProviderDocumentView {
        active: if document.active == id {
            if providers.len() == 0 {
                Seq::empty()
            } else {
                providers[0].0
            }
        } else {
            document.active
        },
        providers,
    }
}

fn remove_from(document: &mut ProviderDocument, id: &str)
    ensures
        final(document)@ == provider_removed(old(document)@, id@),
{
    table_remove(&mut document.providers, id);
    if same(&document.active, id) {
        document.active = if document.providers.len() == 0 {
            String::new()
        } else {
            assert(pairs_of(document.providers@)[0].0 == document.providers@[0].0@);
            document.providers[0].0.clone()
        };
        assert(document.providers@.len() == 0 ==> document.active@ =~= Seq::<char>::empty());
    }
}

/// The step that deletes a provider, unless it is the last one.
#[verifier::opaque]
pub open spec fn provider_deleted(s: TuiStateView, id: Seq<char>) -> (
    TuiStateView,
    Seq<TuiActionView>,
) {
    if s.settings is None {
        quiet(s)
    } else if s.settings->0.document.providers.len() <= 1 {
        quiet(
            with_settings(s, with_error(s.settings->0, "The last Provider cannot be deleted"@)),
        )
    } else {
        let document = provider_removed(s.settings->0.document, id);
        asking(
            with_settings(s, SettingsStateView { document, ..s.settings->0 }),
            TuiActionView::WriteProviders { document, after: ProvidersUseView::Delete(id) },
        )
    }
}

/// Deletes a provider, unless it is the last one.
pub fn delete_provider(app: &mut TuiState, id: String) -> (result: Vec<TuiAction>)
    requires
        old(app)@.settings is Some,
    ensures
        (final(app)@, views(result@)) == provider_deleted(old(app)@, id@),
{
    proof {
        reveal(provider_deleted);
    }
    match &mut app.settings {
        Some(settings) => {
            if settings.document.providers.len() <= 1 {
                settings.error = Some("The last Provider cannot be deleted".to_owned());
                nothing()
            } else {
                remove_from(&mut settings.document, &id);
                only(
                    TuiAction::WriteProviders {
                        document: settings.document.duplicate(),
                        after: ProvidersUse::Delete(id),
                    },
                )
            }
        },
        None => nothing(),
    }
}

// ---------------------------------------------------------------------------
// Laws
// ---------------------------------------------------------------------------

/// A text that neither begins nor ends with white space stays when it is trimmed.
proof fn trimmed_stays(s: Seq<char>)
    requires
        s.len() > 0,
        !is_space(s[0]),
        !is_space(s.last()),
    ensures
        trimmed(s) == s,
        !is_blank(s),
{
    assert(trimmed_start(s) == s);
    assert(trimmed_end(s) == s);
    reveal(is_blank);
}

proof fn decimals_stay(n: nat)
    ensures
        trimmed(decimal(n)) == decimal(n),
        !is_blank(decimal(n)),
{
    decimal_is_digits(n);
    assert(is_digit(decimal(n)[0]));
    assert(is_digit(decimal(n)[decimal(n).len() - 1]));
    trimmed_stays(decimal(n));
}

proof fn numbers_are_read_back(n: nat, label: Seq<char>, max: nat)
    requires
        n <= max,
    ensures
        given_number(trimmed(decimal(n)), label, max) == Ok::<Option<nat>, Seq<char>>(Some(n)),
{
    decimals_stay(n);
    decimal_is_digits(n);
    decimal_reads_back(n);
    assert(is_digit(decimal(n)[0]));
}

proof fn blanks_are_read_back(label: Seq<char>, max: nat)
    ensures
        trimmed(Seq::<char>::empty()) == Seq::<char>::empty(),
        is_blank(Seq::<char>::empty()),
        given_number(trimmed(Seq::<char>::empty()), label, max) == Ok::<Option<nat>, Seq<char>>(None),
        given_text(Seq::<char>::empty()) is None,
{
    reveal(is_blank);
}

proof fn limits_are_read_back(value: Option<u64>, label: Seq<char>)
    ensures
        given_number(trimmed(number_text(value)), label, u64::MAX as nat) is Ok,
        as_limit(given_number(trimmed(number_text(value)), label, u64::MAX as nat)) == value,
{
    match value {
        Some(n) => {
            numbers_are_read_back(n as nat, label, u64::MAX as nat);
        },
        None => {
            blanks_are_read_back(label, u64::MAX as nat);
        },
    }
}

proof fn switches_are_read_back(on: bool)
    ensures
        given_switch(trimmed(switch_text(on))) == Some(on),
        !is_blank(trimmed(switch_text(on))),
{
    reveal_strlit("true");
    reveal_strlit("false");
    reveal_strlit("yes");
    reveal_strlit("no");
    reveal_strlit("on");
    reveal_strlit("off");
    reveal_strlit("1");
    reveal_strlit("0");
    trimmed_stays("true"@);
    trimmed_stays("false"@);
    assert(lower("true"@) =~= "true"@);
    assert(lower("false"@) =~= "false"@);
    assert("false"@[0] == 'f' && "true"@[0] == 't' && "yes"@[0] == 'y' && "1"@[0] == '1' && "on"@[0] == 'o');
}

proof fn scopes_are_read_back(scope: AutoCompactScope)
    ensures
        given_scope(trimmed(scope_text(scope))) == Some(scope),
{
    reveal_strlit("total");
    reveal_strlit("body_after_prefix");
    trimmed_stays("total"@);
    trimmed_stays("body_after_prefix"@);
    assert("total"@[0] != "body_after_prefix"@[0]);
}

proof fn modes_are_read_back(mode: RemoteCompactionMode)
    ensures
        given_mode(trimmed(mode_text(mode))) == Some(mode),
{
    reveal_strlit("v2");
    reveal_strlit("legacy");
    trimmed_stays("v2"@);
    trimmed_stays("legacy"@);
    assert("v2"@[0] != "legacy"@[0]);
}

/// Whether a text has no white space around it.
pub open spec fn is_trim(text: Seq<char>) -> bool {
    trimmed(text) == text
}

/// Whether a text that may be missing is neither blank nor has white space around it.
pub open spec fn is_given(text: Option<Seq<char>>) -> bool {
    text matches Some(text) ==> is_trim(text) && !is_blank(text)
}

/// The form of a provider that is saved as it was opened gives the provider back: editing
/// without a change changes nothing.
pub proof fn unchanged_forms_change_nothing(id: Seq<char>, p: ProviderSettingsView)
    requires
        is_trim(p.display) && is_trim(p.provider_type) && is_trim(p.base_url) && is_trim(p.model) && is_trim(p.api_key),
        is_given(p.tool_protocol) && is_given(p.fast_model),
        p.effective_context_window_percent matches Some(n) ==> 1 <= n <= 100,
    ensures
        form_read(p, provider_fields(Some(id), p)) == Ok::<ProviderSettingsView, Seq<char>>(p),
{
    let fields = provider_fields(Some(id), p);
    assert forall|i: int| 0 <= i < 19 implies #[trigger] fields[i].editor.text() == fields[i].editor.before by {
        assert(fields[i].editor.text() =~= fields[i].editor.before);
    }
    assert(entry(fields, 1) == p.display);
    assert(entry(fields, 2) == p.provider_type);
    assert(entry(fields, 3) == trimmed(text_or_empty(p.tool_protocol)));
    assert(entry(fields, 4) == p.base_url);
    assert(entry(fields, 5) == p.model);
    assert(entry(fields, 6) == trimmed(text_or_empty(p.fast_model)));
    assert(entry(fields, 7) == p.api_key);
    assert(entry(fields, 8) == trimmed(number_text(p.context_window)));
    assert(entry(fields, 9) == trimmed(percent_text(p.effective_context_window_percent)));
    assert(entry(fields, 10) == trimmed(number_text(p.auto_compact_token_limit)));
    assert(entry(fields, 11) == trimmed(scope_text(p.auto_compact_scope)));
    assert(entry(fields, 12) == trimmed(number_text(p.max_output_tokens)));
    assert(entry(fields, 13) == trimmed(switch_or_empty(p.supports_remote_compaction)));
    assert(entry(fields, 14) == trimmed(mode_text(p.remote_compaction_mode)));
    assert(entry(fields, 15) == trimmed(switch_text(p.supports_vision)));
    assert(entry(fields, 16) == trimmed(switch_text(p.supports_native_tools)));
    assert(entry(fields, 17) == trimmed(switch_text(p.supports_web_search)));
    assert(entry(fields, 18) == trimmed(switch_text(p.supports_parallel_tool_calls)));
    limits_are_read_back(p.context_window, "Context window"@);
    limits_are_read_back(p.auto_compact_token_limit, "Compact token limit"@);
    limits_are_read_back(p.max_output_tokens, "Max output tokens"@);
    match p.effective_context_window_percent {
        Some(n) => {
            numbers_are_read_back(n as nat, "Effective window"@, u8::MAX as nat);
        },
        None => {
            blanks_are_read_back("Effective window"@, u8::MAX as nat);
        },
    }
    scopes_are_read_back(p.auto_compact_scope);
    modes_are_read_back(p.remote_compaction_mode);
    switches_are_read_back(p.supports_vision);
    switches_are_read_back(p.supports_native_tools);
    switches_are_read_back(p.supports_web_search);
    switches_are_read_back(p.supports_parallel_tool_calls);
    blanks_are_read_back(""@, 0);
    match p.supports_remote_compaction {
        Some(on) => {
            switches_are_read_back(on);
        },
        None => {},
    }
    reveal(limits_error);
    reveal(switches_error);
    reveal(with_limits);
    reveal(with_switches);
    assert(form_error(fields) is None);
    assert(form_settings(p, fields) == p);
}

/// A provider that was saved is found under its name.
pub proof fn saved_providers_are_found(
    document: ProviderDocumentView,
    original: Option<Seq<char>>,
    id: Seq<char>,
    settings: ProviderSettingsView,
)
    requires
        document_saved(document, original, id, settings) is Ok,
    ensures
        lookup(document_saved(document, original, id, settings)->Ok_0.providers, id) == Some(settings),
        document_saved(document, original, id, settings)->Ok_0.active.len() > 0 || id.len() == 0,
{
    let others = match original {
        Some(original) => without(document.providers, original),
        None => document.providers,
    };
    put_is_found(others, id, settings, id);
}

/// Deleting a provider leaves one: the last one cannot be deleted.
pub proof fn one_provider_stays(s: TuiStateView, id: Seq<char>)
    requires
        s.settings is Some,
        s.settings->0.document.providers.len() <= 1,
    ensures
        provider_deleted(s, id).0.settings->0.document == s.settings->0.document,
        provider_deleted(s, id).1.len() == 0,
{
    reveal(provider_deleted);
}

} // verus!
