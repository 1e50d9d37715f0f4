//! Providers: their settings, their models, and the requests that change them.

use vstd::prelude::*;
use crate::api::bad_gateway;
use crate::api::bad_request;
use crate::api::not_found;
use crate::api::verdict;
use crate::api::ApiError;
use crate::api::ApiErrorView;
use crate::codec::json_document;
use crate::codec::parse_json;
use crate::json::bool_of;
use crate::json::field_trees;
use crate::json::member;
use crate::json::nullable_text;
use crate::json::object_view;
use crate::json::array_view;
use crate::json::text_of;
use crate::json::text_values;
use crate::json::trees;
use crate::json::u64_of;
use crate::json::Json;
use crate::json::JsonView;
use crate::json_ops::Fields;
use crate::json_ops::text_array;
use crate::json_ops::text_or_null;
use crate::numbers::decimal;
use crate::numbers::print_usize;
use crate::order::in_order;
use crate::order::sort_texts;
use crate::table::duplicate_pairs;
use crate::table::lookup;
use crate::table::pairs_of;
use crate::table::put;
use crate::table::put_is_found;
use crate::table::table_get;
use crate::table::table_put;
use crate::table::table_remove;
use crate::table::without;
use crate::text::blank;
use crate::text::begins;
use crate::text::chars_of;
use crate::text::contains;
use crate::text::has;
use crate::text::is_blank;
use crate::text::list_has;
use crate::text::lower;
use crate::text::same;
use crate::text::starts_with;
use crate::text::texts;
use crate::text::texts_empty;
use crate::text::texts_push;
use crate::text::to_lower;
use crate::text::trim;
use crate::text::trimmed;
use crate::text::take_chars;
use crate::views::duplicate_opt;
use crate::views::opt;
use crate::views::Duplicate;

verus! {

broadcast use {texts_push, texts_empty, object_view, array_view};

/// What counts toward the limit at which a history is summarised.
#[derive(Clone, Copy, Debug, PartialEq, Eq, Structural)]
pub enum AutoCompactScope {
    Total,
    BodyAfterPrefix,
}

/// How a provider summarises a history itself.
#[derive(Clone, Copy, Debug, PartialEq, Eq, Structural)]
pub enum RemoteCompactionMode {
    Legacy,
    V2,
}

/// The protocol that a provider speaks.
#[derive(Clone, Copy, Debug, PartialEq, Eq, Structural)]
pub enum ProviderProtocol {
    OpenAiCompatible,
    OpenAiResponses,
    Anthropic,
    Gemini,
}

/// How a request shows the key of a provider.
#[derive(Clone, Copy, Debug, PartialEq, Eq, Structural)]
pub enum KeyPlacement {
    /// As the query parameter `key`.
    Query,
    /// As the header `x-api-key`.
    Header,
    /// As a bearer token.
    Bearer,
    /// Not at all.
    Nowhere,
}

/// What is configured of a provider.
#[derive(Debug)]
pub struct ProviderSettings {
    pub display: String,
    pub provider_type: String,
    pub tool_protocol: Option<String>,
    pub base_url: String,
    pub model: String,
    pub fast_model: Option<String>,
    pub api_key: String,
    pub context_window: Option<u64>,
    pub effective_context_window_percent: Option<u8>,
    pub auto_compact_token_limit: Option<u64>,
    pub auto_compact_scope: AutoCompactScope,
    pub max_output_tokens: Option<u64>,
    pub supports_remote_compaction: Option<bool>,
    pub remote_compaction_mode: RemoteCompactionMode,
    pub supports_vision: bool,
    pub supports_native_tools: bool,
    pub supports_web_search: bool,
    pub supports_parallel_tool_calls: bool,
    pub model_context_windows: Vec<(String, u64)>,
    /// Settings that are only passed on.
    pub extra: Vec<(String, Json)>,
}

/// What a `ProviderSettings` holds.
#[verifier::ext_equal]
pub struct ProviderSettingsView {
    pub display: Seq<char>,
    pub provider_type: Seq<char>,
    pub tool_protocol: Option<Seq<char>>,
    pub base_url: Seq<char>,
    pub model: Seq<char>,
    pub fast_model: Option<Seq<char>>,
    pub api_key: Seq<char>,
    pub context_window: Option<u64>,
    pub effective_context_window_percent: Option<u8>,
    pub auto_compact_token_limit: Option<u64>,
    pub auto_compact_scope: AutoCompactScope,
    pub max_output_tokens: Option<u64>,
    pub supports_remote_compaction: Option<bool>,
    pub remote_compaction_mode: RemoteCompactionMode,
    pub supports_vision: bool,
    pub supports_native_tools: bool,
    pub supports_web_search: bool,
    pub supports_parallel_tool_calls: bool,
    pub model_context_windows: Seq<(Seq<char>, u64)>,
    pub extra: Seq<(Seq<char>, JsonView)>,
}

impl View for ProviderSettings {
    type V = ProviderSettingsView;

    open spec fn view(&self) -> ProviderSettingsView {
        ProviderSettingsView {
            display: self.display@,
            provider_type: self.provider_type@,
            tool_protocol: opt(self.tool_protocol),
            base_url: self.base_url@,
            model: self.model@,
            fast_model: opt(self.fast_model),
            api_key: self.api_key@,
            context_window: self.context_window,
            effective_context_window_percent: self.effective_context_window_percent,
            auto_compact_token_limit: self.auto_compact_token_limit,
            auto_compact_scope: self.auto_compact_scope,
            max_output_tokens: self.max_output_tokens,
            supports_remote_compaction: self.supports_remote_compaction,
            remote_compaction_mode: self.remote_compaction_mode,
            supports_vision: self.supports_vision,
            supports_native_tools: self.supports_native_tools,
            supports_web_search: self.supports_web_search,
            supports_parallel_tool_calls: self.supports_parallel_tool_calls,
            model_context_windows: pairs_of(self.model_context_windows@),
            extra: pairs_of(self.extra@),
        }
    }
}

impl Duplicate for ProviderSettings {
    fn duplicate(&self) -> (result: Self) {
        ProviderSettings {
            display: self.display.clone(),
            provider_type: self.provider_type.clone(),
            tool_protocol: duplicate_opt(&self.tool_protocol),
            base_url: self.base_url.clone(),
            model: self.model.clone(),
            fast_model: duplicate_opt(&self.fast_model),
            api_key: self.api_key.clone(),
            context_window: self.context_window,
            effective_context_window_percent: self.effective_context_window_percent,
            auto_compact_token_limit: self.auto_compact_token_limit,
            auto_compact_scope: self.auto_compact_scope,
            max_output_tokens: self.max_output_tokens,
            supports_remote_compaction: self.supports_remote_compaction,
            remote_compaction_mode: self.remote_compaction_mode,
            supports_vision: self.supports_vision,
            supports_native_tools: self.supports_native_tools,
            supports_web_search: self.supports_web_search,
            supports_parallel_tool_calls: self.supports_parallel_tool_calls,
            model_context_windows: duplicate_pairs(&self.model_context_windows),
            extra: duplicate_pairs(&self.extra),
        }
    }
}

/// All providers and the one in use.
#[derive(Debug)]
pub struct ProviderDocument {
    pub active: String,
    pub providers: Vec<(String, ProviderSettings)>,
}

/// What a `ProviderDocument` holds.
#[verifier::ext_equal]
pub struct ProviderDocumentView {
    pub active: Seq<char>,
    pub providers: Seq<(Seq<char>, ProviderSettingsView)>,
}

impl View for ProviderDocument {
    type V = ProviderDocumentView;

    open spec fn view(&self) -> ProviderDocumentView {
        ProviderDocumentView {
            active: self.active@,
            providers: pairs_of(self.providers@),
        }
    }
}

impl Duplicate for ProviderDocument {
    fn duplicate(&self) -> (result: Self) {
        ProviderDocument {
            active: self.active.clone(),
            providers: duplicate_pairs(&self.providers),
        }
    }
}

/// A provider that is about to be saved.
#[derive(Debug)]
pub struct ProviderUpsert {
    pub id: String,
    pub settings: ProviderSettings,
    pub activate: bool,
}

/// What a `ProviderUpsert` holds.
#[verifier::ext_equal]
pub struct ProviderUpsertView {
    pub id: Seq<char>,
    pub settings: ProviderSettingsView,
    pub activate: bool,
}

impl View for ProviderUpsert {
    type V = ProviderUpsertView;

    open spec fn view(&self) -> ProviderUpsertView {
        ProviderUpsertView {
            id: self.id@,
            settings: self.settings@,
            activate: self.activate,
        }
    }
}

impl Duplicate for ProviderUpsert {
    fn duplicate(&self) -> (result: Self) {
        ProviderUpsert {
            id: self.id.clone(),
            settings: self.settings.duplicate(),
            activate: self.activate,
        }
    }
}

impl Default for ProviderSettings {
    /// Settings without content.
    fn default() -> (result: ProviderSettings)
        ensures
            result@ == blank_settings(),
    {
        let result = ProviderSettings {
            display: String::new(),
            provider_type: String::new(),
            tool_protocol: None,
            base_url: String::new(),
            model: String::new(),
            fast_model: None,
            api_key: String::new(),
            context_window: None,
            effective_context_window_percent: None,
            auto_compact_token_limit: None,
            auto_compact_scope: AutoCompactScope::Total,
            max_output_tokens: None,
            supports_remote_compaction: None,
            remote_compaction_mode: RemoteCompactionMode::V2,
            supports_vision: false,
            supports_native_tools: false,
            supports_web_search: false,
            supports_parallel_tool_calls: false,
            model_context_windows: Vec::new(),
            extra: Vec::new(),
        };
        assert(result@.model_context_windows =~= Seq::empty());
        assert(result@.extra =~= Seq::empty());
        result
    }
}

/// Settings without content.
pub open spec fn blank_settings() -> ProviderSettingsView {
    ProviderSettingsView {
        display: Seq::empty(),
        provider_type: Seq::empty(),
        tool_protocol: None,
        base_url: Seq::empty(),
        model: Seq::empty(),
        fast_model: None,
        api_key: Seq::empty(),
        context_window: None,
        effective_context_window_percent: None,
        auto_compact_token_limit: None,
        auto_compact_scope: AutoCompactScope::Total,
        max_output_tokens: None,
        supports_remote_compaction: None,
        remote_compaction_mode: RemoteCompactionMode::V2,
        supports_vision: false,
        supports_native_tools: false,
        supports_web_search: false,
        supports_parallel_tool_calls: false,
        model_context_windows: Seq::empty(),
        extra: Seq::empty(),
    }
}

// ---------------------------------------------------------------------------
// Keys and names
// ---------------------------------------------------------------------------

/// A key as it may be shown: at most its last four characters.
pub open spec fn masked(key: Seq<char>) -> Seq<char> {
    if key.len() == 0 {
        Seq::empty()
    } else {
        "****"@ + key.skip(
            if key.len() <= 4 {
                0
            } else {
                key.len() - 4
            },
        )
    }
}

/// Returns a key as it may be shown.
pub fn mask_key(key: &str) -> (result: String)
    ensures
        result@ == masked(key@),
{
    if key.is_empty() {
        return String::new();
    }
    let count: usize = key.unicode_len();
    let start: usize = if count <= 4 {
        0
    } else {
        count - 4
    };
    let tail = key.substring_char(start, count).to_owned();
    assert(tail@ =~= key@.skip(start as int));
    "****".to_owned().concat(&tail)
}

/// The address of a well-known provider.
pub open spec fn known_base_url(id: Seq<char>) -> Seq<char> {
    let name = lower(id);
    if name == "openai"@ {
        "https://api.openai.com/v1"@
    } else if name == "anthropic"@ {
        "https://api.anthropic.com/v1"@
    } else if name == "google"@ || name == "gemini"@ {
        "https://generativelanguage.googleapis.com/v1beta"@
    } else if name == "deepseek"@ {
        "https://api.deepseek.com/v1"@
    } else if name == "zhipu"@ {
        "https://open.bigmodel.cn/api/paas/v4"@
    } else if name == "minimax"@ {
        "https://api.minimaxi.com/v1"@
    } else if name == "opencode"@ {
        "https://opencode.ai/zen/go/v1"@
    } else {
        ""@
    }
}

/// Returns the address of a well-known provider, or nothing.
pub fn default_base_url(id: &str) -> (result: String)
    ensures
        result@ == known_base_url(id@),
{
    let name = to_lower(id);
    let url = if same(&name, "openai") {
        "https://api.openai.com/v1"
    } else if same(&name, "anthropic") {
        "https://api.anthropic.com/v1"
    } else if same(&name, "google") || same(&name, "gemini") {
        "https://generativelanguage.googleapis.com/v1beta"
    } else if same(&name, "deepseek") {
        "https://api.deepseek.com/v1"
    } else if same(&name, "zhipu") {
        "https://open.bigmodel.cn/api/paas/v4"
    } else if same(&name, "minimax") {
        "https://api.minimaxi.com/v1"
    } else if same(&name, "opencode") {
        "https://opencode.ai/zen/go/v1"
    } else {
        ""
    };
    url.to_owned()
}

/// The protocol that a provider speaks: its tool protocol decides, else its type.
pub open spec fn protocol_of(provider: ProviderSettingsView) -> ProviderProtocol {
    let value = lower(
        match provider.tool_protocol {
            Some(text) => text,
            None => provider.provider_type,
        },
    );
    if contains(value, "responses"@) {
        ProviderProtocol::OpenAiResponses
    } else if contains(value, "anthropic"@) {
        ProviderProtocol::Anthropic
    } else if contains(value, "gemini"@) {
        ProviderProtocol::Gemini
    } else {
        ProviderProtocol::OpenAiCompatible
    }
}

/// Returns the protocol that a provider speaks.
pub fn provider_protocol_settings(provider: &ProviderSettings) -> (result: ProviderProtocol)
    ensures
        result == protocol_of(provider@),
{
    let value = match &provider.tool_protocol {
        Some(text) => to_lower(text),
        None => to_lower(&provider.provider_type),
    };
    if has(&value, "responses") {
        ProviderProtocol::OpenAiResponses
    } else if has(&value, "anthropic") {
        ProviderProtocol::Anthropic
    } else if has(&value, "gemini") {
        ProviderProtocol::Gemini
    } else {
        ProviderProtocol::OpenAiCompatible
    }
}

/// How a request shows the key of a provider.
pub open spec fn key_placement_of(provider: ProviderSettingsView) -> KeyPlacement {
    if contains(provider.provider_type, "gemini"@) {
        KeyPlacement::Query
    } else if contains(provider.provider_type, "anthropic"@) {
        KeyPlacement::Header
    } else if provider.api_key.len() > 0 {
        KeyPlacement::Bearer
    } else {
        KeyPlacement::Nowhere
    }
}

/// Returns how a request shows the key of a provider.
pub fn key_placement(provider: &ProviderSettings) -> (result: KeyPlacement)
    ensures
        result == key_placement_of(provider@),
{
    if has(&provider.provider_type, "gemini") {
        KeyPlacement::Query
    } else if has(&provider.provider_type, "anthropic") {
        KeyPlacement::Header
    } else if !provider.api_key.as_str().is_empty() {
        KeyPlacement::Bearer
    } else {
        KeyPlacement::Nowhere
    }
}

// ---------------------------------------------------------------------------
// Models
// ---------------------------------------------------------------------------

/// The texts among values, trimmed, without the empty ones.
pub open spec fn trimmed_texts(items: Seq<JsonView>) -> Seq<Seq<char>>
    decreases items.len(),
{
    if items.len() == 0 {
        Seq::empty()
    } else {
        let before = trimmed_texts(items.drop_last());
        match items.last() {
            JsonView::Text(t) => if trimmed(t).len() == 0 {
                before
            } else {
                before.push(trimmed(t))
            },
            _ => before,
        }
    }
}

/// A list without repetitions; the first of equal texts stays.
pub open spec fn distinct(list: Seq<Seq<char>>) -> Seq<Seq<char>>
    decreases list.len(),
{
    if list.len() == 0 {
        Seq::empty()
    } else {
        let before = distinct(list.drop_last());
        if before.contains(list.last()) {
            before
        } else {
            before.push(list.last())
        }
    }
}

/// The models that a provider declares.
pub open spec fn declared_models(provider: ProviderSettingsView) -> Seq<Seq<char>> {
    match lookup(provider.extra, "models"@) {
        Some(JsonView::Array(items)) => trimmed_texts(items),
        _ => Seq::empty(),
    }
}

/// A list with one more text, unless the text is empty or already there.
pub open spec fn with_model(list: Seq<Seq<char>>, model: Seq<char>) -> Seq<Seq<char>> {
    if model.len() == 0 || list.contains(model) {
        list
    } else {
        list.push(model)
    }
}

/// The models of a provider: those it declares, then its main and its fast model.
pub open spec fn models_of(provider: ProviderSettingsView) -> Seq<Seq<char>> {
    let main = with_model(declared_models(provider), provider.model);
    match provider.fast_model {
        Some(fast) => with_model(main, fast),
        None => main,
    }
}

/// Collects the texts among values, trimmed, without the empty ones.
fn collect_trimmed(items: &Vec<Json>) -> (result: Vec<String>)
    ensures
        texts(result@) == trimmed_texts(trees(items@)),
{
    let mut result: Vec<String> = Vec::new();
    let mut i: usize = 0;
    while i < items.len()
        invariant
            i <= items@.len(),
            texts(result@) == trimmed_texts(trees(items@).take(i as int)),
        decreases items@.len() - i,
    {
        let ghost after = trees(items@).take(i + 1);
        assert(after.drop_last() =~= trees(items@).take(i as int));
        assert(after.last() == items@[i as int]@);
        match &items[i] {
            Json::Text(t) => {
                let cut = trim(t);
                if !cut.as_str().is_empty() {
                    result.push(cut);
                }
            },
            _ => {},
        }
        i = i + 1;
    }
    assert(trees(items@).take(i as int) =~= trees(items@));
    result
}

/// Removes repetitions; the first of equal texts stays.
pub fn keep_distinct(list: &Vec<String>) -> (result: Vec<String>)
    ensures
        texts(result@) == distinct(texts(list@)),
{
    let ghost all = texts(list@);
    let mut result: Vec<String> = Vec::new();
    let mut i: usize = 0;
    while i < list.len()
        invariant
            i <= list@.len(),
            all == texts(list@),
            texts(result@) == distinct(all.take(i as int)),
        decreases list@.len() - i,
    {
        let ghost after = all.take(i + 1);
        assert(after.drop_last() =~= all.take(i as int));
        assert(after.last() == list@[i as int]@);
        if !list_has(&result, &list[i]) {
            result.push(list[i].clone());
        }
        i = i + 1;
    }
    assert(all.take(i as int) =~= all);
    result
}

/// Returns the models that a provider declares.
fn find_declared(provider: &ProviderSettings) -> (result: Option<Vec<String>>)
    ensures
        match result {
            Some(list) => texts(list@) == declared_models(provider@) && lookup(
                provider@.extra,
                "models"@,
            ) is Some && lookup(provider@.extra, "models"@)->0 is Array,
            None => declared_models(provider@).len() == 0 && !(lookup(
                provider@.extra,
                "models"@,
            ) is Some && lookup(provider@.extra, "models"@)->0 is Array),
        },
{
    match table_get(&provider.extra, "models") {
        Some(value) => match value {
            Json::Array(items) => Some(collect_trimmed(items)),
            _ => None,
        },
        None => None,
    }
}

/// Returns the models of a provider.
pub fn provider_models(provider: &ProviderSettings) -> (result: Vec<String>)
    ensures
        texts(result@) == models_of(provider@),
{
    let mut models = match find_declared(provider) {
        Some(list) => list,
        None => Vec::new(),
    };
    assert(texts(models@) =~= declared_models(provider@));
    if !provider.model.as_str().is_empty() && !list_has(&models, &provider.model) {
        models.push(provider.model.clone());
    }
    if let Some(fast) = &provider.fast_model {
        if !fast.as_str().is_empty() && !list_has(&models, fast) {
            models.push(fast.clone());
        }
    }
    models
}

/// A provider with other models: the first is the main one, the second the fast one.
pub open spec fn with_models(
    provider: ProviderSettingsView,
    models: Seq<Seq<char>>,
) -> ProviderSettingsView {
    if models.len() == 0 {
        ProviderSettingsView {
            extra: without(provider.extra, "models"@),
            model: Seq::empty(),
            fast_model: None,
            ..provider
        }
    } else {
        ProviderSettingsView {
            extra: put(provider.extra, "models"@, JsonView::Array(text_values(models))),
            model: models[0],
            fast_model: if models.len() > 1 {
                Some(models[1])
            } else {
                None
            },
            ..provider
        }
    }
}

/// Gives a provider other models.
pub fn replace_provider_models(provider: &mut ProviderSettings, models: &Vec<String>)
    ensures
        final(provider)@ == with_models(old(provider)@, texts(models@)),
{
    assert(texts(models@).len() == models@.len());
    if models.len() == 0 {
        table_remove(&mut provider.extra, "models");
        provider.model = String::new();
        provider.fast_model = None;
        assert(provider.model@ =~= Seq::<char>::empty());
        return ;
    }
    table_put(&mut provider.extra, "models".to_owned(), text_array(models));
    provider.model = models[0].clone();
    assert(texts(models@)[0] == models@[0]@);
    if models.len() > 1 {
        assert(texts(models@)[1] == models@[1]@);
        provider.fast_model = Some(models[1].clone());
    } else {
        provider.fast_model = None;
    }
}

/// Gives a provider other models. The one in use keeps at least one.
pub fn apply_provider_models(
    provider: &mut ProviderSettings,
    models: &Vec<String>,
    active: bool,
) -> (result: Result<(), ApiError>)
    ensures
        verdict(result) == if active && models@.len() == 0 {
            Err(bad_request("active provider cannot have an empty model list"@))
        } else {
            Ok(())
        },
        final(provider)@ == if result is Ok {
            with_models(old(provider)@, texts(models@))
        } else {
            old(provider)@
        },
{
    if active && models.len() == 0 {
        return Err(
            ApiError::bad_request("active provider cannot have an empty model list"),
        );
    }
    replace_provider_models(provider, models);
    Ok(())
}

/// Takes over discovered models where they are to be kept.
pub fn persist_discovered_models(
    provider: &mut ProviderSettings,
    models: &Vec<String>,
    persist: bool,
)
    ensures
        final(provider)@ == if persist {
            with_models(old(provider)@, texts(models@))
        } else {
            old(provider)@
        },
{
    if persist {
        replace_provider_models(provider, models);
    }
}

/// What stands against using a provider: no key, no model, or a model that it does not
/// declare.
pub open spec fn activation_verdict(provider: ProviderSettingsView) -> Result<(), ApiErrorView> {
    let listed = lookup(provider.extra, "models"@);
    if is_blank(provider.api_key) {
        Err(bad_request("provider must have an API key before activation"@))
    } else if is_blank(provider.model) || models_of(provider).len() == 0 {
        Err(bad_request("provider must have a model before activation"@))
    } else if listed is Some && listed->0 is Array && !declared_models(provider).contains(
        trimmed(provider.model),
    ) {
        Err(bad_request("provider model must be declared in its model list before activation"@))
    } else {
        Ok(())
    }
}

/// Checks that a provider can be used.
pub fn validate_provider_activation(provider: &ProviderSettings) -> (result: Result<(), ApiError>)
    ensures
        verdict(result) == activation_verdict(provider@),
{
    if blank(&provider.api_key) {
        return Err(ApiError::bad_request("provider must have an API key before activation"));
    }
    let models = provider_models(provider);
    assert(texts(models@).len() == models@.len());
    if blank(&provider.model) || models.len() == 0 {
        return Err(ApiError::bad_request("provider must have a model before activation"));
    }
    if let Some(declared) = find_declared(provider) {
        if !list_has(&declared, &trim(&provider.model)) {
            return Err(
                ApiError::bad_request(
                    "provider model must be declared in its model list before activation",
                ),
            );
        }
    }
    Ok(())
}

// ---------------------------------------------------------------------------
// Reading requests
// ---------------------------------------------------------------------------

/// A text member of a request, trimmed.
pub open spec fn string_member(value: JsonView, key: Seq<char>) -> Option<Seq<char>> {
    match text_of(member(value, key)) {
        Some(text) => Some(trimmed(text)),
        None => None,
    }
}

/// Returns a text member of a request, trimmed.
pub fn string_field(value: &Json, key: &str) -> (result: Option<String>)
    ensures
        opt(result) == string_member(value@, key@),
{
    match value.text_member(key) {
        Some(text) => Some(trim(&text)),
        None => None,
    }
}

/// A text member of a request, trimmed, unless it is empty.
pub open spec fn filled_member(value: JsonView, key: Seq<char>) -> Option<Seq<char>> {
    match string_member(value, key) {
        Some(text) => if text.len() == 0 {
            None
        } else {
            Some(text)
        },
        None => None,
    }
}

/// Returns a text member of a request, trimmed, unless it is empty.
pub fn filled_field(value: &Json, key: &str) -> (result: Option<String>)
    ensures
        opt(result) == filled_member(value@, key@),
{
    match string_field(value, key) {
        Some(text) => if text.as_str().is_empty() {
            None
        } else {
            Some(text)
        },
        None => None,
    }
}

/// The models of a request: none where it names none, else its texts, trimmed, each once.
pub open spec fn requested_models(value: JsonView) -> Result<Option<Seq<Seq<char>>>, ApiErrorView> {
    match member(value, "models"@) {
        None => Ok(None),
        Some(JsonView::Array(items)) => Ok(Some(distinct(trimmed_texts(items)))),
        Some(_) => Err(bad_request("models must be an array"@)),
    }
}

/// A list that may be absent, as its view.
pub open spec fn optional_list(result: Result<Option<Vec<String>>, ApiError>) -> Result<
    Option<Seq<Seq<char>>>,
    ApiErrorView,
> {
    match result {
        Ok(Some(list)) => Ok(Some(texts(list@))),
        Ok(None) => Ok(None),
        Err(error) => Err(error@),
    }
}

/// Reads the models of a request.
pub fn parse_model_array(value: &Json) -> (result: Result<Option<Vec<String>>, ApiError>)
    ensures
        optional_list(result) == requested_models(value@),
{
    match value.get("models") {
        None => Ok(None),
        Some(raw) => match raw {
            Json::Array(items) => Ok(Some(keep_distinct(&collect_trimmed(items)))),
            _ => Err(ApiError::bad_request("models must be an array")),
        },
    }
}

/// The context windows of models in a request, on top of `windows`.
pub open spec fn windows_from(
    fields: Seq<(Seq<char>, JsonView)>,
    windows: Seq<(Seq<char>, u64)>,
) -> Result<Seq<(Seq<char>, u64)>, ApiErrorView>
    decreases fields.len(),
{
    if fields.len() == 0 {
        Ok(windows)
    } else {
        let name = trimmed(fields[0].0);
        if name.len() == 0 {
            windows_from(fields.skip(1), windows)
        } else {
            match u64_of(Some(fields[0].1)) {
                None => Err(bad_request("model context window must be an integer"@)),
                Some(window) => if window < 32_000 || window > 1_048_576 {
                    Err(bad_request("model context window must be between 32000 and 1048576"@))
                } else {
                    windows_from(fields.skip(1), put(windows, name, window as u64))
                },
            }
        }
    }
}

/// The context windows of models in a request.
pub open spec fn requested_windows(value: JsonView) -> Result<Seq<(Seq<char>, u64)>, ApiErrorView> {
    match value {
        JsonView::Object(fields) => windows_from(fields, Seq::empty()),
        _ => Err(bad_request("modelContextWindows must be an object"@)),
    }
}

/// A table of context windows, as its view.
pub open spec fn window_table(result: Result<Vec<(String, u64)>, ApiError>) -> Result<
    Seq<(Seq<char>, u64)>,
    ApiErrorView,
> {
    match result {
        Ok(rows) => Ok(pairs_of(rows@)),
        Err(error) => Err(error@),
    }
}

/// Reads the context windows of models in a request.
pub fn parse_model_context_windows(value: &Json) -> (result: Result<Vec<(String, u64)>, ApiError>)
    ensures
        window_table(result) == requested_windows(value@),
{
    match value {
        Json::Object(fields) => {
            let ghost all = field_trees(fields@);
            let mut windows: Vec<(String, u64)> = Vec::new();
            let mut i: usize = 0;
            assert(all.skip(0) =~= all);
            assert(pairs_of(windows@) =~= Seq::empty());
            while i < fields.len()
                invariant
                    i <= fields@.len(),
                    all == field_trees(fields@),
                    requested_windows(value@) == windows_from(all.skip(i as int), pairs_of(windows@)),
                decreases fields@.len() - i,
            {
                let ghost rest = all.skip(i as int);
                assert(rest[0] == (fields@[i as int].0@, fields@[i as int].1@));
                assert(rest.skip(1) =~= all.skip(i + 1));
                let name = trim(&fields[i].0);
                if !name.as_str().is_empty() {
                    match fields[i].1.as_u64() {
                        None => {
                            return Err(
                                ApiError::bad_request("model context window must be an integer"),
                            );
                        },
                        Some(window) => {
                            if window < 32_000 || window > 1_048_576 {
                                return Err(
                                    ApiError::bad_request(
                                        "model context window must be between 32000 and 1048576",
                                    ),
                                );
                            }
                            table_put(&mut windows, name, window);
                        },
                    }
                }
                i = i + 1;
            }
            Ok(windows)
        },
        _ => Err(ApiError::bad_request("modelContextWindows must be an object")),
    }
}

// ---------------------------------------------------------------------------
// Saving a provider
// ---------------------------------------------------------------------------

/// Whether a type of provider is supported.
pub open spec fn supported_type(name: Seq<char>) -> bool {
    name == "openai_compatible"@ || name == "openai_responses"@ || name == "anthropic_messages"@
        || name == "gemini_native"@
}

/// The names of a saved provider: what the request says, else what was there, else its id.
#[verifier::opaque]
pub open spec fn named_settings(
    id: Seq<char>,
    input: JsonView,
    existing: Option<ProviderSettingsView>,
    start: ProviderSettingsView,
) -> ProviderSettingsView {
    let display = match string_member(input, "name"@) {
        Some(text) => text,
        None => match existing {
            Some(item) => item.display,
            None => Seq::empty(),
        },
    };
    let provider_type = match filled_member(input, "type"@) {
        Some(text) => text,
        None => start.provider_type,
    };
    ProviderSettingsView {
        display: if display.len() == 0 {
            id
        } else {
            display
        },
        provider_type,
        tool_protocol: match string_member(input, "toolProtocol"@) {
            Some(text) => Some(text),
            None => Some(provider_type),
        },
        ..start
    }
}

/// The context window of a saved provider.
#[verifier::opaque]
pub open spec fn windowed_settings(input: JsonView, start: ProviderSettingsView) -> Result<
    ProviderSettingsView,
    ApiErrorView,
> {
    if !supported_type(start.provider_type) {
        Err(bad_request("unsupported provider compatibility mode"@))
    } else {
        let asked = u64_of(member(input, "contextWindow"@));
        if asked is Some && (asked->0 < 32_000 || asked->0 > 1_048_576) {
            Err(bad_request("context window must be between 32000 and 1048576"@))
        } else {
            let window = match asked {
                Some(value) => Some(value as u64),
                None => if start.context_window is Some {
                    start.context_window
                } else {
                    Some(256_000u64)
                },
            };
            let sized = ProviderSettingsView { context_window: window, ..start };
            match member(input, "modelContextWindows"@) {
                None => Ok(sized),
                Some(windows) => match requested_windows(windows) {
                    Ok(table) => Ok(ProviderSettingsView { model_context_windows: table, ..sized }),
                    Err(error) => Err(error),
                },
            }
        }
    }
}

/// The address and the models of a saved provider.
#[verifier::opaque]
pub open spec fn modelled_settings(
    id: Seq<char>,
    input: JsonView,
    start: ProviderSettingsView,
    active: bool,
) -> Result<ProviderSettingsView, ApiErrorView> {
    let placed = ProviderSettingsView {
        base_url: match filled_member(input, "baseUrl"@) {
            Some(text) => text,
            None => known_base_url(id),
        },
        ..start
    };
    match requested_models(input) {
        Err(error) => Err(error),
        Ok(Some(models)) => if active && models.len() == 0 {
            Err(bad_request("active provider cannot have an empty model list"@))
        } else {
            Ok(with_models(placed, models))
        },
        Ok(None) => Ok(
            ProviderSettingsView {
                model: match filled_member(input, "model"@) {
                    Some(text) => text,
                    None => placed.model,
                },
                fast_model: if member(input, "fastModel"@) is Some {
                    filled_member(input, "fastModel"@)
                } else {
                    placed.fast_model
                },
                ..placed
            },
        ),
    }
}

/// A table with the member `key` of a request, where the request has it.
pub open spec fn with_member(
    extra: Seq<(Seq<char>, JsonView)>,
    input: JsonView,
    key: Seq<char>,
) -> Seq<(Seq<char>, JsonView)> {
    match member(input, key) {
        Some(value) => put(extra, key, value),
        None => extra,
    }
}

/// The key and the switches of a saved provider.
#[verifier::opaque]
pub open spec fn finished_settings(
    input: JsonView,
    start: ProviderSettingsView,
) -> ProviderSettingsView {
    ProviderSettingsView {
        api_key: match filled_member(input, "apiKey"@) {
            Some(text) => text,
            None => start.api_key,
        },
        supports_web_search: match bool_of(member(input, "supportsWebSearch"@)) {
            Some(enabled) => enabled,
            None => start.supports_web_search,
        },
        supports_vision: match bool_of(member(input, "supportsVision"@)) {
            Some(enabled) => enabled,
            None => start.supports_vision,
        },
        extra: with_member(
            with_member(
                with_member(start.extra, input, "modelDescriptions"@),
                input,
                "modelParameters"@,
            ),
            input,
            "capabilityOverrides"@,
        ),
        ..start
    }
}

/// Whether a request asks for the provider to be used from now on.
pub open spec fn wants_activation(input: JsonView) -> bool {
    bool_of(member(input, "activate"@)) == Some(true)
}

/// The settings that a request asks for, step by step; the first step that fails decides.
pub open spec fn requested_settings(
    document: ProviderDocumentView,
    input: JsonView,
    defaults: ProviderSettingsView,
    id: Seq<char>,
) -> Result<ProviderSettingsView, ApiErrorView> {
    let existing = lookup(document.providers, id);
    let start = match existing {
        Some(settings) => settings,
        None => defaults,
    };
    match windowed_settings(input, named_settings(id, input, existing, start)) {
        Err(error) => Err(error),
        Ok(sized) => match modelled_settings(id, input, sized, document.active == id) {
            Err(error) => Err(error),
            Ok(modelled) => {
                let settings = finished_settings(input, modelled);
                if settings.base_url.len() == 0 {
                    Err(bad_request("base URL is required"@))
                } else if wants_activation(input) && activation_verdict(settings) is Err {
                    Err(activation_verdict(settings)->Err_0)
                } else {
                    Ok(settings)
                }
            },
        },
    }
}

/// The provider that a request asks to save.
pub open spec fn requested_provider(
    document: ProviderDocumentView,
    input: JsonView,
    defaults: ProviderSettingsView,
) -> Result<ProviderUpsertView, ApiErrorView> {
    match filled_member(input, "id"@) {
        None => Err(bad_request("provider id is required"@)),
        Some(id) => match requested_settings(document, input, defaults, id) {
            Err(error) => Err(error),
            Ok(settings) => Ok(
                ProviderUpsertView { id, settings, activate: wants_activation(input) },
            ),
        },
    }
}

/// The document with a provider saved.
pub open spec fn with_provider(
    document: ProviderDocumentView,
    change: ProviderUpsertView,
) -> ProviderDocumentView {
    ProviderDocumentView {
        active: if change.activate {
            change.id
        } else {
            document.active
        },
        providers: put(document.providers, change.id, change.settings),
    }
}

fn apply_names(
    id: &str,
    input: &Json,
    existing: Option<&ProviderSettings>,
    start: ProviderSettings,
) -> (result: ProviderSettings)
    ensures
        result@ == named_settings(
            id@,
            input@,
            match existing {
                Some(item) => Some(item@),
                None => None,
            },
            start@,
        ),
{
    proof {
        reveal(named_settings);
    }
    let display = match string_field(input, "name") {
        Some(text) => text,
        None => match existing {
            Some(item) => item.display.clone(),
            None => String::new(),
        },
    };
    assert(existing is None && string_member(input@, "name"@) is None ==> display@ =~= Seq::<
        char,
    >::empty());
    let provider_type = match filled_field(input, "type") {
        Some(text) => text,
        None => start.provider_type.clone(),
    };
    let tool_protocol = match string_field(input, "toolProtocol") {
        Some(text) => text,
        None => provider_type.clone(),
    };
    ProviderSettings {
        display: if display.as_str().is_empty() {
            id.to_owned()
        } else {
            display
        },
        provider_type,
        tool_protocol: Some(tool_protocol),
        ..start
    }
}

/// A settings step, as its view.
pub open spec fn step_view(result: Result<ProviderSettings, ApiError>) -> Result<
    ProviderSettingsView,
    ApiErrorView,
> {
    match result {
        Ok(settings) => Ok(settings@),
        Err(error) => Err(error@),
    }
}

fn apply_windows(input: &Json, start: ProviderSettings) -> (result: Result<
    ProviderSettings,
    ApiError,
>)
    ensures
        step_view(result) == windowed_settings(input@, start@),
{
    proof {
        reveal(windowed_settings);
    }
    if !(same(&start.provider_type, "openai_compatible") || same(
        &start.provider_type,
        "openai_responses",
    ) || same(&start.provider_type, "anthropic_messages") || same(
        &start.provider_type,
        "gemini_native",
    )) {
        return Err(ApiError::bad_request("unsupported provider compatibility mode"));
    }
    let mut settings = start;
    match input.u64_member("contextWindow") {
        Some(value) => {
            if value < 32_000 || value > 1_048_576 {
                return Err(
                    ApiError::bad_request("context window must be between 32000 and 1048576"),
                );
            }
            settings.context_window = Some(value);
        },
        None => {
            if settings.context_window.is_none() {
                settings.context_window = Some(256_000);
            }
        },
    }
    if let Some(windows) = input.get("modelContextWindows") {
        match parse_model_context_windows(windows) {
            Ok(table) => {
                settings.model_context_windows = table;
            },
            Err(error) => {
                return Err(error);
            },
        }
    }
    Ok(settings)
}

fn apply_models(id: &str, input: &Json, start: ProviderSettings, active: bool) -> (result: Result<
    ProviderSettings,
    ApiError,
>)
    ensures
        step_view(result) == modelled_settings(id@, input@, start@, active),
{
    proof {
        reveal(modelled_settings);
    }
    let mut settings = start;
    settings.base_url = match filled_field(input, "baseUrl") {
        Some(text) => text,
        None => default_base_url(id),
    };
    match parse_model_array(input) {
        Err(error) => Err(error),
        Ok(Some(models)) => {
            assert(texts(models@).len() == models@.len());
            match apply_provider_models(&mut settings, &models, active) {
                Ok(_) => Ok(settings),
                Err(error) => Err(error),
            }
        },
        Ok(None) => {
            if let Some(model) = filled_field(input, "model") {
                settings.model = model;
            }
            if input.get("fastModel").is_some() {
                settings.fast_model = filled_field(input, "fastModel");
            }
            Ok(settings)
        },
    }
}

fn keep_member(extra: &mut Vec<(String, Json)>, input: &Json, key: &str)
    ensures
        pairs_of(final(extra)@) == with_member(pairs_of(old(extra)@), input@, key@),
{
    if let Some(value) = input.get(key) {
        table_put(extra, key.to_owned(), value.copy());
    }
}

fn apply_switches(input: &Json, start: ProviderSettings) -> (result: ProviderSettings)
    ensures
        result@ == finished_settings(input@, start@),
{
    proof {
        reveal(finished_settings);
    }
    let mut settings = start;
    if let Some(api_key) = filled_field(input, "apiKey") {
        settings.api_key = api_key;
    }
    if let Some(enabled) = input.bool_member("supportsWebSearch") {
        settings.supports_web_search = enabled;
    }
    if let Some(enabled) = input.bool_member("supportsVision") {
        settings.supports_vision = enabled;
    }
    keep_member(&mut settings.extra, input, "modelDescriptions");
    keep_member(&mut settings.extra, input, "modelParameters");
    keep_member(&mut settings.extra, input, "capabilityOverrides");
    settings
}

/// A prepared change, as its view.
pub open spec fn upsert_view(result: Result<ProviderUpsert, ApiError>) -> Result<
    ProviderUpsertView,
    ApiErrorView,
> {
    match result {
        Ok(change) => Ok(change@),
        Err(error) => Err(error@),
    }
}

/// Reads and checks a request to save a provider. Where the provider is to be used from now
/// on, its credentials are still to be tried before `commit_provider`.
pub fn upsert_provider(document: &ProviderDocument, input: &Json, defaults: &ProviderSettings) -> (result:
    Result<ProviderUpsert, ApiError>)
    ensures
        upsert_view(result) == requested_provider(document@, input@, defaults@),
{
    let id = match filled_field(input, "id") {
        Some(id) => id,
        None => {
            return Err(ApiError::bad_request("provider id is required"));
        },
    };
    let existing = table_get(&document.providers, &id);
    let start = match existing {
        Some(settings) => settings.duplicate(),
        None => defaults.duplicate(),
    };
    let named = apply_names(&id, input, existing, start);
    let sized = match apply_windows(input, named) {
        Ok(settings) => settings,
        Err(error) => {
            return Err(error);
        },
    };
    let modelled = match apply_models(&id, input, sized, same(&document.active, &id)) {
        Ok(settings) => settings,
        Err(error) => {
            return Err(error);
        },
    };
    let settings = apply_switches(input, modelled);
    if settings.base_url.as_str().is_empty() {
        return Err(ApiError::bad_request("base URL is required"));
    }
    let activate = match input.bool_member("activate") {
        Some(wanted) => wanted,
        None => false,
    };
    if activate {
        match validate_provider_activation(&settings) {
            Ok(_) => {},
            Err(error) => {
                return Err(error);
            },
        }
    }
    Ok(ProviderUpsert { id, settings, activate })
}

/// Saves a provider in the document.
pub fn commit_provider(document: &mut ProviderDocument, change: ProviderUpsert)
    ensures
        final(document)@ == with_provider(old(document)@, change@),
{
    if change.activate {
        document.active = change.id.clone();
    }
    table_put(&mut document.providers, change.id, change.settings);
}

// ---------------------------------------------------------------------------
// Removing, choosing, copying
// ---------------------------------------------------------------------------

/// The document without a provider. Where it was in use, the first that is left takes its
/// place.
pub open spec fn without_provider(
    document: ProviderDocumentView,
    id: Seq<char>,
) -> ProviderDocumentView {
    let left = without(document.providers, id);
    ProviderDocumentView {
        active: if document.active == id {
            if left.len() == 0 {
                Seq::empty()
            } else {
                left[0].0
            }
        } else {
            document.active
        },
        providers: left,
    }
}

/// Removes a provider from the document.
pub fn remove_provider(document: &mut ProviderDocument, id: &str)
    ensures
        final(document)@ == without_provider(old(document)@, id@),
{
    table_remove(&mut document.providers, id);
    if same(&document.active, id) {
        assert(pairs_of(document.providers@).len() == document.providers@.len());
        if document.providers.len() == 0 {
            document.active = String::new();
            assert(document.active@ =~= Seq::<char>::empty());
        } else {
            document.active = document.providers[0].0.clone();
        }
    }
}

/// Removes a provider on request. Tells whether there was one; a request for an unknown
/// provider changes nothing.
pub fn delete_provider(document: &mut ProviderDocument, id: &str) -> (deleted: bool)
    ensures
        deleted == (lookup(old(document)@.providers, id@) is Some),
        final(document)@ == if deleted {
            without_provider(old(document)@, id@)
        } else {
            old(document)@
        },
{
    if table_get(&document.providers, id).is_none() {
        return false;
    }
    remove_provider(document, id);
    true
}

/// The provider that a request asks to use.
pub open spec fn activation_candidate(document: ProviderDocumentView, id: Seq<char>) -> Result<
    ProviderSettingsView,
    ApiErrorView,
> {
    match lookup(document.providers, id) {
        None => Err(not_found("provider not found"@)),
        Some(provider) => match activation_verdict(provider) {
            Ok(_) => Ok(provider),
            Err(error) => Err(error),
        },
    }
}

/// Finds and checks the provider that a request asks to use. Its credentials are still to be
/// tried.
pub fn activate_provider(document: &ProviderDocument, id: &str) -> (result: Result<
    ProviderSettings,
    ApiError,
>)
    ensures
        step_view(result) == activation_candidate(document@, id@),
{
    match table_get(&document.providers, id) {
        None => Err(ApiError::not_found("provider not found")),
        Some(provider) => match validate_provider_activation(provider) {
            Ok(_) => Ok(provider.duplicate()),
            Err(error) => Err(error),
        },
    }
}

/// The provider with the model that a request chooses.
pub open spec fn model_candidate(
    document: ProviderDocumentView,
    id: Seq<char>,
    body: JsonView,
) -> Result<ProviderSettingsView, ApiErrorView> {
    match filled_member(body, "model"@) {
        None => Err(bad_request("model is required"@)),
        Some(model) => match lookup(document.providers, id) {
            None => Err(not_found("provider not found"@)),
            Some(provider) => if !models_of(provider).contains(model) {
                Err(bad_request("model is not declared for this provider"@))
            } else {
                let chosen = ProviderSettingsView { model, ..provider };
                match activation_verdict(chosen) {
                    Ok(_) => Ok(chosen),
                    Err(error) => Err(error),
                }
            },
        },
    }
}

/// Finds and checks the provider with the model that a request chooses. Its credentials are
/// still to be tried.
pub fn select_provider_model(document: &ProviderDocument, id: &str, body: &Json) -> (result: Result<
    ProviderSettings,
    ApiError,
>)
    ensures
        step_view(result) == model_candidate(document@, id@, body@),
{
    let model = match filled_field(body, "model") {
        Some(model) => model,
        None => {
            return Err(ApiError::bad_request("model is required"));
        },
    };
    match table_get(&document.providers, id) {
        None => Err(ApiError::not_found("provider not found")),
        Some(provider) => {
            if !list_has(&provider_models(provider), &model) {
                return Err(ApiError::bad_request("model is not declared for this provider"));
            }
            let mut chosen = provider.duplicate();
            chosen.model = model;
            match validate_provider_activation(&chosen) {
                Ok(_) => Ok(chosen),
                Err(error) => Err(error),
            }
        },
    }
}

/// What trying the credentials of a provider comes to, given the models that it offered.
pub open spec fn credentials_verdict(
    provider: ProviderSettingsView,
    offered: Result<Seq<Seq<char>>, ApiErrorView>,
) -> Result<(), ApiErrorView> {
    match offered {
        Err(error) => Err(
            bad_gateway("provider credential verification failed: "@ + error.message),
        ),
        Ok(models) => {
            let chosen = trimmed(provider.model);
            if chosen.len() > 0 && !models.contains(chosen) {
                Err(
                    bad_gateway(
                        "provider credential verification succeeded, but model `"@ + chosen
                            + "` is not available"@,
                    ),
                )
            } else {
                Ok(())
            }
        },
    }
}

/// A list of models or an error, as its view.
pub open spec fn list_view(result: Result<Vec<String>, ApiError>) -> Result<
    Seq<Seq<char>>,
    ApiErrorView,
> {
    match result {
        Ok(list) => Ok(texts(list@)),
        Err(error) => Err(error@),
    }
}

/// Judges the credentials of a provider by the models that it offered.
pub fn verify_provider_credentials(
    provider: &ProviderSettings,
    offered: Result<Vec<String>, ApiError>,
) -> (result: Result<(), ApiError>)
    ensures
        verdict(result) == credentials_verdict(provider@, list_view(offered)),
{
    match offered {
        Err(error) => Err(
            ApiError::bad_gateway(
                &"provider credential verification failed: ".to_owned().concat(&error.message),
            ),
        ),
        Ok(models) => {
            let chosen = trim(&provider.model);
            if !chosen.as_str().is_empty() && !list_has(&models, &chosen) {
                let mut message =
                    "provider credential verification succeeded, but model `".to_owned();
                message.push_str(&chosen);
                message.push_str("` is not available");
                return Err(ApiError::bad_gateway(&message));
            }
            Ok(())
        },
    }
}

/// The names that a copy of a provider is tried under: the first has no number, the next
/// ones count from two.
pub open spec fn copy_name(id: Seq<char>, number: nat) -> Seq<char> {
    if number < 2 {
        id + "-copy"@
    } else {
        id + "-copy"@ + "-"@ + decimal(number)
    }
}

/// Whether `number` is the first number whose name is free.
pub open spec fn first_free(providers: Seq<(Seq<char>, ProviderSettingsView)>, id: Seq<char>, number: nat)
    -> bool {
    &&& 1 <= number
    &&& lookup(providers, copy_name(id, number)) is None
    &&& forall|k: nat|
        1 <= k < number ==> lookup(providers, #[trigger] copy_name(id, k)) is Some
}

/// Finds the name of a copy of a provider: the first that is free. Nothing comes back where
/// all numbers are taken.
fn free_copy_name(document: &ProviderDocument, id: &str) -> (result: Option<String>)
    ensures
        match result {
            Some(name) => exists|number: nat|
                first_free(document@.providers, id@, number) && name@ == #[trigger] copy_name(
                    id@,
                    number,
                ),
            None => forall|k: nat|
                1 <= k <= usize::MAX ==> lookup(document@.providers, #[trigger] copy_name(id@, k)) is Some,
        },
{
    let base = id.to_owned().concat("-copy");
    if table_get(&document.providers, &base).is_none() {
        assert(copy_name(id@, 1) == base@);
        assert(first_free(document@.providers, id@, 1));
        return Some(base);
    }
    let mut suffix: usize = 2;
    loop
        invariant
            suffix >= 2,
            base@ == id@ + "-copy"@,
            forall|k: nat|
                1 <= k < suffix ==> lookup(document@.providers, #[trigger] copy_name(id@, k)) is Some,
        decreases usize::MAX - suffix,
    {
        let mut name = base.clone();
        name.push_str("-");
        name.push_str(&print_usize(suffix));
        assert(name@ == copy_name(id@, suffix as nat));
        if table_get(&document.providers, &name).is_none() {
            assert(first_free(document@.providers, id@, suffix as nat));
            return Some(name);
        }
        if suffix == usize::MAX {
            return None;
        }
        suffix = suffix + 1;
    }
}

/// Copies a provider under the first free name. Returns the name.
pub fn copy_provider(document: &mut ProviderDocument, id: &str) -> (result: Result<String, ApiError>)
    ensures
        match result {
            Ok(name) => {
                &&& lookup(old(document)@.providers, id@) is Some
                &&& exists|number: nat|
                    first_free(old(document)@.providers, id@, number) && name@
                        == #[trigger] copy_name(id@, number)
                &&& final(document)@ == (ProviderDocumentView {
                    providers: put(
                        old(document)@.providers,
                        name@,
                        lookup(old(document)@.providers, id@)->0,
                    ),
                    ..old(document)@
                })
            },
            Err(error) => {
                &&& final(document)@ == old(document)@
                &&& lookup(old(document)@.providers, id@) is None ==> error@ == not_found(
                    "provider not found"@,
                )
                &&& lookup(old(document)@.providers, id@) is Some ==> forall|k: nat|
                    1 <= k <= usize::MAX ==> lookup(
                        old(document)@.providers,
                        #[trigger] copy_name(id@, k),
                    ) is Some
            },
        },
{
    let source = match table_get(&document.providers, id) {
        None => {
            return Err(ApiError::not_found("provider not found"));
        },
        Some(provider) => provider.duplicate(),
    };
    match free_copy_name(document, id) {
        None => Err(ApiError::internal("no free provider id")),
        Some(name) => {
            table_put(&mut document.providers, name.clone(), source);
            Ok(name)
        },
    }
}

/// The key of a provider.
pub fn reveal_provider_key(document: &ProviderDocument, id: &str) -> (result: Result<
    String,
    ApiError,
>)
    ensures
        match result {
            Ok(key) => lookup(document@.providers, id@) is Some && key@ == lookup(
                document@.providers,
                id@,
            )->0.api_key,
            Err(error) => lookup(document@.providers, id@) is None && error@ == not_found(
                "provider not found"@,
            ),
        },
{
    match table_get(&document.providers, id) {
        None => Err(ApiError::not_found("provider not found")),
        Some(provider) => Ok(provider.api_key.clone()),
    }
}

// ---------------------------------------------------------------------------
// Discovered models
// ---------------------------------------------------------------------------

/// A text without a prefix.
pub open spec fn without_prefix(s: Seq<char>, prefix: Seq<char>) -> Seq<char> {
    if starts_with(s, prefix) {
        s.skip(prefix.len() as int)
    } else {
        s
    }
}

/// The name of a model in an answer: its id, else its name. An id that is no text hides the
/// name.
pub open spec fn entry_model(entry: JsonView) -> Option<Seq<char>> {
    let named = if member(entry, "id"@) is Some {
        member(entry, "id"@)
    } else {
        member(entry, "name"@)
    };
    match text_of(named) {
        Some(text) => {
            let model = without_prefix(text, "models/"@);
            if model.len() == 0 {
                None
            } else {
                Some(model)
            }
        },
        None => None,
    }
}

/// The names of the models in an answer.
pub open spec fn entry_models(entries: Seq<JsonView>) -> Seq<Seq<char>>
    decreases entries.len(),
{
    if entries.len() == 0 {
        Seq::empty()
    } else {
        let before = entry_models(entries.drop_last());
        match entry_model(entries.last()) {
            Some(model) => before.push(model),
            None => before,
        }
    }
}

/// The models in an answer: in order, each once.
pub open spec fn answered_models(answer: JsonView) -> Result<Seq<Seq<char>>, ApiErrorView> {
    let list = if member(answer, "data"@) is Some {
        member(answer, "data"@)
    } else {
        member(answer, "models"@)
    };
    match list {
        Some(JsonView::Array(entries)) => Ok(distinct(in_order(entry_models(entries)))),
        _ => Err(bad_gateway("model response has no data/models array"@)),
    }
}

/// The name of a model in an answer.
fn read_entry(entry: &Json) -> (result: Option<String>)
    ensures
        opt(result) == entry_model(entry@),
{
    let named = match entry.get("id") {
        Some(value) => Some(value),
        None => entry.get("name"),
    };
    match named {
        Some(value) => match value.as_text() {
            Some(text) => {
                let model = if begins(text, "models/") {
                    let count: usize = text.unicode_len();
                    let skip: usize = "models/".unicode_len();
                    let rest = text.substring_char(skip, count).to_owned();
                    assert(rest@ =~= text@.skip("models/"@.len() as int));
                    rest
                } else {
                    text.to_owned()
                };
                if model.as_str().is_empty() {
                    None
                } else {
                    Some(model)
                }
            },
            None => None,
        },
        None => None,
    }
}

/// Reads the models in an answer.
pub fn models_in_answer(answer: &Json) -> (result: Result<Vec<String>, ApiError>)
    ensures
        list_view(result) == answered_models(answer@),
{
    let list = match answer.get("data") {
        Some(value) => Some(value),
        None => answer.get("models"),
    };
    match list {
        Some(Json::Array(entries)) => {
            let mut models: Vec<String> = Vec::new();
            let mut i: usize = 0;
            while i < entries.len()
                invariant
                    i <= entries@.len(),
                    texts(models@) == entry_models(trees(entries@).take(i as int)),
                decreases entries@.len() - i,
            {
                let ghost part = trees(entries@).take(i + 1);
                assert(part.drop_last() =~= trees(entries@).take(i as int));
                assert(part.last() == entries@[i as int]@);
                if let Some(model) = read_entry(&entries[i]) {
                    models.push(model);
                }
                i = i + 1;
            }
            assert(trees(entries@).take(i as int) =~= trees(entries@));
            Ok(keep_distinct(&sort_texts(models)))
        },
        _ => Err(ApiError::bad_gateway("model response has no data/models array")),
    }
}

/// Reads the models in the body of an answer.
pub fn models_in_body(body: &[u8]) -> (result: Result<Vec<String>, ApiError>)
    ensures
        list_view(result) == match json_document(body@) {
            Ok(answer) => answered_models(answer),
            Err(message) => Err(bad_gateway("invalid model response: "@ + message)),
        },
{
    match parse_json(body) {
        Ok(answer) => models_in_answer(&answer),
        Err(message) => Err(
            ApiError::bad_gateway(&"invalid model response: ".to_owned().concat(&message)),
        ),
    }
}

/// An address without the slashes at its end.
pub open spec fn without_slashes(url: Seq<char>) -> Seq<char>
    decreases url.len(),
{
    if url.len() > 0 && url.last() == '/' {
        without_slashes(url.drop_last())
    } else {
        url
    }
}

/// Returns the address of a provider without the slashes at its end, or an error where
/// nothing is left.
pub fn discovery_base(provider: &ProviderSettings) -> (result: Result<String, ApiError>)
    ensures
        ({
            let base = without_slashes(provider@.base_url);
            match result {
                Ok(text) => text@ == base && base.len() > 0,
                Err(error) => base.len() == 0 && error@ == bad_request("base URL is required"@),
            }
        }),
{
    let chars = chars_of(&provider.base_url);
    let mut end: usize = chars.len();
    assert(chars@.take(end as int) =~= chars@);
    while end > 0 && chars[end - 1] == '/'
        invariant
            end <= chars@.len(),
            chars@ == provider@.base_url,
            without_slashes(chars@) == without_slashes(chars@.take(end as int)),
        decreases end,
    {
        assert(chars@.take(end as int).last() == chars@[end - 1]);
        assert(chars@.take(end as int).drop_last() =~= chars@.take(end - 1));
        end = end - 1;
    }
    if end == 0 {
        return Err(ApiError::bad_request("base URL is required"));
    }
    assert(chars@.take(end as int).last() == chars@[end - 1]);
    let base = take_chars(&provider.base_url, end);
    assert(base@ =~= chars@.take(end as int));
    Ok(base)
}

/// Takes over the models that were discovered, where they are to be kept.
pub fn discover_provider_models(
    document: &mut ProviderDocument,
    id: &str,
    models: &Vec<String>,
    persist: bool,
) -> (result: Result<(), ApiError>)
    ensures
        verdict(result) == if models@.len() == 0 {
            Err(bad_request("provider returned no available models"@))
        } else {
            Ok(())
        },
        final(document)@ == if models@.len() > 0 && persist && lookup(
            old(document)@.providers,
            id@,
        ) is Some {
            ProviderDocumentView {
                providers: put(
                    old(document)@.providers,
                    id@,
                    with_models(lookup(old(document)@.providers, id@)->0, texts(models@)),
                ),
                ..old(document)@
            }
        } else {
            old(document)@
        },
{
    if models.len() == 0 {
        return Err(ApiError::bad_request("provider returned no available models"));
    }
    if persist {
        let found = match table_get(&document.providers, id) {
            Some(provider) => Some(provider.duplicate()),
            None => None,
        };
        if let Some(mut provider) = found {
            replace_provider_models(&mut provider, models);
            table_put(&mut document.providers, id.to_owned(), provider);
        }
    }
    Ok(())
}

// ---------------------------------------------------------------------------
// Showing a provider
// ---------------------------------------------------------------------------

/// A member that is passed on, or an empty object.
pub open spec fn extra_or_empty(provider: ProviderSettingsView, key: Seq<char>) -> JsonView {
    match lookup(provider.extra, key) {
        Some(value) => value,
        None => JsonView::Object(Seq::empty()),
    }
}

/// Context windows as an object.
pub open spec fn window_data(windows: Seq<(Seq<char>, u64)>) -> JsonView {
    JsonView::Object(
        Seq::new(
            windows.len(),
            |i: int| (windows[i].0, JsonView::Number(decimal(windows[i].1 as nat))),
        ),
    )
}

/// A provider as clients see it.
#[verifier::opaque]
pub open spec fn provider_data(id: Seq<char>, provider: ProviderSettingsView, active: bool) -> JsonView {
    JsonView::Object(
        seq![
            (
                "id"@,
                JsonView::Text(id),
            ),
            (
                "name"@,
                JsonView::Text(
                    if provider.display.len() == 0 {
                        id
                    } else {
                        provider.display
                    },
                ),
            ),
            ("apiKeyMasked"@, JsonView::Text(masked(provider.api_key))),
            ("hasKey"@, JsonView::Bool(provider.api_key.len() > 0)),
            ("models"@, JsonView::Array(text_values(models_of(provider)))),
            ("baseUrl"@, JsonView::Text(provider.base_url)),
            ("type"@, JsonView::Text(provider.provider_type)),
            ("model"@, JsonView::Text(provider.model)),
            ("fastModel"@, nullable_text(provider.fast_model)),
            ("toolProtocol"@, nullable_text(provider.tool_protocol)),
            (
                "contextWindow"@,
                JsonView::Number(
                    decimal(
                        match provider.context_window {
                            Some(window) => window as nat,
                            None => 256_000,
                        },
                    ),
                ),
            ),
            ("modelContextWindows"@, window_data(provider.model_context_windows)),
            ("supportsWebSearch"@, JsonView::Bool(provider.supports_web_search)),
            ("supportsVision"@, JsonView::Bool(provider.supports_vision)),
            ("modelDescriptions"@, extra_or_empty(provider, "modelDescriptions"@)),
            ("modelParameters"@, extra_or_empty(provider, "modelParameters"@)),
            ("capabilityOverrides"@, extra_or_empty(provider, "capabilityOverrides"@)),
            ("active"@, JsonView::Bool(active)),
        ],
    )
}

fn show_windows(windows: &Vec<(String, u64)>) -> (result: Json)
    ensures
        result@ == window_data(pairs_of(windows@)),
{
    let ghost wanted = window_data(pairs_of(windows@))->Object_0;
    let mut fields = Fields::new();
    let mut i: usize = 0;
    assert(wanted.take(0) =~= Seq::empty());
    while i < windows.len()
        invariant
            i <= windows@.len(),
            wanted == window_data(pairs_of(windows@))->Object_0,
            fields@ == wanted.take(i as int),
        decreases windows@.len() - i,
    {
        fields.add(&windows[i].0, Json::number(windows[i].1));
        assert(wanted.take(i + 1) =~= wanted.take(i as int).push(wanted[i as int]));
        i = i + 1;
    }
    assert(wanted.take(i as int) =~= wanted);
    fields.done()
}

fn show_extra(provider: &ProviderSettings, key: &str) -> (result: Json)
    ensures
        result@ == extra_or_empty(provider@, key@),
{
    match table_get(&provider.extra, key) {
        Some(value) => value.copy(),
        None => Fields::new().done(),
    }
}

/// Shows a provider as clients see it.
pub fn provider_json(id: &str, provider: &ProviderSettings, active: bool) -> (result: Json)
    ensures
        result@ == provider_data(id@, provider@, active),
{
    let name = if provider.display.as_str().is_empty() {
        id.to_owned()
    } else {
        provider.display.clone()
    };
    let window: u64 = match provider.context_window {
        Some(window) => window,
        None => 256_000,
    };
    let mut fields = Fields::new();
    fields.add("id", Json::text(id));
    fields.add("name", Json::Text(name));
    fields.add("apiKeyMasked", Json::Text(mask_key(&provider.api_key)));
    fields.add("hasKey", Json::Bool(!provider.api_key.as_str().is_empty()));
    fields.add("models", text_array(&provider_models(provider)));
    fields.add("baseUrl", Json::text(&provider.base_url));
    fields.add("type", Json::text(&provider.provider_type));
    fields.add("model", Json::text(&provider.model));
    fields.add("fastModel", text_or_null(&provider.fast_model));
    fields.add("toolProtocol", text_or_null(&provider.tool_protocol));
    fields.add("contextWindow", Json::number(window));
    fields.add("modelContextWindows", show_windows(&provider.model_context_windows));
    fields.add("supportsWebSearch", Json::Bool(provider.supports_web_search));
    fields.add("supportsVision", Json::Bool(provider.supports_vision));
    fields.add("modelDescriptions", show_extra(provider, "modelDescriptions"));
    fields.add("modelParameters", show_extra(provider, "modelParameters"));
    fields.add("capabilityOverrides", show_extra(provider, "capabilityOverrides"));
    fields.add("active", Json::Bool(active));
    proof {
        reveal(provider_data);
        assert(fields@ =~= provider_data(id@, provider@, active)->Object_0);
    }
    fields.done()
}

// ---------------------------------------------------------------------------
// Laws
// ---------------------------------------------------------------------------

/// What clients see of a provider shows no more of its key than the mask and whether there
/// is one: two keys that agree on these cannot be told apart.
pub proof fn shown_providers_hide_the_key(
    id: Seq<char>,
    provider: ProviderSettingsView,
    other_key: Seq<char>,
    active: bool,
)
    requires
        masked(other_key) == masked(provider.api_key),
        (other_key.len() == 0) == (provider.api_key.len() == 0),
    ensures
        provider_data(id, ProviderSettingsView { api_key: other_key, ..provider }, active)
            == provider_data(id, provider, active),
{
    reveal(provider_data);
    let other = ProviderSettingsView { api_key: other_key, ..provider };
    assert(provider_data(id, other, active)->Object_0 =~= provider_data(
        id,
        provider,
        active,
    )->Object_0);
}

/// The mask of a long key shows its last four characters and nothing else.
pub proof fn masks_show_four_characters(key: Seq<char>, other: Seq<char>)
    requires
        key.len() > 4,
        other.len() > 4,
        key.skip(key.len() - 4) == other.skip(other.len() - 4),
    ensures
        masked(key) == masked(other),
{
}

/// Models that a provider was given are its models.
pub proof fn given_models_are_kept(provider: ProviderSettingsView, models: Seq<Seq<char>>)
    requires
        models.len() > 0,
        forall|i: int|
            0 <= i < models.len() ==> (#[trigger] models[i]).len() > 0 && trimmed(models[i])
                == models[i],
    ensures
        models_of(with_models(provider, models)) == models,
        activation_verdict(with_models(provider, models)) is Err ==> is_blank(provider.api_key)
            || is_blank(models[0]),
{
    let after = with_models(provider, models);
    put_is_found(provider.extra, "models"@, JsonView::Array(text_values(models)), "models"@);
    written_models_are_read(models);
    assert(declared_models(after) == models);
    assert(models.contains(models[0]));
    if models.len() > 1 {
        assert(models.contains(models[1]));
    }
}

/// Trimmed texts that are written as values are read back.
proof fn written_models_are_read(models: Seq<Seq<char>>)
    requires
        forall|i: int|
            0 <= i < models.len() ==> (#[trigger] models[i]).len() > 0 && trimmed(models[i])
                == models[i],
    ensures
        trimmed_texts(text_values(models)) == models,
    decreases models.len(),
{
    if models.len() == 0 {
        assert(trimmed_texts(text_values(models)) =~= models);
    } else {
        let before = models.drop_last();
        assert forall|i: int| 0 <= i < before.len() implies (#[trigger] before[i]).len() > 0
            && trimmed(before[i]) == before[i] by {
            assert(before[i] == models[i]);
        }
        written_models_are_read(before);
        assert(text_values(models).drop_last() =~= text_values(before));
        assert(models[models.len() - 1].len() > 0);
        assert(trimmed_texts(text_values(models)) =~= before.push(models.last()));
        assert(before.push(models.last()) =~= models);
    }
}

/// A saved provider is found under its id, the others stay, and the one in use changes only
/// where the request asks for it.
pub proof fn saving_touches_one_provider(
    document: ProviderDocumentView,
    change: ProviderUpsertView,
    other: Seq<char>,
)
    ensures
        lookup(with_provider(document, change).providers, change.id) == Some(change.settings),
        other != change.id ==> lookup(with_provider(document, change).providers, other) == lookup(
            document.providers,
            other,
        ),
        !change.activate ==> with_provider(document, change).active == document.active,
{
    put_is_found(document.providers, change.id, change.settings, other);
}

/// A provider that may be saved for use has a key and a model, and declares the model where
/// it has a list.
pub proof fn activated_providers_are_usable(
    document: ProviderDocumentView,
    input: JsonView,
    defaults: ProviderSettingsView,
)
    ensures
        match requested_provider(document, input, defaults) {
            Ok(change) => change.activate ==> activation_verdict(change.settings) is Ok
                && !is_blank(change.settings.api_key) && !is_blank(change.settings.model),
            Err(_) => true,
        },
{
}

/// The provider in use cannot lose its last model by a request that lists models.
pub proof fn the_active_provider_keeps_a_model(
    document: ProviderDocumentView,
    input: JsonView,
    defaults: ProviderSettingsView,
)
    requires
        requested_models(input) == Ok::<Option<Seq<Seq<char>>>, ApiErrorView>(Some(Seq::empty())),
        filled_member(input, "id"@) == Some(document.active),
    ensures
        requested_provider(document, input, defaults) is Err,
{
    reveal(modelled_settings);
}

} // verus!
