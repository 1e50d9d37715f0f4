//! The helpers that a conversation can hand tasks to: their settings.

use vstd::prelude::*;
use crate::agents::ConfiguredSubAgent;
use crate::agents::ConfiguredSubAgentView;
use crate::agents::ProviderRef;
use crate::agents::ProviderRefView;
use crate::api::ApiError;
use crate::api::ApiErrorView;
use crate::api::bad_request;
use crate::json::Json;
use crate::json::JsonView;
use crate::json::array_view;
use crate::json::member;
use crate::json::nullable_text;
use crate::json::text_of;
use crate::json::trees;
use crate::json_ops::Fields;
use crate::json_ops::assigned;
use crate::json_ops::text_or_null;
use crate::provider::ProviderDocument;
use crate::provider::ProviderDocumentView;
use crate::provider::ProviderSettings;
use crate::provider::ProviderSettingsView;
use crate::provider::models_of;
use crate::provider::provider_models;
use crate::table::lookup;
use crate::table::pairs_of;
use crate::table::table_get;
use crate::table::table_remove;
use crate::table::without;
use crate::text::blank;
use crate::text::is_blank;
use crate::text::list_has;
use crate::text::same;
use crate::text::texts_empty;
use crate::text::texts_push;
use crate::text::trim;
use crate::text::trimmed;
use crate::text::trimmed_twice;
use crate::views::Duplicate;
use crate::views::duplicate_all;
use crate::views::duplicate_opt;
use crate::views::opt;
use crate::views::views;
use crate::views::views_add;
use crate::views::views_empty;
use crate::views::views_push;

verus! {

broadcast use {texts_push, texts_empty, views_push, views_empty, array_view};

/// A configured helper.
#[derive(Debug)]
pub struct SubAgentEntry {
    pub id: String,
    pub provider_id: String,
    pub model: String,
    pub description: String,
}

/// What a `SubAgentEntry` holds.
#[verifier::ext_equal]
pub struct SubAgentEntryView {
    pub id: Seq<char>,
    pub provider_id: Seq<char>,
    pub model: Seq<char>,
    pub description: Seq<char>,
}

impl View for SubAgentEntry {
    type V = SubAgentEntryView;

    open spec fn view(&self) -> SubAgentEntryView {
        SubAgentEntryView {
            id: self.id@,
            provider_id: self.provider_id@,
            model: self.model@,
            description: self.description@,
        }
    }
}

impl Duplicate for SubAgentEntry {
    fn duplicate(&self) -> (result: Self) {
        SubAgentEntry {
            id: self.id.clone(),
            provider_id: self.provider_id.clone(),
            model: self.model.clone(),
            description: self.description.clone(),
        }
    }
}

/// The configured helpers and the one that is used where none is named.
#[derive(Debug)]
pub struct SubAgentSettings {
    pub agents: Vec<SubAgentEntry>,
    pub fallback_id: Option<String>,
}

/// What a `SubAgentSettings` holds.
#[verifier::ext_equal]
pub struct SubAgentSettingsView {
    pub agents: Seq<SubAgentEntryView>,
    pub fallback_id: Option<Seq<char>>,
}

impl View for SubAgentSettings {
    type V = SubAgentSettingsView;

    open spec fn view(&self) -> SubAgentSettingsView {
        SubAgentSettingsView {
            agents: views(self.agents@),
            fallback_id: opt(self.fallback_id),
        }
    }
}

impl Duplicate for SubAgentSettings {
    fn duplicate(&self) -> (result: Self) {
        SubAgentSettings {
            agents: duplicate_all(&self.agents),
            fallback_id: duplicate_opt(&self.fallback_id),
        }
    }
}

/// What moving the helpers out of the providers came to.
#[derive(Debug)]
pub struct SubAgentMigration {
    pub settings: SubAgentSettings,
    /// Whether the settings are to be stored.
    pub store: bool,
    /// Whether the providers are to be stored.
    pub document_changed: bool,
}

/// What a `SubAgentMigration` holds.
#[verifier::ext_equal]
pub struct SubAgentMigrationView {
    pub settings: SubAgentSettingsView,
    pub store: bool,
    pub document_changed: bool,
}

impl View for SubAgentMigration {
    type V = SubAgentMigrationView;

    open spec fn view(&self) -> SubAgentMigrationView {
        SubAgentMigrationView {
            settings: self.settings@,
            store: self.store,
            document_changed: self.document_changed,
        }
    }
}

impl Duplicate for SubAgentMigration {
    fn duplicate(&self) -> (result: Self) {
        SubAgentMigration {
            settings: self.settings.duplicate(),
            store: self.store,
            document_changed: self.document_changed,
        }
    }
}

// ---------------------------------------------------------------------------
// Reading
// ---------------------------------------------------------------------------

/// The helpers that settings hold. `agents` is the parsed list, where it could be parsed.
pub open spec fn stored_helpers(
    settings: JsonView,
    agents: Option<Seq<SubAgentEntryView>>,
) -> SubAgentSettingsView {
    SubAgentSettingsView {
        agents: match agents {
            Some(list) => list,
            None => Seq::empty(),
        },
        fallback_id: text_of(member(settings, "fallback_sub_agent_id"@)),
    }
}

/// A parsed list that may be absent, as its view.
pub open spec fn parsed_list(list: Option<Vec<SubAgentEntry>>) -> Option<Seq<SubAgentEntryView>> {
    match list {
        Some(entries) => Some(views(entries@)),
        None => None,
    }
}

/// Reads the helpers that settings hold.
pub fn read_subagent_settings(settings: &Json, agents: Option<Vec<SubAgentEntry>>) -> (result:
    SubAgentSettings)
    ensures
        result@ == stored_helpers(settings@, parsed_list(agents)),
{
    SubAgentSettings {
        agents: match agents {
            Some(list) => list,
            None => Vec::new(),
        },
        fallback_id: settings.text_member("fallback_sub_agent_id"),
    }
}

/// The text that a provider and a model are looked up by.
pub fn subagent_selector(entry: &SubAgentEntry) -> (result: String)
    ensures
        result@ == entry@.provider_id + ":"@ + entry@.model,
{
    let mut selector = entry.provider_id.clone();
    selector.push_str(":");
    selector.push_str(&entry.model);
    selector
}

/// The helpers whose provider was found. `found` stands beside the entries.
pub open spec fn found_helpers(
    entries: Seq<SubAgentEntryView>,
    found: Seq<Option<ProviderRefView>>,
) -> Seq<ConfiguredSubAgentView>
    decreases entries.len(),
{
    if entries.len() == 0 || found.len() == 0 {
        Seq::empty()
    } else {
        let rest = found_helpers(entries.skip(1), found.skip(1));
        match found[0] {
            Some(provider) => seq![
                ConfiguredSubAgentView {
                    id: entries[0].id,
                    provider,
                    description: entries[0].description,
                },
            ] + rest,
            None => rest,
        }
    }
}

/// Whether a helper has an id.
pub open spec fn has_helper(helpers: Seq<ConfiguredSubAgentView>, id: Seq<char>) -> bool {
    exists|i: int| 0 <= i < helpers.len() && (#[trigger] helpers[i]).id == id
}

/// The helper that is used where none is named: the chosen one where it was found, else the
/// first.
pub open spec fn usable_fallback(
    helpers: Seq<ConfiguredSubAgentView>,
    chosen: Option<Seq<char>>,
) -> Option<Seq<char>> {
    if chosen is Some && has_helper(helpers, chosen->0) {
        chosen
    } else if helpers.len() > 0 {
        Some(helpers[0].id)
    } else {
        None
    }
}

/// Providers that may be absent, as their views.
pub open spec fn provider_views(found: Seq<Option<ProviderRef>>) -> Seq<Option<ProviderRefView>> {
    Seq::new(found.len(), |i: int| opt(found[i]))
}

/// Pairs the entries with the providers that were found for them.
pub fn resolve_configured_subagents(
    settings: &SubAgentSettings,
    found: &Vec<Option<ProviderRef>>,
) -> (result: (Vec<ConfiguredSubAgent>, Option<String>))
    ensures
        views(result.0@) == found_helpers(settings@.agents, provider_views(found@)),
        opt(result.1) == usable_fallback(views(result.0@), settings@.fallback_id),
{
    let ghost entries = settings@.agents;
    let ghost providers = provider_views(found@);
    let mut resolved: Vec<ConfiguredSubAgent> = Vec::new();
    let mut i: usize = 0;
    assert(entries.skip(0) =~= entries);
    assert(providers.skip(0) =~= providers);
    assert(views(resolved@) + found_helpers(entries, providers) =~= found_helpers(entries, providers));
    while i < settings.agents.len() && i < found.len()
        invariant
            i <= settings.agents.len(),
            i <= found.len(),
            entries == settings@.agents,
            providers == provider_views(found@),
            found_helpers(entries, providers) == views(resolved@) + found_helpers(
                entries.skip(i as int),
                providers.skip(i as int),
            ),
        decreases found.len() - i,
    {
        let ghost before = views(resolved@);
        assert(entries.skip(i as int).skip(1) =~= entries.skip(i + 1));
        assert(providers.skip(i as int).skip(1) =~= providers.skip(i + 1));
        let entry = &settings.agents[i];
        assert(entries.skip(i as int)[0] == entry@);
        assert(providers.skip(i as int)[0] == opt(found@[i as int]));
        if let Some(provider) = &found[i] {
            resolved.push(
                ConfiguredSubAgent {
                    id: entry.id.clone(),
                    provider: provider.duplicate(),
                    description: entry.description.clone(),
                },
            );
            assert(views(resolved@) + found_helpers(entries.skip(i + 1), providers.skip(i + 1))
                =~= before + found_helpers(entries.skip(i as int), providers.skip(i as int)));
        }
        i = i + 1;
    }
    assert(views(resolved@) =~= found_helpers(entries, providers));
    let fallback = choose_fallback(&resolved, &settings.fallback_id);
    (resolved, fallback)
}

fn choose_fallback(helpers: &Vec<ConfiguredSubAgent>, chosen: &Option<String>) -> (result: Option<
    String,
>)
    ensures
        opt(result) == usable_fallback(views(helpers@), opt(*chosen)),
{
    if let Some(id) = chosen {
        let mut i: usize = 0;
        while i < helpers.len()
            invariant
                i <= helpers@.len(),
                opt(*chosen) == Some(id@),
                forall|k: int| 0 <= k < i ==> (#[trigger] views(helpers@)[k]).id != id@,
            decreases helpers@.len() - i,
        {
            if same(&helpers[i].id, id) {
                assert(views(helpers@)[i as int].id == id@);
                return Some(id.clone());
            }
            i = i + 1;
        }
    }
    if helpers.len() > 0 {
        Some(helpers[0].id.clone())
    } else {
        None
    }
}

// ---------------------------------------------------------------------------
// Checking
// ---------------------------------------------------------------------------

/// An entry without white space at the ends of its texts.
pub open spec fn tidy_entry(entry: SubAgentEntryView) -> SubAgentEntryView {
    SubAgentEntryView {
        id: trimmed(entry.id),
        provider_id: trimmed(entry.provider_id),
        model: trimmed(entry.model),
        description: trimmed(entry.description),
    }
}

/// Entries without white space at the ends of their texts.
pub open spec fn tidy_entries(entries: Seq<SubAgentEntryView>) -> Seq<SubAgentEntryView> {
    Seq::new(entries.len(), |i: int| tidy_entry(entries[i]))
}

/// Whether an entry has an id.
pub open spec fn has_id(entries: Seq<SubAgentEntryView>, id: Seq<char>) -> bool {
    exists|i: int| 0 <= i < entries.len() && (#[trigger] entries[i]).id == id
}

/// What stands against a tidy entry behind others.
pub open spec fn entry_fault(
    document: ProviderDocumentView,
    before: Seq<SubAgentEntryView>,
    entry: SubAgentEntryView,
) -> Option<ApiErrorView> {
    let provider = lookup(document.providers, entry.provider_id);
    if entry.id.len() == 0 || has_id(before, entry.id) {
        Some(bad_request("sub-agent IDs must be non-empty and unique"@))
    } else if entry.description.len() > 500 {
        Some(bad_request("sub-agent description is too long"@))
    } else if provider is None {
        Some(
            bad_request("sub-agent provider `"@ + entry.provider_id + "` is not configured"@),
        )
    } else if is_blank(provider->0.api_key) {
        Some(bad_request("sub-agent provider `"@ + entry.provider_id + "` has no API key"@))
    } else if !models_of(provider->0).contains(entry.model) {
        Some(
            bad_request(
                "model `"@ + entry.model + "` is not configured for provider `"@ + entry.provider_id
                    + "`"@,
            ),
        )
    } else {
        None
    }
}

/// The first fault among tidy entries.
pub open spec fn entries_fault(
    document: ProviderDocumentView,
    entries: Seq<SubAgentEntryView>,
) -> Option<ApiErrorView>
    decreases entries.len(),
{
    if entries.len() == 0 {
        None
    } else {
        match entries_fault(document, entries.drop_last()) {
            Some(error) => Some(error),
            None => entry_fault(document, entries.drop_last(), entries.last()),
        }
    }
}

/// The entries with an id.
pub open spec fn with_id(entries: Seq<SubAgentEntryView>, id: Seq<char>) -> Seq<SubAgentEntryView>
    decreases entries.len(),
{
    if entries.len() == 0 {
        Seq::empty()
    } else {
        let before = with_id(entries.drop_last(), id);
        if entries.last().id == id {
            before.push(entries.last())
        } else {
            before
        }
    }
}

/// The entries without an id.
pub open spec fn without_id(entries: Seq<SubAgentEntryView>, id: Seq<char>) -> Seq<
    SubAgentEntryView,
>
    decreases entries.len(),
{
    if entries.len() == 0 {
        Seq::empty()
    } else {
        let before = without_id(entries.drop_last(), id);
        if entries.last().id != id {
            before.push(entries.last())
        } else {
            before
        }
    }
}

/// What checking the settings of the helpers comes to: tidy settings with the fallback first,
/// or the first fault.
pub open spec fn checked_helpers(
    document: ProviderDocumentView,
    value: SubAgentSettingsView,
) -> Result<SubAgentSettingsView, ApiErrorView> {
    let entries = tidy_entries(value.agents);
    if entries.len() > 20 {
        Err(bad_request("at most 20 sub-agents may be configured"@))
    } else if entries_fault(document, entries) is Some {
        Err(entries_fault(document, entries)->0)
    } else if entries.len() == 0 {
        Ok(SubAgentSettingsView { agents: entries, fallback_id: None })
    } else if value.fallback_id is None || trimmed(value.fallback_id->0).len() == 0 {
        Err(bad_request("a fallback sub-agent is required"@))
    } else {
        let fallback = trimmed(value.fallback_id->0);
        if !has_id(entries, fallback) {
            Err(bad_request("fallback sub-agent does not exist"@))
        } else {
            Ok(
                SubAgentSettingsView {
                    agents: with_id(entries, fallback) + without_id(entries, fallback),
                    fallback_id: Some(fallback),
                },
            )
        }
    }
}

fn tidy(entry: &SubAgentEntry) -> (result: SubAgentEntry)
    ensures
        result@ == tidy_entry(entry@),
{
    SubAgentEntry {
        id: trim(&entry.id),
        provider_id: trim(&entry.provider_id),
        model: trim(&entry.model),
        description: trim(&entry.description),
    }
}

fn knows_id(entries: &Vec<SubAgentEntry>, id: &str) -> (result: bool)
    ensures
        result == has_id(views(entries@), id@),
{
    let mut i: usize = 0;
    while i < entries.len()
        invariant
            i <= entries@.len(),
            forall|k: int| 0 <= k < i ==> (#[trigger] views(entries@)[k]).id != id@,
        decreases entries@.len() - i,
    {
        if same(&entries[i].id, id) {
            assert(views(entries@)[i as int].id == id@);
            return true;
        }
        i = i + 1;
    }
    false
}

/// A fault, as its view.
pub open spec fn fault_view(fault: Option<ApiError>) -> Option<ApiErrorView> {
    match fault {
        Some(error) => Some(error@),
        None => None,
    }
}

fn find_fault(document: &ProviderDocument, before: &Vec<SubAgentEntry>, entry: &SubAgentEntry) -> (result:
    Option<ApiError>)
    ensures
        fault_view(result) == entry_fault(document@, views(before@), entry@),
{
    if entry.id.as_str().is_empty() || knows_id(before, &entry.id) {
        return Some(ApiError::bad_request("sub-agent IDs must be non-empty and unique"));
    }
    if entry.description.as_str().unicode_len() > 500 {
        return Some(ApiError::bad_request("sub-agent description is too long"));
    }
    match table_get(&document.providers, &entry.provider_id) {
        None => {
            let mut message = "sub-agent provider `".to_owned();
            message.push_str(&entry.provider_id);
            message.push_str("` is not configured");
            Some(ApiError::bad_request(&message))
        },
        Some(provider) => {
            if blank(&provider.api_key) {
                let mut message = "sub-agent provider `".to_owned();
                message.push_str(&entry.provider_id);
                message.push_str("` has no API key");
                return Some(ApiError::bad_request(&message));
            }
            if !list_has(&provider_models(provider), &entry.model) {
                let mut message = "model `".to_owned();
                message.push_str(&entry.model);
                message.push_str("` is not configured for provider `");
                message.push_str(&entry.provider_id);
                message.push_str("`");
                return Some(ApiError::bad_request(&message));
            }
            None
        },
    }
}

fn fallback_first(entries: &Vec<SubAgentEntry>, id: &str) -> (result: Vec<SubAgentEntry>)
    ensures
        views(result@) == with_id(views(entries@), id@) + without_id(views(entries@), id@),
{
    let ghost all = views(entries@);
    let mut first: Vec<SubAgentEntry> = Vec::new();
    let mut others: Vec<SubAgentEntry> = Vec::new();
    let mut i: usize = 0;
    while i < entries.len()
        invariant
            i <= entries@.len(),
            all == views(entries@),
            views(first@) == with_id(all.take(i as int), id@),
            views(others@) == without_id(all.take(i as int), id@),
        decreases entries@.len() - i,
    {
        let ghost part = all.take(i + 1);
        assert(part.drop_last() =~= all.take(i as int));
        assert(part.last() == entries@[i as int]@);
        if same(&entries[i].id, id) {
            first.push(entries[i].duplicate());
        } else {
            others.push(entries[i].duplicate());
        }
        i = i + 1;
    }
    assert(all.take(i as int) =~= all);
    let ghost front = first@;
    proof {
        views_add(first@, others@);
    }
    first.append(&mut others);
    first
}

/// Checked settings or a fault, as their view.
pub open spec fn helpers_view(result: Result<SubAgentSettings, ApiError>) -> Result<
    SubAgentSettingsView,
    ApiErrorView,
> {
    match result {
        Ok(settings) => Ok(settings@),
        Err(error) => Err(error@),
    }
}

/// Checks the settings of the helpers against the providers.
pub fn validate_subagent_settings(document: &ProviderDocument, value: &SubAgentSettings) -> (result:
    Result<SubAgentSettings, ApiError>)
    ensures
        helpers_view(result) == checked_helpers(document@, value@),
{
    if value.agents.len() > 20 {
        return Err(ApiError::bad_request("at most 20 sub-agents may be configured"));
    }
    let ghost entries = tidy_entries(value@.agents);
    let mut checked: Vec<SubAgentEntry> = Vec::new();
    let mut i: usize = 0;
    assert(views(checked@) =~= entries.take(0));
    while i < value.agents.len()
        invariant
            i <= value.agents.len(),
            value.agents.len() <= 20,
            entries == tidy_entries(value@.agents),
            views(checked@) == entries.take(i as int),
            entries_fault(document@, entries.take(i as int)) is None,
        decreases value.agents.len() - i,
    {
        let entry = tidy(&value.agents[i]);
        let ghost part = entries.take(i + 1);
        assert(part.drop_last() =~= entries.take(i as int));
        assert(part.last() == entry@);
        match find_fault(document, &checked, &entry) {
            Some(error) => {
                proof {
                    first_fault_stays(document@, entries, i + 1);
                }
                return Err(error);
            },
            None => {
                checked.push(entry);
                assert(views(checked@) =~= part);
            },
        }
        i = i + 1;
    }
    assert(entries.take(i as int) =~= entries);
    if checked.len() == 0 {
        return Ok(SubAgentSettings { agents: checked, fallback_id: None });
    }
    let fallback = match &value.fallback_id {
        Some(id) => trim(id),
        None => {
            return Err(ApiError::bad_request("a fallback sub-agent is required"));
        },
    };
    if fallback.as_str().is_empty() {
        return Err(ApiError::bad_request("a fallback sub-agent is required"));
    }
    if !knows_id(&checked, &fallback) {
        return Err(ApiError::bad_request("fallback sub-agent does not exist"));
    }
    let agents = fallback_first(&checked, &fallback);
    Ok(SubAgentSettings { agents, fallback_id: Some(fallback) })
}

/// A fault among the first entries is the fault of all.
proof fn first_fault_stays(document: ProviderDocumentView, entries: Seq<SubAgentEntryView>, n: int)
    requires
        0 <= n <= entries.len(),
        entries_fault(document, entries.take(n)) is Some,
    ensures
        entries_fault(document, entries) == entries_fault(document, entries.take(n)),
    decreases entries.len() - n,
{
    if n == entries.len() {
        assert(entries.take(n) =~= entries);
    } else {
        assert(entries.take(n + 1).drop_last() =~= entries.take(n));
        first_fault_stays(document, entries, n + 1);
    }
}

// ---------------------------------------------------------------------------
// Writing
// ---------------------------------------------------------------------------

/// An entry as it is stored; an empty description is left out.
pub open spec fn entry_data(entry: SubAgentEntryView) -> JsonView {
    let rest = seq![
        ("id"@, JsonView::Text(entry.id)),
        ("model"@, JsonView::Text(entry.model)),
        ("providerId"@, JsonView::Text(entry.provider_id)),
    ];
    JsonView::Object(
        if entry.description.len() == 0 {
            rest
        } else {
            seq![("description"@, JsonView::Text(entry.description))] + rest
        },
    )
}

/// Entries as they are stored.
pub open spec fn entries_data(entries: Seq<SubAgentEntryView>) -> JsonView {
    JsonView::Array(Seq::new(entries.len(), |i: int| entry_data(entries[i])))
}

/// Settings with the helpers written to them.
pub open spec fn with_helpers(settings: JsonView, value: SubAgentSettingsView) -> JsonView {
    assigned(
        assigned(settings, "sub_agents"@, entries_data(value.agents)),
        "fallback_sub_agent_id"@,
        nullable_text(value.fallback_id),
    )
}

fn write_entry(entry: &SubAgentEntry) -> (result: Json)
    ensures
        result@ == entry_data(entry@),
{
    let mut fields = Fields::new();
    if !entry.description.as_str().is_empty() {
        fields.add("description", Json::text(&entry.description));
    }
    fields.add("id", Json::text(&entry.id));
    fields.add("model", Json::text(&entry.model));
    fields.add("providerId", Json::text(&entry.provider_id));
    assert(fields@ =~= entry_data(entry@)->Object_0);
    fields.done()
}

/// Writes the helpers to the settings.
pub fn persist_subagent_settings(settings: &mut Json, value: &SubAgentSettings)
    requires
        old(settings)@ is Object,
    ensures
        final(settings)@ == with_helpers(old(settings)@, value@),
        final(settings)@ is Object,
{
    let ghost wanted = entries_data(value@.agents)->Array_0;
    let mut items: Vec<Json> = Vec::new();
    let mut i: usize = 0;
    assert(trees(items@) =~= wanted.take(0));
    while i < value.agents.len()
        invariant
            i <= value.agents.len(),
            wanted == entries_data(value@.agents)->Array_0,
            trees(items@) == wanted.take(i as int),
        decreases value.agents.len() - i,
    {
        let ghost before = items@;
        let item = write_entry(&value.agents[i]);
        items.push(item);
        assert(trees(items@) =~= trees(before).push(item@));
        assert(wanted[i as int] == item@);
        assert(wanted.take(i + 1) =~= wanted.take(i as int).push(wanted[i as int]));
        i = i + 1;
    }
    assert(wanted.take(i as int) =~= wanted);
    settings.assign("sub_agents", Json::Array(items));
    settings.assign("fallback_sub_agent_id", text_or_null(&value.fallback_id));
}

// ---------------------------------------------------------------------------
// Providers that go away
// ---------------------------------------------------------------------------

/// The entries that do not use a provider.
pub open spec fn without_user_of(entries: Seq<SubAgentEntryView>, provider: Seq<char>) -> Seq<
    SubAgentEntryView,
>
    decreases entries.len(),
{
    if entries.len() == 0 {
        Seq::empty()
    } else {
        let before = without_user_of(entries.drop_last(), provider);
        if entries.last().provider_id != provider {
            before.push(entries.last())
        } else {
            before
        }
    }
}

/// The helpers that are left when a provider is removed. Nothing changes where none used it.
pub open spec fn helpers_without(value: SubAgentSettingsView, provider: Seq<char>) -> Option<
    SubAgentSettingsView,
> {
    let left = without_user_of(value.agents, provider);
    if left.len() == value.agents.len() {
        None
    } else {
        Some(
            SubAgentSettingsView {
                agents: left,
                fallback_id: if value.fallback_id is Some && has_id(left, value.fallback_id->0) {
                    value.fallback_id
                } else if left.len() > 0 {
                    Some(left[0].id)
                } else {
                    None
                },
            },
        )
    }
}

/// Removes the helpers that use a provider. Nothing comes back where none used it.
pub fn drop_provider_subagents(value: &SubAgentSettings, provider: &str) -> (result: Option<
    SubAgentSettings,
>)
    ensures
        opt(result) == helpers_without(value@, provider@),
{
    let ghost all = value@.agents;
    let mut left: Vec<SubAgentEntry> = Vec::new();
    let mut i: usize = 0;
    while i < value.agents.len()
        invariant
            i <= value.agents.len(),
            all == value@.agents,
            views(left@) == without_user_of(all.take(i as int), provider@),
        decreases value.agents.len() - i,
    {
        let ghost part = all.take(i + 1);
        assert(part.drop_last() =~= all.take(i as int));
        assert(part.last() == value.agents@[i as int]@);
        if !same(&value.agents[i].provider_id, provider) {
            left.push(value.agents[i].duplicate());
        }
        i = i + 1;
    }
    assert(all.take(i as int) =~= all);
    assert(views(left@).len() == left@.len());
    if left.len() == value.agents.len() {
        return None;
    }
    let fallback_id = match &value.fallback_id {
        Some(id) => if knows_id(&left, id) {
            Some(id.clone())
        } else if left.len() > 0 {
            Some(left[0].id.clone())
        } else {
            None
        },
        None => if left.len() > 0 {
            Some(left[0].id.clone())
        } else {
            None
        },
    };
    Some(SubAgentSettings { agents: left, fallback_id })
}

// ---------------------------------------------------------------------------
// Helpers that stood with their providers
// ---------------------------------------------------------------------------

/// The helpers that the first provider with a list holds. `lists` stands beside the providers
/// and holds the lists that could be parsed.
pub open spec fn legacy_helpers(
    providers: Seq<(Seq<char>, ProviderSettingsView)>,
    lists: Seq<Option<Seq<SubAgentEntryView>>>,
) -> SubAgentSettingsView
    decreases providers.len(),
{
    if providers.len() == 0 || lists.len() == 0 {
        SubAgentSettingsView { agents: Seq::empty(), fallback_id: None }
    } else if lookup(providers[0].1.extra, "subAgents"@) is Some && lists[0] is Some
        && lists[0]->0.len() > 0 {
        SubAgentSettingsView {
            agents: lists[0]->0,
            fallback_id: match text_of(lookup(providers[0].1.extra, "fallbackSubAgentId"@)) {
                Some(id) => Some(id),
                None => Some(lists[0]->0[0].id),
            },
        }
    } else {
        legacy_helpers(providers.skip(1), lists.skip(1))
    }
}

/// A provider without the helpers that stood with it.
pub open spec fn without_legacy(provider: ProviderSettingsView) -> ProviderSettingsView {
    ProviderSettingsView {
        extra: without(without(provider.extra, "subAgents"@), "fallbackSubAgentId"@),
        ..provider
    }
}

/// Providers without the helpers that stood with them.
pub open spec fn all_without_legacy(providers: Seq<(Seq<char>, ProviderSettingsView)>) -> Seq<
    (Seq<char>, ProviderSettingsView),
> {
    Seq::new(providers.len(), |i: int| (providers[i].0, without_legacy(providers[i].1)))
}

/// Whether a provider has something of the helpers that stood with it.
pub open spec fn has_legacy(provider: ProviderSettingsView) -> bool {
    lookup(provider.extra, "subAgents"@) is Some || lookup(
        without(provider.extra, "subAgents"@),
        "fallbackSubAgentId"@,
    ) is Some
}

/// Whether a provider has something of the helpers that stood with it.
pub open spec fn any_legacy(providers: Seq<(Seq<char>, ProviderSettingsView)>) -> bool {
    exists|i: int| 0 <= i < providers.len() && has_legacy((#[trigger] providers[i]).1)
}

/// Lists that may be absent, as their views.
pub open spec fn list_views(lists: Seq<Option<Vec<SubAgentEntry>>>) -> Seq<
    Option<Seq<SubAgentEntryView>>,
> {
    Seq::new(lists.len(), |i: int| parsed_list(lists[i]))
}

/// What moving the helpers out of the providers comes to. Settings that already hold a list
/// are left as they are.
pub open spec fn migrated(
    settings: JsonView,
    current: SubAgentSettingsView,
    document: ProviderDocumentView,
    lists: Seq<Option<Seq<SubAgentEntryView>>>,
) -> Result<SubAgentMigrationView, ApiErrorView> {
    if member(settings, "sub_agents"@) is Some {
        Ok(SubAgentMigrationView { settings: current, store: false, document_changed: false })
    } else {
        let found = legacy_helpers(document.providers, lists);
        let changed = any_legacy(document.providers);
        if found.agents.len() == 0 {
            Ok(SubAgentMigrationView { settings: found, store: true, document_changed: changed })
        } else {
            match checked_helpers(document, found) {
                Ok(value) => Ok(
                    SubAgentMigrationView {
                        settings: value,
                        store: true,
                        document_changed: changed,
                    },
                ),
                Err(error) => Err(error),
            }
        }
    }
}

/// A migration or a fault, as its view.
pub open spec fn migration_view(result: Result<SubAgentMigration, ApiError>) -> Result<
    SubAgentMigrationView,
    ApiErrorView,
> {
    match result {
        Ok(migration) => Ok(migration@),
        Err(error) => Err(error@),
    }
}

fn find_legacy(document: &ProviderDocument, lists: &Vec<Option<Vec<SubAgentEntry>>>) -> (result:
    SubAgentSettings)
    ensures
        result@ == legacy_helpers(document@.providers, list_views(lists@)),
{
    let ghost providers = document@.providers;
    let ghost parsed = list_views(lists@);
    let mut i: usize = 0;
    assert(providers.skip(0) =~= providers);
    assert(parsed.skip(0) =~= parsed);
    while i < document.providers.len() && i < lists.len()
        invariant
            i <= document.providers.len(),
            i <= lists.len(),
            providers == document@.providers,
            parsed == list_views(lists@),
            legacy_helpers(providers, parsed) == legacy_helpers(
                providers.skip(i as int),
                parsed.skip(i as int),
            ),
        decreases lists.len() - i,
    {
        let provider = &document.providers[i].1;
        assert(providers.skip(i as int)[0].1 == provider@);
        assert(parsed.skip(i as int)[0] == parsed_list(lists@[i as int]));
        assert(providers.skip(i as int).skip(1) =~= providers.skip(i + 1));
        assert(parsed.skip(i as int).skip(1) =~= parsed.skip(i + 1));
        if table_get(&provider.extra, "subAgents").is_some() {
            if let Some(list) = &lists[i] {
                assert(views(list@).len() == list@.len());
                if list.len() > 0 {
                    let named = match table_get(&provider.extra, "fallbackSubAgentId") {
                        Some(Json::Text(id)) => Some(id.clone()),
                        _ => None,
                    };
                    let fallback_id = match named {
                        Some(id) => Some(id),
                        None => Some(list[0].id.clone()),
                    };
                    return SubAgentSettings { agents: duplicate_all(list), fallback_id };
                }
            }
        }
        i = i + 1;
    }
    SubAgentSettings { agents: Vec::new(), fallback_id: None }
}

fn drop_legacy(document: &mut ProviderDocument) -> (changed: bool)
    ensures
        changed == any_legacy(old(document)@.providers),
        final(document)@ == (ProviderDocumentView {
            providers: all_without_legacy(old(document)@.providers),
            ..old(document)@
        }),
{
    let ghost before = document@.providers;
    let mut kept: Vec<(String, ProviderSettings)> = Vec::new();
    let mut changed = false;
    let mut i: usize = 0;
    assert(pairs_of(kept@) =~= all_without_legacy(before).take(0));
    while i < document.providers.len()
        invariant
            i <= document.providers.len(),
            before == document@.providers,
            pairs_of(kept@) == all_without_legacy(before).take(i as int),
            changed == any_legacy(before.take(i as int)),
        decreases document.providers.len() - i,
    {
        let mut provider = document.providers[i].1.duplicate();
        let ghost part = before.take(i + 1);
        assert(before[i as int].1 == provider@);
        assert(part[i as int] == before[i as int]);
        assert(forall|k: int| 0 <= k < i ==> #[trigger] part[k] == before.take(i as int)[k]);
        if table_get(&provider.extra, "subAgents").is_some() {
            changed = true;
            assert(has_legacy(part[i as int].1));
        }
        table_remove(&mut provider.extra, "subAgents");
        if table_get(&provider.extra, "fallbackSubAgentId").is_some() {
            changed = true;
            assert(has_legacy(part[i as int].1));
        }
        table_remove(&mut provider.extra, "fallbackSubAgentId");
        proof {
            if any_legacy(before.take(i as int)) {
                let k = choose|k: int|
                    0 <= k < before.take(i as int).len() && has_legacy(
                        (#[trigger] before.take(i as int)[k]).1,
                    );
                assert(has_legacy(part[k].1));
            }
            if any_legacy(part) {
                let k = choose|k: int| 0 <= k < part.len() && has_legacy((#[trigger] part[k]).1);
                if k < i {
                    assert(has_legacy(before.take(i as int)[k].1));
                }
            }
        }
        let ghost rows = kept@;
        let row = (document.providers[i].0.clone(), provider);
        kept.push(row);
        assert(pairs_of(kept@) =~= pairs_of(rows).push((row.0@, row.1@)));
        assert(all_without_legacy(before)[i as int] == (row.0@, row.1@));
        assert(all_without_legacy(before).take(i + 1) =~= all_without_legacy(before).take(
            i as int,
        ).push(all_without_legacy(before)[i as int]));
        i = i + 1;
    }
    assert(before.take(i as int) =~= before);
    assert(all_without_legacy(before).take(i as int) =~= all_without_legacy(before));
    document.providers = kept;
    changed
}

/// Moves the helpers that stood with their providers to the settings of the helpers.
/// `current` is what the settings hold, `lists` stands beside the providers and holds the
/// lists that could be parsed. A fault changes nothing.
pub fn migrate_legacy_subagent_settings(
    settings: &Json,
    current: SubAgentSettings,
    document: &mut ProviderDocument,
    lists: &Vec<Option<Vec<SubAgentEntry>>>,
) -> (result: Result<SubAgentMigration, ApiError>)
    ensures
        migration_view(result) == migrated(
            settings@,
            current@,
            old(document)@,
            list_views(lists@),
        ),
        final(document)@ == if result is Ok && member(settings@, "sub_agents"@) is None {
            ProviderDocumentView {
                providers: all_without_legacy(old(document)@.providers),
                ..old(document)@
            }
        } else {
            old(document)@
        },
{
    if settings.get("sub_agents").is_some() {
        return Ok(
            SubAgentMigration { settings: current, store: false, document_changed: false },
        );
    }
    let found = find_legacy(document, lists);
    assert(found@.agents.len() == found.agents@.len());
    let value = if found.agents.len() == 0 {
        found
    } else {
        match validate_subagent_settings(document, &found) {
            Ok(value) => value,
            Err(error) => {
                return Err(error);
            },
        }
    };
    let changed = drop_legacy(document);
    Ok(SubAgentMigration { settings: value, store: true, document_changed: changed })
}

// ---------------------------------------------------------------------------
// Laws
// ---------------------------------------------------------------------------

/// Whether no two entries have the same id.
pub open spec fn ids_differ(entries: Seq<SubAgentEntryView>) -> bool {
    forall|i: int, j: int|
        0 <= i < j < entries.len() ==> (#[trigger] entries[i]).id != (#[trigger] entries[j]).id
}

/// Whether settings of helpers can be used: few enough, with ids that are not empty and
/// differ, each with a provider that has a key and offers the model, and a fallback that is
/// one of them and stands first.
pub open spec fn usable(document: ProviderDocumentView, value: SubAgentSettingsView) -> bool {
    &&& value.agents.len() <= 20
    &&& ids_differ(value.agents)
    &&& forall|i: int|
        0 <= i < value.agents.len() ==> {
            let entry = #[trigger] value.agents[i];
            let provider = lookup(document.providers, entry.provider_id);
            &&& entry.id.len() > 0
            &&& entry.description.len() <= 500
            &&& provider is Some
            &&& !is_blank(provider->0.api_key)
            &&& models_of(provider->0).contains(entry.model)
        }
    &&& match value.fallback_id {
        Some(id) => value.agents.len() > 0 && value.agents[0].id == id,
        None => value.agents.len() == 0,
    }
}

/// Settings of helpers that pass the check can be used.
pub proof fn checked_helpers_are_usable(document: ProviderDocumentView, value: SubAgentSettingsView)
    ensures
        checked_helpers(document, value) is Ok ==> usable(
            document,
            checked_helpers(document, value)->Ok_0,
        ),
{
    let entries = tidy_entries(value.agents);
    if checked_helpers(document, value) is Ok {
        faultless_entries_are_sound(document, entries);
        faultless_ids_differ(document, entries);
        if entries.len() > 0 {
            moved_entries_are_the_same(entries, trimmed(value.fallback_id->0));
        }
    }
}

/// Settings of helpers that pass the check pass it again, and a second check changes nothing.
pub proof fn checked_helpers_stay(document: ProviderDocumentView, value: SubAgentSettingsView)
    ensures
        checked_helpers(document, value) is Ok ==> checked_helpers(
            document,
            checked_helpers(document, value)->Ok_0,
        ) == checked_helpers(document, value),
{
    let entries = tidy_entries(value.agents);
    if checked_helpers(document, value) is Ok {
        let checked = checked_helpers(document, value)->Ok_0;
        let again = tidy_entries(checked.agents);
        faultless_entries_are_sound(document, entries);
        faultless_ids_differ(document, entries);
        if entries.len() == 0 {
            assert(again =~= checked.agents);
        } else {
            let id = trimmed(value.fallback_id->0);
            moved_entries_are_the_same(entries, id);
            parts_come_from(entries, id);
            parts_stay_apart(entries, id);
            assert forall|i: int| 0 <= i < checked.agents.len() implies #[trigger] again[i]
                == checked.agents[i] && entry_fault(document, Seq::empty(), again[i]) is None by {
                let k = choose|k: int| 0 <= k < entries.len() && entries[k] == checked.agents[i];
                trimmed_twice(value.agents[k].id);
                trimmed_twice(value.agents[k].provider_id);
                trimmed_twice(value.agents[k].model);
                trimmed_twice(value.agents[k].description);
                assert(entry_fault(document, entries.take(k), entries[k]) is None);
            }
            assert(again =~= checked.agents);
            sound_entries_are_faultless(document, again);
            trimmed_twice(value.fallback_id->0);
            assert(again[0].id == id);
            parts_are_found_again(with_id(entries, id), without_id(entries, id), id);
        }
    }
}

/// Entries without a fault have different ids.
proof fn faultless_ids_differ(document: ProviderDocumentView, entries: Seq<SubAgentEntryView>)
    requires
        entries_fault(document, entries) is None,
    ensures
        ids_differ(entries),
{
    faultless_entries_are_sound(document, entries);
    assert forall|i: int, j: int| 0 <= i < j < entries.len() implies (#[trigger] entries[i]).id
        != (#[trigger] entries[j]).id by {
        assert(entry_fault(document, entries.take(j), entries[j]) is None);
        assert(entries.take(j)[i] == entries[i]);
    }
}

/// Entries with different ids that are sound one by one have no fault together.
proof fn sound_entries_are_faultless(document: ProviderDocumentView, entries: Seq<SubAgentEntryView>)
    requires
        ids_differ(entries),
        forall|i: int|
            0 <= i < entries.len() ==> entry_fault(
                document,
                Seq::empty(),
                #[trigger] entries[i],
            ) is None,
    ensures
        entries_fault(document, entries) is None,
    decreases entries.len(),
{
    if entries.len() > 0 {
        let before = entries.drop_last();
        assert forall|i: int| 0 <= i < before.len() implies entry_fault(
            document,
            Seq::empty(),
            #[trigger] before[i],
        ) is None by {
            assert(before[i] == entries[i]);
        }
        assert(ids_differ(before)) by {
            assert forall|i: int, j: int| 0 <= i < j < before.len() implies (#[trigger] before[i]).id
                != (#[trigger] before[j]).id by {
                assert(entries[i].id != entries[j].id);
            }
        }
        sound_entries_are_faultless(document, before);
        assert(entry_fault(document, Seq::empty(), entries[entries.len() - 1]) is None);
        assert(!has_id(before, entries.last().id)) by {
            assert forall|i: int| 0 <= i < before.len() implies (#[trigger] before[i]).id
                != entries.last().id by {
                assert(entries[i].id != entries[entries.len() - 1].id);
            }
        }
    }
}

/// Moving an entry to the front keeps the entries and their ids apart.
proof fn moved_entries_are_the_same(entries: Seq<SubAgentEntryView>, id: Seq<char>)
    requires
        ids_differ(entries),
        has_id(entries, id),
    ensures
        ({
            let moved = with_id(entries, id) + without_id(entries, id);
            &&& moved.len() == entries.len()
            &&& moved[0].id == id
            &&& ids_differ(moved)
            &&& forall|i: int| 0 <= i < moved.len() ==> entries.contains(#[trigger] moved[i])
        }),
{
    parts_come_from(entries, id);
    parts_stay_apart(entries, id);
    let first = with_id(entries, id);
    let others = without_id(entries, id);
    let moved = first + others;
    assert(moved[0] == first[0]);
    assert forall|i: int| 0 <= i < moved.len() implies entries.contains(#[trigger] moved[i]) by {
        if i < first.len() {
            assert(moved[i] == first[i]);
        } else {
            assert(moved[i] == others[i - first.len()]);
        }
    }
    assert forall|i: int, j: int| 0 <= i < j < moved.len() implies (#[trigger] moved[i]).id
        != (#[trigger] moved[j]).id by {
        assert(moved[j] == others[j - 1]);
        if i > 0 {
            assert(moved[i] == others[i - 1]);
        }
    }
}

/// Of entries with different ids at most one has a given id, and the others stay apart.
proof fn parts_stay_apart(entries: Seq<SubAgentEntryView>, id: Seq<char>)
    requires
        ids_differ(entries),
    ensures
        with_id(entries, id).len() <= 1,
        with_id(entries, id).len() == 1 ==> has_id(entries, id),
        ids_differ(without_id(entries, id)),
        forall|i: int|
            0 <= i < without_id(entries, id).len() ==> (#[trigger] without_id(entries, id)[i]).id
                != id,
    decreases entries.len(),
{
    if entries.len() > 0 {
        let before = entries.drop_last();
        let last = entries.len() - 1;
        assert forall|i: int, j: int| 0 <= i < j < before.len() implies (#[trigger] before[i]).id
            != (#[trigger] before[j]).id by {
            assert(entries[i].id != entries[j].id);
        }
        parts_stay_apart(before, id);
        parts_come_from(before, id);
        if has_id(before, id) {
            let k = choose|k: int| 0 <= k < before.len() && (#[trigger] before[k]).id == id;
            assert(entries[k].id != entries[last].id);
            assert(entries[k].id == id);
        }
        if entries.last().id == id {
            assert(entries[last].id == id);
        } else {
            let others = without_id(before, id);
            assert forall|i: int| 0 <= i < others.len() implies (#[trigger] others[i]).id
                != entries.last().id by {
                let k = choose|k: int| 0 <= k < before.len() && before[k] == others[i];
                assert(entries[k].id != entries[last].id);
            }
        }
    }
}

/// Cutting a list that was put together from its two parts gives the parts.
proof fn parts_are_found_again(
    first: Seq<SubAgentEntryView>,
    others: Seq<SubAgentEntryView>,
    id: Seq<char>,
)
    requires
        forall|i: int| 0 <= i < first.len() ==> (#[trigger] first[i]).id == id,
        forall|i: int| 0 <= i < others.len() ==> (#[trigger] others[i]).id != id,
    ensures
        with_id(first + others, id) == first,
        without_id(first + others, id) == others,
    decreases first.len() + others.len(),
{
    let all = first + others;
    if others.len() > 0 {
        assert(all.drop_last() =~= first + others.drop_last());
        assert(all.last() == others[others.len() - 1]);
        parts_are_found_again(first, others.drop_last(), id);
        assert(others.drop_last().push(others.last()) =~= others);
    } else if first.len() > 0 {
        assert(all.drop_last() =~= first.drop_last() + others);
        assert(all.last() == first[first.len() - 1]);
        parts_are_found_again(first.drop_last(), others, id);
        assert(first.drop_last().push(first.last()) =~= first);
        assert(without_id(all, id) =~= others);
    } else {
        assert(with_id(all, id) =~= first);
        assert(without_id(all, id) =~= others);
    }
}

proof fn faultless_entries_are_sound(document: ProviderDocumentView, entries: Seq<SubAgentEntryView>)
    requires
        entries_fault(document, entries) is None,
    ensures
        forall|i: int|
            0 <= i < entries.len() ==> entry_fault(
                document,
                entries.take(i),
                #[trigger] entries[i],
            ) is None,
    decreases entries.len(),
{
    if entries.len() > 0 {
        let before = entries.drop_last();
        faultless_entries_are_sound(document, before);
        assert forall|i: int| 0 <= i < entries.len() implies entry_fault(
            document,
            entries.take(i),
            #[trigger] entries[i],
        ) is None by {
            if i < before.len() {
                assert(entries[i] == before[i]);
                assert(entries.take(i) =~= before.take(i));
            } else {
                assert(entries.take(i) =~= before);
            }
        }
    }
}

/// The two parts of a list come from it, share its length, and the first is not empty where
/// the id is there.
proof fn parts_come_from(entries: Seq<SubAgentEntryView>, id: Seq<char>)
    ensures
        with_id(entries, id).len() + without_id(entries, id).len() == entries.len(),
        forall|i: int|
            0 <= i < with_id(entries, id).len() ==> (#[trigger] with_id(entries, id)[i]).id == id
                && entries.contains(with_id(entries, id)[i]),
        forall|i: int|
            0 <= i < without_id(entries, id).len() ==> entries.contains(
                #[trigger] without_id(entries, id)[i],
            ),
        has_id(entries, id) ==> with_id(entries, id).len() > 0,
    decreases entries.len(),
{
    if entries.len() > 0 {
        let before = entries.drop_last();
        parts_come_from(before, id);
        assert forall|x: SubAgentEntryView| before.contains(x) implies entries.contains(x) by {
            let k = choose|k: int| 0 <= k < before.len() && before[k] == x;
            assert(entries[k] == x);
        }
        assert(entries.contains(entries.last())) by {
            assert(entries[entries.len() - 1] == entries.last());
        }
        if has_id(entries, id) {
            let k = choose|k: int| 0 <= k < entries.len() && (#[trigger] entries[k]).id == id;
            if k < before.len() {
                assert(before[k].id == id);
            }
        }
    }
}

/// After a provider is removed no helper uses it; where nothing changes, none used it.
pub proof fn removing_a_provider_leaves_no_user(value: SubAgentSettingsView, provider: Seq<char>)
    ensures
        match helpers_without(value, provider) {
            Some(left) => forall|i: int|
                0 <= i < left.agents.len() ==> (#[trigger] left.agents[i]).provider_id != provider,
            None => forall|i: int|
                0 <= i < value.agents.len() ==> (#[trigger] value.agents[i]).provider_id != provider,
        },
{
    users_are_gone(value.agents, provider);
}

proof fn users_are_gone(entries: Seq<SubAgentEntryView>, provider: Seq<char>)
    ensures
        without_user_of(entries, provider).len() <= entries.len(),
        forall|i: int|
            0 <= i < without_user_of(entries, provider).len() ==> (#[trigger] without_user_of(
                entries,
                provider,
            )[i]).provider_id != provider,
        without_user_of(entries, provider).len() == entries.len() ==> forall|i: int|
            0 <= i < entries.len() ==> (#[trigger] entries[i]).provider_id != provider,
    decreases entries.len(),
{
    if entries.len() > 0 {
        let before = entries.drop_last();
        users_are_gone(before, provider);
        if without_user_of(entries, provider).len() == entries.len() {
            assert forall|i: int| 0 <= i < entries.len() implies (#[trigger] entries[i]).provider_id
                != provider by {
                if i < before.len() {
                    assert(entries[i] == before[i]);
                }
            }
        }
    }
}

} // verus!
