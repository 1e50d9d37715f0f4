//! The servers and skills that the settings list.

use vstd::prelude::*;
use crate::catalog::McpCatalogEntry;
use crate::catalog::McpCatalogEntryView;
use crate::catalog::SkillEntry;
use crate::catalog::SkillEntryView;
use crate::text::lower;
use crate::text::same_ignoring_case;
use crate::timeline::NoticeKind;
use crate::tui::ConfiguredMcp;
use crate::tui::ConfiguredMcpView;
use crate::tui::InstalledSkill;
use crate::tui::InstalledSkillView;
use crate::tui::SettingsStateView;
use crate::tui::SettingsTab;
use crate::tui::TuiState;
use crate::tui::TuiStateView;
use crate::tui::inside;
use crate::tui::kept_inside;
use crate::views::Duplicate;
use crate::views::duplicate_opt;
use crate::views::group_views;
use crate::views::opt;
use crate::views::views;

verus! {

broadcast use {group_views};

/// A server in the settings: from the catalogue, configured, or both.
#[derive(Debug)]
pub struct SettingsMcpItem {
    pub entry: Option<McpCatalogEntry>,
    pub configured: Option<ConfiguredMcp>,
}

/// What a `SettingsMcpItem` holds.
#[verifier::ext_equal]
pub struct SettingsMcpItemView {
    pub entry: Option<McpCatalogEntryView>,
    pub configured: Option<ConfiguredMcpView>,
}

impl View for SettingsMcpItem {
    type V = SettingsMcpItemView;

    open spec fn view(&self) -> SettingsMcpItemView {
        SettingsMcpItemView {
            entry: opt(self.entry),
            configured: opt(self.configured),
        }
    }
}

impl Duplicate for SettingsMcpItem {
    fn duplicate(&self) -> (result: Self) {
        SettingsMcpItem {
            entry: duplicate_opt(&self.entry),
            configured: duplicate_opt(&self.configured),
        }
    }
}

/// A skill in the settings: from the catalogue, installed, or both.
#[derive(Debug)]
pub struct SettingsSkillItem {
    pub entry: Option<SkillEntry>,
    pub installed: Option<InstalledSkill>,
}

/// What a `SettingsSkillItem` holds.
#[verifier::ext_equal]
pub struct SettingsSkillItemView {
    pub entry: Option<SkillEntryView>,
    pub installed: Option<InstalledSkillView>,
}

impl View for SettingsSkillItem {
    type V = SettingsSkillItemView;

    open spec fn view(&self) -> SettingsSkillItemView {
        SettingsSkillItemView {
            entry: opt(self.entry),
            installed: opt(self.installed),
        }
    }
}

impl Duplicate for SettingsSkillItem {
    fn duplicate(&self) -> (result: Self) {
        SettingsSkillItem {
            entry: duplicate_opt(&self.entry),
            installed: duplicate_opt(&self.installed),
        }
    }
}

/// What was read from disk for the settings.
#[derive(Debug)]
pub enum SettingsRead {
    /// The configured servers.
    Mcp(Vec<ConfiguredMcp>),
    /// The installed skills.
    Skills(Vec<InstalledSkill>),
    /// Reading failed.
    Failed(String),
}

/// What a `SettingsRead` holds.
#[verifier::ext_equal]
pub enum SettingsReadView {
    Mcp(Seq<ConfiguredMcpView>),
    Skills(Seq<InstalledSkillView>),
    Failed(Seq<char>),
}

impl View for SettingsRead {
    type V = SettingsReadView;

    open spec fn view(&self) -> SettingsReadView {
        match *self {
            SettingsRead::Mcp(a0) => SettingsReadView::Mcp(views(a0@)),
            SettingsRead::Skills(a0) => SettingsReadView::Skills(views(a0@)),
            SettingsRead::Failed(a0) => SettingsReadView::Failed(a0@),
        }
    }
}

// ---------------------------------------------------------------------------
// Servers
// ---------------------------------------------------------------------------

/// The server of a name among the configured ones, whatever its case.
pub open spec fn configured_for(list: Seq<ConfiguredMcpView>, name: Seq<char>) -> Option<ConfiguredMcpView>
    decreases list.len(),
{
    if list.len() == 0 {
        None
    } else if lower(list[0].name) == lower(name) {
        Some(list[0])
    } else {
        configured_for(list.skip(1), name)
    }
}

/// Whether the catalogue has an entry for a configured server.
pub open spec fn in_mcp_catalog(entries: Seq<McpCatalogEntryView>, name: Seq<char>) -> bool {
    exists|i: int| 0 <= i < entries.len() && lower(#[trigger] entries[i].id) == lower(name)
}

/// The configured servers without an entry in the catalogue.
pub open spec fn other_mcp_items(
    entries: Seq<McpCatalogEntryView>,
    list: Seq<ConfiguredMcpView>,
) -> Seq<SettingsMcpItemView>
    decreases list.len(),
{
    if list.len() == 0 {
        Seq::empty()
    } else {
        let others = other_mcp_items(entries, list.drop_last());
        if in_mcp_catalog(entries, list.last().name) {
            others
        } else {
            others.push(SettingsMcpItemView { entry: None, configured: Some(list.last()) })
        }
    }
}

/// The servers of the catalogue, then the configured ones that it does not have.
pub open spec fn mcp_items(
    entries: Seq<McpCatalogEntryView>,
    list: Seq<ConfiguredMcpView>,
) -> Seq<SettingsMcpItemView> {
    Seq::new(
        entries.len(),
        |i: int|
            SettingsMcpItemView {
                entry: Some(entries[i]),
                configured: configured_for(list, entries[i].id),
            },
    ) + other_mcp_items(entries, list)
}

fn find_configured(list: &Vec<ConfiguredMcp>, name: &str) -> (result: Option<ConfiguredMcp>)
    ensures
        opt(result) == configured_for(views(list@), name@),
{
    let ghost all = views(list@);
    let mut i: usize = 0;
    assert(all.skip(0) =~= all);
    while i < list.len()
        invariant
            i <= list@.len(),
            all == views(list@),
            configured_for(all, name@) == configured_for(all.skip(i as int), name@),
        decreases list@.len() - i,
    {
        assert(all.skip(i as int)[0] == list@[i as int]@);
        if same_ignoring_case(&list[i].name, name) {
            return Some(list[i].duplicate());
        }
        assert(all.skip(i as int).skip(1) =~= all.skip(i + 1));
        i = i + 1;
    }
    None
}

fn mcp_listed(entries: &Vec<McpCatalogEntry>, name: &str) -> (result: bool)
    ensures
        result == in_mcp_catalog(views(entries@), name@),
{
    let ghost all = views(entries@);
    let mut i: usize = 0;
    while i < entries.len()
        invariant
            i <= entries@.len(),
            all == views(entries@),
            forall|k: int| 0 <= k < i ==> lower(#[trigger] all[k].id) != lower(name@),
        decreases entries@.len() - i,
    {
        assert(all[i as int] == entries@[i as int]@);
        if same_ignoring_case(&entries[i].id, name) {
            assert(lower(all[i as int].id) == lower(name@));
            return true;
        }
        i = i + 1;
    }
    false
}

/// Returns the servers of the catalogue, then the configured ones that it does not have.
pub fn merge_mcp(entries: &Vec<McpCatalogEntry>, list: &Vec<ConfiguredMcp>) -> (result: Vec<SettingsMcpItem>)
    ensures
        views(result@) == mcp_items(views(entries@), views(list@)),
{
    let ghost all = views(entries@);
    let ghost owned = views(list@);
    let ghost wanted = mcp_items(all, owned);
    let mut items: Vec<SettingsMcpItem> = Vec::new();
    let mut i: usize = 0;
    assert(wanted.take(0) =~= Seq::<SettingsMcpItemView>::empty());
    while i < entries.len()
        invariant
            i <= entries@.len(),
            all == views(entries@),
            owned == views(list@),
            wanted == mcp_items(all, owned),
            views(items@) == wanted.take(i as int),
        decreases entries@.len() - i,
    {
        assert(all[i as int] == entries@[i as int]@);
        let configured = find_configured(list, &entries[i].id);
        items.push(SettingsMcpItem { entry: Some(entries[i].duplicate()), configured });
        assert(wanted.take(i + 1) =~= wanted.take(i as int).push(wanted[i as int]));
        i = i + 1;
    }
    let ghost listed = views(items@);
    i = 0;
    assert(owned.take(0) =~= Seq::<ConfiguredMcpView>::empty());
    assert(listed + Seq::<SettingsMcpItemView>::empty() =~= listed);
    while i < list.len()
        invariant
            i <= list@.len(),
            all == views(entries@),
            owned == views(list@),
            views(items@) == listed + other_mcp_items(all, owned.take(i as int)),
        decreases list@.len() - i,
    {
        let ghost part = owned.take(i + 1);
        let ghost before = views(items@);
        assert(part.drop_last() =~= owned.take(i as int));
        assert(part.last() == list@[i as int]@);
        if !mcp_listed(entries, &list[i].name) {
            items.push(SettingsMcpItem { entry: None, configured: Some(list[i].duplicate()) });
            assert(views(items@) =~= listed + other_mcp_items(all, part));
        }
        i = i + 1;
    }
    assert(owned.take(i as int) =~= owned);
    assert(views(items@) =~= wanted);
    items
}

impl SettingsMcpItem {
    /// Returns the identifier of the entry, or else the name of what is configured.
    pub fn id(&self) -> (result: String)
        ensures
            result@ == mcp_item_id(self@),
    {
        match &self.entry {
            Some(entry) => entry.id.clone(),
            None => match &self.configured {
                Some(configured) => configured.name.clone(),
                None => String::new(),
            },
        }
    }
}

/// The identifier of an entry, or else the name of what is configured.
pub open spec fn mcp_item_id(item: SettingsMcpItemView) -> Seq<char> {
    match item.entry {
        Some(entry) => entry.id,
        None => match item.configured {
            Some(configured) => configured.name,
            None => Seq::empty(),
        },
    }
}

/// The servers that the settings list.
pub open spec fn listed_mcp(s: TuiStateView) -> Seq<SettingsMcpItemView> {
    mcp_items(
        s.mcp_entries,
        match s.settings {
            Some(settings) => settings.mcp_servers,
            None => Seq::empty(),
        },
    )
}

/// Returns the servers that the settings list.
pub fn settings_mcp_items(app: &TuiState) -> (result: Vec<SettingsMcpItem>)
    ensures
        views(result@) == listed_mcp(app@),
{
    match &app.settings {
        Some(settings) => merge_mcp(&app.mcp_entries, &settings.mcp_servers),
        None => {
            let none: Vec<ConfiguredMcp> = Vec::new();
            merge_mcp(&app.mcp_entries, &none)
        },
    }
}

/// The server that is selected in the settings.
pub open spec fn chosen_mcp(s: TuiStateView) -> Option<SettingsMcpItemView> {
    match s.settings {
        Some(settings) => if settings.selected < listed_mcp(s).len() {
            Some(listed_mcp(s)[settings.selected as int])
        } else {
            None
        },
        None => None,
    }
}

/// Returns the server that is selected in the settings.
pub fn selected_settings_mcp(app: &TuiState) -> (result: Option<SettingsMcpItem>)
    ensures
        opt(result) == chosen_mcp(app@),
{
    match &app.settings {
        Some(settings) => {
            let items = settings_mcp_items(app);
            if settings.selected < items.len() {
                Some(items[settings.selected].duplicate())
            } else {
                None
            }
        },
        None => None,
    }
}

/// What is configured appears in the settings, whether the catalogue has it or not.
pub proof fn configured_servers_are_listed(
    entries: Seq<McpCatalogEntryView>,
    list: Seq<ConfiguredMcpView>,
    at: int,
)
    requires
        0 <= at < list.len(),
    ensures
        exists|i: int|
            0 <= i < mcp_items(entries, list).len() && lower(
                mcp_item_id(#[trigger] mcp_items(entries, list)[i]),
            ) == lower(list[at].name),
    decreases list.len(),
{
    let items = mcp_items(entries, list);
    if in_mcp_catalog(entries, list[at].name) {
        let i = choose|i: int| 0 <= i < entries.len() && lower(#[trigger] entries[i].id) == lower(list[at].name);
        assert(items[i].entry == Some(entries[i]));
    } else {
        other_mcp_found(entries, list, at);
        let others = other_mcp_items(entries, list);
        let k = choose|k: int| 0 <= k < others.len() && #[trigger] others[k] == (SettingsMcpItemView { entry: None, configured: Some(list[at]) });
        assert(items[entries.len() + k] == others[k]);
    }
}

proof fn other_mcp_found(entries: Seq<McpCatalogEntryView>, list: Seq<ConfiguredMcpView>, at: int)
    requires
        0 <= at < list.len(),
        !in_mcp_catalog(entries, list[at].name),
    ensures
        exists|k: int|
            0 <= k < other_mcp_items(entries, list).len() && #[trigger] other_mcp_items(entries, list)[k]
                == (SettingsMcpItemView { entry: None, configured: Some(list[at]) }),
    decreases list.len(),
{
    let wanted = SettingsMcpItemView { entry: None, configured: Some(list[at]) };
    let all = other_mcp_items(entries, list);
    if at == list.len() - 1 {
        assert(all[all.len() - 1] == wanted);
    } else {
        other_mcp_found(entries, list.drop_last(), at);
        let others = other_mcp_items(entries, list.drop_last());
        let k = choose|k: int| 0 <= k < others.len() && #[trigger] others[k] == wanted;
        assert(all[k] == wanted);
    }
}

// ---------------------------------------------------------------------------
// Skills
// ---------------------------------------------------------------------------

/// The skill of a name among the installed ones, whatever its case.
pub open spec fn installed_for(list: Seq<InstalledSkillView>, name: Seq<char>) -> Option<InstalledSkillView>
    decreases list.len(),
{
    if list.len() == 0 {
        None
    } else if lower(list[0].name) == lower(name) {
        Some(list[0])
    } else {
        installed_for(list.skip(1), name)
    }
}

/// Whether the catalogue has an entry for a installed skill.
pub open spec fn in_skill_catalog(entries: Seq<SkillEntryView>, name: Seq<char>) -> bool {
    exists|i: int| 0 <= i < entries.len() && lower(#[trigger] entries[i].id) == lower(name)
}

/// The installed skills without an entry in the catalogue.
pub open spec fn other_skill_items(
    entries: Seq<SkillEntryView>,
    list: Seq<InstalledSkillView>,
) -> Seq<SettingsSkillItemView>
    decreases list.len(),
{
    if list.len() == 0 {
        Seq::empty()
    } else {
        let others = other_skill_items(entries, list.drop_last());
        if in_skill_catalog(entries, list.last().name) {
            others
        } else {
            others.push(SettingsSkillItemView { entry: None, installed: Some(list.last()) })
        }
    }
}

/// The skills of the catalogue, then the installed ones that it does not have.
pub open spec fn skill_items(
    entries: Seq<SkillEntryView>,
    list: Seq<InstalledSkillView>,
) -> Seq<SettingsSkillItemView> {
    Seq::new(
        entries.len(),
        |i: int|
            SettingsSkillItemView {
                entry: Some(entries[i]),
                installed: installed_for(list, entries[i].id),
            },
    ) + other_skill_items(entries, list)
}

fn find_installed(list: &Vec<InstalledSkill>, name: &str) -> (result: Option<InstalledSkill>)
    ensures
        opt(result) == installed_for(views(list@), name@),
{
    let ghost all = views(list@);
    let mut i: usize = 0;
    assert(all.skip(0) =~= all);
    while i < list.len()
        invariant
            i <= list@.len(),
            all == views(list@),
            installed_for(all, name@) == installed_for(all.skip(i as int), name@),
        decreases list@.len() - i,
    {
        assert(all.skip(i as int)[0] == list@[i as int]@);
        if same_ignoring_case(&list[i].name, name) {
            return Some(list[i].duplicate());
        }
        assert(all.skip(i as int).skip(1) =~= all.skip(i + 1));
        i = i + 1;
    }
    None
}

fn skill_listed(entries: &Vec<SkillEntry>, name: &str) -> (result: bool)
    ensures
        result == in_skill_catalog(views(entries@), name@),
{
    let ghost all = views(entries@);
    let mut i: usize = 0;
    while i < entries.len()
        invariant
            i <= entries@.len(),
            all == views(entries@),
            forall|k: int| 0 <= k < i ==> lower(#[trigger] all[k].id) != lower(name@),
        decreases entries@.len() - i,
    {
        assert(all[i as int] == entries@[i as int]@);
        if same_ignoring_case(&entries[i].id, name) {
            assert(lower(all[i as int].id) == lower(name@));
            return true;
        }
        i = i + 1;
    }
    false
}

/// Returns the skills of the catalogue, then the installed ones that it does not have.
pub fn merge_skill(entries: &Vec<SkillEntry>, list: &Vec<InstalledSkill>) -> (result: Vec<SettingsSkillItem>)
    ensures
        views(result@) == skill_items(views(entries@), views(list@)),
{
    let ghost all = views(entries@);
    let ghost owned = views(list@);
    let ghost wanted = skill_items(all, owned);
    let mut items: Vec<SettingsSkillItem> = Vec::new();
    let mut i: usize = 0;
    assert(wanted.take(0) =~= Seq::<SettingsSkillItemView>::empty());
    while i < entries.len()
        invariant
            i <= entries@.len(),
            all == views(entries@),
            owned == views(list@),
            wanted == skill_items(all, owned),
            views(items@) == wanted.take(i as int),
        decreases entries@.len() - i,
    {
        assert(all[i as int] == entries@[i as int]@);
        let installed = find_installed(list, &entries[i].id);
        items.push(SettingsSkillItem { entry: Some(entries[i].duplicate()), installed });
        assert(wanted.take(i + 1) =~= wanted.take(i as int).push(wanted[i as int]));
        i = i + 1;
    }
    let ghost listed = views(items@);
    i = 0;
    assert(owned.take(0) =~= Seq::<InstalledSkillView>::empty());
    assert(listed + Seq::<SettingsSkillItemView>::empty() =~= listed);
    while i < list.len()
        invariant
            i <= list@.len(),
            all == views(entries@),
            owned == views(list@),
            views(items@) == listed + other_skill_items(all, owned.take(i as int)),
        decreases list@.len() - i,
    {
        let ghost part = owned.take(i + 1);
        let ghost before = views(items@);
        assert(part.drop_last() =~= owned.take(i as int));
        assert(part.last() == list@[i as int]@);
        if !skill_listed(entries, &list[i].name) {
            items.push(SettingsSkillItem { entry: None, installed: Some(list[i].duplicate()) });
            assert(views(items@) =~= listed + other_skill_items(all, part));
        }
        i = i + 1;
    }
    assert(owned.take(i as int) =~= owned);
    assert(views(items@) =~= wanted);
    items
}

impl SettingsSkillItem {
    /// Returns the identifier of the entry, or else the name of what is installed.
    pub fn id(&self) -> (result: String)
        ensures
            result@ == skill_item_id(self@),
    {
        match &self.entry {
            Some(entry) => entry.id.clone(),
            None => match &self.installed {
                Some(installed) => installed.name.clone(),
                None => String::new(),
            },
        }
    }
}

/// The identifier of an entry, or else the name of what is installed.
pub open spec fn skill_item_id(item: SettingsSkillItemView) -> Seq<char> {
    match item.entry {
        Some(entry) => entry.id,
        None => match item.installed {
            Some(installed) => installed.name,
            None => Seq::empty(),
        },
    }
}

/// The skills that the settings list.
pub open spec fn listed_skill(s: TuiStateView) -> Seq<SettingsSkillItemView> {
    skill_items(
        s.skill_entries,
        match s.settings {
            Some(settings) => settings.skills,
            None => Seq::empty(),
        },
    )
}

/// Returns the skills that the settings list.
pub fn settings_skill_items(app: &TuiState) -> (result: Vec<SettingsSkillItem>)
    ensures
        views(result@) == listed_skill(app@),
{
    match &app.settings {
        Some(settings) => merge_skill(&app.skill_entries, &settings.skills),
        None => {
            let none: Vec<InstalledSkill> = Vec::new();
            merge_skill(&app.skill_entries, &none)
        },
    }
}

/// The skill that is selected in the settings.
pub open spec fn chosen_skill(s: TuiStateView) -> Option<SettingsSkillItemView> {
    match s.settings {
        Some(settings) => if settings.selected < listed_skill(s).len() {
            Some(listed_skill(s)[settings.selected as int])
        } else {
            None
        },
        None => None,
    }
}

/// Returns the skill that is selected in the settings.
pub fn selected_settings_skill(app: &TuiState) -> (result: Option<SettingsSkillItem>)
    ensures
        opt(result) == chosen_skill(app@),
{
    match &app.settings {
        Some(settings) => {
            let items = settings_skill_items(app);
            if settings.selected < items.len() {
                Some(items[settings.selected].duplicate())
            } else {
                None
            }
        },
        None => None,
    }
}

/// What is installed appears in the settings, whether the catalogue has it or not.
pub proof fn installed_skills_are_listed(
    entries: Seq<SkillEntryView>,
    list: Seq<InstalledSkillView>,
    at: int,
)
    requires
        0 <= at < list.len(),
    ensures
        exists|i: int|
            0 <= i < skill_items(entries, list).len() && lower(
                skill_item_id(#[trigger] skill_items(entries, list)[i]),
            ) == lower(list[at].name),
    decreases list.len(),
{
    let items = skill_items(entries, list);
    if in_skill_catalog(entries, list[at].name) {
        let i = choose|i: int| 0 <= i < entries.len() && lower(#[trigger] entries[i].id) == lower(list[at].name);
        assert(items[i].entry == Some(entries[i]));
    } else {
        other_skill_found(entries, list, at);
        let others = other_skill_items(entries, list);
        let k = choose|k: int| 0 <= k < others.len() && #[trigger] others[k] == (SettingsSkillItemView { entry: None, installed: Some(list[at]) });
        assert(items[entries.len() + k] == others[k]);
    }
}

proof fn other_skill_found(entries: Seq<SkillEntryView>, list: Seq<InstalledSkillView>, at: int)
    requires
        0 <= at < list.len(),
        !in_skill_catalog(entries, list[at].name),
    ensures
        exists|k: int|
            0 <= k < other_skill_items(entries, list).len() && #[trigger] other_skill_items(entries, list)[k]
                == (SettingsSkillItemView { entry: None, installed: Some(list[at]) }),
    decreases list.len(),
{
    let wanted = SettingsSkillItemView { entry: None, installed: Some(list[at]) };
    let all = other_skill_items(entries, list);
    if at == list.len() - 1 {
        assert(all[all.len() - 1] == wanted);
    } else {
        other_skill_found(entries, list.drop_last(), at);
        let others = other_skill_items(entries, list.drop_last());
        let k = choose|k: int| 0 <= k < others.len() && #[trigger] others[k] == wanted;
        assert(all[k] == wanted);
    }
}

// ---------------------------------------------------------------------------
// Reading again
// ---------------------------------------------------------------------------

/// How many items the open page of the settings has.
pub open spec fn item_count(s: TuiStateView) -> nat {
    match s.settings {
        Some(settings) => match settings.tab {
            SettingsTab::Providers => settings.provider_ids.len(),
            SettingsTab::Mcp => listed_mcp(s).len(),
            SettingsTab::Skills => listed_skill(s).len(),
            SettingsTab::Runtime => 0,
        },
        None => 0,
    }
}

/// Returns how many items the open page of the settings has.
pub fn settings_item_count(app: &TuiState) -> (result: usize)
    ensures
        result == item_count(app@),
{
    match &app.settings {
        Some(settings) => match settings.tab {
            SettingsTab::Providers => settings.provider_ids.len(),
            SettingsTab::Mcp => settings_mcp_items(app).len(),
            SettingsTab::Skills => settings_skill_items(app).len(),
            SettingsTab::Runtime => 0,
        },
        None => 0,
    }
}

/// The state with what was read, where the settings are open.
pub open spec fn with_read(s: TuiStateView, read: SettingsReadView) -> TuiStateView {
    match s.settings {
        Some(settings) => TuiStateView {
            settings: Some(
                match read {
                    SettingsReadView::Mcp(servers) => SettingsStateView {
                        mcp_servers: servers,
                        mcp_statuses: Seq::empty(),
                        ..settings
                    },
                    SettingsReadView::Skills(skills) => SettingsStateView { skills, ..settings },
                    SettingsReadView::Failed(_) => settings,
                },
            ),
            ..s
        },
        None => s,
    }
}

/// The state with the selection of the settings kept inside its list.
pub open spec fn selection_kept(s: TuiStateView) -> TuiStateView {
    match s.settings {
        Some(settings) => TuiStateView {
            settings: Some(
                SettingsStateView { selected: inside(settings.selected, item_count(s)), ..settings },
            ),
            ..s
        },
        None => s,
    }
}

/// The state after servers or skills were read again.
pub open spec fn settings_refreshed(s: TuiStateView, read: SettingsReadView) -> TuiStateView {
    match read {
        SettingsReadView::Failed(error) => s.noticed(NoticeKind::Error, error),
        _ => selection_kept(with_read(s, read)),
    }
}

fn take_servers(app: &mut TuiState, servers: Vec<ConfiguredMcp>)
    ensures
        final(app)@ == with_read(old(app)@, SettingsReadView::Mcp(views(servers@))),
{
    if let Some(settings) = &mut app.settings {
        settings.mcp_servers = servers;
        settings.mcp_statuses = Vec::new();
    }
}

fn take_skills(app: &mut TuiState, skills: Vec<InstalledSkill>)
    ensures
        final(app)@ == with_read(old(app)@, SettingsReadView::Skills(views(skills@))),
{
    if let Some(settings) = &mut app.settings {
        settings.skills = skills;
    }
}

fn keep_selection(app: &mut TuiState)
    ensures
        final(app)@ == selection_kept(old(app)@),
{
    let count = settings_item_count(app);
    if let Some(settings) = &mut app.settings {
        settings.selected = kept_inside(settings.selected, count);
    }
}

/// Takes servers or skills that were read again.
pub fn refresh_settings_state(app: &mut TuiState, read: SettingsRead)
    ensures
        final(app)@ == settings_refreshed(old(app)@, read@),
{
    match read {
        SettingsRead::Mcp(servers) => {
            take_servers(app, servers);
            keep_selection(app);
        },
        SettingsRead::Skills(skills) => {
            take_skills(app, skills);
            keep_selection(app);
        },
        SettingsRead::Failed(error) => {
            app.push_notice(NoticeKind::Error, error);
        },
    }
}

} // verus!
