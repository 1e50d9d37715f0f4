//! What the overlays of the terminal list, and what choosing an item does.

use vstd::prelude::*;
use crate::catalog::CatalogParameterView;
use crate::catalog::McpCatalogEntry;
use crate::catalog::McpCatalogEntryView;
use crate::catalog::SkillEntry;
use crate::catalog::SkillEntryView;
use crate::cli::ModelChoice;
use crate::cli::ModelChoiceView;
use crate::editor::Editor;
use crate::editor::EditorView;
use crate::editor::editing;
use crate::search::catalog_matches;
use crate::search::finds_entry;
use crate::search::finds_model;
use crate::search::model_matches;
use crate::search::places;
use crate::search::ranked;
use crate::search::ranked_sessions;
use crate::session::Session;
use crate::session::SessionView;
use crate::table::pairs_of;
use crate::text::contains;
use crate::text::has;
use crate::text::lower;
use crate::text::texts_empty;
use crate::text::texts_push;
use crate::text::to_lower;
use crate::timeline::NoticeKind;
use crate::timeline::replayed;
use crate::tui::CatalogTab;
use crate::tui::DeleteTarget;
use crate::tui::DeleteTargetView;
use crate::tui::FormField;
use crate::tui::FormFieldView;
use crate::tui::McpForm;
use crate::tui::McpFormView;
use crate::tui::ModelUse;
use crate::tui::Overlay;
use crate::tui::OverlayKind;
use crate::tui::OverlayView;
use crate::tui::SettingsTab;
use crate::tui::TuiAction;
use crate::tui::TuiActionView;
use crate::tui::TuiState;
use crate::tui::TuiStateView;
use crate::tui::asking;
use crate::tui::idle_required;
use crate::tui::new_overlay;
use crate::tui::nothing;
use crate::tui::only;
use crate::tui::overlay_opened;
use crate::tui::quiet;
use crate::tui_commands::begin_session;
use crate::tui_commands::clear_timeline;
use crate::tui_commands::handle_memory_command;
use crate::tui_commands::leave;
use crate::tui_commands::leaving;
use crate::tui_commands::memory_step;
use crate::tui_commands::open_settings_tab;
use crate::tui_commands::plan_shown;
use crate::tui_commands::session_begun;
use crate::tui_commands::show_plan_status;
use crate::tui_commands::tab_requested;
use crate::tui_commands::timeline_cleared;
use crate::tui_events::compaction_requested;
use crate::tui_events::mcp_asked;
use crate::tui_events::request_compaction;
use crate::tui_events::start_mcp_status_refresh;
use crate::tui_settings::SettingsRead;
use crate::tui_settings::SettingsReadView;
use crate::tui_settings::refresh_settings_state;
use crate::tui_settings::settings_refreshed;
use crate::views::Duplicate;
use crate::views::group_views;
use crate::views::views;

verus! {

broadcast use {group_views, texts_push, texts_empty};

/// What an item of the command menu does.
#[derive(Clone, Copy, Debug, PartialEq, Eq, Structural)]
pub enum MenuAction {
    NewSession,
    History,
    Models,
    Status,
    Compact,
    Catalog,
    Mcp,
    Skills,
    Memory,
    Plan,
    Loop,
    Settings,
    ClearTimeline,
    Help,
    Quit,
}

/// An item of the command menu.
#[derive(Debug)]
pub struct MenuItem {
    pub label: String,
    pub detail: String,
    pub action: MenuAction,
}

/// What a `MenuItem` holds.
#[verifier::ext_equal]
pub struct MenuItemView {
    pub label: Seq<char>,
    pub detail: Seq<char>,
    pub action: MenuAction,
}

impl View for MenuItem {
    type V = MenuItemView;

    open spec fn view(&self) -> MenuItemView {
        MenuItemView {
            label: self.label@,
            detail: self.detail@,
            action: self.action,
        }
    }
}

// ---------------------------------------------------------------------------
// The command menu
// ---------------------------------------------------------------------------

/// An item of the command menu.
pub open spec fn menu_item(label: Seq<char>, detail: Seq<char>, action: MenuAction) -> MenuItemView {
    MenuItemView { label, detail, action }
}

/// The command menu.
pub open spec fn menu_items() -> Seq<MenuItemView> {
    seq![
        menu_item("New session"@, "Start with an empty conversation"@, MenuAction::NewSession),
        menu_item("Session history"@, "Resume or remove a previous session"@, MenuAction::History),
        menu_item("Switch model"@, "Choose from providers.json"@, MenuAction::Models),
        menu_item("Session status"@, "Show model, policy, context, Plan, and Loop"@, MenuAction::Status),
        menu_item("Compact context"@, "Compress this session now"@, MenuAction::Compact),
        menu_item("Catalogs"@, "Browse installable MCP and Skills"@, MenuAction::Catalog),
        menu_item("MCP servers"@, "Manage configured MCP servers"@, MenuAction::Mcp),
        menu_item("Skills"@, "Manage installed Skills"@, MenuAction::Skills),
        menu_item("Memory"@, "List and manage persistent memories"@, MenuAction::Memory),
        menu_item("Plan status"@, "Show the current execution plan"@, MenuAction::Plan),
        menu_item("Loop"@, "Create or control a persistent objective"@, MenuAction::Loop),
        menu_item("Settings"@, "Manage providers and runtime configuration"@, MenuAction::Settings),
        menu_item("Clear timeline"@, "Keep the session but clear this view"@, MenuAction::ClearTimeline),
        menu_item("Keyboard help"@, "Show the shortcut reference"@, MenuAction::Help),
        menu_item("Quit Coomi"@, "Close the terminal UI"@, MenuAction::Quit),
    ]
}

fn add_item(items: &mut Vec<MenuItem>, label: &str, detail: &str, action: MenuAction)
    ensures
        views(final(items)@) == views(old(items)@).push(menu_item(label@, detail@, action)),
{
    items.push(MenuItem { label: label.to_owned(), detail: detail.to_owned(), action });
}

/// Returns the command menu.
pub fn command_menu() -> (result: Vec<MenuItem>)
    ensures
        views(result@) == menu_items(),
{
    let mut items: Vec<MenuItem> = Vec::new();
    add_item(&mut items, "New session", "Start with an empty conversation", MenuAction::NewSession);
    add_item(&mut items, "Session history", "Resume or remove a previous session", MenuAction::History);
    add_item(&mut items, "Switch model", "Choose from providers.json", MenuAction::Models);
    add_item(&mut items, "Session status", "Show model, policy, context, Plan, and Loop", MenuAction::Status);
    add_item(&mut items, "Compact context", "Compress this session now", MenuAction::Compact);
    add_item(&mut items, "Catalogs", "Browse installable MCP and Skills", MenuAction::Catalog);
    add_item(&mut items, "MCP servers", "Manage configured MCP servers", MenuAction::Mcp);
    add_item(&mut items, "Skills", "Manage installed Skills", MenuAction::Skills);
    add_item(&mut items, "Memory", "List and manage persistent memories", MenuAction::Memory);
    add_item(&mut items, "Plan status", "Show the current execution plan", MenuAction::Plan);
    add_item(&mut items, "Loop", "Create or control a persistent objective", MenuAction::Loop);
    add_item(&mut items, "Settings", "Manage providers and runtime configuration", MenuAction::Settings);
    add_item(&mut items, "Clear timeline", "Keep the session but clear this view", MenuAction::ClearTimeline);
    add_item(&mut items, "Keyboard help", "Show the shortcut reference", MenuAction::Help);
    add_item(&mut items, "Quit Coomi", "Close the terminal UI", MenuAction::Quit);
    assert(views(items@) =~= menu_items());
    items
}

// ---------------------------------------------------------------------------
// What is listed
// ---------------------------------------------------------------------------

/// The places up to a count of which something holds.
pub open spec fn matching(count: nat, wanted: spec_fn(int) -> bool) -> Seq<int>
    decreases count,
{
    if count == 0 {
        Seq::empty()
    } else if wanted(count - 1) {
        matching((count - 1) as nat, wanted).push(count - 1)
    } else {
        matching((count - 1) as nat, wanted)
    }
}

/// A place among those of which something holds is a place, and it holds there.
proof fn matching_holds(count: nat, wanted: spec_fn(int) -> bool, k: int)
    requires
        0 <= k < matching(count, wanted).len(),
    ensures
        0 <= matching(count, wanted)[k] < count,
        wanted(matching(count, wanted)[k]),
    decreases count,
{
    if count > 0 {
        let before = matching((count - 1) as nat, wanted);
        if k < before.len() {
            matching_holds((count - 1) as nat, wanted, k);
        }
    }
}

/// The places of the items of the command menu that a query finds.
pub open spec fn commands_found(list: Seq<MenuItemView>, query: Seq<char>) -> Seq<int> {
    matching(list.len(), |i: int| contains(lower(list[i].label), query))
}

/// Returns the places of the items of the command menu that a query finds.
pub fn find_commands(list: &Vec<MenuItem>, query: &str) -> (result: Vec<usize>)
    ensures
        places(result@) == commands_found(views(list@), query@),
        forall|k: int| 0 <= k < result@.len() ==> #[trigger] result@[k] < list@.len(),
{
    let ghost all = views(list@);
    let ghost wanted = |i: int| contains(lower(all[i].label), query@);
    let mut found: Vec<usize> = Vec::new();
    let mut i: usize = 0;
    assert(places(found@) =~= Seq::<int>::empty());
    while i < list.len()
        invariant
            i <= list@.len(),
            all == views(list@),
            wanted == (|i: int| contains(lower(all[i].label), query@)),
            places(found@) == matching(i as nat, wanted),
            forall|k: int| 0 <= k < found@.len() ==> #[trigger] found@[k] < i,
        decreases list@.len() - i,
    {
        let ghost before = found@;
        assert(all[i as int] == list@[i as int]@);
        if has(&to_lower(&list[i].label), query) {
            found.push(i);
            assert(places(found@) =~= places(before).push(i as int));
        }
        i = i + 1;
    }
    found
}

/// The places of the models that a query finds.
pub open spec fn models_found(list: Seq<ModelChoiceView>, query: Seq<char>) -> Seq<int> {
    matching(list.len(), |i: int| finds_model(list[i], query))
}

/// Returns the places of the models that a query finds.
pub fn find_models(list: &Vec<ModelChoice>, query: &str) -> (result: Vec<usize>)
    ensures
        places(result@) == models_found(views(list@), query@),
        forall|k: int| 0 <= k < result@.len() ==> #[trigger] result@[k] < list@.len(),
{
    let ghost all = views(list@);
    let ghost wanted = |i: int| finds_model(all[i], query@);
    let mut found: Vec<usize> = Vec::new();
    let mut i: usize = 0;
    assert(places(found@) =~= Seq::<int>::empty());
    while i < list.len()
        invariant
            i <= list@.len(),
            all == views(list@),
            wanted == (|i: int| finds_model(all[i], query@)),
            places(found@) == matching(i as nat, wanted),
            forall|k: int| 0 <= k < found@.len() ==> #[trigger] found@[k] < i,
        decreases list@.len() - i,
    {
        let ghost before = found@;
        assert(all[i as int] == list@[i as int]@);
        if model_matches(&list[i], query) {
            found.push(i);
            assert(places(found@) =~= places(before).push(i as int));
        }
        i = i + 1;
    }
    found
}

/// The places of the servers of the catalogue that a query finds.
pub open spec fn servers_found(list: Seq<McpCatalogEntryView>, query: Seq<char>) -> Seq<int> {
    matching(list.len(), |i: int| finds_entry(list[i].id, list[i].name, query))
}

/// Returns the places of the servers of the catalogue that a query finds.
pub fn find_servers(list: &Vec<McpCatalogEntry>, query: &str) -> (result: Vec<usize>)
    ensures
        places(result@) == servers_found(views(list@), query@),
        forall|k: int| 0 <= k < result@.len() ==> #[trigger] result@[k] < list@.len(),
{
    let ghost all = views(list@);
    let ghost wanted = |i: int| finds_entry(all[i].id, all[i].name, query@);
    let mut found: Vec<usize> = Vec::new();
    let mut i: usize = 0;
    assert(places(found@) =~= Seq::<int>::empty());
    while i < list.len()
        invariant
            i <= list@.len(),
            all == views(list@),
            wanted == (|i: int| finds_entry(all[i].id, all[i].name, query@)),
            places(found@) == matching(i as nat, wanted),
            forall|k: int| 0 <= k < found@.len() ==> #[trigger] found@[k] < i,
        decreases list@.len() - i,
    {
        let ghost before = found@;
        assert(all[i as int] == list@[i as int]@);
        if catalog_matches(&list[i].id, &list[i].name, query) {
            found.push(i);
            assert(places(found@) =~= places(before).push(i as int));
        }
        i = i + 1;
    }
    found
}

/// The places of the skills of the catalogue that a query finds.
pub open spec fn skills_found(list: Seq<SkillEntryView>, query: Seq<char>) -> Seq<int> {
    matching(list.len(), |i: int| finds_entry(list[i].id, list[i].name, query))
}

/// Returns the places of the skills of the catalogue that a query finds.
pub fn find_skills(list: &Vec<SkillEntry>, query: &str) -> (result: Vec<usize>)
    ensures
        places(result@) == skills_found(views(list@), query@),
        forall|k: int| 0 <= k < result@.len() ==> #[trigger] result@[k] < list@.len(),
{
    let ghost all = views(list@);
    let ghost wanted = |i: int| finds_entry(all[i].id, all[i].name, query@);
    let mut found: Vec<usize> = Vec::new();
    let mut i: usize = 0;
    assert(places(found@) =~= Seq::<int>::empty());
    while i < list.len()
        invariant
            i <= list@.len(),
            all == views(list@),
            wanted == (|i: int| finds_entry(all[i].id, all[i].name, query@)),
            places(found@) == matching(i as nat, wanted),
            forall|k: int| 0 <= k < found@.len() ==> #[trigger] found@[k] < i,
        decreases list@.len() - i,
    {
        let ghost before = found@;
        assert(all[i as int] == list@[i as int]@);
        if catalog_matches(&list[i].id, &list[i].name, query) {
            found.push(i);
            assert(places(found@) =~= places(before).push(i as int));
        }
        i = i + 1;
    }
    found
}

/// What the user looks for in an overlay.
pub open spec fn query_of(overlay: OverlayView) -> Seq<char> {
    lower(overlay.query.text())
}

/// The places of what an overlay lists.
pub open spec fn overlay_items(s: TuiStateView, overlay: OverlayView) -> Seq<int> {
    let query = query_of(overlay);
    match overlay.kind {
        OverlayKind::Commands => commands_found(menu_items(), query),
        OverlayKind::Models => models_found(s.models, query),
        OverlayKind::History => ranked(s.sessions, query),
        OverlayKind::Catalog => match overlay.catalog_tab {
            CatalogTab::Mcp => servers_found(s.mcp_entries, query),
            CatalogTab::Skills => skills_found(s.skill_entries, query),
        },
        _ => Seq::empty(),
    }
}

/// Returns the places of what an overlay lists.
pub fn list_overlay(app: &TuiState, overlay: &Overlay) -> (result: Vec<usize>)
    ensures
        places(result@) == overlay_items(app@, overlay@),
        forall|k: int|
            0 <= k < result@.len() ==> #[trigger] result@[k] < (match overlay@.kind {
                OverlayKind::Commands => menu_items().len(),
                OverlayKind::Models => app@.models.len(),
                OverlayKind::History => app@.sessions.len(),
                OverlayKind::Catalog => match overlay@.catalog_tab {
                    CatalogTab::Mcp => app@.mcp_entries.len(),
                    CatalogTab::Skills => app@.skill_entries.len(),
                },
                _ => 0,
            }),
{
    let query = to_lower(&overlay.query.text());
    match overlay.kind {
        OverlayKind::Commands => find_commands(&command_menu(), &query),
        OverlayKind::Models => find_models(&app.models, &query),
        OverlayKind::History => ranked_sessions(&app.sessions, &query),
        OverlayKind::Catalog => match overlay.catalog_tab {
            CatalogTab::Mcp => find_servers(&app.mcp_entries, &query),
            CatalogTab::Skills => find_skills(&app.skill_entries, &query),
        },
        _ => {
            let none: Vec<usize> = Vec::new();
            assert(places(none@) =~= Seq::<int>::empty());
            none
        },
    }
}

/// Returns how many items the overlay lists.
pub fn overlay_item_count(app: &TuiState) -> (result: usize)
    ensures
        result == (match app@.overlay {
            Some(overlay) => overlay_items(app@, overlay).len(),
            None => 0,
        }),
{
    match &app.overlay {
        Some(overlay) => list_overlay(app, overlay).len(),
        None => 0,
    }
}

/// The place of the item that is selected in an overlay.
pub open spec fn selected_place(s: TuiStateView) -> Option<int> {
    match s.overlay {
        Some(overlay) => if overlay.selected < overlay_items(s, overlay).len() {
            Some(overlay_items(s, overlay)[overlay.selected as int])
        } else {
            None
        },
        None => None,
    }
}

fn find_selected(app: &TuiState) -> (result: Option<usize>)
    ensures
        match result {
            Some(place) => selected_place(app@) == Some(place as int) && app@.overlay is Some
                && place < (match app@.overlay->0.kind {
                OverlayKind::Commands => menu_items().len(),
                OverlayKind::Models => app@.models.len(),
                OverlayKind::History => app@.sessions.len(),
                OverlayKind::Catalog => match app@.overlay->0.catalog_tab {
                    CatalogTab::Mcp => app@.mcp_entries.len(),
                    CatalogTab::Skills => app@.skill_entries.len(),
                },
                _ => 0,
            }),
            None => selected_place(app@) is None,
        },
{
    match &app.overlay {
        Some(overlay) => {
            let items = list_overlay(app, overlay);
            if overlay.selected < items.len() {
                assert(places(items@)[overlay.selected as int] == items@[overlay.selected as int]);
                Some(items[overlay.selected])
            } else {
                None
            }
        },
        None => None,
    }
}

// ---------------------------------------------------------------------------
// Selecting
// ---------------------------------------------------------------------------

/// The state with another overlay.
pub open spec fn with_overlay(s: TuiStateView, overlay: OverlayView) -> TuiStateView {
    TuiStateView { overlay: Some(overlay), ..s }
}

/// A selection moved by so many items, kept inside the list.
pub open spec fn moved(selected: usize, direction: int, count: nat) -> usize {
    let next = selected + direction;
    if next < 0 {
        0
    } else if next >= count {
        (count - 1) as usize
    } else {
        next as usize
    }
}

/// The state after the selection moved by so many items.
#[verifier::opaque]
pub open spec fn selection_moved(s: TuiStateView, direction: int) -> TuiStateView {
    match s.overlay {
        Some(overlay) => {
            let count = overlay_items(s, overlay).len();
            if count == 0 {
                s
            } else {
                with_overlay(
                    s,
                    OverlayView { selected: moved(overlay.selected, direction, count), ..overlay },
                )
            }
        },
        None => s,
    }
}

/// Moves the selection by so many items and keeps it inside the list.
pub fn move_overlay_selection(app: &mut TuiState, back: bool, by: usize)
    ensures
        final(app)@ == selection_moved(
            old(app)@,
            if back {
                -by
            } else {
                by as int
            },
        ),
{
    proof {
        reveal(selection_moved);
    }
    let count = overlay_item_count(app);
    if count == 0 {
        return;
    }
    if let Some(overlay) = &mut app.overlay {
        let last = count - 1;
        let next = if back {
            if overlay.selected < by {
                0
            } else {
                overlay.selected - by
            }
        } else if by > last || overlay.selected > last - by {
            last
        } else {
            overlay.selected + by
        };
        overlay.selected = if next > last {
            last
        } else {
            next
        };
    }
}

/// The state after the query of the overlay was edited.
#[verifier::opaque]
pub open spec fn query_edited(s: TuiStateView, query: EditorView) -> TuiStateView {
    match s.overlay {
        Some(overlay) => with_overlay(s, OverlayView { query, selected: 0, ..overlay }),
        None => s,
    }
}

/// Removes the last character of the query.
pub fn shorten_query(app: &mut TuiState)
    ensures
        final(app)@ == (match old(app)@.overlay {
            Some(overlay) => query_edited(old(app)@, overlay.query.erased()),
            None => old(app)@,
        }),
{
    proof {
        reveal(query_edited);
    }
    if let Some(overlay) = &mut app.overlay {
        overlay.query.backspace();
        overlay.selected = 0;
    }
}

/// Adds a character to the query.
pub fn extend_query(app: &mut TuiState, character: char)
    ensures
        final(app)@ == (match old(app)@.overlay {
            Some(overlay) => query_edited(old(app)@, overlay.query.typed(seq![character])),
            None => old(app)@,
        }),
{
    proof {
        reveal(query_edited);
    }
    if let Some(overlay) = &mut app.overlay {
        overlay.query.insert(character);
        overlay.selected = 0;
    }
}

/// The state with the other half of the catalogue.
#[verifier::opaque]
pub open spec fn tab_set(s: TuiStateView, tab: CatalogTab) -> TuiStateView {
    match s.overlay {
        Some(overlay) => with_overlay(
            s,
            OverlayView {
                catalog_tab: tab,
                selected: 0,
                query: editing(Seq::empty()),
                ..overlay
            },
        ),
        None => s,
    }
}

/// Shows a half of the catalogue.
pub fn set_catalog_tab(app: &mut TuiState, tab: CatalogTab)
    ensures
        final(app)@ == tab_set(old(app)@, tab),
{
    proof {
        reveal(tab_set);
    }
    if let Some(overlay) = &mut app.overlay {
        overlay.catalog_tab = tab;
        overlay.selected = 0;
        overlay.query.clear();
    }
}

/// The half of the catalogue that is not shown.
pub open spec fn other_tab(s: TuiStateView) -> CatalogTab {
    if s.overlay is Some && s.overlay->0.catalog_tab == CatalogTab::Mcp {
        CatalogTab::Skills
    } else {
        CatalogTab::Mcp
    }
}

/// Shows the other half of the catalogue.
pub fn toggle_catalog_tab(app: &mut TuiState)
    ensures
        final(app)@ == tab_set(old(app)@, other_tab(old(app)@)),
{
    let mut tab = CatalogTab::Mcp;
    if let Some(overlay) = &app.overlay {
        if overlay.catalog_tab == CatalogTab::Mcp {
            tab = CatalogTab::Skills;
        }
    }
    set_catalog_tab(app, tab);
}

/// The state after the deletion of the selected session was asked for.
#[verifier::opaque]
pub open spec fn session_marked(s: TuiStateView) -> TuiStateView {
    match s.overlay {
        Some(overlay) => {
            let found = ranked(s.sessions, query_of(overlay));
            if overlay.selected < found.len() {
                TuiStateView {
                    confirm_delete: Some(
                        DeleteTargetView::Session(s.sessions[found[overlay.selected as int]].id),
                    ),
                    ..s
                }
            } else {
                s
            }
        },
        None => s,
    }
}

/// Asks whether the selected session shall be deleted.
pub fn mark_selected_session_for_delete(app: &mut TuiState)
    ensures
        final(app)@ == session_marked(old(app)@),
{
    proof {
        reveal(session_marked);
    }
    let mut target: Option<String> = None;
    if let Some(overlay) = &app.overlay {
        let query = to_lower(&overlay.query.text());
        let found = ranked_sessions(&app.sessions, &query);
        if overlay.selected < found.len() {
            assert(places(found@)[overlay.selected as int] == found@[overlay.selected as int]);
            let at = found[overlay.selected];
            assert(app@.sessions[at as int] == app.sessions@[at as int]@);
            target = Some(app.sessions[at].id.clone());
        }
    }
    if let Some(id) = target {
        app.confirm_delete = Some(DeleteTarget::Session(id));
    }
}

// ---------------------------------------------------------------------------
// Choosing
// ---------------------------------------------------------------------------

/// The form for what a server needs.
pub open spec fn server_form(entry: McpCatalogEntryView) -> McpFormView {
    McpFormView {
        entry,
        fields: entry.required_parameters.map_values(
            |parameter: CatalogParameterView|
                FormFieldView {
                    key: parameter.key,
                    label: parameter.label,
                    secret: false,
                    editor: editing(Seq::empty()),
                },
        ),
        selected: 0,
    }
}

fn make_form(entry: McpCatalogEntry) -> (result: McpForm)
    ensures
        result@ == server_form(entry@),
{
    let ghost wanted = server_form(entry@).fields;
    let mut fields: Vec<FormField> = Vec::new();
    let mut i: usize = 0;
    assert(wanted.take(0) =~= Seq::<FormFieldView>::empty());
    while i < entry.required_parameters.len()
        invariant
            i <= entry.required_parameters@.len(),
            wanted == server_form(entry@).fields,
            views(fields@) == wanted.take(i as int),
        decreases entry.required_parameters@.len() - i,
    {
        let parameter = &entry.required_parameters[i];
        fields.push(
            FormField {
                key: parameter.key.clone(),
                label: parameter.label.clone(),
                secret: false,
                editor: Editor::new(),
            },
        );
        assert(entry@.required_parameters[i as int] == parameter@);
        assert(wanted.take(i + 1) =~= wanted.take(i as int).push(wanted[i as int]));
        i = i + 1;
    }
    assert(wanted.take(i as int) =~= wanted);
    McpForm { entry, fields, selected: 0 }
}

/// The state with the form for what a server needs.
#[verifier::opaque]
pub open spec fn server_form_opened(s: TuiStateView, entry: McpCatalogEntryView) -> TuiStateView {
    TuiStateView {
        mcp_form: Some(server_form(entry)),
        overlay: Some(new_overlay(OverlayKind::McpConfig)),
        ..s
    }
}

/// Opens the form for what a server needs.
pub fn open_server_form(app: &mut TuiState, entry: McpCatalogEntry)
    ensures
        final(app)@ == server_form_opened(old(app)@, entry@),
{
    proof {
        reveal(server_form_opened);
    }
    app.mcp_form = Some(make_form(entry));
    app.overlay = Some(Overlay::new(OverlayKind::McpConfig));
}

/// The step that installs a skill of the catalogue.
#[verifier::opaque]
pub open spec fn skill_install(s: TuiStateView, entry: SkillEntryView) -> (
    TuiStateView,
    Seq<TuiActionView>,
) {
    asking(
        TuiStateView {
            catalog_busy: Some(entry.id),
            status: "Installing "@ + entry.name,
            ..s
        },
        TuiActionView::InstallSkill(entry.id),
    )
}

/// Installs a skill of the catalogue.
pub fn start_skill_install(app: &mut TuiState, entry: &SkillEntry) -> (result: Vec<TuiAction>)
    ensures
        (final(app)@, views(result@)) == skill_install(old(app)@, entry@),
{
    proof {
        reveal(skill_install);
    }
    app.catalog_busy = Some(entry.id.clone());
    let mut text = "Installing ".to_owned();
    text.push_str(&entry.name);
    app.status = text;
    only(TuiAction::InstallSkill(entry.id.clone()))
}

/// The step that chooses a server of the catalogue.
pub open spec fn server_chosen(s: TuiStateView, entry: McpCatalogEntryView) -> (
    TuiStateView,
    Seq<TuiActionView>,
) {
    if entry.required_parameters.len() == 0 {
        asking(
            s,
            TuiActionView::ConfigureMcp { id: entry.id, name: entry.name, values: Seq::empty() },
        )
    } else {
        quiet(server_form_opened(s, entry))
    }
}

fn choose_server(app: &mut TuiState, at: usize) -> (result: Vec<TuiAction>)
    requires
        at < old(app)@.mcp_entries.len(),
    ensures
        (final(app)@, views(result@)) == server_chosen(
            old(app)@,
            old(app)@.mcp_entries[at as int],
        ),
{
    let entry = app.mcp_entries[at].duplicate();
    assert(app@.mcp_entries[at as int] == app.mcp_entries@[at as int]@);
    if entry.required_parameters.len() == 0 {
        let values: Vec<(String, String)> = Vec::new();
        assert(pairs_of(values@) =~= Seq::<(Seq<char>, Seq<char>)>::empty());
        only(TuiAction::ConfigureMcp { id: entry.id, name: entry.name, values })
    } else {
        open_server_form(app, entry);
        nothing()
    }
}

/// The step that chooses a skill of the catalogue, unless one is being installed.
pub open spec fn skill_chosen(s: TuiStateView, entry: SkillEntryView) -> (
    TuiStateView,
    Seq<TuiActionView>,
) {
    skill_install(s.closed(), entry)
}

fn choose_skill(app: &mut TuiState, at: usize) -> (result: Vec<TuiAction>)
    requires
        at < old(app)@.skill_entries.len(),
    ensures
        (final(app)@, views(result@)) == skill_chosen(
            old(app)@,
            old(app)@.skill_entries[at as int],
        ),
{
    let entry = app.skill_entries[at].duplicate();
    assert(app@.skill_entries[at as int] == app.skill_entries@[at as int]@);
    app.close_overlay();
    start_skill_install(app, &entry)
}

/// The page of the catalogue that is open; the servers where no overlay is.
pub open spec fn catalog_tab_of(s: TuiStateView) -> CatalogTab {
    match s.overlay {
        Some(overlay) => overlay.catalog_tab,
        None => CatalogTab::Mcp,
    }
}

/// What choosing an item of the catalogue does: the one at a place among those that a query
/// finds on the page that is open.
#[verifier::opaque]
pub open spec fn catalog_step(s: TuiStateView, selected: usize, query: Seq<char>) -> (
    TuiStateView,
    Seq<TuiActionView>,
) {
    match catalog_tab_of(s) {
        CatalogTab::Mcp => {
            let found = servers_found(s.mcp_entries, query);
            if selected < found.len() {
                server_chosen(s, s.mcp_entries[found[selected as int]])
            } else {
                quiet(s)
            }
        },
        CatalogTab::Skills => {
            let found = skills_found(s.skill_entries, query);
            if s.catalog_busy is None && selected < found.len() {
                skill_chosen(s, s.skill_entries[found[selected as int]])
            } else {
                quiet(s)
            }
        },
    }
}

/// Chooses an item of the catalogue: the one at a place among those that a query finds.
pub fn activate_catalog_selection(app: &mut TuiState, selected: usize, query: &str) -> (result: Vec<
    TuiAction,
>)
    ensures
        (final(app)@, views(result@)) == catalog_step(old(app)@, selected, query@),
{
    proof {
        reveal(catalog_step);
    }
    let tab = match &app.overlay {
        Some(overlay) => overlay.catalog_tab,
        None => CatalogTab::Mcp,
    };
    match tab {
        CatalogTab::Mcp => {
            let found = find_servers(&app.mcp_entries, query);
            assert(places(found@).len() == found@.len());
            if selected < found.len() {
                assert(places(found@)[selected as int] == found@[selected as int]);
                choose_server(app, found[selected])
            } else {
                nothing()
            }
        },
        CatalogTab::Skills => {
            if app.catalog_busy.is_some() {
                return nothing();
            }
            let found = find_skills(&app.skill_entries, query);
            assert(places(found@).len() == found@.len());
            if selected < found.len() {
                assert(places(found@)[selected as int] == found@[selected as int]);
                choose_skill(app, found[selected])
            } else {
                nothing()
            }
        },
    }
}

/// The state after a server was configured.
#[verifier::opaque]
pub open spec fn server_configured(s: TuiStateView, name: Seq<char>, path: Seq<char>) -> TuiStateView {
    s.closed().noticed(NoticeKind::Success, "Configured "@ + name + " at "@ + path)
}

/// Tells that a server was configured.
pub fn mcp_configured(app: &mut TuiState, name: &str, path: &str)
    ensures
        final(app)@ == server_configured(old(app)@, name@, path@),
{
    proof {
        reveal(server_configured);
    }
    app.close_overlay();
    let mut text = "Configured ".to_owned();
    text.push_str(name);
    text.push_str(" at ");
    text.push_str(path);
    app.push_notice(NoticeKind::Success, text);
}

/// What an item of the command menu does.
pub open spec fn menu_step(s: TuiStateView, action: MenuAction, id: Seq<char>) -> (
    TuiStateView,
    Seq<TuiActionView>,
) {
    match action {
        MenuAction::NewSession => session_begun(s, id),
        MenuAction::History => overlay_opened(s, OverlayKind::History),
        MenuAction::Models => overlay_opened(s, OverlayKind::Models),
        MenuAction::Status => asking(s.closed(), TuiActionView::MeasureContext),
        MenuAction::Compact => compaction_requested(s),
        MenuAction::Catalog => overlay_opened(s, OverlayKind::Catalog),
        MenuAction::Mcp => tab_requested(s, SettingsTab::Mcp),
        MenuAction::Skills => tab_requested(s, SettingsTab::Skills),
        MenuAction::Memory => memory_step(s.closed(), "list"@, id),
        MenuAction::Plan => quiet(plan_shown(s.closed())),
        MenuAction::Loop => quiet(TuiStateView { editor: editing("/loop "@), ..s }.closed()),
        MenuAction::Settings => asking(s, TuiActionView::ReadSettings(None)),
        MenuAction::ClearTimeline => quiet(timeline_cleared(s).closed()),
        MenuAction::Help => overlay_opened(s, OverlayKind::Help),
        MenuAction::Quit => quiet(leaving(s)),
    }
}

/// Does what an item of the command menu says. `id` is an identifier that is not in use.
pub fn apply_command_action(app: &mut TuiState, action: MenuAction, id: &str) -> (result: Vec<TuiAction>)
    ensures
        (final(app)@, views(result@)) == menu_step(old(app)@, action, id@),
{
    match action {
        MenuAction::NewSession => begin_session(app, id.to_owned()),
        MenuAction::History => app.open_overlay(OverlayKind::History),
        MenuAction::Models => app.open_overlay(OverlayKind::Models),
        MenuAction::Status => {
            app.close_overlay();
            only(TuiAction::MeasureContext)
        },
        MenuAction::Compact => request_compaction(app),
        MenuAction::Catalog => app.open_overlay(OverlayKind::Catalog),
        MenuAction::Mcp => open_settings_tab(app, SettingsTab::Mcp),
        MenuAction::Skills => open_settings_tab(app, SettingsTab::Skills),
        MenuAction::Memory => {
            app.close_overlay();
            handle_memory_command(app, "list", id)
        },
        MenuAction::Plan => {
            app.close_overlay();
            show_plan_status(app);
            nothing()
        },
        MenuAction::Loop => {
            app.editor.set("/loop ");
            app.close_overlay();
            nothing()
        },
        MenuAction::Settings => only(TuiAction::ReadSettings(None)),
        MenuAction::ClearTimeline => {
            clear_timeline(app);
            app.close_overlay();
            nothing()
        },
        MenuAction::Help => app.open_overlay(OverlayKind::Help),
        MenuAction::Quit => {
            leave(app);
            nothing()
        },
    }
}

/// The step that resumes the selected session, unless a turn runs.
#[verifier::opaque]
pub open spec fn history_step(s: TuiStateView) -> (TuiStateView, Seq<TuiActionView>) {
    if s.busy {
        quiet(idle_required(s, "resume another session"@))
    } else {
        match selected_place(s) {
            Some(at) => asking(s, TuiActionView::LoadSession(s.sessions[at].id)),
            None => quiet(s),
        }
    }
}

fn choose_session(app: &mut TuiState) -> (result: Vec<TuiAction>)
    requires
        old(app)@.overlay is Some,
        old(app)@.overlay->0.kind == OverlayKind::History,
    ensures
        (final(app)@, views(result@)) == history_step(old(app)@),
{
    proof {
        reveal(history_step);
    }
    if !app.require_idle("resume another session") {
        return nothing();
    }
    match find_selected(app) {
        Some(at) => {
            assert(app@.sessions[at as int] == app.sessions@[at as int]@);
            only(TuiAction::LoadSession(app.sessions[at].id.clone()))
        },
        None => nothing(),
    }
}

/// The step that chooses the selected model, unless a turn runs.
#[verifier::opaque]
pub open spec fn models_step(s: TuiStateView) -> (TuiStateView, Seq<TuiActionView>) {
    if s.busy {
        quiet(idle_required(s, "switch models"@))
    } else {
        match selected_place(s) {
            Some(at) => asking(
                s,
                TuiActionView::ResolveModel {
                    selector: s.models[at].selector,
                    purpose: ModelUse::Choose,
                },
            ),
            None => quiet(s),
        }
    }
}

fn choose_model(app: &mut TuiState) -> (result: Vec<TuiAction>)
    requires
        old(app)@.overlay is Some,
        old(app)@.overlay->0.kind == OverlayKind::Models,
    ensures
        (final(app)@, views(result@)) == models_step(old(app)@),
{
    proof {
        reveal(models_step);
    }
    if !app.require_idle("switch models") {
        return nothing();
    }
    match find_selected(app) {
        Some(at) => {
            assert(app@.models[at as int] == app.models@[at as int]@);
            only(
                TuiAction::ResolveModel {
                    selector: app.models[at].selector.clone(),
                    purpose: ModelUse::Choose,
                },
            )
        },
        None => nothing(),
    }
}

/// What choosing the selected item does.
pub open spec fn choice_step(s: TuiStateView, id: Seq<char>) -> (TuiStateView, Seq<TuiActionView>) {
    if s.overlay is None {
        quiet(s)
    } else {
        match s.overlay->0.kind {
            OverlayKind::Commands => match selected_place(s) {
                Some(at) => menu_step(s, menu_items()[at].action, id),
                None => quiet(s),
            },
            OverlayKind::Models => models_step(s),
            OverlayKind::History => history_step(s),
            OverlayKind::Catalog => catalog_step(
                s,
                s.overlay->0.selected,
                query_of(s.overlay->0),
            ),
            _ => quiet(s),
        }
    }
}

/// Chooses the selected item. `id` is an identifier that is not in use.
pub fn activate_overlay_selection(app: &mut TuiState, id: &str) -> (result: Vec<TuiAction>)
    ensures
        (final(app)@, views(result@)) == choice_step(old(app)@, id@),
{
    let (kind, selected, query) = match &app.overlay {
        Some(overlay) => (overlay.kind, overlay.selected, to_lower(&overlay.query.text())),
        None => {
            return nothing();
        },
    };
    match kind {
        OverlayKind::Commands => match find_selected(app) {
            Some(at) => {
                let menu = command_menu();
                assert(menu_items()[at as int] == menu@[at as int]@);
                apply_command_action(app, menu[at].action, id)
            },
            None => nothing(),
        },
        OverlayKind::Models => choose_model(app),
        OverlayKind::History => choose_session(app),
        OverlayKind::Catalog => activate_catalog_selection(app, selected, &query),
        _ => nothing(),
    }
}

/// The state after a stored session was loaded.
#[verifier::opaque]
pub open spec fn session_resumed(s: TuiStateView, session: SessionView) -> TuiStateView {
    TuiStateView {
        session: SessionView { cwd: s.cwd, ..session },
        timeline: replayed(session.messages).0,
        follow_tail: true,
        status: "Resumed "@ + session.id,
        ..s
    }.closed()
}

/// Goes on with a stored session, in the working directory of the interface.
pub fn session_loaded(app: &mut TuiState, session: Session)
    ensures
        final(app)@ == session_resumed(old(app)@, session@),
{
    proof {
        reveal(session_resumed);
    }
    let mut text = "Resumed ".to_owned();
    text.push_str(&session.id);
    app.session = session;
    app.session.cwd = app.cwd.clone();
    app.rebuild_timeline();
    app.status = text;
    app.close_overlay();
}

/// The step after the deletion of a session was tried.
#[verifier::opaque]
pub open spec fn session_removed(s: TuiStateView, deleted: bool) -> (
    TuiStateView,
    Seq<TuiActionView>,
) {
    if deleted {
        asking(s.saying("Session deleted"@), TuiActionView::ListSessions { clamp: true })
    } else {
        quiet(s)
    }
}

/// Takes whether a session was deleted.
pub fn session_deleted(app: &mut TuiState, deleted: bool) -> (result: Vec<TuiAction>)
    ensures
        (final(app)@, views(result@)) == session_removed(old(app)@, deleted),
{
    proof {
        reveal(session_removed);
    }
    if deleted {
        app.say("Session deleted");
        only(TuiAction::ListSessions { clamp: true })
    } else {
        nothing()
    }
}

/// The step after servers or skills were changed on disk.
#[verifier::opaque]
pub open spec fn change_step(
    s: TuiStateView,
    read: SettingsReadView,
    status: Seq<char>,
    check: bool,
) -> (TuiStateView, Seq<TuiActionView>) {
    let shown = settings_refreshed(s, read).saying(status);
    if check {
        mcp_asked(shown)
    } else {
        quiet(shown)
    }
}

/// Takes servers or skills that were changed on disk and read again.
pub fn settings_changed(app: &mut TuiState, read: SettingsRead, status: String, check: bool) -> (result: Vec<TuiAction>)
    ensures
        (final(app)@, views(result@)) == change_step(old(app)@, read@, status@, check),
{
    proof {
        reveal(change_step);
    }
    refresh_settings_state(app, read);
    app.say(&status);
    if check {
        start_mcp_status_refresh(app)
    } else {
        nothing()
    }
}

// ---------------------------------------------------------------------------
// Laws
// ---------------------------------------------------------------------------

/// A selection that moves stays inside its list.
pub proof fn selections_stay_inside(s: TuiStateView, direction: int)
    requires
        s.overlay is Some,
        overlay_items(s, s.overlay->0).len() > 0,
        overlay_items(s, s.overlay->0).len() <= usize::MAX,
    ensures
        ({
            let after = selection_moved(s, direction);
            after.overlay is Some && after.overlay->0.selected < overlay_items(
                after,
                after.overlay->0,
            ).len()
        }),
{
    reveal(selection_moved);
}

/// Nothing that an overlay lists lacks what the user looks for: an item of the command menu
/// is listed only if its label contains the query.
pub proof fn listed_commands_match(query: Seq<char>, k: int)
    requires
        0 <= k < commands_found(menu_items(), query).len(),
    ensures
        0 <= commands_found(menu_items(), query)[k] < menu_items().len(),
        contains(lower(menu_items()[commands_found(menu_items(), query)[k]].label), query),
{
    matching_holds(menu_items().len(), |i: int| contains(lower(menu_items()[i].label), query), k);
}

/// A resumed session shows its own messages and works where the interface works.
pub proof fn resumed_sessions_work_here(s: TuiStateView, session: SessionView)
    ensures
        session_resumed(s, session).session.cwd == s.cwd,
        session_resumed(s, session).session.id == session.id,
        session_resumed(s, session).timeline == replayed(session.messages).0,
        session_resumed(s, session).overlay is None,
{
    reveal(session_resumed);
}

} // verus!
