//! The state of the terminal interface.

use vstd::prelude::*;
use crate::agents::AccessMode;
use crate::catalog::McpCatalogEntry;
use crate::catalog::McpCatalogEntryView;
use crate::catalog::SkillEntry;
use crate::catalog::SkillEntryView;
use crate::cli::ModelChoice;
use crate::cli::ModelChoiceView;
use crate::editor::Editor;
use crate::editor::EditorView;
use crate::editor::editing;
use crate::events::ContextStatus;
use crate::provider::ProviderDocument;
use crate::provider::ProviderDocumentView;
use crate::search::SessionCard;
use crate::search::SessionCardView;
use crate::session::LoopStatus;
use crate::session::Session;
use crate::session::SessionView;
use crate::session::ToolCall;
use crate::session::ToolCallView;
use crate::table::pairs_of;
use crate::text::texts;
use crate::text::texts_empty;
use crate::text::texts_push;
use crate::timeline::NoticeKind;
use crate::timeline::TimelineEntry;
use crate::timeline::TimelineEntryView;
use crate::timeline::rebuild_timeline;
use crate::timeline::replayed;
use crate::views::Duplicate;
use crate::views::duplicate_all;
use crate::views::group_views;
use crate::views::opt;
use crate::views::views;

verus! {

broadcast use {group_views, texts_push, texts_empty};

/// What an overlay is for.
#[derive(Clone, Copy, Debug, PartialEq, Eq, Structural)]
pub enum OverlayKind {
    Commands,
    Models,
    History,
    Catalog,
    Help,
    McpConfig,
    Settings,
}

/// The halves of the catalogue overlay.
#[derive(Clone, Copy, Debug, PartialEq, Eq, Structural)]
pub enum CatalogTab {
    Mcp,
    Skills,
}

/// The pages of the settings.
#[derive(Clone, Copy, Debug, PartialEq, Eq, Structural)]
pub enum SettingsTab {
    Providers,
    Mcp,
    Skills,
    Runtime,
}

/// The page behind a page.
pub open spec fn tab_after(tab: SettingsTab) -> SettingsTab {
    match tab {
        SettingsTab::Providers => SettingsTab::Mcp,
        SettingsTab::Mcp => SettingsTab::Skills,
        SettingsTab::Skills => SettingsTab::Runtime,
        SettingsTab::Runtime => SettingsTab::Providers,
    }
}

/// The page before a page.
pub open spec fn tab_before(tab: SettingsTab) -> SettingsTab {
    match tab {
        SettingsTab::Providers => SettingsTab::Runtime,
        SettingsTab::Mcp => SettingsTab::Providers,
        SettingsTab::Skills => SettingsTab::Mcp,
        SettingsTab::Runtime => SettingsTab::Skills,
    }
}

impl SettingsTab {
    /// Returns the next page; behind the last one comes the first.
    pub fn next(self) -> (result: SettingsTab)
        ensures
            result == tab_after(self),
    {
        match self {
            SettingsTab::Providers => SettingsTab::Mcp,
            SettingsTab::Mcp => SettingsTab::Skills,
            SettingsTab::Skills => SettingsTab::Runtime,
            SettingsTab::Runtime => SettingsTab::Providers,
        }
    }

    /// Returns the previous page; before the first one comes the last.
    pub fn previous(self) -> (result: SettingsTab)
        ensures
            result == tab_before(self),
    {
        match self {
            SettingsTab::Providers => SettingsTab::Runtime,
            SettingsTab::Mcp => SettingsTab::Providers,
            SettingsTab::Skills => SettingsTab::Mcp,
            SettingsTab::Runtime => SettingsTab::Skills,
        }
    }
}

/// Going to the next page and back leads to the same page.
pub proof fn tabs_go_round(tab: SettingsTab)
    ensures
        tab_before(tab_after(tab)) == tab,
        tab_after(tab_before(tab)) == tab,
        tab_after(tab_after(tab_after(tab_after(tab)))) == tab,
{
}

/// A list that lies over the timeline.
#[derive(Debug)]
pub struct Overlay {
    pub kind: OverlayKind,
    pub selected: usize,
    pub query: Editor,
    pub catalog_tab: CatalogTab,
}

/// What a `Overlay` holds.
#[verifier::ext_equal]
pub struct OverlayView {
    pub kind: OverlayKind,
    pub selected: usize,
    pub query: EditorView,
    pub catalog_tab: CatalogTab,
}

impl View for Overlay {
    type V = OverlayView;

    open spec fn view(&self) -> OverlayView {
        OverlayView {
            kind: self.kind,
            selected: self.selected,
            query: self.query@,
            catalog_tab: self.catalog_tab,
        }
    }
}

/// A fresh overlay.
pub open spec fn new_overlay(kind: OverlayKind) -> OverlayView {
    OverlayView { kind, selected: 0, query: editing(Seq::empty()), catalog_tab: CatalogTab::Mcp }
}

impl Overlay {
    /// A fresh overlay.
    pub fn new(kind: OverlayKind) -> (result: Overlay)
        ensures
            result@ == new_overlay(kind),
    {
        Overlay { kind, selected: 0, query: Editor::new(), catalog_tab: CatalogTab::Mcp }
    }
}

/// A call that waits for the user.
#[derive(Debug)]
pub struct PendingApproval {
    pub call: ToolCall,
    pub reason: String,
    /// Where the answer goes.
    pub reply: u64,
}

/// What a `PendingApproval` holds.
#[verifier::ext_equal]
pub struct PendingApprovalView {
    pub call: ToolCallView,
    pub reason: Seq<char>,
    pub reply: u64,
}

impl View for PendingApproval {
    type V = PendingApprovalView;

    open spec fn view(&self) -> PendingApprovalView {
        PendingApprovalView {
            call: self.call@,
            reason: self.reason@,
            reply: self.reply,
        }
    }
}

/// An answer that the user can choose.
#[derive(Debug)]
pub struct UserInputOption {
    pub label: String,
    pub description: String,
}

/// What a `UserInputOption` holds.
#[verifier::ext_equal]
pub struct UserInputOptionView {
    pub label: Seq<char>,
    pub description: Seq<char>,
}

impl View for UserInputOption {
    type V = UserInputOptionView;

    open spec fn view(&self) -> UserInputOptionView {
        UserInputOptionView {
            label: self.label@,
            description: self.description@,
        }
    }
}

impl Duplicate for UserInputOption {
    fn duplicate(&self) -> (result: Self) {
        UserInputOption {
            label: self.label.clone(),
            description: self.description.clone(),
        }
    }
}

/// A question to the user.
#[derive(Debug)]
pub struct UserInputQuestion {
    pub id: String,
    pub header: String,
    pub question: String,
    pub options: Vec<UserInputOption>,
}

/// What a `UserInputQuestion` holds.
#[verifier::ext_equal]
pub struct UserInputQuestionView {
    pub id: Seq<char>,
    pub header: Seq<char>,
    pub question: Seq<char>,
    pub options: Seq<UserInputOptionView>,
}

impl View for UserInputQuestion {
    type V = UserInputQuestionView;

    open spec fn view(&self) -> UserInputQuestionView {
        UserInputQuestionView {
            id: self.id@,
            header: self.header@,
            question: self.question@,
            options: views(self.options@),
        }
    }
}

impl Duplicate for UserInputQuestion {
    fn duplicate(&self) -> (result: Self) {
        UserInputQuestion {
            id: self.id.clone(),
            header: self.header.clone(),
            question: self.question.clone(),
            options: duplicate_all(&self.options),
        }
    }
}

/// Questions to the user.
#[derive(Debug)]
pub struct UserInputRequest {
    pub questions: Vec<UserInputQuestion>,
    /// After how long they are answered without the user.
    pub auto_resolution_ms: Option<u64>,
}

/// What a `UserInputRequest` holds.
#[verifier::ext_equal]
pub struct UserInputRequestView {
    pub questions: Seq<UserInputQuestionView>,
    pub auto_resolution_ms: Option<u64>,
}

impl View for UserInputRequest {
    type V = UserInputRequestView;

    open spec fn view(&self) -> UserInputRequestView {
        UserInputRequestView {
            questions: views(self.questions@),
            auto_resolution_ms: self.auto_resolution_ms,
        }
    }
}

impl Duplicate for UserInputRequest {
    fn duplicate(&self) -> (result: Self) {
        UserInputRequest {
            questions: duplicate_all(&self.questions),
            auto_resolution_ms: self.auto_resolution_ms,
        }
    }
}

/// Questions that wait for the user.
#[derive(Debug)]
pub struct PendingUserInput {
    pub request: UserInputRequest,
    pub question_index: usize,
    pub option_index: usize,
    /// An answer in own words.
    pub other_editor: Option<Editor>,
    pub answers: Vec<(String, String)>,
    /// Where the answers go.
    pub reply: u64,
}

/// What a `PendingUserInput` holds.
#[verifier::ext_equal]
pub struct PendingUserInputView {
    pub request: UserInputRequestView,
    pub question_index: usize,
    pub option_index: usize,
    pub other_editor: Option<EditorView>,
    pub answers: Seq<(Seq<char>, Seq<char>)>,
    pub reply: u64,
}

impl View for PendingUserInput {
    type V = PendingUserInputView;

    open spec fn view(&self) -> PendingUserInputView {
        PendingUserInputView {
            request: self.request@,
            question_index: self.question_index,
            option_index: self.option_index,
            other_editor: opt(self.other_editor),
            answers: pairs_of(self.answers@),
            reply: self.reply,
        }
    }
}

/// What the user is asked to confirm the deletion of.
#[derive(Debug)]
pub enum DeleteTarget {
    /// A stored session.
    Session(String),
    /// A provider.
    Provider(String),
    /// A configured server.
    Mcp(String),
    /// An installed skill.
    Skill(String),
}

/// What a `DeleteTarget` holds.
#[verifier::ext_equal]
pub enum DeleteTargetView {
    Session(Seq<char>),
    Provider(Seq<char>),
    Mcp(Seq<char>),
    Skill(Seq<char>),
}

impl View for DeleteTarget {
    type V = DeleteTargetView;

    open spec fn view(&self) -> DeleteTargetView {
        match *self {
            DeleteTarget::Session(a0) => DeleteTargetView::Session(a0@),
            DeleteTarget::Provider(a0) => DeleteTargetView::Provider(a0@),
            DeleteTarget::Mcp(a0) => DeleteTargetView::Mcp(a0@),
            DeleteTarget::Skill(a0) => DeleteTargetView::Skill(a0@),
        }
    }
}

/// One field of a form.
#[derive(Debug)]
pub struct FormField {
    pub key: String,
    pub label: String,
    pub secret: bool,
    pub editor: Editor,
}

/// What a `FormField` holds.
#[verifier::ext_equal]
pub struct FormFieldView {
    pub key: Seq<char>,
    pub label: Seq<char>,
    pub secret: bool,
    pub editor: EditorView,
}

impl View for FormField {
    type V = FormFieldView;

    open spec fn view(&self) -> FormFieldView {
        FormFieldView {
            key: self.key@,
            label: self.label@,
            secret: self.secret,
            editor: self.editor@,
        }
    }
}

/// The form for what a server needs.
#[derive(Debug)]
pub struct McpForm {
    pub entry: McpCatalogEntry,
    pub fields: Vec<FormField>,
    pub selected: usize,
}

/// What a `McpForm` holds.
#[verifier::ext_equal]
pub struct McpFormView {
    pub entry: McpCatalogEntryView,
    pub fields: Seq<FormFieldView>,
    pub selected: usize,
}

impl View for McpForm {
    type V = McpFormView;

    open spec fn view(&self) -> McpFormView {
        McpFormView {
            entry: self.entry@,
            fields: views(self.fields@),
            selected: self.selected,
        }
    }
}

/// The form for a provider.
#[derive(Debug)]
pub struct ProviderForm {
    /// The provider that is changed, if it is not a new one.
    pub original_id: Option<String>,
    pub fields: Vec<FormField>,
    pub selected: usize,
    pub show_secret: bool,
}

/// What a `ProviderForm` holds.
#[verifier::ext_equal]
pub struct ProviderFormView {
    pub original_id: Option<Seq<char>>,
    pub fields: Seq<FormFieldView>,
    pub selected: usize,
    pub show_secret: bool,
}

impl View for ProviderForm {
    type V = ProviderFormView;

    open spec fn view(&self) -> ProviderFormView {
        ProviderFormView {
            original_id: opt(self.original_id),
            fields: views(self.fields@),
            selected: self.selected,
            show_secret: self.show_secret,
        }
    }
}

/// A configured server.
#[derive(Debug)]
pub struct ConfiguredMcp {
    pub name: String,
    pub transport: String,
    pub enabled: bool,
    pub target: String,
}

/// What a `ConfiguredMcp` holds.
#[verifier::ext_equal]
pub struct ConfiguredMcpView {
    pub name: Seq<char>,
    pub transport: Seq<char>,
    pub enabled: bool,
    pub target: Seq<char>,
}

impl View for ConfiguredMcp {
    type V = ConfiguredMcpView;

    open spec fn view(&self) -> ConfiguredMcpView {
        ConfiguredMcpView {
            name: self.name@,
            transport: self.transport@,
            enabled: self.enabled,
            target: self.target@,
        }
    }
}

impl Duplicate for ConfiguredMcp {
    fn duplicate(&self) -> (result: Self) {
        ConfiguredMcp {
            name: self.name.clone(),
            transport: self.transport.clone(),
            enabled: self.enabled,
            target: self.target.clone(),
        }
    }
}

/// How a server does.
#[derive(Debug)]
pub struct McpServerStatus {
    pub name: String,
    pub state: String,
}

/// What a `McpServerStatus` holds.
#[verifier::ext_equal]
pub struct McpServerStatusView {
    pub name: Seq<char>,
    pub state: Seq<char>,
}

impl View for McpServerStatus {
    type V = McpServerStatusView;

    open spec fn view(&self) -> McpServerStatusView {
        McpServerStatusView {
            name: self.name@,
            state: self.state@,
        }
    }
}

/// An installed skill.
#[derive(Debug)]
pub struct InstalledSkill {
    pub name: String,
    pub enabled: bool,
    pub source_type: String,
}

/// What a `InstalledSkill` holds.
#[verifier::ext_equal]
pub struct InstalledSkillView {
    pub name: Seq<char>,
    pub enabled: bool,
    pub source_type: Seq<char>,
}

impl View for InstalledSkill {
    type V = InstalledSkillView;

    open spec fn view(&self) -> InstalledSkillView {
        InstalledSkillView {
            name: self.name@,
            enabled: self.enabled,
            source_type: self.source_type@,
        }
    }
}

impl Duplicate for InstalledSkill {
    fn duplicate(&self) -> (result: Self) {
        InstalledSkill {
            name: self.name.clone(),
            enabled: self.enabled,
            source_type: self.source_type.clone(),
        }
    }
}

/// The settings overlay.
#[derive(Debug)]
pub struct SettingsState {
    pub tab: SettingsTab,
    pub document: ProviderDocument,
    pub provider_ids: Vec<String>,
    pub mcp_servers: Vec<ConfiguredMcp>,
    pub mcp_statuses: Vec<McpServerStatus>,
    pub skills: Vec<InstalledSkill>,
    pub selected: usize,
    pub show_secret: bool,
    pub form: Option<ProviderForm>,
    pub error: Option<String>,
}

/// What a `SettingsState` holds.
#[verifier::ext_equal]
pub struct SettingsStateView {
    pub tab: SettingsTab,
    pub document: ProviderDocumentView,
    pub provider_ids: Seq<Seq<char>>,
    pub mcp_servers: Seq<ConfiguredMcpView>,
    pub mcp_statuses: Seq<McpServerStatusView>,
    pub skills: Seq<InstalledSkillView>,
    pub selected: usize,
    pub show_secret: bool,
    pub form: Option<ProviderFormView>,
    pub error: Option<Seq<char>>,
}

impl View for SettingsState {
    type V = SettingsStateView;

    open spec fn view(&self) -> SettingsStateView {
        SettingsStateView {
            tab: self.tab,
            document: self.document@,
            provider_ids: texts(self.provider_ids@),
            mcp_servers: views(self.mcp_servers@),
            mcp_statuses: views(self.mcp_statuses@),
            skills: views(self.skills@),
            selected: self.selected,
            show_secret: self.show_secret,
            form: opt(self.form),
            error: opt(self.error),
        }
    }
}

/// How the access policies are called.
#[derive(Debug)]
pub struct PolicyLabels {
    pub read_only: String,
    pub workspace_write: String,
    pub full_access: String,
}

/// What a `PolicyLabels` holds.
#[verifier::ext_equal]
pub struct PolicyLabelsView {
    pub read_only: Seq<char>,
    pub workspace_write: Seq<char>,
    pub full_access: Seq<char>,
}

impl View for PolicyLabels {
    type V = PolicyLabelsView;

    open spec fn view(&self) -> PolicyLabelsView {
        PolicyLabelsView {
            read_only: self.read_only@,
            workspace_write: self.workspace_write@,
            full_access: self.full_access@,
        }
    }
}

/// How a policy is called.
pub open spec fn policy_label(labels: PolicyLabelsView, policy: AccessMode) -> Seq<char> {
    match policy {
        AccessMode::ReadOnly => labels.read_only,
        AccessMode::WorkspaceWrite => labels.workspace_write,
        AccessMode::FullAccess => labels.full_access,
    }
}

impl PolicyLabels {
    /// Returns how a policy is called.
    pub fn of(&self, policy: AccessMode) -> (result: String)
        ensures
            result@ == policy_label(self@, policy),
    {
        match policy {
            AccessMode::ReadOnly => self.read_only.clone(),
            AccessMode::WorkspaceWrite => self.workspace_write.clone(),
            AccessMode::FullAccess => self.full_access.clone(),
        }
    }
}

/// The state of the terminal interface.
#[derive(Debug)]
pub struct TuiState {
    pub home: String,
    pub cwd: String,
    pub session: Session,
    pub timeline: Vec<TimelineEntry>,
    pub editor: Editor,
    pub input_history: Vec<String>,
    pub history_cursor: Option<usize>,
    /// Messages that wait for the running turn to end.
    pub queue: Vec<String>,
    pub models: Vec<ModelChoice>,
    pub sessions: Vec<SessionCard>,
    pub mcp_entries: Vec<McpCatalogEntry>,
    pub skill_entries: Vec<SkillEntry>,
    pub overlay: Option<Overlay>,
    pub pending_approval: Option<PendingApproval>,
    pub pending_user_input: Option<PendingUserInput>,
    pub confirm_delete: Option<DeleteTarget>,
    pub mcp_form: Option<McpForm>,
    pub settings: Option<SettingsState>,
    pub policy: AccessMode,
    pub policy_labels: PolicyLabels,
    pub approve_all: bool,
    pub busy: bool,
    pub active_generation: Option<u64>,
    pub next_generation: u64,
    pub catalog_busy: Option<String>,
    pub auto_config_busy: bool,
    pub settings_busy: bool,
    pub update_status: String,
    pub status: String,
    pub context_status: ContextStatus,
    pub scroll: u16,
    pub follow_tail: bool,
    pub spinner_tick: usize,
    /// When the escape key was last pressed, in milliseconds.
    pub last_escape: Option<u64>,
    pub loop_continuation_pending: bool,
    pub side_busy: bool,
    pub quit: bool,
}

/// What a `TuiState` holds.
pub struct TuiStateView {
    pub home: Seq<char>,
    pub cwd: Seq<char>,
    pub session: SessionView,
    pub timeline: Seq<TimelineEntryView>,
    pub editor: EditorView,
    pub input_history: Seq<Seq<char>>,
    pub history_cursor: Option<usize>,
    pub queue: Seq<Seq<char>>,
    pub models: Seq<ModelChoiceView>,
    pub sessions: Seq<SessionCardView>,
    pub mcp_entries: Seq<McpCatalogEntryView>,
    pub skill_entries: Seq<SkillEntryView>,
    pub overlay: Option<OverlayView>,
    pub pending_approval: Option<PendingApprovalView>,
    pub pending_user_input: Option<PendingUserInputView>,
    pub confirm_delete: Option<DeleteTargetView>,
    pub mcp_form: Option<McpFormView>,
    pub settings: Option<SettingsStateView>,
    pub policy: AccessMode,
    pub policy_labels: PolicyLabelsView,
    pub approve_all: bool,
    pub busy: bool,
    pub active_generation: Option<u64>,
    pub next_generation: u64,
    pub catalog_busy: Option<Seq<char>>,
    pub auto_config_busy: bool,
    pub settings_busy: bool,
    pub update_status: Seq<char>,
    pub status: Seq<char>,
    pub context_status: ContextStatus,
    pub scroll: u16,
    pub follow_tail: bool,
    pub spinner_tick: usize,
    pub last_escape: Option<u64>,
    pub loop_continuation_pending: bool,
    pub side_busy: bool,
    pub quit: bool,
}

impl View for TuiState {
    type V = TuiStateView;

    open spec fn view(&self) -> TuiStateView {
        TuiStateView {
            home: self.home@,
            cwd: self.cwd@,
            session: self.session@,
            timeline: views(self.timeline@),
            editor: self.editor@,
            input_history: texts(self.input_history@),
            history_cursor: self.history_cursor,
            queue: texts(self.queue@),
            models: views(self.models@),
            sessions: views(self.sessions@),
            mcp_entries: views(self.mcp_entries@),
            skill_entries: views(self.skill_entries@),
            overlay: opt(self.overlay),
            pending_approval: opt(self.pending_approval),
            pending_user_input: opt(self.pending_user_input),
            confirm_delete: opt(self.confirm_delete),
            mcp_form: opt(self.mcp_form),
            settings: opt(self.settings),
            policy: self.policy,
            policy_labels: self.policy_labels@,
            approve_all: self.approve_all,
            busy: self.busy,
            active_generation: self.active_generation,
            next_generation: self.next_generation,
            catalog_busy: opt(self.catalog_busy),
            auto_config_busy: self.auto_config_busy,
            settings_busy: self.settings_busy,
            update_status: self.update_status@,
            status: self.status@,
            context_status: self.context_status,
            scroll: self.scroll,
            follow_tail: self.follow_tail,
            spinner_tick: self.spinner_tick,
            last_escape: self.last_escape,
            loop_continuation_pending: self.loop_continuation_pending,
            side_busy: self.side_busy,
            quit: self.quit,
        }
    }
}

/// What follows when the session is saved.
#[derive(Debug)]
pub enum AfterSave {
    /// Nothing; a failure ends the interface.
    Nothing,
    /// Nothing, whether it is saved or not.
    Ignore,
    /// The status line says this; a failure ends the interface.
    Status(String),
    /// The status line says this and the overlay closes; a failure ends the interface.
    ModelChosen(String),
    /// The sessions are listed; a failure ends the interface.
    ListSessions,
    /// The status line says this; a failure is told.
    ProviderShown(String),
    /// The turn has ended, with an error or without; a failure is told.
    TurnEnd(Option<String>),
}

/// What a `AfterSave` holds.
#[verifier::ext_equal]
pub enum AfterSaveView {
    Nothing,
    Ignore,
    Status(Seq<char>),
    ModelChosen(Seq<char>),
    ListSessions,
    ProviderShown(Seq<char>),
    TurnEnd(Option<Seq<char>>),
}

impl View for AfterSave {
    type V = AfterSaveView;

    open spec fn view(&self) -> AfterSaveView {
        match *self {
            AfterSave::Nothing => AfterSaveView::Nothing,
            AfterSave::Ignore => AfterSaveView::Ignore,
            AfterSave::Status(a0) => AfterSaveView::Status(a0@),
            AfterSave::ModelChosen(a0) => AfterSaveView::ModelChosen(a0@),
            AfterSave::ListSessions => AfterSaveView::ListSessions,
            AfterSave::ProviderShown(a0) => AfterSaveView::ProviderShown(a0@),
            AfterSave::TurnEnd(a0) => AfterSaveView::TurnEnd(opt(a0)),
        }
    }
}

/// What a model is resolved for.
#[derive(Clone, Copy, Debug, PartialEq, Eq, Structural)]
pub enum ModelUse {
    /// The session goes on with it.
    Switch,
    /// The session goes on with it and the overlay closes.
    Choose,
    /// Its provider was made the active one.
    Activate,
}

/// What the providers are written for.
#[derive(Debug)]
pub enum ProvidersUse {
    /// A form was filled in.
    Save,
    /// A provider was made the active one.
    Activate(String),
    /// A provider was deleted.
    Delete(String),
}

/// What a `ProvidersUse` holds.
#[verifier::ext_equal]
pub enum ProvidersUseView {
    Save,
    Activate(Seq<char>),
    Delete(Seq<char>),
}

impl View for ProvidersUse {
    type V = ProvidersUseView;

    open spec fn view(&self) -> ProvidersUseView {
        match *self {
            ProvidersUse::Save => ProvidersUseView::Save,
            ProvidersUse::Activate(a0) => ProvidersUseView::Activate(a0@),
            ProvidersUse::Delete(a0) => ProvidersUseView::Delete(a0@),
        }
    }
}

/// A change to the servers or skills on disk.
#[derive(Debug)]
pub enum SettingsChange {
    /// A server of the catalogue that needs nothing is configured.
    InstallMcp(String),
    /// A server is switched on or off.
    EnableMcp { name: String, enabled: bool },
    /// A server is removed.
    RemoveMcp(String),
    /// A skill is switched on or off.
    EnableSkill { name: String, enabled: bool },
    /// A skill is removed.
    RemoveSkill(String),
}

/// What a `SettingsChange` holds.
#[verifier::ext_equal]
pub enum SettingsChangeView {
    InstallMcp(Seq<char>),
    EnableMcp { name: Seq<char>, enabled: bool },
    RemoveMcp(Seq<char>),
    EnableSkill { name: Seq<char>, enabled: bool },
    RemoveSkill(Seq<char>),
}

impl View for SettingsChange {
    type V = SettingsChangeView;

    open spec fn view(&self) -> SettingsChangeView {
        match *self {
            SettingsChange::InstallMcp(a0) => SettingsChangeView::InstallMcp(a0@),
            SettingsChange::EnableMcp { name, enabled } => SettingsChangeView::EnableMcp { name: name@, enabled: enabled },
            SettingsChange::RemoveMcp(a0) => SettingsChangeView::RemoveMcp(a0@),
            SettingsChange::EnableSkill { name, enabled } => SettingsChangeView::EnableSkill { name: name@, enabled: enabled },
            SettingsChange::RemoveSkill(a0) => SettingsChangeView::RemoveSkill(a0@),
        }
    }
}

/// What is asked of the memory.
#[derive(Debug)]
pub enum MemoryRequest {
    /// All entries.
    List,
    /// A new entry: of which scope and type, and what it says.
    Save { scope: String, memory_type: String, name: String, description: String, content: String },
    /// That an entry goes.
    Delete(String),
    /// The entries that match best, so many at most.
    Search { query: String, limit: usize },
    /// One entry.
    Show(String),
    /// That the index is written anew.
    Refresh,
}

/// What a `MemoryRequest` holds.
#[verifier::ext_equal]
pub enum MemoryRequestView {
    List,
    Save {
        scope: Seq<char>,
        memory_type: Seq<char>,
        name: Seq<char>,
        description: Seq<char>,
        content: Seq<char>,
    },
    Delete(Seq<char>),
    Search { query: Seq<char>, limit: usize },
    Show(Seq<char>),
    Refresh,
}

impl View for MemoryRequest {
    type V = MemoryRequestView;

    open spec fn view(&self) -> MemoryRequestView {
        match *self {
            MemoryRequest::List => MemoryRequestView::List,
            MemoryRequest::Save { scope, memory_type, name, description, content } => MemoryRequestView::Save { scope: scope@, memory_type: memory_type@, name: name@, description: description@, content: content@ },
            MemoryRequest::Delete(a0) => MemoryRequestView::Delete(a0@),
            MemoryRequest::Search { query, limit } => MemoryRequestView::Search { query: query@, limit: limit },
            MemoryRequest::Show(a0) => MemoryRequestView::Show(a0@),
            MemoryRequest::Refresh => MemoryRequestView::Refresh,
        }
    }
}

/// What the program does next, outside the state.
#[derive(Debug)]
pub enum TuiAction {
    /// Lists the stored sessions; the selection is then kept inside the list if told so.
    ListSessions { clamp: bool },
    /// Reads providers, servers and skills and opens the settings, at a page if one is given.
    ReadSettings(Option<SettingsTab>),
    /// Asks the servers how they do.
    CheckMcp,
    /// Asks for a newer version.
    CheckUpdate,
    /// Finds the model and the instructions for a turn.
    PrepareTurn { prompt: String, continuation: bool },
    /// Runs a turn.
    RunTurn { generation: u64, prompt: String, continuation: bool },
    /// Finds the model and the instructions for a compaction.
    PrepareCompaction,
    /// Summarises the session.
    RunCompaction { generation: u64 },
    /// Finds the model for a side session.
    PrepareSide(String),
    /// Runs a side session.
    RunSide { prompt: String, session: Session },
    /// Stops the running turn.
    AbortTurn,
    /// Answers a call for approval.
    AnswerApproval { reply: u64, approved: bool },
    /// Answers questions.
    AnswerQuestions { reply: u64, answers: Vec<(String, String)> },
    /// Leaves questions unanswered.
    DismissQuestions { reply: u64 },
    /// Nobody will answer.
    DropReply { reply: u64 },
    /// Hands a message to the running turn.
    QueueInput(String),
    /// Takes a message back that the running turn did not take.
    DiscardQueued(String),
    /// Looks for a configuration in what was typed.
    DetectConfig(String),
    /// Applies a configuration once it is approved.
    AwaitAutoConfig { reply: u64 },
    /// Saves the session.
    SaveSession(AfterSave),
    /// Finds a model.
    ResolveModel { selector: String, purpose: ModelUse },
    /// Finds the active model and all choices.
    RefreshProvider,
    /// Loads a session; a failure ends the interface.
    LoadSession(String),
    /// Deletes a session; a failure ends the interface.
    DeleteSession(String),
    /// Configures a server of the catalogue; a failure ends the interface.
    ConfigureMcp { id: String, name: String, values: Vec<(String, String)> },
    /// Installs a skill of the catalogue.
    InstallSkill(String),
    /// Updates a skill.
    UpdateSkill { name: String, from_catalog: bool },
    /// Changes servers or skills and reads them again; a failure ends the interface.
    ChangeSettings { change: SettingsChange, status: String, check: bool },
    /// Writes the providers.
    WriteProviders { document: ProviderDocument, after: ProvidersUse },
    /// Reads the choices of models; a failure ends the interface.
    ReadModels { status: String },
    /// Asks the memory.
    AskMemory(MemoryRequest),
    /// Measures the context for the status line.
    MeasureContext,
}

/// What a `TuiAction` holds.
#[verifier::ext_equal]
pub enum TuiActionView {
    ListSessions { clamp: bool },
    ReadSettings(Option<SettingsTab>),
    CheckMcp,
    CheckUpdate,
    PrepareTurn { prompt: Seq<char>, continuation: bool },
    RunTurn { generation: u64, prompt: Seq<char>, continuation: bool },
    PrepareCompaction,
    RunCompaction { generation: u64 },
    PrepareSide(Seq<char>),
    RunSide { prompt: Seq<char>, session: SessionView },
    AbortTurn,
    AnswerApproval { reply: u64, approved: bool },
    AnswerQuestions { reply: u64, answers: Seq<(Seq<char>, Seq<char>)> },
    DismissQuestions { reply: u64 },
    DropReply { reply: u64 },
    QueueInput(Seq<char>),
    DiscardQueued(Seq<char>),
    DetectConfig(Seq<char>),
    AwaitAutoConfig { reply: u64 },
    SaveSession(AfterSaveView),
    ResolveModel { selector: Seq<char>, purpose: ModelUse },
    RefreshProvider,
    LoadSession(Seq<char>),
    DeleteSession(Seq<char>),
    ConfigureMcp { id: Seq<char>, name: Seq<char>, values: Seq<(Seq<char>, Seq<char>)> },
    InstallSkill(Seq<char>),
    UpdateSkill { name: Seq<char>, from_catalog: bool },
    ChangeSettings { change: SettingsChangeView, status: Seq<char>, check: bool },
    WriteProviders { document: ProviderDocumentView, after: ProvidersUseView },
    ReadModels { status: Seq<char> },
    AskMemory(MemoryRequestView),
    MeasureContext,
}

impl View for TuiAction {
    type V = TuiActionView;

    open spec fn view(&self) -> TuiActionView {
        match *self {
            TuiAction::ListSessions { clamp } => TuiActionView::ListSessions { clamp: clamp },
            TuiAction::ReadSettings(a0) => TuiActionView::ReadSettings(a0),
            TuiAction::CheckMcp => TuiActionView::CheckMcp,
            TuiAction::CheckUpdate => TuiActionView::CheckUpdate,
            TuiAction::PrepareTurn { prompt, continuation } => TuiActionView::PrepareTurn { prompt: prompt@, continuation: continuation },
            TuiAction::RunTurn { generation, prompt, continuation } => TuiActionView::RunTurn { generation: generation, prompt: prompt@, continuation: continuation },
            TuiAction::PrepareCompaction => TuiActionView::PrepareCompaction,
            TuiAction::RunCompaction { generation } => TuiActionView::RunCompaction { generation: generation },
            TuiAction::PrepareSide(a0) => TuiActionView::PrepareSide(a0@),
            TuiAction::RunSide { prompt, session } => TuiActionView::RunSide { prompt: prompt@, session: session@ },
            TuiAction::AbortTurn => TuiActionView::AbortTurn,
            TuiAction::AnswerApproval { reply, approved } => TuiActionView::AnswerApproval { reply: reply, approved: approved },
            TuiAction::AnswerQuestions { reply, answers } => TuiActionView::AnswerQuestions { reply: reply, answers: pairs_of(answers@) },
            TuiAction::DismissQuestions { reply } => TuiActionView::DismissQuestions { reply: reply },
            TuiAction::DropReply { reply } => TuiActionView::DropReply { reply: reply },
            TuiAction::QueueInput(a0) => TuiActionView::QueueInput(a0@),
            TuiAction::DiscardQueued(a0) => TuiActionView::DiscardQueued(a0@),
            TuiAction::DetectConfig(a0) => TuiActionView::DetectConfig(a0@),
            TuiAction::AwaitAutoConfig { reply } => TuiActionView::AwaitAutoConfig { reply: reply },
            TuiAction::SaveSession(a0) => TuiActionView::SaveSession(a0@),
            TuiAction::ResolveModel { selector, purpose } => TuiActionView::ResolveModel { selector: selector@, purpose: purpose },
            TuiAction::RefreshProvider => TuiActionView::RefreshProvider,
            TuiAction::LoadSession(a0) => TuiActionView::LoadSession(a0@),
            TuiAction::DeleteSession(a0) => TuiActionView::DeleteSession(a0@),
            TuiAction::ConfigureMcp { id, name, values } => TuiActionView::ConfigureMcp { id: id@, name: name@, values: pairs_of(values@) },
            TuiAction::InstallSkill(a0) => TuiActionView::InstallSkill(a0@),
            TuiAction::UpdateSkill { name, from_catalog } => TuiActionView::UpdateSkill { name: name@, from_catalog: from_catalog },
            TuiAction::ChangeSettings { change, status, check } => TuiActionView::ChangeSettings { change: change@, status: status@, check: check },
            TuiAction::WriteProviders { document, after } => TuiActionView::WriteProviders { document: document@, after: after@ },
            TuiAction::ReadModels { status } => TuiActionView::ReadModels { status: status@ },
            TuiAction::AskMemory(a0) => TuiActionView::AskMemory(a0@),
            TuiAction::MeasureContext => TuiActionView::MeasureContext,
        }
    }
}

// ---------------------------------------------------------------------------
// Validity
// ---------------------------------------------------------------------------

/// Whether a form has a selected field.
pub open spec fn has_field(fields: Seq<FormFieldView>, selected: usize) -> bool {
    selected < fields.len()
}

/// How many fields the form for a provider has.
pub const PROVIDER_FIELD_COUNT: usize = 19;

/// Whether a form for a provider has its fields.
pub open spec fn is_provider_form(form: ProviderFormView) -> bool {
    form.fields.len() == PROVIDER_FIELD_COUNT && has_field(form.fields, form.selected)
}

impl TuiStateView {
    /// Whether the state is one that the interface can be in.
    pub open spec fn wf(self) -> bool {
        &&& self.mcp_form matches Some(form) ==> has_field(form.fields, form.selected)
        &&& self.settings matches Some(settings) ==> (settings.form matches Some(form)
            ==> is_provider_form(form))
        &&& self.confirm_delete matches Some(DeleteTargetView::Provider(_)) ==> self.settings is Some
    }

    /// With a notice at the end of the timeline.
    pub open spec fn noticed(self, kind: NoticeKind, text: Seq<char>) -> TuiStateView {
        TuiStateView {
            timeline: self.timeline.push(TimelineEntryView::Notice { kind, text }),
            follow_tail: true,
            ..self
        }
    }

    /// With another status line.
    pub open spec fn saying(self, text: Seq<char>) -> TuiStateView {
        TuiStateView { status: text, ..self }
    }

    /// With no overlay.
    pub open spec fn closed(self) -> TuiStateView {
        TuiStateView { overlay: None, mcp_form: None, settings: None, ..self }
    }

    /// With a fresh overlay.
    pub open spec fn over(self, kind: OverlayKind) -> TuiStateView {
        TuiStateView { overlay: Some(new_overlay(kind)), ..self }
    }
}

/// Whether what follows an action may close the overlay and what is open in it.
pub open spec fn may_close(action: TuiActionView) -> bool {
    match action {
        TuiActionView::LoadSession(_) => true,
        TuiActionView::ConfigureMcp { .. } => true,
        TuiActionView::PrepareCompaction => true,
        TuiActionView::DetectConfig(_) => true,
        TuiActionView::ResolveModel { purpose, .. } => purpose == ModelUse::Choose,
        TuiActionView::SaveSession(after) => after is ModelChosen,
        _ => false,
    }
}

/// Whether a step asks for what may close the overlay only while no deletion waits to be
/// confirmed.
pub open spec fn asks_safely(step: (TuiStateView, Seq<TuiActionView>)) -> bool {
    forall|i: int|
        0 <= i < step.1.len() && may_close(#[trigger] step.1[i]) ==> step.0.confirm_delete is None
}

/// The step of a state that only changes and asks for nothing.
pub open spec fn quiet(state: TuiStateView) -> (TuiStateView, Seq<TuiActionView>) {
    (state, Seq::empty())
}

/// The step of a state that asks for one thing.
pub open spec fn asking(state: TuiStateView, action: TuiActionView) -> (
    TuiStateView,
    Seq<TuiActionView>,
) {
    (state, seq![action])
}

/// No action.
pub fn nothing() -> (result: Vec<TuiAction>)
    ensures
        views(result@) == Seq::<TuiActionView>::empty(),
{
    Vec::new()
}

/// One action.
pub fn only(action: TuiAction) -> (result: Vec<TuiAction>)
    ensures
        views(result@) == seq![action@],
{
    let mut actions: Vec<TuiAction> = Vec::new();
    actions.push(action);
    assert(views(actions@) =~= seq![action@]);
    actions
}

// ---------------------------------------------------------------------------
// The state
// ---------------------------------------------------------------------------

/// Whether a session has a loop that goes on.
pub open spec fn loop_goes_on(session: SessionView) -> bool {
    session.loop_state matches Some(state) && state.status == LoopStatus::Active
}

/// Whether a session has a loop that goes on.
pub fn loop_active(session: &Session) -> (result: bool)
    ensures
        result == loop_goes_on(session@),
{
    match &session.loop_state {
        Some(state) => state.status == LoopStatus::Active,
        None => false,
    }
}

/// Where text that is pasted goes.
pub open spec fn accepts_text(s: TuiStateView) -> bool {
    if s.pending_user_input matches Some(pending) && pending.other_editor is Some {
        true
    } else {
        &&& s.pending_approval is None
        &&& s.pending_user_input is None
        &&& s.confirm_delete is None
        &&& (s.overlay matches Some(overlay) ==> overlay.kind != OverlayKind::Help)
    }
}

/// Fields with one of them typed into.
pub open spec fn typed_field(fields: Seq<FormFieldView>, at: usize, text: Seq<char>) -> Seq<FormFieldView> {
    fields.update(
        at as int,
        FormFieldView { editor: fields[at as int].editor.typed(text), ..fields[at as int] },
    )
}

/// The state after text was pasted: it goes to the answer in own words, else to the form that
/// is open, else to the query of the overlay, else to the input line.
pub open spec fn pasted(s: TuiStateView, text: Seq<char>) -> TuiStateView {
    if !accepts_text(s) {
        s
    } else if s.pending_user_input is Some && s.pending_user_input->0.other_editor is Some {
        let pending = s.pending_user_input->0;
        TuiStateView {
            pending_user_input: Some(
                PendingUserInputView {
                    other_editor: Some(pending.other_editor->0.typed(text)),
                    ..pending
                },
            ),
            ..s
        }
    } else if s.settings is Some && s.settings->0.form is Some {
        let form = s.settings->0.form->0;
        TuiStateView {
            settings: Some(
                SettingsStateView {
                    form: Some(
                        ProviderFormView {
                            fields: typed_field(form.fields, form.selected, text),
                            ..form
                        },
                    ),
                    ..s.settings->0
                },
            ),
            ..s
        }
    } else if s.overlay is Some && s.overlay->0.kind == OverlayKind::McpConfig
        && s.mcp_form is Some {
        let form = s.mcp_form->0;
        TuiStateView {
            mcp_form: Some(
                McpFormView { fields: typed_field(form.fields, form.selected, text), ..form },
            ),
            ..s
        }
    } else if s.overlay is Some {
        let overlay = s.overlay->0;
        TuiStateView {
            overlay: Some(OverlayView { query: overlay.query.typed(text), ..overlay }),
            ..s
        }
    } else {
        TuiStateView { editor: s.editor.typed(text), ..s }
    }
}

/// The policy behind a policy.
pub open spec fn policy_after(policy: AccessMode) -> AccessMode {
    match policy {
        AccessMode::ReadOnly => AccessMode::WorkspaceWrite,
        AccessMode::WorkspaceWrite => AccessMode::FullAccess,
        AccessMode::FullAccess => AccessMode::ReadOnly,
    }
}

/// The state after the key for the policy was pressed.
pub open spec fn policy_cycled(s: TuiStateView) -> TuiStateView {
    if s.busy {
        s.saying("Policy can be changed after the active turn"@)
    } else {
        let policy = policy_after(s.policy);
        TuiStateView {
            policy,
            status: "Policy: "@ + policy_label(s.policy_labels, policy),
            ..s
        }
    }
}

/// The state after scrolling up.
pub open spec fn scrolled_up(s: TuiStateView, amount: u16) -> TuiStateView {
    TuiStateView {
        scroll: if s.follow_tail {
            amount
        } else if s.scroll + amount > u16::MAX {
            u16::MAX
        } else {
            (s.scroll + amount) as u16
        },
        follow_tail: false,
        ..s
    }
}

/// The state after scrolling down.
pub open spec fn scrolled_down(s: TuiStateView, amount: u16) -> TuiStateView {
    let scroll: u16 = if s.scroll <= amount {
        0
    } else {
        (s.scroll - amount) as u16
    };
    TuiStateView { scroll, follow_tail: scroll == 0, ..s }
}

/// What opening an overlay does: the settings and the sessions are read first.
pub open spec fn overlay_opened(s: TuiStateView, kind: OverlayKind) -> (
    TuiStateView,
    Seq<TuiActionView>,
) {
    match kind {
        OverlayKind::Settings => asking(s, TuiActionView::ReadSettings(None)),
        OverlayKind::History => asking(s.over(kind), TuiActionView::ListSessions { clamp: false }),
        _ => quiet(s.over(kind)),
    }
}

impl TuiState {
    /// The state at the start, with the timeline of the session.
    pub fn new(
        home: String,
        cwd: String,
        session: Session,
        models: Vec<ModelChoice>,
        sessions: Vec<SessionCard>,
        mcp_entries: Vec<McpCatalogEntry>,
        skill_entries: Vec<SkillEntry>,
        policy: AccessMode,
        policy_labels: PolicyLabels,
        approve_all: bool,
    ) -> (result: TuiState)
        ensures
            result@.wf(),
            result@ == (TuiStateView {
                home: home@,
                cwd: cwd@,
                session: session@,
                timeline: replayed(session@.messages).0,
                editor: editing(Seq::empty()),
                input_history: Seq::empty(),
                history_cursor: None,
                queue: Seq::empty(),
                models: views(models@),
                sessions: views(sessions@),
                mcp_entries: views(mcp_entries@),
                skill_entries: views(skill_entries@),
                overlay: None,
                pending_approval: None,
                pending_user_input: None,
                confirm_delete: None,
                mcp_form: None,
                settings: None,
                policy,
                policy_labels: policy_labels@,
                approve_all,
                busy: false,
                active_generation: None,
                next_generation: 1,
                catalog_busy: None,
                auto_config_busy: false,
                settings_busy: false,
                update_status: "Checking for updates"@,
                status: "Ready"@,
                context_status: (ContextStatus {
                    used_tokens: 0,
                    used_percent: 0,
                    context_window: 0,
                    effective_context_window: 0,
                }),
                scroll: 0,
                follow_tail: true,
                spinner_tick: 0,
                last_escape: None,
                loop_continuation_pending: loop_goes_on(session@),
                side_busy: false,
                quit: false,
            }),
    {
        let loop_continuation_pending = loop_active(&session);
        let timeline = rebuild_timeline(&session.messages);
        TuiState {
            home,
            cwd,
            session,
            timeline,
            editor: Editor::new(),
            input_history: Vec::new(),
            history_cursor: None,
            queue: Vec::new(),
            models,
            sessions,
            mcp_entries,
            skill_entries,
            overlay: None,
            pending_approval: None,
            pending_user_input: None,
            confirm_delete: None,
            mcp_form: None,
            settings: None,
            policy,
            policy_labels,
            approve_all,
            busy: false,
            active_generation: None,
            next_generation: 1,
            catalog_busy: None,
            auto_config_busy: false,
            settings_busy: false,
            update_status: "Checking for updates".to_owned(),
            status: "Ready".to_owned(),
            context_status: ContextStatus {
                used_tokens: 0,
                used_percent: 0,
                context_window: 0,
                effective_context_window: 0,
            },
            scroll: 0,
            follow_tail: true,
            spinner_tick: 0,
            last_escape: None,
            loop_continuation_pending,
            side_busy: false,
            quit: false,
        }
    }

    /// Shows the timeline of the session anew.
    pub fn rebuild_timeline(&mut self)
        ensures
            final(self)@ == (TuiStateView {
                timeline: replayed(old(self)@.session.messages).0,
                follow_tail: true,
                ..old(self)@
            }),
    {
        self.timeline = rebuild_timeline(&self.session.messages);
        self.follow_tail = true;
    }

    /// Puts a notice at the end of the timeline.
    pub fn push_notice(&mut self, kind: NoticeKind, text: String)
        ensures
            final(self)@ == old(self)@.noticed(kind, text@),
    {
        self.timeline.push(TimelineEntry::Notice { kind, text });
        self.follow_tail = true;
    }

    /// Sets the status line.
    pub fn say(&mut self, text: &str)
        ensures
            final(self)@ == old(self)@.saying(text@),
    {
        self.status = text.to_owned();
    }

    /// Whether text that is typed or pasted has a place to go.
    pub fn accepts_text_input(&self) -> (result: bool)
        ensures
            result == accepts_text(self@),
    {
        let mut asked = false;
        if let Some(pending) = &self.pending_user_input {
            if pending.other_editor.is_some() {
                return true;
            }
            asked = true;
        }
        let help = match &self.overlay {
            Some(overlay) => overlay.kind == OverlayKind::Help,
            None => false,
        };
        self.pending_approval.is_none() && !asked && self.confirm_delete.is_none() && !help
    }

    /// Pastes text where it belongs.
    pub fn paste(&mut self, text: &str)
        requires
            old(self)@.wf(),
        ensures
            final(self)@ == pasted(old(self)@, text@),
    {
        if !self.accepts_text_input() {
            return;
        }
        if self.pending_user_input.is_some() {
            self.paste_answer(text);
        } else if self.form_open() {
            self.paste_setting(text);
        } else if self.server_form_open() {
            self.paste_server(text);
        } else if self.overlay.is_some() {
            self.paste_query(text);
        } else {
            self.editor.insert_str(text);
        }
    }

    fn form_open(&self) -> (result: bool)
        ensures
            result == (self@.settings is Some && self@.settings->0.form is Some),
    {
        match &self.settings {
            Some(settings) => settings.form.is_some(),
            None => false,
        }
    }

    fn server_form_open(&self) -> (result: bool)
        ensures
            result == (self@.overlay is Some && self@.overlay->0.kind == OverlayKind::McpConfig
                && self@.mcp_form is Some),
    {
        match &self.overlay {
            Some(overlay) => overlay.kind == OverlayKind::McpConfig && self.mcp_form.is_some(),
            None => false,
        }
    }

    fn paste_answer(&mut self, text: &str)
        requires
            old(self)@.pending_user_input is Some,
            old(self)@.pending_user_input->0.other_editor is Some,
        ensures
            final(self)@ == pasted(old(self)@, text@),
    {
        if let Some(pending) = &mut self.pending_user_input {
            type_answer(pending, text);
        }
    }

    fn paste_setting(&mut self, text: &str)
        requires
            accepts_text(old(self)@),
            old(self)@.wf(),
            old(self)@.pending_user_input is None,
            old(self)@.settings is Some,
            old(self)@.settings->0.form is Some,
        ensures
            final(self)@ == pasted(old(self)@, text@),
    {
        if let Some(settings) = &mut self.settings {
            type_setting(settings, text);
        }
    }

    fn paste_server(&mut self, text: &str)
        requires
            accepts_text(old(self)@),
            old(self)@.wf(),
            old(self)@.pending_user_input is None,
            !(old(self)@.settings is Some && old(self)@.settings->0.form is Some),
            old(self)@.overlay is Some,
            old(self)@.overlay->0.kind == OverlayKind::McpConfig,
            old(self)@.mcp_form is Some,
        ensures
            final(self)@ == pasted(old(self)@, text@),
    {
        if let Some(form) = &mut self.mcp_form {
            let at = form.selected;
            type_into(&mut form.fields, at, text);
        }
    }

    fn paste_query(&mut self, text: &str)
        requires
            accepts_text(old(self)@),
            old(self)@.pending_user_input is None,
            !(old(self)@.settings is Some && old(self)@.settings->0.form is Some),
            old(self)@.overlay is Some,
            !(old(self)@.overlay->0.kind == OverlayKind::McpConfig && old(self)@.mcp_form is Some),
        ensures
            final(self)@ == pasted(old(self)@, text@),
    {
        if let Some(overlay) = &mut self.overlay {
            overlay.query.insert_str(text);
        }
    }

    /// Takes the sessions that were listed.
    pub fn sessions_listed(&mut self, listed: Result<Vec<SessionCard>, String>, clamp: bool)
        ensures
            final(self)@ == sessions_taken(
                old(self)@,
                match listed {
                    Ok(sessions) => Ok(views(sessions@)),
                    Err(error) => Err(error@),
                },
                clamp,
            ),
    {
        match listed {
            Ok(sessions) => {
                self.sessions = sessions;
            },
            Err(error) => {
                self.push_notice(NoticeKind::Error, error);
            },
        }
        if clamp {
            let count = self.sessions.len();
            if let Some(overlay) = &mut self.overlay {
                overlay.selected = kept_inside(overlay.selected, count);
            }
        }
    }

    /// Opens an overlay.
    pub fn open_overlay(&mut self, kind: OverlayKind) -> (result: Vec<TuiAction>)
        ensures
            (final(self)@, views(result@)) == overlay_opened(old(self)@, kind),
    {
        match kind {
            OverlayKind::Settings => only(TuiAction::ReadSettings(None)),
            OverlayKind::History => {
                self.overlay = Some(Overlay::new(kind));
                only(TuiAction::ListSessions { clamp: false })
            },
            _ => {
                self.overlay = Some(Overlay::new(kind));
                nothing()
            },
        }
    }

    /// Closes the overlay.
    pub fn close_overlay(&mut self)
        ensures
            final(self)@ == old(self)@.closed(),
    {
        self.overlay = None;
        self.mcp_form = None;
        self.settings = None;
    }

    /// Scrolls towards the beginning. From the end, the distance counts anew.
    pub fn scroll_up(&mut self, amount: u16)
        ensures
            final(self)@ == scrolled_up(old(self)@, amount),
    {
        self.scroll = if self.follow_tail {
            amount
        } else {
            self.scroll.saturating_add(amount)
        };
        self.follow_tail = false;
    }

    /// Scrolls towards the end.
    pub fn scroll_down(&mut self, amount: u16)
        ensures
            final(self)@ == scrolled_down(old(self)@, amount),
    {
        self.scroll = if self.scroll <= amount {
            0
        } else {
            self.scroll - amount
        };
        self.follow_tail = self.scroll == 0;
    }

    /// Goes to the next policy, unless a turn runs.
    pub fn cycle_policy(&mut self)
        ensures
            final(self)@ == policy_cycled(old(self)@),
    {
        if self.busy {
            self.say("Policy can be changed after the active turn");
            return;
        }
        self.policy = match self.policy {
            AccessMode::ReadOnly => AccessMode::WorkspaceWrite,
            AccessMode::WorkspaceWrite => AccessMode::FullAccess,
            AccessMode::FullAccess => AccessMode::ReadOnly,
        };
        let mut text = "Policy: ".to_owned();
        text.push_str(&self.policy_labels.of(self.policy));
        self.status = text;
    }

    /// Whether nothing runs. Else the status line says what has to wait.
    pub fn require_idle(&mut self, action: &str) -> (result: bool)
        ensures
            result == !old(self)@.busy,
            final(self)@ == idle_required(old(self)@, action@),
    {
        if self.busy {
            let mut text = "Cancel or finish the active turn to ".to_owned();
            text.push_str(action);
            self.status = text;
            false
        } else {
            true
        }
    }
}

/// The state after it was asked for that nothing runs.
pub open spec fn idle_required(s: TuiStateView, action: Seq<char>) -> TuiStateView {
    if s.busy {
        s.saying("Cancel or finish the active turn to "@ + action)
    } else {
        s
    }
}

/// A place kept inside a list.
pub open spec fn inside(selected: usize, count: nat) -> usize {
    if count == 0 {
        0
    } else if selected < count {
        selected
    } else {
        (count - 1) as usize
    }
}

/// Returns a place kept inside a list.
pub fn kept_inside(selected: usize, count: usize) -> (result: usize)
    ensures
        result == inside(selected, count as nat),
{
    if count == 0 {
        0
    } else if selected < count {
        selected
    } else {
        count - 1
    }
}

/// The state after the sessions were listed.
pub open spec fn sessions_taken(
    s: TuiStateView,
    listed: Result<Seq<SessionCardView>, Seq<char>>,
    clamp: bool,
) -> TuiStateView {
    let taken = match listed {
        Ok(sessions) => TuiStateView { sessions, ..s },
        Err(error) => s.noticed(NoticeKind::Error, error),
    };
    match taken.overlay {
        Some(overlay) if clamp => TuiStateView {
            overlay: Some(
                OverlayView { selected: inside(overlay.selected, taken.sessions.len()), ..overlay },
            ),
            ..taken
        },
        _ => taken,
    }
}

fn type_answer(pending: &mut PendingUserInput, text: &str)
    requires
        old(pending)@.other_editor is Some,
    ensures
        final(pending)@ == (PendingUserInputView {
            other_editor: Some(old(pending)@.other_editor->0.typed(text@)),
            ..old(pending)@
        }),
{
    if let Some(editor) = &mut pending.other_editor {
        editor.insert_str(text);
    }
}

fn type_setting(settings: &mut SettingsState, text: &str)
    requires
        old(settings)@.form is Some,
        has_field(old(settings)@.form->0.fields, old(settings)@.form->0.selected),
    ensures
        final(settings)@ == (SettingsStateView {
            form: Some(
                (ProviderFormView {
                    fields: typed_field(
                        old(settings)@.form->0.fields,
                        old(settings)@.form->0.selected,
                        text@,
                    ),
                    ..old(settings)@.form->0
                }),
            ),
            ..old(settings)@
        }),
{
    if let Some(form) = &mut settings.form {
        let at = form.selected;
        type_into(&mut form.fields, at, text);
    }
}

fn type_into(fields: &mut Vec<FormField>, at: usize, text: &str)
    requires
        at < old(fields)@.len(),
    ensures
        views(final(fields)@) == typed_field(views(old(fields)@), at, text@),
{
    let mut field = fields.remove(at);
    field.editor.insert_str(text);
    fields.insert(at, field);
    assert(views(fields@) =~= typed_field(views(old(fields)@), at, text@));
}

// ---------------------------------------------------------------------------
// Laws
// ---------------------------------------------------------------------------

/// Scrolling up from the end and down again by as much leads back to the end.
pub proof fn scrolling_back_follows_the_tail(s: TuiStateView, amount: u16)
    requires
        s.follow_tail,
    ensures
        scrolled_up(s, amount).scroll == amount,
        !scrolled_up(s, amount).follow_tail,
        scrolled_down(scrolled_up(s, amount), amount).scroll == 0,
        scrolled_down(scrolled_up(s, amount), amount).follow_tail,
{
}

/// The policy stays while a turn runs.
pub proof fn running_turns_keep_their_policy(s: TuiStateView)
    requires
        s.busy,
    ensures
        policy_cycled(s).policy == s.policy,
{
}

} // verus!
