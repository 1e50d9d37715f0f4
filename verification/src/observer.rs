//! What a client is told while a turn runs, and the tokens that it used.

use vstd::prelude::*;
use vstd::string::StringSliceAdditionalSpecFns;
use vstd::utf8::encode_utf8;
use crate::events::AgentEvent;
use crate::events::AgentEventView;
use crate::json::Json;
use crate::json::JsonView;
use crate::json::array_view;
use crate::json::text_values;
use crate::json_ops::Fields;
use crate::json_ops::text_array;
use crate::session::LoopState;
use crate::session::LoopStateView;
use crate::session::LoopStatus;
use crate::session::Plan;
use crate::session::PlanStepStatus;
use crate::session::PlanStepView;
use crate::session::PlanView;
use crate::session::TokenUsage;
use crate::session::ToolCall;
use crate::session::ToolCallView;
use crate::session::ToolResult;
use crate::session::ToolResultView;
use crate::session::add_capped;
use crate::session::capped_sum;
use crate::settings::number_data;
use crate::table::duplicate_pairs;
use crate::table::lookup;
use crate::table::pairs_of;
use crate::table::put;
use crate::table::put_is_found;
use crate::table::table_get;
use crate::table::table_put;
use crate::table::table_remove;
use crate::table::without;
use crate::task::DownloadTaskState;
use crate::task::DownloadTaskStateView;
use crate::task::SessionTask;
use crate::task::SessionTaskView;
use crate::task::call_download;
use crate::task::download_label;
use crate::task::event_data;
use crate::task::next_download;
use crate::task::plain_event;
use crate::task::update_download_state;
use crate::text::clone_texts;
use crate::text::first_chars;
use crate::text::list_has;
use crate::text::take_chars;
use crate::text::texts;
use crate::text::texts_empty;
use crate::text::texts_push;
use crate::views::Duplicate;
use crate::views::opt;

verus! {

broadcast use {texts_push, texts_empty, array_view};

/// A part of a whole.
#[derive(Clone, Copy, Debug, PartialEq, Eq, Structural)]
pub struct Fraction {
    pub numerator: u64,
    pub denominator: u64,
}

/// The tokens of a session and of its turn, and the state of its context.
#[derive(Clone, Copy, Debug, PartialEq, Eq, Structural)]
pub struct BrowserUsageState {
    pub input_tokens: u64,
    pub cached_input_tokens: u64,
    pub cache_observed_input_tokens: u64,
    pub output_tokens: u64,
    pub cache_data_available: bool,
    pub turn_input_tokens: u64,
    pub turn_cached_input_tokens: u64,
    pub turn_cache_observed_input_tokens: u64,
    pub turn_output_tokens: u64,
    pub turn_cache_data_available: bool,
    pub turn_active: bool,
    pub context_used_tokens: u64,
    pub context_window_tokens: u64,
}

/// The totals of the turns at one level of reasoning effort.
#[derive(Clone, Copy, Debug, PartialEq, Eq, Structural)]
pub struct ReasoningAggregate {
    pub turns: u64,
    pub total_input_tokens: u64,
    pub total_cached_input_tokens: u64,
    pub cache_observed_input_tokens: u64,
    pub total_tokens: u64,
    pub total_duration_ms: u64,
    pub cache_turns: u64,
}

impl View for ReasoningAggregate {
    type V = ReasoningAggregate;

    open spec fn view(&self) -> ReasoningAggregate {
        *self
    }
}

impl Duplicate for ReasoningAggregate {
    fn duplicate(&self) -> (result: Self) {
        *self
    }
}

/// What is shown of the turns at one level of reasoning effort.
#[derive(Clone, Copy, Debug, PartialEq, Eq, Structural)]
pub struct EffortStats {
    pub turns: u64,
    pub cache_hit_rate: Option<Fraction>,
    pub average_duration_ms: Option<u64>,
    pub average_total_tokens: Option<u64>,
}

/// What is shown of the tokens of a session.
#[derive(Clone, Copy, Debug, PartialEq, Eq, Structural)]
pub struct UsageReport {
    pub input_tokens: u64,
    pub cached_input_tokens: u64,
    pub output_tokens: u64,
    pub total_tokens: u64,
    pub context_used_tokens: u64,
    pub context_window_tokens: u64,
    pub context_ratio: Fraction,
    pub cache_hit_rate: Option<Fraction>,
    pub turn_cache_hit_rate: Option<Fraction>,
}

/// What is still to be done after an event.
#[derive(Clone, Copy, Debug, PartialEq, Eq, Structural)]
pub enum ObserverAction {
    Nothing,
    /// Tell the client the tokens.
    SendUsage,
    /// Note the turn in the totals, then tell the client the tokens.
    StoreAndSendUsage,
}

/// The rates of a report, written as numbers.
#[derive(Debug)]
pub struct RateTexts {
    pub context: String,
    pub cache: String,
    pub turn_cache: String,
    /// One for each level of reasoning effort.
    pub efforts: Vec<String>,
}

/// What a `RateTexts` holds.
#[verifier::ext_equal]
pub struct RateTextsView {
    pub context: Seq<char>,
    pub cache: Seq<char>,
    pub turn_cache: Seq<char>,
    pub efforts: Seq<Seq<char>>,
}

impl View for RateTexts {
    type V = RateTextsView;

    open spec fn view(&self) -> RateTextsView {
        RateTextsView {
            context: self.context@,
            cache: self.cache@,
            turn_cache: self.turn_cache@,
            efforts: texts(self.efforts@),
        }
    }
}

impl Duplicate for RateTexts {
    fn duplicate(&self) -> (result: Self) {
        RateTexts {
            context: self.context.clone(),
            cache: self.cache.clone(),
            turn_cache: self.turn_cache.clone(),
            efforts: clone_texts(&self.efforts),
        }
    }
}

/// What only the moment of an event tells.
#[derive(Debug)]
pub struct EventFacts {
    /// The seconds that a call took, written as a number.
    pub elapsed: String,
    /// The addresses of the images of a result.
    pub images: Vec<String>,
}

/// What a `EventFacts` holds.
#[verifier::ext_equal]
pub struct EventFactsView {
    pub elapsed: Seq<char>,
    pub images: Seq<Seq<char>>,
}

impl View for EventFacts {
    type V = EventFactsView;

    open spec fn view(&self) -> EventFactsView {
        EventFactsView {
            elapsed: self.elapsed@,
            images: texts(self.images@),
        }
    }
}

impl Duplicate for EventFacts {
    fn duplicate(&self) -> (result: Self) {
        EventFacts {
            elapsed: self.elapsed.clone(),
            images: clone_texts(&self.images),
        }
    }
}

/// What is kept between the events of a turn.
#[derive(Debug)]
pub struct BrowserObserver {
    pub reasoning_effort: String,
    pub usage: BrowserUsageState,
    /// The labels of the downloads that calls started.
    pub download_calls: Vec<(String, String)>,
    pub context_categories: Vec<(String, u64)>,
}

/// What a `BrowserObserver` holds.
#[verifier::ext_equal]
pub struct BrowserObserverView {
    pub reasoning_effort: Seq<char>,
    pub usage: BrowserUsageState,
    pub download_calls: Seq<(Seq<char>, Seq<char>)>,
    pub context_categories: Seq<(Seq<char>, u64)>,
}

impl View for BrowserObserver {
    type V = BrowserObserverView;

    open spec fn view(&self) -> BrowserObserverView {
        BrowserObserverView {
            reasoning_effort: self.reasoning_effort@,
            usage: self.usage,
            download_calls: pairs_of(self.download_calls@),
            context_categories: pairs_of(self.context_categories@),
        }
    }
}

impl Duplicate for BrowserObserver {
    fn duplicate(&self) -> (result: Self) {
        BrowserObserver {
            reasoning_effort: self.reasoning_effort.clone(),
            usage: self.usage,
            download_calls: duplicate_pairs(&self.download_calls),
            context_categories: duplicate_pairs(&self.context_categories),
        }
    }
}

// ---------------------------------------------------------------------------
// Usage
// ---------------------------------------------------------------------------

/// The smaller of two numbers.
pub open spec fn lesser(a: u64, b: u64) -> u64 {
    if a < b {
        a
    } else {
        b
    }
}

fn lesser_of(a: u64, b: u64) -> (result: u64)
    ensures
        result == lesser(a, b),
{
    if a < b {
        a
    } else {
        b
    }
}

/// How much of what was observed came from the cache: nothing where nothing was observed.
pub open spec fn cache_fraction(available: bool, cached: u64, observed: u64) -> Option<Fraction> {
    if !available {
        None
    } else if observed == 0 {
        Some(Fraction { numerator: 0, denominator: 1 })
    } else {
        Some(Fraction { numerator: lesser(cached, observed), denominator: observed })
    }
}

/// How much of the context is used.
pub open spec fn context_fraction(used: u64, window: u64) -> Fraction {
    if window == 0 {
        Fraction { numerator: 0, denominator: 1 }
    } else {
        Fraction { numerator: lesser(used, window), denominator: window }
    }
}

/// What is shown of the tokens of a session.
pub open spec fn usage_report(state: BrowserUsageState) -> UsageReport {
    UsageReport {
        input_tokens: state.input_tokens,
        cached_input_tokens: state.cached_input_tokens,
        output_tokens: state.output_tokens,
        total_tokens: capped_sum(state.input_tokens as nat, state.output_tokens as nat) as u64,
        context_used_tokens: state.context_used_tokens,
        context_window_tokens: state.context_window_tokens,
        context_ratio: context_fraction(state.context_used_tokens, state.context_window_tokens),
        cache_hit_rate: cache_fraction(
            state.cache_data_available,
            state.cached_input_tokens,
            state.cache_observed_input_tokens,
        ),
        turn_cache_hit_rate: cache_fraction(
            state.turn_cache_data_available,
            state.turn_cached_input_tokens,
            state.turn_cache_observed_input_tokens,
        ),
    }
}

fn cache_rate(available: bool, cached: u64, observed: u64) -> (result: Option<Fraction>)
    ensures
        result == cache_fraction(available, cached, observed),
{
    if !available {
        None
    } else if observed == 0 {
        Some(Fraction { numerator: 0, denominator: 1 })
    } else {
        Some(Fraction { numerator: lesser_of(cached, observed), denominator: observed })
    }
}

/// Reports the tokens of a session.
pub fn browser_usage(state: &BrowserUsageState) -> (result: UsageReport)
    ensures
        result == usage_report(*state),
{
    let context_ratio = if state.context_window_tokens == 0 {
        Fraction { numerator: 0, denominator: 1 }
    } else {
        Fraction {
            numerator: lesser_of(state.context_used_tokens, state.context_window_tokens),
            denominator: state.context_window_tokens,
        }
    };
    UsageReport {
        input_tokens: state.input_tokens,
        cached_input_tokens: state.cached_input_tokens,
        output_tokens: state.output_tokens,
        total_tokens: add_capped(state.input_tokens, state.output_tokens),
        context_used_tokens: state.context_used_tokens,
        context_window_tokens: state.context_window_tokens,
        context_ratio,
        cache_hit_rate: cache_rate(
            state.cache_data_available,
            state.cached_input_tokens,
            state.cache_observed_input_tokens,
        ),
        turn_cache_hit_rate: cache_rate(
            state.turn_cache_data_available,
            state.turn_cached_input_tokens,
            state.turn_cache_observed_input_tokens,
        ),
    }
}

/// A rate as clients see it: a number, or nothing.
pub open spec fn rate_data(rate: Option<Fraction>, text: Seq<char>) -> JsonView {
    match rate {
        Some(_) => JsonView::Number(text),
        None => JsonView::Null,
    }
}

fn show_rate(rate: &Option<Fraction>, text: &String) -> (result: Json)
    ensures
        result@ == rate_data(*rate, text@),
{
    match rate {
        Some(_) => Json::Number(text.clone()),
        None => Json::Null,
    }
}

/// The tokens of a session as clients see them.
#[verifier::opaque]
pub open spec fn usage_data(report: UsageReport, rates: RateTextsView) -> JsonView {
    JsonView::Object(
        seq![
            ("input_tokens"@, number_data(report.input_tokens as nat)),
            ("cached_input_tokens"@, number_data(report.cached_input_tokens as nat)),
            ("output_tokens"@, number_data(report.output_tokens as nat)),
            ("total_tokens"@, number_data(report.total_tokens as nat)),
            ("context_used_tokens"@, number_data(report.context_used_tokens as nat)),
            ("context_window_tokens"@, number_data(report.context_window_tokens as nat)),
            ("context_ratio"@, JsonView::Number(rates.context)),
            ("cache_hit_rate"@, rate_data(report.cache_hit_rate, rates.cache)),
            ("cache_data_available"@, JsonView::Bool(report.cache_hit_rate is Some)),
            ("turn_cache_hit_rate"@, rate_data(report.turn_cache_hit_rate, rates.turn_cache)),
            ("turn_cache_data_available"@, JsonView::Bool(report.turn_cache_hit_rate is Some)),
        ],
    )
}

fn show_usage(report: &UsageReport, rates: &RateTexts) -> (result: Json)
    ensures
        result@ == usage_data(*report, rates@),
{
    let mut fields = Fields::new();
    fields.add("input_tokens", Json::number(report.input_tokens));
    fields.add("cached_input_tokens", Json::number(report.cached_input_tokens));
    fields.add("output_tokens", Json::number(report.output_tokens));
    fields.add("total_tokens", Json::number(report.total_tokens));
    fields.add("context_used_tokens", Json::number(report.context_used_tokens));
    fields.add("context_window_tokens", Json::number(report.context_window_tokens));
    fields.add("context_ratio", Json::Number(rates.context.clone()));
    fields.add("cache_hit_rate", show_rate(&report.cache_hit_rate, &rates.cache));
    fields.add("cache_data_available", Json::Bool(report.cache_hit_rate.is_some()));
    fields.add("turn_cache_hit_rate", show_rate(&report.turn_cache_hit_rate, &rates.turn_cache));
    fields.add("turn_cache_data_available", Json::Bool(report.turn_cache_hit_rate.is_some()));
    proof {
        reveal(usage_data);
        assert(fields@ =~= usage_data(*report, rates@)->Object_0);
    }
    fields.done()
}

// ---------------------------------------------------------------------------
// Totals by effort
// ---------------------------------------------------------------------------

/// Totals of no turns.
pub open spec fn no_turns() -> ReasoningAggregate {
    ReasoningAggregate {
        turns: 0,
        total_input_tokens: 0,
        total_cached_input_tokens: 0,
        cache_observed_input_tokens: 0,
        total_tokens: 0,
        total_duration_ms: 0,
        cache_turns: 0,
    }
}

/// Two numbers, not above what fits.
pub open spec fn summed(a: u64, b: u64) -> u64 {
    capped_sum(a as nat, b as nat) as u64
}

/// Totals with one more turn.
pub open spec fn with_turn(totals: ReasoningAggregate, usage: TokenUsage, elapsed_ms: u64)
    -> ReasoningAggregate {
    ReasoningAggregate {
        turns: summed(totals.turns, 1),
        total_input_tokens: summed(totals.total_input_tokens, usage.input_tokens),
        total_cached_input_tokens: summed(
            totals.total_cached_input_tokens,
            usage.cached_input_tokens,
        ),
        cache_observed_input_tokens: if usage.cache_data_available {
            summed(totals.cache_observed_input_tokens, usage.cache_observed_input_tokens)
        } else {
            totals.cache_observed_input_tokens
        },
        total_tokens: summed(totals.total_tokens, usage.total() as u64),
        total_duration_ms: summed(totals.total_duration_ms, elapsed_ms),
        cache_turns: if usage.cache_data_available {
            summed(totals.cache_turns, 1)
        } else {
            totals.cache_turns
        },
    }
}

/// Adds a turn to totals.
pub fn add_reasoning_sample(totals: &mut ReasoningAggregate, usage: &TokenUsage, elapsed_ms: u64)
    ensures
        *final(totals) == with_turn(*old(totals), *usage, elapsed_ms),
{
    totals.turns = add_capped(totals.turns, 1);
    totals.total_input_tokens = add_capped(totals.total_input_tokens, usage.input_tokens);
    totals.total_cached_input_tokens = add_capped(
        totals.total_cached_input_tokens,
        usage.cached_input_tokens,
    );
    if usage.cache_data_available {
        totals.cache_observed_input_tokens = add_capped(
            totals.cache_observed_input_tokens,
            usage.cache_observed_input_tokens,
        );
    }
    totals.total_tokens = add_capped(totals.total_tokens, usage.total_tokens());
    totals.total_duration_ms = add_capped(totals.total_duration_ms, elapsed_ms);
    if usage.cache_data_available {
        totals.cache_turns = add_capped(totals.cache_turns, 1);
    }
}

/// The totals of an effort, or those of no turns.
pub open spec fn totals_of(
    aggregates: Seq<(Seq<char>, ReasoningAggregate)>,
    effort: Seq<char>,
) -> ReasoningAggregate {
    match lookup(aggregates, effort) {
        Some(totals) => totals,
        None => no_turns(),
    }
}

/// Totals with one more turn at an effort.
pub open spec fn with_sample(
    aggregates: Seq<(Seq<char>, ReasoningAggregate)>,
    effort: Seq<char>,
    usage: TokenUsage,
    elapsed_ms: u64,
) -> Seq<(Seq<char>, ReasoningAggregate)> {
    put(aggregates, effort, with_turn(totals_of(aggregates, effort), usage, elapsed_ms))
}

fn find_totals(aggregates: &Vec<(String, ReasoningAggregate)>, effort: &str) -> (result:
    ReasoningAggregate)
    ensures
        result == totals_of(pairs_of(aggregates@), effort@),
{
    match table_get(aggregates, effort) {
        Some(totals) => *totals,
        None => ReasoningAggregate {
            turns: 0,
            total_input_tokens: 0,
            total_cached_input_tokens: 0,
            cache_observed_input_tokens: 0,
            total_tokens: 0,
            total_duration_ms: 0,
            cache_turns: 0,
        },
    }
}

/// Notes a turn in the totals of its effort.
pub fn update_reasoning_stats(
    aggregates: &mut Vec<(String, ReasoningAggregate)>,
    effort: &str,
    usage: &TokenUsage,
    elapsed_ms: u64,
)
    ensures
        pairs_of(final(aggregates)@) == with_sample(
            pairs_of(old(aggregates)@),
            effort@,
            *usage,
            elapsed_ms,
        ),
{
    let mut totals = find_totals(aggregates, effort);
    add_reasoning_sample(&mut totals, usage, elapsed_ms);
    table_put(aggregates, effort.to_owned(), totals);
}

/// The input against which the cache is measured: what was observed, or all of it where turns
/// had cache data and nothing was observed.
pub open spec fn cache_base(totals: ReasoningAggregate) -> u64 {
    if totals.cache_observed_input_tokens > 0 {
        totals.cache_observed_input_tokens
    } else if totals.cache_turns > 0 {
        totals.total_input_tokens
    } else {
        0
    }
}

/// What is shown of totals.
pub open spec fn effort_stats(totals: ReasoningAggregate) -> EffortStats {
    let base = cache_base(totals);
    EffortStats {
        turns: totals.turns,
        cache_hit_rate: if base > 0 {
            Some(
                Fraction {
                    numerator: lesser(totals.total_cached_input_tokens, base),
                    denominator: base,
                },
            )
        } else {
            None
        },
        average_duration_ms: if totals.turns > 0 {
            Some((totals.total_duration_ms / totals.turns) as u64)
        } else {
            None
        },
        average_total_tokens: if totals.turns > 0 {
            Some((totals.total_tokens / totals.turns) as u64)
        } else {
            None
        },
    }
}

/// Reports totals.
pub fn report_effort(totals: &ReasoningAggregate) -> (result: EffortStats)
    ensures
        result == effort_stats(*totals),
{
    let base: u64 = if totals.cache_observed_input_tokens > 0 {
        totals.cache_observed_input_tokens
    } else if totals.cache_turns > 0 {
        totals.total_input_tokens
    } else {
        0
    };
    EffortStats {
        turns: totals.turns,
        cache_hit_rate: if base > 0 {
            Some(
                Fraction {
                    numerator: lesser_of(totals.total_cached_input_tokens, base),
                    denominator: base,
                },
            )
        } else {
            None
        },
        average_duration_ms: if totals.turns > 0 {
            Some(totals.total_duration_ms / totals.turns)
        } else {
            None
        },
        average_total_tokens: if totals.turns > 0 {
            Some(totals.total_tokens / totals.turns)
        } else {
            None
        },
    }
}

/// The version of the stored totals that counts; totals of another version do not.
pub const STATS_VERSION: u8 = 2;

/// The totals as they are stored.
#[derive(Debug)]
pub struct ReasoningStatsDocument {
    pub schema_version: u8,
    pub efforts: Vec<(String, ReasoningAggregate)>,
}

/// What a `ReasoningStatsDocument` holds.
#[verifier::ext_equal]
pub struct ReasoningStatsDocumentView {
    pub schema_version: u8,
    pub efforts: Seq<(Seq<char>, ReasoningAggregate)>,
}

impl View for ReasoningStatsDocument {
    type V = ReasoningStatsDocumentView;

    open spec fn view(&self) -> ReasoningStatsDocumentView {
        ReasoningStatsDocumentView {
            schema_version: self.schema_version,
            efforts: pairs_of(self.efforts@),
        }
    }
}

/// The totals that count: those of the right version, or none.
pub open spec fn stored_totals(document: Option<ReasoningStatsDocumentView>) -> Seq<
    (Seq<char>, ReasoningAggregate),
> {
    match document {
        Some(stored) => if stored.schema_version == STATS_VERSION {
            stored.efforts
        } else {
            Seq::empty()
        },
        None => Seq::empty(),
    }
}

/// The document that stores totals.
pub open spec fn totals_document(aggregates: Seq<(Seq<char>, ReasoningAggregate)>)
    -> ReasoningStatsDocumentView {
    ReasoningStatsDocumentView { schema_version: STATS_VERSION, efforts: aggregates }
}

/// Takes the totals from what was stored, where it could be read.
pub fn load_reasoning_aggregates(document: Option<ReasoningStatsDocument>) -> (result: Vec<
    (String, ReasoningAggregate),
>)
    ensures
        pairs_of(result@) == stored_totals(opt(document)),
{
    if let Some(stored) = document {
        if stored.schema_version == STATS_VERSION {
            return stored.efforts;
        }
    }
    let none: Vec<(String, ReasoningAggregate)> = Vec::new();
    assert(pairs_of(none@) =~= Seq::<(Seq<char>, ReasoningAggregate)>::empty());
    none
}

/// Makes the document that stores totals.
pub fn save_reasoning_aggregates(aggregates: &Vec<(String, ReasoningAggregate)>) -> (result:
    ReasoningStatsDocument)
    ensures
        result@ == totals_document(pairs_of(aggregates@)),
{
    ReasoningStatsDocument {
        schema_version: STATS_VERSION,
        efforts: duplicate_pairs(aggregates),
    }
}

/// Totals that were stored are taken back as they were.
pub proof fn stored_totals_are_read_back(aggregates: Seq<(Seq<char>, ReasoningAggregate)>)
    ensures
        stored_totals(Some(totals_document(aggregates))) == aggregates,
{
}

/// The levels of reasoning effort.
pub open spec fn efforts() -> Seq<Seq<char>> {
    seq!["auto"@, "low"@, "medium"@, "high"@, "xhigh"@]
}

/// The levels of reasoning effort.
pub fn reasoning_efforts() -> (result: Vec<String>)
    ensures
        texts(result@) == efforts(),
{
    let mut list: Vec<String> = Vec::new();
    list.push("auto".to_owned());
    list.push("low".to_owned());
    list.push("medium".to_owned());
    list.push("high".to_owned());
    list.push("xhigh".to_owned());
    assert(texts(list@) =~= efforts());
    list
}

/// The totals with the turn that is running.
pub open spec fn totals_now(
    aggregates: Seq<(Seq<char>, ReasoningAggregate)>,
    current: Option<TokenUsage>,
    elapsed_ms: u64,
    effort: Seq<char>,
) -> Seq<(Seq<char>, ReasoningAggregate)> {
    match current {
        Some(usage) => with_sample(aggregates, effort, usage, elapsed_ms),
        None => aggregates,
    }
}

/// What is shown of each effort, in the order of the levels.
pub open spec fn stats_of(aggregates: Seq<(Seq<char>, ReasoningAggregate)>) -> Seq<EffortStats> {
    Seq::new(efforts().len(), |i: int| effort_stats(totals_of(aggregates, efforts()[i])))
}

/// Reports each effort, with the turn that is running.
pub fn load_reasoning_stats(
    aggregates: &Vec<(String, ReasoningAggregate)>,
    current: &Option<TokenUsage>,
    elapsed_ms: u64,
    effort: &str,
) -> (result: Vec<EffortStats>)
    ensures
        result@ == stats_of(totals_now(pairs_of(aggregates@), *current, elapsed_ms, effort@)),
{
    let mut now = duplicate_pairs(aggregates);
    if let Some(usage) = current {
        update_reasoning_stats(&mut now, effort, usage, elapsed_ms);
    }
    let list = reasoning_efforts();
    let ghost wanted = stats_of(pairs_of(now@));
    let mut result: Vec<EffortStats> = Vec::new();
    let mut i: usize = 0;
    assert(result@ =~= wanted.take(0));
    while i < list.len()
        invariant
            i <= list@.len(),
            texts(list@) == efforts(),
            wanted == stats_of(pairs_of(now@)),
            result@ == wanted.take(i as int),
        decreases list@.len() - i,
    {
        assert(efforts()[i as int] == list@[i as int]@);
        result.push(report_effort(&find_totals(&now, &list[i])));
        assert(wanted.take(i + 1) =~= wanted.take(i as int).push(wanted[i as int]));
        i = i + 1;
    }
    assert(wanted.take(i as int) =~= wanted);
    result
}

/// A number that may be absent.
pub open spec fn number_or_null(value: Option<u64>) -> JsonView {
    match value {
        Some(number) => number_data(number as nat),
        None => JsonView::Null,
    }
}

fn show_number(value: &Option<u64>) -> (result: Json)
    ensures
        result@ == number_or_null(*value),
{
    match value {
        Some(number) => Json::number(*number),
        None => Json::Null,
    }
}

/// An effort as clients see it.
pub open spec fn effort_data(stats: EffortStats, rate: Seq<char>) -> JsonView {
    JsonView::Object(
        seq![
            ("turns"@, number_data(stats.turns as nat)),
            ("cache_hit_rate"@, rate_data(stats.cache_hit_rate, rate)),
            ("average_duration_ms"@, number_or_null(stats.average_duration_ms)),
            ("average_total_tokens"@, number_or_null(stats.average_total_tokens)),
            ("cache_available"@, JsonView::Bool(stats.cache_hit_rate is Some)),
        ],
    )
}

fn show_effort(stats: &EffortStats, rate: &String) -> (result: Json)
    ensures
        result@ == effort_data(*stats, rate@),
{
    let mut fields = Fields::new();
    fields.add("turns", Json::number(stats.turns));
    fields.add("cache_hit_rate", show_rate(&stats.cache_hit_rate, rate));
    fields.add("average_duration_ms", show_number(&stats.average_duration_ms));
    fields.add("average_total_tokens", show_number(&stats.average_total_tokens));
    fields.add("cache_available", Json::Bool(stats.cache_hit_rate.is_some()));
    assert(fields@ =~= effort_data(*stats, rate@)->Object_0);
    fields.done()
}

/// The efforts as clients see them.
pub open spec fn efforts_data(stats: Seq<EffortStats>, rates: Seq<Seq<char>>) -> JsonView {
    JsonView::Object(
        Seq::new(efforts().len(), |i: int| (efforts()[i], effort_data(stats[i], rates[i]))),
    )
}

/// Shows the efforts.
pub fn show_efforts(stats: &Vec<EffortStats>, rates: &Vec<String>) -> (result: Json)
    requires
        stats@.len() == efforts().len(),
        rates@.len() == efforts().len(),
    ensures
        result@ == efforts_data(stats@, texts(rates@)),
{
    let list = reasoning_efforts();
    let ghost wanted = efforts_data(stats@, texts(rates@))->Object_0;
    let mut fields = Fields::new();
    let mut i: usize = 0;
    assert(fields@ =~= wanted.take(0));
    while i < list.len()
        invariant
            i <= list@.len(),
            texts(list@) == efforts(),
            stats@.len() == efforts().len(),
            rates@.len() == efforts().len(),
            wanted == efforts_data(stats@, texts(rates@))->Object_0,
            fields@ == wanted.take(i as int),
        decreases list@.len() - i,
    {
        assert(efforts()[i as int] == list@[i as int]@);
        fields.add(&list[i], show_effort(&stats[i], &rates[i]));
        assert(wanted.take(i + 1) =~= wanted.take(i as int).push(wanted[i as int]));
        i = i + 1;
    }
    assert(wanted.take(i as int) =~= wanted);
    fields.done()
}

// ---------------------------------------------------------------------------
// Telling the tokens
// ---------------------------------------------------------------------------

/// The tokens of the turn that is running, where it used any.
pub open spec fn running_turn(state: BrowserUsageState) -> Option<TokenUsage> {
    if state.turn_active && (state.turn_input_tokens > 0 || state.turn_output_tokens > 0) {
        Some(
            TokenUsage {
                input_tokens: state.turn_input_tokens,
                cached_input_tokens: state.turn_cached_input_tokens,
                cache_observed_input_tokens: state.turn_cache_observed_input_tokens,
                output_tokens: state.turn_output_tokens,
                cache_data_available: state.turn_cache_data_available,
            },
        )
    } else {
        None
    }
}

/// Returns the tokens of the turn that is running, where it used any.
pub fn current_turn(state: &BrowserUsageState) -> (result: Option<TokenUsage>)
    ensures
        result == running_turn(*state),
{
    if state.turn_active && (state.turn_input_tokens > 0 || state.turn_output_tokens > 0) {
        Some(
            TokenUsage {
                input_tokens: state.turn_input_tokens,
                cached_input_tokens: state.turn_cached_input_tokens,
                cache_observed_input_tokens: state.turn_cache_observed_input_tokens,
                output_tokens: state.turn_output_tokens,
                cache_data_available: state.turn_cache_data_available,
            },
        )
    } else {
        None
    }
}

/// Numbers under names as clients see them.
pub open spec fn numbers_data(rows: Seq<(Seq<char>, u64)>) -> JsonView {
    JsonView::Object(Seq::new(rows.len(), |i: int| (rows[i].0, number_data(rows[i].1 as nat))))
}

fn show_numbers(rows: &Vec<(String, u64)>) -> (result: Json)
    ensures
        result@ == numbers_data(pairs_of(rows@)),
{
    let ghost wanted = numbers_data(pairs_of(rows@))->Object_0;
    let mut fields = Fields::new();
    let mut i: usize = 0;
    assert(fields@ =~= wanted.take(0));
    while i < rows.len()
        invariant
            i <= rows@.len(),
            wanted == numbers_data(pairs_of(rows@))->Object_0,
            fields@ == wanted.take(i as int),
        decreases rows@.len() - i,
    {
        fields.add(&rows[i].0, Json::number(rows[i].1));
        assert(wanted.take(i + 1) =~= wanted.take(i as int).push(wanted[i as int]));
        i = i + 1;
    }
    assert(wanted.take(i as int) =~= wanted);
    fields.done()
}

/// The event that tells the tokens.
pub open spec fn usage_event_data(
    observer: BrowserObserverView,
    rates: RateTextsView,
    stats: Seq<EffortStats>,
) -> JsonView {
    JsonView::Object(
        seq![
            ("event_type"@, JsonView::Text("usage_update"@)),
            ("usage"@, usage_data(usage_report(observer.usage), rates)),
            ("reasoning_efforts"@, efforts_data(stats, rates.efforts)),
            ("context_categories"@, numbers_data(observer.context_categories)),
        ],
    )
}

/// Tells the client the tokens. `stats` are the reports of the efforts.
pub fn send_usage(
    observer: &BrowserObserver,
    task: &mut SessionTask,
    rates: &RateTexts,
    stats: &Vec<EffortStats>,
)
    requires
        stats@.len() == efforts().len(),
        rates.efforts@.len() == efforts().len(),
    ensures
        final(task)@ == old(task)@.pushed(usage_event_data(observer@, rates@, stats@)),
{
    let report = browser_usage(&observer.usage);
    let mut fields = Fields::new();
    fields.add("event_type", Json::text("usage_update"));
    fields.add("usage", show_usage(&report, rates));
    fields.add("reasoning_efforts", show_efforts(stats, &rates.efforts));
    fields.add("context_categories", show_numbers(&observer.context_categories));
    assert(fields@ =~= usage_event_data(observer@, rates@, stats@)->Object_0);
    task.push_event(fields.done());
}

// ---------------------------------------------------------------------------
// Events
// ---------------------------------------------------------------------------

/// A text as it is shown in short: at most a thousand characters.
pub open spec fn shown_in_short(s: Seq<char>) -> Seq<char> {
    if s.len() > 1_000 {
        first_chars(s, 1_000) + "..."@
    } else {
        s
    }
}

/// Returns a text as it is shown in short.
pub fn preview(value: &str) -> (result: String)
    ensures
        result@ == shown_in_short(value@),
{
    if value.unicode_len() > 1_000 {
        take_chars(value, 1_000).concat("...")
    } else {
        value.to_owned()
    }
}

/// An event with a text.
pub open spec fn content_event(kind: Seq<char>, content: Seq<char>) -> JsonView {
    JsonView::Object(
        seq![("event_type"@, JsonView::Text(kind)), ("content"@, JsonView::Text(content))],
    )
}

/// An event with a text.
pub fn text_event(kind: &str, content: &str) -> (result: Json)
    ensures
        result@ == content_event(kind@, content@),
        result@ is Object,
{
    let mut fields = Fields::new();
    fields.add("event_type", Json::text(kind));
    fields.add("content", Json::text(content));
    assert(fields@ =~= content_event(kind@, content@)->Object_0);
    fields.done()
}

/// The event of a call that starts.
pub open spec fn tool_start_data(call: ToolCallView) -> JsonView {
    JsonView::Object(
        seq![
            ("event_type"@, JsonView::Text("tool_start"@)),
            ("call_id"@, JsonView::Text(call.id)),
            ("tool_name"@, JsonView::Text(call.name)),
            ("arguments"@, call.arguments),
        ],
    )
}

/// The event of a call that runs.
pub open spec fn tool_running_data(call: ToolCallView) -> JsonView {
    JsonView::Object(
        seq![
            ("event_type"@, JsonView::Text("tool_running"@)),
            ("call_id"@, JsonView::Text(call.id)),
            ("tool_name"@, JsonView::Text(call.name)),
        ],
    )
}

/// The event of a call that ended.
pub open spec fn tool_done_data(call: ToolCallView, result: ToolResultView, facts: EventFactsView)
    -> JsonView {
    JsonView::Object(
        seq![
            ("event_type"@, JsonView::Text("tool_done"@)),
            ("call_id"@, JsonView::Text(call.id)),
            ("tool_name"@, JsonView::Text(call.name)),
            ("elapsed"@, JsonView::Number(facts.elapsed)),
            ("result_preview"@, JsonView::Text(shown_in_short(result.output))),
            ("is_error"@, JsonView::Bool(!result.success)),
            ("images"@, JsonView::Array(text_values(facts.images))),
        ],
    )
}

/// The event of a request that is made again.
pub open spec fn retry_data(attempt: nat, max_attempts: nat, delay_ms: nat, message: Seq<char>)
    -> JsonView {
    JsonView::Object(
        seq![
            ("event_type"@, JsonView::Text("connection_retry"@)),
            ("attempt"@, number_data(attempt)),
            ("max_attempts"@, number_data(max_attempts)),
            ("delay_ms"@, number_data(delay_ms)),
            ("message"@, JsonView::Text(message)),
        ],
    )
}

/// The event of a history that was summarised.
pub open spec fn compression_data(before: nat, after: nat) -> JsonView {
    JsonView::Object(
        seq![
            ("event_type"@, JsonView::Text("compression"@)),
            ("before"@, number_data(before)),
            ("after"@, number_data(after)),
        ],
    )
}

/// The position of the first step that is being worked on.
pub open spec fn step_in_progress(steps: Seq<PlanStepView>, from: int) -> Option<int>
    decreases steps.len() - from,
{
    if from < 0 || from >= steps.len() {
        None
    } else if steps[from].status == PlanStepStatus::InProgress {
        Some(from)
    } else {
        step_in_progress(steps, from + 1)
    }
}

/// The event of a step that is being worked on.
pub open spec fn step_data(plan: PlanView, at: int) -> JsonView {
    JsonView::Object(
        seq![
            ("event_type"@, JsonView::Text("loop_step_start"@)),
            ("step_index"@, number_data((at + 1) as nat)),
            ("step_description"@, JsonView::Text(plan.steps[at].step)),
            ("total_steps"@, number_data(plan.steps.len())),
        ],
    )
}

/// The name of the state of a loop, in lower case.
pub open spec fn loop_status_name(status: LoopStatus) -> Seq<char> {
    match status {
        LoopStatus::Active => "active"@,
        LoopStatus::Paused => "paused"@,
        LoopStatus::BudgetLimited => "budgetlimited"@,
        LoopStatus::UsageLimited => "usagelimited"@,
        LoopStatus::Complete => "complete"@,
        LoopStatus::Blocked => "blocked"@,
    }
}

/// The event of a loop that changed.
pub open spec fn loop_data(state: LoopStateView) -> JsonView {
    JsonView::Object(
        seq![
            ("event_type"@, JsonView::Text("loop_progress"@)),
            ("current_step"@, number_data(state.turns_completed as nat)),
            (
                "total_steps"@,
                number_data(
                    state.turns_completed as nat + if state.status == LoopStatus::Active {
                        1nat
                    } else {
                        0nat
                    },
                ),
            ),
            ("status"@, JsonView::Text(loop_status_name(state.status))),
        ],
    )
}

/// The tokens after an event.
pub open spec fn counted(state: BrowserUsageState, event: AgentEventView) -> BrowserUsageState {
    match event {
        AgentEventView::ModelUsage { total, request } => BrowserUsageState {
            turn_active: true,
            input_tokens: total.input_tokens,
            cached_input_tokens: total.cached_input_tokens,
            cache_observed_input_tokens: total.cache_observed_input_tokens,
            output_tokens: total.output_tokens,
            cache_data_available: total.cache_data_available,
            turn_input_tokens: summed(state.turn_input_tokens, request.input_tokens),
            turn_cached_input_tokens: summed(
                state.turn_cached_input_tokens,
                request.cached_input_tokens,
            ),
            turn_cache_observed_input_tokens: summed(
                state.turn_cache_observed_input_tokens,
                request.cache_observed_input_tokens,
            ),
            turn_output_tokens: summed(state.turn_output_tokens, request.output_tokens),
            turn_cache_data_available: state.turn_cache_data_available
                || request.cache_data_available,
            ..state
        },
        AgentEventView::TurnCompleted { total, turn } => BrowserUsageState {
            input_tokens: total.input_tokens,
            cached_input_tokens: total.cached_input_tokens,
            cache_observed_input_tokens: total.cache_observed_input_tokens,
            output_tokens: total.output_tokens,
            cache_data_available: total.cache_data_available,
            turn_input_tokens: turn.input_tokens,
            turn_cached_input_tokens: turn.cached_input_tokens,
            turn_cache_observed_input_tokens: turn.cache_observed_input_tokens,
            turn_output_tokens: turn.output_tokens,
            turn_cache_data_available: turn.cache_data_available,
            turn_active: false,
            ..state
        },
        AgentEventView::ContextUpdated(status) => BrowserUsageState {
            context_used_tokens: status.used_tokens,
            context_window_tokens: status.context_window,
            ..state
        },
        AgentEventView::ModelStarted { round, .. } => if round == 1 {
            BrowserUsageState {
                turn_input_tokens: 0,
                turn_cached_input_tokens: 0,
                turn_cache_observed_input_tokens: 0,
                turn_output_tokens: 0,
                turn_cache_data_available: false,
                turn_active: true,
                ..state
            }
        } else {
            state
        },
        _ => state,
    }
}

/// The downloads that calls started, after an event.
pub open spec fn noted_downloads(
    calls: Seq<(Seq<char>, Seq<char>)>,
    event: AgentEventView,
) -> Seq<(Seq<char>, Seq<char>)> {
    match event {
        AgentEventView::ToolStarted(call) => match call_download(call) {
            Some(label) => put(calls, call.id, label),
            None => calls,
        },
        AgentEventView::ToolFinished { call, .. } => without(calls, call.id),
        _ => calls,
    }
}

/// The task after a call started.
pub open spec fn task_at_start(task: SessionTaskView, call: ToolCallView) -> SessionTaskView {
    SessionTaskView {
        download: match call_download(call) {
            Some(label) => Some(
                DownloadTaskStateView { label, status: "downloading"@, process_id: None },
            ),
            None => task.download,
        },
        current_tool: Some(call.name),
        phase: "running"@,
        ..task
    }.pushed(tool_start_data(call)).pushed(tool_running_data(call))
}

/// The task after a call ended.
pub open spec fn task_at_end(
    task: SessionTaskView,
    call: ToolCallView,
    result: ToolResultView,
    started: Option<Seq<char>>,
    facts: EventFactsView,
) -> SessionTaskView {
    SessionTaskView {
        download: next_download(task.download, call, result, started),
        current_tool: None,
        ..task
    }.pushed(tool_done_data(call, result, facts))
}

/// The task after an event.
#[verifier::opaque]
pub open spec fn told(
    task: SessionTaskView,
    calls: Seq<(Seq<char>, Seq<char>)>,
    event: AgentEventView,
    facts: EventFactsView,
) -> SessionTaskView {
    match event {
        AgentEventView::Text(content) => task.pushed(content_event("text_chunk"@, content)),
        AgentEventView::TextDelta(content) => task.pushed(content_event("text_chunk"@, content)),
        AgentEventView::ReasoningDelta(content) => task.pushed(
            content_event("reasoning_chunk"@, content),
        ),
        AgentEventView::SpeakText(content) => task.pushed(content_event("speak_text"@, content)),
        AgentEventView::ToolStarted(call) => task_at_start(task, call),
        AgentEventView::ToolFinished { call, result } => task_at_end(
            task,
            call,
            result,
            lookup(calls, call.id),
            facts,
        ),
        AgentEventView::ConnectionRetry { attempt, max_attempts, delay_ms, message } => task.pushed(
            retry_data(attempt as nat, max_attempts as nat, delay_ms as nat, message),
        ),
        AgentEventView::StreamReset => task.pushed(event_data("stream_reset"@)),
        AgentEventView::CompactionCompleted { before_tokens, after_tokens, .. } => task.pushed(
            compression_data(before_tokens as nat, after_tokens as nat),
        ),
        AgentEventView::PlanUpdated(plan) => match step_in_progress(plan.steps, 0) {
            Some(at) => task.pushed(step_data(plan, at)),
            None => task,
        },
        AgentEventView::LoopUpdated(state) => task.pushed(loop_data(state)),
        _ => task,
    }
}

/// What is still to be done after an event.
pub open spec fn follow_up(event: AgentEventView) -> ObserverAction {
    match event {
        AgentEventView::ModelUsage { .. } => ObserverAction::SendUsage,
        AgentEventView::ContextUpdated(_) => ObserverAction::SendUsage,
        AgentEventView::ModelStarted { .. } => ObserverAction::SendUsage,
        AgentEventView::TurnCompleted { .. } => ObserverAction::StoreAndSendUsage,
        _ => ObserverAction::Nothing,
    }
}

fn tell_start(task: &mut SessionTask, call: &ToolCall, label: &Option<String>)
    requires
        opt(*label) == call_download(call@),
    ensures
        final(task)@ == task_at_start(old(task)@, call@),
{
    if let Some(text) = label {
        task.download = Some(
            DownloadTaskState {
                label: text.clone(),
                status: "downloading".to_owned(),
                process_id: None,
            },
        );
    }
    task.current_tool = Some(call.name.clone());
    task.set_phase("running");
    let mut start = Fields::new();
    start.add("event_type", Json::text("tool_start"));
    start.add("call_id", Json::text(&call.id));
    start.add("tool_name", Json::text(&call.name));
    start.add("arguments", call.arguments.copy());
    assert(start@ =~= tool_start_data(call@)->Object_0);
    task.push_event(start.done());
    let mut running = Fields::new();
    running.add("event_type", Json::text("tool_running"));
    running.add("call_id", Json::text(&call.id));
    running.add("tool_name", Json::text(&call.name));
    assert(running@ =~= tool_running_data(call@)->Object_0);
    task.push_event(running.done());
}

fn tell_end(
    task: &mut SessionTask,
    call: &ToolCall,
    result: &ToolResult,
    started: Option<String>,
    facts: &EventFacts,
)
    ensures
        final(task)@ == task_at_end(old(task)@, call@, result@, opt(started), facts@),
{
    update_download_state(task, call, result, started);
    task.current_tool = None;
    let mut fields = Fields::new();
    fields.add("event_type", Json::text("tool_done"));
    fields.add("call_id", Json::text(&call.id));
    fields.add("tool_name", Json::text(&call.name));
    fields.add("elapsed", Json::Number(facts.elapsed.clone()));
    fields.add("result_preview", Json::Text(preview(&result.output)));
    fields.add("is_error", Json::Bool(!result.success));
    fields.add("images", text_array(&facts.images));
    assert(fields@ =~= tool_done_data(call@, result@, facts@)->Object_0);
    task.push_event(fields.done());
}

/// The event of a request that is made again.
pub fn retry_event(attempt: u64, max_attempts: u64, delay_ms: u64, message: &str) -> (result: Json)
    ensures
        result@ == retry_data(attempt as nat, max_attempts as nat, delay_ms as nat, message@),
        result@ is Object,
{
    let mut fields = Fields::new();
    fields.add("event_type", Json::text("connection_retry"));
    fields.add("attempt", Json::number(attempt));
    fields.add("max_attempts", Json::number(max_attempts));
    fields.add("delay_ms", Json::number(delay_ms));
    fields.add("message", Json::text(message));
    assert(fields@ =~= retry_data(
        attempt as nat,
        max_attempts as nat,
        delay_ms as nat,
        message@,
    )->Object_0);
    fields.done()
}

fn tell_plan(task: &mut SessionTask, plan: &Plan)
    ensures
        final(task)@ == match step_in_progress(plan@.steps, 0) {
            Some(at) => old(task)@.pushed(step_data(plan@, at)),
            None => old(task)@,
        },
{
    let ghost steps = plan@.steps;
    let mut i: usize = 0;
    while i < plan.steps.len()
        invariant
            i <= plan.steps.len(),
            steps == plan@.steps,
            task@ == old(task)@,
            step_in_progress(steps, 0) == step_in_progress(steps, i as int),
        decreases plan.steps.len() - i,
    {
        assert(steps[i as int] == plan.steps@[i as int]@);
        if plan.steps[i].status == PlanStepStatus::InProgress {
            let mut fields = Fields::new();
            fields.add("event_type", Json::text("loop_step_start"));
            fields.add("step_index", Json::number((i + 1) as u64));
            fields.add("step_description", Json::text(&plan.steps[i].step));
            fields.add("total_steps", Json::number(plan.steps.len() as u64));
            assert(fields@ =~= step_data(plan@, i as int)->Object_0);
            task.push_event(fields.done());
            return ;
        }
        i = i + 1;
    }
}

/// Returns the name of the state of a loop, in lower case.
pub fn loop_status_text(status: LoopStatus) -> (result: String)
    ensures
        result@ == loop_status_name(status),
{
    match status {
        LoopStatus::Active => "active".to_owned(),
        LoopStatus::Paused => "paused".to_owned(),
        LoopStatus::BudgetLimited => "budgetlimited".to_owned(),
        LoopStatus::UsageLimited => "usagelimited".to_owned(),
        LoopStatus::Complete => "complete".to_owned(),
        LoopStatus::Blocked => "blocked".to_owned(),
    }
}

fn loop_event(state: &LoopState) -> (result: Json)
    requires
        state.status == LoopStatus::Active ==> state.turns_completed < u64::MAX,
    ensures
        result@ == loop_data(state@),
        result@ is Object,
{
    let total: u64 = if state.status == LoopStatus::Active {
        state.turns_completed + 1
    } else {
        state.turns_completed
    };
    let mut fields = Fields::new();
    fields.add("event_type", Json::text("loop_progress"));
    fields.add("current_step", Json::number(state.turns_completed));
    fields.add("total_steps", Json::number(total));
    fields.add("status", Json::Text(loop_status_text(state.status)));
    assert(fields@ =~= loop_data(state@)->Object_0);
    fields.done()
}

fn compression_event(before: u64, after: u64) -> (result: Json)
    ensures
        result@ == compression_data(before as nat, after as nat),
        result@ is Object,
{
    let mut fields = Fields::new();
    fields.add("event_type", Json::text("compression"));
    fields.add("before", Json::number(before));
    fields.add("after", Json::number(after));
    assert(fields@ =~= compression_data(before as nat, after as nat)->Object_0);
    fields.done()
}

fn count(state: &BrowserUsageState, event: &AgentEvent) -> (result: BrowserUsageState)
    ensures
        result == counted(*state, event@),
{
    match event {
        AgentEvent::ModelUsage { total, request } => BrowserUsageState {
            turn_active: true,
            input_tokens: total.input_tokens,
            cached_input_tokens: total.cached_input_tokens,
            cache_observed_input_tokens: total.cache_observed_input_tokens,
            output_tokens: total.output_tokens,
            cache_data_available: total.cache_data_available,
            turn_input_tokens: add_capped(state.turn_input_tokens, request.input_tokens),
            turn_cached_input_tokens: add_capped(
                state.turn_cached_input_tokens,
                request.cached_input_tokens,
            ),
            turn_cache_observed_input_tokens: add_capped(
                state.turn_cache_observed_input_tokens,
                request.cache_observed_input_tokens,
            ),
            turn_output_tokens: add_capped(state.turn_output_tokens, request.output_tokens),
            turn_cache_data_available: state.turn_cache_data_available
                || request.cache_data_available,
            ..*state
        },
        AgentEvent::TurnCompleted { total, turn } => BrowserUsageState {
            input_tokens: total.input_tokens,
            cached_input_tokens: total.cached_input_tokens,
            cache_observed_input_tokens: total.cache_observed_input_tokens,
            output_tokens: total.output_tokens,
            cache_data_available: total.cache_data_available,
            turn_input_tokens: turn.input_tokens,
            turn_cached_input_tokens: turn.cached_input_tokens,
            turn_cache_observed_input_tokens: turn.cache_observed_input_tokens,
            turn_output_tokens: turn.output_tokens,
            turn_cache_data_available: turn.cache_data_available,
            turn_active: false,
            ..*state
        },
        AgentEvent::ContextUpdated(status) => BrowserUsageState {
            context_used_tokens: status.used_tokens,
            context_window_tokens: status.context_window,
            ..*state
        },
        AgentEvent::ModelStarted { round, .. } => if *round == 1 {
            BrowserUsageState {
                turn_input_tokens: 0,
                turn_cached_input_tokens: 0,
                turn_cache_observed_input_tokens: 0,
                turn_output_tokens: 0,
                turn_cache_data_available: false,
                turn_active: true,
                ..*state
            }
        } else {
            *state
        },
        _ => *state,
    }
}

impl BrowserObserver {
    /// An observer of a session with these tokens.
    pub fn new(
        reasoning_effort: String,
        input_tokens: u64,
        cached_input_tokens: u64,
        cache_observed_input_tokens: u64,
        output_tokens: u64,
        context_categories: Vec<(String, u64)>,
    ) -> (result: BrowserObserver)
        ensures
            result@.reasoning_effort == reasoning_effort@,
            result@.usage == (BrowserUsageState {
                input_tokens,
                cached_input_tokens,
                cache_observed_input_tokens,
                output_tokens,
                cache_data_available: cache_observed_input_tokens > 0,
                turn_input_tokens: 0,
                turn_cached_input_tokens: 0,
                turn_cache_observed_input_tokens: 0,
                turn_output_tokens: 0,
                turn_cache_data_available: false,
                turn_active: false,
                context_used_tokens: 0,
                context_window_tokens: 0,
            }),
            result@.download_calls == Seq::<(Seq<char>, Seq<char>)>::empty(),
            result@.context_categories == pairs_of(context_categories@),
    {
        let result = BrowserObserver {
            reasoning_effort,
            usage: BrowserUsageState {
                input_tokens,
                cached_input_tokens,
                cache_observed_input_tokens,
                output_tokens,
                cache_data_available: cache_observed_input_tokens > 0,
                turn_input_tokens: 0,
                turn_cached_input_tokens: 0,
                turn_cache_observed_input_tokens: 0,
                turn_output_tokens: 0,
                turn_cache_data_available: false,
                turn_active: false,
                context_used_tokens: 0,
                context_window_tokens: 0,
            },
            download_calls: Vec::new(),
            context_categories,
        };
        assert(result@.download_calls =~= Seq::empty());
        result
    }

    /// Takes in an event: counts tokens, notes downloads, and tells the client. Returns what
    /// is still to be done.
    pub fn on_event(&mut self, task: &mut SessionTask, event: &AgentEvent, facts: &EventFacts) -> (action:
        ObserverAction)
        requires
            match event@ {
                AgentEventView::LoopUpdated(state) => state.status == LoopStatus::Active
                    ==> state.turns_completed < u64::MAX,
                _ => true,
            },
        ensures
            final(self)@ == (BrowserObserverView {
                usage: counted(old(self)@.usage, event@),
                download_calls: noted_downloads(old(self)@.download_calls, event@),
                ..old(self)@
            }),
            final(task)@ == told(old(task)@, old(self)@.download_calls, event@, facts@),
            action == follow_up(event@),
    {
        proof {
            reveal(told);
        }
        self.usage = count(&self.usage, event);
        match event {
            AgentEvent::Text(content) => {
                task.push_event(text_event("text_chunk", content));
            },
            AgentEvent::TextDelta(content) => {
                task.push_event(text_event("text_chunk", content));
            },
            AgentEvent::ReasoningDelta(content) => {
                task.push_event(text_event("reasoning_chunk", content));
            },
            AgentEvent::SpeakText(content) => {
                task.push_event(text_event("speak_text", content));
            },
            AgentEvent::ToolStarted(call) => {
                let label = download_label(call);
                tell_start(task, call, &label);
                if let Some(text) = label {
                    table_put(&mut self.download_calls, call.id.clone(), text);
                }
            },
            AgentEvent::ToolFinished { call, result } => {
                let started = match table_get(&self.download_calls, &call.id) {
                    Some(label) => Some(label.clone()),
                    None => None,
                };
                table_remove(&mut self.download_calls, &call.id);
                tell_end(task, call, result, started, facts);
            },
            AgentEvent::ConnectionRetry { attempt, max_attempts, delay_ms, message } => {
                task.push_event(
                    retry_event(*attempt as u64, *max_attempts as u64, *delay_ms, message),
                );
            },
            AgentEvent::StreamReset => {
                task.push_event(plain_event("stream_reset"));
            },
            AgentEvent::CompactionCompleted { before_tokens, after_tokens, .. } => {
                task.push_event(compression_event(*before_tokens, *after_tokens));
            },
            AgentEvent::PlanUpdated(plan) => {
                tell_plan(task, plan);
            },
            AgentEvent::LoopUpdated(state) => {
                task.push_event(loop_event(state));
            },
            AgentEvent::ModelUsage { .. } => {
                return ObserverAction::SendUsage;
            },
            AgentEvent::ContextUpdated(_) => {
                return ObserverAction::SendUsage;
            },
            AgentEvent::ModelStarted { .. } => {
                return ObserverAction::SendUsage;
            },
            AgentEvent::TurnCompleted { .. } => {
                return ObserverAction::StoreAndSendUsage;
            },
            _ => {},
        }
        ObserverAction::Nothing
    }
}

// ---------------------------------------------------------------------------
// Estimates
// ---------------------------------------------------------------------------

/// The tokens that a number of bytes stands for: four to a token, rounded up.
pub open spec fn token_estimate(bytes: nat) -> nat {
    capped_sum(bytes, 3) / 4
}

/// The tokens that a text stands for.
pub open spec fn text_estimate(s: Seq<char>) -> nat {
    token_estimate((encode_utf8(s).len() as usize) as nat)
}

/// Estimates the tokens of a text.
pub fn estimated_tokens(value: &str) -> (result: u64)
    ensures
        result == text_estimate(value@),
{
    add_capped(value.len() as u64, 3) / 4
}

/// The estimates of the texts whose name is, or is not, in a list.
pub open spec fn named_estimate(
    rows: Seq<(Seq<char>, Seq<char>)>,
    names: Seq<Seq<char>>,
    inside: bool,
) -> nat
    decreases rows.len(),
{
    if rows.len() == 0 {
        0
    } else {
        let before = named_estimate(rows.drop_last(), names, inside);
        if names.contains(rows.last().0) == inside {
            capped_sum(before, text_estimate(rows.last().1))
        } else {
            before
        }
    }
}

/// The estimates of messages: their texts and their calls.
pub open spec fn message_estimate(rows: Seq<(Seq<char>, Seq<char>)>) -> nat
    decreases rows.len(),
{
    if rows.len() == 0 {
        0
    } else {
        capped_sum(
            message_estimate(rows.drop_last()),
            capped_sum(text_estimate(rows.last().0), text_estimate(rows.last().1)),
        )
    }
}

/// The estimates of texts.
pub open spec fn list_estimate(list: Seq<Seq<char>>) -> nat
    decreases list.len(),
{
    if list.len() == 0 {
        0
    } else {
        capped_sum(list_estimate(list.drop_last()), text_estimate(list.last()))
    }
}

fn estimate_named(rows: &Vec<(String, String)>, names: &Vec<String>, inside: bool) -> (result: u64)
    ensures
        result == named_estimate(pairs_of(rows@), texts(names@), inside),
{
    let ghost all = pairs_of(rows@);
    let mut total: u64 = 0;
    let mut i: usize = 0;
    while i < rows.len()
        invariant
            i <= rows@.len(),
            all == pairs_of(rows@),
            total == named_estimate(all.take(i as int), texts(names@), inside),
        decreases rows@.len() - i,
    {
        let ghost part = all.take(i + 1);
        assert(part.drop_last() =~= all.take(i as int));
        assert(part.last() == (rows@[i as int].0@, rows@[i as int].1@));
        if list_has(names, &rows[i].0) == inside {
            total = add_capped(total, estimated_tokens(&rows[i].1));
        }
        i = i + 1;
    }
    assert(all.take(i as int) =~= all);
    total
}

fn estimate_messages(rows: &Vec<(String, String)>) -> (result: u64)
    ensures
        result == message_estimate(pairs_of(rows@)),
{
    let ghost all = pairs_of(rows@);
    let mut total: u64 = 0;
    let mut i: usize = 0;
    while i < rows.len()
        invariant
            i <= rows@.len(),
            all == pairs_of(rows@),
            total == message_estimate(all.take(i as int)),
        decreases rows@.len() - i,
    {
        let ghost part = all.take(i + 1);
        assert(part.drop_last() =~= all.take(i as int));
        assert(part.last() == (rows@[i as int].0@, rows@[i as int].1@));
        total = add_capped(
            total,
            add_capped(estimated_tokens(&rows[i].0), estimated_tokens(&rows[i].1)),
        );
        i = i + 1;
    }
    assert(all.take(i as int) =~= all);
    total
}

fn estimate_list(list: &Vec<String>) -> (result: u64)
    ensures
        result == list_estimate(texts(list@)),
{
    let ghost all = texts(list@);
    let mut total: u64 = 0;
    let mut i: usize = 0;
    while i < list.len()
        invariant
            i <= list@.len(),
            all == texts(list@),
            total == list_estimate(all.take(i as int)),
        decreases list@.len() - i,
    {
        let ghost part = all.take(i + 1);
        assert(part.drop_last() =~= all.take(i as int));
        assert(part.last() == list@[i as int]@);
        total = add_capped(total, estimated_tokens(&list[i]));
        i = i + 1;
    }
    assert(all.take(i as int) =~= all);
    total
}

/// What fills the context, by kind, in the order of the names.
pub open spec fn context_shares(
    prompt: Seq<char>,
    messages: Seq<(Seq<char>, Seq<char>)>,
    tools: Seq<(Seq<char>, Seq<char>)>,
    servers: Seq<Seq<char>>,
    skills: Seq<Seq<char>>,
) -> Seq<(Seq<char>, u64)> {
    seq![
        ("mcp_tools"@, named_estimate(tools, servers, true) as u64),
        ("messages"@, message_estimate(messages) as u64),
        ("other"@, 0u64),
        ("skills"@, list_estimate(skills) as u64),
        ("system_prompt"@, text_estimate(prompt) as u64),
        ("system_tools"@, named_estimate(tools, servers, false) as u64),
    ]
}

/// Estimates what fills the context. `messages` are the messages with their written calls,
/// `tools` the names of the tools with their written descriptions, `servers` the names of the
/// tools of MCP servers, `skills` the names of the skills in use with their sources.
pub fn estimate_context_categories(
    prompt: &str,
    messages: &Vec<(String, String)>,
    tools: &Vec<(String, String)>,
    servers: &Vec<String>,
    skills: &Vec<String>,
) -> (result: Vec<(String, u64)>)
    ensures
        pairs_of(result@) == context_shares(
            prompt@,
            pairs_of(messages@),
            pairs_of(tools@),
            texts(servers@),
            texts(skills@),
        ),
{
    let mut rows: Vec<(String, u64)> = Vec::new();
    rows.push(("mcp_tools".to_owned(), estimate_named(tools, servers, true)));
    rows.push(("messages".to_owned(), estimate_messages(messages)));
    rows.push(("other".to_owned(), 0));
    rows.push(("skills".to_owned(), estimate_list(skills)));
    rows.push(("system_prompt".to_owned(), estimated_tokens(prompt)));
    rows.push(("system_tools".to_owned(), estimate_named(tools, servers, false)));
    assert(pairs_of(rows@) =~= context_shares(
        prompt@,
        pairs_of(messages@),
        pairs_of(tools@),
        texts(servers@),
        texts(skills@),
    ));
    rows
}

// ---------------------------------------------------------------------------
// Laws
// ---------------------------------------------------------------------------

/// Every rate that is shown lies between nothing and the whole.
pub proof fn rates_are_bounded(state: BrowserUsageState, totals: ReasoningAggregate)
    ensures
        usage_report(state).context_ratio.numerator <= usage_report(
            state,
        ).context_ratio.denominator,
        usage_report(state).context_ratio.denominator > 0,
        usage_report(state).cache_hit_rate is Some ==> usage_report(
            state,
        ).cache_hit_rate->0.numerator <= usage_report(state).cache_hit_rate->0.denominator
            && usage_report(state).cache_hit_rate->0.denominator > 0,
        usage_report(state).turn_cache_hit_rate is Some ==> usage_report(
            state,
        ).turn_cache_hit_rate->0.numerator <= usage_report(state).turn_cache_hit_rate->0.denominator
            && usage_report(state).turn_cache_hit_rate->0.denominator > 0,
        effort_stats(totals).cache_hit_rate is Some ==> effort_stats(
            totals,
        ).cache_hit_rate->0.numerator <= effort_stats(totals).cache_hit_rate->0.denominator
            && effort_stats(totals).cache_hit_rate->0.denominator > 0,
{
}

/// The totals of an effort never shrink.
pub proof fn totals_only_grow(totals: ReasoningAggregate, usage: TokenUsage, elapsed_ms: u64)
    ensures
        with_turn(totals, usage, elapsed_ms).turns >= totals.turns,
        with_turn(totals, usage, elapsed_ms).total_tokens >= totals.total_tokens,
        with_turn(totals, usage, elapsed_ms).total_duration_ms >= totals.total_duration_ms,
        with_turn(totals, usage, elapsed_ms).cache_turns >= totals.cache_turns,
        totals.turns < u64::MAX ==> with_turn(totals, usage, elapsed_ms).turns == totals.turns + 1,
{
}

/// A turn counts for its own effort only.
pub proof fn turns_count_for_their_effort(
    aggregates: Seq<(Seq<char>, ReasoningAggregate)>,
    effort: Seq<char>,
    other: Seq<char>,
    usage: TokenUsage,
    elapsed_ms: u64,
)
    ensures
        totals_of(with_sample(aggregates, effort, usage, elapsed_ms), effort) == with_turn(
            totals_of(aggregates, effort),
            usage,
            elapsed_ms,
        ),
        other != effort ==> totals_of(with_sample(aggregates, effort, usage, elapsed_ms), other)
            == totals_of(aggregates, other),
{
    put_is_found(
        aggregates,
        effort,
        with_turn(totals_of(aggregates, effort), usage, elapsed_ms),
        other,
    );
}

} // verus!
