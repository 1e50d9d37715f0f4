//! What is kept of providers, helpers and recorded tasks, and what is told of them.

use vstd::prelude::*;
use crate::json::member;
use crate::json::text_of;
use crate::json::JsonView;
use crate::observer::effort_stats;
use crate::observer::loop_data;
use crate::observer::usage_report;
use crate::observer::BrowserUsageState;
use crate::observer::ReasoningAggregate;
use crate::overview::managed_row;
use crate::overview::ManagedTaskView;
use crate::provider::copy_name;
use crate::provider::first_free;
use crate::provider::ProviderDocumentView;
use crate::provider::ProviderSettingsView;
use crate::provider_form::provider_removed;
use crate::session::LoopStateView;
use crate::session::LoopStatus;
use crate::subagents::legacy_helpers;
use crate::subagents::migrated;
use crate::subagents::SubAgentEntryView;
use crate::subagents::SubAgentSettingsView;
use crate::table::lookup;
use crate::text::starts_with;
use crate::text_laws::member_at;

verus! {

/// The name of a copy is free, begins with the name of what is copied, and is not that name; the
/// first name is taken where it is free.
pub proof fn copies_have_free_names(
    providers: Seq<(Seq<char>, ProviderSettingsView)>,
    id: Seq<char>,
    number: nat,
)
    requires
        first_free(providers, id, number),
    ensures
        lookup(providers, copy_name(id, number)) is None,
        starts_with(copy_name(id, number), id),
        copy_name(id, number) != id,
        lookup(providers, id + "-copy"@) is None ==> copy_name(id, number) == id + "-copy"@,
{
    reveal_strlit("-copy");
    let name = copy_name(id, number);
    assert(name.take(id.len() as int) =~= id);
    assert(name.len() > id.len());
    if lookup(providers, id + "-copy"@) is None && number > 1 {
        assert(lookup(providers, copy_name(id, 1)) is Some);
    }
}

/// After a provider was removed it is known no more and the others are as they were; the one in
/// use stays in use unless it is the one removed, and one that is left takes its place.
pub proof fn removed_providers_are_replaced(
    document: ProviderDocumentView,
    id: Seq<char>,
    other: Seq<char>,
)
    ensures
        ({
            let next = provider_removed(document, id);
            &&& lookup(next.providers, id) is None
            &&& other != id ==> lookup(next.providers, other) == lookup(document.providers, other)
            &&& document.active != id ==> next.active == document.active
            &&& document.active == id && next.providers.len() > 0 ==> next.active != id && lookup(
                next.providers,
                next.active,
            ) is Some
            &&& document.active == id && next.providers.len() == 0 ==> next.active.len() == 0
        }),
{
    crate::text_laws::removals_touch_one_key(document.providers, id, id);
    crate::text_laws::removals_touch_one_key(document.providers, id, other);
    let next = provider_removed(document, id);
    if next.providers.len() > 0 {
        assert(lookup(next.providers, next.providers[0].0) is Some);
    }
}

/// The helpers that stood with the providers are those of the first provider with a list that is
/// not empty.
pub proof fn helpers_of_the_first_list_are_found(
    providers: Seq<(Seq<char>, ProviderSettingsView)>,
    lists: Seq<Option<Seq<SubAgentEntryView>>>,
    at: int,
)
    requires
        0 <= at < providers.len(),
        at < lists.len(),
        lookup(providers[at].1.extra, "subAgents"@) is Some,
        lists[at] is Some && lists[at]->0.len() > 0,
        forall|k: int|
            0 <= k < at ==> lookup((#[trigger] providers[k]).1.extra, "subAgents"@) is None
                || lists[k] is None || lists[k]->0.len() == 0,
    ensures
        ({
            let found = legacy_helpers(providers, lists);
            let fallback = text_of(lookup(providers[at].1.extra, "fallbackSubAgentId"@));
            &&& found.agents == lists[at]->0
            &&& found.fallback_id is Some
            &&& fallback is Some ==> found.fallback_id == fallback
            &&& fallback is None ==> found.fallback_id == Some(lists[at]->0[0].id)
        }),
    decreases at,
{
    if at > 0 {
        let others = providers.skip(1);
        let rest = lists.skip(1);
        assert(lookup(providers[0].1.extra, "subAgents"@) is None || lists[0] is None
            || lists[0]->0.len() == 0);
        assert(others[at - 1] == providers[at] && rest[at - 1] == lists[at]);
        assert forall|k: int| 0 <= k < at - 1 implies lookup(
            (#[trigger] others[k]).1.extra,
            "subAgents"@,
        ) is None || rest[k] is None || rest[k]->0.len() == 0 by {
            assert(others[k] == providers[k + 1]);
            assert(rest[k] == lists[k + 1]);
        }
        helpers_of_the_first_list_are_found(others, rest, at - 1);
    }
}

/// Settings that hold helpers of their own are left as they are; with none of their own they are
/// stored with what was found, which may be nothing.
pub proof fn own_helpers_are_left(
    settings: JsonView,
    current: SubAgentSettingsView,
    document: ProviderDocumentView,
    lists: Seq<Option<Seq<SubAgentEntryView>>>,
)
    ensures
        member(settings, "sub_agents"@) is Some ==> ({
            let result = migrated(settings, current, document, lists);
            &&& result is Ok && result->Ok_0.settings == current
            &&& !result->Ok_0.store && !result->Ok_0.document_changed
        }),
        member(settings, "sub_agents"@) is None && migrated(settings, current, document, lists)
            is Ok ==> migrated(settings, current, document, lists)->Ok_0.store,
        member(settings, "sub_agents"@) is None && document.providers.len() == 0 ==> ({
            let result = migrated(settings, current, document, lists);
            &&& result is Ok && result->Ok_0.settings.agents.len() == 0
            &&& !result->Ok_0.document_changed
        }),
{
}

/// A recorded task is shown under the title of its kind, and under its kind where that has no
/// title; the kinds with titles are told apart.
pub proof fn recorded_tasks_are_titled(task: ManagedTaskView, other: ManagedTaskView)
    ensures
        task.kind != "runtime_install"@ && task.kind != "cognitive_install"@ ==> managed_row(
            task,
        ).title == task.kind,
        task.kind == "runtime_install"@ && other.kind == "cognitive_install"@ ==> managed_row(
            task,
        ).title != managed_row(other).title,
        managed_row(task).kind == Some(task.kind),
        managed_row(task).started_at as nat == (task.created_at_ms / 1_000) as u64,
{
    reveal(managed_row);
    reveal_strlit("runtime_install");
    reveal_strlit("cognitive_install");
    assert("runtime_install"@.len() == 15 && "cognitive_install"@.len() == 17);
    reveal_strlit("ProotLinux Runtime");
    reveal_strlit("Coomi Life");
    assert("ProotLinux Runtime"@.len() == 18 && "Coomi Life"@.len() == 10);
}

/// The share of the cache is of the tokens that were observed; no share is over the whole.
pub proof fn shares_are_of_what_was_observed(totals: ReasoningAggregate, state: BrowserUsageState)
    ensures
        ({
            let rate = effort_stats(totals).cache_hit_rate;
            &&& totals.cache_observed_input_tokens > 0 ==> rate is Some && rate->0.denominator
                == totals.cache_observed_input_tokens
            &&& totals.cache_observed_input_tokens == 0 && totals.cache_turns == 0 ==> rate is None
            &&& rate is Some ==> rate->0.numerator <= rate->0.denominator && rate->0.denominator > 0
            &&& rate is Some && totals.total_cached_input_tokens <= rate->0.denominator
                ==> rate->0.numerator == totals.total_cached_input_tokens
        }),
        ({
            let ratio = usage_report(state).context_ratio;
            &&& ratio.numerator <= ratio.denominator && ratio.denominator > 0
            &&& state.context_window_tokens > 0 ==> ratio.denominator == state.context_window_tokens
            &&& state.context_used_tokens <= state.context_window_tokens
                && state.context_window_tokens > 0 ==> ratio.numerator == state.context_used_tokens
        }),
        ({
            let rate = usage_report(state).cache_hit_rate;
            &&& rate is Some <==> state.cache_data_available
            &&& rate is Some ==> rate->0.numerator <= rate->0.denominator
            &&& rate is Some && state.cache_observed_input_tokens > 0 ==> rate->0.denominator
                == state.cache_observed_input_tokens
            &&& rate is Some && state.cached_input_tokens <= state.cache_observed_input_tokens
                ==> rate->0.numerator == state.cached_input_tokens
        }),
        ({
            let rate = usage_report(state).turn_cache_hit_rate;
            &&& rate is Some <==> state.turn_cache_data_available
            &&& rate is Some ==> rate->0.numerator <= rate->0.denominator
            &&& rate is Some && state.turn_cached_input_tokens
                <= state.turn_cache_observed_input_tokens ==> rate->0.numerator
                == state.turn_cached_input_tokens
        }),
{
}

/// The states of a loop are told under different names.
pub proof fn states_of_loops_are_told_apart(state: LoopStateView, other: LoopStateView)
    ensures
        state.status != other.status ==> member(loop_data(state), "status"@) != member(
            loop_data(other),
            "status"@,
        ),
        state.status == LoopStatus::Active ==> member(loop_data(state), "status"@) == Some(
            JsonView::Text("active"@),
        ),
{
    reveal_strlit("event_type");
    reveal_strlit("current_step");
    reveal_strlit("total_steps");
    reveal_strlit("status");
    assert("event_type"@.len() == 10 && "current_step"@.len() == 12);
    assert("total_steps"@.len() == 11 && "status"@.len() == 6);
    reveal_strlit("active");
    reveal_strlit("paused");
    reveal_strlit("budgetlimited");
    reveal_strlit("usagelimited");
    reveal_strlit("complete");
    reveal_strlit("blocked");
    assert("active"@.len() == 6 && "paused"@.len() == 6);
    assert("budgetlimited"@.len() == 13 && "usagelimited"@.len() == 12);
    assert("complete"@.len() == 8 && "blocked"@.len() == 7);
    assert("active"@[0] == 'a' && "paused"@[0] == 'p');
    member_at(loop_data(state)->Object_0, 3);
    member_at(loop_data(other)->Object_0, 3);
}

} // verus!
