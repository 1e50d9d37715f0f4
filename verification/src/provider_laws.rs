//! What the settings of providers and sub-agents are for.

use vstd::prelude::*;
use crate::api::ApiErrorView;
use crate::agents::ConfiguredSubAgentView;
use crate::agents::ProviderRefView;
use crate::codec::json_document;
use crate::json::member;
use crate::json::JsonView;
use crate::numbers::decimal;
use crate::numbers::decimal_is_digits;
use crate::numbers::decimal_reads_back;
use crate::order::in_order;
use crate::provider::activation_candidate;
use crate::provider::activation_verdict;
use crate::provider::answered_models;
use crate::provider::copy_name;
use crate::provider::credentials_verdict;
use crate::provider::declared_models;
use crate::provider::distinct;
use crate::provider::entry_models;
use crate::provider::finished_settings;
use crate::provider::key_placement_of;
use crate::provider::known_base_url;
use crate::provider::masked;
use crate::provider::model_candidate;
use crate::provider::modelled_settings;
use crate::provider::models_of;
use crate::provider::named_settings;
use crate::provider::protocol_of;
use crate::provider::provider_data;
use crate::provider::requested_provider;
use crate::provider::requested_settings;
use crate::provider::requested_windows;
use crate::provider::trimmed_texts;
use crate::provider::window_data;
use crate::provider::windowed_settings;
use crate::provider::with_models;
use crate::provider::with_provider;
use crate::provider::without_provider;
use crate::provider::without_slashes;
use crate::provider::KeyPlacement;
use crate::provider::ProviderDocumentView;
use crate::provider::ProviderProtocol;
use crate::provider::ProviderSettingsView;
use crate::settings::connection_verdict;
use crate::settings::default_connection;
use crate::settings::mode_name;
use crate::settings::mode_of;
use crate::settings::stored_effort;
use crate::settings::stored_rounds;
use crate::settings::stored_settings;
use crate::settings::stored_text;
use crate::settings::switched_on;
use crate::settings::ConnectionSettings;
use crate::settings::PermissionMode;
use crate::subagents::all_without_legacy;
use crate::subagents::checked_helpers;
use crate::subagents::entries_fault;
use crate::subagents::entry_data;
use crate::subagents::found_helpers;
use crate::subagents::has_legacy;
use crate::subagents::helpers_without;
use crate::subagents::migrated;
use crate::subagents::stored_helpers;
use crate::subagents::tidy_entries;
use crate::subagents::usable_fallback;
use crate::subagents::with_helpers;
use crate::subagents::with_id;
use crate::subagents::without_id;
use crate::subagents::without_legacy;
use crate::subagents::without_user_of;
use crate::subagents::SubAgentEntryView;
use crate::subagents::SubAgentSettingsView;
use crate::table::lookup;
use crate::text::contains;
use crate::text::ends_with;
use crate::text::is_blank;
use crate::text::lower;
use crate::text::starts_with;
use crate::text::trimmed;
use crate::text_laws::member_at;
use crate::text_laws::parts_are_contained;
use crate::text_laws::removals_touch_one_key;

verus! {

// ---------------------------------------------------------------------------
// Providers
// ---------------------------------------------------------------------------

/// A key is shown by its last four characters alone, behind a mark; no key is shown as nothing.
pub proof fn masks_show_the_end(key: Seq<char>)
    ensures
        key.len() == 0 ==> masked(key).len() == 0,
        key.len() > 0 ==> starts_with(masked(key), seq!['*', '*', '*', '*']),
        key.len() > 4 ==> masked(key).len() == 8 && ends_with(masked(key), key.skip(key.len() - 4)),
        0 < key.len() <= 4 ==> ends_with(masked(key), key),
{
    reveal_strlit("****");
    assert("****"@ =~= seq!['*', '*', '*', '*']);
    if key.len() > 0 {
        let tail = key.skip(
            if key.len() <= 4 {
                0
            } else {
                key.len() - 4
            },
        );
        assert(masked(key).take(4) =~= "****"@);
        assert(masked(key).skip(4) =~= tail);
        if key.len() <= 4 {
            assert(tail =~= key);
        }
    }
}

/// A provider that is known by its name has an address, whatever the case of the name; another
/// one has none.
pub proof fn known_providers_have_an_address(id: Seq<char>)
    ensures
        lower(id) == "openai"@ ==> known_base_url(id) == "https://api.openai.com/v1"@,
        lower(id) == "anthropic"@ ==> known_base_url(id) == "https://api.anthropic.com/v1"@,
        lower(id) == "deepseek"@ ==> known_base_url(id) == "https://api.deepseek.com/v1"@,
        id.len() == 0 || id.len() > 9 ==> known_base_url(id).len() == 0,
{
    reveal_strlit("openai");
    reveal_strlit("anthropic");
    reveal_strlit("google");
    reveal_strlit("gemini");
    reveal_strlit("deepseek");
    reveal_strlit("zhipu");
    reveal_strlit("minimax");
    reveal_strlit("opencode");
    assert("openai"@.len() == 6 && "anthropic"@.len() == 9);
    assert("google"@.len() == 6 && "gemini"@.len() == 6);
    assert("deepseek"@.len() == 8 && "zhipu"@.len() == 5);
    assert("minimax"@.len() == 7 && "opencode"@.len() == 8);
    assert("deepseek"@[0] == 'd' && "gemini"@[0] == 'g');
    assert("gemini"@[1] == 'e' && "google"@[0] == 'g');
    assert("google"@[1] == 'o' && "openai"@[0] == 'o');
    assert("opencode"@[0] == 'o');
    reveal_strlit("");
    assert(lower(id).len() == id.len());
}

/// How a provider is spoken to follows from what it says of itself, the named tools first; the
/// key goes where that kind of provider expects it.
pub proof fn providers_are_spoken_to_by_kind(provider: ProviderSettingsView, protocol: Seq<char>)
    ensures
        provider.tool_protocol == Some(protocol) && contains(lower(protocol), "responses"@)
            ==> protocol_of(provider) == ProviderProtocol::OpenAiResponses,
        provider.tool_protocol == Some(protocol) && protocol == "anthropic"@ ==> protocol_of(
            provider,
        ) == ProviderProtocol::Anthropic,
        provider.tool_protocol == Some(protocol) && protocol == "gemini"@ ==> protocol_of(provider)
            == ProviderProtocol::Gemini,
        provider.tool_protocol == Some(protocol) && protocol.len() == 0 ==> protocol_of(provider)
            == ProviderProtocol::OpenAiCompatible,
        provider.tool_protocol is None && contains(lower(provider.provider_type), "responses"@)
            ==> protocol_of(provider) == ProviderProtocol::OpenAiResponses,
        provider.tool_protocol is None && provider.provider_type.len() == 0 ==> protocol_of(
            provider,
        ) == ProviderProtocol::OpenAiCompatible,
        contains(provider.provider_type, "gemini"@) ==> key_placement_of(provider)
            == KeyPlacement::Query,
        !contains(provider.provider_type, "gemini"@) && contains(
            provider.provider_type,
            "anthropic"@,
        ) ==> key_placement_of(provider) == KeyPlacement::Header,
        provider.provider_type.len() == 0 ==> key_placement_of(provider) == (
        if provider.api_key.len() > 0 {
            KeyPlacement::Bearer
        } else {
            KeyPlacement::Nowhere
        }),
{
    reveal_strlit("responses");
    reveal_strlit("anthropic");
    reveal_strlit("gemini");
    assert("responses"@.len() == 9 && "anthropic"@.len() == 9);
    assert("gemini"@.len() == 6 && "anthropic"@[0] == 'a');
    assert("responses"@[0] == 'r');
    assert(lower("anthropic"@) =~= "anthropic"@);
    assert(lower("gemini"@) =~= "gemini"@);
    parts_are_contained(Seq::empty(), "anthropic"@, Seq::empty());
    parts_are_contained(Seq::empty(), "gemini"@, Seq::empty());
    assert(Seq::<char>::empty() + "anthropic"@ + Seq::<char>::empty() =~= "anthropic"@);
    assert(Seq::<char>::empty() + "gemini"@ + Seq::<char>::empty() =~= "gemini"@);
    same_length_is_equality("anthropic"@, "responses"@);
    too_short_to_contain("gemini"@, "responses"@);
    too_short_to_contain("gemini"@, "anthropic"@);
    assert(lower(protocol).len() == protocol.len());
    assert(lower(provider.provider_type).len() == provider.provider_type.len());
}

proof fn same_length_is_equality(whole: Seq<char>, part: Seq<char>)
    requires
        whole.len() == part.len(),
        whole != part,
    ensures
        !contains(whole, part),
{
    if contains(whole, part) {
        let i = choose|i: int| crate::text::occurs_at(whole, part, i);
        assert(whole.subrange(i, i + part.len()) =~= whole);
    }
}

proof fn too_short_to_contain(whole: Seq<char>, part: Seq<char>)
    requires
        whole.len() < part.len(),
    ensures
        !contains(whole, part),
{
}

/// A list without repetitions holds what the list held, each once.
pub proof fn repetitions_go(list: Seq<Seq<char>>, item: Seq<char>)
    ensures
        distinct(list).contains(item) <==> list.contains(item),
        distinct(list).no_duplicates(),
        list.no_duplicates() ==> distinct(list) == list,
    decreases list.len(),
{
    if list.len() > 0 {
        let before = list.drop_last();
        let kept = distinct(before);
        repetitions_go(before, item);
        repetitions_go(before, list.last());
        assert(list =~= before.push(list.last()));
        assert(list.contains(item) <==> before.contains(item) || item == list.last()) by {
            if list.contains(item) {
                let k = choose|k: int| 0 <= k < list.len() && list[k] == item;
                if k < before.len() {
                    assert(before[k] == item);
                }
            }
            if before.contains(item) {
                let k = choose|k: int| 0 <= k < before.len() && before[k] == item;
                assert(list[k] == item);
            }
            if item == list.last() {
                assert(list[list.len() - 1] == item);
            }
        }
        if !kept.contains(list.last()) {
            let all = kept.push(list.last());
            assert(all[all.len() - 1] == list.last());
            if kept.contains(item) {
                let k = choose|k: int| 0 <= k < kept.len() && kept[k] == item;
                assert(all[k] == item);
            }
            if all.contains(item) && item != list.last() {
                let k = choose|k: int| 0 <= k < all.len() && all[k] == item;
                assert(kept[k] == item);
            }
            assert forall|i: int, j: int|
                0 <= i < all.len() && 0 <= j < all.len() && i != j implies all[i] != all[j] by {
                if i == all.len() - 1 {
                    assert(kept.contains(kept[j]));
                }
                if j == all.len() - 1 {
                    assert(kept.contains(kept[i]));
                }
            }
        }
        if list.no_duplicates() {
            assert(before.no_duplicates()) by {
                assert forall|i: int, j: int|
                    0 <= i < before.len() && 0 <= j < before.len() && i != j implies before[i]
                    != before[j] by {
                    assert(list[i] != list[j]);
                }
            }
            if before.contains(list.last()) {
                let k = choose|k: int| 0 <= k < before.len() && before[k] == list.last();
                assert(list[k] == list[list.len() - 1]);
            }
        }
    }
}

/// The models of a provider are those that it declares, its main one and its fast one, and no
/// others.
pub proof fn models_are_the_declared_ones(provider: ProviderSettingsView, model: Seq<char>)
    ensures
        models_of(provider).contains(model) <==> declared_models(provider).contains(model) || (
        model.len() > 0 && (model == provider.model || provider.fast_model == Some(model))),
{
    let list = declared_models(provider);
    let main = crate::provider::with_model(list, provider.model);
    pushed_contains(list, provider.model, model);
    if let Some(fast) = provider.fast_model {
        pushed_contains(main, fast, model);
    }
}

proof fn pushed_contains(list: Seq<Seq<char>>, more: Seq<char>, item: Seq<char>)
    ensures
        crate::provider::with_model(list, more).contains(item) <==> list.contains(item) || (
        more.len() > 0 && item == more),
{
    if more.len() > 0 && !list.contains(more) {
        let all = list.push(more);
        assert(all[all.len() - 1] == more);
        if list.contains(item) {
            let k = choose|k: int| 0 <= k < list.len() && list[k] == item;
            assert(all[k] == item);
        }
        if all.contains(item) && item != more {
            let k = choose|k: int| 0 <= k < all.len() && all[k] == item;
            assert(list[k] == item);
        }
    }
}

/// The models that a request names are taken trimmed and in order, without the blank ones.
pub proof fn named_models_are_taken(items: Seq<JsonView>, text: Seq<char>)
    ensures
        trimmed(text).len() > 0 ==> trimmed_texts(items.push(JsonView::Text(text)))
            == trimmed_texts(items).push(trimmed(text)),
        trimmed(text).len() == 0 ==> trimmed_texts(items.push(JsonView::Text(text)))
            == trimmed_texts(items),
        trimmed_texts(Seq::empty()).len() == 0,
{
    assert(items.push(JsonView::Text(text)).drop_last() =~= items);
}

/// Of the models that are set for a provider the first is its main one and the second its fast
/// one.
pub proof fn first_models_are_used(provider: ProviderSettingsView, models: Seq<Seq<char>>)
    ensures
        models.len() > 0 ==> with_models(provider, models).model == models[0],
        models.len() > 1 ==> with_models(provider, models).fast_model == Some(models[1]),
        models.len() == 0 ==> with_models(provider, models).model.len() == 0,
        with_models(provider, models).api_key == provider.api_key,
        with_models(provider, models).base_url == provider.base_url,
{
}

/// A provider can be used once it has a key and a model, and the model is one of its own where it
/// declares any.
pub proof fn usable_providers_have_key_and_model(provider: ProviderSettingsView)
    ensures
        activation_verdict(provider) is Ok ==> !is_blank(provider.api_key) && !is_blank(
            provider.model,
        ),
        !is_blank(provider.api_key) && !is_blank(provider.model) && lookup(
            provider.extra,
            "models"@,
        ) is None ==> activation_verdict(provider) is Ok,
        !is_blank(provider.api_key) && !is_blank(provider.model) && declared_models(
            provider,
        ).contains(trimmed(provider.model)) ==> activation_verdict(provider) is Ok,
{
    models_are_the_declared_ones(provider, provider.model);
    reveal(is_blank);
    if !is_blank(provider.model) {
        crate::text_laws::trimming_takes_blanks_only(provider.model);
        assert(provider.model.len() > 0);
        assert(models_of(provider).contains(provider.model));
    }
}

/// What a request says of a provider is what is saved; what it does not say stays as it was.
pub proof fn saved_providers_are_as_sent(
    document: ProviderDocumentView,
    input: JsonView,
    defaults: ProviderSettingsView,
    id: Seq<char>,
    text: Seq<char>,
    enabled: bool,
    window: nat,
)
    requires
        requested_settings(document, input, defaults, id) is Ok,
        window <= u64::MAX,
    ensures
        ({
            let saved = requested_settings(document, input, defaults, id)->Ok_0;
            let before = match lookup(document.providers, id) {
                Some(settings) => settings,
                None => defaults,
            };
            let filled = trimmed(text).len() > 0;
            &&& member(input, "apiKey"@) == Some(JsonView::Text(text)) && filled ==> saved.api_key
                == trimmed(text)
            &&& member(input, "apiKey"@) is None ==> saved.api_key == before.api_key
            &&& member(input, "baseUrl"@) == Some(JsonView::Text(text)) && filled ==> saved.base_url
                == trimmed(text)
            &&& member(input, "name"@) == Some(JsonView::Text(text)) && filled ==> saved.display
                == trimmed(text)
            &&& member(input, "name"@) == Some(JsonView::Text(text)) && !filled ==> saved.display
                == id
            &&& member(input, "type"@) == Some(JsonView::Text(text)) && filled
                ==> saved.provider_type == trimmed(text)
            &&& member(input, "type"@) is None ==> saved.provider_type == before.provider_type
            &&& member(input, "models"@) is None && member(input, "model"@) == Some(
                JsonView::Text(text),
            ) && filled ==> saved.model == trimmed(text)
            &&& member(input, "models"@) is None && member(input, "model"@) is None ==> saved.model
                == before.model
            &&& member(input, "contextWindow"@) == Some(JsonView::Number(decimal(window)))
                ==> saved.context_window == Some(window as u64) && 32_000 <= window <= 1_048_576
            &&& member(input, "contextWindow"@) is None && before.context_window is Some
                ==> saved.context_window == before.context_window
            &&& member(input, "supportsVision"@) == Some(JsonView::Bool(enabled))
                ==> saved.supports_vision == enabled
            &&& member(input, "supportsVision"@) is None ==> saved.supports_vision
                == before.supports_vision
            &&& member(input, "supportsWebSearch"@) == Some(JsonView::Bool(enabled))
                ==> saved.supports_web_search == enabled
            &&& member(input, "supportsWebSearch"@) is None ==> saved.supports_web_search
                == before.supports_web_search
            &&& saved.base_url.len() > 0
            &&& saved.max_output_tokens == before.max_output_tokens
        }),
{
    reveal(named_settings);
    reveal(windowed_settings);
    reveal(modelled_settings);
    reveal(finished_settings);
    decimal_is_digits(window);
    decimal_reads_back(window);
}

/// A provider is saved under the identifier that was sent, and is put to use where that was
/// asked for.
pub proof fn saved_providers_have_their_identifier(
    document: ProviderDocumentView,
    input: JsonView,
    defaults: ProviderSettingsView,
    id: Seq<char>,
)
    requires
        member(input, "id"@) == Some(JsonView::Text(id)),
    ensures
        trimmed(id).len() == 0 ==> requested_provider(document, input, defaults) is Err,
        requested_provider(document, input, defaults) matches Ok(change) ==> {
            &&& change.id == trimmed(id)
            &&& change.activate <==> member(input, "activate"@) == Some(JsonView::Bool(true))
            &&& change.activate ==> with_provider(document, change).active == trimmed(id)
            &&& lookup(with_provider(document, change).providers, trimmed(id)) == Some(
                change.settings,
            )
        },
{
    if let Ok(change) = requested_provider(document, input, defaults) {
        crate::table::put_is_found(document.providers, change.id, change.settings, change.id);
    }
}

/// The windows that a request gives for models are those that are saved, within their limits.
pub proof fn windows_are_taken_as_sent(name: Seq<char>, window: nat)
    requires
        trimmed(name).len() > 0,
        window <= u64::MAX,
    ensures
        ({
            let sent = JsonView::Object(seq![(name, JsonView::Number(decimal(window)))]);
            &&& 32_000 <= window <= 1_048_576 ==> (requested_windows(sent) matches Ok(table)
                && lookup(table, trimmed(name)) == Some(window as u64))
            &&& !(32_000 <= window <= 1_048_576) ==> requested_windows(sent) is Err
        }),
{
    let fields = seq![(name, JsonView::Number(decimal(window)))];
    decimal_is_digits(window);
    decimal_reads_back(window);
    reveal_with_fuel(crate::provider::windows_from, 3);
    assert(fields.skip(1).len() == 0);
    crate::table::put_is_found(
        Seq::<(Seq<char>, u64)>::empty(),
        trimmed(name),
        window as u64,
        trimmed(name),
    );
}

/// A provider that is removed is gone, the others stay, and the one in use stays in use unless it
/// was the removed one; then another that is left takes its place.
pub proof fn removed_providers_are_gone(
    document: ProviderDocumentView,
    id: Seq<char>,
    other: Seq<char>,
)
    ensures
        ({
            let after = without_provider(document, id);
            &&& lookup(after.providers, id) is None
            &&& other != id ==> lookup(after.providers, other) == lookup(document.providers, other)
            &&& document.active != id ==> after.active == document.active
            &&& document.active == id && after.providers.len() > 0 ==> lookup(
                after.providers,
                after.active,
            ) is Some
            &&& document.active == id && after.providers.len() == 0 ==> after.active.len() == 0
        }),
{
    removals_touch_one_key(document.providers, id, other);
}

/// A model that is chosen is one of the provider's, and a provider that is put to use is one of
/// the stored ones.
pub proof fn chosen_models_are_the_providers(
    document: ProviderDocumentView,
    id: Seq<char>,
    body: JsonView,
    text: Seq<char>,
)
    requires
        member(body, "model"@) == Some(JsonView::Text(text)),
    ensures
        model_candidate(document, id, body) matches Ok(chosen) ==> chosen.model == trimmed(text)
            && lookup(document.providers, id) is Some && models_of(
            lookup(document.providers, id)->0,
        ).contains(trimmed(text)) && chosen.api_key == lookup(document.providers, id)->0.api_key,
        activation_candidate(document, id) matches Ok(chosen) ==> lookup(document.providers, id)
            == Some(chosen) && !is_blank(chosen.api_key),
        lookup(document.providers, id) is None ==> model_candidate(document, id, body) is Err
            && activation_candidate(document, id) is Err,
{
}

/// Credentials are accepted where the provider answers and offers the chosen model.
pub proof fn credentials_are_tried(
    provider: ProviderSettingsView,
    models: Seq<Seq<char>>,
    error: ApiErrorView,
)
    ensures
        models.contains(trimmed(provider.model)) ==> credentials_verdict(provider, Ok(models)) is Ok,
        trimmed(provider.model).len() > 0 && !models.contains(trimmed(provider.model))
            ==> credentials_verdict(provider, Ok(models)) is Err,
        credentials_verdict(provider, Err(error)) matches Err(told) && ends_with(
            told.message,
            error.message,
        ),
{
    let start = "provider credential verification failed: "@;
    parts_are_contained(start, error.message, Seq::empty());
}

proof fn entry_models_hold(entries: Seq<JsonView>, i: int)
    requires
        0 <= i < entries.len(),
        crate::provider::entry_model(entries[i]) is Some,
    ensures
        entry_models(entries).contains(crate::provider::entry_model(entries[i])->0),
    decreases entries.len(),
{
    let before = entry_models(entries.drop_last());
    let all = entry_models(entries);
    let model = crate::provider::entry_model(entries[i])->0;
    if i < entries.len() - 1 {
        entry_models_hold(entries.drop_last(), i);
        let k = choose|k: int| 0 <= k < before.len() && before[k] == model;
        assert(all[k] == model);
    } else {
        assert(all[all.len() - 1] == model);
    }
}

/// Every model that a provider answers with is offered, once, in the order of their names.
pub proof fn answered_models_are_offered(
    answer: JsonView,
    entries: Seq<JsonView>,
    i: int,
    name: Seq<char>,
)
    requires
        member(answer, "data"@) == Some(JsonView::Array(entries)),
        0 <= i < entries.len(),
        member(entries[i], "id"@) == Some(JsonView::Text(name)),
        name.len() > 0,
        !starts_with(name, "models/"@),
    ensures
        answered_models(answer) matches Ok(list) && list.contains(name) && list.no_duplicates(),
{
    entry_models_hold(entries, i);
    let found = entry_models(entries);
    crate::order::in_order_keeps_all(found, name);
    repetitions_go(in_order(found), name);
}

/// A prefix of the provider does not belong to the name of a model.
pub proof fn prefixes_of_models_go(name: Seq<char>, entry: JsonView)
    requires
        member(entry, "id"@) == Some(JsonView::Text("models/"@ + name)),
        name.len() > 0,
    ensures
        crate::provider::entry_model(entry) == Some(name),
{
    let text = "models/"@ + name;
    assert(text.take("models/"@.len() as int) =~= "models/"@);
    assert(text.skip("models/"@.len() as int) =~= name);
}

/// An address loses its slashes at the end and nothing else.
pub proof fn slashes_at_the_end_go(url: Seq<char>)
    ensures
        without_slashes(url).is_prefix_of(url),
        without_slashes(url).len() > 0 ==> without_slashes(url).last() != '/',
        forall|i: int| without_slashes(url).len() <= i < url.len() ==> #[trigger] url[i] == '/',
    decreases url.len(),
{
    if url.len() > 0 && url.last() == '/' {
        let rest = url.drop_last();
        slashes_at_the_end_go(rest);
        assert forall|i: int| without_slashes(url).len() <= i < url.len() implies #[trigger] url[i]
            == '/' by {
            if i < rest.len() {
                assert(rest[i] == url[i]);
            }
        }
    }
}

/// Copies of a provider have names of their own.
pub proof fn copies_are_named_apart(id: Seq<char>, a: nat, b: nat)
    requires
        1 <= a < b,
    ensures
        copy_name(id, a) != copy_name(id, b),
        starts_with(copy_name(id, a), id),
        copy_name(id, a) != id,
{
    reveal_strlit("-copy");
    reveal_strlit("-");
    assert("-copy"@.len() == 5 && "-"@.len() == 1);
    decimal_is_digits(a);
    decimal_is_digits(b);
    decimal_reads_back(a);
    decimal_reads_back(b);
    assert(copy_name(id, a).take(id.len() as int) =~= id);
    assert(copy_name(id, a).len() > id.len());
    let front = id + "-copy"@ + "-"@;
    assert(copy_name(id, b).skip(front.len() as int) =~= decimal(b));
    if a >= 2 {
        assert(copy_name(id, a).skip(front.len() as int) =~= decimal(a));
    } else {
        assert(copy_name(id, a).len() < copy_name(id, b).len());
    }
}

/// A provider is shown as it is set up, its key masked.
pub proof fn shown_providers_are_as_saved(id: Seq<char>, provider: ProviderSettingsView, active: bool)
    ensures
        ({
            let shown = provider_data(id, provider, active);
            &&& member(shown, "id"@) == Some(JsonView::Text(id))
            &&& member(shown, "apiKeyMasked"@) == Some(JsonView::Text(masked(provider.api_key)))
            &&& member(shown, "hasKey"@) == Some(JsonView::Bool(provider.api_key.len() > 0))
            &&& member(shown, "baseUrl"@) == Some(JsonView::Text(provider.base_url))
            &&& member(shown, "type"@) == Some(JsonView::Text(provider.provider_type))
            &&& member(shown, "model"@) == Some(JsonView::Text(provider.model))
            &&& provider.display.len() > 0 ==> member(shown, "name"@) == Some(
                JsonView::Text(provider.display),
            )
            &&& member(shown, "supportsVision"@) == Some(JsonView::Bool(provider.supports_vision))
            &&& member(shown, "active"@) == Some(JsonView::Bool(active))
            &&& member(shown, "models"@) matches Some(JsonView::Array(list)) && list.len()
                == models_of(provider).len() && forall|i: int|
                0 <= i < list.len() ==> #[trigger] list[i] == JsonView::Text(
                    models_of(provider)[i],
                )
        }),
{
    reveal(provider_data);
    reveal_strlit("id");
    reveal_strlit("name");
    reveal_strlit("apiKeyMasked");
    reveal_strlit("hasKey");
    reveal_strlit("models");
    reveal_strlit("baseUrl");
    reveal_strlit("type");
    reveal_strlit("model");
    reveal_strlit("fastModel");
    reveal_strlit("toolProtocol");
    reveal_strlit("contextWindow");
    reveal_strlit("modelContextWindows");
    reveal_strlit("supportsWebSearch");
    reveal_strlit("supportsVision");
    reveal_strlit("modelDescriptions");
    reveal_strlit("modelParameters");
    reveal_strlit("capabilityOverrides");
    reveal_strlit("active");
    assert("id"@.len() == 2 && "name"@.len() == 4);
    assert("apiKeyMasked"@.len() == 12 && "hasKey"@.len() == 6);
    assert("models"@.len() == 6 && "baseUrl"@.len() == 7);
    assert("type"@.len() == 4 && "model"@.len() == 5);
    assert("fastModel"@.len() == 9 && "toolProtocol"@.len() == 12);
    assert("contextWindow"@.len() == 13 && "modelContextWindows"@.len() == 19);
    assert("supportsWebSearch"@.len() == 17 && "supportsVision"@.len() == 14);
    assert("modelDescriptions"@.len() == 17 && "modelParameters"@.len() == 15);
    assert("capabilityOverrides"@.len() == 19 && "active"@.len() == 6);
    assert("active"@[0] == 'a' && "apiKeyMasked"@[0] == 'a');
    assert("capabilityOverrides"@[0] == 'c' && "hasKey"@[0] == 'h');
    assert("modelContextWindows"@[0] == 'm' && "modelDescriptions"@[0] == 'm');
    assert("models"@[0] == 'm' && "name"@[0] == 'n');
    assert("supportsWebSearch"@[0] == 's' && "toolProtocol"@[0] == 't');
    assert("type"@[0] == 't');
    let fields = provider_data(id, provider, active)->Object_0;
    member_at(fields, 0);
    member_at(fields, 1);
    member_at(fields, 2);
    member_at(fields, 3);
    member_at(fields, 4);
    member_at(fields, 5);
    member_at(fields, 6);
    member_at(fields, 7);
    member_at(fields, 13);
    member_at(fields, 17);
}

// ---------------------------------------------------------------------------
// Settings
// ---------------------------------------------------------------------------

/// A stored setting within its range is read as it is; one that is missing or out of range is
/// read as the default or the nearest that is allowed.
pub proof fn stored_settings_are_read(settings: JsonView, n: nat, text: Seq<char>, enabled: bool)
    requires
        n <= u64::MAX,
    ensures
        member(settings, "max_tool_rounds"@) == Some(JsonView::Number(decimal(n))) && 1 <= n <= 512
            ==> stored_rounds(settings) == n,
        1 <= stored_rounds(settings) <= 512,
        member(settings, "max_tool_rounds"@) is None ==> stored_rounds(settings) == 192,
        member(settings, "reasoning_effort"@) == Some(JsonView::Text("high"@)) ==> stored_effort(
            settings,
        ) == "high"@,
        member(settings, "reasoning_effort"@) == Some(JsonView::Text("low"@)) ==> stored_effort(
            settings,
        ) == "low"@,
        member(settings, "reasoning_effort"@) is None ==> stored_effort(settings) == "auto"@,
        member(settings, "custom_prompt"@) == Some(JsonView::Text(text)) ==> stored_text(
            settings,
            "custom_prompt"@,
        ) == text,
        member(settings, "global_memory"@) == Some(JsonView::Bool(enabled)) ==> switched_on(
            settings,
            "global_memory"@,
        ) == enabled,
        member(settings, "global_memory"@) is None ==> !switched_on(settings, "global_memory"@),
        mode_of(Some(mode_name(PermissionMode::Auto))) == PermissionMode::Auto,
        mode_of(Some(mode_name(PermissionMode::Full))) == PermissionMode::Full,
        mode_of(Some(mode_name(PermissionMode::Ask))) == PermissionMode::Ask,
        mode_of(None) == PermissionMode::Ask,
{
    decimal_is_digits(n);
    decimal_reads_back(n);
    reveal_strlit("ask");
    reveal_strlit("auto");
    reveal_strlit("full");
    assert("ask"@.len() == 3 && "auto"@.len() == 4);
    assert("full"@.len() == 4 && "auto"@[0] == 'a');
    assert("full"@[0] == 'f');
}

/// A connection setting is accepted exactly within its limits.
pub proof fn connections_are_accepted_within_limits(body: ConnectionSettings)
    ensures
        connection_verdict(body) is Ok <==> body.provider_retry_count <= 10 && body.ws_retry_count
            <= 30 && 500 <= body.reconnect_initial_delay_ms <= 60_000 && 1_000
            <= body.reconnect_max_delay_ms <= 120_000 && body.reconnect_initial_delay_ms
            <= body.reconnect_max_delay_ms && 1 <= body.max_concurrent_tasks <= 20,
{
}

// ---------------------------------------------------------------------------
// Sub-agents
// ---------------------------------------------------------------------------

proof fn kept_entries_are_listed(entries: Seq<SubAgentEntryView>, id: Seq<char>, entry: SubAgentEntryView)
    ensures
        with_id(entries, id).contains(entry) <==> entries.contains(entry) && entry.id == id,
        without_id(entries, id).contains(entry) <==> entries.contains(entry) && entry.id != id,
        with_id(entries, id).len() + without_id(entries, id).len() == entries.len(),
    decreases entries.len(),
{
    if entries.len() > 0 {
        let before = entries.drop_last();
        kept_entries_are_listed(before, id, entry);
        assert(entries =~= before.push(entries.last()));
        push_contains(before, entries.last(), entry);
        push_contains(with_id(before, id), entries.last(), entry);
        push_contains(without_id(before, id), entries.last(), entry);
    }
}

proof fn push_contains(list: Seq<SubAgentEntryView>, more: SubAgentEntryView, item: SubAgentEntryView)
    ensures
        list.push(more).contains(item) <==> list.contains(item) || item == more,
{
    let all = list.push(more);
    assert(all[all.len() - 1] == more);
    if list.contains(item) {
        let k = choose|k: int| 0 <= k < list.len() && list[k] == item;
        assert(all[k] == item);
    }
    if all.contains(item) && item != more {
        let k = choose|k: int| 0 <= k < all.len() && all[k] == item;
        assert(list[k] == item);
    }
}

/// Every sub-agent that was sent is saved, with its texts trimmed; the fallback stands first.
pub proof fn sent_sub_agents_are_saved(
    document: ProviderDocumentView,
    value: SubAgentSettingsView,
    i: int,
)
    requires
        0 <= i < value.agents.len(),
    ensures
        checked_helpers(document, value) matches Ok(saved) ==> {
            &&& saved.agents.len() == value.agents.len()
            &&& exists|k: int|
                0 <= k < saved.agents.len() && (#[trigger] saved.agents[k]).id == trimmed(
                    value.agents[i].id,
                ) && saved.agents[k].provider_id == trimmed(value.agents[i].provider_id)
                    && saved.agents[k].model == trimmed(value.agents[i].model)
                    && saved.agents[k].description == trimmed(value.agents[i].description)
            &&& value.fallback_id is Some && saved.fallback_id == Some(
                trimmed(value.fallback_id->0),
            )
        },
{
    if let Ok(saved) = checked_helpers(document, value) {
        let entries = crate::subagents::tidy_entries(value.agents);
        let fallback = trimmed(value.fallback_id->0);
        let entry = entries[i];
        assert(entries.contains(entry));
        kept_entries_are_listed(entries, fallback, entry);
        let first = with_id(entries, fallback);
        let rest = without_id(entries, fallback);
        assert(saved.agents == first + rest);
        if entry.id == fallback {
            let k = choose|k: int| 0 <= k < first.len() && first[k] == entry;
            assert(saved.agents[k] == entry);
        } else {
            let k = choose|k: int| 0 <= k < rest.len() && rest[k] == entry;
            assert(saved.agents[first.len() + k] == entry);
        }
    }
}

/// A sub-agent whose model can be had is offered under its identifier, with that model and its
/// description.
pub proof fn found_sub_agents_are_offered(
    entries: Seq<SubAgentEntryView>,
    found: Seq<Option<ProviderRefView>>,
    i: int,
)
    requires
        0 <= i < entries.len(),
        found.len() == entries.len(),
    ensures
        found[i] matches Some(provider) ==> found_helpers(entries, found).contains(
            ConfiguredSubAgentView {
                id: entries[i].id,
                provider,
                description: entries[i].description,
            },
        ),
    decreases entries.len(),
{
    let rest = found_helpers(entries.skip(1), found.skip(1));
    let all = found_helpers(entries, found);
    if i == 0 {
        if let Some(provider) = found[0] {
            assert(all[0].id == entries[0].id);
        }
    } else {
        found_sub_agents_are_offered(entries.skip(1), found.skip(1), i - 1);
        assert(found.skip(1)[i - 1] == found[i]);
        assert(entries.skip(1)[i - 1] == entries[i]);
        if let Some(provider) = found[i] {
            let wanted = ConfiguredSubAgentView {
                id: entries[i].id,
                provider,
                description: entries[i].description,
            };
            let k = choose|k: int| 0 <= k < rest.len() && rest[k] == wanted;
            if found[0] is Some {
                assert(all[k + 1] == wanted);
            } else {
                assert(all[k] == wanted);
            }
        }
    }
}

/// The fallback is the chosen sub-agent where it can be had, else the first that can.
pub proof fn fallbacks_can_be_had(helpers: Seq<ConfiguredSubAgentView>, chosen: Seq<char>, i: int)
    requires
        0 <= i < helpers.len(),
    ensures
        helpers[i].id == chosen ==> usable_fallback(helpers, Some(chosen)) == Some(chosen),
        usable_fallback(helpers, Some(chosen)) matches Some(id) && exists|k: int|
            0 <= k < helpers.len() && (#[trigger] helpers[k]).id == id,
        usable_fallback(helpers, None) == Some(helpers[0].id),
        usable_fallback(Seq::empty(), Some(chosen)) is None,
{
    assert(helpers[i].id == helpers[i].id);
    assert(helpers[0].id == helpers[0].id);
}

/// Saved sub-agents are stored with their fallback, and the fallback is read back.
pub proof fn fallbacks_are_read_back(
    settings: JsonView,
    value: SubAgentSettingsView,
    list: Seq<SubAgentEntryView>,
)
    requires
        settings is Object,
    ensures
        stored_helpers(with_helpers(settings, value), Some(list)).fallback_id == value.fallback_id,
        stored_helpers(with_helpers(settings, value), Some(list)).agents == list,
        stored_helpers(settings, None).agents.len() == 0,
        member(with_helpers(settings, value), "sub_agents"@) matches Some(JsonView::Array(stored))
            && stored.len() == value.agents.len(),
{
    reveal_strlit("sub_agents");
    reveal_strlit("fallback_sub_agent_id");
    assert("sub_agents"@.len() == 10 && "fallback_sub_agent_id"@.len() == 21);
    let once = crate::json_ops::assigned(
        settings,
        "sub_agents"@,
        crate::subagents::entries_data(value.agents),
    );
    crate::settings::assigned_is_read(
        settings,
        "sub_agents"@,
        crate::subagents::entries_data(value.agents),
        "fallback_sub_agent_id"@,
    );
    crate::settings::assigned_is_read(
        once,
        "fallback_sub_agent_id"@,
        crate::json::nullable_text(value.fallback_id),
        "sub_agents"@,
    );
}

/// Sub-agents of other providers outlive the removal of one provider.
pub proof fn other_sub_agents_stay(
    value: SubAgentSettingsView,
    provider: Seq<char>,
    entry: SubAgentEntryView,
)
    requires
        value.agents.contains(entry),
        entry.provider_id != provider,
    ensures
        helpers_without(value, provider) matches Some(left) ==> left.agents.contains(entry),
{
    users_stay(value.agents, provider, entry);
}

proof fn users_stay(entries: Seq<SubAgentEntryView>, provider: Seq<char>, entry: SubAgentEntryView)
    ensures
        without_user_of(entries, provider).contains(entry) <==> entries.contains(entry)
            && entry.provider_id != provider,
    decreases entries.len(),
{
    if entries.len() > 0 {
        let before = entries.drop_last();
        users_stay(before, provider, entry);
        assert(entries =~= before.push(entries.last()));
        push_contains(before, entries.last(), entry);
        push_contains(without_user_of(before, provider), entries.last(), entry);
    }
}

// ---------------------------------------------------------------------------
// Stored documents
// ---------------------------------------------------------------------------

/// What a request says of the models beside their names is stored under its own key, as it was
/// sent.
pub proof fn remarks_on_models_are_stored(
    input: JsonView,
    start: ProviderSettingsView,
    value: JsonView,
    other: Seq<char>,
)
    ensures
        member(input, "modelDescriptions"@) == Some(value) ==> lookup(
            finished_settings(input, start).extra,
            "modelDescriptions"@,
        ) == Some(value),
        member(input, "modelParameters"@) == Some(value) ==> lookup(
            finished_settings(input, start).extra,
            "modelParameters"@,
        ) == Some(value),
        member(input, "capabilityOverrides"@) == Some(value) ==> lookup(
            finished_settings(input, start).extra,
            "capabilityOverrides"@,
        ) == Some(value),
        other != "modelDescriptions"@ && other != "modelParameters"@ && other
            != "capabilityOverrides"@ ==> lookup(finished_settings(input, start).extra, other)
            == lookup(start.extra, other),
{
    reveal(finished_settings);
    reveal_strlit("modelDescriptions");
    reveal_strlit("modelParameters");
    reveal_strlit("capabilityOverrides");
    assert("modelDescriptions"@.len() == 17 && "modelParameters"@.len() == 15);
    assert("capabilityOverrides"@.len() == 19);
    let a = crate::provider::with_member(start.extra, input, "modelDescriptions"@);
    let b = crate::provider::with_member(a, input, "modelParameters"@);
    kept_member(start.extra, input, "modelDescriptions"@, other);
    kept_member(a, input, "modelParameters"@, other);
    kept_member(b, input, "capabilityOverrides"@, other);
    kept_member(a, input, "modelParameters"@, "modelDescriptions"@);
    kept_member(b, input, "capabilityOverrides"@, "modelDescriptions"@);
    kept_member(b, input, "capabilityOverrides"@, "modelParameters"@);
    kept_member(start.extra, input, "modelDescriptions"@, "modelDescriptions"@);
    kept_member(a, input, "modelParameters"@, "modelParameters"@);
    kept_member(b, input, "capabilityOverrides"@, "capabilityOverrides"@);
}

proof fn kept_member(
    extra: Seq<(Seq<char>, JsonView)>,
    input: JsonView,
    key: Seq<char>,
    other: Seq<char>,
)
    ensures
        member(input, key) matches Some(value) ==> lookup(
            crate::provider::with_member(extra, input, key),
            key,
        ) == Some(value),
        other != key ==> lookup(crate::provider::with_member(extra, input, key), other) == lookup(
            extra,
            other,
        ),
{
    if let Some(value) = member(input, key) {
        crate::table::put_is_found(extra, key, value, other);
    }
}

/// The windows of the models are shown each under its model.
pub proof fn windows_are_shown(windows: Seq<(Seq<char>, u64)>, i: int)
    requires
        0 <= i < windows.len(),
    ensures
        window_data(windows) matches JsonView::Object(fields) && fields.len() == windows.len()
            && fields[i] == (windows[i].0, JsonView::Number(decimal(windows[i].1 as nat))),
{
}

/// The settings are read from their file where it holds an object, and are empty otherwise.
pub proof fn settings_are_read_from_their_file(file: Seq<u8>, fields: Seq<(Seq<char>, JsonView)>, message: Seq<char>)
    ensures
        json_document(file) == Ok::<JsonView, Seq<char>>(JsonView::Object(fields))
            ==> stored_settings(Some(file)) == JsonView::Object(fields),
        json_document(file) == Err::<JsonView, Seq<char>>(message) ==> stored_settings(Some(file))
            == JsonView::Object(Seq::empty()),
        stored_settings(None) == JsonView::Object(Seq::empty()),
        connection_verdict(default_connection()) is Ok,
{
}

/// Sub-agents that are stored already are not taken over again; what is taken over leaves the
/// providers, and nothing else does.
pub proof fn old_sub_agents_are_taken_over_once(
    settings: JsonView,
    current: SubAgentSettingsView,
    document: ProviderDocumentView,
    lists: Seq<Option<Seq<SubAgentEntryView>>>,
    provider: ProviderSettingsView,
    other: Seq<char>,
)
    ensures
        member(settings, "sub_agents"@) is Some ==> (migrated(settings, current, document, lists)
            matches Ok(done) && done.settings == current && !done.store && !done.document_changed),
        member(settings, "sub_agents"@) is None ==> (migrated(settings, current, document, lists)
            matches Ok(done) ==> done.store),
        !has_legacy(without_legacy(provider)),
        other != "subAgents"@ && other != "fallbackSubAgentId"@ ==> lookup(
            without_legacy(provider).extra,
            other,
        ) == lookup(provider.extra, other),
        without_legacy(provider).api_key == provider.api_key,
        without_legacy(provider).model == provider.model,
        all_without_legacy(document.providers).len() == document.providers.len(),
{
    reveal_strlit("subAgents");
    reveal_strlit("fallbackSubAgentId");
    assert("subAgents"@.len() == 9 && "fallbackSubAgentId"@.len() == 18);
    let once = crate::table::without(provider.extra, "subAgents"@);
    let twice = crate::table::without(once, "fallbackSubAgentId"@);
    removals_touch_one_key(provider.extra, "subAgents"@, other);
    removals_touch_one_key(once, "fallbackSubAgentId"@, other);
    removals_touch_one_key(once, "fallbackSubAgentId"@, "subAgents"@);
    removals_touch_one_key(twice, "subAgents"@, "fallbackSubAgentId"@);
}

/// A sub-agent is stored with all that was said of it.
pub proof fn stored_sub_agents_are_whole(entry: SubAgentEntryView)
    ensures
        member(entry_data(entry), "id"@) == Some(JsonView::Text(entry.id)),
        member(entry_data(entry), "model"@) == Some(JsonView::Text(entry.model)),
        member(entry_data(entry), "providerId"@) == Some(JsonView::Text(entry.provider_id)),
        entry.description.len() > 0 ==> member(entry_data(entry), "description"@) == Some(
            JsonView::Text(entry.description),
        ),
{
    reveal_strlit("id");
    reveal_strlit("model");
    reveal_strlit("providerId");
    reveal_strlit("description");
    assert("id"@.len() == 2 && "model"@.len() == 5);
    assert("providerId"@.len() == 10 && "description"@.len() == 11);
    let fields = entry_data(entry)->Object_0;
    if entry.description.len() > 0 {
        member_at(fields, 0);
        member_at(fields, 1);
        member_at(fields, 2);
        member_at(fields, 3);
    } else {
        member_at(fields, 0);
        member_at(fields, 1);
        member_at(fields, 2);
    }
}

/// The models that a request lists are saved without repetitions; the first is the main one.
pub proof fn listed_models_are_saved(
    document: ProviderDocumentView,
    input: JsonView,
    defaults: ProviderSettingsView,
    id: Seq<char>,
    items: Seq<JsonView>,
)
    requires
        requested_settings(document, input, defaults, id) is Ok,
        member(input, "models"@) == Some(JsonView::Array(items)),
        trimmed_texts(items).len() > 0,
    ensures
        ({
            let saved = requested_settings(document, input, defaults, id)->Ok_0;
            let listed = distinct(trimmed_texts(items));
            &&& listed.len() > 0
            &&& saved.model == listed[0]
            &&& listed.len() > 1 ==> saved.fast_model == Some(listed[1])
            &&& lookup(saved.extra, "models"@) matches Some(JsonView::Array(stored)) && stored.len()
                == listed.len() && forall|i: int|
                0 <= i < listed.len() ==> stored[i] == JsonView::Text(#[trigger] listed[i])
        }),
{
    reveal(named_settings);
    reveal(windowed_settings);
    reveal(modelled_settings);
    reveal(finished_settings);
    let listed = distinct(trimmed_texts(items));
    repetitions_go(trimmed_texts(items), trimmed_texts(items)[0]);
    assert(listed.contains(trimmed_texts(items)[0]));
    reveal_strlit("models");
    reveal_strlit("modelDescriptions");
    reveal_strlit("modelParameters");
    reveal_strlit("capabilityOverrides");
    assert("models"@.len() == 6 && "modelDescriptions"@.len() == 17);
    assert("modelParameters"@.len() == 15 && "capabilityOverrides"@.len() == 19);
    let existing = lookup(document.providers, id);
    let start = match existing {
        Some(settings) => settings,
        None => defaults,
    };
    let sized = windowed_settings(input, named_settings(id, input, existing, start))->Ok_0;
    let modelled = modelled_settings(id, input, sized, document.active == id)->Ok_0;
    crate::table::put_is_found(
        sized.extra,
        "models"@,
        JsonView::Array(crate::json::text_values(listed)),
        "models"@,
    );
    remarks_on_models_are_stored(input, modelled, JsonView::Null, "models"@);
}

/// A provider of a supported kind with an address is accepted as it is sent, where it says
/// nothing else.
pub proof fn plain_providers_are_accepted(
    document: ProviderDocumentView,
    input: JsonView,
    defaults: ProviderSettingsView,
    id: Seq<char>,
    kind: Seq<char>,
    url: Seq<char>,
)
    requires
        member(input, "type"@) == Some(JsonView::Text(kind)),
        trimmed(kind) == "openai_compatible"@ || trimmed(kind) == "anthropic_messages"@ || trimmed(
            kind,
        ) == "gemini_native"@ || trimmed(kind) == "openai_responses"@,
        member(input, "baseUrl"@) == Some(JsonView::Text(url)),
        trimmed(url).len() > 0,
        member(input, "contextWindow"@) is None,
        member(input, "modelContextWindows"@) is None,
        member(input, "models"@) is None,
        member(input, "activate"@) is None,
    ensures
        requested_settings(document, input, defaults, id) is Ok,
{
    reveal(named_settings);
    reveal(windowed_settings);
    reveal(modelled_settings);
    reveal(finished_settings);
    reveal_strlit("openai_compatible");
    reveal_strlit("anthropic_messages");
    reveal_strlit("gemini_native");
    reveal_strlit("openai_responses");
    assert(trimmed(kind).len() > 0);
}

/// A model of a provider can be chosen where the provider is fit for use with it, and a provider
/// that is fit for use can be put to use.
pub proof fn fit_models_can_be_chosen(
    document: ProviderDocumentView,
    id: Seq<char>,
    body: JsonView,
    text: Seq<char>,
    provider: ProviderSettingsView,
)
    requires
        lookup(document.providers, id) == Some(provider),
        member(body, "model"@) == Some(JsonView::Text(text)),
        trimmed(text).len() > 0,
        models_of(provider).contains(trimmed(text)),
    ensures
        activation_verdict(ProviderSettingsView { model: trimmed(text), ..provider }) is Ok
            ==> model_candidate(document, id, body) is Ok,
        activation_verdict(provider) is Ok ==> activation_candidate(document, id) is Ok,
{
}

/// Whether a list of sub-agents is sound: each has an identifier of its own, a short description
/// and a model of a provider with a key.
pub open spec fn sound_entries(
    document: ProviderDocumentView,
    entries: Seq<SubAgentEntryView>,
) -> bool {
    forall|i: int|
        0 <= i < entries.len() ==> {
            let entry = #[trigger] entries[i];
            let provider = lookup(document.providers, entry.provider_id);
            &&& entry.id.len() > 0
            &&& forall|k: int| 0 <= k < i ==> (#[trigger] entries[k]).id != entry.id
            &&& entry.description.len() <= 500
            &&& provider is Some && !is_blank(provider->0.api_key) && models_of(
                provider->0,
            ).contains(entry.model)
        }
}

proof fn sound_entries_have_no_fault(
    document: ProviderDocumentView,
    entries: Seq<SubAgentEntryView>,
)
    requires
        sound_entries(document, entries),
    ensures
        entries_fault(document, entries) is None,
    decreases entries.len(),
{
    if entries.len() > 0 {
        let shorter = entries.drop_last();
        assert(sound_entries(document, shorter)) by {
            assert forall|i: int| 0 <= i < shorter.len() implies {
                let entry = #[trigger] shorter[i];
                let provider = lookup(document.providers, entry.provider_id);
                &&& entry.id.len() > 0
                &&& forall|k: int| 0 <= k < i ==> (#[trigger] shorter[k]).id != entry.id
                &&& entry.description.len() <= 500
                &&& provider is Some && !is_blank(provider->0.api_key) && models_of(
                    provider->0,
                ).contains(entry.model)
            } by {
                assert(entries[i] == shorter[i]);
                assert forall|k: int| 0 <= k < i implies (#[trigger] shorter[k]).id
                    != shorter[i].id by {
                    assert(entries[k] == shorter[k]);
                }
            }
        }
        sound_entries_have_no_fault(document, shorter);
        let last = entries[entries.len() - 1];
        assert forall|k: int| 0 <= k < shorter.len() implies (#[trigger] shorter[k]).id
            != last.id by {
            assert(entries[k] == shorter[k]);
        }
    }
}

/// Sub-agents that are sound are accepted with a fallback among them; none at all are accepted
/// too.
pub proof fn sound_sub_agents_are_accepted(
    document: ProviderDocumentView,
    value: SubAgentSettingsView,
    i: int,
)
    requires
        sound_entries(document, tidy_entries(value.agents)),
        value.agents.len() <= 20,
    ensures
        0 <= i < value.agents.len() && value.fallback_id is Some && trimmed(value.fallback_id->0)
            == trimmed(value.agents[i].id) ==> checked_helpers(document, value) is Ok,
        value.agents.len() == 0 ==> checked_helpers(document, value) is Ok,
{
    let entries = tidy_entries(value.agents);
    sound_entries_have_no_fault(document, entries);
    if 0 <= i < value.agents.len() {
        assert(entries[i].id == trimmed(value.agents[i].id));
        assert(entries[i].id.len() > 0);
    }
}

} // verus!
