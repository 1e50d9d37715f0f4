//! Searching the sessions, models and catalogues.

use vstd::prelude::*;
use crate::cli::ModelChoice;
use crate::cli::ModelChoiceView;
use crate::pieces::split_on;
use crate::text::blank;
use crate::text::chars_of;
use crate::text::contains;
use crate::text::has;
use crate::text::is_blank;
use crate::text::is_space;
use crate::text::is_space_char;
use crate::text::lower;
use crate::text::occurs_at;
use crate::text::stands_at;
use crate::text::string_of;
use crate::text::texts;
use crate::text::texts_empty;
use crate::text::texts_push;
use crate::text::to_lower;
use crate::views::Duplicate;
use crate::views::views;

verus! {

broadcast use {texts_push, texts_empty};

/// What is known of a stored session in a list.
#[derive(Debug)]
pub struct SessionCard {
    pub id: String,
    pub model: String,
    pub title: String,
    pub summary: String,
    pub preview: String,
}

/// What a `SessionCard` holds.
#[verifier::ext_equal]
pub struct SessionCardView {
    pub id: Seq<char>,
    pub model: Seq<char>,
    pub title: Seq<char>,
    pub summary: Seq<char>,
    pub preview: Seq<char>,
}

impl View for SessionCard {
    type V = SessionCardView;

    open spec fn view(&self) -> SessionCardView {
        SessionCardView {
            id: self.id@,
            model: self.model@,
            title: self.title@,
            summary: self.summary@,
            preview: self.preview@,
        }
    }
}

impl Duplicate for SessionCard {
    fn duplicate(&self) -> (result: Self) {
        SessionCard {
            id: self.id.clone(),
            model: self.model.clone(),
            title: self.title.clone(),
            summary: self.summary.clone(),
            preview: self.preview.clone(),
        }
    }
}

// ---------------------------------------------------------------------------
// Unicode
// ---------------------------------------------------------------------------

/// The text that `str::to_lowercase` gives for a text.
pub uninterp spec fn lower_text(text: Seq<char>) -> Seq<char>;

/// Whether `char::is_alphanumeric` holds of a character.
pub uninterp spec fn letter_or_number(c: char) -> bool;

/// `str::to_lowercase`: the text with each upper-case letter in lower case, by the tables of
/// Unicode. It depends on the text alone and is named, not restated.
#[verifier::external_body]
fn to_lowercase(text: &str) -> (result: String)
    ensures
        result@ == lower_text(text@),
{
    text.to_lowercase()
}

/// `char::is_alphanumeric`: whether a character is a letter or a number, by the tables of
/// Unicode. It depends on the character alone and is named, not restated.
#[verifier::external_body]
fn is_alphanumeric(c: char) -> (result: bool)
    ensures
        result == letter_or_number(c),
{
    c.is_alphanumeric()
}

// ---------------------------------------------------------------------------
// Terms and hits
// ---------------------------------------------------------------------------

/// Whether a character stands between the terms of a query.
pub open spec fn between_terms(c: char) -> bool {
    !letter_or_number(c) && c != '_' && c != '-' && c != '+' && c != '.' && c != '#'
}

/// The pieces of two characters or more, in lower case.
pub open spec fn terms_among(parts: Seq<Seq<char>>) -> Seq<Seq<char>>
    decreases parts.len(),
{
    if parts.len() == 0 {
        Seq::empty()
    } else if parts.last().len() >= 2 {
        terms_among(parts.drop_last()).push(lower_text(parts.last()))
    } else {
        terms_among(parts.drop_last())
    }
}

/// The terms of a query.
pub open spec fn search_terms(query: Seq<char>) -> Seq<Seq<char>> {
    terms_among(split_on(query, |c: char| between_terms(c)))
}

/// How often a text stands in another one from a position on, counted from the left without
/// overlap.
pub open spec fn occurrences(hay: Seq<char>, needle: Seq<char>, from: int) -> nat
    decreases hay.len() + 1 - from,
{
    if from > hay.len() {
        0
    } else if occurs_at(hay, needle, from) {
        1 + occurrences(hay, needle, if needle.len() == 0 {
            from + 1
        } else {
            from + needle.len()
        })
    } else {
        occurrences(hay, needle, from + 1)
    }
}

/// A text without its white space.
pub open spec fn compact(s: Seq<char>) -> Seq<char>
    decreases s.len(),
{
    if s.len() == 0 {
        Seq::empty()
    } else if is_space(s.last()) {
        compact(s.drop_last())
    } else {
        compact(s.drop_last()).push(s.last())
    }
}

/// The points for a term in a text: so many for each time it stands there; where it does not,
/// so many for each time it stands there when white space is left out.
pub open spec fn points(text: Seq<char>, term: Seq<char>, each: nat, each_compact: nat) -> nat {
    let hits = occurrences(text, term, 0);
    if hits == 0 {
        each_compact * occurrences(compact(text), term, 0)
    } else {
        each * hits
    }
}

/// The points of a session for one term. The title counts most.
pub open spec fn term_score(card: SessionCardView, term: Seq<char>) -> nat {
    points(lower_text(card.title), term, 5, 2) + points(lower_text(card.summary), term, 3, 1)
        + points(lower_text(card.preview), term, 1, 1) + (if contains(
        lower_text(card.model),
        term,
    ) {
        1nat
    } else {
        0
    }) + (if term.len() >= 6 && contains(card.id, term) {
        1nat
    } else {
        0
    })
}

/// The points of a session for some terms.
pub open spec fn terms_score(card: SessionCardView, terms: Seq<Seq<char>>) -> nat
    decreases terms.len(),
{
    if terms.len() == 0 {
        0
    } else {
        terms_score(card, terms.drop_last()) + term_score(card, terms.last())
    }
}

/// The points of a session for a query.
pub open spec fn search_score(card: SessionCardView, query: Seq<char>) -> nat {
    terms_score(card, search_terms(query))
}

/// A count that stays at the largest machine number where it would be larger.
pub open spec fn capped(n: nat) -> nat {
    if n <= usize::MAX {
        n
    } else {
        usize::MAX as nat
    }
}

fn search_parts(query: &str) -> (result: Vec<String>)
    ensures
        texts(result@) == split_on(query@, |c: char| between_terms(c)),
{
    let chars = chars_of(query);
    let ghost cut = |c: char| between_terms(c);
    let mut parts: Vec<String> = Vec::new();
    let mut current: Vec<char> = Vec::new();
    let mut i: usize = 0;
    assert(chars@.take(0) =~= Seq::<char>::empty());
    assert(split_on(chars@.take(0), cut) =~= seq![Seq::<char>::empty()]);
    while i < chars.len()
        invariant
            i <= chars@.len(),
            cut == (|c: char| between_terms(c)),
            texts(parts@).push(current@) == split_on(chars@.take(i as int), cut),
        decreases chars@.len() - i,
    {
        let c = chars[i];
        let ghost whole = chars@.take(i + 1);
        assert(whole.drop_last() =~= chars@.take(i as int));
        assert(texts(parts@).push(current@).drop_last() =~= texts(parts@));
        if !is_alphanumeric(c) && c != '_' && c != '-' && c != '+' && c != '.' && c != '#' {
            parts.push(string_of(&current));
            current = Vec::new();
        } else {
            current.push(c);
        }
        assert(texts(parts@).push(current@) =~= split_on(whole, cut));
        i = i + 1;
    }
    assert(chars@.take(i as int) =~= chars@);
    parts.push(string_of(&current));
    parts
}

fn query_terms(query: &str) -> (result: Vec<String>)
    ensures
        texts(result@) == search_terms(query@),
{
    let parts = search_parts(query);
    let ghost all = texts(parts@);
    let mut terms: Vec<String> = Vec::new();
    let mut i: usize = 0;
    assert(all.take(0) =~= Seq::<Seq<char>>::empty());
    while i < parts.len()
        invariant
            i <= parts@.len(),
            all == texts(parts@),
            texts(terms@) == terms_among(all.take(i as int)),
        decreases parts@.len() - i,
    {
        let ghost whole = all.take(i + 1);
        assert(whole.drop_last() =~= all.take(i as int));
        assert(whole.last() == parts@[i as int]@);
        if parts[i].as_str().unicode_len() >= 2 {
            terms.push(to_lowercase(&parts[i]));
        }
        i = i + 1;
    }
    assert(all.take(i as int) =~= all);
    terms
}

fn count_hits(hay: &str, needle: &str) -> (result: usize)
    ensures
        result == capped(occurrences(hay@, needle@, 0)),
{
    let chars = chars_of(hay);
    let wanted = chars_of(needle);
    let mut count: usize = 0;
    let mut from: usize = 0;
    let ghost mut found: nat = 0;
    loop
        invariant_except_break
            from <= chars@.len(),
            count == capped(found),
            found + occurrences(chars@, wanted@, from as int) == occurrences(chars@, wanted@, 0),
        ensures
            count == capped(occurrences(chars@, wanted@, 0)),
        decreases chars@.len() - from,
    {
        let step: usize;
        let ghost ahead = occurrences(chars@, wanted@, from as int);
        if stands_at(&chars, &wanted, from) {
            count = count.saturating_add(1);
            proof {
                found = found + 1;
            }
            step = if wanted.len() == 0 {
                1
            } else {
                wanted.len()
            };
            assert(ahead == 1 + occurrences(chars@, wanted@, from + step));
        } else {
            step = 1;
            assert(ahead == occurrences(chars@, wanted@, from + step));
        }
        if step > chars.len() - from {
            assert(occurrences(chars@, wanted@, from + step) == 0);
            break;
        }
        from = from + step;
    }
    count
}

fn without_spaces(text: &str) -> (result: String)
    ensures
        result@ == compact(text@),
{
    let chars = chars_of(text);
    let mut kept: Vec<char> = Vec::new();
    let mut i: usize = 0;
    assert(chars@.take(0) =~= Seq::<char>::empty());
    while i < chars.len()
        invariant
            i <= chars@.len(),
            kept@ == compact(chars@.take(i as int)),
        decreases chars@.len() - i,
    {
        assert(chars@.take(i + 1).drop_last() =~= chars@.take(i as int));
        if !is_space_char(chars[i]) {
            kept.push(chars[i]);
        }
        i = i + 1;
    }
    assert(chars@.take(i as int) =~= chars@);
    string_of(&kept)
}

fn times(count: usize, each: usize) -> (result: usize)
    ensures
        result == capped((each * count) as nat),
{
    match count.checked_mul(each) {
        Some(product) => {
            assert(count * each == each * count) by (nonlinear_arith);
            product
        },
        None => {
            assert(count * each == each * count) by (nonlinear_arith);
            usize::MAX
        },
    }
}

fn field_points(text: &str, compact_text: &str, term: &str, each: usize, each_compact: usize) -> (result: usize)
    requires
        compact_text@ == compact(text@),
        1 <= each,
        1 <= each_compact,
    ensures
        result == capped(points(text@, term@, each as nat, each_compact as nat)),
{
    let hits = count_hits(text, term);
    if hits == 0 {
        let others = count_hits(compact_text, term);
        let ghost n = occurrences(compact(text@), term@, 0);
        assert(n > usize::MAX ==> each_compact * n >= usize::MAX) by (nonlinear_arith)
            requires
                1 <= each_compact,
        ;
        assert(each_compact * usize::MAX >= usize::MAX) by (nonlinear_arith)
            requires
                1 <= each_compact,
        ;
        times(others, each_compact)
    } else {
        let ghost n = occurrences(text@, term@, 0);
        assert(n > usize::MAX ==> each * n >= usize::MAX) by (nonlinear_arith)
            requires
                1 <= each,
        ;
        assert(each * usize::MAX >= usize::MAX) by (nonlinear_arith)
            requires
                1 <= each,
        ;
        times(hits, each)
    }
}

/// Returns the points of a session for a query: how well it matches. Nothing matches a query
/// without terms.
pub fn session_search_score(card: &SessionCard, query: &str) -> (result: usize)
    ensures
        result == capped(search_score(card@, query@)),
{
    let terms = query_terms(query);
    let ghost all = texts(terms@);
    let title = to_lowercase(&card.title);
    let summary = to_lowercase(&card.summary);
    let preview = to_lowercase(&card.preview);
    let model = to_lowercase(&card.model);
    let compact_title = without_spaces(&title);
    let compact_summary = without_spaces(&summary);
    let compact_preview = without_spaces(&preview);
    let mut score: usize = 0;
    let mut i: usize = 0;
    assert(all.take(0) =~= Seq::<Seq<char>>::empty());
    while i < terms.len()
        invariant
            i <= terms@.len(),
            all == texts(terms@),
            title@ == lower_text(card@.title),
            summary@ == lower_text(card@.summary),
            preview@ == lower_text(card@.preview),
            model@ == lower_text(card@.model),
            compact_title@ == compact(title@),
            compact_summary@ == compact(summary@),
            compact_preview@ == compact(preview@),
            score == capped(terms_score(card@, all.take(i as int))),
        decreases terms@.len() - i,
    {
        let term = &terms[i];
        let ghost whole = all.take(i + 1);
        assert(whole.drop_last() =~= all.take(i as int));
        assert(whole.last() == term@);
        score = score.saturating_add(field_points(&title, &compact_title, term, 5, 2));
        score = score.saturating_add(field_points(&summary, &compact_summary, term, 3, 1));
        score = score.saturating_add(field_points(&preview, &compact_preview, term, 1, 1));
        if has(&model, term) {
            score = score.saturating_add(1);
        }
        if term.as_str().unicode_len() >= 6 && has(&card.id, term) {
            score = score.saturating_add(1);
        }
        i = i + 1;
    }
    assert(all.take(i as int) =~= all);
    score
}

// ---------------------------------------------------------------------------
// Ranking
// ---------------------------------------------------------------------------

/// The places of a list with a further place behind all that have at least its score.
pub open spec fn placed(places: Seq<int>, scores: Seq<nat>, place: int) -> Seq<int>
    decreases places.len(),
{
    if places.len() == 0 || scores[places.last()] >= scores[place] {
        places.push(place)
    } else {
        placed(places.drop_last(), scores, place).push(places.last())
    }
}

/// The places of the first so many scores that are above zero, the highest first. Equal ones
/// stay as they stood.
pub open spec fn ranking(scores: Seq<nat>, count: nat) -> Seq<int>
    decreases count,
{
    if count == 0 {
        Seq::empty()
    } else if scores[count - 1] > 0 {
        placed(ranking(scores, (count - 1) as nat), scores, count - 1)
    } else {
        ranking(scores, (count - 1) as nat)
    }
}

/// The scores of sessions for a query.
pub open spec fn scores_of(cards: Seq<SessionCardView>, query: Seq<char>) -> Seq<nat> {
    cards.map_values(|card: SessionCardView| capped(search_score(card, query)))
}

/// The places of the sessions that a query finds, the best first. A blank query finds all.
pub open spec fn ranked(cards: Seq<SessionCardView>, query: Seq<char>) -> Seq<int> {
    if is_blank(query) {
        Seq::new(cards.len(), |i: int| i)
    } else {
        ranking(scores_of(cards, query), cards.len())
    }
}

/// Places as mathematical integers.
pub open spec fn places(list: Seq<usize>) -> Seq<int> {
    list.map_values(|place: usize| place as int)
}

/// Returns the places of the sessions that a query finds, the best first.
pub fn ranked_sessions(cards: &Vec<SessionCard>, query: &str) -> (result: Vec<usize>)
    ensures
        places(result@) == ranked(views(cards@), query@),
        forall|k: int| 0 <= k < result@.len() ==> #[trigger] result@[k] < cards@.len(),
{
    let mut result: Vec<usize> = Vec::new();
    let mut i: usize = 0;
    if blank(query) {
        while i < cards.len()
            invariant
                i <= cards@.len(),
                result@.len() == i,
                forall|k: int| 0 <= k < i ==> result@[k] == k,
            decreases cards@.len() - i,
        {
            result.push(i);
            i = i + 1;
        }
        assert(places(result@) =~= ranked(views(cards@), query@));
        return result;
    }
    let ghost wanted = scores_of(views(cards@), query@);
    let mut scores: Vec<usize> = Vec::new();
    assert(places(result@) =~= ranking(wanted, 0));
    while i < cards.len()
        invariant
            i <= cards@.len(),
            wanted == scores_of(views(cards@), query@),
            scores@.len() == i,
            forall|k: int| 0 <= k < i ==> scores@[k] == wanted[k],
            places(result@) == ranking(wanted, i as nat),
            forall|k: int| 0 <= k < result@.len() ==> #[trigger] result@[k] < i,
        decreases cards@.len() - i,
    {
        let score = session_search_score(&cards[i], query);
        assert(wanted[i as int] == score);
        scores.push(score);
        if score > 0 {
            insert_place(&mut result, &scores, i, Ghost(wanted));
        }
        i = i + 1;
    }
    result
}

fn insert_place(list: &mut Vec<usize>, scores: &Vec<usize>, place: usize, wanted: Ghost<Seq<nat>>)
    requires
        place < scores@.len(),
        scores@.len() <= wanted@.len(),
        forall|k: int| 0 <= k < scores@.len() ==> scores@[k] == wanted@[k],
        forall|k: int| 0 <= k < old(list)@.len() ==> #[trigger] old(list)@[k] < place,
    ensures
        places(final(list)@) == placed(places(old(list)@), wanted@, place as int),
        forall|k: int| 0 <= k < final(list)@.len() ==> #[trigger] final(list)@[k] <= place,
{
    let ghost before = list@;
    let mut at: usize = list.len();
    while at > 0 && scores[list[at - 1]] < scores[place]
        invariant
            at <= list@.len(),
            list@ == before,
            place < scores@.len(),
            forall|k: int| 0 <= k < before.len() ==> #[trigger] before[k] < place,
            forall|k: int| at <= k < before.len() ==> scores@[#[trigger] before[k] as int] < scores@[place as int],
        decreases at,
    {
        at = at - 1;
    }
    list.insert(at, place);
    proof {
        placed_at(places(before), wanted@, place as int, at as int);
        assert(places(list@) =~= places(before).insert(at as int, place as int));
    }
}

/// A place stands where all behind it have a lower score and the one before it has not.
proof fn placed_at(list: Seq<int>, scores: Seq<nat>, place: int, at: int)
    requires
        0 <= at <= list.len(),
        forall|k: int| at <= k < list.len() ==> scores[#[trigger] list[k]] < scores[place],
        at > 0 ==> scores[list[at - 1]] >= scores[place],
    ensures
        placed(list, scores, place) == list.insert(at, place),
    decreases list.len(),
{
    if at == list.len() {
        assert(list.insert(at, place) =~= list.push(place));
    } else {
        let last = list.last();
        assert(scores[list[list.len() - 1]] < scores[place]);
        placed_at(list.drop_last(), scores, place, at);
        assert(list.drop_last().insert(at, place).push(last) =~= list.insert(at, place));
    }
}

/// Whether a place stands rightly before another one: its score is higher, or the scores are
/// equal and it came first.
pub open spec fn ranks_before(scores: Seq<nat>, a: int, b: int) -> bool {
    scores[a] > scores[b] || scores[a] == scores[b] && a < b
}

proof fn placed_keeps_rank(list: Seq<int>, scores: Seq<nat>, place: int)
    requires
        forall|i: int, j: int| 0 <= i < j < list.len() ==> ranks_before(scores, #[trigger] list[i], #[trigger] list[j]),
        forall|k: int| 0 <= k < list.len() ==> #[trigger] list[k] < place,
    ensures
        forall|i: int, j: int| 0 <= i < j < placed(list, scores, place).len() ==> ranks_before(scores, #[trigger] placed(list, scores, place)[i], #[trigger] placed(list, scores, place)[j]),
        forall|p: int| #[trigger] placed(list, scores, place).contains(p) <==> list.contains(p) || p == place,
    decreases list.len(),
{
    let result = placed(list, scores, place);
    if list.len() == 0 || scores[list.last()] >= scores[place] {
        assert forall|p: int| #[trigger] result.contains(p) <==> list.contains(p) || p == place by {
            if list.contains(p) {
                let k = choose|k: int| 0 <= k < list.len() && list[k] == p;
                assert(result[k] == p);
            }
            if p == place {
                assert(result[list.len() as int] == p);
            }
        }
        assert forall|i: int, j: int| 0 <= i < j < result.len() implies ranks_before(scores, #[trigger] result[i], #[trigger] result[j]) by {
            if j < list.len() {
                assert(ranks_before(scores, list[i], list[j]));
            } else if i < list.len() - 1 {
                assert(ranks_before(scores, list[i], list[list.len() - 1]));
            }
        }
    } else {
        let rest = list.drop_last();
        let last = list.last();
        assert forall|i: int, j: int| 0 <= i < j < rest.len() implies ranks_before(scores, #[trigger] rest[i], #[trigger] rest[j]) by {
            assert(ranks_before(scores, list[i], list[j]));
        }
        placed_keeps_rank(rest, scores, place);
        let inner = placed(rest, scores, place);
        assert(result == inner.push(last));
        assert forall|p: int| #[trigger] result.contains(p) <==> list.contains(p) || p == place by {
            if result.contains(p) {
                let k = choose|k: int| 0 <= k < result.len() && result[k] == p;
                if k < inner.len() {
                    assert(inner[k] == p);
                    assert(inner.contains(p));
                    if rest.contains(p) {
                        let m = choose|m: int| 0 <= m < rest.len() && rest[m] == p;
                        assert(list[m] == p);
                    }
                } else {
                    assert(list[list.len() - 1] == p);
                }
            }
            if list.contains(p) {
                let m = choose|m: int| 0 <= m < list.len() && list[m] == p;
                if m < rest.len() {
                    assert(rest[m] == p);
                    assert(inner.contains(p));
                    let k = choose|k: int| 0 <= k < inner.len() && inner[k] == p;
                    assert(result[k] == p);
                } else {
                    assert(result[inner.len() as int] == p);
                }
            }
            if p == place {
                assert(inner.contains(p));
                let k = choose|k: int| 0 <= k < inner.len() && inner[k] == p;
                assert(result[k] == p);
            }
        }
        assert forall|i: int, j: int| 0 <= i < j < result.len() implies ranks_before(scores, #[trigger] result[i], #[trigger] result[j]) by {
            if j < inner.len() {
                assert(ranks_before(scores, inner[i], inner[j]));
            } else {
                assert(inner.contains(inner[i]));
                if inner[i] != place {
                    let m = choose|m: int| 0 <= m < rest.len() && rest[m] == inner[i];
                    assert(ranks_before(scores, list[m], list[list.len() - 1]));
                }
            }
        }
    }
}

proof fn ranking_ranks(scores: Seq<nat>, count: nat)
    requires
        count <= scores.len(),
    ensures
        forall|i: int, j: int| 0 <= i < j < ranking(scores, count).len() ==> ranks_before(scores, #[trigger] ranking(scores, count)[i], #[trigger] ranking(scores, count)[j]),
        forall|p: int| #[trigger] ranking(scores, count).contains(p) <==> 0 <= p < count && scores[p] > 0,
    decreases count,
{
    if count > 0 {
        let before = ranking(scores, (count - 1) as nat);
        ranking_ranks(scores, (count - 1) as nat);
        if scores[count - 1] > 0 {
            assert forall|k: int| 0 <= k < before.len() implies #[trigger] before[k] < count - 1 by {
                assert(before.contains(before[k]));
            }
            placed_keeps_rank(before, scores, count - 1);
        }
    }
}

/// A search finds the sessions with points and no others, the better ones first; of two with
/// the same points the one that stood first comes first.
pub proof fn found_sessions_are_ranked(cards: Seq<SessionCardView>, query: Seq<char>)
    requires
        !is_blank(query),
    ensures
        forall|p: int| #[trigger] ranked(cards, query).contains(p) <==> 0 <= p < cards.len() && search_score(cards[p], query) > 0,
        forall|i: int, j: int| 0 <= i < j < ranked(cards, query).len() ==> ranks_before(
            scores_of(cards, query),
            #[trigger] ranked(cards, query)[i],
            #[trigger] ranked(cards, query)[j],
        ),
{
    ranking_ranks(scores_of(cards, query), cards.len());
    assert forall|p: int| 0 <= p < cards.len() implies (scores_of(cards, query)[p] > 0 <==> search_score(cards[p], query) > 0) by {
        assert(scores_of(cards, query)[p] == capped(search_score(cards[p], query)));
    }
}

/// A blank query finds all sessions as they stand.
pub proof fn blank_queries_find_all(cards: Seq<SessionCardView>, query: Seq<char>)
    requires
        is_blank(query),
    ensures
        ranked(cards, query).len() == cards.len(),
        forall|i: int| 0 <= i < cards.len() ==> ranked(cards, query)[i] == i,
{
}

// ---------------------------------------------------------------------------
// Models and catalogues
// ---------------------------------------------------------------------------

/// Whether a query finds a model.
pub open spec fn finds_model(choice: ModelChoiceView, query: Seq<char>) -> bool {
    query.len() == 0 || contains(lower(choice.selector), query) || contains(
        lower(choice.model),
        query,
    ) || contains(lower(choice.provider_display), query)
}

/// Whether a query, in lower case, finds a model.
pub fn model_matches(choice: &ModelChoice, query: &str) -> (result: bool)
    ensures
        result == finds_model(choice@, query@),
{
    query.is_empty() || has(&to_lower(&choice.selector), query) || has(
        &to_lower(&choice.model),
        query,
    ) || has(&to_lower(&choice.provider_display), query)
}

/// Whether a query finds an entry of a catalogue.
pub open spec fn finds_entry(id: Seq<char>, name: Seq<char>, query: Seq<char>) -> bool {
    query.len() == 0 || contains(lower(id), query) || contains(lower(name), query)
}

/// Whether a query, in lower case, finds an entry of a catalogue.
pub fn catalog_matches(id: &str, name: &str, query: &str) -> (result: bool)
    ensures
        result == finds_entry(id@, name@, query@),
{
    query.is_empty() || has(&to_lower(id), query) || has(&to_lower(name), query)
}

} // verus!
