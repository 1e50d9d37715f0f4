//! What the operations on texts are for.

use vstd::prelude::*;
use crate::json::bool_of;
use crate::json::field;
use crate::json::member;
use crate::json::text_of;
use crate::json::texts_among;
use crate::json::u64_of;
use crate::json::JsonView;
use crate::json_ops::assigned;
use crate::numbers::decimal;
use crate::numbers::decimal_is_digits;
use crate::numbers::decimal_reads_back;
use crate::numbers::parsed;
use crate::order::precedes;
use crate::pieces::cut_once;
use crate::pieces::first_position_is_first;
use crate::pieces::lines;
use crate::pieces::split_on;
use crate::pieces::words;
use crate::table::lookup;
use crate::table::put;
use crate::table::without;
use crate::text::contains;
use crate::text::ends_with;
use crate::text::first_chars;
use crate::text::is_blank;
use crate::text::is_digit;
use crate::text::is_space;
use crate::text::joined;
use crate::text::lower;
use crate::text::lower_char;
use crate::text::occurs_at;
use crate::text::starts_with;
use crate::text::trimmed;
use crate::text::trimmed_end;
use crate::text::trimmed_start;

verus! {

/// A text is contained in whatever stands around it.
pub proof fn parts_are_contained(before: Seq<char>, part: Seq<char>, after: Seq<char>)
    ensures
        contains(before + part + after, part),
        starts_with(part + after, part),
        ends_with(before + part, part),
{
    let all = before + part + after;
    let at = before.len() as int;
    assert(all.subrange(at, at + part.len()) =~= part);
    assert(occurs_at(all, part, at));
    assert((part + after).take(part.len() as int) =~= part);
    assert((before + part).skip(before.len() as int) =~= part);
}

/// A text that is contained in another stands somewhere in it, with the rest around it.
pub proof fn contained_parts_stand_somewhere(whole: Seq<char>, part: Seq<char>)
    requires
        contains(whole, part),
    ensures
        exists|at: int|
            0 <= at && at + part.len() <= whole.len() && whole == #[trigger] whole.take(at) + part
                + whole.skip(at + part.len()),
{
    let at = choose|i: int| occurs_at(whole, part, i);
    assert(whole =~= whole.take(at) + part + whole.skip(at + part.len()));
}

/// What is contained in a part is contained in the whole.
pub proof fn contained_in_contained(whole: Seq<char>, part: Seq<char>, inner: Seq<char>)
    requires
        contains(whole, part),
        contains(part, inner),
    ensures
        contains(whole, inner),
{
    let i = choose|i: int| occurs_at(whole, part, i);
    let j = choose|j: int| occurs_at(part, inner, j);
    assert(whole.subrange(i + j, i + j + inner.len()) =~= part.subrange(j, j + inner.len()));
    assert(occurs_at(whole, inner, i + j));
}

/// Texts that are joined stand in the result.
pub proof fn joined_holds_its_parts(parts: Seq<Seq<char>>, separator: Seq<char>, i: int)
    requires
        0 <= i < parts.len(),
    ensures
        contains(joined(parts, separator), parts[i]),
    decreases parts.len(),
{
    let whole = joined(parts, separator);
    if parts.len() == 1 {
        parts_are_contained(Seq::empty(), parts[0], Seq::empty());
        assert(Seq::<char>::empty() + parts[0] + Seq::<char>::empty() =~= whole);
    } else {
        let before = joined(parts.drop_last(), separator);
        if i < parts.len() - 1 {
            joined_holds_its_parts(parts.drop_last(), separator, i);
            parts_are_contained(Seq::empty(), before, separator + parts.last());
            assert(Seq::<char>::empty() + before + (separator + parts.last()) =~= whole);
            contained_in_contained(whole, before, parts[i]);
        } else {
            parts_are_contained(before + separator, parts[i], Seq::empty());
            assert(before + separator + parts[i] + Seq::<char>::empty() =~= whole);
        }
    }
}

proof fn leading_blanks_go(s: Seq<char>)
    ensures
        ends_with(s, trimmed_start(s)),
        forall|i: int|
            0 <= i < s.len() - trimmed_start(s).len() ==> is_space(#[trigger] s[i]),
        trimmed_start(s).len() > 0 ==> !is_space(trimmed_start(s)[0]),
    decreases s.len(),
{
    if s.len() > 0 && is_space(s[0]) {
        let rest = s.skip(1);
        leading_blanks_go(rest);
        let kept = trimmed_start(s);
        assert(s.skip(s.len() - kept.len()) =~= rest.skip(rest.len() - kept.len()));
        assert forall|i: int| 0 <= i < s.len() - kept.len() implies is_space(#[trigger] s[i]) by {
            if i > 0 {
                assert(rest[i - 1] == s[i]);
            }
        }
    } else {
        assert(s.skip(0) =~= s);
    }
}

proof fn trailing_blanks_go(s: Seq<char>)
    ensures
        starts_with(s, trimmed_end(s)),
        forall|i: int| trimmed_end(s).len() <= i < s.len() ==> is_space(#[trigger] s[i]),
        trimmed_end(s).len() > 0 ==> !is_space(trimmed_end(s).last()),
    decreases s.len(),
{
    if s.len() > 0 && is_space(s.last()) {
        let rest = s.drop_last();
        trailing_blanks_go(rest);
        let kept = trimmed_end(s);
        assert(s.take(kept.len() as int) =~= rest.take(kept.len() as int));
        assert forall|i: int| kept.len() <= i < s.len() implies is_space(#[trigger] s[i]) by {
            if i < s.len() - 1 {
                assert(rest[i] == s[i]);
            }
        }
    } else {
        assert(s.take(s.len() as int) =~= s);
    }
}

/// A trimmed text is the text with nothing but white space gone from around it: it stands in the
/// text, neither begins nor ends with white space, and what was there before and behind it was
/// white space. A text is blank where nothing is left.
pub proof fn trimming_takes_blanks_only(s: Seq<char>)
    ensures
        exists|at: int|
            0 <= at && at + trimmed(s).len() <= s.len() && #[trigger] s.subrange(
                at,
                at + trimmed(s).len(),
            ) == trimmed(s) && (forall|i: int| 0 <= i < at ==> is_space(#[trigger] s[i]))
                && (forall|i: int| at + trimmed(s).len() <= i < s.len() ==> is_space(
                #[trigger] s[i],
            )),
        trimmed(s).len() > 0 ==> !is_space(trimmed(s)[0]) && !is_space(trimmed(s).last()),
        is_blank(s) <==> trimmed(s).len() == 0,
        is_blank(s) <==> forall|i: int| 0 <= i < s.len() ==> is_space(#[trigger] s[i]),
{
    reveal(is_blank);
    leading_blanks_go(s);
    let tail = trimmed_start(s);
    trailing_blanks_go(tail);
    let at = s.len() - tail.len();
    let kept = trimmed(s);
    assert(s.skip(at) =~= tail);
    assert(s.subrange(at, at + kept.len()) =~= tail.take(kept.len() as int));
    assert forall|i: int| at + kept.len() <= i < s.len() implies is_space(#[trigger] s[i]) by {
        assert(tail[i - at] == s[i]);
    }
    if kept.len() > 0 {
        assert(kept[0] == tail[0]);
        assert(!is_space(s[at]));
    }
}

/// White space is what separates words: blanks, tabs and line ends, and no letter, digit or
/// other visible sign of ASCII.
pub proof fn visible_signs_are_no_space(c: char)
    ensures
        is_space(' '),
        is_space('\t'),
        is_space('\n'),
        is_space('\r'),
        '!' <= c && c <= '~' ==> !is_space(c),
{
}

/// Writing a text in lower case changes capital letters of ASCII to small ones and nothing
/// else.
pub proof fn lower_case_changes_capitals_only(s: Seq<char>, i: int)
    requires
        0 <= i < s.len(),
    ensures
        lower(s).len() == s.len(),
        !('A' <= s[i] && s[i] <= 'Z') ==> lower(s)[i] == s[i],
        'A' <= s[i] && s[i] <= 'Z' ==> 'a' <= lower(s)[i] && lower(s)[i] <= 'z' && lower(s)[i] as int
            - 'a' as int == s[i] as int - 'A' as int,
        lower(lower(s)) == lower(s),
{
    assert(lower(lower(s)) =~= lower(s)) by {
        assert forall|k: int| 0 <= k < s.len() implies lower(lower(s))[k] == lower(s)[k] by {
            assert(lower(s)[k] == lower_char(s[k]));
        }
    }
}

/// The first characters of a text are its beginning, as long as asked for.
pub proof fn first_chars_are_the_beginning(s: Seq<char>, n: nat)
    ensures
        first_chars(s, n).is_prefix_of(s),
        first_chars(s, n).len() == if s.len() < n {
            s.len()
        } else {
            n
        },
{
}

/// Cutting a text at a separator gives what stands before its first place and what stands
/// behind it.
pub proof fn cuts_are_at_the_first_place(s: Seq<char>, separator: char)
    ensures
        match cut_once(s, separator) {
            Some((head, tail)) => s == head.push(separator) + tail && !head.contains(separator),
            None => !s.contains(separator),
        },
{
    first_position_is_first(s, separator);
    if let Some((head, tail)) = cut_once(s, separator) {
        assert(s =~= head.push(separator) + tail);
    }
}

/// A number is written with digits, without a leading zero, and read back; a text that is no
/// number, and a number that is too large, are not read.
pub proof fn numbers_are_read_and_written(n: nat, max: nat, text: Seq<char>)
    ensures
        parsed(decimal(n), max) == (if n <= max {
            Some(n)
        } else {
            None
        }),
        parsed(seq!['+'] + decimal(n), max) == (if n <= max {
            Some(n)
        } else {
            None
        }),
        n > 0 ==> decimal(n)[0] != '0',
        text.len() == 0 ==> parsed(text, max) is None,
        (exists|i: int| 1 <= i < text.len() && !is_digit(#[trigger] text[i])) ==> parsed(text, max)
            is None,
        text.len() > 0 && !is_digit(text[0]) && text[0] != '+' ==> parsed(text, max) is None,
{
    decimal_is_digits(n);
    decimal_reads_back(n);
    assert(is_digit(decimal(n)[0]));
    let signed = seq!['+'] + decimal(n);
    assert(signed.skip(1) =~= decimal(n));
    if n > 0 {
        first_digit_is_no_zero(n);
    }
    if exists|i: int| 1 <= i < text.len() && !is_digit(#[trigger] text[i]) {
        let i = choose|i: int| 1 <= i < text.len() && !is_digit(#[trigger] text[i]);
        let digits = crate::numbers::without_plus(text);
        if text[0] == '+' {
            assert(digits[i - 1] == text[i]);
        }
    }
}

proof fn first_digit_is_no_zero(n: nat)
    requires
        n > 0,
    ensures
        decimal(n).len() > 0,
        decimal(n)[0] != '0',
    decreases n,
{
    if n >= 10 {
        first_digit_is_no_zero(n / 10);
    }
}

/// Texts are ordered by their first difference, and a text stands before whatever it begins.
pub proof fn texts_are_ordered_by_their_first_difference(
    common: Seq<char>,
    one: Seq<char>,
    other: Seq<char>,
)
    ensures
        one.len() > 0 ==> precedes(common, common + one),
        one.len() > 0 && other.len() > 0 && one[0] < other[0] ==> precedes(
            common + one,
            common + other,
        ),
        !precedes(common, common),
    decreases common.len(),
{
    if common.len() > 0 {
        let rest = common.skip(1);
        texts_are_ordered_by_their_first_difference(rest, one, other);
        assert((common + one).skip(1) =~= rest + one);
        assert((common + other).skip(1) =~= rest + other);
    } else {
        assert(common + one =~= one);
        assert(common + other =~= other);
    }
}

/// A key is found in a table exactly where a row has it, with the value of the first such row.
pub proof fn keys_are_found_in_their_rows<T>(pairs: Seq<(Seq<char>, T)>, key: Seq<char>)
    ensures
        match lookup(pairs, key) {
            Some(value) => exists|i: int|
                0 <= i < pairs.len() && #[trigger] pairs[i] == (key, value) && forall|k: int|
                    0 <= k < i ==> (#[trigger] pairs[k]).0 != key,
            None => forall|i: int| 0 <= i < pairs.len() ==> (#[trigger] pairs[i]).0 != key,
        },
    decreases pairs.len(),
{
    if pairs.len() > 0 && pairs[0].0 != key {
        let rest = pairs.skip(1);
        keys_are_found_in_their_rows(rest, key);
        match lookup(pairs, key) {
            Some(value) => {
                let i = choose|i: int|
                    0 <= i < rest.len() && #[trigger] rest[i] == (key, value) && forall|k: int|
                        0 <= k < i ==> (#[trigger] rest[k]).0 != key;
                assert(pairs[i + 1] == (key, value));
                assert forall|k: int| 0 <= k < i + 1 implies (#[trigger] pairs[k]).0 != key by {
                    if k > 0 {
                        assert(rest[k - 1] == pairs[k]);
                    }
                }
            },
            None => {
                assert forall|i: int| 0 <= i < pairs.len() implies (#[trigger] pairs[i]).0
                    != key by {
                    if i > 0 {
                        assert(rest[i - 1] == pairs[i]);
                    }
                }
            },
        }
    } else if pairs.len() > 0 {
        assert(pairs[0] == (key, pairs[0].1));
    }
}

proof fn last_row<T>(pairs: Seq<(Seq<char>, T)>, key: Seq<char>)
    requires
        pairs.len() > 0,
    ensures
        lookup(pairs, key) == (match lookup(pairs.drop_last(), key) {
            Some(value) => Some(value),
            None => if pairs.last().0 == key {
                Some(pairs.last().1)
            } else {
                None
            },
        }),
    decreases pairs.len(),
{
    if pairs.len() > 1 && pairs[0].0 != key {
        last_row(pairs.skip(1), key);
        assert(pairs.skip(1).drop_last() =~= pairs.drop_last().skip(1));
    } else if pairs.len() == 1 {
        assert(pairs.skip(1).len() == 0);
        assert(lookup(pairs.skip(1), key) is None);
        assert(pairs.drop_last().len() == 0);
    } else {
        assert(pairs.drop_last()[0] == pairs[0]);
    }
}

/// Removing a key from a table leaves what the other keys give.
pub proof fn removals_touch_one_key<T>(pairs: Seq<(Seq<char>, T)>, key: Seq<char>, other: Seq<char>)
    ensures
        lookup(without(pairs, key), key) is None,
        other != key ==> lookup(without(pairs, key), other) == lookup(pairs, other),
    decreases pairs.len(),
{
    if pairs.len() > 0 {
        removals_touch_one_key(pairs.drop_last(), key, other);
        last_row(pairs, key);
        last_row(pairs, other);
        let kept = without(pairs.drop_last(), key);
        if pairs.last().0 != key {
            let all = kept.push(pairs.last());
            assert(all.drop_last() =~= kept);
            last_row(all, key);
            last_row(all, other);
        }
    }
}

/// A key that a table lacks adds one row to it, and a key that it has adds none.
pub proof fn puts_add_at_most_one_row<T>(pairs: Seq<(Seq<char>, T)>, key: Seq<char>, value: T)
    ensures
        pairs.len() <= put(pairs, key, value).len() <= pairs.len() + 1,
    decreases pairs.len(),
{
    if pairs.len() > 0 {
        puts_add_at_most_one_row(pairs.skip(1), key, value);
    }
}

/// A member of an object is the value of the first field with its name; what is no object has
/// none.
pub proof fn members_are_found_by_name(fields: Seq<(Seq<char>, JsonView)>, key: Seq<char>)
    ensures
        match member(JsonView::Object(fields), key) {
            Some(value) => exists|i: int|
                0 <= i < fields.len() && #[trigger] fields[i] == (key, value) && forall|k: int|
                    0 <= k < i ==> (#[trigger] fields[k]).0 != key,
            None => forall|i: int| 0 <= i < fields.len() ==> (#[trigger] fields[i]).0 != key,
        },
        member(JsonView::Array(seq![JsonView::Object(fields)]), key) is None,
        member(JsonView::Null, key) is None,
        member(JsonView::Text(key), key) is None,
{
    fields_are_rows(fields, key);
    keys_are_found_in_their_rows(fields, key);
}

proof fn fields_are_rows(fields: Seq<(Seq<char>, JsonView)>, key: Seq<char>)
    ensures
        field(fields, key) == lookup(fields, key),
    decreases fields.len(),
{
    if fields.len() > 0 {
        fields_are_rows(fields.skip(1), key);
    }
}

/// The field at a place is the member under its name, where no earlier field has the name.
pub proof fn member_at(fields: Seq<(Seq<char>, JsonView)>, i: int)
    requires
        0 <= i < fields.len(),
        forall|k: int| 0 <= k < i ==> (#[trigger] fields[k]).0 != fields[i].0,
    ensures
        member(JsonView::Object(fields), fields[i].0) == Some(fields[i].1),
    decreases fields.len(),
{
    if i > 0 {
        let rest = fields.skip(1);
        assert(rest[i - 1] == fields[i]);
        assert forall|k: int| 0 <= k < i - 1 implies (#[trigger] rest[k]).0 != rest[i - 1].0 by {
            assert(rest[k] == fields[k + 1]);
        }
        member_at(rest, i - 1);
        assert(fields[0].0 != fields[i].0);
    }
}

/// Texts, switches and numbers are read as what they are, and only as that.
pub proof fn values_are_read_as_they_are(text: Seq<char>, switch: bool, n: nat)
    ensures
        text_of(Some(JsonView::Text(text))) == Some(text),
        text_of(Some(JsonView::Number(text))) is None,
        text_of(None) is None,
        bool_of(Some(JsonView::Bool(switch))) == Some(switch),
        bool_of(Some(JsonView::Text(text))) is None,
        n <= u64::MAX ==> u64_of(Some(JsonView::Number(decimal(n)))) == Some(n),
        n > u64::MAX ==> u64_of(Some(JsonView::Number(decimal(n)))) is None,
        u64_of(Some(JsonView::Text(text))) is None,
{
    decimal_is_digits(n);
    decimal_reads_back(n);
}

/// The texts among values are those values that are texts, in order.
pub proof fn texts_are_picked_in_order(items: Seq<JsonView>, text: Seq<char>, other: JsonView)
    requires
        !(other is Text),
    ensures
        texts_among(items.push(JsonView::Text(text))) == texts_among(items).push(text),
        texts_among(items.push(other)) == texts_among(items),
        texts_among(Seq::empty()).len() == 0,
{
    assert(items.push(JsonView::Text(text)).drop_last() =~= items);
    assert(items.push(other).drop_last() =~= items);
}

/// A field that is assigned is read back, and the other fields keep their values.
pub proof fn assigned_fields_are_read_back(
    fields: Seq<(Seq<char>, JsonView)>,
    key: Seq<char>,
    value: JsonView,
    other: Seq<char>,
)
    ensures
        member(assigned(JsonView::Object(fields), key, value), key) == Some(value),
        other != key ==> member(assigned(JsonView::Object(fields), key, value), other) == member(
            JsonView::Object(fields),
            other,
        ),
{
    let now = put(fields, key, value);
    fields_are_rows(now, key);
    fields_are_rows(now, other);
    fields_are_rows(fields, other);
    crate::table::put_is_found(fields, key, value, other);
}

/// A text of words with a blank between each two has these words; a word is not empty and holds no
/// white space.
pub proof fn words_are_the_visible_parts(parts: Seq<Seq<char>>)
    requires
        forall|i: int| 0 <= i < parts.len() ==> crate::pieces::is_word(#[trigger] parts[i]),
    ensures
        words(joined(parts, seq![' '])) == parts,
        forall|i: int|
            0 <= i < parts.len() ==> (#[trigger] parts[i]).len() > 0 && forall|k: int|
                0 <= k < parts[i].len() ==> !is_space(#[trigger] parts[i][k]),
{
    crate::pieces::joined_words_are_words(parts);
}

proof fn lines_of_one(s: Seq<char>)
    requires
        !s.contains('\n'),
    ensures
        split_on(s, |c: char| c == '\n') == seq![s],
{
    let cut = |c: char| c == '\n';
    let parts = seq![s];
    assert forall|i: int| 0 <= i < parts.len() implies crate::pieces::uncut(
        #[trigger] parts[i],
        cut,
    ) by {
        assert forall|k: int| 0 <= k < s.len() implies !cut(#[trigger] s[k]) by {
            if s[k] == '\n' {
                assert(s.contains('\n'));
            }
        }
    }
    crate::pieces::joined_is_cut_again(parts, '\n', cut);
    assert(joined(parts, seq!['\n']) =~= s);
}

/// A text without a line end is one line; an empty text has none.
pub proof fn texts_are_cut_into_lines(s: Seq<char>)
    requires
        !s.contains('\n'),
    ensures
        s.len() > 0 ==> lines(s) == seq![s],
        s.len() == 0 ==> lines(s).len() == 0,
{
    lines_of_one(s);
    let parts = split_on(s, |c: char| c == '\n');
    assert(parts.len() == 1 && parts.last() == s);
    if s.len() > 0 {
        assert(lines(s) =~= seq![s]);
    }
}

} // verus!
