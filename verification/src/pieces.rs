//! Cutting a text into pieces: at a separator, into words, into lines.

use vstd::prelude::*;
use crate::text::chars_of;
use crate::text::is_space;
use crate::text::is_space_char;
use crate::text::join;
use crate::text::joined;
use crate::text::string_of;
use crate::text::texts;
use crate::text::texts_empty;
use crate::text::texts_push;

verus! {

broadcast use {texts_push, texts_empty};

/// The pieces between the characters that `cut` accepts. A text without any is one piece.
pub open spec fn split_on(s: Seq<char>, cut: spec_fn(char) -> bool) -> Seq<Seq<char>>
    decreases s.len(),
{
    if s.len() == 0 {
        seq![Seq::<char>::empty()]
    } else {
        let before = split_on(s.drop_last(), cut);
        if cut(s.last()) {
            before.push(Seq::empty())
        } else {
            before.drop_last().push(before.last().push(s.last()))
        }
    }
}

/// There is always at least one piece.
pub proof fn split_on_nonempty(s: Seq<char>, cut: spec_fn(char) -> bool)
    ensures
        split_on(s, cut).len() >= 1,
    decreases s.len(),
{
    if s.len() > 0 {
        split_on_nonempty(s.drop_last(), cut);
    }
}

/// The pieces that are not empty.
pub open spec fn non_empty(parts: Seq<Seq<char>>) -> Seq<Seq<char>>
    decreases parts.len(),
{
    if parts.len() == 0 {
        Seq::empty()
    } else if parts.last().len() == 0 {
        non_empty(parts.drop_last())
    } else {
        non_empty(parts.drop_last()).push(parts.last())
    }
}

/// The words of a text: its longest runs without white space.
pub open spec fn words(s: Seq<char>) -> Seq<Seq<char>> {
    non_empty(split_on(s, |c: char| is_space(c)))
}

/// Keeps the strings that are not empty.
pub fn keep_non_empty(parts: Vec<String>) -> (result: Vec<String>)
    ensures
        texts(result@) == non_empty(texts(parts@)),
{
    let mut result: Vec<String> = Vec::new();
    let mut i: usize = 0;
    while i < parts.len()
        invariant
            i <= parts@.len(),
            texts(result@) == non_empty(texts(parts@).take(i as int)),
        decreases parts@.len() - i,
    {
        let ghost after = texts(parts@).take(i + 1);
        assert(after.drop_last() =~= texts(parts@).take(i as int));
        assert(after.last() == parts@[i as int]@);
        if !parts[i].as_str().is_empty() {
            result.push(parts[i].clone());
        }
        i = i + 1;
    }
    assert(texts(parts@).take(i as int) =~= texts(parts@));
    result
}

/// The words of `text`, in order.
pub fn split_words(text: &str) -> (result: Vec<String>)
    ensures
        texts(result@) == words(text@),
{
    let chars = chars_of(text);
    let ghost cut = |c: char| is_space(c);
    let mut parts: Vec<String> = Vec::new();
    let mut current: Vec<char> = Vec::new();
    let mut i: usize = 0;
    assert(chars@.take(0) =~= Seq::<char>::empty());
    assert(split_on(chars@.take(0), cut) =~= seq![Seq::<char>::empty()]);
    while i < chars.len()
        invariant
            i <= chars@.len(),
            cut == (|c: char| is_space(c)),
            texts(parts@).push(current@) == split_on(chars@.take(i as int), cut),
        decreases chars@.len() - i,
    {
        let ghost whole = chars@.take(i + 1);
        assert(whole.drop_last() =~= chars@.take(i as int));
        assert(texts(parts@).push(current@).drop_last() =~= texts(parts@));
        if is_space_char(chars[i]) {
            parts.push(string_of(&current));
            current = Vec::new();
        } else {
            current.push(chars[i]);
        }
        assert(texts(parts@).push(current@) =~= split_on(whole, cut));
        i = i + 1;
    }
    assert(chars@.take(i as int) =~= chars@);
    parts.push(string_of(&current));
    keep_non_empty(parts)
}

/// Cuts `text` at each occurrence of `separator`.
pub fn split_char(text: &str, separator: char) -> (result: Vec<String>)
    ensures
        texts(result@) == split_on(text@, |c: char| c == separator),
{
    let chars = chars_of(text);
    let ghost cut = |c: char| c == separator;
    let mut parts: Vec<String> = Vec::new();
    let mut current: Vec<char> = Vec::new();
    let mut i: usize = 0;
    assert(chars@.take(0) =~= Seq::<char>::empty());
    assert(split_on(chars@.take(0), cut) =~= seq![Seq::<char>::empty()]);
    while i < chars.len()
        invariant
            i <= chars@.len(),
            cut == (|c: char| c == separator),
            texts(parts@).push(current@) == split_on(chars@.take(i as int), cut),
        decreases chars@.len() - i,
    {
        let ghost whole = chars@.take(i + 1);
        assert(whole.drop_last() =~= chars@.take(i as int));
        assert(texts(parts@).push(current@).drop_last() =~= texts(parts@));
        if chars[i] == separator {
            parts.push(string_of(&current));
            current = Vec::new();
        } else {
            current.push(chars[i]);
        }
        assert(texts(parts@).push(current@) =~= split_on(whole, cut));
        i = i + 1;
    }
    assert(chars@.take(i as int) =~= chars@);
    parts.push(string_of(&current));
    parts
}

/// A line without the carriage return that stands before its line feed.
pub open spec fn without_return(s: Seq<char>) -> Seq<char> {
    if s.len() > 0 && s.last() == '\r' {
        s.drop_last()
    } else {
        s
    }
}

/// The lines of a text. A line ends at a line feed, with or without a carriage return
/// before it; text behind the last line feed is one more line unless it is empty.
pub open spec fn lines(s: Seq<char>) -> Seq<Seq<char>> {
    let parts = split_on(s, |c: char| c == '\n');
    let ended = Seq::new((parts.len() - 1) as nat, |i: int| without_return(parts[i]));
    if parts.last().len() == 0 {
        ended
    } else {
        ended.push(parts.last())
    }
}

/// Removes one carriage return from the end of `text`.
pub fn strip_return(text: &String) -> (result: String)
    ensures
        result@ == without_return(text@),
{
    let mut chars = chars_of(text);
    if chars.len() > 0 && chars[chars.len() - 1] == '\r' {
        chars.pop();
        assert(chars@ =~= text@.drop_last());
    }
    string_of(&chars)
}

/// The lines of `text`, in order.
pub fn split_lines(text: &str) -> (result: Vec<String>)
    ensures
        texts(result@) == lines(text@),
{
    let parts = split_char(text, '\n');
    let ghost pieces = split_on(text@, |c: char| c == '\n');
    proof {
        split_on_nonempty(text@, |c: char| c == '\n');
        assert(parts@.len() == pieces.len());
    }
    let last: usize = parts.len() - 1;
    let mut result: Vec<String> = Vec::new();
    let ghost ended = Seq::new(last as nat, |i: int| without_return(pieces[i]));
    let mut i: usize = 0;
    while i < last
        invariant
            i <= last,
            last == parts@.len() - 1,
            texts(parts@) == pieces,
            ended == Seq::new(last as nat, |i: int| without_return(pieces[i])),
            texts(result@) == ended.take(i as int),
        decreases last - i,
    {
        assert(parts@[i as int]@ == pieces[i as int]);
        result.push(strip_return(&parts[i]));
        assert(ended.take(i + 1) =~= ended.take(i as int).push(ended[i as int]));
        i = i + 1;
    }
    assert(ended.take(i as int) =~= ended);
    assert(parts@[last as int]@ == pieces[last as int]);
    if !parts[last].as_str().is_empty() {
        result.push(parts[last].clone());
    }
    result
}

/// The position of the first `separator` in a text.
pub open spec fn first_position(s: Seq<char>, separator: char) -> Option<int>
    decreases s.len(),
{
    if s.len() == 0 {
        None
    } else if s[0] == separator {
        Some(0)
    } else {
        match first_position(s.skip(1), separator) {
            Some(i) => Some(i + 1),
            None => None,
        }
    }
}

/// The position that `first_position` gives is the first one.
pub proof fn first_position_is_first(s: Seq<char>, separator: char)
    ensures
        match first_position(s, separator) {
            Some(i) => 0 <= i < s.len() && s[i] == separator && forall|k: int|
                0 <= k < i ==> s[k] != separator,
            None => forall|k: int| 0 <= k < s.len() ==> s[k] != separator,
        },
    decreases s.len(),
{
    if s.len() > 0 && s[0] != separator {
        first_position_is_first(s.skip(1), separator);
        assert forall|k: int| 0 < k < s.len() implies s[k] == s.skip(1)[k - 1] by {}
        match first_position(s.skip(1), separator) {
            Some(i) => {
                assert(s[i + 1] == separator);
                assert forall|k: int| 0 <= k < i + 1 implies s[k] != separator by {
                    if k > 0 {
                        assert(s[k] == s.skip(1)[k - 1]);
                    }
                }
            },
            None => {
                assert forall|k: int| 0 <= k < s.len() implies s[k] != separator by {
                    if k > 0 {
                        assert(s[k] == s.skip(1)[k - 1]);
                    }
                }
            },
        }
    }
}

/// The text before and the text behind the first `separator`.
pub open spec fn cut_once(s: Seq<char>, separator: char) -> Option<(Seq<char>, Seq<char>)> {
    match first_position(s, separator) {
        Some(i) => Some((s.take(i), s.skip(i + 1))),
        None => None,
    }
}

/// Cuts `text` at its first `separator`.
pub fn split_once(text: &str, separator: char) -> (result: Option<(String, String)>)
    ensures
        match result {
            Some(pair) => cut_once(text@, separator) == Some((pair.0@, pair.1@)),
            None => cut_once(text@, separator) is None,
        },
{
    let chars = chars_of(text);
    proof {
        first_position_is_first(chars@, separator);
    }
    let mut i: usize = 0;
    while i < chars.len()
        invariant
            i <= chars@.len(),
            chars@ == text@,
            forall|k: int| 0 <= k < i ==> chars@[k] != separator,
        decreases chars@.len() - i,
    {
        if chars[i] == separator {
            proof {
                first_position_is_first(chars@, separator);
            }
            assert(first_position(chars@, separator) == Some(i as int));
            let mut head: Vec<char> = Vec::new();
            let mut j: usize = 0;
            while j < i
                invariant
                    j <= i < chars@.len(),
                    head@ == chars@.take(j as int),
                decreases i - j,
            {
                head.push(chars[j]);
                assert(chars@.take(j + 1) =~= chars@.take(j as int).push(chars@[j as int]));
                j = j + 1;
            }
            let mut tail: Vec<char> = Vec::new();
            j = i + 1;
            while j < chars.len()
                invariant
                    i < j <= chars@.len(),
                    tail@ == chars@.subrange(i + 1, j as int),
                decreases chars@.len() - j,
            {
                tail.push(chars[j]);
                assert(chars@.subrange(i + 1, j + 1) =~= chars@.subrange(i + 1, j as int).push(
                    chars@[j as int],
                ));
                j = j + 1;
            }
            assert(chars@.subrange(i + 1, j as int) =~= chars@.skip(i + 1));
            return Some((string_of(&head), string_of(&tail)));
        }
        i = i + 1;
    }
    None
}

/// Joins the words of `text` with single spaces.
pub fn single_spaced(text: &str) -> (result: String)
    ensures
        result@ == joined(words(text@), " "@),
{
    join(&split_words(text), " ")
}

// ---------------------------------------------------------------------------
// Laws
// ---------------------------------------------------------------------------

/// Whether no character of a text is one that `cut` accepts.
pub open spec fn uncut(s: Seq<char>, cut: spec_fn(char) -> bool) -> bool {
    forall|k: int| 0 <= k < s.len() ==> !cut(#[trigger] s[k])
}

/// No piece holds a character that the text was cut at.
pub proof fn pieces_are_uncut(s: Seq<char>, cut: spec_fn(char) -> bool)
    ensures
        forall|i: int| 0 <= i < split_on(s, cut).len() ==> uncut(#[trigger] split_on(s, cut)[i], cut),
    decreases s.len(),
{
    if s.len() > 0 {
        pieces_are_uncut(s.drop_last(), cut);
        split_on_nonempty(s.drop_last(), cut);
        let before = split_on(s.drop_last(), cut);
        assert(uncut(before.last(), cut));
    }
}

/// Text without a separator goes to the last piece.
proof fn uncut_text_extends(s: Seq<char>, t: Seq<char>, cut: spec_fn(char) -> bool)
    requires
        uncut(t, cut),
    ensures
        split_on(s + t, cut) == split_on(s, cut).drop_last().push(split_on(s, cut).last() + t),
    decreases t.len(),
{
    split_on_nonempty(s, cut);
    let pieces = split_on(s, cut);
    if t.len() == 0 {
        assert(s + t =~= s);
        assert(pieces.last() + t =~= pieces.last());
        assert(pieces.drop_last().push(pieces.last()) =~= pieces);
    } else {
        let u = t.drop_last();
        assert(!cut(t[t.len() - 1]));
        assert forall|k: int| 0 <= k < u.len() implies !cut(#[trigger] u[k]) by {
            assert(u[k] == t[k]);
        }
        uncut_text_extends(s, u, cut);
        assert((s + t).drop_last() =~= s + u);
        let mid = pieces.drop_last().push(pieces.last() + u);
        assert(mid.drop_last() =~= pieces.drop_last());
        assert((pieces.last() + u).push(t.last()) =~= pieces.last() + t);
    }
}

/// Cutting what was joined with a separator gives the parts back.
pub proof fn joined_is_cut_again(parts: Seq<Seq<char>>, separator: char, cut: spec_fn(char) -> bool)
    requires
        parts.len() > 0,
        cut(separator),
        forall|i: int| 0 <= i < parts.len() ==> uncut(#[trigger] parts[i], cut),
    ensures
        split_on(joined(parts, seq![separator]), cut) == parts,
    decreases parts.len(),
{
    if parts.len() == 1 {
        let nothing = Seq::<char>::empty();
        assert(uncut(parts[0], cut));
        uncut_text_extends(nothing, parts[0], cut);
        assert(nothing + parts[0] =~= parts[0]);
        assert(split_on(nothing, cut) =~= seq![nothing]);
        assert(seq![nothing].drop_last().push(nothing + parts[0]) =~= parts);
    } else {
        let front = parts.drop_last();
        assert forall|i: int| 0 <= i < front.len() implies uncut(#[trigger] front[i], cut) by {
            assert(front[i] == parts[i]);
        }
        joined_is_cut_again(front, separator, cut);
        let s = joined(front, seq![separator]) + seq![separator];
        assert(s.drop_last() =~= joined(front, seq![separator]));
        assert(split_on(s, cut) =~= front.push(Seq::empty()));
        assert(uncut(parts[parts.len() - 1], cut));
        uncut_text_extends(s, parts.last(), cut);
        assert(front.push(Seq::empty()).drop_last() =~= front);
        assert(Seq::<char>::empty() + parts.last() =~= parts.last());
        assert(front.push(parts.last()) =~= parts);
    }
}

/// The pieces that are not empty are pieces, and none of them is empty.
proof fn non_empty_parts(parts: Seq<Seq<char>>)
    ensures
        forall|i: int|
            0 <= i < non_empty(parts).len() ==> (#[trigger] non_empty(parts)[i]).len() > 0
                && parts.contains(non_empty(parts)[i]),
        (forall|i: int| 0 <= i < parts.len() ==> (#[trigger] parts[i]).len() > 0) ==> non_empty(parts)
            == parts,
    decreases parts.len(),
{
    if parts.len() > 0 {
        let before = parts.drop_last();
        non_empty_parts(before);
        assert forall|x: Seq<char>| before.contains(x) implies parts.contains(x) by {
            let k = choose|k: int| 0 <= k < before.len() && before[k] == x;
            assert(parts[k] == x);
        }
        assert(parts.contains(parts.last())) by {
            assert(parts[parts.len() - 1] == parts.last());
        }
        assert forall|i: int| 0 <= i < non_empty(parts).len() implies (#[trigger] non_empty(
            parts,
        )[i]).len() > 0 && parts.contains(non_empty(parts)[i]) by {
            if i < non_empty(before).len() {
                assert(non_empty(parts)[i] == non_empty(before)[i]);
            }
        }
        if forall|i: int| 0 <= i < parts.len() ==> (#[trigger] parts[i]).len() > 0 {
            assert forall|i: int| 0 <= i < before.len() implies (#[trigger] before[i]).len() > 0 by {
                assert(before[i] == parts[i]);
            }
            assert(parts[parts.len() - 1].len() > 0);
            assert(before.push(parts.last()) =~= parts);
        }
    }
}

/// Whether a text is a word: not empty, and without white space.
pub open spec fn is_word(s: Seq<char>) -> bool {
    s.len() > 0 && uncut(s, |c: char| is_space(c))
}

/// The words of a text are words.
pub proof fn words_are_words(s: Seq<char>)
    ensures
        forall|i: int| 0 <= i < words(s).len() ==> is_word(#[trigger] words(s)[i]),
{
    let cut = |c: char| is_space(c);
    let parts = split_on(s, cut);
    pieces_are_uncut(s, cut);
    non_empty_parts(parts);
    assert forall|i: int| 0 <= i < words(s).len() implies is_word(#[trigger] words(s)[i]) by {
        let k = choose|k: int| 0 <= k < parts.len() && parts[k] == words(s)[i];
        assert(uncut(parts[k], cut));
    }
}

/// The words of words with blanks between them are these words.
pub proof fn joined_words_are_words(parts: Seq<Seq<char>>)
    requires
        forall|i: int| 0 <= i < parts.len() ==> is_word(#[trigger] parts[i]),
    ensures
        words(joined(parts, seq![' '])) == parts,
{
    let cut = |c: char| is_space(c);
    if parts.len() == 0 {
        assert(split_on(joined(parts, seq![' ']), cut) =~= seq![Seq::<char>::empty()]);
        reveal_with_fuel(non_empty, 2);
        assert(words(joined(parts, seq![' '])) =~= parts);
    } else {
        assert forall|i: int| 0 <= i < parts.len() implies uncut(#[trigger] parts[i], cut)
            && parts[i].len() > 0 by {
            assert(is_word(parts[i]));
        }
        joined_is_cut_again(parts, ' ', cut);
        non_empty_parts(parts);
    }
}

} // verus!
