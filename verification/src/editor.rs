//! A line editor: a text with a cursor in it.

use vstd::prelude::*;
use crate::text::chars_of;
use crate::text::string_of;
use crate::views::Duplicate;

verus! {

/// A text with a cursor in it.
#[derive(Debug)]
pub struct Editor {
    /// What stands before the cursor.
    before: Vec<char>,
    /// What stands behind the cursor, the last character first.
    behind: Vec<char>,
}

/// What an `Editor` holds: the text before the cursor and the text behind it.
#[verifier::ext_equal]
pub struct EditorView {
    pub before: Seq<char>,
    pub behind: Seq<char>,
}

impl View for Editor {
    type V = EditorView;

    closed spec fn view(&self) -> EditorView {
        EditorView { before: self.before@, behind: self.behind@.reverse() }
    }
}

/// An editor with a text and the cursor at its end.
pub open spec fn editing(text: Seq<char>) -> EditorView {
    EditorView { before: text, behind: Seq::empty() }
}

impl EditorView {
    /// The whole text.
    pub open spec fn text(self) -> Seq<char> {
        self.before + self.behind
    }

    /// After a text was typed.
    pub open spec fn typed(self, text: Seq<char>) -> EditorView {
        EditorView { before: self.before + text, ..self }
    }

    /// After the character before the cursor was removed, if there is one.
    pub open spec fn erased(self) -> EditorView {
        if self.before.len() == 0 {
            self
        } else {
            EditorView { before: self.before.drop_last(), ..self }
        }
    }

    /// After the character behind the cursor was removed, if there is one.
    pub open spec fn deleted(self) -> EditorView {
        if self.behind.len() == 0 {
            self
        } else {
            EditorView { behind: self.behind.drop_first(), ..self }
        }
    }

    /// After the cursor moved one character to the left, if there is one.
    pub open spec fn left(self) -> EditorView {
        if self.before.len() == 0 {
            self
        } else {
            EditorView {
                before: self.before.drop_last(),
                behind: seq![self.before.last()] + self.behind,
            }
        }
    }

    /// After the cursor moved one character to the right, if there is one.
    pub open spec fn right(self) -> EditorView {
        if self.behind.len() == 0 {
            self
        } else {
            EditorView {
                before: self.before.push(self.behind.first()),
                behind: self.behind.drop_first(),
            }
        }
    }

    /// After the cursor moved before the text.
    pub open spec fn home(self) -> EditorView {
        EditorView { before: Seq::empty(), behind: self.text() }
    }
}

impl Duplicate for Editor {
    fn duplicate(&self) -> (result: Self) {
        let result = Editor {
            before: copy_chars(&self.before),
            behind: copy_chars(&self.behind),
        };
        result
    }
}

fn copy_chars(chars: &Vec<char>) -> (result: Vec<char>)
    ensures
        result@ == chars@,
{
    let mut result: Vec<char> = Vec::new();
    let mut i: usize = 0;
    while i < chars.len()
        invariant
            i <= chars@.len(),
            result@ == chars@.take(i as int),
        decreases chars@.len() - i,
    {
        result.push(chars[i]);
        assert(chars@.take(i + 1) =~= chars@.take(i as int).push(chars@[i as int]));
        i = i + 1;
    }
    assert(chars@.take(i as int) =~= chars@);
    result
}

impl Editor {
    /// An empty editor.
    pub fn new() -> (result: Editor)
        ensures
            result@ == editing(Seq::empty()),
    {
        let result = Editor { before: Vec::new(), behind: Vec::new() };
        assert(result.behind@.reverse() =~= Seq::<char>::empty());
        result
    }

    /// Returns the whole text.
    pub fn text(&self) -> (result: String)
        ensures
            result@ == self@.text(),
    {
        let mut chars = copy_chars(&self.before);
        let mut i: usize = self.behind.len();
        assert(self.behind@.reverse().take(0) =~= Seq::<char>::empty());
        while i > 0
            invariant
                i <= self.behind@.len(),
                chars@ == self.before@ + self.behind@.reverse().take(self.behind@.len() - i),
            decreases i,
        {
            i = i - 1;
            chars.push(self.behind[i]);
            proof {
                let behind = self.behind@.reverse();
                let done = self.behind@.len() - i;
                assert(behind.take(done) =~= behind.take(done - 1).push(self.behind@[i as int]));
            }
        }
        assert(self.behind@.reverse().take(self.behind@.len() as int) =~= self.behind@.reverse());
        string_of(&chars)
    }

    /// Whether there is no text.
    pub fn is_empty(&self) -> (result: bool)
        ensures
            result == (self@.text().len() == 0),
    {
        self.before.len() == 0 && self.behind.len() == 0
    }

    /// Replaces the text and puts the cursor at its end.
    pub fn set(&mut self, text: &str)
        ensures
            final(self)@ == editing(text@),
    {
        self.before = chars_of(text);
        self.behind = Vec::new();
        assert(self.behind@.reverse() =~= Seq::<char>::empty());
    }

    /// Removes the text.
    pub fn clear(&mut self)
        ensures
            final(self)@ == editing(Seq::empty()),
    {
        self.set("");
        proof {
            reveal_strlit("");
        }
        assert(self@.before =~= Seq::<char>::empty());
    }

    /// Removes the text and returns it.
    pub fn take(&mut self) -> (result: String)
        ensures
            result@ == old(self)@.text(),
            final(self)@ == editing(Seq::empty()),
    {
        let text = self.text();
        self.clear();
        text
    }

    /// Puts a character before the cursor.
    pub fn insert(&mut self, character: char)
        ensures
            final(self)@ == old(self)@.typed(seq![character]),
    {
        self.before.push(character);
        assert(self@.before =~= old(self)@.before + seq![character]);
    }

    /// Puts a text before the cursor.
    pub fn insert_str(&mut self, text: &str)
        ensures
            final(self)@ == old(self)@.typed(text@),
    {
        let mut chars = chars_of(text);
        self.before.append(&mut chars);
    }

    /// Removes the character before the cursor.
    pub fn backspace(&mut self)
        ensures
            final(self)@ == old(self)@.erased(),
    {
        let _ = self.before.pop();
        assert(old(self)@.before.len() > 0 ==> self@.before =~= old(self)@.before.drop_last());
    }

    /// Removes the character behind the cursor.
    pub fn delete(&mut self)
        ensures
            final(self)@ == old(self)@.deleted(),
    {
        let _ = self.behind.pop();
        assert(old(self)@.behind.len() > 0 ==> self@.behind =~= old(self)@.behind.drop_first());
    }

    /// Moves the cursor one character to the left.
    pub fn move_left(&mut self)
        ensures
            final(self)@ == old(self)@.left(),
    {
        if let Some(character) = self.before.pop() {
            self.behind.push(character);
            assert(self@.behind =~= seq![character] + old(self)@.behind);
            assert(self@.before =~= old(self)@.before.drop_last());
        }
    }

    /// Moves the cursor one character to the right.
    pub fn move_right(&mut self)
        ensures
            final(self)@ == old(self)@.right(),
    {
        if let Some(character) = self.behind.pop() {
            self.before.push(character);
            assert(self@.behind =~= old(self)@.behind.drop_first());
        }
    }

    /// Moves the cursor before the text.
    pub fn move_home(&mut self)
        ensures
            final(self)@ == old(self)@.home(),
    {
        let ghost text = self@.text();
        while self.before.len() > 0
            invariant
                self@.text() == text,
            decreases self.before@.len(),
        {
            let ghost earlier = self@;
            self.move_left();
            assert(self@.text() =~= earlier.text());
        }
        assert(self@.behind =~= text);
        assert(self@.before =~= Seq::<char>::empty());
    }

    /// Moves the cursor behind the text.
    pub fn move_end(&mut self)
        ensures
            final(self)@ == editing(old(self)@.text()),
    {
        let text = self.text();
        self.set(&text);
    }
}

/// Moving the cursor changes no text.
pub proof fn moving_keeps_the_text(editor: EditorView)
    ensures
        editor.left().text() == editor.text(),
        editor.right().text() == editor.text(),
        editor.home().text() == editor.text(),
        editing(editor.text()).text() == editor.text(),
{
    assert(editor.left().text() =~= editor.text());
    assert(editor.right().text() =~= editor.text());
    assert(editor.home().text() =~= editor.text());
    assert(editing(editor.text()).text() =~= editor.text());
}

/// A character that was typed is removed by going back.
pub proof fn going_back_undoes_typing(editor: EditorView, character: char)
    ensures
        editor.typed(seq![character]).erased() == editor,
{
    assert(editor.typed(seq![character]).erased() =~= editor);
}

} // verus!
