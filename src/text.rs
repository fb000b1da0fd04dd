use vstd::prelude::*;
use vstd::string::*;

verus! {

/// What a text buffer holds: its characters and the cursor, counted in
/// characters, not bytes.
pub struct TextView {
    pub text: Seq<char>,
    pub cursor: int,
}

/// An empty buffer.
pub open spec fn empty_text() -> TextView {
    TextView { text: Seq::empty(), cursor: 0 }
}

/// The position an edit acts at: the cursor, clamped onto the text.
pub open spec fn edit_pos(v: TextView) -> int {
    if v.cursor < 0 {
        0
    } else if v.cursor > v.text.len() {
        v.text.len() as int
    } else {
        v.cursor
    }
}

/// `c` inserted at the cursor; the cursor moves past it.
pub open spec fn insert_spec(v: TextView, c: char) -> TextView {
    let p = edit_pos(v);
    TextView { text: v.text.subrange(0, p).push(c) + v.text.subrange(p, v.text.len() as int), cursor: p + 1 }
}

/// The character before the cursor removed, and the cursor moved back onto
/// its place; nothing happens at the start of the text.
pub open spec fn delete_spec(v: TextView) -> TextView {
    let p = edit_pos(v);
    if p == 0 {
        TextView { text: v.text, cursor: 0 }
    } else {
        TextView { text: v.text.subrange(0, p - 1) + v.text.subrange(p, v.text.len() as int), cursor: p - 1 }
    }
}

/// The cursor one character to the left, saturating at 0.
pub open spec fn left_spec(v: TextView) -> TextView {
    let p = edit_pos(v);
    TextView { text: v.text, cursor: if p == 0 { 0 } else { p - 1 } }
}

/// The cursor one character to the right, saturating at the end of the text.
pub open spec fn right_spec(v: TextView) -> TextView {
    let p = edit_pos(v);
    TextView { text: v.text, cursor: if p == v.text.len() { p } else { p + 1 } }
}

/// Inserting a character and deleting the one before the cursor gives the
/// buffer back unchanged, with the cursor where it was.
pub proof fn lemma_insert_then_delete(v: TextView, c: char)
    requires
        0 <= v.cursor <= v.text.len(),
    ensures
        delete_spec(insert_spec(v, c)) == v,
{
    let p = v.cursor;
    let w = insert_spec(v, c);
    assert(edit_pos(w) == p + 1);
    assert(w.text.subrange(0, p) =~= v.text.subrange(0, p));
    assert(w.text.subrange(p + 1, w.text.len() as int) =~= v.text.subrange(p, v.text.len() as int));
    assert(v.text.subrange(0, p) + v.text.subrange(p, v.text.len() as int) =~= v.text);
}

/// Relies on `String::from(char)`: a string of that one character.
#[verifier::external_body]
pub(crate) fn string_of_char(c: char) -> (r: String)
    ensures
        r@ == seq![c],
{
    String::from(c)
}

/// A text buffer with a cursor, edited character by character so that a
/// multi-byte character is never split.
#[derive(Debug)]
pub struct TextEditState {
    pub input: String,
    pub cursor: usize,
}

impl View for TextEditState {
    type V = TextView;

    open spec fn view(&self) -> TextView {
        TextView { text: self.input@, cursor: self.cursor as int }
    }
}

impl TextEditState {
    /// The cursor lies within the text.
    pub open spec fn well_formed(&self) -> bool {
        self.cursor <= self.input@.len()
    }

    pub fn new() -> (r: Self)
        ensures
            r@ == empty_text(),
    {
        TextEditState { input: String::new(), cursor: 0 }
    }

    /// The cursor clamped onto the text, as a machine index.
    fn pos(&self) -> (r: usize)
        ensures
            r == edit_pos(self@),
    {
        let len = self.input.as_str().unicode_len();
        if self.cursor > len {
            len
        } else {
            self.cursor
        }
    }

    /// Inserts `c` at the cursor and moves the cursor past it.
    pub fn enter_char(&mut self, c: char)
        ensures
            final(self)@ == insert_spec(old(self)@, c),
            final(self).well_formed(),
    {
        let p = self.pos();
        let len = self.input.as_str().unicode_len();
        let before = String::from_str(self.input.as_str().substring_char(0, p));
        let after = self.input.as_str().substring_char(p, len);
        let ch = string_of_char(c);
        let text = before.concat(ch.as_str()).concat(after);
        let new_len = text.as_str().unicode_len();
        assert(text@ =~= insert_spec(old(self)@, c).text);
        self.input = text;
        self.cursor = p + 1;
        assert(new_len == len + 1);
    }

    /// Removes the character before the cursor and moves the cursor back;
    /// a no-op when the cursor is at the start.
    pub fn delete_char(&mut self)
        ensures
            final(self)@ == delete_spec(old(self)@),
            final(self).well_formed(),
    {
        let p = self.pos();
        if p == 0 {
            self.cursor = 0;
        } else {
            let len = self.input.as_str().unicode_len();
            let before = String::from_str(self.input.as_str().substring_char(0, p - 1));
            let after = self.input.as_str().substring_char(p, len);
            let text = before.concat(after);
            assert(text@ =~= delete_spec(old(self)@).text);
            self.input = text;
            self.cursor = p - 1;
        }
    }

    pub fn move_cursor_left(&mut self)
        ensures
            final(self)@ == left_spec(old(self)@),
            final(self).well_formed(),
    {
        let p = self.pos();
        self.cursor = p.saturating_sub(1);
    }

    pub fn move_cursor_right(&mut self)
        ensures
            final(self)@ == right_spec(old(self)@),
            final(self).well_formed(),
    {
        let p = self.pos();
        let len = self.input.as_str().unicode_len();
        if p < len {
            self.cursor = p + 1;
        } else {
            self.cursor = p;
        }
    }

    pub fn reset_cursor(&mut self)
        ensures
            final(self)@.text == old(self)@.text,
            final(self)@.cursor == 0,
    {
        self.cursor = 0;
    }

    /// Empties the buffer and puts the cursor at its start.
    pub fn clear(&mut self)
        ensures
            final(self)@ == empty_text(),
    {
        self.input = String::new();
        self.cursor = 0;
    }
}

} // verus!
