use vstd::prelude::*;

verus! {

/// The text of the line being edited and the cursor within it.
///
/// The cursor is a character index: it sits before `text[cursor]`, and at
/// `text.len()` it sits after the last character.
#[derive(Clone, Debug)]
pub struct EditBuffer {
    pub text: Vec<char>,
    pub cursor: usize,
}

/// A line as text and cursor.
pub type LineView = (Seq<char>, nat);

/// `c` typed at the cursor: it lands there and the cursor moves past it.
pub open spec fn inserted(v: LineView, c: char) -> LineView {
    (v.0.insert(v.1 as int, c), v.1 + 1)
}

/// A backspace: the character before the cursor goes, if there is one.
pub open spec fn backspaced(v: LineView) -> LineView {
    if v.1 == 0 {
        v
    } else {
        (v.0.remove(v.1 - 1), (v.1 - 1) as nat)
    }
}

/// The cursor one step left, held at the start.
pub open spec fn moved_left(v: LineView) -> LineView {
    (v.0, if v.1 == 0 { 0 } else { (v.1 - 1) as nat })
}

/// The cursor one step right, held at the end.
pub open spec fn moved_right(v: LineView) -> LineView {
    (v.0, if v.1 >= v.0.len() { v.1 } else { v.1 + 1 })
}

/// The line after typing each character of `s` in turn.
pub open spec fn typed(v: LineView, s: Seq<char>) -> LineView
    decreases s.len(),
{
    if s.len() == 0 {
        v
    } else {
        inserted(typed(v, s.drop_last()), s.last())
    }
}

impl View for EditBuffer {
    type V = LineView;

    open spec fn view(&self) -> LineView {
        (self.text@, self.cursor as nat)
    }
}

impl EditBuffer {
    /// The cursor never leaves the text.
    pub open spec fn wf(&self) -> bool {
        self.cursor <= self.text@.len()
    }

    /// An empty line with the cursor at its start.
    pub fn new() -> (r: EditBuffer)
        ensures
            r.wf(),
            r@ == (Seq::<char>::empty(), 0nat),
    {
        EditBuffer { text: Vec::new(), cursor: 0 }
    }

    /// Inserts `c` at the cursor and moves the cursor past it.
    pub fn insert(&mut self, c: char)
        requires
            old(self).wf(),
            old(self).text@.len() < usize::MAX,
        ensures
            final(self).wf(),
            final(self)@ == inserted(old(self)@, c),
    {
        self.text.insert(self.cursor, c);
        self.cursor = self.cursor + 1;
    }

    /// Removes the character just before the cursor, as a backspace does.
    /// Nothing happens with the cursor at the start of the line, so nothing
    /// happens on an empty line.
    pub fn delete_before_cursor(&mut self)
        requires
            old(self).wf(),
        ensures
            final(self).wf(),
            final(self)@ == backspaced(old(self)@),
            old(self).text@.len() == 0 ==> final(self)@ == old(self)@,
    {
        if self.cursor > 0 {
            self.text.remove(self.cursor - 1);
            self.cursor = self.cursor - 1;
        }
    }

    /// Moves the cursor one character to the left, stopping at the start.
    pub fn move_left(&mut self)
        requires
            old(self).wf(),
        ensures
            final(self).wf(),
            final(self)@ == moved_left(old(self)@),
    {
        if self.cursor != 0 {
            self.cursor = self.cursor - 1;
        }
    }

    /// Moves the cursor one character to the right, stopping at the end.
    pub fn move_right(&mut self)
        requires
            old(self).wf(),
        ensures
            final(self).wf(),
            final(self)@ == moved_right(old(self)@),
    {
        if self.cursor < self.text.len() {
            self.cursor = self.cursor + 1;
        }
    }

    /// Empties the line.
    pub fn clear(&mut self)
        ensures
            final(self).wf(),
            final(self)@ == (Seq::<char>::empty(), 0nat),
    {
        self.text.clear();
        self.cursor = 0;
    }

    /// Replaces the line by `text`, with the cursor at its end.
    pub fn replace_with(&mut self, text: Vec<char>)
        ensures
            final(self).wf(),
            final(self)@ == (text@, text@.len()),
    {
        self.cursor = text.len();
        self.text = text;
    }
}

/// Typing the characters of `s` one at a time into an empty line, the cursor
/// always at the end, gives the line `s` with the cursor after its last
/// character: the cursor, the count typed and the length agree.
pub proof fn lemma_typing_into_empty_line(s: Seq<char>)
    ensures
        typed((Seq::<char>::empty(), 0nat), s) == (s, s.len()),
    decreases s.len(),
{
    if s.len() > 0 {
        lemma_typing_into_empty_line(s.drop_last());
        assert(s.drop_last().insert(s.len() - 1, s.last()) =~= s);
    }
}

/// Moving the cursor left and then right, where it is not held at the start,
/// leaves both the text and the cursor as they were.
pub proof fn lemma_left_then_right(v: LineView)
    requires
        0 < v.1 <= v.0.len(),
    ensures
        moved_right(moved_left(v)) == v,
{
}

} // verus!
