use vstd::prelude::*;

use crate::buffer::{EditBuffer, LineView};
use crate::text::{chars_of, string_of};

verus! {

/// What the stored entries say, one text per entry.
pub open spec fn texts(h: Seq<String>) -> Seq<Seq<char>> {
    h.map_values(|s: String| s@)
}

/// The history, the position viewed in it, and the line being edited.
///
/// The last entry of the history is the tail slot, kept for the line being
/// edited; a position equal to its index means that no past entry is viewed.
pub type NavView = (Seq<Seq<char>>, nat, LineView);

/// The state in which navigation is defined: a tail slot exists and the
/// position is within the history.
pub open spec fn nav_wf(s: NavView) -> bool {
    s.0.len() >= 1 && s.1 < s.0.len() && s.2.1 <= s.2.0.len()
}

/// A line recalled from history: its text, with the cursor at its end.
pub open spec fn recalled(t: Seq<char>) -> LineView {
    (t, t.len())
}

/// One step up: at the top nothing moves; leaving the tail slot first keeps
/// the line being edited in it; the entry above is then shown.
pub open spec fn up(s: NavView) -> NavView {
    if s.1 == 0 {
        s
    } else {
        let h = if s.1 == s.0.len() - 1 {
            s.0.update(s.1 as int, s.2.0)
        } else {
            s.0
        };
        (h, (s.1 - 1) as nat, recalled(h[s.1 - 1]))
    }
}

/// One step down: at the tail slot nothing moves; else the entry below is shown.
pub open spec fn down(s: NavView) -> NavView {
    if s.1 + 1 >= s.0.len() {
        s
    } else {
        (s.0, s.1 + 1, recalled(s.0[s.1 + 1 as int]))
    }
}

/// `k` steps up.
pub open spec fn ups(s: NavView, k: nat) -> NavView
    decreases k,
{
    if k == 0 {
        s
    } else {
        up(ups(s, (k - 1) as nat))
    }
}

/// `k` steps down.
pub open spec fn downs(s: NavView, k: nat) -> NavView
    decreases k,
{
    if k == 0 {
        s
    } else {
        down(downs(s, (k - 1) as nat))
    }
}

/// The history once `text` is submitted from `position`: where the entry just
/// above that position holds the same text, the tail slot is dropped; else
/// the tail slot takes the text.
pub open spec fn finalized(h: Seq<Seq<char>>, position: nat, text: Seq<char>) -> Seq<
    Seq<char>,
> {
    if position >= 1 && h[position - 1] == text {
        h.drop_last()
    } else {
        h.update(h.len() - 1, text)
    }
}

/// One line being read: its buffer, the tail slot it owns in the history, and
/// the history position being viewed.
#[derive(Clone, Debug)]
pub struct EditSession {
    pub buffer: EditBuffer,
    pub input_index: usize,
    pub position: usize,
}

impl EditSession {
    /// The session fits `history`: its tail slot is the last entry and the
    /// position lies within the history.
    pub open spec fn wf(&self, history: Seq<String>) -> bool {
        &&& self.buffer.wf()
        &&& self.input_index + 1 == history.len()
        &&& self.position <= self.input_index
    }

    /// The session together with the history, as navigation sees it.
    pub open spec fn nav(&self, history: Seq<String>) -> NavView {
        (texts(history), self.position as nat, self.buffer@)
    }

    /// Starts a line: an empty tail slot is added and viewed.
    pub fn begin(history: &mut Vec<String>) -> (r: EditSession)
        requires
            old(history)@.len() < usize::MAX,
        ensures
            texts(final(history)@) == texts(old(history)@).push(Seq::<char>::empty()),
            r.wf(final(history)@),
            r.input_index == old(history)@.len(),
            r.position == r.input_index,
            r.buffer@ == (Seq::<char>::empty(), 0nat),
    {
        let input_index = history.len();
        history.push(String::new());
        assert(texts(history@) =~= texts(old(history)@).push(Seq::<char>::empty()));
        EditSession { buffer: EditBuffer::new(), input_index, position: input_index }
    }

    /// Shows the entry above, keeping the line being edited in the tail slot
    /// when leaving it.
    pub fn navigate_up(&mut self, history: &mut Vec<String>)
        requires
            old(self).wf(old(history)@),
        ensures
            final(self).wf(final(history)@),
            final(self).input_index == old(self).input_index,
            final(self).nav(final(history)@) == up(old(self).nav(old(history)@)),
    {
        if self.position != 0 {
            if self.position == self.input_index {
                let snapshot = string_of(&self.buffer.text);
                history.set(self.input_index, snapshot);
            }
            assert(texts(history@) =~= up(old(self).nav(old(history)@)).0);
            self.position = self.position - 1;
            let entry = chars_of(history[self.position].as_str());
            self.buffer.replace_with(entry);
        }
    }

    /// Shows the entry below, unless the tail slot is already shown.
    pub fn navigate_down(&mut self, history: &Vec<String>)
        requires
            old(self).wf(history@),
        ensures
            final(self).wf(history@),
            final(self).input_index == old(self).input_index,
            final(self).nav(history@) == down(old(self).nav(history@)),
    {
        if self.position < history.len() - 1 {
            self.position = self.position + 1;
            let entry = chars_of(history[self.position].as_str());
            self.buffer.replace_with(entry);
        }
    }

    /// Ends the line on submit and hands back its text. The history keeps it
    /// once: the tail slot is dropped where the entry just above the final
    /// position already holds that text, and takes the text otherwise.
    pub fn finalize(&self, history: &mut Vec<String>) -> (r: String)
        requires
            self.wf(old(history)@),
        ensures
            r@ == self.buffer.text@,
            texts(final(history)@) == finalized(
                texts(old(history)@),
                self.position as nat,
                self.buffer.text@,
            ),
    {
        let text = string_of(&self.buffer.text);
        if self.position >= 1 && history[self.position - 1] == text {
            history.pop();
            assert(texts(history@) =~= texts(old(history)@).drop_last());
        } else {
            history.set(self.input_index, text.clone());
            assert(texts(history@) =~= texts(old(history)@).update(
                self.input_index as int,
                text@,
            ));
        }
        text
    }
}

/// Submitting never duplicates the line: with `past` the history before the
/// line was begun and `slot` whatever the tail slot holds, the history after
/// submitting `text` from `position` is `past` unchanged where the entry just
/// above `position` equals `text`, and `past` with `text` added otherwise.
pub proof fn lemma_submit_keeps_one_record(
    past: Seq<Seq<char>>,
    slot: Seq<char>,
    position: nat,
    text: Seq<char>,
)
    requires
        position <= past.len(),
    ensures
        finalized(past.push(slot), position, text) == if position >= 1 && past[position - 1]
            == text {
            past
        } else {
            past.push(text)
        },
{
    let h = past.push(slot);
    if position >= 1 && past[position - 1] == text {
        assert(h.drop_last() =~= past);
    } else {
        assert(h.update(h.len() - 1, text) =~= past.push(text));
    }
}

/// From the tail slot, `k` steps up then `k` steps down show the line that was
/// being edited before navigating.
pub proof fn lemma_up_then_down(s: NavView, k: nat)
    requires
        nav_wf(s),
        s.1 == s.0.len() - 1,
    ensures
        downs(ups(s, k), k).2.0 == s.2.0,
{
    if k > 0 && s.1 > 0 {
        lemma_ups_from_tail(s, k);
        let u = ups(s, k);
        lemma_downs_below_tail(u, k);
        let t = s.1;
        assert(u.0[t as int] == s.2.0);
    } else if k > 0 {
        lemma_ups_at_top(s, k);
        lemma_downs_at_tail(s, k);
    }
}

proof fn lemma_ups_from_tail(s: NavView, k: nat)
    requires
        nav_wf(s),
        s.1 == s.0.len() - 1,
        s.1 > 0,
        k >= 1,
    ensures
        ups(s, k).0 == s.0.update(s.1 as int, s.2.0),
        ups(s, k).1 == if k >= s.1 { 0 } else { (s.1 - k) as nat },
        ups(s, k).2 == recalled(ups(s, k).0[ups(s, k).1 as int]),
    decreases k,
{
    reveal_with_fuel(ups, 2);
    if k > 1 {
        lemma_ups_from_tail(s, (k - 1) as nat);
    }
}

proof fn lemma_downs_below_tail(s: NavView, j: nat)
    requires
        s.0.len() >= 1,
        s.1 < s.0.len() - 1,
        j >= 1,
    ensures
        downs(s, j).0 == s.0,
        downs(s, j).1 == if s.1 + j >= s.0.len() - 1 { (s.0.len() - 1) as nat } else { s.1 + j },
        downs(s, j).2 == recalled(s.0[downs(s, j).1 as int]),
    decreases j,
{
    reveal_with_fuel(downs, 2);
    if j > 1 {
        lemma_downs_below_tail(s, (j - 1) as nat);
    }
}

proof fn lemma_ups_at_top(s: NavView, k: nat)
    requires
        s.1 == 0,
    ensures
        ups(s, k) == s,
    decreases k,
{
    if k > 0 {
        lemma_ups_at_top(s, (k - 1) as nat);
    }
}

proof fn lemma_downs_at_tail(s: NavView, k: nat)
    requires
        s.1 + 1 >= s.0.len(),
    ensures
        downs(s, k) == s,
    decreases k,
{
    if k > 0 {
        lemma_downs_at_tail(s, (k - 1) as nat);
    }
}

} // verus!
