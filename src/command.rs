use vstd::prelude::*;

use crate::history::texts;
use crate::text::{chars_of, string_of};

verus! {

/// Unicode white space, the characters that trimming a line removes.
pub open spec fn is_space(c: char) -> bool {
    let u = c as u32;
    ||| 9 <= u <= 13
    ||| u == 32
    ||| u == 0x85
    ||| u == 0xA0
    ||| u == 0x1680
    ||| 0x2000 <= u <= 0x200A
    ||| u == 0x2028
    ||| u == 0x2029
    ||| u == 0x202F
    ||| u == 0x205F
    ||| u == 0x3000
}

/// `s` without its leading white space.
pub open spec fn trim_start(s: Seq<char>) -> Seq<char>
    decreases s.len(),
{
    if s.len() > 0 && is_space(s[0]) {
        trim_start(s.drop_first())
    } else {
        s
    }
}

/// `s` without its trailing white space.
pub open spec fn trim_end(s: Seq<char>) -> Seq<char>
    decreases s.len(),
{
    if s.len() > 0 && is_space(s.last()) {
        trim_end(s.drop_last())
    } else {
        s
    }
}

/// `s` without white space at either end.
pub open spec fn trimmed(s: Seq<char>) -> Seq<char> {
    trim_end(trim_start(s))
}

/// The pieces of `s` between single spaces: one more piece than there are
/// spaces, empty pieces included.
pub open spec fn split_spaces(s: Seq<char>) -> Seq<Seq<char>>
    decreases s.len(),
{
    if s.len() == 0 {
        seq![Seq::<char>::empty()]
    } else {
        let before = split_spaces(s.drop_last());
        if s.last() == ' ' {
            before.push(Seq::<char>::empty())
        } else {
            before.update(before.len() - 1, before.last().push(s.last()))
        }
    }
}

/// The words of a command line: the trimmed line split at single spaces.
pub open spec fn words(line: Seq<char>) -> Seq<Seq<char>> {
    split_spaces(trimmed(line))
}

/// `s` with each `c` replaced by `by`.
pub open spec fn replaced(s: Seq<char>, c: char, by: Seq<char>) -> Seq<char>
    decreases s.len(),
{
    if s.len() == 0 {
        s
    } else {
        replaced(s.drop_last(), c, by) + if s.last() == c {
            by
        } else {
            seq![s.last()]
        }
    }
}

/// A line that starts with the comment marker `//`.
pub open spec fn is_comment(line: Seq<char>) -> bool {
    line.len() >= 2 && line[0] == '/' && line[1] == '/'
}

/// What a submitted line asks of the shell.
#[derive(Clone, Debug, PartialEq, Eq)]
pub enum Action {
    /// Nothing: read the next line.
    Ignore,
    /// End the session.
    Quit,
    /// Show the current directory.
    ShowPath,
    /// Change the current directory to this path.
    ChangeDir(String),
    /// Run this program with these arguments and wait for it.
    Run(String, Vec<String>),
}

/// An action, with its texts as characters.
pub ghost enum ActionView {
    Ignore,
    Quit,
    ShowPath,
    ChangeDir(Seq<char>),
    Run(Seq<char>, Seq<Seq<char>>),
}

impl View for Action {
    type V = ActionView;

    open spec fn view(&self) -> ActionView {
        match self {
            Action::Ignore => ActionView::Ignore,
            Action::Quit => ActionView::Quit,
            Action::ShowPath => ActionView::ShowPath,
            Action::ChangeDir(p) => ActionView::ChangeDir(p@),
            Action::Run(p, a) => ActionView::Run(p@, texts(a@)),
        }
    }
}

/// What `line` asks for, `home` standing for `~` in a `cd` argument: nothing
/// for an empty line or a comment; `exit` ends the session; `cd` alone shows
/// the current directory, `cd path` changes to it, and `cd` with more
/// arguments does nothing; any other first word is a program, run with the
/// words after it as arguments.
pub open spec fn classified(line: Seq<char>, home: Seq<char>) -> ActionView {
    if line.len() == 0 || is_comment(line) {
        ActionView::Ignore
    } else {
        let w = words(line);
        if w[0] == seq!['e', 'x', 'i', 't'] {
            ActionView::Quit
        } else if w[0] == seq!['c', 'd'] {
            if w.len() == 1 {
                ActionView::ShowPath
            } else if w.len() == 2 {
                ActionView::ChangeDir(replaced(w[1], '~', home))
            } else {
                ActionView::Ignore
            }
        } else {
            ActionView::Run(w[0], w.drop_first())
        }
    }
}

fn is_space_char(c: char) -> (r: bool)
    ensures
        r == is_space(c),
{
    let u = c as u32;
    (9 <= u && u <= 13) || u == 32 || u == 0x85 || u == 0xA0 || u == 0x1680 || (0x2000 <= u && u
        <= 0x200A) || u == 0x2028 || u == 0x2029 || u == 0x202F || u == 0x205F || u == 0x3000
}

/// `s` without white space at either end.
pub fn trim(s: &Vec<char>) -> (r: Vec<char>)
    ensures
        r@ == trimmed(s@),
{
    let n = s.len();
    let mut i: usize = 0;
    assert(s@.subrange(0, n as int) =~= s@);
    while i < n && is_space_char(s[i])
        invariant
            n == s@.len(),
            i <= n,
            trim_start(s@) == trim_start(s@.subrange(i as int, n as int)),
        decreases n - i,
    {
        assert(s@.subrange(i as int, n as int).drop_first() =~= s@.subrange(i + 1, n as int));
        i = i + 1;
    }
    assert(trim_start(s@) == s@.subrange(i as int, n as int));
    let mut j: usize = n;
    while j > i && is_space_char(s[j - 1])
        invariant
            n == s@.len(),
            i <= j <= n,
            trimmed(s@) == trim_end(s@.subrange(i as int, j as int)),
        decreases j,
    {
        assert(s@.subrange(i as int, j as int).drop_last() =~= s@.subrange(i as int, j - 1));
        j = j - 1;
    }
    let mut r: Vec<char> = Vec::new();
    let mut k: usize = i;
    while k < j
        invariant
            n == s@.len(),
            i <= k <= j <= n,
            r@ == s@.subrange(i as int, k as int),
        decreases j - k,
    {
        r.push(s[k]);
        k = k + 1;
        assert(r@ =~= s@.subrange(i as int, k as int));
    }
    r
}

/// The pieces of `s` between single spaces.
pub fn split_at_spaces(s: &Vec<char>) -> (r: Vec<Vec<char>>)
    ensures
        r@.map_values(|w: Vec<char>| w@) == split_spaces(s@),
{
    let mut done: Vec<Vec<char>> = Vec::new();
    let mut word: Vec<char> = Vec::new();
    let mut i: usize = 0;
    while i < s.len()
        invariant
            i <= s@.len(),
            done@.map_values(|w: Vec<char>| w@).push(word@) == split_spaces(s@.take(i as int)),
        decreases s@.len() - i,
    {
        let ghost before = done@.map_values(|w: Vec<char>| w@).push(word@);
        assert(s@.take(i + 1).drop_last() =~= s@.take(i as int));
        let c = s[i];
        if c == ' ' {
            let finished = word;
            word = Vec::new();
            done.push(finished);
            assert(done@.map_values(|w: Vec<char>| w@).push(word@) =~= before.push(
                Seq::<char>::empty(),
            ));
        } else {
            word.push(c);
            assert(done@.map_values(|w: Vec<char>| w@).push(word@) =~= before.update(
                before.len() - 1,
                before.last().push(c),
            ));
        }
        i = i + 1;
    }
    assert(s@.take(s@.len() as int) =~= s@);
    done.push(word);
    done
}

/// `s` with each `c` replaced by `by`.
pub fn replace_char(s: &Vec<char>, c: char, by: &Vec<char>) -> (r: Vec<char>)
    ensures
        r@ == replaced(s@, c, by@),
{
    let mut r: Vec<char> = Vec::new();
    let mut i: usize = 0;
    while i < s.len()
        invariant
            i <= s@.len(),
            r@ == replaced(s@.take(i as int), c, by@),
        decreases s@.len() - i,
    {
        assert(s@.take(i + 1).drop_last() =~= s@.take(i as int));
        if s[i] == c {
            let mut k: usize = 0;
            let ghost start = r@;
            while k < by.len()
                invariant
                    k <= by@.len(),
                    r@ == start + by@.take(k as int),
                decreases by@.len() - k,
            {
                r.push(by[k]);
                k = k + 1;
                assert(r@ =~= start + by@.take(k as int));
            }
            assert(by@.take(k as int) =~= by@);
        } else {
            r.push(s[i]);
            assert(r@ =~= replaced(s@.take(i + 1), c, by@));
        }
        i = i + 1;
    }
    assert(s@.take(s@.len() as int) =~= s@);
    r
}

fn is_word(w: &Vec<char>, letters: &[char]) -> (r: bool)
    ensures
        r == (w@ == letters@),
{
    if w.len() != letters.len() {
        return false;
    }
    let mut i: usize = 0;
    while i < w.len()
        invariant
            w@.len() == letters@.len(),
            i <= w@.len(),
            w@.take(i as int) == letters@.take(i as int),
        decreases w@.len() - i,
    {
        if w[i] != letters[i] {
            return false;
        }
        i = i + 1;
        assert(w@.take(i as int) =~= letters@.take(i as int));
    }
    assert(w@.take(i as int) =~= w@);
    assert(letters@.take(i as int) =~= letters@);
    true
}

fn strings_of(ws: &Vec<Vec<char>>, from: usize) -> (r: Vec<String>)
    requires
        from <= ws@.len(),
    ensures
        texts(r@) == ws@.map_values(|w: Vec<char>| w@).subrange(from as int, ws@.len() as int),
{
    let mut r: Vec<String> = Vec::new();
    let mut i: usize = from;
    while i < ws.len()
        invariant
            from <= i <= ws@.len(),
            texts(r@) == ws@.map_values(|w: Vec<char>| w@).subrange(from as int, i as int),
        decreases ws@.len() - i,
    {
        let ghost prev = texts(r@);
        r.push(string_of(&ws[i]));
        assert(texts(r@) =~= prev.push(ws@[i as int]@));
        i = i + 1;
        assert(texts(r@) =~= ws@.map_values(|w: Vec<char>| w@).subrange(from as int, i as int));
    }
    r
}

/// What `line` asks of the shell, `home` standing for `~`.
pub fn classify(line: &str, home: &str) -> (r: Action)
    ensures
        r@ == classified(line@, home@),
{
    let chars = chars_of(line);
    if chars.len() == 0 || (chars.len() >= 2 && chars[0] == '/' && chars[1] == '/') {
        return Action::Ignore;
    }
    let w = split_at_spaces(&trim(&chars));
    proof {
        lemma_split_nonempty(trimmed(line@));
    }
    let ghost wv = w@.map_values(|x: Vec<char>| x@);
    assert(wv[0] == w@[0]@);
    if is_word(&w[0], &['e', 'x', 'i', 't']) {
        Action::Quit
    } else if is_word(&w[0], &['c', 'd']) {
        if w.len() == 1 {
            Action::ShowPath
        } else if w.len() == 2 {
            assert(wv[1] == w@[1]@);
            Action::ChangeDir(string_of(&replace_char(&w[1], '~', &chars_of(home))))
        } else {
            Action::Ignore
        }
    } else {
        let program = string_of(&w[0]);
        let args = strings_of(&w, 1);
        assert(wv.subrange(1, wv.len() as int) =~= wv.drop_first());
        Action::Run(program, args)
    }
}

/// Splitting always gives at least one piece.
proof fn lemma_split_nonempty(s: Seq<char>)
    ensures
        split_spaces(s).len() >= 1,
    decreases s.len(),
{
    if s.len() > 0 {
        lemma_split_nonempty(s.drop_last());
    }
}

} // verus!
