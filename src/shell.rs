use vstd::prelude::*;
use vstd::string::*;

use crate::buffer::{backspaced, inserted, moved_left, moved_right, LineView};
use crate::command::{
    classified,
    classify,
    is_comment,
    replace_char,
    replaced,
    words,
    Action,
    ActionView,
};
use crate::history::{down, finalized, texts, up, EditSession};
use crate::render::{
    first_frame,
    pieces,
    push_first_frame,
    push_redraw_frame,
    push_submitted_frame,
    redraw_frame,
    submitted_frame,
    Color,
    Piece,
    PieceView,
};
use crate::text::{chars_of, owned, string_of};

verus! {

/// A line read from the terminal, or the request to leave.
#[derive(Clone, Debug, PartialEq, Eq)]
pub enum Input {
    Command(String),
    Exit,
}

/// A key pressed while a line is edited.
#[derive(Clone, Copy, Debug, PartialEq, Eq)]
pub enum Key {
    /// A character typed without the control modifier.
    Char(char),
    /// A character typed with the control modifier.
    Control(char),
    Enter,
    Backspace,
    Left,
    Right,
    Up,
    Down,
    /// Any other key, which editing ignores.
    Other,
}

/// Where a line stands after a key.
#[derive(Clone, Debug, PartialEq, Eq)]
pub enum Step {
    /// Still editing.
    Continue,
    /// The user asked to leave.
    Exit,
    /// The line was submitted with this text.
    Submitted(String),
}

/// How running a program ended.
#[derive(Clone, Debug, PartialEq, Eq)]
pub enum RunOutcome {
    /// It ran and was waited for.
    Finished,
    /// No such program was found.
    NotFound,
    /// It could not be started or waited for, for the reason given.
    Failed(String),
}

/// The session: the current directory, the history of submitted lines, and
/// the terminal output not yet written.
pub struct Shell {
    pub path: String,
    pub history: Vec<String>,
    pub output: Vec<Piece>,
}

/// A line written as text: the text, then a return and a new line.
pub open spec fn written(text: Seq<char>) -> PieceView {
    PieceView::Text(text + "\r\n"@)
}

/// The farewell written when the session ends on `exit`.
pub open spec fn farewell() -> Seq<char> {
    "See you later, Bye!\r"@
}

/// What the shell writes for a line that asks for `a`, in directory `path`.
pub open spec fn reply(a: ActionView, path: Seq<char>) -> Seq<PieceView> {
    match a {
        ActionView::Quit => seq![written(farewell())],
        ActionView::ShowPath => seq![written(path)],
        _ => Seq::<PieceView>::empty(),
    }
}

/// The message for a program that could not be run, `detail` saying why: in
/// red, each new line in it turned into a return and a new line.
pub open spec fn error_message(detail: Seq<char>) -> Seq<PieceView> {
    seq![
        PieceView::Painted(
            Color::Red,
            "Error running command: "@ + replaced(detail, '\n', "\r\n"@),
        ),
        PieceView::Text("\r\n"@),
    ]
}

/// What the shell writes once a program has been run.
pub open spec fn run_report(outcome: RunOutcome) -> Seq<PieceView> {
    match outcome {
        RunOutcome::Finished => Seq::<PieceView>::empty(),
        RunOutcome::NotFound => seq![written("Unknown command"@)],
        RunOutcome::Failed(d) => error_message(d@),
    }
}

impl Shell {
    /// A shell in `path` with no history and nothing written.
    pub fn new(path: String) -> (r: Shell)
        ensures
            r.path == path,
            r.history@.len() == 0,
            r.output@.len() == 0,
    {
        Shell { path, history: Vec::new(), output: Vec::new() }
    }

    /// Writes `text` as a line of its own.
    pub fn write(&mut self, text: &str)
        ensures
            final(self).path == old(self).path,
            final(self).history == old(self).history,
            pieces(final(self).output@) == pieces(old(self).output@).push(written(text@)),
    {
        let line = owned(text).concat("\r\n");
        self.output.push(Piece::Text(line));
        assert(pieces(self.output@) =~= pieces(old(self).output@).push(written(text@)));
    }

    /// Starts reading a line: a tail slot is added to the history and the
    /// empty line is drawn.
    pub fn begin_input(&mut self) -> (r: EditSession)
        requires
            old(self).history@.len() < usize::MAX,
        ensures
            final(self).path == old(self).path,
            texts(final(self).history@) == texts(old(self).history@).push(Seq::<char>::empty()),
            r.wf(final(self).history@),
            r.input_index == old(self).history@.len(),
            r.position == r.input_index,
            r.buffer@ == (Seq::<char>::empty(), 0nat),
            pieces(final(self).output@) == pieces(old(self).output@) + first_frame(
                r.buffer@,
                old(self).path@,
            ),
    {
        let session = EditSession::begin(&mut self.history);
        push_first_frame(&session.buffer, &self.path, &mut self.output);
        session
    }

    /// Repaints the status and prompt lines for `session`.
    pub fn redraw(&mut self, session: &EditSession)
        requires
            session.buffer.wf(),
        ensures
            final(self).path == old(self).path,
            final(self).history == old(self).history,
            pieces(final(self).output@) == pieces(old(self).output@) + redraw_frame(
                session.buffer@,
                old(self).path@,
            ),
    {
        push_redraw_frame(&session.buffer, &self.path, &mut self.output);
    }

    /// Applies one key to the line being read.
    pub fn handle_key(&mut self, session: &mut EditSession, key: Key) -> (r: Step)
        requires
            old(session).wf(old(self).history@),
        ensures
            final(self).path == old(self).path,
            !(r is Submitted) ==> final(session).wf(final(self).history@),
            final(session).input_index == old(session).input_index,
            ({
                let line = old(session).buffer@;
                let h = texts(old(self).history@);
                let out = pieces(old(self).output@);
                let unchanged = *final(session) == *old(session) && final(self).history
                    == old(self).history && pieces(final(self).output@) == out;
                let edited = |l: LineView|
                    final(session).buffer@ == l && final(session).position == old(
                        session,
                    ).position && final(self).history == old(self).history && pieces(
                        final(self).output@,
                    ) == out;
                match key {
                    Key::Char(c) => r is Continue && (if line.0.len() < usize::MAX {
                        edited(inserted(line, c))
                    } else {
                        unchanged
                    }),
                    Key::Control(c) => if c == 'd' && line.0.len() == 0 {
                        r is Exit && unchanged
                    } else if c == 'c' {
                        r is Continue && final(session).buffer@ == (Seq::<char>::empty(), 0nat)
                            && final(session).position == old(session).position
                            && final(self).history == old(self).history && pieces(
                            final(self).output@,
                        ) == out.push(written(Seq::<char>::empty()))
                    } else if c == 'l' {
                        r is Continue && *final(session) == *old(session) && final(self).history
                            == old(self).history && pieces(final(self).output@) == out + seq![
                            PieceView::ClearScreen,
                            PieceView::CursorHome,
                        ]
                    } else {
                        r is Continue && unchanged
                    },
                    Key::Enter => r matches Step::Submitted(t) && t@ == line.0 && texts(
                        final(self).history@,
                    ) == finalized(h, old(session).position as nat, line.0) && pieces(
                        final(self).output@,
                    ) == out.push(written(Seq::<char>::empty())) + submitted_frame(line.0),
                    Key::Backspace => r is Continue && edited(backspaced(line)),
                    Key::Left => r is Continue && edited(moved_left(line)),
                    Key::Right => r is Continue && edited(moved_right(line)),
                    Key::Up => r is Continue && final(session).nav(final(self).history@) == up(
                        old(session).nav(old(self).history@),
                    ) && pieces(final(self).output@) == out,
                    Key::Down => r is Continue && final(session).nav(final(self).history@) == down(
                        old(session).nav(old(self).history@),
                    ) && final(self).history == old(self).history && pieces(
                        final(self).output@,
                    ) == out,
                    Key::Other => r is Continue && unchanged,
                }
            }),
    {
        proof {
            reveal_strlit("");
        }
        assert(""@ =~= Seq::<char>::empty());
        match key {
            Key::Char(c) => {
                if session.buffer.text.len() < usize::MAX {
                    session.buffer.insert(c);
                }
                Step::Continue
            },
            Key::Control(c) => {
                if c == 'd' && session.buffer.text.len() == 0 {
                    Step::Exit
                } else if c == 'c' {
                    session.buffer.clear();
                    self.write("");
                    Step::Continue
                } else if c == 'l' {
                    self.output.push(Piece::ClearScreen);
                    self.output.push(Piece::CursorHome);
                    assert(pieces(self.output@) =~= pieces(old(self).output@) + seq![
                        PieceView::ClearScreen,
                        PieceView::CursorHome,
                    ]);
                    Step::Continue
                } else {
                    Step::Continue
                }
            },
            Key::Enter => {
                self.write("");
                let text = session.finalize(&mut self.history);
                push_submitted_frame(&text, &mut self.output);
                Step::Submitted(text)
            },
            Key::Backspace => {
                session.buffer.delete_before_cursor();
                Step::Continue
            },
            Key::Left => {
                session.buffer.move_left();
                Step::Continue
            },
            Key::Right => {
                session.buffer.move_right();
                Step::Continue
            },
            Key::Up => {
                session.navigate_up(&mut self.history);
                Step::Continue
            },
            Key::Down => {
                session.navigate_down(&self.history);
                Step::Continue
            },
            Key::Other => Step::Continue,
        }
    }

    /// Acts on a line read: writes what the line asks to be shown and returns
    /// what is left to do. The history and the directory stay as they are.
    pub fn handle_input(&mut self, input: Input, home: &str) -> (r: Action)
        ensures
            final(self).path == old(self).path,
            final(self).history == old(self).history,
            match input {
                Input::Exit => r@ == ActionView::Quit && final(self).output == old(self).output,
                Input::Command(line) => r@ == classified(line@, home@) && pieces(
                    final(self).output@,
                ) == pieces(old(self).output@) + reply(r@, old(self).path@),
            },
    {
        match input {
            Input::Exit => Action::Quit,
            Input::Command(line) => {
                let action = classify(line.as_str(), home);
                match &action {
                    Action::Quit => {
                        self.write("See you later, Bye!\r");
                    },
                    Action::ShowPath => {
                        let path = self.path.clone();
                        self.write(path.as_str());
                    },
                    _ => {},
                }
                assert(pieces(final(self).output@) =~= pieces(old(self).output@) + reply(
                    action@,
                    old(self).path@,
                ));
                action
            },
        }
    }

    /// Writes what running a program ended with: nothing when it finished,
    /// `Unknown command` when it was not found, else the reason in red.
    pub fn report_run(&mut self, outcome: RunOutcome)
        ensures
            final(self).path == old(self).path,
            final(self).history == old(self).history,
            pieces(final(self).output@) == pieces(old(self).output@) + run_report(outcome),
    {
        match outcome {
            RunOutcome::Finished => {},
            RunOutcome::NotFound => {
                self.write("Unknown command");
            },
            RunOutcome::Failed(detail) => {
                self.write_error(detail.as_str());
            },
        }
        assert(pieces(final(self).output@) =~= pieces(old(self).output@) + run_report(outcome));
    }

    /// Writes, in red, that a command could not be carried out, for the reason
    /// `detail`.
    pub fn write_error(&mut self, detail: &str)
        ensures
            final(self).path == old(self).path,
            final(self).history == old(self).history,
            pieces(final(self).output@) == pieces(old(self).output@) + error_message(detail@),
    {
        let crlf = chars_of("\r\n");
        let body = string_of(&replace_char(&chars_of(detail), '\n', &crlf));
        let message = owned("Error running command: ").concat(body.as_str());
        self.output.push(Piece::Painted(Color::Red, message));
        self.output.push(Piece::Text(owned("\r\n")));
        assert(pieces(final(self).output@) =~= pieces(old(self).output@) + error_message(
            detail@,
        ));
    }
}

/// An empty line, or one that starts with the comment marker, asks for
/// nothing: no program is run and nothing is written. (`handle_input` leaves
/// the history as it is for every line.)
pub proof fn lemma_blank_and_comment_lines_do_nothing(
    line: Seq<char>,
    home: Seq<char>,
    path: Seq<char>,
)
    requires
        line.len() == 0 || is_comment(line),
    ensures
        classified(line, home) == ActionView::Ignore,
        reply(classified(line, home), path) == Seq::<PieceView>::empty(),
{
}

/// `cd` alone writes the current directory as it is, and changes nothing.
pub proof fn lemma_cd_alone_shows_path(line: Seq<char>, home: Seq<char>, path: Seq<char>)
    requires
        line.len() > 0,
        !is_comment(line),
        words(line) == seq![seq!['c', 'd']],
    ensures
        classified(line, home) == ActionView::ShowPath,
        reply(classified(line, home), path) == seq![written(path)],
{
}

/// `cd ~` changes to the home directory.
pub proof fn lemma_cd_tilde_is_home(line: Seq<char>, home: Seq<char>)
    requires
        line.len() > 0,
        !is_comment(line),
        words(line) == seq![seq!['c', 'd'], seq!['~']],
    ensures
        classified(line, home) == ActionView::ChangeDir(home),
{
    let tilde = seq!['~'];
    assert(tilde.drop_last() =~= Seq::<char>::empty());
    assert(replaced(Seq::<char>::empty(), '~', home) == Seq::<char>::empty());
    assert(tilde.last() == '~');
    assert(replaced(tilde, '~', home) == Seq::<char>::empty() + home);
    assert(Seq::<char>::empty() + home =~= home);
}

} // verus!
