//! The session: one step of the read-dispatch loop, from what the reader
//! reported to what the driver has to do and whether the loop goes on.

use vstd::prelude::*;
use crate::command::{
    execute_command, shell_invocation, Emission, EmissionView, Invocation, InvocationView, Stream,
};
use crate::directive::{
    classification, classify, lemma_empty_iff_blank, lemma_padded_keywords, lemma_pass_through,
    Directive, DirectiveView,
};
use crate::text::{is_blank, trimmed};

verus! {

/// What one read at the prompt came to: a line, an interrupt, the end of the
/// input, or any other failure with its description.
#[derive(Debug, Clone, PartialEq, Eq)]
pub enum ReadOutcome {
    Line(String),
    Interrupted,
    EndOfInput,
    OtherError(String),
}

/// The characters of a [`ReadOutcome`].
pub enum ReadOutcomeView {
    Line(Seq<char>),
    Interrupted,
    EndOfInput,
    OtherError(Seq<char>),
}

impl View for ReadOutcome {
    type V = ReadOutcomeView;

    open spec fn view(&self) -> ReadOutcomeView {
        match self {
            ReadOutcome::Line(line) => ReadOutcomeView::Line(line@),
            ReadOutcome::Interrupted => ReadOutcomeView::Interrupted,
            ReadOutcome::EndOfInput => ReadOutcomeView::EndOfInput,
            ReadOutcome::OtherError(detail) => ReadOutcomeView::OtherError(detail@),
        }
    }
}

/// Whether the loop goes on.
#[derive(Debug, Clone, Copy, PartialEq, Eq, Structural)]
pub enum State {
    Running,
    Terminated,
}

/// What the driver does after a step: nothing, write a text, or run the
/// interpreter once and show what [`crate::command::conclude`] makes of it.
#[derive(Debug, Clone, PartialEq, Eq)]
pub enum Action {
    Nothing,
    Emit(Emission),
    Execute(Invocation),
}

/// The characters of an [`Action`].
pub enum ActionView {
    Nothing,
    Emit(EmissionView),
    Execute(InvocationView),
}

impl View for Action {
    type V = ActionView;

    open spec fn view(&self) -> ActionView {
        match self {
            Action::Nothing => ActionView::Nothing,
            Action::Emit(emission) => ActionView::Emit(emission@),
            Action::Execute(invocation) => ActionView::Execute(invocation@),
        }
    }
}

/// One run of the shell, from its start until the loop ends.
#[derive(Debug)]
pub struct Session {
    state: State,
}

/// The text shown before each read.
pub open spec fn prompt_text() -> Seq<char> {
    "(parallel) "@
}

/// The help text: it is fixed, and it is empty.
pub open spec fn help_text() -> Seq<char> {
    Seq::empty()
}

/// The text that shows the current options: it is fixed, and it is empty.
pub open spec fn options_text() -> Seq<char> {
    Seq::empty()
}

/// The line shown when the read was interrupted.
pub open spec fn interrupt_notice() -> Seq<char> {
    "CTRL-C\n"@
}

/// The line shown when the input ended.
pub open spec fn end_of_input_notice() -> Seq<char> {
    "CTRL-D\n"@
}

/// The line shown when the read failed in any other way, described by `detail`.
pub open spec fn read_error_notice(detail: Seq<char>) -> Seq<char> {
    "Error: "@ + detail + "\n"@
}

/// `text`, to be written to standard output.
pub open spec fn on_stdout(text: Seq<char>) -> ActionView {
    ActionView::Emit(EmissionView { stream: Stream::Stdout, text })
}

/// What a running session does with `outcome`, and the state it is in after.
///
/// A line is classified: Quit ends the session in silence; Help and Options
/// show their text; an empty line does nothing; any other line is run by the
/// interpreter, whole and trimmed. Every other outcome of a read ends the
/// session with one line of notice.
pub open spec fn reaction(outcome: ReadOutcomeView) -> (State, ActionView) {
    match outcome {
        ReadOutcomeView::Line(line) => match classification(line) {
            DirectiveView::Quit => (State::Terminated, ActionView::Nothing),
            DirectiveView::Help => (State::Running, on_stdout(help_text())),
            DirectiveView::Options => (State::Running, on_stdout(options_text())),
            DirectiveView::Empty => (State::Running, ActionView::Nothing),
            DirectiveView::PassThrough(command) => (
                State::Running,
                ActionView::Execute(shell_invocation(command)),
            ),
        },
        ReadOutcomeView::Interrupted => (State::Terminated, on_stdout(interrupt_notice())),
        ReadOutcomeView::EndOfInput => (State::Terminated, on_stdout(end_of_input_notice())),
        ReadOutcomeView::OtherError(detail) => (
            State::Terminated,
            on_stdout(read_error_notice(detail)),
        ),
    }
}

/// One step from `state` on `outcome`. A terminated session stays terminated
/// and does nothing.
pub open spec fn step_of(state: State, outcome: ReadOutcomeView) -> (State, ActionView) {
    match state {
        State::Running => reaction(outcome),
        State::Terminated => (State::Terminated, ActionView::Nothing),
    }
}

/// The state after a whole sequence of outcomes, and the action of each step.
pub open spec fn run_of(state: State, outcomes: Seq<ReadOutcomeView>) -> (State, Seq<ActionView>)
    decreases outcomes.len(),
{
    if outcomes.len() == 0 {
        (state, Seq::empty())
    } else {
        let first = step_of(state, outcomes.first());
        let rest = run_of(first.0, outcomes.drop_first());
        (rest.0, seq![first.1] + rest.1)
    }
}

/// The prompt.
pub fn prompt() -> (text: &'static str)
    ensures
        text@ == prompt_text(),
{
    "(parallel) "
}

/// The help text, ready to be written.
pub fn print_help() -> (text: String)
    ensures
        text@ == help_text(),
{
    String::new()
}

/// The text on the current options, ready to be written.
pub fn print_current_options() -> (text: String)
    ensures
        text@ == options_text(),
{
    String::new()
}

fn to_stdout(text: String) -> (action: Action)
    ensures
        action@ == on_stdout(text@),
{
    Action::Emit(Emission { stream: Stream::Stdout, text })
}

impl Session {
    /// The state of the session.
    pub closed spec fn state(&self) -> State {
        self.state
    }

    /// A session that has just started: it is running.
    pub fn new() -> (session: Session)
        ensures
            session.state() == State::Running,
    {
        Session { state: State::Running }
    }

    /// Whether the loop goes on.
    pub fn is_running(&self) -> (running: bool)
        ensures
            running == (self.state() == State::Running),
    {
        match self.state {
            State::Running => true,
            State::Terminated => false,
        }
    }

    /// Takes one step: decides from what the read came to what the driver does
    /// next, and whether the session is still running after it.
    pub fn step(&mut self, outcome: ReadOutcome) -> (action: Action)
        ensures
            (final(self).state(), action@) == step_of(old(self).state(), outcome@),
    {
        if !self.is_running() {
            return Action::Nothing;
        }
        match outcome {
            ReadOutcome::Line(line) => match classify(line.as_str()) {
                Directive::Quit => {
                    self.state = State::Terminated;
                    Action::Nothing
                },
                Directive::Help => to_stdout(print_help()),
                Directive::Options => to_stdout(print_current_options()),
                Directive::Empty => Action::Nothing,
                Directive::PassThrough(command) => match execute_command(command.as_str()) {
                    Some(invocation) => Action::Execute(invocation),
                    None => Action::Nothing,
                },
            },
            ReadOutcome::Interrupted => {
                self.state = State::Terminated;
                to_stdout(String::from_str("CTRL-C\n"))
            },
            ReadOutcome::EndOfInput => {
                self.state = State::Terminated;
                to_stdout(String::from_str("CTRL-D\n"))
            },
            ReadOutcome::OtherError(detail) => {
                self.state = State::Terminated;
                to_stdout(String::from_str("Error: ").concat(detail.as_str()).concat("\n"))
            },
        }
    }
}

/// Whatever is classified as Quit ends a running session; nothing is shown
/// and nothing is executed.
pub proof fn lemma_quit_ends_session(line: Seq<char>)
    requires
        classification(line) == DirectiveView::Quit,
    ensures
        step_of(State::Running, ReadOutcomeView::Line(line)) == (
            State::Terminated,
            ActionView::Nothing,
        ),
{
}

/// A blank line, empty or white space throughout, leaves a running session
/// running; nothing is shown and nothing is executed.
pub proof fn lemma_blank_line_does_nothing(line: Seq<char>)
    requires
        is_blank(line),
    ensures
        step_of(State::Running, ReadOutcomeView::Line(line)) == (
            State::Running,
            ActionView::Nothing,
        ),
{
    lemma_empty_iff_blank(line);
}

/// Whatever is classified as Help shows the help text on standard output and
/// leaves a running session running; it is never executed.
pub proof fn lemma_help_shows_help(line: Seq<char>)
    requires
        classification(line) == DirectiveView::Help,
    ensures
        step_of(State::Running, ReadOutcomeView::Line(line)) == (
            State::Running,
            on_stdout(help_text()),
        ),
{
}

/// Whatever is classified as Options shows the options text on standard
/// output and leaves a running session running; it is never executed.
pub proof fn lemma_o_shows_options(line: Seq<char>)
    requires
        classification(line) == DirectiveView::Options,
    ensures
        step_of(State::Running, ReadOutcomeView::Line(line)) == (
            State::Running,
            on_stdout(options_text()),
        ),
{
}

/// The same from the text of the line: each keyword, with any white space
/// around it, has its effect on a running session. `q` and `quit` end it in
/// silence; `help` and `o` show their text and leave it running.
pub proof fn lemma_padded_keywords_take_effect(before: Seq<char>, after: Seq<char>)
    requires
        is_blank(before),
        is_blank(after),
    ensures
        step_of(State::Running, ReadOutcomeView::Line(before + "q"@ + after)) == (
            State::Terminated,
            ActionView::Nothing,
        ),
        step_of(State::Running, ReadOutcomeView::Line(before + "quit"@ + after)) == (
            State::Terminated,
            ActionView::Nothing,
        ),
        step_of(State::Running, ReadOutcomeView::Line(before + "help"@ + after)) == (
            State::Running,
            on_stdout(help_text()),
        ),
        step_of(State::Running, ReadOutcomeView::Line(before + "o"@ + after)) == (
            State::Running,
            on_stdout(options_text()),
        ),
{
    lemma_padded_keywords(before, after);
}

/// Any line that is not blank and is none of the four keywords once trimmed
/// makes a running session execute the interpreter exactly once, on the
/// trimmed line and nothing else, and leaves it running.
pub proof fn lemma_other_line_is_executed(line: Seq<char>)
    requires
        !is_blank(line),
        trimmed(line) != "q"@,
        trimmed(line) != "quit"@,
        trimmed(line) != "help"@,
        trimmed(line) != "o"@,
    ensures
        step_of(State::Running, ReadOutcomeView::Line(line)) == (
            State::Running,
            ActionView::Execute(shell_invocation(trimmed(line))),
        ),
{
    lemma_pass_through(line);
}

/// Nothing but such a line, read by a running session, is ever executed.
pub proof fn lemma_only_other_lines_are_executed(state: State, outcome: ReadOutcomeView)
    requires
        step_of(state, outcome).1 is Execute,
    ensures
        state == State::Running,
        outcome is Line,
        !is_blank(outcome->Line_0),
        trimmed(outcome->Line_0) != "q"@,
        trimmed(outcome->Line_0) != "quit"@,
        trimmed(outcome->Line_0) != "help"@,
        trimmed(outcome->Line_0) != "o"@,
{
    lemma_pass_through(outcome->Line_0);
}

/// Whether `outcome` is a line that asks for the help or the options text.
pub open spec fn asks_for_text(outcome: ReadOutcomeView) -> bool {
    outcome matches ReadOutcomeView::Line(line) && (classification(line) == DirectiveView::Help
        || classification(line) == DirectiveView::Options)
}

/// Asking for the help or the options text, however often and in whatever
/// order, never changes the state of a running session, and each request is
/// answered with the same fixed text.
pub proof fn lemma_asking_for_text_repeats(outcomes: Seq<ReadOutcomeView>)
    requires
        forall|i: int| 0 <= i < outcomes.len() ==> asks_for_text(#[trigger] outcomes[i]),
    ensures
        run_of(State::Running, outcomes).0 == State::Running,
        run_of(State::Running, outcomes).1.len() == outcomes.len(),
        forall|i: int|
            0 <= i < outcomes.len() ==> #[trigger] run_of(State::Running, outcomes).1[i] == (
            if classification(outcomes[i]->Line_0) == DirectiveView::Help {
                on_stdout(help_text())
            } else {
                on_stdout(options_text())
            }),
    decreases outcomes.len(),
{
    if outcomes.len() > 0 {
        lemma_asking_for_text_repeats(outcomes.drop_first());
    }
}

/// A terminated session is terminated for good: whatever is read after, it
/// stays terminated and does nothing.
pub proof fn lemma_terminated_is_final(outcomes: Seq<ReadOutcomeView>)
    ensures
        run_of(State::Terminated, outcomes).0 == State::Terminated,
        run_of(State::Terminated, outcomes).1.len() == outcomes.len(),
        forall|i: int|
            0 <= i < outcomes.len() ==> #[trigger] run_of(State::Terminated, outcomes).1[i]
                == ActionView::Nothing,
    decreases outcomes.len(),
{
    if outcomes.len() > 0 {
        lemma_terminated_is_final(outcomes.drop_first());
    }
}

} // verus!
