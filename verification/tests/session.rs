use parallel_shell::command::{conclude, Completion, Emission, Invocation, Stream, SubprocessResult, Verdict};
use parallel_shell::session::{
    print_current_options, print_help, prompt, Action, ReadOutcome, Session,
};

fn line(text: &str) -> ReadOutcome {
    ReadOutcome::Line(String::from(text))
}

fn stdout(text: &str) -> Action {
    Action::Emit(Emission { stream: Stream::Stdout, text: String::from(text) })
}

fn runs(command: &str) -> Action {
    Action::Execute(Invocation {
        program: String::from("sh"),
        flag: String::from("-c"),
        command: String::from(command),
    })
}

#[test]
fn a_new_session_is_running() {
    assert!(Session::new().is_running());
}

#[test]
fn the_prompt_is_fixed() {
    assert_eq!(prompt(), "(parallel) ");
}

#[test]
fn quit_terminates_without_output_or_execution() {
    for text in ["q", "quit", " q", "quit  ", "\tq\n", "  quit\r\n"] {
        let mut session = Session::new();
        assert_eq!(session.step(line(text)), Action::Nothing, "{:?}", text);
        assert!(!session.is_running(), "{:?}", text);
    }
}

#[test]
fn blank_input_does_nothing_and_continues() {
    for text in ["", " ", "\t", "   \t  ", "\n", "\u{a0}\u{2009}"] {
        let mut session = Session::new();
        assert_eq!(session.step(line(text)), Action::Nothing, "{:?}", text);
        assert!(session.is_running(), "{:?}", text);
    }
}

#[test]
fn help_shows_the_help_text_and_continues() {
    let mut session = Session::new();
    assert_eq!(session.step(line("help")), stdout(&print_help()));
    assert!(session.is_running());
}

#[test]
fn help_is_never_executed() {
    let mut session = Session::new();
    let action = session.step(line("  help  "));
    assert!(!matches!(action, Action::Execute(_)));
    assert!(matches!(action, Action::Emit(_)));
}

#[test]
fn o_shows_the_options_text_and_continues() {
    let mut session = Session::new();
    assert_eq!(session.step(line("o")), stdout(&print_current_options()));
    assert!(session.is_running());
}

#[test]
fn help_and_options_texts_are_empty() {
    assert_eq!(print_help(), "");
    assert_eq!(print_current_options(), "");
}

#[test]
fn any_other_line_is_executed_once_and_trimmed() {
    for (text, command) in [
        ("echo hi", "echo hi"),
        ("  ls -l  ", "ls -l"),
        ("false\n", "false"),
        ("quit now", "quit now"),
        ("a | b > c", "a | b > c"),
    ] {
        let mut session = Session::new();
        assert_eq!(session.step(line(text)), runs(command), "{:?}", text);
        assert!(session.is_running(), "{:?}", text);
    }
}

#[test]
fn echo_hi_prints_its_output_and_continues() {
    let mut session = Session::new();
    let action = session.step(line("echo hi"));
    assert_eq!(action, runs("echo hi"));
    let completion = Completion::Exited(SubprocessResult {
        stdout: b"hi\n".to_vec(),
        stderr: Vec::new(),
        success: true,
    });
    let shown = Emission { stream: Stream::Stdout, text: String::from("hi\n\n") };
    assert_eq!(conclude(&completion), Verdict::Show(shown));
    assert!(session.is_running());
}

#[test]
fn false_prints_an_error_line_and_continues() {
    let mut session = Session::new();
    let action = session.step(line("false"));
    assert_eq!(action, runs("false"));
    let completion = Completion::Exited(SubprocessResult {
        stdout: Vec::new(),
        stderr: Vec::new(),
        success: false,
    });
    let shown = Emission { stream: Stream::Stderr, text: String::from("Error: \n") };
    assert_eq!(conclude(&completion), Verdict::Show(shown));
    assert!(session.is_running());
}

#[test]
fn interrupt_prints_ctrl_c_and_terminates() {
    let mut session = Session::new();
    assert_eq!(session.step(ReadOutcome::Interrupted), stdout("CTRL-C\n"));
    assert!(!session.is_running());
}

#[test]
fn end_of_input_prints_ctrl_d_and_terminates() {
    let mut session = Session::new();
    assert_eq!(session.step(ReadOutcome::EndOfInput), stdout("CTRL-D\n"));
    assert!(!session.is_running());
}

#[test]
fn other_read_error_prints_its_description_and_terminates() {
    let mut session = Session::new();
    let outcome = ReadOutcome::OtherError(String::from("Io(Kind(BrokenPipe))"));
    assert_eq!(session.step(outcome), stdout("Error: Io(Kind(BrokenPipe))\n"));
    assert!(!session.is_running());
}

#[test]
fn other_read_error_without_description() {
    let mut session = Session::new();
    assert_eq!(session.step(ReadOutcome::OtherError(String::new())), stdout("Error: \n"));
    assert!(!session.is_running());
}

#[test]
fn repeated_help_and_options_never_change_the_session() {
    let mut session = Session::new();
    for round in 0..50 {
        assert_eq!(session.step(line("help")), stdout(""), "round {}", round);
        assert!(session.is_running());
        assert_eq!(session.step(line(" o ")), stdout(""), "round {}", round);
        assert!(session.is_running());
    }
    assert_eq!(session.step(line("echo still here")), runs("echo still here"));
}

#[test]
fn a_terminated_session_ignores_what_follows() {
    let mut session = Session::new();
    session.step(line("quit"));
    assert!(!session.is_running());
    for outcome in [
        line("echo hi"),
        line("help"),
        line(""),
        ReadOutcome::Interrupted,
        ReadOutcome::EndOfInput,
        ReadOutcome::OtherError(String::from("late")),
    ] {
        assert_eq!(session.step(outcome), Action::Nothing);
        assert!(!session.is_running());
    }
}

#[test]
fn a_whole_session_in_order() {
    let mut session = Session::new();
    assert_eq!(session.step(line("help")), stdout(""));
    assert_eq!(session.step(line("")), Action::Nothing);
    assert_eq!(session.step(line("ls")), runs("ls"));
    assert_eq!(session.step(line("o")), stdout(""));
    assert_eq!(session.step(line("   ")), Action::Nothing);
    assert_eq!(session.step(line("make test")), runs("make test"));
    assert!(session.is_running());
    assert_eq!(session.step(line(" q ")), Action::Nothing);
    assert!(!session.is_running());
}
