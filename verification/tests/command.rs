use parallel_shell::command::{
    conclude, execute_command, report, show_failure, show_output, spawn_diagnostic, Completion,
    Emission, Invocation, Stream, SubprocessResult, Verdict,
};

fn exited(stdout: &[u8], stderr: &[u8], success: bool) -> SubprocessResult {
    SubprocessResult { stdout: stdout.to_vec(), stderr: stderr.to_vec(), success }
}

fn on(stream: Stream, text: &str) -> Emission {
    Emission { stream, text: String::from(text) }
}

#[test]
fn empty_command_invokes_nothing() {
    assert_eq!(execute_command(""), None);
}

#[test]
fn command_is_handed_to_the_interpreter_as_one_argument() {
    let expected = Invocation {
        program: String::from("sh"),
        flag: String::from("-c"),
        command: String::from("echo hi"),
    };
    assert_eq!(execute_command("echo hi"), Some(expected));
}

#[test]
fn command_is_not_split_or_changed() {
    let line = "cat a.txt | grep 'x  y' > \"out file\" && echo $HOME; ls";
    let invocation = execute_command(line).unwrap();
    assert_eq!(invocation.program, "sh");
    assert_eq!(invocation.flag, "-c");
    assert_eq!(invocation.command, line);
}

#[test]
fn white_space_command_is_still_a_command() {
    let invocation = execute_command(" ").unwrap();
    assert_eq!(invocation.command, " ");
}

#[test]
fn successful_output_is_shown_on_stdout_with_a_line_end() {
    let result = exited(b"hi\n", b"", true);
    assert_eq!(report(&result), on(Stream::Stdout, "hi\n\n"));
}

#[test]
fn successful_child_without_output_shows_a_bare_line_end() {
    let result = exited(b"", b"", true);
    assert_eq!(report(&result), on(Stream::Stdout, "\n"));
}

#[test]
fn errors_of_a_successful_child_are_not_shown() {
    let result = exited(b"out", b"warning: something\n", true);
    assert_eq!(report(&result), on(Stream::Stdout, "out\n"));
}

#[test]
fn failure_is_shown_on_stderr_with_its_prefix() {
    let result = exited(b"", b"sh: 1: nope: not found\n", false);
    assert_eq!(report(&result), on(Stream::Stderr, "Error: sh: 1: nope: not found\n\n"));
}

#[test]
fn failure_without_detail_shows_the_prefix_alone() {
    let result = exited(b"", b"", false);
    assert_eq!(report(&result), on(Stream::Stderr, "Error: \n"));
}

#[test]
fn output_of_a_failed_child_is_not_shown() {
    let result = exited(b"partial output", b"boom", false);
    assert_eq!(report(&result), on(Stream::Stderr, "Error: boom\n"));
}

#[test]
fn multi_line_output_is_not_changed() {
    let result = exited(b"a\n\nb\r\n\x1b[31mred\x1b[0m\n", b"", true);
    assert_eq!(report(&result), on(Stream::Stdout, "a\n\nb\r\n\u{1b}[31mred\u{1b}[0m\n\n"));
}

#[test]
fn valid_utf8_is_decoded() {
    let result = exited("gr\u{fc}\u{df}e \u{4e16}\u{754c} \u{1f600}".as_bytes(), b"", true);
    assert_eq!(report(&result), on(Stream::Stdout, "gr\u{fc}\u{df}e \u{4e16}\u{754c} \u{1f600}\n"));
}

#[test]
fn invalid_bytes_in_output_are_replaced() {
    let result = exited(b"a\xffb", b"", true);
    assert_eq!(report(&result), on(Stream::Stdout, "a\u{fffd}b\n"));
}

#[test]
fn invalid_bytes_in_errors_are_replaced() {
    let result = exited(b"", b"\xc3(\x80", false);
    assert_eq!(report(&result), on(Stream::Stderr, "Error: \u{fffd}(\u{fffd}\n"));
}

#[test]
fn truncated_sequence_is_replaced_once() {
    let result = exited(b"\xe2\x82", b"", true);
    assert_eq!(report(&result), on(Stream::Stdout, "\u{fffd}\n"));
}

#[test]
fn show_output_appends_a_line_end() {
    assert_eq!(show_output("hi\n"), on(Stream::Stdout, "hi\n\n"));
    assert_eq!(show_output(""), on(Stream::Stdout, "\n"));
}

#[test]
fn show_failure_puts_the_prefix_first() {
    assert_eq!(show_failure("no such file"), on(Stream::Stderr, "Error: no such file\n"));
    assert_eq!(show_failure(""), on(Stream::Stderr, "Error: \n"));
}

#[test]
fn exited_child_is_shown_whatever_its_status() {
    let good = Completion::Exited(exited(b"hi\n", b"", true));
    assert_eq!(conclude(&good), Verdict::Show(on(Stream::Stdout, "hi\n\n")));
    let bad = Completion::Exited(exited(b"", b"no\n", false));
    assert_eq!(conclude(&bad), Verdict::Show(on(Stream::Stderr, "Error: no\n\n")));
}

#[test]
fn spawn_failure_aborts_with_a_diagnostic() {
    let failed = Completion::SpawnFailed(String::from("Os { code: 2, kind: NotFound }"));
    assert_eq!(
        conclude(&failed),
        Verdict::Abort(String::from("Failed to execute command: Os { code: 2, kind: NotFound }"))
    );
}

#[test]
fn spawn_diagnostic_keeps_the_reason() {
    assert_eq!(spawn_diagnostic("no sh"), "Failed to execute command: no sh");
    assert_eq!(spawn_diagnostic(""), "Failed to execute command: ");
}
