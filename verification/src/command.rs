//! Forwarding a command to the system's interpreter: what is invoked for a
//! command line, and what is shown once the child process has ended.

use vstd::prelude::*;

verus! {

/// One call of the command interpreter: the program, the flag that makes it
/// read its command from the next argument, and that command as one argument.
#[derive(Debug, Clone, PartialEq, Eq)]
pub struct Invocation {
    pub program: String,
    pub flag: String,
    pub command: String,
}

/// The characters of an [`Invocation`].
pub struct InvocationView {
    pub program: Seq<char>,
    pub flag: Seq<char>,
    pub command: Seq<char>,
}

impl View for Invocation {
    type V = InvocationView;

    open spec fn view(&self) -> InvocationView {
        InvocationView { program: self.program@, flag: self.flag@, command: self.command@ }
    }
}

/// What a child process left behind: the bytes it wrote to its standard
/// output and to its standard error, and whether it exited with success.
#[derive(Debug, Clone, PartialEq, Eq)]
pub struct SubprocessResult {
    pub stdout: Vec<u8>,
    pub stderr: Vec<u8>,
    pub success: bool,
}

/// The stream a text is written to.
#[derive(Debug, Clone, Copy, PartialEq, Eq, Structural)]
pub enum Stream {
    Stdout,
    Stderr,
}

/// A text to write, whole and unchanged, to one of the two streams.
#[derive(Debug, Clone, PartialEq, Eq)]
pub struct Emission {
    pub stream: Stream,
    pub text: String,
}

/// The stream and the characters of an [`Emission`].
pub struct EmissionView {
    pub stream: Stream,
    pub text: Seq<char>,
}

impl View for Emission {
    type V = EmissionView;

    open spec fn view(&self) -> EmissionView {
        EmissionView { stream: self.stream, text: self.text@ }
    }
}

/// How an invocation ended: the child ran and exited, or it could not be
/// started at all, with the reason as text.
#[derive(Debug, Clone, PartialEq, Eq)]
pub enum Completion {
    Exited(SubprocessResult),
    SpawnFailed(String),
}

/// What follows an invocation: a text to show, after which the session goes
/// on, or a diagnostic with which the whole program must abort.
#[derive(Debug, Clone, PartialEq, Eq)]
pub enum Verdict {
    Show(Emission),
    Abort(String),
}

/// The characters of a [`Verdict`].
pub enum VerdictView {
    Show(EmissionView),
    Abort(Seq<char>),
}

impl View for Verdict {
    type V = VerdictView;

    open spec fn view(&self) -> VerdictView {
        match self {
            Verdict::Show(emission) => VerdictView::Show(emission@),
            Verdict::Abort(diagnostic) => VerdictView::Abort(diagnostic@),
        }
    }
}

/// The invocation that runs `command`: `sh -c` with the command, whole, as the
/// one argument after the flag.
pub open spec fn shell_invocation(command: Seq<char>) -> InvocationView {
    InvocationView { program: "sh"@, flag: "-c"@, command }
}

/// The text of `bytes` read as UTF-8, each invalid sequence replaced by U+FFFD.
pub uninterp spec fn lossy_text(bytes: Seq<u8>) -> Seq<char>;

/// What is shown for a child that exited with success and wrote `decoded` to
/// its standard output: that text and a line end, on standard output.
pub open spec fn success_report(decoded: Seq<char>) -> EmissionView {
    EmissionView { stream: Stream::Stdout, text: decoded + "\n"@ }
}

/// What is shown for a child that exited without success and wrote `decoded`
/// to its standard error: `Error: `, that text and a line end, on standard error.
pub open spec fn failure_report(decoded: Seq<char>) -> EmissionView {
    EmissionView { stream: Stream::Stderr, text: "Error: "@ + decoded + "\n"@ }
}

/// What is shown for `result`: its output if it succeeded, else its errors.
pub open spec fn report_of(result: SubprocessResult) -> EmissionView {
    if result.success {
        success_report(lossy_text(result.stdout@))
    } else {
        failure_report(lossy_text(result.stderr@))
    }
}

/// The diagnostic for an interpreter that could not be started for `reason`.
pub open spec fn spawn_failure(reason: Seq<char>) -> Seq<char> {
    "Failed to execute command: "@ + reason
}

/// What follows `completion`.
pub open spec fn verdict_of(completion: Completion) -> VerdictView {
    match completion {
        Completion::Exited(result) => VerdictView::Show(report_of(result)),
        Completion::SpawnFailed(reason) => VerdictView::Abort(spawn_failure(reason@)),
    }
}

/// Calls `String::from_utf8_lossy`, which reads `bytes` as UTF-8 and puts
/// U+FFFD in place of each invalid sequence; bytes that are valid UTF-8 come
/// back as the very text they encode.
#[verifier::external_body]
fn decode_lossy(bytes: &[u8]) -> (text: String)
    ensures
        text@ == lossy_text(bytes@),
        vstd::utf8::valid_utf8(bytes@) ==> text@ == vstd::utf8::decode_utf8(bytes@),
{
    String::from_utf8_lossy(bytes).into_owned()
}

/// Decides what to invoke for the trimmed line `cmd`: nothing for an empty
/// line, else the interpreter with `cmd` as its command.
pub fn execute_command(cmd: &str) -> (invocation: Option<Invocation>)
    ensures
        cmd@.len() == 0 ==> invocation is None,
        cmd@.len() > 0 ==> invocation is Some && invocation->0@ == shell_invocation(cmd@),
{
    if cmd.is_empty() {
        return None;
    }
    Some(
        Invocation {
            program: String::from_str("sh"),
            flag: String::from_str("-c"),
            command: String::from_str(cmd),
        },
    )
}

/// The emission for a successful child whose decoded output is `decoded`.
pub fn show_output(decoded: &str) -> (emission: Emission)
    ensures
        emission@ == success_report(decoded@),
{
    let text = String::from_str(decoded).concat("\n");
    Emission { stream: Stream::Stdout, text }
}

/// The emission for a failed child whose decoded errors are `decoded`.
pub fn show_failure(decoded: &str) -> (emission: Emission)
    ensures
        emission@ == failure_report(decoded@),
{
    let text = String::from_str("Error: ").concat(decoded).concat("\n");
    Emission { stream: Stream::Stderr, text }
}

/// Turns the result of a child process into what is shown for it. Decoding
/// never fails: bytes that are no UTF-8 are replaced, not refused.
pub fn report(result: &SubprocessResult) -> (emission: Emission)
    ensures
        emission@ == report_of(*result),
        result.success && vstd::utf8::valid_utf8(result.stdout@) ==> emission@ == success_report(
            vstd::utf8::decode_utf8(result.stdout@),
        ),
        !result.success && vstd::utf8::valid_utf8(result.stderr@) ==> emission@ == failure_report(
            vstd::utf8::decode_utf8(result.stderr@),
        ),
{
    if result.success {
        let decoded = decode_lossy(result.stdout.as_slice());
        show_output(decoded.as_str())
    } else {
        let decoded = decode_lossy(result.stderr.as_slice());
        show_failure(decoded.as_str())
    }
}

/// The diagnostic with which the program aborts when the interpreter could
/// not be started for `reason`.
pub fn spawn_diagnostic(reason: &str) -> (diagnostic: String)
    ensures
        diagnostic@ == spawn_failure(reason@),
{
    String::from_str("Failed to execute command: ").concat(reason)
}

/// Decides what follows an invocation: a child that exited is reported and the
/// session goes on, whatever its status; a child that could not be started
/// ends the program.
pub fn conclude(completion: &Completion) -> (verdict: Verdict)
    ensures
        verdict@ == verdict_of(*completion),
{
    match completion {
        Completion::Exited(result) => Verdict::Show(report(result)),
        Completion::SpawnFailed(reason) => Verdict::Abort(spawn_diagnostic(reason.as_str())),
    }
}

} // verus!
