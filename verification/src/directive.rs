//! Classifying a line read at the prompt.

use vstd::prelude::*;
use crate::text::{
    is_blank, lemma_blank_concat, lemma_trimmed_empty_iff_blank, lemma_trimmed_idempotent,
    lemma_trimmed_of_padded, lemma_trimmed_padding, same_text, trim, trimmed,
};

verus! {

/// What a line asks for: one of the built-in directives, nothing at all, or a
/// command to pass through to the interpreter.
#[derive(Debug, Clone, PartialEq, Eq)]
pub enum Directive {
    Quit,
    Help,
    Options,
    Empty,
    PassThrough(String),
}

/// The characters of a [`Directive`].
pub enum DirectiveView {
    Quit,
    Help,
    Options,
    Empty,
    PassThrough(Seq<char>),
}

impl View for Directive {
    type V = DirectiveView;

    open spec fn view(&self) -> DirectiveView {
        match self {
            Directive::Quit => DirectiveView::Quit,
            Directive::Help => DirectiveView::Help,
            Directive::Options => DirectiveView::Options,
            Directive::Empty => DirectiveView::Empty,
            Directive::PassThrough(command) => DirectiveView::PassThrough(command@),
        }
    }
}

/// The classification of a line that is already trimmed. The rules are tried
/// in this order and the first that matches decides.
pub open spec fn classify_trimmed(core: Seq<char>) -> DirectiveView {
    if core == "q"@ || core == "quit"@ {
        DirectiveView::Quit
    } else if core == "help"@ {
        DirectiveView::Help
    } else if core == "o"@ {
        DirectiveView::Options
    } else if core.len() == 0 {
        DirectiveView::Empty
    } else {
        DirectiveView::PassThrough(core)
    }
}

/// The classification of a line as it was read: that of its trimmed form.
pub open spec fn classification(line: Seq<char>) -> DirectiveView {
    classify_trimmed(trimmed(line))
}

/// Classifies `line`. White space around it is ignored; a command that is
/// passed through is the trimmed line, unchanged.
pub fn classify(line: &str) -> (directive: Directive)
    ensures
        directive@ == classification(line@),
{
    let core = trim(line);
    if same_text(core, "q") || same_text(core, "quit") {
        Directive::Quit
    } else if same_text(core, "help") {
        Directive::Help
    } else if same_text(core, "o") {
        Directive::Options
    } else if core.is_empty() {
        Directive::Empty
    } else {
        Directive::PassThrough(String::from_str(core))
    }
}

/// White space around a line does not change its classification.
pub proof fn lemma_classification_ignores_padding(
    before: Seq<char>,
    line: Seq<char>,
    after: Seq<char>,
)
    requires
        is_blank(before),
        is_blank(after),
    ensures
        classification(before + line + after) == classification(line),
{
    let pad = lemma_trimmed_padding(line);
    let left = before + pad.0;
    let right = pad.1 + after;
    lemma_blank_concat(before, pad.0);
    lemma_blank_concat(pad.1, after);
    assert(before + line + after =~= left + trimmed(line) + right);
    lemma_trimmed_of_padded(left, trimmed(line), right);
}

/// A line that is trimmed before it is classified is classified no differently.
pub proof fn lemma_classification_of_trimmed(line: Seq<char>)
    ensures
        classification(trimmed(line)) == classification(line),
{
    lemma_trimmed_idempotent(line);
}

/// Each keyword, with any white space around it, is classified as its own
/// directive: `q` and `quit` as Quit, `help` as Help, `o` as Options.
pub proof fn lemma_padded_keywords(before: Seq<char>, after: Seq<char>)
    requires
        is_blank(before),
        is_blank(after),
    ensures
        classification(before + "q"@ + after) == DirectiveView::Quit,
        classification(before + "quit"@ + after) == DirectiveView::Quit,
        classification(before + "help"@ + after) == DirectiveView::Help,
        classification(before + "o"@ + after) == DirectiveView::Options,
{
    reveal_strlit("q");
    reveal_strlit("quit");
    reveal_strlit("help");
    reveal_strlit("o");
    lemma_classification_ignores_padding(before, "q"@, after);
    lemma_classification_ignores_padding(before, "quit"@, after);
    lemma_classification_ignores_padding(before, "help"@, after);
    lemma_classification_ignores_padding(before, "o"@, after);
}

/// A line is classified as Empty exactly when it is blank: empty or white
/// space throughout.
pub proof fn lemma_empty_iff_blank(line: Seq<char>)
    ensures
        classification(line) == DirectiveView::Empty <==> is_blank(line),
{
    reveal_strlit("q");
    reveal_strlit("quit");
    reveal_strlit("help");
    reveal_strlit("o");
    lemma_trimmed_empty_iff_blank(line);
}

/// A line is passed through exactly when its trimmed form is not empty and is
/// none of the four keywords; the command is then that trimmed form.
pub proof fn lemma_pass_through(line: Seq<char>)
    ensures
        classification(line) is PassThrough <==> !is_blank(line) && trimmed(line) != "q"@
            && trimmed(line) != "quit"@ && trimmed(line) != "help"@ && trimmed(line) != "o"@,
        classification(line) is PassThrough ==> classification(line)
            == DirectiveView::PassThrough(trimmed(line)),
{
    lemma_trimmed_empty_iff_blank(line);
}

} // verus!
