//! The scrolling log and the prompt line of `unsegen`, with the contracts that
//! the rest of the library relies on. Nothing in this file is proved: each
//! contract restates what the widget's source does.

use vstd::prelude::*;
use unsegen::input::Editable;
use unsegen::input::Navigatable;
use unsegen::input::Scrollable;
use unsegen::input::Writable;
use unsegen::widget::builtin::LogViewer;
use unsegen::widget::builtin::PromptLine;

verus! {

#[verifier::external_type_specification]
#[verifier::external_body]
pub struct ExLogViewer(LogViewer);

#[verifier::external_type_specification]
#[verifier::external_body]
pub struct ExPromptLine(PromptLine);

/// All text written to a log so far: its stored lines, joined by line breaks.
pub uninterp spec fn log_text(log: LogViewer) -> Seq<char>;

/// The text that a prompt line currently holds for editing.
pub uninterp spec fn prompt_text(prompt: PromptLine) -> Seq<char>;

/// Whether a prompt line is in its history-search state, in which keystrokes
/// edit the search pattern and not the line.
pub uninterp spec fn prompt_searching(prompt: PromptLine) -> bool;

/// `LogViewer::new`: the new log holds one empty line, that is, no text.
#[verifier::external_body]
pub(crate) fn log_new() -> (log: LogViewer)
    ensures
        log_text(log) == Seq::<char>::empty(),
{
    LogViewer::new()
}

/// `<LogViewer as std::fmt::Write>::write_str`: the text is appended to the
/// active line, a new line being started at each line break; it never fails.
#[verifier::external_body]
pub(crate) fn log_write(log: &mut LogViewer, text: &str)
    ensures
        log_text(*final(log)) == log_text(*old(log)) + text@,
{
    let _ = std::fmt::Write::write_str(log, text);
}

/// `<LogViewer as Scrollable>::scroll_forwards`: moves the viewport only.
#[verifier::external_body]
pub(crate) fn log_scroll_forwards(log: &mut LogViewer)
    ensures
        log_text(*final(log)) == log_text(*old(log)),
{
    let _ = log.scroll_forwards();
}

/// `<LogViewer as Scrollable>::scroll_backwards`: moves the viewport only.
#[verifier::external_body]
pub(crate) fn log_scroll_backwards(log: &mut LogViewer)
    ensures
        log_text(*final(log)) == log_text(*old(log)),
{
    let _ = log.scroll_backwards();
}

/// `PromptLine::with_prompt`: a prompt line in its editing state with nothing
/// typed yet.
#[verifier::external_body]
pub(crate) fn prompt_new(symbol: &str) -> (prompt: PromptLine)
    ensures
        prompt_text(prompt) == Seq::<char>::empty(),
        !prompt_searching(prompt),
{
    PromptLine::with_prompt(symbol.to_owned())
}

/// `PromptLine::active_line`: the text being edited.
#[verifier::external_body]
pub(crate) fn prompt_active_line(prompt: &PromptLine) -> (line: String)
    ensures
        line@ == prompt_text(*prompt),
{
    prompt.active_line().to_owned()
}

/// `PromptLine::finish_line`: hands out the text being edited, empties the
/// line and returns to the editing state.
#[verifier::external_body]
pub(crate) fn prompt_finish_line(prompt: &mut PromptLine) -> (line: String)
    ensures
        line@ == prompt_text(*old(prompt)),
        prompt_text(*final(prompt)) == Seq::<char>::empty(),
        !prompt_searching(*final(prompt)),
{
    prompt.finish_line().to_owned()
}

/// `<PromptLine as Editable>::clear`: outside the search state the line is
/// emptied.
#[verifier::external_body]
pub(crate) fn prompt_clear(prompt: &mut PromptLine)
    requires
        !prompt_searching(*old(prompt)),
    ensures
        prompt_text(*final(prompt)) == Seq::<char>::empty(),
        !prompt_searching(*final(prompt)),
{
    let _ = prompt.clear();
}

/// `<PromptLine as Writable>::write`: types one character at the cursor; the
/// search state is not entered.
#[verifier::external_body]
pub(crate) fn prompt_write(prompt: &mut PromptLine, c: char)
    requires
        !prompt_searching(*old(prompt)),
    ensures
        !prompt_searching(*final(prompt)),
{
    let _ = prompt.write(c);
}

/// `<PromptLine as Editable>::delete_forwards`: the search state is not entered.
#[verifier::external_body]
pub(crate) fn prompt_delete_forwards(prompt: &mut PromptLine)
    requires
        !prompt_searching(*old(prompt)),
    ensures
        !prompt_searching(*final(prompt)),
{
    let _ = prompt.delete_forwards();
}

/// `<PromptLine as Editable>::delete_backwards`: the search state is not entered.
#[verifier::external_body]
pub(crate) fn prompt_delete_backwards(prompt: &mut PromptLine)
    requires
        !prompt_searching(*old(prompt)),
    ensures
        !prompt_searching(*final(prompt)),
{
    let _ = prompt.delete_backwards();
}

/// `<PromptLine as Navigatable>::move_left`: outside the search state only the
/// cursor moves.
#[verifier::external_body]
pub(crate) fn prompt_move_left(prompt: &mut PromptLine)
    requires
        !prompt_searching(*old(prompt)),
    ensures
        prompt_text(*final(prompt)) == prompt_text(*old(prompt)),
        !prompt_searching(*final(prompt)),
{
    let _ = prompt.move_left();
}

/// `<PromptLine as Navigatable>::move_right`: outside the search state only the
/// cursor moves.
#[verifier::external_body]
pub(crate) fn prompt_move_right(prompt: &mut PromptLine)
    requires
        !prompt_searching(*old(prompt)),
    ensures
        prompt_text(*final(prompt)) == prompt_text(*old(prompt)),
        !prompt_searching(*final(prompt)),
{
    let _ = prompt.move_right();
}

/// `<PromptLine as Navigatable>::move_up`: steps back in the history; the
/// search state is not entered.
#[verifier::external_body]
pub(crate) fn prompt_move_up(prompt: &mut PromptLine)
    requires
        !prompt_searching(*old(prompt)),
    ensures
        !prompt_searching(*final(prompt)),
{
    let _ = prompt.move_up();
}

/// `<PromptLine as Navigatable>::move_down`: steps forward in the history; the
/// search state is not entered.
#[verifier::external_body]
pub(crate) fn prompt_move_down(prompt: &mut PromptLine)
    requires
        !prompt_searching(*old(prompt)),
    ensures
        !prompt_searching(*final(prompt)),
{
    let _ = prompt.move_down();
}

} // verus!
