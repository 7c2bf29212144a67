//! The command console: a scrolling log above a prompt line. It decides what
//! a keystroke means for the debugger session and leaves the session call to
//! its caller.

use vstd::prelude::*;
use unsegen::widget::builtin::LogViewer;
use unsegen::widget::builtin::PromptLine;
use crate::keys::Key;
use crate::widgets::{
    log_new, log_scroll_backwards, log_scroll_forwards, log_text, log_write, prompt_active_line,
    prompt_clear, prompt_delete_backwards, prompt_delete_forwards, prompt_finish_line,
    prompt_move_down, prompt_move_left, prompt_move_right, prompt_move_up, prompt_new,
    prompt_searching, prompt_text, prompt_write,
};

verus! {

/// What the caller owes the debugger session after a keystroke.
#[derive(Debug)]
pub enum ConsoleAction {
    /// Nothing.
    Nothing,
    /// Interrupt the running debuggee, without executing any command.
    Interrupt,
    /// Execute the line as a pass-through command, then report the outcome
    /// with `Console::command_finished`.
    Execute(String),
}

/// How the session answered a command.
#[derive(Debug)]
pub enum ExecuteOutcome {
    /// It ran; the text describes the result.
    Done(String),
    /// The session has ended.
    Quit,
    /// The session is busy with the running debuggee.
    Busy,
}

/// The line that interrupts the session when it is submitted.
pub open spec fn interrupt_token() -> Seq<char> {
    "!stop"@
}

/// A message as the log shows it.
pub open spec fn message_line(msg: Seq<char>) -> Seq<char> {
    " -=- "@ + msg + "\n"@
}

/// The echo of a submitted command.
pub open spec fn echo_line(line: Seq<char>) -> Seq<char> {
    message_line("(gdb) "@ + line)
}

/// The log line that reports a command's outcome.
pub open spec fn outcome_line(outcome: ExecuteOutcome) -> Seq<char> {
    match outcome {
        ExecuteOutcome::Done(text) => message_line("Result: "@ + text@),
        ExecuteOutcome::Quit => message_line("quit"@),
        ExecuteOutcome::Busy => message_line("GDB is running!"@),
    }
}

pub struct Console {
    text_area: LogViewer,
    prompt_line: PromptLine,
}

impl Console {
    /// Everything logged so far.
    pub closed spec fn log(&self) -> Seq<char> {
        log_text(self.text_area)
    }

    /// The text in the prompt line.
    pub closed spec fn prompt(&self) -> Seq<char> {
        prompt_text(self.prompt_line)
    }

    /// The prompt line edits its line; it is never searching its history.
    pub closed spec fn wf(&self) -> bool {
        !prompt_searching(self.prompt_line)
    }

    pub fn new() -> (console: Self)
        ensures
            console.wf(),
            console.log() == Seq::<char>::empty(),
            console.prompt() == Seq::<char>::empty(),
    {
        Console { text_area: log_new(), prompt_line: prompt_new("(gdb) ") }
    }

    /// Logs a message made of two parts.
    fn add_message_parts(&mut self, head: &str, tail: &str)
        ensures
            final(self).log() == old(self).log() + message_line(head@ + tail@),
            final(self).prompt_line == old(self).prompt_line,
    {
        log_write(&mut self.text_area, " -=- ");
        log_write(&mut self.text_area, head);
        log_write(&mut self.text_area, tail);
        log_write(&mut self.text_area, "\n");
        assert(old(self).log() + " -=- "@ + head@ + tail@ + "\n"@ =~= old(self).log()
            + message_line(head@ + tail@));
    }

    /// Appends text to the log as it is.
    pub fn write_text(&mut self, text: &str)
        ensures
            final(self).log() == old(self).log() + text@,
            final(self).prompt() == old(self).prompt(),
            final(self).wf() == old(self).wf(),
    {
        log_write(&mut self.text_area, text);
    }

    /// Logs a message given as borrowed text.
    fn add_message_text(&mut self, msg: &str)
        ensures
            final(self).log() == old(self).log() + message_line(msg@),
            final(self).prompt_line == old(self).prompt_line,
    {
        log_write(&mut self.text_area, " -=- ");
        log_write(&mut self.text_area, msg);
        log_write(&mut self.text_area, "\n");
        assert(old(self).log() + " -=- "@ + msg@ + "\n"@ =~= old(self).log() + message_line(msg@));
    }

    /// Logs a message on a line of its own.
    pub fn add_message(&mut self, msg: String)
        ensures
            final(self).log() == old(self).log() + message_line(msg@),
            final(self).prompt() == old(self).prompt(),
            final(self).wf() == old(self).wf(),
    {
        self.add_message_text(msg.as_str());
    }

    /// Takes one keystroke.
    ///
    /// The submit key takes the line out of the prompt: the interrupt token
    /// asks for an interrupt and is neither echoed nor executed; any other
    /// line is echoed and handed out for execution. The interrupt key asks
    /// for an interrupt if the prompt is empty and clears the prompt
    /// otherwise. Page keys scroll the log; left and right move the
    /// cursor; the remaining keys edit the prompt.
    pub fn event(&mut self, key: Key) -> (action: ConsoleAction)
        requires
            old(self).wf(),
        ensures
            final(self).wf(),
            key.is_submit() && old(self).prompt() == interrupt_token() ==> {
                &&& action is Interrupt
                &&& final(self).log() == old(self).log()
                &&& final(self).prompt() == Seq::<char>::empty()
            },
            key.is_submit() && old(self).prompt() != interrupt_token() ==> {
                &&& action matches ConsoleAction::Execute(line) && line@ == old(self).prompt()
                &&& final(self).log() == old(self).log() + echo_line(old(self).prompt())
                &&& final(self).prompt() == Seq::<char>::empty()
            },
            key.is_interrupt() && old(self).prompt().len() == 0 ==> {
                &&& action is Interrupt
                &&& *final(self) == *old(self)
            },
            key.is_interrupt() && old(self).prompt().len() > 0 ==> {
                &&& action is Nothing
                &&& final(self).log() == old(self).log()
                &&& final(self).prompt() == Seq::<char>::empty()
            },
            !key.is_submit() && !key.is_interrupt() ==> {
                &&& action is Nothing
                &&& final(self).log() == old(self).log()
            },
            key is PageUp || key is PageDown || key is Left || key is Right ==> final(self).prompt()
                == old(self).prompt(),
    {
        match key {
            Key::Char(c) => {
                if c == '\n' {
                    return self.submit();
                }
                prompt_write(&mut self.prompt_line, c);
            },
            Key::Ctrl(c) => {
                if c == 'c' {
                    let line = prompt_active_line(&self.prompt_line);
                    if line.as_str().is_empty() {
                        return ConsoleAction::Interrupt;
                    }
                    prompt_clear(&mut self.prompt_line);
                }
            },
            Key::Left => prompt_move_left(&mut self.prompt_line),
            Key::Right => prompt_move_right(&mut self.prompt_line),
            Key::Up => prompt_move_up(&mut self.prompt_line),
            Key::Down => prompt_move_down(&mut self.prompt_line),
            Key::Delete => prompt_delete_forwards(&mut self.prompt_line),
            Key::Backspace => prompt_delete_backwards(&mut self.prompt_line),
            Key::PageDown => log_scroll_forwards(&mut self.text_area),
            Key::PageUp => log_scroll_backwards(&mut self.text_area),
            _ => {},
        }
        ConsoleAction::Nothing
    }

    /// Takes the line out of the prompt and decides what it asks for.
    fn submit(&mut self) -> (action: ConsoleAction)
        ensures
            final(self).wf(),
            final(self).prompt() == Seq::<char>::empty(),
            old(self).prompt() == interrupt_token() ==> {
                &&& action is Interrupt
                &&& final(self).log() == old(self).log()
            },
            old(self).prompt() != interrupt_token() ==> {
                &&& action matches ConsoleAction::Execute(line) && line@ == old(self).prompt()
                &&& final(self).log() == old(self).log() + echo_line(old(self).prompt())
            },
    {
        let line = prompt_finish_line(&mut self.prompt_line);
        let token = "!stop".to_owned();
        if line == token {
            ConsoleAction::Interrupt
        } else {
            self.add_message_parts("(gdb) ", line.as_str());
            ConsoleAction::Execute(line)
        }
    }

    /// Logs how the session answered the command that `event` handed out.
    pub fn command_finished(&mut self, outcome: ExecuteOutcome)
        ensures
            final(self).log() == old(self).log() + outcome_line(outcome),
            final(self).prompt() == old(self).prompt(),
            final(self).wf() == old(self).wf(),
    {
        match outcome {
            ExecuteOutcome::Done(text) => self.add_message_parts("Result: ", text.as_str()),
            ExecuteOutcome::Quit => self.add_message_text("quit"),
            ExecuteOutcome::Busy => self.add_message_text("GDB is running!"),
        }
    }

    /// The log, for drawing.
    pub fn text_area(&self) -> (log: &LogViewer)
        ensures
            log_text(*log) == self.log(),
    {
        &self.text_area
    }

    /// The prompt line, for drawing.
    pub fn prompt_line(&self) -> (prompt: &PromptLine)
        ensures
            prompt_text(*prompt) == self.prompt(),
    {
        &self.prompt_line
    }

    /// A copy of the text in the prompt line.
    pub fn active_line(&self) -> (line: String)
        ensures
            line@ == self.prompt(),
    {
        prompt_active_line(&self.prompt_line)
    }
}

} // verus!
