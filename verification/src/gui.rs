//! The whole front end: a console, the debuggee's terminal and the source
//! pager, with the routing of keystrokes and notifications between them.

use vstd::prelude::*;
use vstd::string::StringExecFns;
use crate::console::{message_line, Console, ConsoleAction, ExecuteOutcome, outcome_line};
use crate::keys::{InputEvent, Key};
use crate::pager::{needs_reload, positioned, after_load, OpenedFile, PagerShowError, PagerState, SourcePager};
use crate::records::{
    class_name, kind_name, stop_effect, stop_fields, stop_request, parsed_number, AsyncClass,
    AsyncKind, OutOfBandRecord, RecordEffect, Value,
};
use crate::terminal::{feed, PseudoTerminal, Stream};
use vstd::utf8::encode_utf8;

verus! {

/// What the caller owes the debugger session or the debuggee after an event.
#[derive(Debug)]
pub enum GuiAction {
    /// Nothing.
    Nothing,
    /// Interrupt the running debuggee.
    Interrupt,
    /// Execute the line as a pass-through command, then report the outcome
    /// with `Gui::command_finished`.
    Execute(String),
    /// Write the bytes to the debuggee's input, at once.
    WriteToTerminal(Vec<u8>),
}

/// The columns of the display: the console on the left, a separator, and the
/// pager above the terminal on the right.
#[derive(Clone, Copy, Debug, PartialEq, Eq)]
pub struct Columns {
    pub left: u32,
    pub separator: u32,
    pub right: u32,
}

/// The width of the separator between the two regions.
pub const SEPARATOR_WIDTH: u32 = 2;

/// The columns of a display of the given width: the left region ends one
/// column before the middle, the separator follows, the right region takes
/// the rest.
pub open spec fn columns_of(width: u32) -> Columns {
    let left = (width / 2 - 1) as u32;
    let rest = (width - left) as u32;
    Columns { left, separator: SEPARATOR_WIDTH, right: (rest - SEPARATOR_WIDTH) as u32 }
}

/// The log line for a stop notification.
pub open spec fn stopped_line(payload: Seq<char>) -> Seq<char> {
    message_line("stopped: "@ + payload)
}

/// The log line for a notification that nothing handles.
pub open spec fn unhandled_line(kind: AsyncKind, class: AsyncClass, payload: Seq<char>) -> Seq<
    char,
> {
    message_line(
        "unhandled async_record: ["@ + kind_name(kind) + ", "@ + class_name(class) + "] "@
            + payload,
    )
}

/// The log line for a debug message.
pub open spec fn debug_line(msg: Seq<char>) -> Seq<char> {
    message_line("Debug: "@ + msg)
}

pub struct Gui {
    console: Console,
    process_pty: PseudoTerminal,
    file_viewer: SourcePager,
}

impl Gui {
    /// Everything the console has logged.
    pub closed spec fn console_log(&self) -> Seq<char> {
        self.console.log()
    }

    /// The text in the console's prompt line.
    pub closed spec fn prompt(&self) -> Seq<char> {
        self.console.prompt()
    }

    /// The debuggee's terminal: waiting bytes and shown text.
    pub closed spec fn terminal(&self) -> Stream {
        self.process_pty.stream()
    }

    /// The source pager.
    pub closed spec fn pager(&self) -> PagerState {
        self.file_viewer@
    }

    /// The console is well-formed.
    pub closed spec fn wf(&self) -> bool {
        self.console.wf()
    }

    pub fn new() -> (gui: Self)
        ensures
            gui.wf(),
            gui.console_log() == Seq::<char>::empty(),
            gui.prompt() == Seq::<char>::empty(),
            gui.terminal() == (Stream { pending: Seq::empty(), shown: Seq::empty() }),
            gui.pager() == (PagerState { content: None, line: 0 }),
    {
        Gui {
            console: Console::new(),
            process_pty: PseudoTerminal::new(),
            file_viewer: SourcePager::new(),
        }
    }

    /// Whether showing `path` must open it first.
    pub fn must_reload(&self, path: &String) -> (reload: bool)
        ensures
            reload == needs_reload(self.pager(), path@),
    {
        self.file_viewer.must_reload(path)
    }

    /// Shows `path` at the zero-based `line` in the pager. The file is loaded
    /// from `opened` only if it is not the one already loaded.
    pub fn show_in_file_viewer(
        &mut self,
        path: String,
        line: usize,
        opened: Option<Result<OpenedFile, std::io::Error>>,
    ) -> (result: Result<(), PagerShowError>)
        requires
            needs_reload(old(self).pager(), path@) ==> opened is Some,
        ensures
            match opened {
                Some(Err(e)) if needs_reload(old(self).pager(), path@) => {
                    &&& result == Err::<(), PagerShowError>(PagerShowError::CouldNotOpenFile(e))
                    &&& final(self).pager() == old(self).pager()
                },
                Some(Ok(file)) => positioned(
                    old(self).pager(),
                    final(self).pager(),
                    path@,
                    line,
                    Some(file),
                    result,
                ),
                _ => positioned(
                    old(self).pager(),
                    final(self).pager(),
                    path@,
                    line,
                    None,
                    result,
                ),
            },
            final(self).console_log() == old(self).console_log(),
            final(self).prompt() == old(self).prompt(),
            final(self).terminal() == old(self).terminal(),
            final(self).wf() == old(self).wf(),
    {
        self.file_viewer.show(path, line, opened)
    }

    /// Takes the outcome of opening `path` into the pager.
    pub fn load_in_file_viewer(
        &mut self,
        path: String,
        opened: Result<OpenedFile, std::io::Error>,
    ) -> (result: Result<(), std::io::Error>)
        ensures
            match opened {
                Ok(file) => result is Ok && final(self).pager() == after_load(path@, file),
                Err(e) => result == Err::<(), std::io::Error>(e) && final(self).pager() == old(
                    self,
                ).pager(),
            },
            final(self).console_log() == old(self).console_log(),
            final(self).prompt() == old(self).prompt(),
            final(self).terminal() == old(self).terminal(),
            final(self).wf() == old(self).wf(),
    {
        self.file_viewer.load(path, opened)
    }

    /// Logs a structured notification and says what a stop asks for.
    fn handle_async_record(
        &mut self,
        kind: AsyncKind,
        class: AsyncClass,
        payload: String,
        results: Vec<(String, Value)>,
    ) -> (effect: RecordEffect)
        ensures
            async_handled(*old(self), *final(self), kind, class, payload@, results@, effect),
    {
        match (kind, &class) {
            (AsyncKind::Exec, AsyncClass::Stopped) => {
                let msg = "stopped: ".to_owned().concat(payload.as_str());
                self.console.add_message(msg);
                stop_request(&results)
            },
            _ => {
                let msg = "unhandled async_record: [".to_owned().concat(kind.name()).concat(
                    ", ",
                ).concat(class.name().as_str()).concat("] ").concat(payload.as_str());
                self.console.add_message(msg);
                RecordEffect::Logged
            },
        }
    }

    /// Takes one notification from the debugger. Stream text goes to the
    /// console's log as it is. A stop of the debuggee is logged and answered
    /// with the place to show; every other notification is logged as
    /// unhandled. The pager and the terminal are not touched.
    pub fn add_out_of_band_record(&mut self, record: OutOfBandRecord) -> (effect: RecordEffect)
        ensures
            match record {
                OutOfBandRecord::StreamRecord { data } => {
                    &&& effect is Logged
                    &&& final(self).console_log() == old(self).console_log() + data@
                    &&& unrelated_kept(*old(self), *final(self))
                },
                OutOfBandRecord::AsyncRecord { kind, class, payload, results } => async_handled(
                    *old(self),
                    *final(self),
                    kind,
                    class,
                    payload@,
                    results@,
                    effect,
                ),
            },
    {
        match record {
            OutOfBandRecord::StreamRecord { data } => {
                self.console.write_text(data.as_str());
                RecordEffect::Logged
            },
            OutOfBandRecord::AsyncRecord { kind, class, payload, results } => {
                self.handle_async_record(kind, class, payload, results)
            },
        }
    }

    /// Takes a chunk of the debuggee's output into its terminal.
    pub fn add_pty_input(&mut self, input: Vec<u8>)
        ensures
            final(self).terminal() == feed(old(self).terminal(), input@),
            final(self).console_log() == old(self).console_log(),
            final(self).prompt() == old(self).prompt(),
            final(self).pager() == old(self).pager(),
            final(self).wf() == old(self).wf(),
    {
        self.process_pty.add_byte_input(input);
    }

    /// Logs a debug message in the console.
    pub fn add_debug_message(&mut self, msg: &str)
        ensures
            final(self).console_log() == old(self).console_log() + debug_line(msg@),
            unrelated_kept(*old(self), *final(self)),
    {
        let line = "Debug: ".to_owned().concat(msg);
        self.console.add_message(line);
    }

    /// Logs how the session answered the command that `event` handed out.
    pub fn command_finished(&mut self, outcome: ExecuteOutcome)
        ensures
            final(self).console_log() == old(self).console_log() + outcome_line(outcome),
            unrelated_kept(*old(self), *final(self)),
    {
        self.console.command_finished(outcome);
    }

    /// The columns into which a display of the given width is split.
    pub fn draw(&self, width: u32) -> (columns: Columns)
        requires
            width >= 2,
        ensures
            columns == columns_of(width),
            columns.left + columns.separator + columns.right == width,
    {
        let left: u32 = width / 2 - 1;
        let rest: u32 = width - left;
        Columns { left, separator: SEPARATOR_WIDTH, right: rest - SEPARATOR_WIDTH }
    }

    /// Routes one event to its region. A console event goes to the console
    /// unchanged. A terminal event that is a character is handed out as the
    /// bytes to write to the debuggee; any other is dropped. A pager event
    /// scrolls the pager on the page keys and is dropped otherwise.
    pub fn event(&mut self, event: InputEvent) -> (action: GuiAction)
        requires
            old(self).wf(),
            !(event is Quit),
        ensures
            final(self).wf(),
            final(self).terminal() == old(self).terminal(),
            match event {
                InputEvent::ConsoleEvent(key) => {
                    &&& final(self).pager() == old(self).pager()
                    &&& console_routed(*old(self), *final(self), key, action)
                },
                InputEvent::PseudoTerminalEvent(key) => {
                    &&& final(self).pager() == old(self).pager()
                    &&& final(self).console_log() == old(self).console_log()
                    &&& final(self).prompt() == old(self).prompt()
                    &&& match key {
                        Key::Char(c) => action matches GuiAction::WriteToTerminal(bytes)
                            && bytes@ == encode_utf8(seq![c]),
                        _ => action is Nothing,
                    }
                },
                InputEvent::SourcePagerEvent(key) => {
                    &&& action is Nothing
                    &&& final(self).console_log() == old(self).console_log()
                    &&& final(self).prompt() == old(self).prompt()
                    &&& final(self).pager() == pager_scrolled(old(self).pager(), key)
                },
                InputEvent::Quit => true,
            },
    {
        match event {
            InputEvent::ConsoleEvent(key) => match self.console.event(key) {
                ConsoleAction::Nothing => GuiAction::Nothing,
                ConsoleAction::Interrupt => GuiAction::Interrupt,
                ConsoleAction::Execute(line) => GuiAction::Execute(line),
            },
            InputEvent::PseudoTerminalEvent(key) => match key {
                Key::Char(c) => GuiAction::WriteToTerminal(self.process_pty.write(c)),
                _ => GuiAction::Nothing,
            },
            InputEvent::SourcePagerEvent(key) => {
                match key {
                    Key::PageDown => {
                        let _ = self.file_viewer.scroll_forwards();
                    },
                    Key::PageUp => {
                        let _ = self.file_viewer.scroll_backwards();
                    },
                    _ => {},
                }
                GuiAction::Nothing
            },
            InputEvent::Quit => GuiAction::Nothing,
        }
    }

    /// The console, for drawing.
    pub fn console(&self) -> (console: &Console)
        ensures
            console.log() == self.console_log(),
            console.prompt() == self.prompt(),
    {
        &self.console
    }

    /// The debuggee's terminal, for drawing.
    pub fn process_pty(&self) -> (term: &PseudoTerminal)
        ensures
            term.stream() == self.terminal(),
    {
        &self.process_pty
    }

    /// The source pager, for drawing.
    pub fn file_viewer(&self) -> (pager: &SourcePager)
        ensures
            pager@ == self.pager(),
    {
        &self.file_viewer
    }

    /// A copy of the text in the console's prompt line.
    pub fn active_line(&self) -> (line: String)
        ensures
            line@ == self.prompt(),
    {
        self.console.active_line()
    }

    /// A copy of the bytes that the terminal keeps for the rest of a
    /// character.
    pub fn pending_bytes(&self) -> (bytes: Vec<u8>)
        ensures
            bytes@ == self.terminal().pending,
    {
        self.process_pty.pending_bytes()
    }

    /// The path of the file in the pager, if one is loaded.
    pub fn loaded_path(&self) -> (path: Option<String>)
        ensures
            match path {
                Some(p) => self.pager().content matches Some(loaded) && loaded.path == p@,
                None => self.pager().content is None,
            },
    {
        self.file_viewer.loaded_path()
    }

    /// The zero-based line at the top of the pager's viewport.
    pub fn current_line(&self) -> (line: usize)
        ensures
            line as nat == self.pager().line,
    {
        self.file_viewer.current_line()
    }
}

/// Prompt, terminal and pager are as they were.
pub open spec fn unrelated_kept(before: Gui, after: Gui) -> bool {
    &&& after.prompt() == before.prompt()
    &&& after.terminal() == before.terminal()
    &&& after.pager() == before.pager()
    &&& after.wf() == before.wf()
}

/// What a structured notification does: a stop of the debuggee is logged
/// with its payload and answered with the place that its fields name; any
/// other one is logged as unhandled. Nothing but the log changes.
pub open spec fn async_handled(
    before: Gui,
    after: Gui,
    kind: AsyncKind,
    class: AsyncClass,
    payload: Seq<char>,
    results: Seq<(String, Value)>,
    effect: RecordEffect,
) -> bool {
    &&& unrelated_kept(before, after)
    &&& if kind == AsyncKind::Exec && class is Stopped {
        &&& after.console_log() == before.console_log() + stopped_line(payload)
        &&& match stop_fields(results) {
            Some((path, line)) => stop_effect(path, parsed_number(line), effect),
            None => effect is Malformed,
        }
    } else {
        &&& after.console_log() == before.console_log() + unhandled_line(kind, class, payload)
        &&& effect is Logged
    }
}

/// What a console event does, in terms of the whole front end.
pub open spec fn console_routed(before: Gui, after: Gui, key: Key, action: GuiAction) -> bool {
    &&& key.is_submit() && before.prompt() == crate::console::interrupt_token() ==> {
        &&& action is Interrupt
        &&& after.console_log() == before.console_log()
        &&& after.prompt() == Seq::<char>::empty()
    }
    &&& key.is_submit() && before.prompt() != crate::console::interrupt_token() ==> {
        &&& action matches GuiAction::Execute(line) && line@ == before.prompt()
        &&& after.console_log() == before.console_log() + crate::console::echo_line(
            before.prompt(),
        )
        &&& after.prompt() == Seq::<char>::empty()
    }
    &&& key.is_interrupt() && before.prompt().len() == 0 ==> {
        &&& action is Interrupt
        &&& after.console_log() == before.console_log()
        &&& after.prompt() == before.prompt()
    }
    &&& key.is_interrupt() && before.prompt().len() > 0 ==> {
        &&& action is Nothing
        &&& after.console_log() == before.console_log()
        &&& after.prompt() == Seq::<char>::empty()
    }
    &&& !key.is_submit() && !key.is_interrupt() ==> {
        &&& action is Nothing
        &&& after.console_log() == before.console_log()
    }
    &&& key is PageUp || key is PageDown || key is Left || key is Right ==> after.prompt()
        == before.prompt()
}

/// The pager after a key: page-down moves one line down, page-up one line
/// up, where there is such a line; no other key moves it.
pub open spec fn pager_scrolled(s: PagerState, key: Key) -> PagerState {
    match key {
        Key::PageDown => crate::pager::after_jump(s, s.line + 1),
        Key::PageUp => if s.line > 0 {
            crate::pager::after_jump(s, (s.line - 1) as nat)
        } else {
            s
        },
        _ => s,
    }
}

} // verus!
