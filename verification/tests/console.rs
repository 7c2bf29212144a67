use debugger_gui::console::{Console, ConsoleAction, ExecuteOutcome};
use debugger_gui::keys::Key;
use unsegen::base::terminal::test::FakeTerminal;
use unsegen::widget::builtin::LogViewer;
use unsegen::widget::{RenderingHints, Widget};

fn render_console_log(log: &LogViewer, width: u32, height: u32) -> String {
    let mut term = FakeTerminal::with_size((width, height));
    log.as_widget().draw(term.create_root_window(), RenderingHints::new());
    format!("{:?}", term)
}

fn type_text(console: &mut Console, text: &str) {
    for c in text.chars() {
        assert!(matches!(console.event(Key::Char(c)), ConsoleAction::Nothing));
    }
}

#[test]
fn new_console_has_an_empty_prompt() {
    let console = Console::new();
    assert_eq!(console.active_line(), "");
}

#[test]
fn typed_characters_reach_the_prompt() {
    let mut console = Console::new();
    type_text(&mut console, "run");
    assert_eq!(console.active_line(), "run");
    assert!(matches!(console.event(Key::Backspace), ConsoleAction::Nothing));
    assert_eq!(console.active_line(), "ru");
}

#[test]
fn cursor_keys_move_inside_the_line() {
    let mut console = Console::new();
    type_text(&mut console, "ab");
    assert!(matches!(console.event(Key::Left), ConsoleAction::Nothing));
    assert_eq!(console.active_line(), "ab");
    type_text(&mut console, "c");
    assert_eq!(console.active_line(), "acb");
    assert!(matches!(console.event(Key::Right), ConsoleAction::Nothing));
    assert!(matches!(console.event(Key::Right), ConsoleAction::Nothing));
    assert_eq!(console.active_line(), "acb");
    assert!(matches!(console.event(Key::Delete), ConsoleAction::Nothing));
    assert_eq!(console.active_line(), "acb");
    assert!(matches!(console.event(Key::Left), ConsoleAction::Nothing));
    assert!(matches!(console.event(Key::Delete), ConsoleAction::Nothing));
    assert_eq!(console.active_line(), "ac");
}

#[test]
fn history_keys_recall_submitted_lines() {
    let mut console = Console::new();
    type_text(&mut console, "step");
    assert!(matches!(console.event(Key::Char('\n')), ConsoleAction::Execute(_)));
    assert!(matches!(console.event(Key::Up), ConsoleAction::Nothing));
    assert_eq!(console.active_line(), "step");
    assert!(matches!(console.event(Key::Ctrl('c')), ConsoleAction::Nothing));
    assert_eq!(console.active_line(), "");
}

#[test]
fn submitted_line_is_echoed_and_handed_out() {
    let mut console = Console::new();
    type_text(&mut console, "break main");
    match console.event(Key::Char('\n')) {
        ConsoleAction::Execute(line) => assert_eq!(line, "break main"),
        other => panic!("unexpected action {:?}", other),
    }
    assert_eq!(console.active_line(), "");
    let shown = render_console_log(console.text_area(), 30, 3);
    assert!(shown.contains(" -=- (gdb) break main"));
}

#[test]
fn interrupt_token_is_neither_echoed_nor_executed() {
    let mut console = Console::new();
    type_text(&mut console, "!stop");
    assert!(matches!(console.event(Key::Char('\n')), ConsoleAction::Interrupt));
    assert_eq!(console.active_line(), "");
    let shown = render_console_log(console.text_area(), 30, 3);
    assert!(!shown.contains("!stop"));
    assert!(!shown.contains("(gdb)"));
}

#[test]
fn empty_line_is_executed() {
    let mut console = Console::new();
    match console.event(Key::Char('\n')) {
        ConsoleAction::Execute(line) => assert_eq!(line, ""),
        other => panic!("unexpected action {:?}", other),
    }
}

#[test]
fn interrupt_key_on_empty_prompt_interrupts() {
    let mut console = Console::new();
    assert!(matches!(console.event(Key::Ctrl('c')), ConsoleAction::Interrupt));
    assert_eq!(console.active_line(), "");
}

#[test]
fn interrupt_key_on_typed_prompt_clears_it() {
    let mut console = Console::new();
    type_text(&mut console, "abc");
    assert!(matches!(console.event(Key::Ctrl('c')), ConsoleAction::Nothing));
    assert_eq!(console.active_line(), "");
    assert!(matches!(console.event(Key::Ctrl('c')), ConsoleAction::Interrupt));
}

#[test]
fn page_keys_leave_the_prompt_alone() {
    let mut console = Console::new();
    type_text(&mut console, "abc");
    assert!(matches!(console.event(Key::PageUp), ConsoleAction::Nothing));
    assert!(matches!(console.event(Key::PageDown), ConsoleAction::Nothing));
    assert_eq!(console.active_line(), "abc");
}

#[test]
fn unbound_keys_do_nothing() {
    let mut console = Console::new();
    type_text(&mut console, "abc");
    assert!(matches!(console.event(Key::Ctrl('x')), ConsoleAction::Nothing));
    assert!(matches!(console.event(Key::F(1)), ConsoleAction::Nothing));
    assert!(matches!(console.event(Key::Other), ConsoleAction::Nothing));
    assert_eq!(console.active_line(), "abc");
}

#[test]
fn outcomes_are_logged() {
    let mut console = Console::new();
    console.command_finished(ExecuteOutcome::Done("Done".to_string()));
    assert!(render_console_log(console.text_area(), 30, 3).contains(" -=- Result: Done"));
    console.command_finished(ExecuteOutcome::Quit);
    assert!(render_console_log(console.text_area(), 30, 3).contains(" -=- quit"));
    console.command_finished(ExecuteOutcome::Busy);
    assert!(render_console_log(console.text_area(), 30, 3).contains(" -=- GDB is running!"));
}

#[test]
fn messages_are_logged_on_their_own_lines() {
    let mut console = Console::new();
    console.add_message("one".to_string());
    console.add_message("two".to_string());
    let shown = render_console_log(console.text_area(), 10, 3);
    assert!(shown.contains(" -=- one"));
    assert!(shown.contains(" -=- two"));
    assert!(!shown.contains("one -=- two"));
}
