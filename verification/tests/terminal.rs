use debugger_gui::terminal::PseudoTerminal;
use unsegen::base::terminal::test::FakeTerminal;
use unsegen::widget::builtin::LogViewer;
use unsegen::widget::{RenderingHints, Widget};

fn render_terminal_log(log: &LogViewer, width: u32, height: u32) -> String {
    let mut term = FakeTerminal::with_size((width, height));
    log.as_widget().draw(term.create_root_window(), RenderingHints::new());
    format!("{:?}", term)
}

#[test]
fn new_terminal_is_empty() {
    let term = PseudoTerminal::new();
    assert_eq!(term.pending_bytes(), Vec::<u8>::new());
}

#[test]
fn ascii_is_shown_at_once() {
    let mut term = PseudoTerminal::new();
    term.add_byte_input(b"hello".to_vec());
    assert_eq!(term.pending_bytes(), Vec::<u8>::new());
    assert!(render_terminal_log(term.display(), 12, 2).contains("hello"));
}

#[test]
fn truncated_character_waits_for_its_rest() {
    // U+20AC is E2 82 AC.
    let mut term = PseudoTerminal::new();
    term.add_byte_input(vec![b'a', 0xE2, 0x82]);
    assert_eq!(term.pending_bytes(), vec![b'a', 0xE2, 0x82]);
    assert!(!render_terminal_log(term.display(), 12, 2).contains("a"));
    term.add_byte_input(vec![0xAC, b'b']);
    assert_eq!(term.pending_bytes(), Vec::<u8>::new());
    assert!(render_terminal_log(term.display(), 12, 2).contains("a\u{20AC}b"));
}

#[test]
fn bytewise_feeding_shows_the_same_text_as_whole() {
    let text = "x\u{e9}y\u{20AC}z\u{1F600}!";
    let mut whole = PseudoTerminal::new();
    whole.add_byte_input(text.as_bytes().to_vec());
    let mut bytewise = PseudoTerminal::new();
    for b in text.as_bytes() {
        bytewise.add_byte_input(vec![*b]);
        let pending = bytewise.pending_bytes();
        assert!(pending.is_empty() || std::str::from_utf8(&pending).is_err());
    }
    assert_eq!(whole.pending_bytes(), Vec::<u8>::new());
    assert_eq!(bytewise.pending_bytes(), Vec::<u8>::new());
    assert_eq!(
        render_terminal_log(whole.display(), 20, 3),
        render_terminal_log(bytewise.display(), 20, 3)
    );
    assert!(render_terminal_log(bytewise.display(), 20, 3).contains("x\u{e9}y\u{20AC}z"));
}

#[test]
fn ill_formed_bytes_are_never_shown() {
    let mut term = PseudoTerminal::new();
    term.add_byte_input(vec![0xFF]);
    assert_eq!(term.pending_bytes(), vec![0xFF]);
    term.add_byte_input(b"ok".to_vec());
    assert_eq!(term.pending_bytes(), vec![0xFF, b'o', b'k']);
    assert!(!render_terminal_log(term.display(), 12, 2).contains("ok"));
}

#[test]
fn control_sequences_are_plain_text() {
    let mut term = PseudoTerminal::new();
    term.add_byte_input(vec![0x1B, b'[', b'1', b'm']);
    assert_eq!(term.pending_bytes(), Vec::<u8>::new());
}

#[test]
fn empty_chunk_changes_nothing() {
    let mut term = PseudoTerminal::new();
    term.add_byte_input(vec![0xE2]);
    term.add_byte_input(Vec::new());
    assert_eq!(term.pending_bytes(), vec![0xE2]);
}

#[test]
fn typed_character_is_encoded_for_the_debuggee() {
    let term = PseudoTerminal::new();
    assert_eq!(term.write('a'), vec![b'a']);
    assert_eq!(term.write('\u{e9}'), vec![0xC3, 0xA9]);
    assert_eq!(term.write('\u{20AC}'), vec![0xE2, 0x82, 0xAC]);
    assert_eq!(term.write('\u{1F600}'), vec![0xF0, 0x9F, 0x98, 0x80]);
}
