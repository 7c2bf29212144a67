//! The view of the debuggee's own terminal: raw output bytes are buffered
//! until they decode as text, and the text goes to a scrolling log.

use vstd::prelude::*;
use vstd::utf8::*;
use unsegen::widget::builtin::LogViewer;
use crate::widgets::{log_new, log_text, log_write};

verus! {

/// What a byte stream has produced so far: the bytes still waiting to be
/// decoded, and the text already shown.
pub struct Stream {
    pub pending: Seq<u8>,
    pub shown: Seq<char>,
}

/// The stream after one chunk of bytes arrived: the chunk joins the waiting
/// bytes; if the whole buffer is well-formed it is decoded, shown and
/// emptied, otherwise all of it keeps waiting.
pub open spec fn feed(s: Stream, bytes: Seq<u8>) -> Stream {
    let buffer = s.pending + bytes;
    if valid_utf8(buffer) {
        Stream { pending: Seq::empty(), shown: s.shown + decode_utf8(buffer) }
    } else {
        Stream { pending: buffer, shown: s.shown }
    }
}

/// The stream after the bytes arrived one at a time.
pub open spec fn feed_each(s: Stream, bytes: Seq<u8>) -> Stream
    decreases bytes.len(),
{
    if bytes.len() == 0 {
        s
    } else {
        feed_each(feed(s, seq![bytes[0]]), bytes.subrange(1, bytes.len() as int))
    }
}

/// Waiting bytes never form complete text: a complete buffer is shown at once.
pub open spec fn settled(s: Stream) -> bool {
    s.pending.len() > 0 ==> !valid_utf8(s.pending)
}

/// `String::from_utf8` on a copy of the bytes: the text they encode, if and
/// only if they are well-formed UTF-8.
#[verifier::external_body]
fn decode_text(bytes: &Vec<u8>) -> (text: Option<String>)
    ensures
        text.is_some() == valid_utf8(bytes@),
        text.is_some() ==> text.unwrap()@ == decode_utf8(bytes@),
{
    String::from_utf8(bytes.clone()).ok()
}

/// `char::encode_utf8`: the one to four bytes that encode the character.
#[verifier::external_body]
fn encode_char(c: char) -> (bytes: Vec<u8>)
    ensures
        bytes@ == encode_utf8(seq![c]),
{
    let mut buffer = [0u8; 4];
    c.encode_utf8(&mut buffer).as_bytes().to_vec()
}

pub struct PseudoTerminal {
    display: LogViewer,
    input_buffer: Vec<u8>,
}

impl PseudoTerminal {
    /// The bytes that wait for the rest of a character.
    pub closed spec fn pending(&self) -> Seq<u8> {
        self.input_buffer@
    }

    /// The text shown so far.
    pub closed spec fn shown(&self) -> Seq<char> {
        log_text(self.display)
    }

    /// Both together.
    pub open spec fn stream(&self) -> Stream {
        Stream { pending: self.pending(), shown: self.shown() }
    }

    pub fn new() -> (term: Self)
        ensures
            term.pending() == Seq::<u8>::empty(),
            term.shown() == Seq::<char>::empty(),
    {
        PseudoTerminal { display: log_new(), input_buffer: Vec::new() }
    }

    /// Takes a chunk of the debuggee's output.
    pub fn add_byte_input(&mut self, bytes: Vec<u8>)
        ensures
            final(self).stream() == feed(old(self).stream(), bytes@),
            settled(final(self).stream()),
    {
        let mut bytes = bytes;
        self.input_buffer.append(&mut bytes);
        match decode_text(&self.input_buffer) {
            Some(text) => {
                log_write(&mut self.display, text.as_str());
                self.input_buffer.clear();
            },
            None => {},
        }
    }

    /// The bytes to forward to the debuggee for one typed character.
    pub fn write(&self, c: char) -> (bytes: Vec<u8>)
        ensures
            bytes@ == encode_utf8(seq![c]),
            valid_utf8(bytes@),
            decode_utf8(bytes@) == seq![c],
    {
        let bytes = encode_char(c);
        proof {
            encode_utf8_valid_utf8(seq![c]);
            encode_utf8_decode_utf8(seq![c]);
        }
        bytes
    }

    /// The log of shown text, for drawing.
    pub fn display(&self) -> (log: &LogViewer)
        ensures
            log_text(*log) == self.shown(),
    {
        &self.display
    }

    /// A copy of the bytes that wait for the rest of a character.
    pub fn pending_bytes(&self) -> (bytes: Vec<u8>)
        ensures
            bytes@ == self.pending(),
    {
        self.input_buffer.clone()
    }
}

/// The end of a well-formed prefix of well-formed bytes is a character
/// boundary.
proof fn lemma_prefix_boundary(a: Seq<u8>, b: Seq<u8>)
    requires
        valid_utf8(a),
        valid_utf8(a + b),
    ensures
        is_char_boundary(a + b, a.len() as int),
    decreases a.len(),
{
    if a.len() > 0 {
        let rest = pop_first_scalar(a);
        assert(length_of_first_scalar(a + b) == length_of_first_scalar(a));
        assert(pop_first_scalar(a + b) =~= rest + b);
        assert(rest.len() == a.len() - length_of_first_scalar(a));
        lemma_prefix_boundary(rest, b);
    }
}

/// Bytes after a well-formed prefix of well-formed bytes are well-formed, and
/// the whole decodes to the two parts' texts in order.
pub proof fn lemma_decode_parts(a: Seq<u8>, b: Seq<u8>)
    requires
        valid_utf8(a),
        valid_utf8(a + b),
    ensures
        valid_utf8(b),
        decode_utf8(a + b) == decode_utf8(a) + decode_utf8(b),
{
    lemma_prefix_boundary(a, b);
    let whole = a + b;
    let at = a.len() as int;
    valid_utf8_split(whole, at);
    decode_utf8_split(whole, at);
    assert(whole.subrange(0, at) =~= a);
    assert(whole.subrange(at, whole.len() as int) =~= b);
}

/// Bytes that complete the waiting ones to well-formed text, fed one at a
/// time, show that text and leave nothing waiting.
pub proof fn lemma_feed_each_completes(s: Stream, bytes: Seq<u8>)
    requires
        settled(s),
        valid_utf8(s.pending + bytes),
    ensures
        feed_each(s, bytes) == (Stream {
            pending: Seq::empty(),
            shown: s.shown + decode_utf8(s.pending + bytes),
        }),
    decreases bytes.len(),
{
    if bytes.len() == 0 {
        assert(s.pending + bytes =~= s.pending);
        assert(s.pending =~= Seq::<u8>::empty());
        assert(s.shown + decode_utf8(Seq::<u8>::empty()) =~= s.shown);
    } else {
        let first = seq![bytes[0]];
        let rest = bytes.subrange(1, bytes.len() as int);
        let buffer = s.pending + first;
        let next = feed(s, first);
        assert(buffer + rest =~= s.pending + bytes);
        if valid_utf8(buffer) {
            lemma_decode_parts(buffer, rest);
            assert(next.pending + rest =~= rest);
            lemma_feed_each_completes(next, rest);
            assert(s.shown + decode_utf8(buffer) + decode_utf8(rest) =~= s.shown + (decode_utf8(
                buffer,
            ) + decode_utf8(rest)));
        } else {
            lemma_feed_each_completes(next, rest);
        }
    }
}

/// No beginning of the bytes completes the waiting ones to well-formed text.
pub open spec fn never_completes(pending: Seq<u8>, bytes: Seq<u8>) -> bool {
    forall|k: int| 0 < k <= bytes.len() ==> !valid_utf8(pending + #[trigger] bytes.subrange(0, k))
}

/// Bytes of which no beginning completes the waiting ones all join them,
/// fed one at a time, and nothing is shown.
pub proof fn lemma_feed_each_waits(s: Stream, bytes: Seq<u8>)
    requires
        never_completes(s.pending, bytes),
    ensures
        feed_each(s, bytes) == (Stream { pending: s.pending + bytes, shown: s.shown }),
    decreases bytes.len(),
{
    if bytes.len() == 0 {
        assert(s.pending + bytes =~= s.pending);
    } else {
        let first = seq![bytes[0]];
        let rest = bytes.subrange(1, bytes.len() as int);
        let next = feed(s, first);
        assert(bytes.subrange(0, 1) =~= first);
        assert(next.pending == s.pending + first);
        assert forall|k: int| 0 < k <= rest.len() implies !valid_utf8(
            next.pending + #[trigger] rest.subrange(0, k),
        ) by {
            assert(next.pending + rest.subrange(0, k) =~= s.pending + bytes.subrange(0, k + 1));
        }
        lemma_feed_each_waits(next, rest);
        assert(next.pending + rest =~= s.pending + bytes);
    }
}

/// Bytes fed one at a time give the stream that they give when fed whole,
/// if they complete the waiting bytes to well-formed text, or if no
/// beginning of them does. On all other bytes the two differ: fed one at a
/// time they show a beginning that the whole keeps waiting.
pub proof fn lemma_bytewise_same_as_whole(s: Stream, bytes: Seq<u8>)
    requires
        settled(s),
        valid_utf8(s.pending + bytes) || never_completes(s.pending, bytes),
    ensures
        feed_each(s, bytes) == feed(s, bytes),
{
    if valid_utf8(s.pending + bytes) {
        lemma_feed_each_completes(s, bytes);
    } else {
        lemma_feed_each_waits(s, bytes);
    }
}

/// Feeding bytes one at a time never takes shown text back, and shows more
/// as soon as some beginning of the bytes completes the waiting ones.
pub proof fn lemma_feed_each_shows_more(s: Stream, bytes: Seq<u8>)
    ensures
        feed_each(s, bytes).shown.len() >= s.shown.len(),
        !never_completes(s.pending, bytes) ==> feed_each(s, bytes).shown.len() > s.shown.len(),
    decreases bytes.len(),
{
    if bytes.len() > 0 {
        let first = seq![bytes[0]];
        let rest = bytes.subrange(1, bytes.len() as int);
        let next = feed(s, first);
        lemma_feed_each_shows_more(next, rest);
        if valid_utf8(s.pending + first) {
            assert((s.pending + first).len() > 0);
            assert(decode_utf8(s.pending + first).len() > 0);
        } else if !never_completes(s.pending, bytes) {
            let k = choose|k: int|
                0 < k <= bytes.len() && valid_utf8(s.pending + #[trigger] bytes.subrange(0, k));
            assert(bytes.subrange(0, 1) =~= first);
            assert(k > 1);
            assert(next.pending + rest.subrange(0, k - 1) =~= s.pending + bytes.subrange(0, k));
        }
    }
}

/// On bytes that do not complete the waiting ones, although some beginning
/// of them does, feeding one at a time shows that beginning and feeding
/// whole shows nothing: the two differ.
pub proof fn lemma_bytewise_differs_otherwise(s: Stream, bytes: Seq<u8>)
    requires
        !valid_utf8(s.pending + bytes),
        !never_completes(s.pending, bytes),
    ensures
        feed_each(s, bytes) != feed(s, bytes),
{
    lemma_feed_each_shows_more(s, bytes);
}

/// Feeding bytes one at a time never shows anything but text decoded from a
/// well-formed buffer, and keeps the stream settled.
pub proof fn lemma_feed_each_settled(s: Stream, bytes: Seq<u8>)
    requires
        settled(s),
    ensures
        settled(feed_each(s, bytes)),
    decreases bytes.len(),
{
    if bytes.len() > 0 {
        lemma_feed_each_settled(feed(s, seq![bytes[0]]), bytes.subrange(1, bytes.len() as int));
    }
}

/// The stream accounts for the bytes consumed so far: they are some
/// well-formed bytes, whose text is what is shown, followed by the waiting
/// bytes.
pub open spec fn accounts_for(s: Stream, consumed: Seq<u8>) -> bool {
    let cut = consumed.len() - s.pending.len();
    &&& 0 <= cut
    &&& valid_utf8(consumed.subrange(0, cut))
    &&& s.shown == decode_utf8(consumed.subrange(0, cut))
    &&& s.pending == consumed.subrange(cut, consumed.len() as int)
}

/// Whatever arrives, nothing garbled is shown: after every chunk the shown
/// text is still the text of a well-formed prefix of all bytes, and the rest
/// is waiting.
pub proof fn lemma_feed_accounts(s: Stream, consumed: Seq<u8>, bytes: Seq<u8>)
    requires
        accounts_for(s, consumed),
    ensures
        accounts_for(feed(s, bytes), consumed + bytes),
{
    let cut = consumed.len() - s.pending.len();
    let prefix = consumed.subrange(0, cut);
    let buffer = s.pending + bytes;
    let all = consumed + bytes;
    assert(all.subrange(0, cut) =~= prefix);
    assert(all.subrange(cut, all.len() as int) =~= buffer);
    if valid_utf8(buffer) {
        valid_utf8_concat(prefix, buffer);
        assert(prefix + buffer =~= all);
        lemma_decode_parts(prefix, buffer);
        assert(all.subrange(0, all.len() as int) =~= all);
        assert(all.subrange(all.len() as int, all.len() as int) =~= Seq::<u8>::empty());
    }
}

/// A character cut in two: if the first part leaves the buffer incomplete,
/// feeding the rest afterwards gives what feeding both at once gives.
pub proof fn lemma_truncated_then_rest(s: Stream, head: Seq<u8>, tail: Seq<u8>)
    requires
        !valid_utf8(s.pending + head),
    ensures
        feed(feed(s, head), tail) == feed(s, head + tail),
{
    assert((s.pending + head) + tail =~= s.pending + (head + tail));
}

/// Well-formed text cut anywhere and fed in two parts to a stream with
/// nothing waiting shows the same text as when fed at once.
pub proof fn lemma_two_parts_same_as_whole(s: Stream, head: Seq<u8>, tail: Seq<u8>)
    requires
        s.pending.len() == 0,
        valid_utf8(head + tail),
    ensures
        feed(feed(s, head), tail) == feed(s, head + tail),
{
    assert(s.pending + head =~= head);
    assert(s.pending + (head + tail) =~= head + tail);
    if valid_utf8(head) {
        lemma_decode_parts(head, tail);
        let mid = feed(s, head);
        assert(mid.pending + tail =~= tail);
        assert(s.shown + decode_utf8(head) + decode_utf8(tail) =~= s.shown + (decode_utf8(head)
            + decode_utf8(tail)));
    } else {
        lemma_truncated_then_rest(s, head, tail);
    }
}

} // verus!
