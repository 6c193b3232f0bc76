//! Draining one output stream of a child process into a console buffer.
//!
//! The reading itself happens outside: each raw line read (without its
//! newline byte), each failed read and the end of the stream is handed to
//! `Drain::step`, which decides what the buffer gets.
use vstd::prelude::*;
use vstd::utf8::{decode_utf8, valid_utf8};

use crate::console::{ConsoleBuffer, Source};

verus! {

/// What the reader of a stream saw next.
pub enum DrainEvent {
    /// The bytes of one line, without the newline byte.
    Line(Vec<u8>),
    /// A line that could not be read.
    Unreadable,
    /// The stream reached its end.
    Closed,
}

/// The bytes of a line without a carriage return that ends it.
pub open spec fn without_cr(bytes: Seq<u8>) -> Seq<u8> {
    if bytes.len() > 0 && bytes.last() == 13u8 {
        bytes.drop_last()
    } else {
        bytes
    }
}

/// The text of a raw line: its UTF-8 text without a final carriage return,
/// or the empty line where the bytes are not UTF-8.
pub open spec fn line_text(bytes: Seq<u8>) -> Seq<char> {
    if valid_utf8(without_cr(bytes)) {
        decode_utf8(without_cr(bytes))
    } else {
        Seq::empty()
    }
}

/// Relies on String::from_utf8: it succeeds exactly on valid UTF-8 and then
/// holds the text those bytes encode.
#[verifier::external_body]
fn utf8_string(bytes: Vec<u8>) -> (r: Option<String>)
    ensures
        r is Some <==> valid_utf8(bytes@),
        r matches Some(s) ==> s@ == decode_utf8(bytes@),
{
    String::from_utf8(bytes).ok()
}

/// Decodes one raw line; bytes that are not UTF-8 give the empty line.
pub fn decode_line(bytes: Vec<u8>) -> (r: String)
    ensures
        r@ == line_text(bytes@),
{
    let mut bytes = bytes;
    let n = bytes.len();
    if n > 0 && bytes[n - 1] == 13u8 {
        bytes.pop();
    }
    match utf8_string(bytes) {
        Some(s) => s,
        None => String::new(),
    }
}

/// The drain of one stream: open until its stream ends.
pub struct Drain {
    pub source: Source,
    pub open: bool,
}

impl Drain {
    pub fn new(source: Source) -> (r: Drain)
        ensures
            r.source == source,
            r.open,
    {
        Drain { source, open: true }
    }

    /// Handles what the reader saw. Returns whether the drain goes on
    /// reading. Once the stream has ended nothing more is appended.
    pub fn step(&mut self, buffer: &mut ConsoleBuffer, event: DrainEvent) -> (more: bool)
        ensures
            final(self).source == old(self).source,
            more == final(self).open,
            !old(self).open ==> !more && *final(buffer) == *old(buffer),
            old(self).open ==> match event {
                DrainEvent::Line(b) => more && final(buffer)@ == old(buffer)@.push(
                    (old(self).source, line_text(b@)),
                ),
                DrainEvent::Unreadable => more && final(buffer)@ == old(buffer)@.push(
                    (old(self).source, Seq::<char>::empty()),
                ),
                DrainEvent::Closed => !more && *final(buffer) == *old(buffer),
            },
    {
        if !self.open {
            return false;
        }
        match event {
            DrainEvent::Line(bytes) => {
                let text = decode_line(bytes);
                buffer.append_line(self.source, text.as_str());
            },
            DrainEvent::Unreadable => {
                buffer.append_line(self.source, "");
                proof {
                    reveal_strlit("");
                    assert(""@ =~= Seq::<char>::empty());
                }
            },
            DrainEvent::Closed => {
                self.open = false;
            },
        }
        self.open
    }
}

} // verus!
