//! The diagnostic streams: text sent to the host one character or one chunk
//! at a time.
//!
//! A stream holds no buffer and formats nothing. Each write is one call on
//! the channel the stream is bound to: a character crosses the boundary as
//! its code point, a string as the span of its UTF-8 bytes. The two bindings,
//! [`Panic`] and [`DebugLog`], share no state; only the debug channel can be
//! flushed.

use crate::host::{DebugCall, DebugCallView, PanicCall, PanicCallView};
use vstd::prelude::*;
use vstd::string::*;
use vstd::utf8::*;

verus! {

/// The text that a written code point puts on a channel.
pub open spec fn char_text(code: u32) -> Seq<char> {
    seq![code as char]
}

/// The text that a written span of bytes puts on a channel.
pub open spec fn str_text(bytes: Seq<u8>) -> Seq<char> {
    decode_utf8(bytes)
}

impl PanicCallView {
    /// The text this call adds to the fatal-error channel.
    pub open spec fn text(self) -> Seq<char> {
        match self {
            PanicCallView::WriteChar { code } => char_text(code),
            PanicCallView::WriteStr { bytes } => str_text(bytes),
            _ => Seq::empty(),
        }
    }
}

impl DebugCallView {
    /// The text this call adds to the debug channel.
    pub open spec fn text(self) -> Seq<char> {
        match self {
            DebugCallView::WriteChar { code } => char_text(code),
            DebugCallView::WriteStr { bytes } => str_text(bytes),
            DebugCallView::Flush => Seq::empty(),
        }
    }
}

/// The text the fatal-error channel has received once `calls` were made in
/// order.
pub open spec fn panic_text(calls: Seq<PanicCallView>) -> Seq<char>
    decreases calls.len(),
{
    if calls.len() == 0 {
        Seq::empty()
    } else {
        panic_text(calls.drop_last()) + calls.last().text()
    }
}

/// The text the debug channel has received once `calls` were made in order.
pub open spec fn debug_text(calls: Seq<DebugCallView>) -> Seq<char>
    decreases calls.len(),
{
    if calls.len() == 0 {
        Seq::empty()
    } else {
        debug_text(calls.drop_last()) + calls.last().text()
    }
}

/// A character written as its code point arrives as that character.
pub proof fn lemma_char_text(ch: char)
    ensures
        char_text(ch as u32) == seq![ch],
{
    assert(char_text(ch as u32) =~= seq![ch]);
}

/// A string written as its UTF-8 bytes arrives as that string.
pub proof fn lemma_str_text(text: Seq<char>)
    ensures
        str_text(encode_utf8(text)) == text,
{
    encode_utf8_decode_utf8(text);
}

/// The text that arrives when the characters of `text` are written one by
/// one, each as its code point.
pub open spec fn chars_text(text: Seq<char>) -> Seq<char>
    decreases text.len(),
{
    if text.len() == 0 {
        Seq::empty()
    } else {
        chars_text(text.drop_last()) + char_text(text.last() as u32)
    }
}

/// Writing a string as one chunk puts the same text on a channel as writing
/// its characters one by one.
pub proof fn lemma_chunk_equals_chars(text: Seq<char>)
    ensures
        str_text(encode_utf8(text)) == chars_text(text),
    decreases text.len(),
{
    lemma_str_text(text);
    if text.len() == 0 {
        assert(text =~= Seq::<char>::empty());
    } else {
        lemma_chunk_equals_chars(text.drop_last());
        lemma_str_text(text.drop_last());
        lemma_char_text(text.last());
        assert(text.drop_last() + seq![text.last()] =~= text);
    }
}

/// A sink for text, bound to one channel of the host.
///
/// Text goes out one character or one chunk at a time, and a write cannot
/// fail: there is nothing for the guest to hear back.
pub trait DiagnosticStream {
    /// A call on the channel this stream is bound to.
    type Call;

    /// The text that `call` adds to the channel.
    spec fn delivers(call: Self::Call) -> Seq<char>;

    /// Forwards one character as its code point.
    fn write_char(&self, ch: char) -> (call: Self::Call)
        ensures
            Self::delivers(call) == seq![ch],
    ;

    /// Forwards a string as one span of bytes, in a single call.
    fn write_str(&self, s: &str) -> (call: Self::Call)
        ensures
            Self::delivers(call) == s@,
    ;
}

/// The stream bound to the host's fatal-error channel.
#[derive(Clone, Copy, Debug, PartialEq, Eq)]
pub struct Panic;

impl DiagnosticStream for Panic {
    type Call = PanicCall;

    open spec fn delivers(call: PanicCall) -> Seq<char> {
        call.deep_view().text()
    }

    fn write_char(&self, ch: char) -> (call: PanicCall)
        ensures
            call.deep_view() == (PanicCallView::WriteChar { code: ch as u32 }),
    {
        proof {
            lemma_char_text(ch);
        }
        PanicCall::WriteChar { code: ch as u32 }
    }

    fn write_str(&self, s: &str) -> (call: PanicCall)
        ensures
            call.deep_view() == (PanicCallView::WriteStr { bytes: encode_utf8(s@) }),
    {
        proof {
            lemma_str_text(s@);
        }
        PanicCall::WriteStr { bytes: s.as_bytes_vec() }
    }
}

/// The stream bound to the host's debug channel.
#[derive(Clone, Copy, Debug, PartialEq, Eq)]
pub struct DebugLog;

impl DiagnosticStream for DebugLog {
    type Call = DebugCall;

    open spec fn delivers(call: DebugCall) -> Seq<char> {
        call.deep_view().text()
    }

    fn write_char(&self, ch: char) -> (call: DebugCall)
        ensures
            call.deep_view() == (DebugCallView::WriteChar { code: ch as u32 }),
    {
        proof {
            lemma_char_text(ch);
        }
        DebugCall::WriteChar { code: ch as u32 }
    }

    fn write_str(&self, s: &str) -> (call: DebugCall)
        ensures
            call.deep_view() == (DebugCallView::WriteStr { bytes: encode_utf8(s@) }),
    {
        proof {
            lemma_str_text(s@);
        }
        DebugCall::WriteStr { bytes: s.as_bytes_vec() }
    }
}

impl DebugLog {
    /// Asks the host to flush what it has buffered of the debug channel.
    pub fn flush(&self) -> (call: DebugCall)
        ensures
            call.deep_view() == DebugCallView::Flush,
    {
        DebugCall::Flush
    }
}

} // verus!
