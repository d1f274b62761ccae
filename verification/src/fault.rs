//! The fatal-error bridge.
//!
//! A fault is reported in three steps, in this order: the message is streamed
//! to the fatal-error channel, the source location is forwarded if there is
//! one, and the host is told to terminate the guest. Nothing is retried and
//! nothing follows the terminating call.

use crate::host::{PanicCall, PanicCallView};
use crate::stream::{lemma_str_text, panic_text, DiagnosticStream, Panic};
use vstd::prelude::*;
use vstd::string::*;
use vstd::utf8::*;

verus! {

/// The payload of a fault.
#[derive(Debug, PartialEq, Eq)]
pub enum FaultMessage {
    /// The payload is text already. It is forwarded verbatim.
    PlainText(String),
    /// The payload is some other value. What is held is the text its generic
    /// descriptive form rendered to, or `None` where it rendered to nothing.
    Structured(Option<String>),
}

/// Where in the source a fault was detected.
#[derive(Debug, PartialEq, Eq)]
pub struct Location {
    pub file: String,
    pub line: u32,
    pub column: u32,
}

/// What is known of a fault at the moment it is detected.
#[derive(Debug, PartialEq, Eq)]
pub struct FaultRecord {
    pub message: FaultMessage,
    /// The place of the fault, where the runtime supplies it.
    pub location: Option<Location>,
}

impl FaultMessage {
    /// The message for a payload that is not text, from what its generic
    /// descriptive form rendered to. A rendering that came out empty is no
    /// message.
    pub fn from_rendering(rendered: String) -> (message: FaultMessage)
        ensures
            rendered@.len() == 0 ==> message == FaultMessage::Structured(None),
            rendered@.len() > 0 ==> message == FaultMessage::Structured(Some(rendered)),
    {
        if rendered.as_str().is_empty() {
            FaultMessage::Structured(None)
        } else {
            FaultMessage::Structured(Some(rendered))
        }
    }

    /// The text to stream for this payload, if there is any.
    pub open spec fn spec_text(self) -> Option<Seq<char>> {
        match self {
            FaultMessage::PlainText(text) => Some(text@),
            FaultMessage::Structured(Some(rendered)) => Some(rendered@),
            FaultMessage::Structured(None) => None,
        }
    }

    /// The text to stream for this payload, if there is any.
    pub fn text(&self) -> (text: Option<&str>)
        ensures
            text is Some <==> self.spec_text() is Some,
            text matches Some(s) ==> self.spec_text() == Some(s@),
    {
        match self {
            FaultMessage::PlainText(text) => Some(text.as_str()),
            FaultMessage::Structured(Some(rendered)) => Some(rendered.as_str()),
            FaultMessage::Structured(None) => None,
        }
    }
}

/// The calls that stream the message.
pub open spec fn message_calls(message: FaultMessage) -> Seq<PanicCallView> {
    match message.spec_text() {
        Some(text) => seq![PanicCallView::WriteStr { bytes: encode_utf8(text) }],
        None => Seq::empty(),
    }
}

/// The calls that forward the location: the file, then line and column.
pub open spec fn location_calls(location: Option<Location>) -> Seq<PanicCallView> {
    match location {
        Some(place) => seq![
            PanicCallView::PutFile { bytes: encode_utf8(place.file@) },
            PanicCallView::PutLineColumn {
                line: place.line as usize,
                column: place.column as usize,
            },
        ],
        None => Seq::empty(),
    }
}

/// Every call made for a fault, in order.
pub open spec fn fault_script(record: FaultRecord) -> Seq<PanicCallView> {
    message_calls(record.message) + location_calls(record.location)
        + seq![PanicCallView::Terminate]
}

/// The terminating call is made exactly once, and it is the last call.
pub open spec fn terminates_once(script: Seq<PanicCallView>) -> bool {
    &&& script.len() > 0
    &&& script.last() == PanicCallView::Terminate
    &&& forall|i: int| 0 <= i < script.len() - 1 ==> script[i] != PanicCallView::Terminate
}

/// No call of the script forwards a file, a line or a column.
pub open spec fn omits_location(script: Seq<PanicCallView>) -> bool {
    forall|i: int|
        0 <= i < script.len() ==> !(#[trigger] script[i] is PutFile) && !(script[i]
            is PutLineColumn)
}

/// Whatever the fault, the guest is terminated exactly once, after every other
/// call.
pub proof fn lemma_fault_terminates_once(record: FaultRecord)
    ensures
        terminates_once(fault_script(record)),
{
}

/// What reaches the fatal-error channel before the terminating call is the
/// message, character for character; a fault without a message puts nothing on
/// the channel.
pub proof fn lemma_fault_delivers_message(record: FaultRecord)
    ensures
        panic_text(fault_script(record).drop_last()) == match record.message.spec_text() {
            Some(text) => text,
            None => Seq::empty(),
        },
{
    let before = fault_script(record).drop_last();
    assert(before =~= message_calls(record.message) + location_calls(record.location));
    lemma_location_is_silent(message_calls(record.message), record.location);
    match record.message.spec_text() {
        Some(text) => {
            let calls = message_calls(record.message);
            assert(calls.drop_last() =~= Seq::<PanicCallView>::empty());
            assert(panic_text(calls.drop_last()) == Seq::<char>::empty());
            lemma_str_text(text);
            assert(panic_text(calls) =~= text);
        },
        None => {},
    }
}

/// Forwarding a location adds no text to the fatal-error channel.
proof fn lemma_location_is_silent(calls: Seq<PanicCallView>, location: Option<Location>)
    ensures
        panic_text(calls + location_calls(location)) == panic_text(calls),
{
    match location {
        Some(place) => {
            let file = PanicCallView::PutFile { bytes: encode_utf8(place.file@) };
            let all = calls + location_calls(location);
            assert(all.drop_last() =~= calls.push(file));
            assert(calls.push(file).drop_last() =~= calls);
            assert(panic_text(calls.push(file)) =~= panic_text(calls));
            assert(panic_text(all) =~= panic_text(calls));
        },
        None => {
            assert(calls + location_calls(location) =~= calls);
        },
    }
}

/// A fault that carries no location has no call made for one, and still ends
/// in the terminating call.
pub proof fn lemma_fault_without_location(record: FaultRecord)
    requires
        record.location is None,
    ensures
        omits_location(fault_script(record)),
        fault_script(record).last() == PanicCallView::Terminate,
{
}

/// Reports the fault `info` to the host and ends the guest.
///
/// The result is the whole exchange with the host: each call is made once, in
/// order, and the last of them does not return.
pub fn panic_handler(info: &FaultRecord) -> (script: Vec<PanicCall>)
    ensures
        script.deep_view() == fault_script(*info),
        terminates_once(script.deep_view()),
        panic_text(script.deep_view().drop_last()) == match info.message.spec_text() {
            Some(text) => text,
            None => Seq::empty(),
        },
        info.location is None ==> omits_location(script.deep_view()),
{
    let mut script: Vec<PanicCall> = Vec::new();
    if let Some(text) = info.message.text() {
        script.push(Panic.write_str(text));
    }
    if let Some(place) = &info.location {
        script.push(PanicCall::PutFile { bytes: place.file.as_str().as_bytes_vec() });
        script.push(
            PanicCall::PutLineColumn { line: place.line as usize, column: place.column as usize },
        );
    }
    script.push(PanicCall::Terminate);
    proof {
        assert(script.deep_view() =~= fault_script(*info));
        lemma_fault_terminates_once(*info);
        lemma_fault_delivers_message(*info);
        if info.location is None {
            lemma_fault_without_location(*info);
        }
    }
    script
}

} // verus!
