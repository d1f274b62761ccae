//! A small workload that puts the bridges to use.
//!
//! It builds a few values on the heap, so that a guest whose allocator is the
//! bridge sends its requests to the host, and writes one line to the debug
//! log.

use crate::host::{DebugCall, DebugCallView};
use crate::stream::{debug_text, DebugLog, DiagnosticStream};
use vstd::prelude::*;
use vstd::string::*;
use vstd::utf8::*;

verus! {

/// A record with a heap-allocated field.
#[derive(Debug)]
pub struct User {
    pub id: usize,
    pub name: String,
}

/// The calls that write `line` and a line break to the debug log and flush
/// it.
pub open spec fn line_calls(line: Seq<char>) -> Seq<DebugCallView> {
    seq![
        DebugCallView::WriteStr { bytes: encode_utf8(line) },
        DebugCallView::WriteStr { bytes: encode_utf8("\n"@) },
        DebugCallView::Flush,
    ]
}

/// The debug log receives the line, then the line break.
pub proof fn lemma_line_text(line: Seq<char>)
    ensures
        debug_text(line_calls(line)) == line + "\n"@,
{
    let calls = line_calls(line);
    let two = calls.drop_last();
    let one = two.drop_last();
    assert(one.drop_last() =~= Seq::<DebugCallView>::empty());
    assert(debug_text(one.drop_last()) == Seq::<char>::empty());
    encode_utf8_decode_utf8(line);
    encode_utf8_decode_utf8("\n"@);
    assert(debug_text(one) =~= line);
    assert(debug_text(two) =~= line + "\n"@);
    assert(debug_text(calls) =~= line + "\n"@);
}

/// Runs the workload. The result is what it sends to the debug channel: the
/// line `track one`, a line break, and a flush.
pub fn run() -> (calls: Vec<DebugCall>)
    ensures
        calls.deep_view() == line_calls("track one"@),
        debug_text(calls.deep_view()) == "track one"@ + "\n"@,
{
    let _title: String = "taketwo".to_owned();

    let mut stuff: Vec<i32> = Vec::new();
    for _i in 0..100 {
        stuff.push(42);
    }

    let user = User { id: 1337, name: "track one".to_owned() };

    let mut user_info = String::new();
    user_info.append(user.name.as_str());
    assert(user_info@ =~= "track one"@);

    let log = DebugLog;
    let mut calls: Vec<DebugCall> = Vec::new();
    calls.push(log.write_str(user_info.as_str()));
    calls.push(log.write_str("\n"));
    calls.push(log.flush());
    proof {
        assert(calls.deep_view() =~= line_calls("track one"@));
        lemma_line_text("track one"@);
    }
    calls
}

} // verus!
