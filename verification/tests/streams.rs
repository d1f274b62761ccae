use rs_wasm_alloc::{DebugCall, DebugLog, DiagnosticStream, Panic, PanicCall};

/// A host channel that records what reaches it.
struct Channel {
    received: String,
    seen_at_flush: Vec<String>,
}

impl Channel {
    fn new() -> Channel {
        Channel { received: String::new(), seen_at_flush: Vec::new() }
    }

    fn put_char(&mut self, code: u32) {
        self.received.push(char::from_u32(code).expect("a code point"));
    }

    fn put_str(&mut self, bytes: &[u8]) {
        self.received.push_str(std::str::from_utf8(bytes).expect("UTF-8"));
    }

    fn debug(&mut self, call: DebugCall) {
        match call {
            DebugCall::WriteChar { code } => self.put_char(code),
            DebugCall::WriteStr { bytes } => self.put_str(&bytes),
            DebugCall::Flush => self.seen_at_flush.push(self.received.clone()),
        }
    }

    fn panic(&mut self, call: PanicCall) {
        match call {
            PanicCall::WriteChar { code } => self.put_char(code),
            PanicCall::WriteStr { bytes } => self.put_str(&bytes),
            other => panic!("not a write: {:?}", other),
        }
    }
}

#[test]
fn write_char_forwards_the_code_point() {
    assert_eq!(DebugLog.write_char('a'), DebugCall::WriteChar { code: 97 });
    assert_eq!(DebugLog.write_char('\n'), DebugCall::WriteChar { code: 10 });
    assert_eq!(DebugLog.write_char('\0'), DebugCall::WriteChar { code: 0 });
    assert_eq!(DebugLog.write_char('é'), DebugCall::WriteChar { code: 0xE9 });
    assert_eq!(DebugLog.write_char('€'), DebugCall::WriteChar { code: 0x20AC });
    assert_eq!(DebugLog.write_char('😀'), DebugCall::WriteChar { code: 0x1F600 });
    assert_eq!(DebugLog.write_char(char::MAX), DebugCall::WriteChar { code: 0x10FFFF });
    assert_eq!(Panic.write_char('a'), PanicCall::WriteChar { code: 97 });
    assert_eq!(Panic.write_char('😀'), PanicCall::WriteChar { code: 0x1F600 });
}

#[test]
fn write_str_forwards_the_bytes_and_their_number() {
    let call = DebugLog.write_str("taketwo");
    assert_eq!(call, DebugCall::WriteStr { bytes: b"taketwo".to_vec() });
    match call {
        DebugCall::WriteStr { bytes } => assert_eq!(bytes.len(), 7),
        other => panic!("{:?}", other),
    }
    let call = DebugLog.write_str("héllo €");
    assert_eq!(
        call,
        DebugCall::WriteStr { bytes: vec![0x68, 0xC3, 0xA9, 0x6C, 0x6C, 0x6F, 0x20, 0xE2, 0x82, 0xAC] }
    );
    assert_eq!(DebugLog.write_str(""), DebugCall::WriteStr { bytes: Vec::new() });
    assert_eq!(Panic.write_str("boom"), PanicCall::WriteStr { bytes: b"boom".to_vec() });
    assert_eq!(Panic.write_str(""), PanicCall::WriteStr { bytes: Vec::new() });
    assert_eq!(Panic.write_str("😀"), PanicCall::WriteStr { bytes: vec![0xF0, 0x9F, 0x98, 0x80] });
}

/// Writes `text` through any stream, first as one chunk, then character by
/// character.
fn both_ways<S: DiagnosticStream>(stream: &S, text: &str) -> (S::Call, Vec<S::Call>) {
    (stream.write_str(text), text.chars().map(|ch| stream.write_char(ch)).collect())
}

#[test]
fn one_abstraction_serves_both_channels() {
    let (chunk, chars) = both_ways(&DebugLog, "hi");
    assert_eq!(chunk, DebugCall::WriteStr { bytes: b"hi".to_vec() });
    assert_eq!(chars, vec![DebugCall::WriteChar { code: 104 }, DebugCall::WriteChar { code: 105 }]);
    let (chunk, chars) = both_ways(&Panic, "hi");
    assert_eq!(chunk, PanicCall::WriteStr { bytes: b"hi".to_vec() });
    assert_eq!(chars, vec![PanicCall::WriteChar { code: 104 }, PanicCall::WriteChar { code: 105 }]);
}

#[test]
fn flush_is_its_own_call() {
    assert_eq!(DebugLog.flush(), DebugCall::Flush);
}

#[test]
fn taketwo_arrives_before_the_flush() {
    let log = DebugLog;
    let mut channel = Channel::new();
    channel.debug(log.write_str("taketwo"));
    assert_eq!(channel.received.chars().count(), 7);
    channel.debug(log.flush());
    assert_eq!(channel.received, "taketwo");
    assert_eq!(channel.seen_at_flush, vec!["taketwo".to_string()]);
}

#[test]
fn a_chunk_arrives_as_its_characters_would() {
    for text in ["", "a", "track one\n", "héllo €", "😀 and 😀", "\u{0}\u{7f}\u{80}\u{7ff}\u{800}\u{ffff}\u{10000}"] {
        let mut chunked = Channel::new();
        chunked.debug(DebugLog.write_str(text));
        let mut spelled = Channel::new();
        for ch in text.chars() {
            spelled.debug(DebugLog.write_char(ch));
        }
        assert_eq!(chunked.received, text);
        assert_eq!(spelled.received, text);

        let mut chunked = Channel::new();
        chunked.panic(Panic.write_str(text));
        let mut spelled = Channel::new();
        for ch in text.chars() {
            spelled.panic(Panic.write_char(ch));
        }
        assert_eq!(chunked.received, text);
        assert_eq!(spelled.received, text);
    }
}

#[test]
fn writes_arrive_in_the_order_made() {
    let log = DebugLog;
    let mut channel = Channel::new();
    channel.debug(log.write_str("one"));
    channel.debug(log.write_char(' '));
    channel.debug(log.flush());
    channel.debug(log.write_str("two"));
    channel.debug(log.write_char('\n'));
    channel.debug(log.flush());
    assert_eq!(channel.received, "one two\n");
    assert_eq!(channel.seen_at_flush, vec!["one ".to_string(), "one two\n".to_string()]);
}

#[test]
fn the_demo_writes_its_line_and_flushes() {
    let calls = rs_wasm_alloc::run();
    assert_eq!(
        calls,
        vec![
            DebugCall::WriteStr { bytes: b"track one".to_vec() },
            DebugCall::WriteStr { bytes: b"\n".to_vec() },
            DebugCall::Flush,
        ]
    );
    let mut channel = Channel::new();
    for call in calls {
        channel.debug(call);
    }
    assert_eq!(channel.received, "track one\n");
    assert_eq!(channel.seen_at_flush, vec!["track one\n".to_string()]);
}
