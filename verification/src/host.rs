//! The host's import surface, as data.
//!
//! The guest reaches the host through three families of primitives: `alloc`
//! for the heap, `panic` for the fatal-error channel and `debug` for the debug
//! log. A value of one of the types below is one call of one primitive with
//! its arguments. The bridges decide which calls are made; whoever embeds this
//! crate makes them, in the order given.

use crate::pointer::HostPointer;
use vstd::prelude::*;

verus! {

/// `alloc.allocate(size, align)`: asks for `size` bytes aligned to `align`.
///
/// The host answers with the address of the block, or with the sentinel.
#[derive(Clone, Copy, Debug, PartialEq, Eq)]
pub struct Allocate {
    pub size: usize,
    pub align: usize,
}

/// `alloc.deallocate(ptr, size, align)`: gives a block back.
#[derive(Clone, Copy, Debug, PartialEq, Eq)]
pub struct Deallocate {
    pub ptr: HostPointer,
    pub size: usize,
    pub align: usize,
}

/// `alloc.resize(ptr, size, align, new_size)`: asks for the block to hold
/// `new_size` bytes.
///
/// The host answers with the address of the resized block, or with the
/// sentinel. Either way `ptr` is not to be used again.
#[derive(Clone, Copy, Debug, PartialEq, Eq)]
pub struct Resize {
    pub ptr: HostPointer,
    pub size: usize,
    pub align: usize,
    pub new_size: usize,
}

/// One call on the host's fatal-error channel.
#[derive(Debug, PartialEq, Eq)]
pub enum PanicCall {
    /// `panic.terminate()`: ends the guest. The host does not return from it.
    Terminate,
    /// `panic.put_file(bytes, length)`: the path of the source file at fault.
    PutFile { bytes: Vec<u8> },
    /// `panic.put_line_column(line, column)`: the place in that file.
    PutLineColumn { line: usize, column: usize },
    /// `panic.write_char(code)`: streams one character, given by its code
    /// point.
    WriteChar { code: u32 },
    /// `panic.write_str(bytes, length)`: streams a chunk of text.
    WriteStr { bytes: Vec<u8> },
}

/// A [`PanicCall`] as a mathematical value: a span of bytes is the sequence
/// of its bytes.
pub enum PanicCallView {
    Terminate,
    PutFile { bytes: Seq<u8> },
    PutLineColumn { line: usize, column: usize },
    WriteChar { code: u32 },
    WriteStr { bytes: Seq<u8> },
}

impl DeepView for PanicCall {
    type V = PanicCallView;

    open spec fn deep_view(&self) -> PanicCallView {
        match *self {
            PanicCall::Terminate => PanicCallView::Terminate,
            PanicCall::PutFile { bytes } => PanicCallView::PutFile { bytes: bytes@ },
            PanicCall::PutLineColumn { line, column } => PanicCallView::PutLineColumn {
                line,
                column,
            },
            PanicCall::WriteChar { code } => PanicCallView::WriteChar { code },
            PanicCall::WriteStr { bytes } => PanicCallView::WriteStr { bytes: bytes@ },
        }
    }
}

/// One call on the host's debug channel.
#[derive(Debug, PartialEq, Eq)]
pub enum DebugCall {
    /// `debug.write_char(code)`: streams one character, given by its code
    /// point.
    WriteChar { code: u32 },
    /// `debug.write_str(bytes, length)`: streams a chunk of text.
    WriteStr { bytes: Vec<u8> },
    /// `debug.flush()`: asks the host to flush what it has buffered.
    Flush,
}

/// A [`DebugCall`] as a mathematical value: a span of bytes is the sequence
/// of its bytes.
pub enum DebugCallView {
    WriteChar { code: u32 },
    WriteStr { bytes: Seq<u8> },
    Flush,
}

impl DeepView for DebugCall {
    type V = DebugCallView;

    open spec fn deep_view(&self) -> DebugCallView {
        match *self {
            DebugCall::WriteChar { code } => DebugCallView::WriteChar { code },
            DebugCall::WriteStr { bytes } => DebugCallView::WriteStr { bytes: bytes@ },
            DebugCall::Flush => DebugCallView::Flush,
        }
    }
}

} // verus!
