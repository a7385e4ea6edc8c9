//! What the library hands to the native codec and what the codec hands back.
//!
//! The codec is reached by two calls: one reads the next header, the other
//! processes the entry whose header was read last. The library never makes
//! either call. It describes the call as a value, and takes the codec's
//! answer as a value.

use vstd::prelude::*;

use crate::entry::{bytes_view, text_view, HeaderData, Metadata};
use crate::error::Code;

verus! {

/// What the codec is asked to do with an entry.
#[derive(Clone, Copy, Debug, PartialEq, Eq, Structural)]
pub enum Operation {
    /// Decode the entry to the destination on disk.
    Extract,
    /// Decode the entry and verify it, without writing it anywhere.
    Test,
    /// Move past the entry.
    Skip,
}

impl Operation {
    /// The number by which the codec knows this operation.
    pub open spec fn spec_number(self) -> i32 {
        match self {
            Operation::Skip => 0,
            Operation::Test => 1,
            Operation::Extract => 2,
        }
    }

    /// The number by which the codec knows this operation.
    #[verifier::when_used_as_spec(spec_number)]
    pub fn number(self) -> (n: i32)
        ensures
            n == self.spec_number(),
    {
        match self {
            Operation::Skip => 0,
            Operation::Test => 1,
            Operation::Extract => 2,
        }
    }
}

/// An archive that has been opened, as far as the protocol reads it: the
/// directory that extracted entries go to, if one was configured.
#[derive(Debug, PartialEq, Eq)]
pub struct OpenArchive {
    /// Where extracted entries go.
    pub destination: Option<String>,
}

impl OpenArchive {
    /// An open archive whose entries are extracted to `destination`.
    pub fn new(destination: Option<String>) -> (archive: OpenArchive)
        ensures
            archive.destination == destination,
    {
        OpenArchive { destination }
    }
}

/// One call of the codec's processing function.
///
/// `destination` is the path argument of the call; without one the codec
/// gets a null path. `buffer`, where present, is placed where the codec's
/// data callback appends the decoded bytes.
#[derive(Debug, PartialEq, Eq)]
pub struct ProcessRequest {
    /// What the codec is to do with the entry.
    pub operation: Operation,
    /// The path argument of the call.
    pub destination: Option<String>,
    /// The buffer for the decoded bytes.
    pub buffer: Option<Vec<u8>>,
}

/// What a [`ProcessRequest`] stands for.
pub struct RequestView {
    pub operation: Operation,
    pub destination: Option<Seq<char>>,
    pub buffer: Option<Seq<u8>>,
}

impl View for ProcessRequest {
    type V = RequestView;

    open spec fn view(&self) -> RequestView {
        RequestView {
            operation: self.operation,
            destination: text_view(self.destination),
            buffer: bytes_view(self.buffer),
        }
    }
}

/// What one processing call left behind: its result code, the name of the
/// next volume where the codec asked for one, and the buffer as the data
/// callback left it. Both slots are handed over by value, so nothing of one
/// call can reach the next.
#[derive(Debug, PartialEq, Eq)]
pub struct ProcessReply {
    /// The result code of the call.
    pub code: Code,
    /// The volume that the codec asked for during the call.
    pub volume: Option<String>,
    /// The buffer of the request, with what the codec appended to it.
    pub bytes: Option<Vec<u8>>,
}

/// What a [`ProcessReply`] stands for.
pub struct ReplyView {
    pub code: Code,
    pub volume: Option<Seq<char>>,
    pub bytes: Option<Seq<u8>>,
}

impl View for ProcessReply {
    type V = ReplyView;

    open spec fn view(&self) -> ReplyView {
        ReplyView {
            code: self.code,
            volume: text_view(self.volume),
            bytes: bytes_view(self.bytes),
        }
    }
}

/// What one header read left behind: its result code and the header
/// structure. The header means something only under [`Code::Success`].
#[derive(Debug, PartialEq, Eq)]
pub struct HeaderReply {
    /// The result code of the call.
    pub code: Code,
    /// The header structure as the call left it.
    pub header: HeaderData,
}

/// What a [`HeaderReply`] stands for.
pub struct HeaderReplyView {
    pub code: Code,
    pub header: Metadata,
}

impl View for HeaderReply {
    type V = HeaderReplyView;

    open spec fn view(&self) -> HeaderReplyView {
        HeaderReplyView { code: self.code, header: self.header@ }
    }
}

/// A call that the reader needs the codec to make.
#[derive(Debug, PartialEq, Eq)]
pub enum NativeCall {
    /// Read the header of the next entry.
    ReadHeader,
    /// Process the entry whose header was read last.
    Process(ProcessRequest),
}

/// What a [`NativeCall`] stands for.
pub enum CallView {
    ReadHeader,
    Process(RequestView),
}

impl View for NativeCall {
    type V = CallView;

    open spec fn view(&self) -> CallView {
        match self {
            NativeCall::ReadHeader => CallView::ReadHeader,
            NativeCall::Process(request) => CallView::Process(request@),
        }
    }
}

/// What an optional call stands for.
pub open spec fn call_view(call: Option<NativeCall>) -> Option<CallView> {
    match call {
        Some(c) => Some(c@),
        None => None,
    }
}

} // verus!
