//! Framing of messages on a byte stream: one document a line, each line ended
//! by a line feed.

use vstd::prelude::*;

verus! {

/// The byte that ends a frame.
pub const LINE_FEED: u8 = 10;

/// Why a message could not cross the transport.
#[derive(Debug, PartialEq, Eq)]
pub enum FrameError {
    /// The message cannot be written as one line.
    EncodeError(String),
    /// The line holds no message.
    DecodeError(String),
    /// The transport failed.
    IoError(String),
}

/// What a frame error holds.
pub enum FrameErrorView {
    EncodeError(Seq<char>),
    DecodeError(Seq<char>),
    IoError(Seq<char>),
}

impl View for FrameError {
    type V = FrameErrorView;

    open spec fn view(&self) -> FrameErrorView {
        match self {
            FrameError::EncodeError(reason) => FrameErrorView::EncodeError(reason@),
            FrameError::DecodeError(reason) => FrameErrorView::DecodeError(reason@),
            FrameError::IoError(reason) => FrameErrorView::IoError(reason@),
        }
    }
}

impl FrameErrorView {
    /// The reason shown to a user.
    pub open spec fn message(self) -> Seq<char> {
        match self {
            FrameErrorView::EncodeError(reason) => "Serialization error: "@ + reason,
            FrameErrorView::DecodeError(reason) => "Parse error: "@ + reason,
            FrameErrorView::IoError(reason) => reason,
        }
    }
}

impl FrameError {
    /// The reason shown to a user.
    pub fn message(&self) -> (r: String)
        ensures
            r@ == self@.message(),
    {
        match self {
            FrameError::EncodeError(reason) => {
                let mut message = String::from_str("Serialization error: ");
                message.append(reason.as_str());
                message
            },
            FrameError::DecodeError(reason) => {
                let mut message = String::from_str("Parse error: ");
                message.append(reason.as_str());
                message
            },
            FrameError::IoError(reason) => reason.clone(),
        }
    }

    /// The error of a read that the transport failed.
    pub fn read_failed(reason: &str) -> (r: FrameError)
        ensures
            r@ == FrameErrorView::IoError("Read error: "@ + reason@),
    {
        let mut message = String::from_str("Read error: ");
        message.append(reason);
        FrameError::IoError(message)
    }

    /// The error of a write that the transport failed.
    pub fn write_failed(reason: &str) -> (r: FrameError)
        ensures
            r@ == FrameErrorView::IoError("Write error: "@ + reason@),
    {
        let mut message = String::from_str("Write error: ");
        message.append(reason);
        FrameError::IoError(message)
    }

    /// The error of a flush that the transport failed.
    pub fn flush_failed(reason: &str) -> (r: FrameError)
        ensures
            r@ == FrameErrorView::IoError("Flush error: "@ + reason@),
    {
        let mut message = String::from_str("Flush error: ");
        message.append(reason);
        FrameError::IoError(message)
    }
}

/// What one read of a line gave.
#[derive(Debug, PartialEq, Eq)]
pub enum FrameRead {
    /// Nothing was read: the stream is closed.
    Closed,
    /// A line, without the line feed that ended it.
    Line(Vec<u8>),
}

/// What a read of a line holds.
pub enum FrameReadView {
    Closed,
    Line(Seq<u8>),
}

impl View for FrameRead {
    type V = FrameReadView;

    open spec fn view(&self) -> FrameReadView {
        match self {
            FrameRead::Closed => FrameReadView::Closed,
            FrameRead::Line(bytes) => FrameReadView::Line(bytes@),
        }
    }
}

/// Whether a document fits on one line.
pub open spec fn single_line(payload: Seq<u8>) -> bool {
    forall|i: int| 0 <= i < payload.len() ==> payload[i] != LINE_FEED
}

/// The frame of a document that fits on one line.
pub open spec fn frame_of(payload: Seq<u8>) -> Seq<u8> {
    payload.push(LINE_FEED)
}

/// What a line that was read holds: nothing read means a closed stream; a
/// line feed at the end is no part of the document.
pub open spec fn read_of(line: Seq<u8>) -> FrameReadView {
    if line.len() == 0 {
        FrameReadView::Closed
    } else if line.last() == LINE_FEED {
        FrameReadView::Line(line.drop_last())
    } else {
        FrameReadView::Line(line)
    }
}

/// The text of the error for a document with a line feed in it.
pub open spec fn multi_line_reason() -> Seq<char> {
    "the document does not fit on one line"@
}

/// A document that was framed is read back as it was.
pub proof fn lemma_frame_round_trip(payload: Seq<u8>)
    ensures
        read_of(frame_of(payload)) == FrameReadView::Line(payload),
{
    assert(frame_of(payload).drop_last() == payload);
}

/// A frame holds one line feed, its last byte.
pub proof fn lemma_frame_is_one_line(payload: Seq<u8>)
    requires
        single_line(payload),
    ensures
        frame_of(payload).len() == payload.len() + 1,
        frame_of(payload).last() == LINE_FEED,
        forall|i: int| 0 <= i < frame_of(payload).len() - 1 ==> frame_of(payload)[i] != LINE_FEED,
{
}

/// Frames a document for the transport: the document and a line feed. A
/// document with a line feed in it is refused.
pub fn encode_frame(payload: &[u8]) -> (r: Result<Vec<u8>, FrameError>)
    ensures
        match r {
            Ok(frame) => single_line(payload@) && frame@ == frame_of(payload@),
            Err(error) => !single_line(payload@) && error@ == FrameErrorView::EncodeError(
                multi_line_reason(),
            ),
        },
{
    let mut frame: Vec<u8> = Vec::new();
    let mut i: usize = 0;
    while i < payload.len()
        invariant
            i <= payload.len(),
            frame@ == payload@.take(i as int),
            single_line(payload@.take(i as int)),
        decreases payload.len() - i,
    {
        let byte = payload[i];
        if byte == LINE_FEED {
            return Err(
                FrameError::EncodeError(String::from_str("the document does not fit on one line")),
            );
        }
        frame.push(byte);
        assert(payload@.take(i as int).push(byte) == payload@.take(i as int + 1));
        i += 1;
    }
    assert(payload@.take(payload.len() as int) == payload@);
    frame.push(LINE_FEED);
    Ok(frame)
}

/// Reads what a line holds: nothing read means that the stream is closed;
/// else the document is the line without the line feed at its end.
pub fn decode_frame(line: &[u8]) -> (r: FrameRead)
    ensures
        r@ == read_of(line@),
{
    let n = line.len();
    if n == 0 {
        return FrameRead::Closed;
    }
    let end = if line[n - 1] == LINE_FEED {
        n - 1
    } else {
        n
    };
    let mut payload: Vec<u8> = Vec::new();
    let mut i: usize = 0;
    while i < end
        invariant
            i <= end <= line.len(),
            payload@ == line@.take(i as int),
        decreases end - i,
    {
        payload.push(line[i]);
        assert(line@.take(i as int).push(line[i as int]) == line@.take(i as int + 1));
        i += 1;
    }
    assert(line@.take(line.len() as int) == line@);
    assert(line@.take(line.len() - 1) == line@.drop_last());
    FrameRead::Line(payload)
}

} // verus!
