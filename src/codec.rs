//! The binary frame codec: the first byte of a frame is its tag.
use vstd::prelude::*;

verus! {

/// Tag of a data-carrying frame: client input, or process output.
pub const TAG_DATA: u8 = 0;

/// Tag of a resize frame, whose remainder is a `{cols, rows}` record.
pub const TAG_RESIZE: u8 = 1;

/// Tag of a heartbeat probe; its remainder is ignored.
pub const TAG_HEARTBEAT: u8 = 2;

/// The one byte that makes up a heartbeat reply. It is sent bare, not as a
/// tagged frame.
pub const HEARTBEAT_REPLY: u8 = 1;

/// Terminal geometry carried by a resize frame.
#[derive(Clone, Copy, Debug, PartialEq, Eq, Structural)]
pub struct WindowSize {
    pub cols: u16,
    pub rows: u16,
}

/// Why a frame could not be decoded.
#[derive(Clone, Copy, Debug, PartialEq, Eq, Structural)]
pub enum DecodeError {
    /// The frame has no bytes, so no tag.
    Empty,
    /// A resize frame whose remainder is not a `{cols, rows}` record.
    MalformedResize,
}

/// A decoded frame.
#[derive(Clone, Debug, PartialEq, Eq)]
pub enum Frame {
    /// Bytes for the process; may be empty.
    Input(Vec<u8>),
    /// New terminal geometry.
    Resize(WindowSize),
    /// A liveness probe from the client.
    Heartbeat,
    /// Bytes produced by the process.
    Output(Vec<u8>),
    /// A frame with an unknown tag, which has no effect.
    Ignored(u8),
}

/// The mathematical value of a [`Frame`].
pub enum FrameModel {
    Input(Seq<u8>),
    Resize(WindowSize),
    Heartbeat,
    Output(Seq<u8>),
    Ignored(u8),
}

impl View for Frame {
    type V = FrameModel;

    open spec fn view(&self) -> FrameModel {
        match self {
            Frame::Input(p) => FrameModel::Input(p@),
            Frame::Resize(w) => FrameModel::Resize(*w),
            Frame::Heartbeat => FrameModel::Heartbeat,
            Frame::Output(p) => FrameModel::Output(p@),
            Frame::Ignored(t) => FrameModel::Ignored(*t),
        }
    }
}

pub open spec fn frame_result_view(r: Result<Frame, DecodeError>) -> Result<FrameModel, DecodeError> {
    match r {
        Ok(f) => Ok(f@),
        Err(e) => Err(e),
    }
}

/// What a raw frame decodes to. `record` is what the bytes after the tag
/// read as a `{cols, rows}` record: `None` where they are not one. It is
/// consulted for resize frames only.
pub open spec fn decode_spec(raw: Seq<u8>, record: Option<WindowSize>) -> Result<FrameModel, DecodeError> {
    if raw.len() == 0 {
        Err(DecodeError::Empty)
    } else if raw[0] == TAG_DATA {
        Ok(FrameModel::Input(raw.drop_first()))
    } else if raw[0] == TAG_RESIZE {
        match record {
            Some(w) => Ok(FrameModel::Resize(w)),
            None => Err(DecodeError::MalformedResize),
        }
    } else if raw[0] == TAG_HEARTBEAT {
        Ok(FrameModel::Heartbeat)
    } else {
        Ok(FrameModel::Ignored(raw[0]))
    }
}

/// The wire form of an output frame: the data tag, then the payload.
pub open spec fn encode_output_spec(payload: Seq<u8>) -> Seq<u8> {
    seq![TAG_DATA] + payload
}

/// The bytes of `raw` after its tag.
fn payload_of(raw: &[u8]) -> (r: Vec<u8>)
    requires
        raw@.len() >= 1,
    ensures
        r@ == raw@.drop_first(),
{
    let mut out: Vec<u8> = Vec::with_capacity(raw.len() - 1);
    let mut i: usize = 1;
    while i < raw.len()
        invariant
            1 <= i <= raw@.len(),
            out@ == raw@.subrange(1, i as int),
        decreases raw@.len() - i,
    {
        out.push(raw[i]);
        i = i + 1;
    }
    assert(out@ =~= raw@.drop_first());
    out
}

/// The bytes that must read as a `{cols, rows}` record for `raw` to decode:
/// the remainder of a resize frame, and `None` for any other frame.
pub fn resize_record(raw: &[u8]) -> (r: Option<Vec<u8>>)
    ensures
        r is Some <==> (raw@.len() > 0 && raw@[0] == TAG_RESIZE),
        r matches Some(b) ==> b@ == raw@.drop_first(),
{
    if raw.len() > 0 && raw[0] == TAG_RESIZE {
        Some(payload_of(raw))
    } else {
        None
    }
}

/// Decodes a raw frame; `record` is what [`resize_record`] of `raw` reads
/// as, if it names any bytes.
pub fn decode_with(raw: &[u8], record: Option<WindowSize>) -> (r: Result<Frame, DecodeError>)
    ensures
        frame_result_view(r) == decode_spec(raw@, record),
{
    if raw.len() == 0 {
        return Err(DecodeError::Empty);
    }
    let tag = raw[0];
    if tag == TAG_DATA {
        Ok(Frame::Input(payload_of(raw)))
    } else if tag == TAG_RESIZE {
        match record {
            Some(w) => Ok(Frame::Resize(w)),
            None => Err(DecodeError::MalformedResize),
        }
    } else if tag == TAG_HEARTBEAT {
        Ok(Frame::Heartbeat)
    } else {
        Ok(Frame::Ignored(tag))
    }
}

/// Wraps a chunk of process output as a frame: the data tag, then the chunk.
pub fn encode_output(payload: &[u8]) -> (r: Vec<u8>)
    requires
        payload@.len() < usize::MAX,
    ensures
        r@ == encode_output_spec(payload@),
        r@.len() == payload@.len() + 1,
        r@[0] == TAG_DATA,
{
    let mut out: Vec<u8> = Vec::with_capacity(payload.len() + 1);
    out.push(TAG_DATA);
    let mut i: usize = 0;
    while i < payload.len()
        invariant
            0 <= i <= payload@.len(),
            out@ == seq![TAG_DATA] + payload@.subrange(0, i as int),
        decreases payload@.len() - i,
    {
        out.push(payload[i]);
        i = i + 1;
        assert(out@ =~= seq![TAG_DATA] + payload@.subrange(0, i as int));
    }
    assert(payload@.subrange(0, payload@.len() as int) =~= payload@);
    out
}

/// The reply to a heartbeat probe: one bare byte.
pub fn encode_heartbeat_reply() -> (r: Vec<u8>)
    ensures
        r@ == seq![HEARTBEAT_REPLY],
{
    let mut out: Vec<u8> = Vec::with_capacity(1);
    out.push(HEARTBEAT_REPLY);
    assert(out@ =~= seq![HEARTBEAT_REPLY]);
    out
}

/// Any output frame, decoded as a client frame, reads back as an input frame
/// carrying the same payload byte for byte.
pub proof fn lemma_output_frame_decodes_to_input(payload: Seq<u8>, record: Option<WindowSize>)
    ensures
        decode_spec(encode_output_spec(payload), record) == Ok::<FrameModel, DecodeError>(
            FrameModel::Input(payload),
        ),
{
    assert(encode_output_spec(payload).drop_first() =~= payload);
}

} // verus!
