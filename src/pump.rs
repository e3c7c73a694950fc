//! The two data pumps, one step at a time: what an inbound message does, and
//! what a chunk of process output becomes.
use vstd::prelude::*;

use crate::codec::{
    decode_spec, decode_with, encode_heartbeat_reply, encode_output, encode_output_spec,
    DecodeError, Frame, FrameModel, WindowSize, HEARTBEAT_REPLY,
};

verus! {

/// A message received from the client.
#[derive(Clone, Debug, PartialEq, Eq)]
pub enum Inbound {
    /// A text message.
    Text(String),
    /// A binary message: a tagged frame.
    Binary(Vec<u8>),
    /// A transport-level liveness probe with its payload.
    Ping(Vec<u8>),
    /// Any other kind of message.
    Other,
}

/// The mathematical value of an [`Inbound`] message.
pub enum InboundModel {
    Text(Seq<char>),
    Binary(Seq<u8>),
    Ping(Seq<u8>),
    Other,
}

impl View for Inbound {
    type V = InboundModel;

    open spec fn view(&self) -> InboundModel {
        match self {
            Inbound::Text(s) => InboundModel::Text(s@),
            Inbound::Binary(b) => InboundModel::Binary(b@),
            Inbound::Ping(p) => InboundModel::Ping(p@),
            Inbound::Other => InboundModel::Other,
        }
    }
}

/// A message to be sent to the client.
#[derive(Clone, Debug, PartialEq, Eq)]
pub enum Outbound {
    /// A binary message.
    Binary(Vec<u8>),
    /// The acknowledgment of a transport-level probe, echoing its payload.
    Pong(Vec<u8>),
}

/// The mathematical value of an [`Outbound`] message.
pub enum OutboundModel {
    Binary(Seq<u8>),
    Pong(Seq<u8>),
}

impl View for Outbound {
    type V = OutboundModel;

    open spec fn view(&self) -> OutboundModel {
        match self {
            Outbound::Binary(b) => OutboundModel::Binary(b@),
            Outbound::Pong(p) => OutboundModel::Pong(p@),
        }
    }
}

/// What handling an inbound message asks of the caller.
#[derive(Clone, Debug, PartialEq, Eq)]
pub enum Effect {
    /// Write these bytes to the process.
    WritePty(Vec<u8>),
    /// Apply this geometry to the terminal.
    ResizePty(WindowSize),
    /// Put this message on the outbound queue.
    Send(Outbound),
    /// Nothing to do.
    Nothing,
}

/// The mathematical value of an [`Effect`].
pub enum EffectModel {
    WritePty(Seq<u8>),
    ResizePty(WindowSize),
    Send(OutboundModel),
    Nothing,
}

impl View for Effect {
    type V = EffectModel;

    open spec fn view(&self) -> EffectModel {
        match self {
            Effect::WritePty(b) => EffectModel::WritePty(b@),
            Effect::ResizePty(w) => EffectModel::ResizePty(*w),
            Effect::Send(m) => EffectModel::Send(m@),
            Effect::Nothing => EffectModel::Nothing,
        }
    }
}

pub open spec fn effect_result_view(r: Result<Effect, DecodeError>) -> Result<EffectModel, DecodeError> {
    match r {
        Ok(e) => Ok(e@),
        Err(e) => Err(e),
    }
}

/// The effect of a decoded client frame. Input is written only when it has
/// bytes; a heartbeat is answered with the bare one-byte reply.
pub open spec fn frame_effect_spec(f: FrameModel) -> EffectModel {
    match f {
        FrameModel::Input(p) => if p.len() > 0 {
            EffectModel::WritePty(p)
        } else {
            EffectModel::Nothing
        },
        FrameModel::Resize(w) => EffectModel::ResizePty(w),
        FrameModel::Heartbeat => EffectModel::Send(OutboundModel::Binary(seq![HEARTBEAT_REPLY])),
        _ => EffectModel::Nothing,
    }
}

/// The effect of an inbound message; `record` is what the remainder of a
/// resize frame reads as.
pub open spec fn inbound_effect_spec(m: InboundModel, record: Option<WindowSize>) -> Result<EffectModel, DecodeError> {
    match m {
        InboundModel::Binary(raw) => match decode_spec(raw, record) {
            Ok(f) => Ok(frame_effect_spec(f)),
            Err(e) => Err(e),
        },
        InboundModel::Ping(p) => Ok(EffectModel::Send(OutboundModel::Pong(p))),
        _ => Ok(EffectModel::Nothing),
    }
}

/// What a chunk read from the process becomes: `None` for an empty read,
/// which marks the end of the output, else an output frame.
pub open spec fn output_message_spec(chunk: Seq<u8>) -> Option<OutboundModel> {
    if chunk.len() == 0 {
        None
    } else {
        Some(OutboundModel::Binary(encode_output_spec(chunk)))
    }
}

/// One step of the client-to-process pump: the effect of one inbound
/// message. `record` is what the bytes named by
/// [`crate::codec::resize_record`] read as a `{cols, rows}` record. An error
/// ends the pump.
pub fn inbound_effect(msg: Inbound, record: Option<WindowSize>) -> (r: Result<Effect, DecodeError>)
    ensures
        effect_result_view(r) == inbound_effect_spec(msg@, record),
{
    match msg {
        Inbound::Binary(raw) => {
            let decoded = decode_with(raw.as_slice(), record);
            match decoded {
                Ok(Frame::Input(p)) => {
                    if p.len() > 0 {
                        Ok(Effect::WritePty(p))
                    } else {
                        Ok(Effect::Nothing)
                    }
                },
                Ok(Frame::Resize(w)) => Ok(Effect::ResizePty(w)),
                Ok(Frame::Heartbeat) => Ok(Effect::Send(Outbound::Binary(encode_heartbeat_reply()))),
                Ok(_) => Ok(Effect::Nothing),
                Err(e) => Err(e),
            }
        },
        Inbound::Ping(p) => Ok(Effect::Send(Outbound::Pong(p))),
        _ => Ok(Effect::Nothing),
    }
}

/// One step of the process-to-client pump: the message for a chunk read
/// from the process, or `None` where the read was empty and the pump ends.
pub fn output_message(chunk: &[u8]) -> (r: Option<Outbound>)
    requires
        chunk@.len() < usize::MAX,
    ensures
        r matches Some(m) ==> output_message_spec(chunk@) == Some(m@),
        r is None ==> output_message_spec(chunk@) is None,
{
    if chunk.len() == 0 {
        None
    } else {
        Some(Outbound::Binary(encode_output(chunk)))
    }
}

/// A heartbeat probe, whatever follows its tag, asks for exactly one
/// message: the bare one-byte reply.
pub proof fn lemma_heartbeat_gets_one_reply(raw: Seq<u8>, record: Option<WindowSize>)
    requires
        raw.len() > 0,
        raw[0] == crate::codec::TAG_HEARTBEAT,
    ensures
        inbound_effect_spec(InboundModel::Binary(raw), record) == Ok::<EffectModel, DecodeError>(
            EffectModel::Send(OutboundModel::Binary(seq![HEARTBEAT_REPLY])),
        ),
        seq![HEARTBEAT_REPLY].len() == 1,
{
}

/// Input bytes reach the process unchanged, and a process that echoes them
/// produces an output frame carrying the same bytes: a non-empty payload
/// sent as a data frame comes back as a data frame with that payload.
pub proof fn lemma_echo_round_trip(payload: Seq<u8>, record: Option<WindowSize>)
    requires
        payload.len() > 0,
    ensures
        inbound_effect_spec(InboundModel::Binary(encode_output_spec(payload)), record)
            == Ok::<EffectModel, DecodeError>(EffectModel::WritePty(payload)),
        output_message_spec(payload) == Some(OutboundModel::Binary(encode_output_spec(payload))),
{
    crate::codec::lemma_output_frame_decodes_to_input(payload, record);
}

} // verus!
