//! The decisions of the link worker.
//!
//! The link worker is the one task that owns the serial port. It waits for two
//! things at once, a frame to send and bytes from the device, and serves
//! whichever comes first. What it does with each is decided here; the waiting,
//! the reading and the writing are the caller's.
//!
//! `frame_step` tells how many bytes to read next from the port, and when a
//! frame is whole. `link_step` tells what to do with an event: write a frame,
//! hand a decoded message to one of the two planes, go on, or stop.

use crate::error::{TRXError, TRXErrorView};
use crate::trx_command::{
    parse_message, spec_frame, spec_parse_message, InterfaceMessage, PacketHeader,
    ProtocolMessage, ProtocolMessageView, ReceivedCommand, ReceivedCommandView, MAX_PAYLOAD_LEN,
};
use vstd::prelude::*;
use vstd::slice::{slice_subrange, slice_to_vec};

verus! {

/// Where the reading of one frame stands.
#[derive(Debug)]
pub enum FrameStep {
    /// The frame is not whole: read exactly this many bytes more, append them
    /// to what was read, and ask again.
    Read(usize),
    /// The frame is there. `None` is the idle marker, a frame whose length
    /// byte is zero; otherwise the bytes behind the length byte.
    Done(Option<Vec<u8>>),
}

/// A step of reading with the frame's bytes as a sequence.
pub enum FrameStepView {
    Read(usize),
    Done(Option<Seq<u8>>),
}

impl View for FrameStep {
    type V = FrameStepView;

    open spec fn view(&self) -> FrameStepView {
        match *self {
            FrameStep::Read(count) => FrameStepView::Read(count),
            FrameStep::Done(None) => FrameStepView::Done(None),
            FrameStep::Done(Some(body)) => FrameStepView::Done(Some(body@)),
        }
    }
}

/// What `frame_step` makes of the bytes read so far: first the length byte is
/// wanted, then as many bytes as it says.
pub open spec fn spec_frame_step(buffer: Seq<u8>) -> FrameStepView {
    if buffer.len() == 0 {
        FrameStepView::Read(1)
    } else if buffer[0] == 0 {
        FrameStepView::Done(None)
    } else if buffer.len() < 1 + buffer[0] {
        FrameStepView::Read((1 + buffer[0] - buffer.len()) as usize)
    } else {
        FrameStepView::Done(Some(buffer.subrange(1, 1 + buffer[0])))
    }
}

/// Decides, from the bytes read so far of one frame, what to read next.
///
/// With nothing read, the length byte is wanted. A length byte of zero is the
/// idle marker, and ends the frame at once. Otherwise the frame is whole when
/// as many bytes as the length byte says stand behind it; they are handed
/// back without the length byte.
pub fn frame_step(buffer: &[u8]) -> (step: FrameStep)
    ensures
        step@ == spec_frame_step(buffer@),
        buffer@.len() > 0 && buffer@[0] == 0 ==> step@ == FrameStepView::Done(None),
{
    if buffer.len() == 0 {
        return FrameStep::Read(1);
    }
    let announced: usize = buffer[0] as usize;
    if announced == 0 {
        FrameStep::Done(None)
    } else if buffer.len() - 1 < announced {
        FrameStep::Read(announced - (buffer.len() - 1))
    } else {
        FrameStep::Done(Some(slice_to_vec(slice_subrange(buffer, 1, 1 + announced))))
    }
}

/// A frame as the encoder lays it out is read whole and in one piece: what
/// comes out is the header's bytes and the payload, and the header read back
/// from them is the header that was written.
pub proof fn lemma_encoded_frame_is_read_back(header: PacketHeader, payload: Seq<u8>)
    requires
        payload.len() <= MAX_PAYLOAD_LEN,
    ensures
        spec_frame_step(spec_frame(header, payload)) == FrameStepView::Done(
            Some(header.spec_bytes() + payload),
        ),
        PacketHeader::spec_parse(header.spec_bytes() + payload) == Ok::<
            (PacketHeader, Seq<u8>),
            TRXErrorView,
        >((header, payload)),
{
    let frame = spec_frame(header, payload);
    PacketHeader::lemma_frame_round_trip(header, payload);
    assert(frame.subrange(1, 1 + frame[0]) =~= header.spec_bytes() + payload);
    assert(frame.skip(1) =~= header.spec_bytes() + payload);
}

/// What the link worker has been waiting for.
#[derive(Debug)]
pub enum LinkEvent {
    /// The outbound queue gave a frame to send, or `None`: it is closed.
    Outbound(Option<Vec<u8>>),
    /// A frame was read from the port: the bytes behind its length byte, or
    /// `None` for an idle marker.
    Inbound(Option<Vec<u8>>),
    /// Reading from the port or writing to it failed.
    PortFailed(std::io::Error),
    /// A plane did not take a message: nobody receives from it any more.
    PlaneClosed(String),
}

/// What the link worker does next.
#[derive(Debug)]
pub enum LinkAction {
    /// Write the frame to the port, whole, before waiting again.
    Write(Vec<u8>),
    /// Put the message on the interface plane, then wait again.
    ForwardInterface(InterfaceMessage),
    /// Put the message on the sensor plane, then wait again.
    ForwardSensor(ProtocolMessage),
    /// Wait again: there is nothing to do.
    Resume,
    /// The frame could not be decoded. Report the error and wait again.
    Discard(TRXError),
    /// End the worker with this result.
    Stop(Result<(), TRXError>),
}

/// An action with its bytes and texts as sequences.
pub enum LinkActionView {
    Write(Seq<u8>),
    ForwardInterface(InterfaceMessage),
    ForwardSensor(ProtocolMessageView),
    Resume,
    Discard(TRXErrorView),
    Stop(Result<(), TRXErrorView>),
}

impl View for LinkAction {
    type V = LinkActionView;

    open spec fn view(&self) -> LinkActionView {
        match *self {
            LinkAction::Write(frame) => LinkActionView::Write(frame@),
            LinkAction::ForwardInterface(message) => LinkActionView::ForwardInterface(message),
            LinkAction::ForwardSensor(message) => LinkActionView::ForwardSensor(message@),
            LinkAction::Resume => LinkActionView::Resume,
            LinkAction::Discard(e) => LinkActionView::Discard(e@),
            LinkAction::Stop(Ok(())) => LinkActionView::Stop(Ok(())),
            LinkAction::Stop(Err(e)) => LinkActionView::Stop(Err(e@)),
        }
    }
}

/// What the link worker does with a frame read from the port: a decoded frame
/// goes to exactly one plane, by its kind; one that cannot be decoded is
/// dropped.
pub open spec fn spec_route(body: Seq<u8>) -> LinkActionView {
    match spec_parse_message(body) {
        Ok(ReceivedCommandView::InterfaceMessage(message)) => LinkActionView::ForwardInterface(
            message,
        ),
        Ok(ReceivedCommandView::ProtocolMessage(message)) => LinkActionView::ForwardSensor(message),
        Err(e) => LinkActionView::Discard(e),
    }
}

/// What `link_step` makes of an event.
pub open spec fn spec_link_step(event: LinkEvent) -> LinkActionView {
    match event {
        LinkEvent::Outbound(Some(frame)) => LinkActionView::Write(frame@),
        LinkEvent::Outbound(None) => LinkActionView::Stop(Ok(())),
        LinkEvent::Inbound(Some(body)) => spec_route(body@),
        LinkEvent::Inbound(None) => LinkActionView::Resume,
        LinkEvent::PortFailed(e) => LinkActionView::Stop(Err(TRXErrorView::IO(e))),
        LinkEvent::PlaneClosed(reason) => LinkActionView::Stop(
            Err(TRXErrorView::TokioSendError(reason@)),
        ),
    }
}

/// An idle marker never reaches a plane: the bytes of a frame that starts with
/// a zero are done at once and amount to no frame, and with no frame the link
/// worker only waits again.
pub proof fn lemma_idle_is_not_forwarded(buffer: Seq<u8>)
    requires
        buffer.len() > 0,
        buffer[0] == 0,
    ensures
        spec_frame_step(buffer) == FrameStepView::Done(None),
        spec_link_step(LinkEvent::Inbound(None)) == LinkActionView::Resume,
{
}

/// A frame that was read goes to one plane or to none, and only what can be
/// decoded goes to a plane.
pub proof fn lemma_route_is_decided_by_decoding(body: Seq<u8>)
    ensures
        spec_route(body) is ForwardInterface <==> spec_parse_message(body) matches Ok(
            ReceivedCommandView::InterfaceMessage(_),
        ),
        spec_route(body) is ForwardSensor <==> spec_parse_message(body) matches Ok(
            ReceivedCommandView::ProtocolMessage(_),
        ),
        spec_route(body) is Discard <==> spec_parse_message(body) is Err,
        spec_route(body) is ForwardInterface || spec_route(body) is ForwardSensor || spec_route(
            body,
        ) is Discard,
{
}

/// Decides what the link worker does with an event.
///
/// A frame from the outbound queue is written to the port; the closing of that
/// queue ends the worker in good order. An idle marker is passed over. A frame
/// from the port is decoded and handed to the interface plane or to the
/// sensor plane; where it cannot be decoded the worker drops it and goes on.
/// A failure of the port, or a plane that takes no more messages, ends the
/// worker with that error.
pub fn link_step(event: LinkEvent) -> (action: LinkAction)
    ensures
        action@ == spec_link_step(event),
        event matches LinkEvent::Inbound(None) ==> action@ == LinkActionView::Resume,
{
    match event {
        LinkEvent::Outbound(Some(frame)) => LinkAction::Write(frame),
        LinkEvent::Outbound(None) => LinkAction::Stop(Ok(())),
        LinkEvent::Inbound(Some(body)) => match parse_message(body.as_slice()) {
            Ok(ReceivedCommand::InterfaceMessage(message)) => LinkAction::ForwardInterface(
                message,
            ),
            Ok(ReceivedCommand::ProtocolMessage(message)) => LinkAction::ForwardSensor(message),
            Err(e) => LinkAction::Discard(e),
        },
        LinkEvent::Inbound(None) => LinkAction::Resume,
        LinkEvent::PortFailed(e) => LinkAction::Stop(Err(TRXError::IO(e))),
        LinkEvent::PlaneClosed(reason) => LinkAction::Stop(Err(TRXError::TokioSendError(reason))),
    }
}

} // verus!
