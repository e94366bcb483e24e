//! The session with one device: which control frame goes out next, and what a
//! reply means.
//!
//! A session is used by one owner at a time. A control operation starts with
//! a call that hands out the frame to send, and goes on with the replies that
//! the device gives on the interface plane. Queues, the port and the clock
//! belong to the caller: it sends the frame, waits, and hands in what came.

use crate::error::{TRXError, TRXErrorView};
use crate::protocols::{Protocols1, Protocols2, Protocols3, Protocols4};
use crate::trx_command::{
    get_status, reset, save, set_mode, spec_control_frame, start_receiver, EnabledProtocols,
    Frequency, InterfaceCommandCmd, InterfaceMessage, ProtocolMessage, SequenceNumber,
};
use vstd::prelude::*;
use vstd::string::StringExecFns;

verus! {

/// The speed of the serial link, in bits per second.
pub const BAUD_RATE: u32 = 38400;

/// How many messages each of the two inbound planes holds before the link
/// worker has to wait for the reader.
pub const MESSAGE_QUEUE_LEN: usize = 100;

/// How long to leave the device alone after a reset, in milliseconds. It
/// needs at least 500.
pub const RESET_SLEEP_MS: u64 = 1000;

/// Parity of the serial link.
#[derive(Clone, Copy, Debug, PartialEq, Eq, Structural)]
pub enum Parity {
    Off,
    Odd,
    Even,
}

/// Flow control of the serial link.
#[derive(Clone, Copy, Debug, PartialEq, Eq, Structural)]
pub enum FlowControl {
    Off,
    Software,
    Hardware,
}

/// How to open the serial port of a device.
#[derive(Debug)]
pub struct PortSettings {
    /// The port's path, such as `/dev/ttyUSB0`.
    pub path: String,
    pub baud_rate: u32,
    pub data_bits: u8,
    pub parity: Parity,
    pub stop_bits: u8,
    pub flow_control: FlowControl,
}

impl PortSettings {
    /// The settings are those that the device speaks: 38400 baud, eight data
    /// bits, no parity, one stop bit, no flow control.
    pub open spec fn is_for(&self, path: Seq<char>) -> bool {
        &&& self.path@ == path
        &&& self.baud_rate == BAUD_RATE
        &&& self.data_bits == 8
        &&& self.parity == Parity::Off
        &&& self.stop_bits == 1
        &&& self.flow_control == FlowControl::Off
    }
}

/// A serial port of the machine, as far as the search for a device looks at
/// it.
#[derive(Debug)]
pub struct PortEntry {
    /// The port's path.
    pub port_name: String,
    /// The serial number of the USB device behind the port. `None` where the
    /// port is not a USB port, or the device reports no serial number.
    pub usb_serial_number: Option<String>,
}

impl PortEntry {
    /// The port belongs to the USB device with this serial number.
    pub open spec fn has_serial_number(&self, serial: Seq<char>) -> bool {
        self.usb_serial_number matches Some(number) && number@ == serial
    }
}

/// Information about the hardware
#[derive(Clone, Copy, Debug, PartialEq, Eq, Structural)]
pub struct RFXtrx433Info {
    /// Currently set frequency
    pub frequency: Frequency,
    /// Currently enabled protocols
    pub enabled_protocols: EnabledProtocols,
}

/// What to do once a control frame has gone out.
#[derive(Clone, Copy, Debug, PartialEq, Eq, Structural)]
pub enum AfterSend {
    /// Leave the device alone for this many milliseconds, then tell the
    /// session with `reset_done`. The device sends no reply.
    Sleep(u64),
    /// Wait for the next reply on the interface plane, and hand it to
    /// `interface_reply`.
    AwaitReply,
}

/// A control frame to send, and what to do once it has gone out.
#[derive(Debug)]
pub struct Outgoing {
    pub frame: Vec<u8>,
    pub next: AfterSend,
}

/// An outgoing frame with its bytes as a sequence.
pub struct OutgoingView {
    pub frame: Seq<u8>,
    pub next: AfterSend,
}

impl View for Outgoing {
    type V = OutgoingView;

    open spec fn view(&self) -> OutgoingView {
        OutgoingView { frame: self.frame@, next: self.next }
    }
}

/// Where a session stands.
#[derive(Clone, Copy, Debug, PartialEq, Eq, Structural)]
pub enum SessionState {
    /// The port was opened and nothing was sent yet.
    Opened,
    /// A reset was sent, and the device is left alone for a while.
    Resetting,
    /// No operation is under way.
    Ready,
    /// A status request was sent, and its reply is awaited.
    AwaitingStatus,
    /// The receiver was told to start, and the acknowledgement is awaited.
    AwaitingReceiverStarted,
    /// The mode was sent, and the acknowledgement is awaited.
    AwaitingSetMode,
    /// After the mode, "save" was sent, and the acknowledgement is awaited.
    AwaitingSave,
    /// A queue was closed. The session stays here.
    Shutdown,
}

/// What a reply on the interface plane leads to.
#[derive(Debug)]
pub enum SessionStep {
    /// The operation goes on with another frame.
    Send(Outgoing),
    /// The operation is done, and has nothing to give back.
    Finished,
    /// The status request is done: these are the device's settings.
    Status(RFXtrx433Info),
    /// The operation failed with this error.
    Failed(TRXError),
    /// No operation was waiting for a reply. The message is handed back.
    NotAwaited(InterfaceMessage),
}

/// A step with its bytes and texts as sequences.
pub enum SessionStepView {
    Send(OutgoingView),
    Finished,
    Status(RFXtrx433Info),
    Failed(TRXErrorView),
    NotAwaited(InterfaceMessage),
}

impl View for SessionStep {
    type V = SessionStepView;

    open spec fn view(&self) -> SessionStepView {
        match *self {
            SessionStep::Send(outgoing) => SessionStepView::Send(outgoing@),
            SessionStep::Finished => SessionStepView::Finished,
            SessionStep::Status(info) => SessionStepView::Status(info),
            SessionStep::Failed(e) => SessionStepView::Failed(e@),
            SessionStep::NotAwaited(message) => SessionStepView::NotAwaited(message),
        }
    }
}

/// The sequence number after `seqnbr`. It wraps from 255 to 0.
pub open spec fn spec_next_seqnbr(seqnbr: SequenceNumber) -> SequenceNumber {
    if seqnbr == 255 {
        0
    } else {
        (seqnbr + 1) as u8
    }
}

/// The name of a bare acknowledgement, as an error text shows it.
pub open spec fn spec_message_name(message: InterfaceMessage) -> Seq<char> {
    match message {
        InterfaceMessage::Status { .. } => "Status"@,
        InterfaceMessage::SetMode => "SetMode"@,
        InterfaceMessage::ReceiverStarted => "ReceiverStarted"@,
        InterfaceMessage::Save => "Save"@,
    }
}

/// The session with one device: the sequence counter and the operation that
/// is under way.
#[derive(Clone, Copy, Debug, PartialEq, Eq, Structural)]
pub struct RFXtrx433 {
    pub seqnbr: SequenceNumber,
    pub state: SessionState,
}

impl RFXtrx433 {
    /// The session as it is after a control frame went out: the counter has
    /// advanced by one, and the session waits for what `awaiting` says.
    pub open spec fn spec_started(self, awaiting: SessionState) -> RFXtrx433 {
        RFXtrx433 { seqnbr: spec_next_seqnbr(self.seqnbr), state: awaiting }
    }

    /// The session as it is when the quiet time after a reset is over.
    pub open spec fn spec_reset_done(self) -> RFXtrx433 {
        if self.state == SessionState::Resetting {
            RFXtrx433 { seqnbr: self.seqnbr, state: SessionState::Ready }
        } else {
            self
        }
    }

    /// The session after a reply on the interface plane, and what the reply
    /// led to. `None` stands for the closing of the plane.
    pub open spec fn spec_interface_reply(self, reply: Option<InterfaceMessage>) -> (
        RFXtrx433,
        SessionStepView,
    ) {
        match reply {
            None => (
                RFXtrx433 { seqnbr: self.seqnbr, state: SessionState::Shutdown },
                SessionStepView::Failed(TRXErrorView::Shutdown),
            ),
            Some(message) => match self.state {
                SessionState::AwaitingStatus => (
                    RFXtrx433 { seqnbr: self.seqnbr, state: SessionState::Ready },
                    match message {
                        InterfaceMessage::Status {
                            frequency,
                            fw_version,
                            enabled_protocols,
                        } => SessionStepView::Status(
                            RFXtrx433Info { frequency, enabled_protocols },
                        ),
                        _ => SessionStepView::Failed(
                            TRXErrorView::UnexpectedMessage(
                                "Expected status response, received "@ + spec_message_name(
                                    message,
                                ),
                            ),
                        ),
                    },
                ),
                SessionState::AwaitingReceiverStarted | SessionState::AwaitingSave => (
                    RFXtrx433 { seqnbr: self.seqnbr, state: SessionState::Ready },
                    SessionStepView::Finished,
                ),
                SessionState::AwaitingSetMode => (
                    self.spec_started(SessionState::AwaitingSave),
                    SessionStepView::Send(
                        OutgoingView {
                            frame: spec_control_frame(
                                self.seqnbr,
                                InterfaceCommandCmd::Save,
                                0,
                                (0, 0, 0, 0),
                            ),
                            next: AfterSend::AwaitReply,
                        },
                    ),
                ),
                SessionState::Shutdown => (self, SessionStepView::Failed(TRXErrorView::Shutdown)),
                SessionState::Opened | SessionState::Resetting | SessionState::Ready => (
                    self,
                    SessionStepView::NotAwaited(message),
                ),
            },
        }
    }

    /// A reset, a status request and the start of the receiver each move the
    /// sequence counter on by exactly one, from the call to the end of the
    /// operation and whatever the device answers. The counter wraps at 256.
    pub proof fn lemma_control_call_advances_once(
        session: RFXtrx433,
        reply: Option<InterfaceMessage>,
    )
        ensures
            spec_next_seqnbr(session.seqnbr) == (session.seqnbr + 1) % 256,
            session.spec_started(SessionState::Resetting).seqnbr == spec_next_seqnbr(
                session.seqnbr,
            ),
            session.spec_started(SessionState::Resetting).spec_reset_done().seqnbr
                == spec_next_seqnbr(session.seqnbr),
            session.spec_started(SessionState::AwaitingStatus).spec_interface_reply(
                reply,
            ).0.seqnbr == spec_next_seqnbr(session.seqnbr),
            session.spec_started(SessionState::AwaitingReceiverStarted).spec_interface_reply(
                reply,
            ).0.seqnbr == spec_next_seqnbr(session.seqnbr),
    {
    }

    /// Setting the mode moves the sequence counter on by exactly two: once
    /// for the mode, and once for "save", which goes out when the mode is
    /// acknowledged and carries the number after that of the mode. The last
    /// reply, or the closing of the plane in its place, moves it no further.
    pub proof fn lemma_set_mode_advances_twice(
        session: RFXtrx433,
        first: InterfaceMessage,
        second: Option<InterfaceMessage>,
    )
        ensures
            ({
                let sent = session.spec_started(SessionState::AwaitingSetMode);
                let acknowledged = sent.spec_interface_reply(Some(first));
                let saved = acknowledged.0.spec_interface_reply(second);
                &&& sent.seqnbr == spec_next_seqnbr(session.seqnbr)
                &&& acknowledged.1 == SessionStepView::Send(
                    OutgoingView {
                        frame: spec_control_frame(
                            spec_next_seqnbr(session.seqnbr),
                            InterfaceCommandCmd::Save,
                            0,
                            (0, 0, 0, 0),
                        ),
                        next: AfterSend::AwaitReply,
                    },
                )
                &&& acknowledged.0.seqnbr == spec_next_seqnbr(spec_next_seqnbr(session.seqnbr))
                &&& saved.0.seqnbr == spec_next_seqnbr(spec_next_seqnbr(session.seqnbr))
                &&& saved.0.seqnbr == (session.seqnbr + 2) % 256
                &&& second is Some ==> saved.0.state == SessionState::Ready && saved.1
                    == SessionStepView::Finished
            }),
    {
    }

    /// Once a session is shut down it stays so: no reply and no end of a
    /// quiet time brings it back.
    pub proof fn lemma_shutdown_is_final(session: RFXtrx433, reply: Option<InterfaceMessage>)
        requires
            session.state == SessionState::Shutdown,
        ensures
            session.spec_reset_done() == session,
            session.spec_interface_reply(reply).0 == session,
            session.spec_interface_reply(reply).1 == SessionStepView::Failed(
                TRXErrorView::Shutdown,
            ),
    {
    }

    /// A session on a port that was just opened: the counter at zero, nothing
    /// sent yet.
    pub fn new() -> (session: RFXtrx433)
        ensures
            session == (RFXtrx433 { seqnbr: 0, state: SessionState::Opened }),
    {
        RFXtrx433 { seqnbr: 0, state: SessionState::Opened }
    }

    /// Starts a session with the device on the given port, e.g.
    /// `/dev/ttyUSB0`, and says how to open that port.
    pub fn new_from_serial_port(port: &str) -> (r: (RFXtrx433, PortSettings))
        ensures
            r.0 == (RFXtrx433 { seqnbr: 0, state: SessionState::Opened }),
            r.1.is_for(port@),
    {
        (
            RFXtrx433::new(),
            PortSettings {
                path: String::from_str(port),
                baud_rate: BAUD_RATE,
                data_bits: 8,
                parity: Parity::Off,
                stop_bits: 1,
                flow_control: FlowControl::Off,
            },
        )
    }

    /// Starts a session with the device that has the given serial number.
    ///
    /// `ports` are the serial ports of the machine. The first of them that
    /// belongs to a USB device with this serial number is the one to open.
    /// Where there is none, the error is `DeviceWithSerialNotFound`, with the
    /// serial number in its text.
    pub fn new_from_serial_number(ports: &Vec<PortEntry>, serial: &str) -> (r: Result<
        (RFXtrx433, PortSettings),
        TRXError,
    >)
        ensures
            r is Ok <==> exists|i: int|
                0 <= i < ports@.len() && (#[trigger] ports@[i]).has_serial_number(serial@),
            r matches Ok((session, settings)) ==> {
                &&& session == (RFXtrx433 { seqnbr: 0, state: SessionState::Opened })
                &&& exists|i: int|
                    {
                        &&& 0 <= i < ports@.len()
                        &&& (#[trigger] ports@[i]).has_serial_number(serial@)
                        &&& forall|j: int|
                            0 <= j < i ==> !(#[trigger] ports@[j]).has_serial_number(serial@)
                        &&& settings.is_for(ports@[i].port_name@)
                    }
            },
            r matches Err(e) ==> e@ == TRXErrorView::DeviceWithSerialNotFound(
                "Serial number "@ + serial@,
            ),
    {
        let wanted: String = String::from_str(serial);
        let mut index: usize = 0;
        while index < ports.len()
            invariant
                index <= ports@.len(),
                wanted@ == serial@,
                forall|j: int|
                    0 <= j < index ==> !(#[trigger] ports@[j]).has_serial_number(serial@),
            decreases ports@.len() - index,
        {
            let found: bool = match &ports[index].usb_serial_number {
                Some(number) => *number == wanted,
                None => false,
            };
            if found {
                assert(ports@[index as int].has_serial_number(serial@));
                return Ok(RFXtrx433::new_from_serial_port(ports[index].port_name.as_str()));
            }
            index = index + 1;
        }
        Err(
            TRXError::DeviceWithSerialNotFound(String::from_str("Serial number ").concat(serial)),
        )
    }

    /// Moves the counter on by one and hands out the number it had.
    fn next_seqnbr(&mut self) -> (n: SequenceNumber)
        ensures
            n == old(self).seqnbr,
            final(self).seqnbr == spec_next_seqnbr(old(self).seqnbr),
            final(self).state == old(self).state,
    {
        let n = self.seqnbr;
        self.seqnbr = self.seqnbr.wrapping_add(1);
        n
    }

    /// Starts a reset of the device, and hands out the frame to send.
    ///
    /// The device answers nothing. It has to be left alone for
    /// `RESET_SLEEP_MS` after the frame went out; then `reset_done` makes the
    /// session ready. A session that was shut down stays as it is, and the
    /// error is `Shutdown`.
    pub fn reset(&mut self) -> (r: Result<Outgoing, TRXError>)
        ensures
            match r {
                Ok(outgoing) => {
                    &&& old(self).state != SessionState::Shutdown
                    &&& *final(self) == old(self).spec_started(SessionState::Resetting)
                    &&& outgoing@ == (OutgoingView {
                        frame: spec_control_frame(
                            old(self).seqnbr,
                            InterfaceCommandCmd::Reset,
                            0,
                            (0, 0, 0, 0),
                        ),
                        next: AfterSend::Sleep(RESET_SLEEP_MS),
                    })
                },
                Err(e) => {
                    &&& old(self).state == SessionState::Shutdown
                    &&& *final(self) == *old(self)
                    &&& e@ == TRXErrorView::Shutdown
                },
            },
    {
        if self.state == SessionState::Shutdown {
            return Err(TRXError::Shutdown);
        }
        let frame = reset(self.next_seqnbr());
        self.state = SessionState::Resetting;
        Ok(Outgoing { frame, next: AfterSend::Sleep(RESET_SLEEP_MS) })
    }

    /// Ends the quiet time after a reset: a session that was resetting is
    /// ready now. In any other state nothing changes.
    pub fn reset_done(&mut self)
        ensures
            *final(self) == old(self).spec_reset_done(),
    {
        if self.state == SessionState::Resetting {
            self.state = SessionState::Ready;
        }
    }

    /// Starts a status request, and hands out the frame to send. The reply
    /// goes to `interface_reply`.
    ///
    /// A session that was shut down stays as it is, and the error is
    /// `Shutdown`.
    pub fn get_status(&mut self) -> (r: Result<Outgoing, TRXError>)
        ensures
            match r {
                Ok(outgoing) => {
                    &&& old(self).state != SessionState::Shutdown
                    &&& *final(self) == old(self).spec_started(SessionState::AwaitingStatus)
                    &&& outgoing@ == (OutgoingView {
                        frame: spec_control_frame(
                            old(self).seqnbr,
                            InterfaceCommandCmd::Status,
                            0,
                            (0, 0, 0, 0),
                        ),
                        next: AfterSend::AwaitReply,
                    })
                },
                Err(e) => {
                    &&& old(self).state == SessionState::Shutdown
                    &&& *final(self) == *old(self)
                    &&& e@ == TRXErrorView::Shutdown
                },
            },
    {
        if self.state == SessionState::Shutdown {
            return Err(TRXError::Shutdown);
        }
        let frame = get_status(self.next_seqnbr());
        self.state = SessionState::AwaitingStatus;
        Ok(Outgoing { frame, next: AfterSend::AwaitReply })
    }

    /// Starts the receiver, and hands out the frame to send. The reply goes
    /// to `interface_reply`.
    ///
    /// A session that was shut down stays as it is, and the error is
    /// `Shutdown`.
    pub fn start_receiver(&mut self) -> (r: Result<Outgoing, TRXError>)
        ensures
            match r {
                Ok(outgoing) => {
                    &&& old(self).state != SessionState::Shutdown
                    &&& *final(self) == old(self).spec_started(
                        SessionState::AwaitingReceiverStarted,
                    )
                    &&& outgoing@ == (OutgoingView {
                        frame: spec_control_frame(
                            old(self).seqnbr,
                            InterfaceCommandCmd::StartReceiver,
                            0,
                            (0, 0, 0, 0),
                        ),
                        next: AfterSend::AwaitReply,
                    })
                },
                Err(e) => {
                    &&& old(self).state == SessionState::Shutdown
                    &&& *final(self) == *old(self)
                    &&& e@ == TRXErrorView::Shutdown
                },
            },
    {
        if self.state == SessionState::Shutdown {
            return Err(TRXError::Shutdown);
        }
        let frame = start_receiver(self.next_seqnbr());
        self.state = SessionState::AwaitingReceiverStarted;
        Ok(Outgoing { frame, next: AfterSend::AwaitReply })
    }

    /// Starts setting the mode of the receiver, and hands out the frame to
    /// send. The reply goes to `interface_reply`, which then hands out the
    /// frame that saves the mode, and takes the reply to that one too.
    ///
    /// A session that was shut down stays as it is, and the error is
    /// `Shutdown`.
    pub fn set_mode(
        &mut self,
        frequency: Frequency,
        protos_1: Protocols1,
        protos_2: Protocols2,
        protos_3: Protocols3,
        protos_4: Protocols4,
    ) -> (r: Result<Outgoing, TRXError>)
        ensures
            match r {
                Ok(outgoing) => {
                    &&& old(self).state != SessionState::Shutdown
                    &&& *final(self) == old(self).spec_started(SessionState::AwaitingSetMode)
                    &&& outgoing@ == (OutgoingView {
                        frame: spec_control_frame(
                            old(self).seqnbr,
                            InterfaceCommandCmd::SetMode,
                            frequency.to_u8(),
                            (protos_1.bits(), protos_2.bits(), protos_3.bits(), protos_4.bits()),
                        ),
                        next: AfterSend::AwaitReply,
                    })
                },
                Err(e) => {
                    &&& old(self).state == SessionState::Shutdown
                    &&& *final(self) == *old(self)
                    &&& e@ == TRXErrorView::Shutdown
                },
            },
    {
        if self.state == SessionState::Shutdown {
            return Err(TRXError::Shutdown);
        }
        let frame = set_mode(self.next_seqnbr(), frequency, protos_1, protos_2, protos_3, protos_4);
        self.state = SessionState::AwaitingSetMode;
        Ok(Outgoing { frame, next: AfterSend::AwaitReply })
    }

    /// Takes note that a frame could not be handed to the link worker. The
    /// outbound queue is closed then, so the session is shut down; the error
    /// to give to the caller carries the reason.
    pub fn send_failed(&mut self, reason: String) -> (e: TRXError)
        ensures
            final(self).seqnbr == old(self).seqnbr,
            final(self).state == SessionState::Shutdown,
            e@ == TRXErrorView::TokioSendError(reason@),
    {
        self.state = SessionState::Shutdown;
        TRXError::TokioSendError(reason)
    }

    /// Takes a reply from the interface plane, or `None` where the plane was
    /// closed, and says how the operation under way goes on.
    ///
    /// A closed plane shuts the session down, whatever it was doing, and the
    /// operation fails with `Shutdown`. A status request is done with a status
    /// reply, and fails with `UnexpectedMessage` on any other; the session is
    /// ready again either way. The start of the receiver and "save" are done
    /// with the next reply, whatever it is. The reply to "set mode" makes the
    /// session send "save", under the next sequence number. Where nothing is
    /// awaited the message is handed back.
    pub fn interface_reply(&mut self, reply: Option<InterfaceMessage>) -> (step: SessionStep)
        ensures
            *final(self) == old(self).spec_interface_reply(reply).0,
            step@ == old(self).spec_interface_reply(reply).1,
    {
        let message = match reply {
            Some(message) => message,
            None => {
                self.state = SessionState::Shutdown;
                return SessionStep::Failed(TRXError::Shutdown);
            },
        };
        match self.state {
            SessionState::AwaitingStatus => {
                self.state = SessionState::Ready;
                match message {
                    InterfaceMessage::Status {
                        frequency,
                        fw_version: _,
                        enabled_protocols,
                    } => SessionStep::Status(RFXtrx433Info { frequency, enabled_protocols }),
                    InterfaceMessage::SetMode => SessionStep::Failed(
                        TRXError::UnexpectedMessage(
                            String::from_str("Expected status response, received ").concat(
                                "SetMode",
                            ),
                        ),
                    ),
                    InterfaceMessage::ReceiverStarted => SessionStep::Failed(
                        TRXError::UnexpectedMessage(
                            String::from_str("Expected status response, received ").concat(
                                "ReceiverStarted",
                            ),
                        ),
                    ),
                    InterfaceMessage::Save => SessionStep::Failed(
                        TRXError::UnexpectedMessage(
                            String::from_str("Expected status response, received ").concat("Save"),
                        ),
                    ),
                }
            },
            SessionState::AwaitingReceiverStarted | SessionState::AwaitingSave => {
                self.state = SessionState::Ready;
                SessionStep::Finished
            },
            SessionState::AwaitingSetMode => {
                let frame = save(self.next_seqnbr());
                self.state = SessionState::AwaitingSave;
                SessionStep::Send(Outgoing { frame, next: AfterSend::AwaitReply })
            },
            SessionState::Shutdown => SessionStep::Failed(TRXError::Shutdown),
            SessionState::Opened | SessionState::Resetting | SessionState::Ready => {
                SessionStep::NotAwaited(message)
            },
        }
    }

    /// Takes a message from the sensor plane, or `None` where the plane was
    /// closed. The message is handed on as it is; a closed plane shuts the
    /// session down, and the error is `Shutdown`.
    pub fn read_message(&mut self, received: Option<ProtocolMessage>) -> (r: Result<
        ProtocolMessage,
        TRXError,
    >)
        ensures
            final(self).seqnbr == old(self).seqnbr,
            match received {
                Some(message) => r == Ok::<ProtocolMessage, TRXError>(message) && final(self).state
                    == old(self).state,
                None => r matches Err(TRXError::Shutdown) && final(self).state
                    == SessionState::Shutdown,
            },
    {
        match received {
            Some(message) => Ok(message),
            None => {
                self.state = SessionState::Shutdown;
                Err(TRXError::Shutdown)
            },
        }
    }
}

} // verus!
