use rfxtrx433::session::{
    AfterSend, FlowControl, Parity, PortEntry, SessionState, SessionStep, BAUD_RATE, MESSAGE_QUEUE_LEN,
    RESET_SLEEP_MS,
};
use rfxtrx433::trx_command::{
    EnabledProtocols, InterfaceMessage, PacketHeader, PacketType, TempHum,
};
use rfxtrx433::{
    Frequency, ProtocolMessage, Protocols1, Protocols2, Protocols3, Protocols4, RFXtrx433,
    RFXtrx433Info, TRXError,
};

fn ready_session(seqnbr: u8) -> RFXtrx433 {
    RFXtrx433 {
        seqnbr,
        state: SessionState::Ready,
    }
}

fn status_reply() -> InterfaceMessage {
    InterfaceMessage::Status {
        frequency: Frequency::TrxType43392,
        fw_version: 0x2a,
        enabled_protocols: EnabledProtocols {
            protos_1: Protocols1::empty(),
            protos_2: Protocols2::empty(),
            protos_3: Protocols3::from_bits_truncate(Protocols3::OREGON),
            protos_4: Protocols4::from_bits_truncate(Protocols4::KEELOQ),
        },
    }
}

fn port(name: &str, serial: Option<&str>) -> PortEntry {
    PortEntry {
        port_name: name.to_string(),
        usb_serial_number: serial.map(|s| s.to_string()),
    }
}

#[test]
fn link_constants() {
    assert_eq!(BAUD_RATE, 38400);
    assert_eq!(MESSAGE_QUEUE_LEN, 100);
    assert_eq!(RESET_SLEEP_MS, 1000);
}

#[test]
fn new_session_starts_at_zero() {
    let session = RFXtrx433::new();
    assert_eq!(session.seqnbr, 0);
    assert_eq!(session.state, SessionState::Opened);
}

#[test]
fn new_from_serial_port_gives_the_port_settings() {
    let (session, settings) = RFXtrx433::new_from_serial_port("/dev/ttyUSB0");
    assert_eq!(session, RFXtrx433::new());
    assert_eq!(settings.path, "/dev/ttyUSB0");
    assert_eq!(settings.baud_rate, 38400);
    assert_eq!(settings.data_bits, 8);
    assert_eq!(settings.parity, Parity::Off);
    assert_eq!(settings.stop_bits, 1);
    assert_eq!(settings.flow_control, FlowControl::Off);
}

#[test]
fn new_from_serial_number_picks_the_first_match() {
    let ports = vec![
        port("/dev/ttyS0", None),
        port("/dev/ttyUSB0", Some("OTHER")),
        port("/dev/ttyUSB1", Some("123ABC")),
        port("/dev/ttyUSB2", Some("123ABC")),
    ];
    let (session, settings) = RFXtrx433::new_from_serial_number(&ports, "123ABC").unwrap();
    assert_eq!(session, RFXtrx433::new());
    assert_eq!(settings.path, "/dev/ttyUSB1");
    assert_eq!(settings.baud_rate, 38400);
    assert_eq!(settings.data_bits, 8);
    assert_eq!(settings.parity, Parity::Off);
    assert_eq!(settings.stop_bits, 1);
    assert_eq!(settings.flow_control, FlowControl::Off);

    let (_, settings) = RFXtrx433::new_from_serial_number(&ports, "OTHER").unwrap();
    assert_eq!(settings.path, "/dev/ttyUSB0");
}

#[test]
fn new_from_serial_number_reports_a_missing_device() {
    let ports = vec![
        port("/dev/ttyS0", None),
        port("/dev/ttyUSB0", Some("123ABCD")),
        port("/dev/ttyUSB1", Some("123AB")),
        port("/dev/ttyUSB2", Some("123abc")),
    ];
    match RFXtrx433::new_from_serial_number(&ports, "123ABC") {
        Err(TRXError::DeviceWithSerialNotFound(text)) => assert_eq!(text, "Serial number 123ABC"),
        other => panic!("unexpected result {:?}", other),
    }
    match RFXtrx433::new_from_serial_number(&Vec::new(), "") {
        Err(TRXError::DeviceWithSerialNotFound(text)) => assert_eq!(text, "Serial number "),
        other => panic!("unexpected result {:?}", other),
    }
    // a port without a serial number does not match the empty serial number
    assert!(matches!(
        RFXtrx433::new_from_serial_number(&vec![port("/dev/ttyS0", None)], ""),
        Err(TRXError::DeviceWithSerialNotFound(_))
    ));
}

#[test]
fn reset_sends_the_reset_frame_and_waits() {
    let mut session = RFXtrx433::new();
    let outgoing = session.reset().unwrap();
    assert_eq!(outgoing.frame, vec![0x0d, 0, 0, 0, 0, 0, 0, 0, 0, 0, 0, 0, 0, 0]);
    assert_eq!(outgoing.next, AfterSend::Sleep(1000));
    assert_eq!(session.seqnbr, 1);
    assert_eq!(session.state, SessionState::Resetting);
    session.reset_done();
    assert_eq!(session.seqnbr, 1);
    assert_eq!(session.state, SessionState::Ready);
}

#[test]
fn reset_done_changes_only_a_resetting_session() {
    for state in [
        SessionState::Opened,
        SessionState::Ready,
        SessionState::AwaitingStatus,
        SessionState::AwaitingReceiverStarted,
        SessionState::AwaitingSetMode,
        SessionState::AwaitingSave,
        SessionState::Shutdown,
    ] {
        let mut session = RFXtrx433 { seqnbr: 5, state };
        session.reset_done();
        assert_eq!(session, RFXtrx433 { seqnbr: 5, state });
    }
}

#[test]
fn get_status_gives_frequency_and_protocols() {
    let mut session = ready_session(0x10);
    let outgoing = session.get_status().unwrap();
    assert_eq!(outgoing.frame, vec![0x0d, 0, 0, 0x10, 2, 0, 0, 0, 0, 0, 0, 0, 0, 0]);
    assert_eq!(outgoing.next, AfterSend::AwaitReply);
    assert_eq!(session.seqnbr, 0x11);
    assert_eq!(session.state, SessionState::AwaitingStatus);
    match session.interface_reply(Some(status_reply())) {
        SessionStep::Status(info) => {
            assert_eq!(
                info,
                RFXtrx433Info {
                    frequency: Frequency::TrxType43392,
                    enabled_protocols: EnabledProtocols {
                        protos_1: Protocols1::empty(),
                        protos_2: Protocols2::empty(),
                        protos_3: Protocols3::from_bits_truncate(Protocols3::OREGON),
                        protos_4: Protocols4::from_bits_truncate(Protocols4::KEELOQ),
                    },
                }
            );
        }
        other => panic!("unexpected step {:?}", other),
    }
    assert_eq!(session.seqnbr, 0x11);
    assert_eq!(session.state, SessionState::Ready);
}

#[test]
fn get_status_fails_on_another_reply() {
    let replies = [
        (InterfaceMessage::SetMode, "Expected status response, received SetMode"),
        (
            InterfaceMessage::ReceiverStarted,
            "Expected status response, received ReceiverStarted",
        ),
        (InterfaceMessage::Save, "Expected status response, received Save"),
    ];
    for (reply, expected) in replies {
        let mut session = ready_session(3);
        session.get_status().unwrap();
        match session.interface_reply(Some(reply)) {
            SessionStep::Failed(TRXError::UnexpectedMessage(text)) => assert_eq!(text, expected),
            other => panic!("unexpected step {:?}", other),
        }
        // the session remains usable
        assert_eq!(session, ready_session(4));
        assert!(session.get_status().is_ok());
    }
}

#[test]
fn start_receiver_is_done_with_any_reply() {
    for reply in [
        InterfaceMessage::ReceiverStarted,
        InterfaceMessage::Save,
        status_reply(),
    ] {
        let mut session = ready_session(0xfe);
        let outgoing = session.start_receiver().unwrap();
        assert_eq!(outgoing.frame, vec![0x0d, 0, 0, 0xfe, 7, 0, 0, 0, 0, 0, 0, 0, 0, 0]);
        assert_eq!(outgoing.next, AfterSend::AwaitReply);
        assert_eq!(session.seqnbr, 0xff);
        assert_eq!(session.state, SessionState::AwaitingReceiverStarted);
        assert!(matches!(
            session.interface_reply(Some(reply)),
            SessionStep::Finished
        ));
        assert_eq!(session, ready_session(0xff));
    }
}

#[test]
fn set_mode_sends_the_mode_and_then_save() {
    let mut session = ready_session(0x12);
    let outgoing = session
        .set_mode(
            Frequency::default(),
            Protocols1::from_bits_truncate(Protocols1::IMAGINTRONIX | Protocols1::RUBICSON),
            Protocols2::from_bits_truncate(Protocols2::LEGRAND | Protocols2::MERTIK),
            Protocols3::from_bits_truncate(Protocols3::X10 | Protocols3::ATI),
            Protocols4::from_bits_truncate(Protocols4::KEELOQ),
        )
        .unwrap();
    assert_eq!(
        outgoing.frame,
        vec![0x0d, 0, 0, 0x12, 3, 0x53, 0, 0x42, 0x11, 0x41, 0x01, 0, 0, 0]
    );
    assert_eq!(outgoing.next, AfterSend::AwaitReply);
    assert_eq!(session.seqnbr, 0x13);
    assert_eq!(session.state, SessionState::AwaitingSetMode);

    match session.interface_reply(Some(InterfaceMessage::SetMode)) {
        SessionStep::Send(outgoing) => {
            assert_eq!(
                outgoing.frame,
                vec![0x0d, 0, 0, 0x13, 6, 0, 0, 0, 0, 0, 0, 0, 0, 0]
            );
            assert_eq!(outgoing.next, AfterSend::AwaitReply);
        }
        other => panic!("unexpected step {:?}", other),
    }
    assert_eq!(session.seqnbr, 0x14);
    assert_eq!(session.state, SessionState::AwaitingSave);

    assert!(matches!(
        session.interface_reply(Some(InterfaceMessage::Save)),
        SessionStep::Finished
    ));
    assert_eq!(session, ready_session(0x14));
}

#[test]
fn sequence_counter_advances_once_per_call_and_twice_for_set_mode() {
    let mut session = RFXtrx433::new();
    session.reset().unwrap();
    session.reset_done();
    assert_eq!(session.seqnbr, 1);
    session.start_receiver().unwrap();
    session.interface_reply(Some(InterfaceMessage::ReceiverStarted));
    assert_eq!(session.seqnbr, 2);
    session.get_status().unwrap();
    session.interface_reply(Some(status_reply()));
    assert_eq!(session.seqnbr, 3);
    session
        .set_mode(
            Frequency::default(),
            Protocols1::empty(),
            Protocols2::empty(),
            Protocols3::empty(),
            Protocols4::empty(),
        )
        .unwrap();
    session.interface_reply(Some(InterfaceMessage::SetMode));
    session.interface_reply(Some(InterfaceMessage::Save));
    assert_eq!(session.seqnbr, 5);
    assert_eq!(session.state, SessionState::Ready);
}

#[test]
fn sequence_counter_wraps() {
    let mut session = ready_session(0xff);
    let outgoing = session.get_status().unwrap();
    assert_eq!(outgoing.frame[3], 0xff);
    assert_eq!(session.seqnbr, 0);

    let mut session = ready_session(0xff);
    let first = session
        .set_mode(
            Frequency::default(),
            Protocols1::empty(),
            Protocols2::empty(),
            Protocols3::empty(),
            Protocols4::empty(),
        )
        .unwrap();
    assert_eq!(first.frame[3], 0xff);
    match session.interface_reply(Some(InterfaceMessage::SetMode)) {
        SessionStep::Send(second) => assert_eq!(second.frame[3], 0x00),
        other => panic!("unexpected step {:?}", other),
    }
    assert_eq!(session.seqnbr, 1);
}

#[test]
fn closed_interface_plane_shuts_the_session_down() {
    for state in [
        SessionState::Opened,
        SessionState::Resetting,
        SessionState::Ready,
        SessionState::AwaitingStatus,
        SessionState::AwaitingReceiverStarted,
        SessionState::AwaitingSetMode,
        SessionState::AwaitingSave,
        SessionState::Shutdown,
    ] {
        let mut session = RFXtrx433 { seqnbr: 9, state };
        assert!(matches!(
            session.interface_reply(None),
            SessionStep::Failed(TRXError::Shutdown)
        ));
        assert_eq!(
            session,
            RFXtrx433 {
                seqnbr: 9,
                state: SessionState::Shutdown
            }
        );
    }
}

#[test]
fn set_mode_without_acknowledgement_advances_once() {
    let mut session = ready_session(7);
    session
        .set_mode(
            Frequency::default(),
            Protocols1::empty(),
            Protocols2::empty(),
            Protocols3::empty(),
            Protocols4::empty(),
        )
        .unwrap();
    assert!(matches!(
        session.interface_reply(None),
        SessionStep::Failed(TRXError::Shutdown)
    ));
    assert_eq!(session.seqnbr, 8);
}

#[test]
fn shut_down_session_starts_nothing() {
    let shut = RFXtrx433 {
        seqnbr: 0x33,
        state: SessionState::Shutdown,
    };
    let mut session = shut;
    assert!(matches!(session.reset(), Err(TRXError::Shutdown)));
    assert_eq!(session, shut);
    assert!(matches!(session.get_status(), Err(TRXError::Shutdown)));
    assert_eq!(session, shut);
    assert!(matches!(session.start_receiver(), Err(TRXError::Shutdown)));
    assert_eq!(session, shut);
    assert!(matches!(
        session.set_mode(
            Frequency::default(),
            Protocols1::empty(),
            Protocols2::empty(),
            Protocols3::empty(),
            Protocols4::empty(),
        ),
        Err(TRXError::Shutdown)
    ));
    assert_eq!(session, shut);
    assert!(matches!(
        session.interface_reply(Some(InterfaceMessage::Save)),
        SessionStep::Failed(TRXError::Shutdown)
    ));
    assert_eq!(session, shut);
    session.reset_done();
    assert_eq!(session, shut);
}

#[test]
fn reply_that_nobody_awaits_is_handed_back() {
    for state in [
        SessionState::Opened,
        SessionState::Resetting,
        SessionState::Ready,
    ] {
        let mut session = RFXtrx433 { seqnbr: 2, state };
        match session.interface_reply(Some(InterfaceMessage::Save)) {
            SessionStep::NotAwaited(message) => assert_eq!(message, InterfaceMessage::Save),
            other => panic!("unexpected step {:?}", other),
        }
        assert_eq!(session, RFXtrx433 { seqnbr: 2, state });
    }
}

#[test]
fn send_failure_shuts_the_session_down() {
    let mut session = ready_session(4);
    session.get_status().unwrap();
    match session.send_failed("channel closed".to_string()) {
        TRXError::TokioSendError(reason) => assert_eq!(reason, "channel closed"),
        other => panic!("unexpected error {:?}", other),
    }
    assert_eq!(session.seqnbr, 5);
    assert_eq!(session.state, SessionState::Shutdown);
}

#[test]
fn read_message_hands_the_message_on() {
    let mut session = ready_session(1);
    let reading = TempHum {
        id: 0xabcd,
        temp_tenths: 250,
        humidity: 50,
        humidity_status: 2,
        battery_level: 7,
        rssi: 9,
    };
    match session.read_message(Some(ProtocolMessage::TempHum(reading))) {
        Ok(ProtocolMessage::TempHum(received)) => assert_eq!(received, reading),
        other => panic!("unexpected result {:?}", other),
    }
    assert_eq!(session, ready_session(1));

    let header = PacketHeader {
        packet_type: PacketType::RAIN,
        sub_type: 2,
        seqnbr: 3,
    };
    let raw = ProtocolMessage::NotParsed {
        header,
        data: vec![1, 2, 3],
    };
    match session.read_message(Some(raw)) {
        Ok(ProtocolMessage::NotParsed { header: h, data }) => {
            assert_eq!(h, header);
            assert_eq!(data, vec![1, 2, 3]);
        }
        other => panic!("unexpected result {:?}", other),
    }
    assert_eq!(session, ready_session(1));
}

#[test]
fn read_message_on_a_closed_plane_shuts_down() {
    let mut session = ready_session(1);
    assert!(matches!(session.read_message(None), Err(TRXError::Shutdown)));
    assert_eq!(
        session,
        RFXtrx433 {
            seqnbr: 1,
            state: SessionState::Shutdown
        }
    );
}
