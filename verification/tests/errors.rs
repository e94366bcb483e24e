use rfxtrx433::trx_command::PacketType;
use rfxtrx433::TRXError;

#[test]
fn serial_port_error_is_carried_as_it_is() {
    let inner = serialport::Error::new(serialport::ErrorKind::NoDevice, "no such port");
    match TRXError::SerialPort(inner) {
        TRXError::SerialPort(e) => {
            assert_eq!(e.kind(), serialport::ErrorKind::NoDevice);
            assert_eq!(e.description, "no such port");
        }
        other => panic!("unexpected error {:?}", other),
    }
}

#[test]
fn io_error_is_carried_as_it_is() {
    let inner = std::io::Error::new(std::io::ErrorKind::BrokenPipe, "gone");
    match TRXError::IO(inner) {
        TRXError::IO(e) => assert_eq!(e.kind(), std::io::ErrorKind::BrokenPipe),
        other => panic!("unexpected error {:?}", other),
    }
}

#[test]
fn errors_show_their_fields() {
    let shown = format!(
        "{:?}",
        TRXError::UnknownSubPacketType {
            packet_type: PacketType::InterfaceMessage,
            sub_type: 9
        }
    );
    assert!(shown.contains("InterfaceMessage"));
    assert!(shown.contains('9'));
    let shown = format!(
        "{:?}",
        TRXError::NotEnoughData {
            received: 2,
            expected: 3
        }
    );
    assert!(shown.contains("received: 2"));
    assert!(shown.contains("expected: 3"));
}
