use rfxtrx433::protocols::{Protocols1, Protocols2, Protocols3, Protocols4};
use rfxtrx433::trx_command::{
    get_status, reset, save, set_mode, start_receiver, InterfaceCommand, InterfaceCommandCmd,
    PacketHeader, PacketType,
};
use rfxtrx433::Frequency;

#[test]
fn create_reset() {
    let cmd = reset(1);
    let cmd = cmd.to_vec();
    assert_eq!(vec![0xd, 0, 0, 1, 0, 0, 0, 0, 0, 0, 0, 0, 0, 0], cmd);
}

#[test]
fn create_save_settings() {
    let cmd = save(0x11).to_vec();
    assert_eq!(vec![0x0d, 00, 00, 0x11, 6, 0, 0, 0, 0, 0, 0, 0, 0, 0], cmd);
}

#[test]
fn set_mode_x10() {
    // X10
    let cmd = set_mode(
        0x12,
        Default::default(),
        Protocols1::empty(),
        Protocols2::empty(),
        Protocols3::from_bits_truncate(Protocols3::X10),
        Protocols4::empty(),
    )
    .to_vec();
    assert_eq!(
        vec![0x0d, 00, 00, 0x12, 03, 0x53, 00, 00, 00, 01, 00, 00, 00, 00],
        cmd
    );
}

#[test]
fn set_mode_mixed() {
    let cmd = set_mode(
        0x12,
        Default::default(),
        Protocols1::from_bits_truncate(Protocols1::IMAGINTRONIX | Protocols1::RUBICSON),
        Protocols2::from_bits_truncate(Protocols2::LEGRAND | Protocols2::MERTIK),
        Protocols3::from_bits_truncate(Protocols3::X10 | Protocols3::ATI),
        Protocols4::from_bits_truncate(Protocols4::KEELOQ),
    )
    .to_vec();
    assert_eq!(
        vec![0x0d, 00, 00, 0x12, 03, 0x53, 00, 0x42, 0x11, 0x41, 0x01, 00, 00, 00],
        cmd
    );
}

#[test]
fn save_cmd() {
    let cmd = save(3).to_vec();
    assert_eq!(vec![0x0d, 0, 0, 3, 6, 0, 0, 0, 0, 0, 0, 0, 0, 0], cmd);
}

#[test]
fn create_get_status() {
    let cmd = get_status(2);
    assert_eq!(vec![0x0d, 0, 0, 2, 2, 0, 0, 0, 0, 0, 0, 0, 0, 0], cmd);
}

#[test]
fn create_start_receiver() {
    let cmd = start_receiver(0xff);
    assert_eq!(vec![0x0d, 0, 0, 0xff, 7, 0, 0, 0, 0, 0, 0, 0, 0, 0], cmd);
}

#[test]
fn every_control_frame_announces_thirteen_bytes() {
    let frames = vec![
        reset(9),
        get_status(10),
        start_receiver(11),
        save(12),
        set_mode(
            13,
            Frequency::TrxType868,
            Protocols1::from_bits_truncate(Protocols1::ALL),
            Protocols2::from_bits_truncate(Protocols2::HIDEKI),
            Protocols3::from_bits_truncate(Protocols3::OREGON),
            Protocols4::from_bits_truncate(Protocols4::FUNKBUS),
        ),
    ];
    for frame in frames {
        assert_eq!(frame.len(), 14);
        assert_eq!(frame[0], 0x0d);
        assert_eq!(frame[0] as usize, frame[1..].len());
    }
}

#[test]
fn set_mode_writes_frequency_and_masks() {
    let cmd = set_mode(
        0x00,
        Frequency::RecType43450,
        Protocols1::from_bits_truncate(Protocols1::UNDECODED),
        Protocols2::from_bits_truncate(Protocols2::BLINDST1 | Protocols2::MSG4_RESERVED_55),
        Protocols3::from_bits_truncate(Protocols3::VISONIC | Protocols3::OREGON),
        Protocols4::from_bits_truncate(Protocols4::FUNKBUS | Protocols4::MCZ | Protocols4::HC),
    );
    assert_eq!(
        vec![0x0d, 0, 0, 0, 3, 0x5f, 0, 0x80, 0xa0, 0xa0, 0xc2, 0, 0, 0],
        cmd
    );
}

#[test]
fn interface_command_lays_out_its_fields() {
    let command = InterfaceCommand {
        header: PacketHeader {
            packet_type: PacketType::InterfaceControl,
            sub_type: 0,
            seqnbr: 7,
        },
        cmd: InterfaceCommandCmd::SetMode,
        frequency: 0x53,
        xmitpwr: 0x1c,
        extra: [1, 2, 3, 4, 5, 6, 7],
    };
    assert_eq!(
        vec![0x0d, 0, 0, 7, 3, 0x53, 0x1c, 1, 2, 3, 4, 5, 6, 7],
        command.to_vec()
    );
}

#[test]
fn header_extend_appends_placeholder_and_header() {
    let header = PacketHeader {
        packet_type: PacketType::TempHum,
        sub_type: 0x0a,
        seqnbr: 0x42,
    };
    let mut v = vec![0xee];
    header.extend(&mut v);
    assert_eq!(vec![0xee, 0, 0x52, 0x0a, 0x42], v);
}
