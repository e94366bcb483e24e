use rfxtrx433::protocols::{Protocols1, Protocols2, Protocols3, Protocols4};

#[test]
fn empty_masks_have_no_bits() {
    assert_eq!(Protocols1::empty().bits(), 0);
    assert_eq!(Protocols2::empty().bits(), 0);
    assert_eq!(Protocols3::empty().bits(), 0);
    assert_eq!(Protocols4::empty().bits(), 0);
}

#[test]
fn flags_sit_at_their_bits() {
    assert_eq!(Protocols1::AE, 1 << 0);
    assert_eq!(Protocols1::RUBICSON, 1 << 1);
    assert_eq!(Protocols1::FINEOFFSET, 1 << 2);
    assert_eq!(Protocols1::LIGHTING4, 1 << 3);
    assert_eq!(Protocols1::RSL, 1 << 4);
    assert_eq!(Protocols1::SX, 1 << 5);
    assert_eq!(Protocols1::IMAGINTRONIX, 1 << 6);
    assert_eq!(Protocols1::UNDECODED, 1 << 7);

    assert_eq!(Protocols2::MERTIK, 1 << 0);
    assert_eq!(Protocols2::LWRF, 1 << 1);
    assert_eq!(Protocols2::HIDEKI, 1 << 2);
    assert_eq!(Protocols2::LACROSSE, 1 << 3);
    assert_eq!(Protocols2::LEGRAND, 1 << 4);
    assert_eq!(Protocols2::MSG4_RESERVED_55, 1 << 5);
    assert_eq!(Protocols2::BLINDST0, 1 << 6);
    assert_eq!(Protocols2::BLINDST1, 1 << 7);

    assert_eq!(Protocols3::X10, 1 << 0);
    assert_eq!(Protocols3::ARC, 1 << 1);
    assert_eq!(Protocols3::AC, 1 << 2);
    assert_eq!(Protocols3::HEEU, 1 << 3);
    assert_eq!(Protocols3::MEIANTECH, 1 << 4);
    assert_eq!(Protocols3::OREGON, 1 << 5);
    assert_eq!(Protocols3::ATI, 1 << 6);
    assert_eq!(Protocols3::VISONIC, 1 << 7);

    assert_eq!(Protocols4::KEELOQ, 1 << 0);
    assert_eq!(Protocols4::HC, 1 << 1);
    assert_eq!(Protocols4::MSG6_RESERVED_2, 1 << 2);
    assert_eq!(Protocols4::MSG6_RESERVED_3, 1 << 3);
    assert_eq!(Protocols4::MSG6_RESERVED_4, 1 << 4);
    assert_eq!(Protocols4::MSG6_RESERVED_5, 1 << 5);
    assert_eq!(Protocols4::MCZ, 1 << 6);
    assert_eq!(Protocols4::FUNKBUS, 1 << 7);
}

#[test]
fn from_bits_truncate_keeps_every_declared_bit() {
    for bits in 0..=255u8 {
        assert_eq!(Protocols1::from_bits_truncate(bits).bits(), bits & Protocols1::ALL);
        assert_eq!(Protocols2::from_bits_truncate(bits).bits(), bits & Protocols2::ALL);
        assert_eq!(Protocols3::from_bits_truncate(bits).bits(), bits & Protocols3::ALL);
        assert_eq!(Protocols4::from_bits_truncate(bits).bits(), bits & Protocols4::ALL);
        assert_eq!(Protocols4::from_bits_truncate(bits).bits(), bits);
    }
}

#[test]
fn contains_tests_every_given_flag() {
    let mask = Protocols3::from_bits_truncate(Protocols3::X10 | Protocols3::ATI);
    assert!(mask.contains(Protocols3::X10));
    assert!(mask.contains(Protocols3::ATI));
    assert!(mask.contains(Protocols3::X10 | Protocols3::ATI));
    assert!(!mask.contains(Protocols3::OREGON));
    assert!(!mask.contains(Protocols3::X10 | Protocols3::OREGON));
    assert!(mask.contains(0));
    assert!(Protocols1::empty().contains(0));
    assert!(!Protocols1::empty().contains(Protocols1::AE));
}

#[test]
fn masks_compare_by_their_bits() {
    assert_eq!(
        Protocols2::from_bits_truncate(Protocols2::LEGRAND | Protocols2::MERTIK),
        Protocols2::from_bits_truncate(0x11)
    );
    assert_ne!(
        Protocols2::from_bits_truncate(Protocols2::LEGRAND),
        Protocols2::from_bits_truncate(Protocols2::MERTIK)
    );
    assert_eq!(Protocols2::empty(), Protocols2::from_bits_truncate(0));
}
