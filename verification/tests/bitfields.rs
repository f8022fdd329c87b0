use waddle::map::line_def::Flags;

#[test]
fn test_bitfields() {
    let range = i16::min_value()..=i16::max_value();
    assert_eq!(range.len(), 2_usize.pow(16));

    for n in range {
        let cast_u16: u16 = n as u16;
        let ptr_u16: u16 = u16::from_ne_bytes(n.to_ne_bytes());

        assert_eq!(
            cast_u16, ptr_u16,
            "Casts for {} don't line up: {}, {}",
            n, cast_u16, ptr_u16
        );
    }
}

#[test]
fn map_test_bitfields() {
    let range = i16::min_value()..=i16::max_value();
    assert_eq!(range.len(), 2_usize.pow(16));

    for n in range {
        let cast_u16: u16 = n as u16;
        let ptr_u16: u16 = u16::from_ne_bytes(n.to_ne_bytes());

        assert_eq!(
            cast_u16, ptr_u16,
            "Casts for {} don't line up: {}, {}",
            n, cast_u16, ptr_u16
        );
    }
}

#[test]
fn flags_unpack_the_low_nine_bits() {
    let flags = Flags::from_bits(0b1_0000_0101);
    assert!(flags.impassable);
    assert!(!flags.blocks_monsters);
    assert!(flags.two_sided);
    assert!(!flags.upper_unpegged);
    assert!(flags.already_on_map);
    assert_eq!(flags.to_bits(), 0b1_0000_0101);
}

#[test]
fn flags_round_trip_through_bits() {
    for bits in 0..512i16 {
        assert_eq!(Flags::from_bits(bits).to_bits(), bits);
    }
    assert_eq!(Flags::from_bits(-1).to_bits(), 0x1ff);
}
