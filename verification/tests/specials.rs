use waddle::map::action_table::{
    legacy_index, wide_index, LEGACY_COUNT, LEGACY_TABLE, TAG, WIDE_CODES,
};
use waddle::map::line_def::{DoomSpecial, TriggerFlags, UdmfSpecial};
use waddle::map::special::{Special, ARG_COUNTS, SPECIAL_COUNT};

#[test]
fn udmf_linedef_specials() {
    for value in i16::min_value()..=i16::max_value() {
        for args_len in 0..5 {
            let mut args = [0; 5];

            for i in 0..args_len {
                args[i] = 1;
            }

            let udmf_special = UdmfSpecial::new(value, args);

            let result: Result<Special, _> = Special::wide_decode(udmf_special);

            if let Ok(special) = result {
                let converted: UdmfSpecial = special.wide_encode();
                assert_eq!(converted, udmf_special);
            }
        }
    }
}

#[test]
fn wide_mapping_round_trip() {
    for index in 0..SPECIAL_COUNT {
        let mut args = [0i16; 5];
        for k in 0..usize::from(ARG_COUNTS[index]) {
            args[k] = 100 + k as i16;
        }
        let special = Special::wide_decode(UdmfSpecial::new(WIDE_CODES[index], args)).unwrap();
        assert_eq!(special.index(), index);
        assert_eq!(special.args(), args);
        assert_eq!(special.wide_encode(), UdmfSpecial::new(WIDE_CODES[index], args));
        assert_eq!(Special::wide_decode(special.wide_encode()), Ok(special));
        assert_eq!(Special::from_parts(index, &args), special);
    }
}

#[test]
fn wide_codes_are_unique() {
    assert_eq!(SPECIAL_COUNT, 259);
    for i in 0..SPECIAL_COUNT {
        for j in 0..i {
            assert_ne!(WIDE_CODES[i], WIDE_CODES[j]);
        }
        assert_eq!(wide_index(WIDE_CODES[i]), Some(i));
    }
    assert_eq!(wide_index(-1), None);
    assert_eq!(wide_index(281), None);
    assert_eq!(wide_index(i16::MAX), None);
}

#[test]
fn legacy_codes_are_unique() {
    assert_eq!(LEGACY_COUNT, 134);
    for i in 0..LEGACY_COUNT {
        for j in 0..i {
            assert_ne!(LEGACY_TABLE[i].0, LEGACY_TABLE[j].0);
        }
        assert_eq!(legacy_index(LEGACY_TABLE[i].0), Some(i));
    }
    assert_eq!(legacy_index(-1), None);
    assert_eq!(legacy_index(5000), None);
}

#[test]
fn every_legacy_code_spells_an_action() {
    for row in LEGACY_TABLE {
        let (special, triggers) = Special::legacy_decode(DoomSpecial::new(row.0, 77)).unwrap();
        assert_eq!(special.wide_encode().value, row.1);
        let args = special.args();
        for k in 0..5 {
            let expected = if row.2[k] == TAG { 77 } else { row.2[k] as i16 };
            assert_eq!(args[k], expected);
        }
        assert_eq!(triggers, TriggerFlags::from_bits(row.3));
    }
}

#[test]
fn wide_decode_names_the_arguments() {
    assert_eq!(
        Special::wide_decode(UdmfSpecial::new(10, [7, 16, 3, 0, 0])),
        Ok(Special::DoorClose { tag: 7, speed: 16, light_tag: 3 })
    );
    assert_eq!(
        Special::wide_decode(UdmfSpecial::new(0, [0; 5])),
        Ok(Special::Nothing)
    );
    assert_eq!(
        Special::wide_decode(UdmfSpecial::new(280, [1, 2, 3, 4, 5])),
        Ok(Special::CeilingMoveToValueAndCrush {
            tag: 1,
            speed: 2,
            height: 3,
            crush: 4,
            crushmode: 5
        })
    );
    assert_eq!(Special::default(), Special::Nothing);
}

#[test]
fn wide_decode_refuses_what_spells_no_action() {
    let extra = UdmfSpecial::new(10, [7, 16, 3, 1, 0]);
    assert_eq!(Special::wide_decode(extra), Err(extra));
    let last = UdmfSpecial::new(10, [0, 0, 0, 0, -1]);
    assert_eq!(Special::wide_decode(last), Err(last));
    let none = UdmfSpecial::new(0, [1, 0, 0, 0, 0]);
    assert_eq!(Special::wide_decode(none), Err(none));
    let unknown = UdmfSpecial::new(281, [0; 5]);
    assert_eq!(Special::wide_decode(unknown), Err(unknown));
    let negative = UdmfSpecial::new(-10, [0; 5]);
    assert_eq!(Special::wide_decode(negative), Err(negative));
}

#[test]
fn legacy_decode_binds_the_tag() {
    let player_cross = TriggerFlags { player_cross: true, ..TriggerFlags::default() };
    assert_eq!(
        Special::legacy_decode(DoomSpecial::new(3, 7)),
        Ok((Special::DoorClose { tag: 7, speed: 16, light_tag: 0 }, player_cross))
    );
    assert_eq!(
        Special::legacy_decode(DoomSpecial::new(1, 9)),
        Ok((
            Special::DoorRaise { tag: 0, speed: 16, delay: 150, light_tag: 9 },
            TriggerFlags {
                player_use: true,
                monsters_activate: true,
                repeats: true,
                ..TriggerFlags::default()
            }
        ))
    );
    assert_eq!(
        Special::legacy_decode(DoomSpecial::new(46, -3)),
        Ok((
            Special::DoorOpen { tag: -3, speed: 16, light_tag: 0 },
            TriggerFlags {
                impact: true,
                missile_cross: true,
                monsters_activate: true,
                repeats: true,
                ..TriggerFlags::default()
            }
        ))
    );
    assert_eq!(
        Special::legacy_decode(DoomSpecial::new(0, 5)),
        Ok((Special::Nothing, TriggerFlags::default()))
    );
}

#[test]
fn legacy_decode_refuses_unlisted_codes() {
    for value in [-1i16, 142, 5000, i16::MIN, i16::MAX] {
        let doom = DoomSpecial::new(value, 4);
        assert_eq!(Special::legacy_decode(doom), Err(doom));
    }
}
