use touch_input::ft6236::{
    decode_point, is_known_chip_id, point_block_addr, reset_steps, touches_from_reg, Config,
    EventType, Gesture, PointEvent, ResetStep, FT6236,
};

const ALL_GESTURES: [(Gesture, u8); 6] = [
    (Gesture::MoveUp, 0x10),
    (Gesture::MoveRight, 0x14),
    (Gesture::MoveDown, 0x18),
    (Gesture::MoveLeft, 0x1C),
    (Gesture::ZoomIn, 0x48),
    (Gesture::ZoomOut, 0x49),
];

#[test]
fn gesture_ids_are_fixed() {
    for (g, id) in ALL_GESTURES {
        assert_eq!(g.gesture_id(), id);
    }
}

#[test]
fn gesture_round_trip() {
    for (g, _) in ALL_GESTURES {
        assert_eq!(Gesture::from_u8(g.gesture_id()), Some(g));
    }
    for b in 0u16..=255 {
        let b = b as u8;
        if ALL_GESTURES.iter().all(|(_, id)| *id != b) {
            assert_eq!(Gesture::from_u8(b), None);
        }
    }
}

#[test]
fn event_type_from_flag() {
    assert_eq!(EventType::from_u8(0), Some(EventType::PressDown));
    assert_eq!(EventType::from_u8(1), Some(EventType::LiftUp));
    assert_eq!(EventType::from_u8(2), Some(EventType::Contact));
    assert_eq!(EventType::from_u8(3), None);
}

#[test]
fn decode_point_fields() {
    let buf = [0x81, 0x23, 0x15, 0x67, 0x9A, 0xFB];
    assert_eq!(
        decode_point(&buf),
        Some(PointEvent {
            x: 0x123,
            y: 0x567,
            event: EventType::Contact,
            weight: 0x9A,
            area: 0x0B,
            touch_id: 1,
        })
    );
}

#[test]
fn decode_point_ignores_reserved_bits() {
    let buf = [0x3F, 0xFF, 0xEF, 0xFF, 0xFF, 0xFF];
    assert_eq!(
        decode_point(&buf),
        Some(PointEvent {
            x: 0x7FF,
            y: 0x7FF,
            event: EventType::PressDown,
            weight: 0xFF,
            area: 0x0F,
            touch_id: 14,
        })
    );
}

#[test]
fn decode_point_touch_id_nibble() {
    for nibble in 0u8..16 {
        let buf = [0x40, 0x10, nibble << 4, 0x20, 0x30, 0x04];
        let p = decode_point(&buf);
        if nibble == 15 {
            assert_eq!(p, None);
        } else {
            assert_eq!(p.map(|p| p.touch_id), Some(nibble));
            assert_eq!(p.map(|p| p.event), Some(EventType::LiftUp));
        }
    }
}

#[test]
fn decode_point_event_flag() {
    for b0 in 0u16..=255 {
        let b0 = b0 as u8;
        let p = decode_point(&[b0, 0, 0x20, 0, 0, 0]);
        match b0 >> 6 {
            0 => assert_eq!(p.map(|p| p.event), Some(EventType::PressDown)),
            1 => assert_eq!(p.map(|p| p.event), Some(EventType::LiftUp)),
            2 => assert_eq!(p.map(|p| p.event), Some(EventType::Contact)),
            _ => assert_eq!(p, None),
        }
    }
}

#[test]
fn touch_count_register() {
    assert_eq!(touches_from_reg(0), 0);
    assert_eq!(touches_from_reg(1), 1);
    assert_eq!(touches_from_reg(2), 2);
    assert_eq!(touches_from_reg(3), 0);
    assert_eq!(touches_from_reg(0x41), 0x41);
    assert_eq!(touches_from_reg(0xFF), 0);
    for n in 0u16..=255 {
        let n = n as u8;
        if n & 0b11 <= 2 {
            assert_eq!(touches_from_reg(n), n);
        } else {
            assert_eq!(touches_from_reg(n), 0);
        }
    }
}

#[test]
fn point_block_registers() {
    assert_eq!(point_block_addr(2, 0), Some(0x03));
    assert_eq!(point_block_addr(2, 1), Some(0x09));
    assert_eq!(point_block_addr(1, 1), None);
    assert_eq!(point_block_addr(0, 0), None);
    assert_eq!(point_block_addr(255, 42), Some(255));
}

#[test]
fn chip_ids() {
    assert!(is_known_chip_id(0x06));
    assert!(is_known_chip_id(0x36));
    assert!(is_known_chip_id(0x64));
    assert!(!is_known_chip_id(0x00));
    assert!(!is_known_chip_id(0x65));
}

#[test]
fn config_default_threshold() {
    let c = Config::default();
    assert_eq!(c.threshhold, 0x40);
    assert_eq!(c.threshold_write(), [0x80, 0x40]);
    assert_eq!(Config { threshhold: 0x22 }.threshold_write(), [0x80, 0x22]);
}

#[test]
fn reset_sequence_order() {
    assert_eq!(
        reset_steps(),
        vec![
            ResetStep::SetHigh,
            ResetStep::DelayMs(5),
            ResetStep::SetLow,
            ResetStep::DelayMs(10),
            ResetStep::SetHigh,
            ResetStep::DelayMs(350),
        ]
    );
}

#[test]
fn driver_addresses() {
    let d = FT6236::new(7u32);
    assert_eq!(d.addr(), 0x38);
    assert_eq!(d.release(), 7);
    let mut d = FT6236::new_with_addr(9u32, 0x39);
    assert_eq!(d.addr(), 0x39);
    *d.bus() = 10;
    assert_eq!(d.addr(), 0x39);
    assert_eq!(d.release(), 10);
}
