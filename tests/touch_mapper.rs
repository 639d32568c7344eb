use touch_input::touch_mapper::TouchPosMapper;
use touch_input::tsc2007::{TS_MAXX, TS_MAXY, TS_MINX, TS_MINY};

fn resistive_mapper() -> TouchPosMapper {
    TouchPosMapper::new(240, 320, (TS_MINX, TS_MAXX), (TS_MINY, TS_MAXY))
}

#[test]
fn calibration_edges() {
    let m = resistive_mapper();
    assert_eq!(m.map_touch_pos(TS_MINX, TS_MINY, 240, 320, 0), (0, 0));
    assert_eq!(m.map_touch_pos(TS_MAXX, TS_MAXY, 240, 320, 0), (240, 320));
}

#[test]
fn calibration_midpoint() {
    let m = resistive_mapper();
    assert_eq!(m.map_touch_pos(2075, 2025, 240, 320, 0), (120, 160));
    assert_eq!(m.scale_x(2075), 120);
    assert_eq!(m.scale_y(2025), 160);
}

#[test]
fn readings_outside_calibration_range() {
    let m = resistive_mapper();
    assert_eq!(m.map_touch_pos(0, 100, 240, 320, 0), (0, 0));
    assert_eq!(m.map_touch_pos(4095, 4095, 240, 320, 0), (240, 320));
}

#[test]
fn rotations() {
    let m = TouchPosMapper::new(240, 320, (0, 240), (0, 320));
    assert_eq!(m.map_touch_pos(100, 50, 240, 320, 0), (100, 50));
    assert_eq!(m.map_touch_pos(100, 50, 240, 320, 1), (50, 220));
    assert_eq!(m.map_touch_pos(100, 50, 240, 320, 2), (140, 270));
    assert_eq!(m.map_touch_pos(100, 50, 240, 320, 3), (190, 100));
}

#[test]
fn unknown_orientation_returns_raw() {
    let m = resistive_mapper();
    assert_eq!(m.map_touch_pos(1000, 2000, 240, 320, 4), (1000, 2000));
    assert_eq!(m.map_touch_pos(1000, 2000, 240, 320, 255), (1000, 2000));
}
