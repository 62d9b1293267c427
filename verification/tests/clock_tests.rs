use clockface::clock::{
    field_text, hour_angle, minute_angle, Clock, DateCache, DrawOp, Hand, TextField,
    HOUR_HAND_DELTA, MINUTE_HAND_DELTA, SECOND_HAND_DELTA,
};
use clockface::color::{BGR_BLACK, BGR_BLUE, BGR_GREEN, BGR_RED};

const FG: u16 = 0x1234;

fn test_clock() -> Clock {
    Clock::new(128, 128, 17, BGR_BLACK, FG, 8 * 3600)
}

fn date(year: u32, month: u32, day: u32, hour: u32, minute: u32, second: u32) -> DateCache {
    DateCache { year, month, day, hour, minute, second }
}

#[test]
fn hour_angle_is_twelfth_of_turn() {
    // h/12 of a turn of 720 units: 60 units per hour.
    for h in 0..12u32 {
        assert_eq!(12 * hour_angle(h), h * 720);
    }
    assert_eq!(hour_angle(0), 0);
    assert_eq!(hour_angle(3), 180);
    assert_eq!(hour_angle(6), 360);
}

#[test]
fn hour_zero_and_twelve_coincide() {
    assert_eq!(hour_angle(12), hour_angle(0));
    assert_eq!(hour_angle(23), hour_angle(11));
}

#[test]
fn minute_angle_is_sixtieth_of_turn() {
    // v/60 of a turn of 720 units: 12 units per minute.
    for v in 0..60u32 {
        assert_eq!(60 * minute_angle(v), v * 720);
    }
    assert_eq!(minute_angle(15), 180);
    assert_eq!(minute_angle(30), 360);
}

#[test]
fn new_clock_geometry() {
    let c = test_clock();
    assert_eq!(c.face.center.x, 64);
    assert_eq!(c.face.center.y, 64);
    assert_eq!(c.face.diameter, 94);
    assert_eq!(c.text_base_position, 32);
    assert_eq!(c.text.hour, 25);
    assert_eq!(c.text.minute, 60);
    assert_eq!(c.text.second, 60);
}

#[test]
fn first_update_redraws_everything() {
    let mut c = test_clock();
    let now = date(2024, 5, 6, 10, 30, 45);
    let ops = c.update(&now);
    // Three hands erased and redrawn, four text fields rewritten.
    assert_eq!(ops.len(), 10);
    assert_eq!(
        ops[0],
        DrawOp::HandLine { angle: 60, length_delta: HOUR_HAND_DELTA, stroke: 2, color: BGR_BLACK }
    );
    assert_eq!(
        ops[1],
        DrawOp::HandLine { angle: 600, length_delta: HOUR_HAND_DELTA, stroke: 2, color: BGR_RED }
    );
    assert_eq!(
        ops[2],
        DrawOp::HandLine {
            angle: 720,
            length_delta: MINUTE_HAND_DELTA,
            stroke: 2,
            color: BGR_BLACK
        }
    );
    assert_eq!(
        ops[3],
        DrawOp::HandLine { angle: 360, length_delta: MINUTE_HAND_DELTA, stroke: 2, color: BGR_GREEN }
    );
    assert_eq!(
        ops[4],
        DrawOp::HandLine {
            angle: 720,
            length_delta: SECOND_HAND_DELTA,
            stroke: 1,
            color: BGR_BLACK
        }
    );
    assert_eq!(
        ops[5],
        DrawOp::HandLine { angle: 540, length_delta: SECOND_HAND_DELTA, stroke: 1, color: BGR_BLUE }
    );
    assert_eq!(
        ops[6],
        DrawOp::Field { field: TextField::Seconds { value: 45 }, x: 80, y: 13, color: FG }
    );
    assert_eq!(
        ops[7],
        DrawOp::Field { field: TextField::Minutes { value: 30 }, x: 56, y: 13, color: FG }
    );
    assert_eq!(
        ops[8],
        DrawOp::Field { field: TextField::Hours { value: 10 }, x: 32, y: 13, color: FG }
    );
    assert_eq!(
        ops[9],
        DrawOp::Field {
            field: TextField::Date { year: 2024, month: 5, day: 6 },
            x: 24,
            y: 122,
            color: FG
        }
    );
    assert_eq!(c.text, now);
}

#[test]
fn unchanged_update_is_idempotent() {
    let mut c = test_clock();
    let now = date(2024, 5, 6, 10, 30, 45);
    c.update(&now);
    let ops = c.update(&now);
    // Only the guarded in-place hand refresh, no erase, no text.
    assert_eq!(
        ops,
        vec![
            DrawOp::HandLine {
                angle: 600,
                length_delta: HOUR_HAND_DELTA,
                stroke: 2,
                color: BGR_RED
            },
            DrawOp::HandLine {
                angle: 360,
                length_delta: MINUTE_HAND_DELTA,
                stroke: 2,
                color: BGR_GREEN
            },
            DrawOp::HandLine {
                angle: 540,
                length_delta: SECOND_HAND_DELTA,
                stroke: 1,
                color: BGR_BLUE
            },
        ]
    );
}

#[test]
fn second_rollover_without_minute_change() {
    let mut c = test_clock();
    c.update(&date(2024, 5, 6, 10, 30, 59));
    let ops = c.update(&date(2024, 5, 6, 10, 30, 0));
    // Hour and minute hands refresh in place, the second hand is
    // erased and redrawn, and only the seconds field is rewritten.
    assert_eq!(ops.len(), 5);
    let minute_fields = ops
        .iter()
        .filter(|op| matches!(op, DrawOp::Field { field: TextField::Minutes { .. }, .. }))
        .count();
    assert_eq!(minute_fields, 0);
    let second_fields = ops
        .iter()
        .filter(|op| matches!(op, DrawOp::Field { field: TextField::Seconds { .. }, .. }))
        .count();
    assert_eq!(second_fields, 1);
}

#[test]
fn second_rollover_with_minute_change() {
    let mut c = test_clock();
    c.update(&date(2024, 5, 6, 10, 30, 59));
    let ops = c.update(&date(2024, 5, 6, 10, 31, 0));
    // The minute hand is erased and redrawn and the minutes field is
    // rewritten along with the seconds field; the date stays.
    assert_eq!(ops.len(), 7);
    let minute_fields = ops
        .iter()
        .filter(|op| matches!(op, DrawOp::Field { field: TextField::Minutes { .. }, .. }))
        .count();
    assert_eq!(minute_fields, 1);
    let date_fields = ops
        .iter()
        .filter(|op| matches!(op, DrawOp::Field { field: TextField::Date { .. }, .. }))
        .count();
    assert_eq!(date_fields, 0);
}

#[test]
fn midnight_rollover_redraws_everything() {
    let mut c = test_clock();
    c.update(&date(2024, 12, 31, 23, 59, 59));
    let ops = c.update(&date(2025, 1, 1, 0, 0, 0));
    assert_eq!(ops.len(), 10);
    let date_fields = ops
        .iter()
        .filter(|op| matches!(op, DrawOp::Field { field: TextField::Date { .. }, .. }))
        .count();
    assert_eq!(date_fields, 1);
}

#[test]
fn invalidate_forces_full_redraw() {
    let mut c = test_clock();
    let now = date(2024, 5, 6, 10, 30, 45);
    c.update(&now);
    c.invalidate();
    let ops = c.update(&now);
    assert_eq!(ops.len(), 10);
}

#[test]
fn face_has_ring_hub_and_twelve_ticks() {
    let c = test_clock();
    let ops = c.draw_face(FG);
    assert_eq!(ops.len(), 26);
    assert!(matches!(ops[0], DrawOp::Ring { diameter: 94, stroke: 2, .. }));
    assert!(matches!(ops[1], DrawOp::Hub { diameter: 4, .. }));
    assert_eq!(ops[2], DrawOp::TickLine { angle: 0, color: FG });
    // The numeral at the top position reads 12, not 0.
    assert_eq!(ops[3], DrawOp::TickLabel { angle: 0, numeral: 12, color: FG });
    assert_eq!(ops[5], DrawOp::TickLabel { angle: 60, numeral: 1, color: FG });
    assert_eq!(ops[25], DrawOp::TickLabel { angle: 660, numeral: 11, color: FG });
}

#[test]
fn hand_slot_order() {
    assert_eq!(Hand::Hour.usize(), 0);
    assert_eq!(Hand::Minute.usize(), 1);
    assert_eq!(Hand::Second.usize(), 2);
}

#[test]
fn field_texts_are_zero_padded() {
    assert_eq!(field_text(&TextField::Seconds { value: 7 }), "07");
    assert_eq!(field_text(&TextField::Seconds { value: 45 }), "45");
    assert_eq!(field_text(&TextField::Minutes { value: 3 }), "03:");
    assert_eq!(field_text(&TextField::Hours { value: 23 }), "23:");
    assert_eq!(
        field_text(&TextField::Date { year: 2024, month: 5, day: 6 }),
        "2024-05-06"
    );
    assert_eq!(field_text(&TextField::Date { year: 987, month: 12, day: 31 }), "0987-12-31");
}

#[test]
fn default_cache_is_sentinel() {
    let d = DateCache::default();
    assert_eq!(d, date(0, 0, 0, 25, 60, 60));
}

#[test]
fn cache_update_overwrites_every_field() {
    let mut d = DateCache::default();
    let t = date(2024, 5, 6, 10, 30, 45);
    d.update(&t);
    assert_eq!(d, t);
}

#[test]
fn changed_hand_is_erased_then_drawn() {
    let mut c = test_clock();
    c.update(&date(2024, 5, 6, 10, 30, 45));
    // A changed value: erase along the old angle in the background
    // color, then draw along the new one.
    let ops = c.draw_hand(46, SECOND_HAND_DELTA, Hand::Second, BGR_BLUE);
    assert_eq!(
        ops,
        vec![
            DrawOp::HandLine {
                angle: 540,
                length_delta: SECOND_HAND_DELTA,
                stroke: 1,
                color: BGR_BLACK
            },
            DrawOp::HandLine {
                angle: 552,
                length_delta: SECOND_HAND_DELTA,
                stroke: 1,
                color: BGR_BLUE
            },
        ]
    );
    // An unchanged value: a single refresh stroke, nothing erased.
    let ops = c.draw_hand(45, SECOND_HAND_DELTA, Hand::Second, BGR_BLUE);
    assert_eq!(
        ops,
        vec![DrawOp::HandLine {
            angle: 540,
            length_delta: SECOND_HAND_DELTA,
            stroke: 1,
            color: BGR_BLUE
        }]
    );
}
