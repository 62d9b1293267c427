//! The differential clock renderer.
//!
//! `Clock` keeps the last-drawn time in a [`DateCache`] and, for a new
//! time, emits drawing commands only for the hands and text fields
//! whose value changed: a changed hand is first erased along its old
//! angle in the background color and then drawn along the new one, an
//! unchanged hand is redrawn in place (an idempotent refresh), and each
//! text field is erased and rewritten independently of the others. The
//! face itself (ring, hub, tick marks) is emitted only by
//! [`Clock::draw_face`], which a caller invokes when the face may have
//! been overdrawn, for instance after a panel switch.
//!
//! Angles are exact fractions of a turn, in units of 1/720 of a full
//! circle, so that an hour step (1/12 turn) is 60 units and a minute or
//! second step (1/60 turn) is 12 units. Turning the angle and a radius
//! into screen coordinates needs trigonometry and is the interpreter's
//! part, outside this crate's core.

use vstd::arithmetic::div_mod::{lemma_mod_add_multiples_vanish, lemma_small_mod};
use vstd::prelude::*;
use vstd::string::StringExecFns;

use crate::color::{BGR_BLUE, BGR_GREEN, BGR_RED};
use crate::geometry::{Circle, Point};
use crate::textfmt::{four_digit_text, spec_four_digits, spec_two_digits, two_digit_text};

verus! {

/// Angle units in one full turn.
pub const ANGLE_TURN: u32 = 720;

/// Angle units in one hour step (1/12 of a turn).
pub const HOUR_STEP: u32 = 60;

/// Angle units in one minute or second step (1/60 of a turn).
pub const MINUTE_STEP: u32 = 12;

/// Width of one character cell of the time font, in pixels.
pub const FONT_WIDTH: u32 = 8;

/// Height of one character cell of the time font, in pixels.
pub const FONT_HEIGHT: u32 = 13;

/// Character cells reserved for the time line, "HH:MM:SS".
pub const TIME_TEXT_SLOTS: u32 = 8;

/// Width in pixels of the date line, "YYYY-MM-DD".
pub const DATE_TEXT_WIDTH: u32 = 80;

/// Radius adjustment of the hour hand relative to the face radius.
pub const HOUR_HAND_DELTA: i32 = -20;

/// Radius adjustment of the minute hand relative to the face radius.
pub const MINUTE_HAND_DELTA: i32 = -15;

/// Radius adjustment of the second hand relative to the face radius.
pub const SECOND_HAND_DELTA: i32 = -10;

/// Stroke width of the face's outer ring.
pub const FACE_RING_STROKE: u32 = 2;

/// Diameter of the hub dot at the face center.
pub const HUB_DIAMETER: u32 = 4;

/// Radius adjustment of a tick mark's outer end.
pub const TICK_OUTER_DELTA: i32 = 0;

/// Radius adjustment of a tick mark's inner end.
pub const TICK_INNER_DELTA: i32 = -5;

/// Radius adjustment of a tick numeral's anchor.
pub const TICK_LABEL_DELTA: i32 = -8;

/// Downward nudge of a tick numeral's anchor, in pixels.
pub const TICK_LABEL_NUDGE: i32 = 3;

/// The angle of the hour hand for a given hour value, in units of
/// 1/720 of a turn: the fraction (h mod 12)/12 of a full circle.
pub open spec fn spec_hour_angle(h: int) -> int {
    (h % 12) * 60
}

/// The angle of the minute or second hand for a given value, in units
/// of 1/720 of a turn: the fraction v/60 of a full circle.
pub open spec fn spec_minute_angle(v: int) -> int {
    v * 12
}

/// The hour-hand angle in units of 1/720 of a turn.
pub fn hour_angle(value: u32) -> (r: u32)
    ensures
        r == spec_hour_angle(value as int),
{
    (value % 12) * 60
}

/// The minute- or second-hand angle in units of 1/720 of a turn.
pub fn minute_angle(value: u32) -> (r: u32)
    requires
        value <= 60,
    ensures
        r == spec_minute_angle(value as int),
{
    value * 12
}

/// The hour-hand angle is the fraction h/12 of a full turn: for every
/// hour value below twelve, twelve times the angle is h turns.
pub proof fn lemma_hour_angle_is_twelfth_of_turn(h: u32)
    requires
        h < 12,
    ensures
        12 * spec_hour_angle(h as int) == h * ANGLE_TURN,
{
    lemma_small_mod(h as nat, 12);
}

/// Hour values twelve apart give the identical angle; in particular
/// hour 0 and hour 12 both point at the twelve o'clock position.
pub proof fn lemma_hour_angle_wraps(h: u32)
    ensures
        spec_hour_angle(h as int + 12) == spec_hour_angle(h as int),
{
    lemma_mod_add_multiples_vanish(h as int, 12);
}

/// The minute- or second-hand angle is the fraction v/60 of a full
/// turn: sixty times the angle is v turns.
pub proof fn lemma_minute_angle_is_sixtieth_of_turn(v: u32)
    requires
        v < 60,
    ensures
        60 * spec_minute_angle(v as int) == v * ANGLE_TURN,
{
}

/// One of the three clock hands.
#[derive(Clone, Copy, PartialEq, Eq, Structural, Debug)]
pub enum Hand {
    Second,
    Minute,
    Hour,
}

impl Hand {
    /// The slot of this hand's value in an hour-minute-second order:
    /// the hour hand first, the second hand last.
    pub fn usize(&self) -> (r: usize)
        ensures
            r == (match *self {
                Hand::Second => 2int,
                Hand::Minute => 1int,
                Hand::Hour => 0int,
            }),
    {
        match self {
            Hand::Second => 2,
            Hand::Minute => 1,
            Hand::Hour => 0,
        }
    }
}

/// The last-drawn calendar time, field by field.
///
/// The sentinel returned by `Default` lies outside every valid range,
/// so the first comparison against a real time reports every field as
/// changed and the first update call redraws everything.
#[derive(Clone, Copy, PartialEq, Eq, Structural, Debug)]
pub struct DateCache {
    pub year: u32,
    pub month: u32,
    pub day: u32,
    pub hour: u32,
    pub minute: u32,
    pub second: u32,
}

impl DateCache {
    /// The out-of-range sentinel that forces a full first redraw.
    pub open spec fn spec_sentinel() -> DateCache {
        DateCache { year: 0, month: 0, day: 0, hour: 25, minute: 60, second: 60 }
    }

    /// A real calendar time: every field within its range.
    pub open spec fn valid(&self) -> bool {
        &&& self.year < 10000
        &&& 1 <= self.month <= 12
        &&& 1 <= self.day <= 31
        &&& self.hour < 24
        &&& self.minute < 60
        &&& self.second < 60
    }

    /// What the cache may ever hold: a valid time or the sentinel, so
    /// each field is at most one past its range.
    pub open spec fn bounded(&self) -> bool {
        &&& self.year < 10000
        &&& self.month <= 12
        &&& self.day <= 31
        &&& self.hour <= 25
        &&& self.minute <= 60
        &&& self.second <= 60
    }

    /// Overwrite every cached field with the newly drawn time.
    pub fn update(&mut self, value: &DateCache)
        ensures
            *final(self) == *value,
    {
        self.year = value.year;
        self.month = value.month;
        self.day = value.day;
        self.hour = value.hour;
        self.minute = value.minute;
        self.second = value.second;
    }
}

impl Default for DateCache {
    /// The sentinel cache that no valid time equals in any field.
    fn default() -> (r: Self)
        ensures
            r == DateCache::spec_sentinel(),
    {
        DateCache { year: 0, month: 0, day: 0, hour: 25, minute: 60, second: 60 }
    }
}

/// The time value a drawing command writes into one text field.
#[derive(Clone, Copy, PartialEq, Eq, Structural, Debug)]
pub enum TextField {
    Seconds { value: u32 },
    Minutes { value: u32 },
    Hours { value: u32 },
    Date { year: u32, month: u32, day: u32 },
}

/// One drawing command for the interpreter that owns the draw target.
///
/// Angles are in units of 1/720 of a turn and radius adjustments are
/// relative to the face radius, as in [`spec_hour_angle`]. A `Field`
/// command stands for erasing the field's previous text box in the
/// background color and writing the new value at the given anchor.
#[derive(Clone, Copy, PartialEq, Eq, Structural, Debug)]
pub enum DrawOp {
    Ring { center: Point, diameter: u32, stroke: u32, color: u16 },
    Hub { center: Point, diameter: u32, color: u16 },
    TickLine { angle: u32, color: u16 },
    TickLabel { angle: u32, numeral: u32, color: u16 },
    HandLine { angle: u32, length_delta: i32, stroke: u32, color: u16 },
    Field { field: TextField, x: i32, y: i32, color: u16 },
}

/// Whether a field value fits its zero-padded rendering: two digits
/// for the time fields, four for the year. Every field a valid time
/// produces fits.
pub open spec fn spec_field_in_range(f: TextField) -> bool {
    match f {
        TextField::Seconds { value } => value < 100,
        TextField::Minutes { value } => value < 100,
        TextField::Hours { value } => value < 100,
        TextField::Date { year, month, day } => year < 10000 && month < 100 && day < 100,
    }
}

/// The exact text a `Field` command writes: the zero-padded value,
/// with a trailing colon after the hours and minutes (the fields read
/// "HH:MM:SS" side by side) and the date as "YYYY-MM-DD".
pub open spec fn spec_field_text(f: TextField) -> Seq<char> {
    match f {
        TextField::Seconds { value } => spec_two_digits(value as int),
        TextField::Minutes { value } => spec_two_digits(value as int) + seq![':'],
        TextField::Hours { value } => spec_two_digits(value as int) + seq![':'],
        TextField::Date { year, month, day } => spec_four_digits(year as int) + seq!['-']
            + spec_two_digits(month as int) + seq!['-'] + spec_two_digits(day as int),
    }
}

/// Render the text a `Field` command writes.
pub fn field_text(f: &TextField) -> (r: String)
    requires
        spec_field_in_range(*f),
    ensures
        r@ == spec_field_text(*f),
{
    match f {
        TextField::Seconds { value } => two_digit_text(*value),
        TextField::Minutes { value } => {
            let mut r = two_digit_text(*value);
            proof {
                reveal_strlit(":");
            }
            r.append(":");
            proof {
                assert(r@ =~= spec_field_text(*f));
            }
            r
        },
        TextField::Hours { value } => {
            let mut r = two_digit_text(*value);
            proof {
                reveal_strlit(":");
            }
            r.append(":");
            proof {
                assert(r@ =~= spec_field_text(*f));
            }
            r
        },
        TextField::Date { year, month, day } => {
            let mut r = four_digit_text(*year);
            proof {
                reveal_strlit("-");
            }
            r.append("-");
            r.append(two_digit_text(*month).as_str());
            r.append("-");
            r.append(two_digit_text(*day).as_str());
            proof {
                assert(r@ =~= spec_field_text(*f));
            }
            r
        },
    }
}

/// The differential clock renderer: fixed geometry and colors, plus
/// the cache of the last-drawn time.
pub struct Clock {
    pub width: u32,
    pub height: u32,
    pub face: Circle,
    pub text: DateCache,
    pub size: u32,
    pub bg_color: u16,
    pub fg_color: u16,
    pub date_fixed_offset: i32,
    pub text_base_position: u32,
}

/// The value the cache holds for a given hand.
pub open spec fn spec_hand_value(c: DateCache, hand: Hand) -> u32 {
    match hand {
        Hand::Second => c.second,
        Hand::Minute => c.minute,
        Hand::Hour => c.hour,
    }
}

/// The stroke width of a hand: the second hand is thin, the others
/// are two pixels wide.
pub open spec fn spec_hand_stroke(hand: Hand) -> u32 {
    match hand {
        Hand::Second => 1,
        Hand::Minute => 2,
        Hand::Hour => 2,
    }
}

/// The angle of a hand at a given value: the hour hand steps in
/// twelfths of a turn, the other two in sixtieths.
pub open spec fn spec_hand_angle(hand: Hand, v: int) -> int {
    match hand {
        Hand::Hour => spec_hour_angle(v),
        Hand::Minute => spec_minute_angle(v),
        Hand::Second => spec_minute_angle(v),
    }
}

/// The commands one hand redraw emits: a single stroke along the new
/// angle when the value is unchanged (the idempotent refresh), and an
/// erasing stroke along the old angle in the background color followed
/// by the new stroke when it changed.
pub open spec fn spec_hand_ops(
    c: Clock,
    value: u32,
    length_delta: i32,
    hand: Hand,
    color: u16,
) -> Seq<DrawOp> {
    let old_value = spec_hand_value(c.text, hand);
    let draw = DrawOp::HandLine {
        angle: spec_hand_angle(hand, value as int) as u32,
        length_delta,
        stroke: spec_hand_stroke(hand),
        color,
    };
    if old_value == value {
        seq![draw]
    } else {
        seq![
            DrawOp::HandLine {
                angle: spec_hand_angle(hand, old_value as int) as u32,
                length_delta,
                stroke: spec_hand_stroke(hand),
                color: c.bg_color,
            },
            draw,
        ]
    }
}

/// The command that rewrites the seconds text field.
pub open spec fn spec_seconds_op(c: Clock, now: DateCache) -> DrawOp {
    DrawOp::Field {
        field: TextField::Seconds { value: now.second },
        x: (c.text_base_position + 6 * FONT_WIDTH) as i32,
        y: FONT_HEIGHT as i32,
        color: c.fg_color,
    }
}

/// The command that rewrites the minutes text field.
pub open spec fn spec_minutes_op(c: Clock, now: DateCache) -> DrawOp {
    DrawOp::Field {
        field: TextField::Minutes { value: now.minute },
        x: (c.text_base_position + 3 * FONT_WIDTH) as i32,
        y: FONT_HEIGHT as i32,
        color: c.fg_color,
    }
}

/// The command that rewrites the hours text field.
pub open spec fn spec_hours_op(c: Clock, now: DateCache) -> DrawOp {
    DrawOp::Field {
        field: TextField::Hours { value: now.hour },
        x: c.text_base_position as i32,
        y: FONT_HEIGHT as i32,
        color: c.fg_color,
    }
}

/// The command that rewrites the date line, centered horizontally.
pub open spec fn spec_date_op(c: Clock, now: DateCache) -> DrawOp {
    DrawOp::Field {
        field: TextField::Date { year: now.year, month: now.month, day: now.day },
        x: ((c.width - DATE_TEXT_WIDTH) / 2) as i32,
        y: (c.width - FONT_HEIGHT / 2) as i32,
        color: c.fg_color,
    }
}

/// Whether the cached date differs from the new one in any component.
pub open spec fn spec_date_changed(c: DateCache, now: DateCache) -> bool {
    c.year != now.year || c.month != now.month || c.day != now.day
}

/// The text-field commands one update emits: each of the four fields
/// is rewritten exactly when its value changed, independently of the
/// other fields, in the order seconds, minutes, hours, date.
pub open spec fn spec_text_ops(c: Clock, now: DateCache) -> Seq<DrawOp> {
    (if c.text.second != now.second {
        seq![spec_seconds_op(c, now)]
    } else {
        Seq::<DrawOp>::empty()
    }) + (if c.text.minute != now.minute {
        seq![spec_minutes_op(c, now)]
    } else {
        Seq::<DrawOp>::empty()
    }) + (if c.text.hour != now.hour {
        seq![spec_hours_op(c, now)]
    } else {
        Seq::<DrawOp>::empty()
    }) + (if spec_date_changed(c.text, now) {
        seq![spec_date_op(c, now)]
    } else {
        Seq::<DrawOp>::empty()
    })
}

/// Every command one update emits: the hour, minute and second hands
/// in that order, then the text fields.
pub open spec fn spec_update_ops(c: Clock, now: DateCache) -> Seq<DrawOp> {
    spec_hand_ops(c, now.hour, HOUR_HAND_DELTA, Hand::Hour, BGR_RED) + spec_hand_ops(
        c,
        now.minute,
        MINUTE_HAND_DELTA,
        Hand::Minute,
        BGR_GREEN,
    ) + spec_hand_ops(c, now.second, SECOND_HAND_DELTA, Hand::Second, BGR_BLUE) + spec_text_ops(
        c,
        now,
    )
}

impl Clock {
    /// Geometry within range and the cache within its bounds; every
    /// constructor establishes this and every method keeps it.
    pub open spec fn wf(&self) -> bool {
        &&& 80 <= self.width <= 4096
        &&& 13 <= self.height <= 4096
        &&& self.text.bounded()
        &&& self.text_base_position == (self.width - FONT_WIDTH * TIME_TEXT_SLOTS) / 2
    }

    /// A clock renderer over a surface of the given size, with the
    /// face diameter leaving a margin of `size` pixels on the shorter
    /// axis, fixed background and foreground colors, and a fixed
    /// east-of-UTC offset in seconds for the displayed time. The cache
    /// starts at the sentinel, so the first update redraws everything.
    pub fn new(width: u32, height: u32, size: u32, bg: u16, fg: u16, date_fixed_offset: i32) -> (r:
        Clock)
        requires
            80 <= width <= 4096,
            13 <= height <= 4096,
            2 * size <= width,
            2 * size <= height,
        ensures
            r.wf(),
            r.width == width,
            r.height == height,
            r.size == size,
            r.bg_color == bg,
            r.fg_color == fg,
            r.date_fixed_offset == date_fixed_offset,
            r.text == DateCache::spec_sentinel(),
            r.face == (Circle {
                center: Point { x: (width / 2) as i32, y: (height / 2) as i32 },
                diameter: ((if width <= height {
                    width
                } else {
                    height
                }) - 2 * size) as u32,
            }),
    {
        let shorter = if width <= height {
            width
        } else {
            height
        };
        let face = Circle {
            center: Point { x: (width / 2) as i32, y: (height / 2) as i32 },
            diameter: shorter - 2 * size,
        };
        Clock {
            width,
            height,
            face,
            text: DateCache::default(),
            size,
            bg_color: bg,
            fg_color: fg,
            date_fixed_offset,
            text_base_position: (width - FONT_WIDTH * TIME_TEXT_SLOTS) / 2,
        }
    }

    /// The static face: the outer ring, the hub dot, and for each of
    /// the twelve hour positions a tick mark and its numeral, with the
    /// numeral "12" at the top position rather than "0". Emitted only
    /// when the caller knows the face may have been overdrawn.
    pub fn draw_face(&self, color: u16) -> (ops: Vec<DrawOp>)
        ensures
            ops@.len() == 26,
            ops@[0] == (DrawOp::Ring {
                center: self.face.center,
                diameter: self.face.diameter,
                stroke: FACE_RING_STROKE,
                color,
            }),
            ops@[1] == (DrawOp::Hub { center: self.face.center, diameter: HUB_DIAMETER, color }),
            forall|i: int|
                0 <= i < 12 ==> ops@[2 + 2 * i] == (DrawOp::TickLine {
                    angle: spec_hour_angle(i) as u32,
                    color,
                }),
            forall|i: int|
                0 <= i < 12 ==> ops@[3 + 2 * i] == (DrawOp::TickLabel {
                    angle: spec_hour_angle(i) as u32,
                    numeral: (if i == 0 {
                        12int
                    } else {
                        i
                    }) as u32,
                    color: self.fg_color,
                }),
    {
        let mut ops: Vec<DrawOp> = Vec::new();
        ops.push(
            DrawOp::Ring {
                center: self.face.center,
                diameter: self.face.diameter,
                stroke: FACE_RING_STROKE,
                color,
            },
        );
        ops.push(DrawOp::Hub { center: self.face.center, diameter: HUB_DIAMETER, color });
        let mut i: u32 = 0;
        while i < 12
            invariant
                i <= 12,
                ops@.len() == 2 + 2 * i,
                ops@[0] == (DrawOp::Ring {
                    center: self.face.center,
                    diameter: self.face.diameter,
                    stroke: FACE_RING_STROKE,
                    color,
                }),
                ops@[1] == (DrawOp::Hub {
                    center: self.face.center,
                    diameter: HUB_DIAMETER,
                    color,
                }),
                forall|j: int|
                    0 <= j < i ==> ops@[2 + 2 * j] == (DrawOp::TickLine {
                        angle: spec_hour_angle(j) as u32,
                        color,
                    }),
                forall|j: int|
                    0 <= j < i ==> ops@[3 + 2 * j] == (DrawOp::TickLabel {
                        angle: spec_hour_angle(j) as u32,
                        numeral: (if j == 0 {
                            12int
                        } else {
                            j
                        }) as u32,
                        color: self.fg_color,
                    }),
            decreases 12 - i,
        {
            let angle = hour_angle(i);
            let numeral = if i == 0 {
                12
            } else {
                i
            };
            ops.push(DrawOp::TickLine { angle, color });
            ops.push(DrawOp::TickLabel { angle, numeral, color: self.fg_color });
            i = i + 1;
        }
        ops
    }

    /// One hand redraw: erase along the cached angle and draw along
    /// the new one when the value changed, refresh in place otherwise.
    /// The cache itself is committed by [`Clock::update`].
    pub fn draw_hand(&self, value: u32, length_delta: i32, hand: Hand, color: u16) -> (ops: Vec<
        DrawOp,
    >)
        requires
            self.wf(),
            value < 60,
        ensures
            ops@ == spec_hand_ops(*self, value, length_delta, hand, color),
    {
        let (stroke, old_value): (u32, u32) = match hand {
            Hand::Second => (1, self.text.second),
            Hand::Minute => (2, self.text.minute),
            Hand::Hour => (2, self.text.hour),
        };
        let angle = match hand {
            Hand::Hour => hour_angle(value),
            Hand::Minute => minute_angle(value),
            Hand::Second => minute_angle(value),
        };
        let mut ops: Vec<DrawOp> = Vec::new();
        if old_value != value {
            let old_angle = match hand {
                Hand::Hour => hour_angle(old_value),
                Hand::Minute => minute_angle(old_value),
                Hand::Second => minute_angle(old_value),
            };
            ops.push(
                DrawOp::HandLine { angle: old_angle, length_delta, stroke, color: self.bg_color },
            );
        }
        ops.push(DrawOp::HandLine { angle, length_delta, stroke, color });
        assert(ops@ =~= spec_hand_ops(*self, value, length_delta, hand, color));
        ops
    }

    /// The text-field redraws for a new time: each of the four fields
    /// is erased and rewritten exactly when its value changed, so a
    /// minute rollover does not touch the date line.
    pub fn draw_text(&self, now: &DateCache) -> (ops: Vec<DrawOp>)
        requires
            self.wf(),
        ensures
            ops@ == spec_text_ops(*self, *now),
    {
        let mut ops: Vec<DrawOp> = Vec::new();
        if self.text.second != now.second {
            ops.push(
                DrawOp::Field {
                    field: TextField::Seconds { value: now.second },
                    x: (self.text_base_position + 6 * FONT_WIDTH) as i32,
                    y: FONT_HEIGHT as i32,
                    color: self.fg_color,
                },
            );
        }
        if self.text.minute != now.minute {
            ops.push(
                DrawOp::Field {
                    field: TextField::Minutes { value: now.minute },
                    x: (self.text_base_position + 3 * FONT_WIDTH) as i32,
                    y: FONT_HEIGHT as i32,
                    color: self.fg_color,
                },
            );
        }
        if self.text.hour != now.hour {
            ops.push(
                DrawOp::Field {
                    field: TextField::Hours { value: now.hour },
                    x: self.text_base_position as i32,
                    y: FONT_HEIGHT as i32,
                    color: self.fg_color,
                },
            );
        }
        if self.text.year != now.year || self.text.month != now.month || self.text.day != now.day {
            ops.push(
                DrawOp::Field {
                    field: TextField::Date { year: now.year, month: now.month, day: now.day },
                    x: ((self.width - DATE_TEXT_WIDTH) / 2) as i32,
                    y: (self.width - FONT_HEIGHT / 2) as i32,
                    color: self.fg_color,
                },
            );
        }
        assert(ops@ =~= spec_text_ops(*self, *now));
        ops
    }

    /// One differential update: redraw the hour, minute and second
    /// hands and the changed text fields for the new time, then commit
    /// it to the cache. The face is not part of the steady-state path.
    /// The commands are committed optimistically; a caller whose
    /// transport failed mid-frame calls [`Clock::invalidate`] so that
    /// the next update redraws every element.
    pub fn update(&mut self, now: &DateCache) -> (ops: Vec<DrawOp>)
        requires
            old(self).wf(),
            now.valid(),
        ensures
            ops@ == spec_update_ops(*old(self), *now),
            *final(self) == (Clock { text: *now, ..*old(self) }),
            final(self).wf(),
    {
        let mut ops = self.draw_hand(now.hour, HOUR_HAND_DELTA, Hand::Hour, BGR_RED);
        let mut minute_ops = self.draw_hand(now.minute, MINUTE_HAND_DELTA, Hand::Minute, BGR_GREEN);
        ops.append(&mut minute_ops);
        let mut second_ops = self.draw_hand(now.second, SECOND_HAND_DELTA, Hand::Second, BGR_BLUE);
        ops.append(&mut second_ops);
        let mut text_ops = self.draw_text(now);
        ops.append(&mut text_ops);
        self.text.update(now);
        ops
    }

    /// Forget the cached time: the next update redraws every hand and
    /// every text field, as the very first one does.
    pub fn invalidate(&mut self)
        ensures
            *final(self) == (Clock { text: DateCache::spec_sentinel(), ..*old(self) }),
    {
        self.text = DateCache::default();
    }
}

/// An update whose time equals the cached one changes nothing beyond
/// the guarded refresh: it emits exactly the three in-place hand
/// strokes in the foreground hand colors, no erasing stroke, and no
/// text-field command at all.
pub proof fn lemma_update_idempotent(c: Clock, now: DateCache)
    requires
        c.text == now,
    ensures
        spec_text_ops(c, now) =~= Seq::<DrawOp>::empty(),
        spec_update_ops(c, now) =~= seq![
            (DrawOp::HandLine {
                angle: spec_hour_angle(now.hour as int) as u32,
                length_delta: HOUR_HAND_DELTA,
                stroke: 2,
                color: BGR_RED,
            }),
            (DrawOp::HandLine {
                angle: spec_minute_angle(now.minute as int) as u32,
                length_delta: MINUTE_HAND_DELTA,
                stroke: 2,
                color: BGR_GREEN,
            }),
            (DrawOp::HandLine {
                angle: spec_minute_angle(now.second as int) as u32,
                length_delta: SECOND_HAND_DELTA,
                stroke: 1,
                color: BGR_BLUE,
            }),
        ],
{
}

/// The first update after construction is complete: against the
/// sentinel cache every hand is erased and redrawn (two commands each)
/// and all four text fields are rewritten, ten commands in all.
pub proof fn lemma_first_update_complete(c: Clock, now: DateCache)
    requires
        now.valid(),
        c.text == DateCache::spec_sentinel(),
    ensures
        spec_hand_ops(c, now.hour, HOUR_HAND_DELTA, Hand::Hour, BGR_RED).len() == 2,
        spec_hand_ops(c, now.minute, MINUTE_HAND_DELTA, Hand::Minute, BGR_GREEN).len() == 2,
        spec_hand_ops(c, now.second, SECOND_HAND_DELTA, Hand::Second, BGR_BLUE).len() == 2,
        spec_text_ops(c, now) =~= seq![
            spec_seconds_op(c, now),
            spec_minutes_op(c, now),
            spec_hours_op(c, now),
            spec_date_op(c, now),
        ],
        spec_update_ops(c, now).len() == 10,
{
}

/// A seconds rollover from 59 to 0 always rewrites the seconds field,
/// and rewrites the minutes field exactly when the minute value itself
/// changed.
pub proof fn lemma_second_rollover(c: Clock, now: DateCache)
    requires
        c.text.second == 59,
        now.second == 0,
    ensures
        spec_text_ops(c, now).contains(spec_seconds_op(c, now)),
        spec_text_ops(c, now).contains(spec_minutes_op(c, now)) <==> c.text.minute != now.minute,
{
    let ops = spec_text_ops(c, now);
    assert(ops[0] == spec_seconds_op(c, now));
    assert(ops.contains(spec_seconds_op(c, now)));
    if c.text.minute != now.minute {
        assert(ops[1] == spec_minutes_op(c, now));
        assert(ops.contains(spec_minutes_op(c, now)));
    } else {
        assert forall|i: int| 0 <= i < ops.len() implies ops[i] != spec_minutes_op(c, now) by {
            if c.text.hour != now.hour {
                if spec_date_changed(c.text, now) {
                    assert(ops =~= seq![
                        spec_seconds_op(c, now),
                        spec_hours_op(c, now),
                        spec_date_op(c, now),
                    ]);
                } else {
                    assert(ops =~= seq![spec_seconds_op(c, now), spec_hours_op(c, now)]);
                }
            } else {
                if spec_date_changed(c.text, now) {
                    assert(ops =~= seq![spec_seconds_op(c, now), spec_date_op(c, now)]);
                } else {
                    assert(ops =~= seq![spec_seconds_op(c, now)]);
                }
            }
        }
    }
}

/// The midnight rollover from 23:59:59 to 00:00:00 of the next day
/// redraws everything at once: each hand is erased and redrawn and all
/// four text fields, the date line among them, are rewritten.
pub proof fn lemma_midnight_rollover(c: Clock, now: DateCache)
    requires
        c.text.hour == 23,
        c.text.minute == 59,
        c.text.second == 59,
        now.valid(),
        now.hour == 0,
        now.minute == 0,
        now.second == 0,
        spec_date_changed(c.text, now),
    ensures
        spec_hand_ops(c, now.hour, HOUR_HAND_DELTA, Hand::Hour, BGR_RED).len() == 2,
        spec_hand_ops(c, now.minute, MINUTE_HAND_DELTA, Hand::Minute, BGR_GREEN).len() == 2,
        spec_hand_ops(c, now.second, SECOND_HAND_DELTA, Hand::Second, BGR_BLUE).len() == 2,
        spec_text_ops(c, now) =~= seq![
            spec_seconds_op(c, now),
            spec_minutes_op(c, now),
            spec_hours_op(c, now),
            spec_date_op(c, now),
        ],
        spec_update_ops(c, now).len() == 10,
{
}

} // verus!

