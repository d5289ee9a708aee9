//! Laws of the watch face: what it takes in, what it draws, and what a rendering settles.

use vstd::prelude::*;

use crate::draw::{shown, Color, Draw, DrawCommand, DrawFailure};
use crate::laws::text::{spells_battery, spells_date, spells_percent};
use crate::region::{law_union_spans, max_of, min_of, FlushRegion};
use crate::text::{battery_text, date_text, percent_text};
use crate::watchface::{
    ball_area, ball_position, bar_fill, clamped, hundredth, law_regions_on_screen, RenderOutcome,
    WatchFace, BALL_RANGE,
};

verus! {

/// A new face has everything still to be drawn: midnight, an empty battery, a level ball, and the
/// gyroscope hidden.
pub proof fn law_new_face(face: WatchFace, dirty: bool)
    requires
        call_ensures(WatchFace::new, (), face),
        call_ensures(WatchFace::needs_render, (&face,), dirty),
    ensures
        dirty,
        face.full_redraw,
        face.hours == 0 && face.minutes == 0 && face.seconds == 0,
        face.day == 6 && face.month == 4 && face.year == 26,
        face.battery_percent == 0 && face.battery_voltage == 0 && !face.is_charging,
        face.accel_x == 0 && face.accel_y == 0 && face.accel_z == 0,
        face.prev_ball_x == 205 && face.prev_ball_y == 370,
        !face.time_changed && !face.battery_changed && !face.gyro_changed,
        !face.wifi_connected && !face.gyro_enabled,
{
}

/// A new time is kept, and puts the time on the screen out of date exactly where the hour, the
/// minute or the second differs from the one before. Nothing else changes.
pub proof fn law_time_is_taken(face: &mut WatchFace, h: u8, m: u8, s: u8)
    requires
        call_ensures(WatchFace::update_time, (face, h, m, s), ()),
    ensures
        final(face).hours == h,
        final(face).minutes == m,
        final(face).seconds == s,
        old(face).hours != h ==> final(face).time_changed,
        old(face).minutes != m ==> final(face).time_changed,
        old(face).seconds != s ==> final(face).time_changed,
        old(face).hours == h && old(face).minutes == m && old(face).seconds == s
            ==> final(face).time_changed == old(face).time_changed,
        old(face).time_changed ==> final(face).time_changed,
        *final(face) == (WatchFace {
            hours: h,
            minutes: m,
            seconds: s,
            time_changed: final(face).time_changed,
            ..*old(face)
        }),
{
}

/// A new date is kept, and nothing else changes.
pub proof fn law_date_is_taken(face: &mut WatchFace, day: u8, month: u8, year: u8)
    requires
        call_ensures(WatchFace::update_date, (face, day, month, year), ()),
    ensures
        final(face).day == day,
        final(face).month == month,
        final(face).year == year,
        *final(face) == (WatchFace { day, month, year, ..*old(face) }),
{
}

/// A new battery reading is kept, and puts the battery on the screen out of date exactly where the
/// charge, the voltage or the charger differs from before. Nothing else changes.
pub proof fn law_battery_is_taken(face: &mut WatchFace, pct: u8, mv: u16, chg: bool)
    requires
        call_ensures(WatchFace::update_battery, (face, pct, mv, chg), ()),
    ensures
        final(face).battery_percent == pct,
        final(face).battery_voltage == mv,
        final(face).is_charging == chg,
        old(face).battery_percent != pct ==> final(face).battery_changed,
        old(face).battery_voltage != mv ==> final(face).battery_changed,
        old(face).is_charging != chg ==> final(face).battery_changed,
        old(face).battery_percent == pct && old(face).battery_voltage == mv
            && old(face).is_charging == chg ==> final(face).battery_changed
            == old(face).battery_changed,
        old(face).battery_changed ==> final(face).battery_changed,
        *final(face) == (WatchFace {
            battery_percent: pct,
            battery_voltage: mv,
            is_charging: chg,
            battery_changed: final(face).battery_changed,
            ..*old(face)
        }),
{
}

/// Pixels from the middle for an acceleration in hundredths of g along one axis: 38 for each g,
/// rounded towards the middle, and never more than 38.
pub open spec fn pixels_for(a: int, d: int) -> bool {
    if a >= 100 {
        d == 38
    } else if a <= -100 {
        d == -38
    } else if a >= 0 {
        100 * d <= 38 * a && 38 * a < 100 * d + 100
    } else {
        -100 * d <= -38 * a && -38 * a < -100 * d + 100
    }
}

proof fn lemma_pixels_for(a: int)
    ensures
        pixels_for(a, clamped(hundredth(a * BALL_RANGE), BALL_RANGE as int)),
{
    assert(a * BALL_RANGE == a * 38) by (nonlinear_arith)
        requires
            BALL_RANGE == 38,
    ;
}

/// The ball stands in the middle of its circle, at column 205 and row 370, on a level watch. The
/// acceleration along y moves it to the left and that along x downwards.
pub proof fn law_ball_place(accel_x: i16, accel_y: i16, at: (i32, i32))
    requires
        call_ensures(WatchFace::projected_ball_position, (accel_x, accel_y), at),
    ensures
        pixels_for(accel_y as int, 205 - at.0),
        pixels_for(accel_x as int, at.1 - 370),
{
    lemma_pixels_for(-(accel_y as int));
    lemma_pixels_for(accel_x as int);
}

/// A new acceleration is kept, and puts the ball out of date where its place for that acceleration
/// is two pixels or more, in either direction, from where it was drawn. Nothing else changes.
pub proof fn law_acceleration_is_taken(
    face: &mut WatchFace,
    x: i16,
    y: i16,
    z: i16,
    at: (i32, i32),
)
    requires
        call_ensures(WatchFace::update_accel, (face, x, y, z), ()),
        call_ensures(WatchFace::projected_ball_position, (x, y), at),
    ensures
        final(face).accel_x == x,
        final(face).accel_y == y,
        final(face).accel_z == z,
        final(face).gyro_changed <==> old(face).gyro_changed || at.0 - old(face).prev_ball_x >= 2
            || old(face).prev_ball_x - at.0 >= 2 || at.1 - old(face).prev_ball_y >= 2
            || old(face).prev_ball_y - at.1 >= 2,
        *final(face) == (WatchFace {
            accel_x: x,
            accel_y: y,
            accel_z: z,
            gyro_changed: final(face).gyro_changed,
            ..*old(face)
        }),
{
}

/// A forced redraw puts the whole face out of date and changes nothing else.
pub proof fn law_forced_redraw(face: &mut WatchFace)
    requires
        call_ensures(WatchFace::force_redraw, (face,), ()),
    ensures
        final(face).full_redraw,
        *final(face) == (WatchFace { full_redraw: true, ..*old(face) }),
{
}

/// Toggling shows a hidden gyroscope and hides a shown one, says which, and asks for a full
/// redraw.
pub proof fn law_gyroscope_toggles(face: &mut WatchFace, enabled: bool)
    requires
        call_ensures(WatchFace::toggle_gyro, (face,), enabled),
    ensures
        enabled == final(face).gyro_enabled,
        enabled != old(face).gyro_enabled,
        *final(face) == (WatchFace { gyro_enabled: enabled, full_redraw: true, ..*old(face) }),
{
}

/// The gyroscope section reaches from 70 rows above the middle of the ball's circle to 70 below.
pub proof fn law_gyroscope_section(y: u16, b: bool)
    requires
        call_ensures(WatchFace::is_gyro_zone, (y,), b),
    ensures
        b <==> 300 <= y <= 440,
{
}

/// A face needs rendering exactly where one of its four marks is set.
pub proof fn law_needs_render(face: &WatchFace, b: bool)
    requires
        call_ensures(WatchFace::needs_render, (face,), b),
    ensures
        face.full_redraw ==> b,
        face.time_changed ==> b,
        face.battery_changed ==> b,
        face.gyro_changed ==> b,
        b ==> face.full_redraw || face.time_changed || face.battery_changed || face.gyro_changed,
{
}

/// The fixed regions, and the one around a ball on the screen: two pixels more than the ball on
/// each side.
pub proof fn law_region_places(
    time: FlushRegion,
    battery: FlushRegion,
    x: i32,
    y: i32,
    ball: FlushRegion,
)
    requires
        call_ensures(WatchFace::time_region, (), time),
        call_ensures(WatchFace::battery_region, (), battery),
        call_ensures(WatchFace::ball_region, (x, y), ball),
    ensures
        time == (FlushRegion { x: 58, y: 56, w: 294, h: 72 }),
        battery == (FlushRegion { x: 85, y: 171, w: 240, h: 100 }),
        10 <= x < 0x1_0000 ==> ball.x == x - 10,
        10 <= y < 0x1_0000 ==> ball.y == y - 10,
        (ball.x - (x - 10)) % 0x1_0000 == 0 && (ball.y - (y - 10)) % 0x1_0000 == 0,
        ball.w == 20 && ball.h == 20,
{
}

/// A filled rectangle.
pub open spec fn is_rect(step: DrawCommand, x: int, y: int, w: int, h: int, color: Color) -> bool {
    step matches Draw::FillRect { x: sx, y: sy, w: sw, h: sh, color: sc } && sx == x && sy == y
        && sw == w && sh == h && sc == color
}

/// A centred text at the given place.
pub open spec fn is_text(step: DrawCommand, x: int, y: int, color: Color) -> bool {
    step matches Draw::CenteredText { x: sx, y: sy, color: sc, .. } && sx == x && sy == y && sc
        == color
}

/// The characters of a text step.
pub open spec fn words(step: DrawCommand) -> Seq<char> {
    match step {
        Draw::CenteredText { text, .. } => text@,
        _ => Seq::empty(),
    }
}

/// The seven-segment time on the clock page, showing these hours, minutes and seconds.
pub open spec fn shows_time(step: DrawCommand, h: u8, m: u8, s: u8) -> bool {
    step matches Draw::Time { cx, y, hours, minutes, seconds, color, back } && hours == h
        && minutes == m && seconds == s && cx == 205 && y == 60 && color == Color::White && back
        == Color::Black
}

/// Any step that shows a time in seven-segment digits.
pub open spec fn any_time(step: DrawCommand) -> bool {
    step is Time || step is HoursMinutes
}

/// The colour of a battery filling: red up to 20 percent, yellow up to 50, green above.
pub open spec fn charge_color(pct: int) -> Color {
    if pct <= 20 {
        Color::Red
    } else if pct <= 50 {
        Color::Yellow
    } else {
        Color::Green
    }
}

/// How many steps draw a battery: an empty one has no filling.
pub open spec fn battery_count(pct: u8) -> int {
    if pct == 0 {
        2
    } else {
        3
    }
}

/// The steps from `k` on draw a battery around column `cx` at row `y`: a white frame of 200 by 20
/// pixels, a filling of as many hundredths of 194 pixels as the charge has, and below them the
/// charge in words, green while charging.
pub open spec fn draws_battery(
    steps: Seq<DrawCommand>,
    k: int,
    cx: int,
    y: int,
    pct: u8,
    charging: bool,
) -> bool {
    let label = steps[k + battery_count(pct) - 1];
    &&& 0 <= k && k + battery_count(pct) <= steps.len()
    &&& steps[k] matches Draw::StrokeRoundedRect {
        x: sx,
        y: sy,
        w,
        h,
        corner,
        color,
        stroke,
    } && sx == cx - 100 && sy == y && w == 200 && h == 20 && corner == 4 && color == Color::White
        && stroke == 2
    &&& pct > 0 ==> (steps[k + 1] matches Draw::FillRect { x: sx, y: sy, w, h, color } && sx == cx
        - 97 && sy == y + 3 && h == 14 && color == charge_color(pct as int) && (if pct >= 100 {
        w == 194
    } else {
        100 * w <= 194 * pct && 194 * pct < 100 * w + 100
    }))
    &&& is_text(
        label,
        cx,
        y + 45,
        if charging {
            Color::Green
        } else {
            Color::White
        },
    )
    &&& spells_battery(words(label), pct as int, charging)
}

/// The steps from `k` on move the ball: a black square where it was, a green one where it is now,
/// each of 16 pixels around its middle.
pub open spec fn draws_ball(
    steps: Seq<DrawCommand>,
    k: int,
    from: (int, int),
    to: (int, int),
) -> bool {
    &&& 0 <= k && k + 2 <= steps.len()
    &&& is_rect(steps[k], from.0 - 8, from.1 - 8, 16, 16, Color::Black)
    &&& is_rect(steps[k + 1], to.0 - 8, to.1 - 8, 16, 16, Color::Green)
}

/// Whether a ball is to be moved from one place to another: over two pixels or more.
pub open spec fn far_apart(a: (int, int), b: (int, int)) -> bool {
    a.0 - b.0 >= 2 || b.0 - a.0 >= 2 || a.1 - b.1 >= 2 || b.1 - a.1 >= 2
}

/// Where the ball was drawn last.
pub open spec fn ball_before(face: WatchFace) -> (int, int) {
    (face.prev_ball_x as int, face.prev_ball_y as int)
}

/// The texts of the formatters, read back.
proof fn lemma_texts_spell(pct: u8, charging: bool, d: u8, m: u8, y: u8)
    ensures
        spells_percent(percent_text(pct), pct as int),
        spells_battery(battery_text(pct, charging), pct as int, charging),
        spells_date(date_text(d, m, y), d as int, m as int, y as int),
{
    reveal_with_fuel(crate::laws::text::number, 4);
    if charging {
        let t = battery_text(pct, charging);
        assert(t.skip(t.len() - 4) =~= seq![' ', 'C', 'H', 'G']);
        assert(t.take(t.len() - 4) =~= percent_text(pct));
    }
    assert(spells_percent(percent_text(pct), pct as int));
}

/// The width of the filling.
proof fn lemma_fill(pct: u8)
    ensures
        pct == 0 <==> bar_fill(pct as int) == 0,
        pct >= 100 ==> bar_fill(pct as int) == 194,
        pct < 100 ==> 100 * bar_fill(pct as int) <= 194 * pct && 194 * pct < 100 * bar_fill(
            pct as int,
        ) + 100,
{
}

/// A step and what it shows are of the same kind.
proof fn lemma_shown(steps: Vec<DrawCommand>, i: int)
    requires
        0 <= i < steps@.len(),
    ensures
        shown(steps@).len() == steps@.len(),
        shown(steps@)[i] == steps@[i]@,
{
}

/// Drawing the battery appends its steps to those that are there.
pub proof fn law_battery_is_drawn(
    face: &WatchFace,
    commands: &mut Vec<DrawCommand>,
    cx: i32,
    y: i32,
)
    requires
        cx >= i32::MIN + 100,
        y <= i32::MAX - 45,
        call_ensures(WatchFace::draw_battery, (face, commands, cx, y), ()),
    ensures
        final(commands)@.len() == old(commands)@.len() + battery_count(face.battery_percent),
        forall|i: int|
            0 <= i < old(commands)@.len() ==> (#[trigger] final(commands)@[i])@ == old(
                commands,
            )@[i]@,
        draws_battery(
            final(commands)@,
            old(commands)@.len() as int,
            cx as int,
            y as int,
            face.battery_percent,
            face.is_charging,
        ),
{
    let before = shown(old(commands)@);
    let after = shown(final(commands)@);
    let plan = face.battery_plan(cx as int, y as int);
    let n = before.len() as int;
    lemma_texts_spell(face.battery_percent, face.is_charging, 0, 0, 0);
    lemma_fill(face.battery_percent);
    assert(after == before + plan);
    assert forall|i: int| 0 <= i < old(commands)@.len() implies (#[trigger] final(commands)@[i])@
        == old(commands)@[i]@ by {
        assert(after[i] == before[i]);
    }
    assert(after[n] == plan[0] && after[n + 1] == plan[1]);
    assert(after[n + plan.len() - 1] == plan[plan.len() - 1]);
    assert(final(commands)@[n]@ == plan[0]);
    assert(final(commands)@[n + 1]@ == plan[1]);
    assert(final(commands)@[n + plan.len() - 1]@ == plan[plan.len() - 1]);
}

/// Drawing the ball appends two squares where the ball has moved, and nothing where it has not.
pub proof fn law_ball_is_drawn(face: &WatchFace, commands: &mut Vec<DrawCommand>, at: (i32, i32))
    requires
        face.wf(),
        call_ensures(WatchFace::draw_gyro_ball, (face, commands), ()),
        call_ensures(WatchFace::projected_ball_position, (face.accel_x, face.accel_y), at),
    ensures
        ({
            let to = (at.0 as int, at.1 as int);
            let n = old(commands)@.len() as int;
            &&& forall|i: int|
                0 <= i < n ==> (#[trigger] final(commands)@[i])@ == old(commands)@[i]@
            &&& if far_apart(ball_before(*face), to) {
                final(commands)@.len() == n + 2 && draws_ball(
                    final(commands)@,
                    n,
                    ball_before(*face),
                    to,
                )
            } else {
                final(commands)@.len() == n
            }
        }),
{
    let before = shown(old(commands)@);
    let after = shown(final(commands)@);
    let plan = face.ball_plan();
    let n = before.len() as int;
    assert(after == before + plan);
    assert forall|i: int| 0 <= i < n implies (#[trigger] final(commands)@[i])@ == old(
        commands,
    )@[i]@ by {
        assert(after[i] == before[i]);
    }
    if face.ball_moved() {
        assert(after[n] == plan[0] && after[n + 1] == plan[1]);
        assert(final(commands)@[n]@ == plan[0]);
        assert(final(commands)@[n + 1]@ == plan[1]);
    }
}

/// The steps of a plan, one by one.
proof fn lemma_plan_steps(face: &WatchFace, steps: Vec<DrawCommand>)
    requires
        call_ensures(WatchFace::plan_render, (face,), steps),
    ensures
        steps@.len() == face.plan().len(),
        forall|i: int| 0 <= i < steps@.len() ==> (#[trigger] steps@[i])@ == face.plan()[i],
{
    assert forall|i: int| 0 <= i < steps@.len() implies (#[trigger] steps@[i])@
        == face.plan()[i] by {
        lemma_shown(steps, i);
    }
    assert(shown(steps@).len() == steps@.len());
}

/// The battery plan, placed at step `k` of a list.
proof fn lemma_draws_battery(face: &WatchFace, steps: Seq<DrawCommand>, k: int)
    requires
        0 <= k,
        k + battery_count(face.battery_percent) <= steps.len(),
        forall|j: int|
            0 <= j < battery_count(face.battery_percent) ==> (#[trigger] steps[k + j])@
                == face.battery_plan(205, 175)[j],
    ensures
        face.battery_plan(205, 175).len() == battery_count(face.battery_percent),
        draws_battery(steps, k, 205, 175, face.battery_percent, face.is_charging),
{
    let plan = face.battery_plan(205, 175);
    let n = battery_count(face.battery_percent);
    lemma_texts_spell(face.battery_percent, face.is_charging, 0, 0, 0);
    lemma_fill(face.battery_percent);
    assert(steps[k + 0]@ == plan[0]);
    assert(steps[k + 1]@ == plan[1]);
    assert(steps[k + (n - 1)]@ == plan[n - 1]);
}

/// How many steps move the ball.
pub open spec fn ball_count(face: WatchFace, to: (int, int)) -> int {
    if far_apart(ball_before(face), to) {
        2
    } else {
        0
    }
}

/// A full redraw begins on a black screen and shows everything: a dot that is green where the
/// radio is connected and red where it is not, the title, the time, the date, the battery, the
/// gyroscope with its ball or how to get it, and a line at the bottom.
#[verifier::rlimit(40)]
pub proof fn law_full_redraw_shows_everything(
    face: &WatchFace,
    steps: Vec<DrawCommand>,
    at: (i32, i32),
)
    requires
        face.wf(),
        face.full_redraw,
        call_ensures(WatchFace::plan_render, (face,), steps),
        call_ensures(WatchFace::projected_ball_position, (face.accel_x, face.accel_y), at),
    ensures
        ({
            let s = steps@;
            let to = (at.0 as int, at.1 as int);
            let gyro = 5 + battery_count(face.battery_percent);
            let last = gyro + (if face.gyro_enabled {
                2 + ball_count(*face, to)
            } else {
                1
            });
            &&& s.len() == last + 1
            &&& is_rect(s[0], 0, 0, 410, 502, Color::Black)
            &&& s[1] matches Draw::FillCircle { x, y, diameter, color } && x == 60 && y == 14
                && diameter == 8 && color == (if face.wifi_connected {
                Color::Green
            } else {
                Color::Red
            })
            &&& is_text(s[2], 205, 38, Color::Cyan) && words(s[2]) == "RUST WATCH"@
            &&& shows_time(s[3], face.hours, face.minutes, face.seconds)
            &&& is_text(s[4], 205, 150, Color::CssGray)
            &&& spells_date(words(s[4]), face.day as int, face.month as int, face.year as int)
            &&& draws_battery(s, 5, 205, 175, face.battery_percent, face.is_charging)
            &&& face.gyro_enabled ==> {
                &&& s[gyro] matches Draw::StrokeCircle { x, y, diameter, color, stroke } && x
                    == 155 && y == 320 && diameter == 100 && color == Color::CssDarkGray
                    && stroke == 2
                &&& is_text(s[gyro + 1], 205, 310, Color::CssGray)
                &&& words(s[gyro + 1]) == "GYRO"@
                &&& far_apart(ball_before(*face), to) ==> draws_ball(
                    s,
                    gyro + 2,
                    ball_before(*face),
                    to,
                )
            }
            &&& !face.gyro_enabled ==> is_text(s[gyro], 205, 370, Color::CssGray) && words(s[gyro])
                == "TAP FOR GYRO"@
            &&& is_text(s[last], 205, 487, Color::Yellow)
            &&& words(s[last]) == "100% Rust // ESP32-S3"@
        }),
{
    lemma_plan_steps(face, steps);
    lemma_texts_spell(face.battery_percent, face.is_charging, face.day, face.month, face.year);
    lemma_fill(face.battery_percent);
    let s = steps@;
    let n = battery_count(face.battery_percent);
    let battery = face.battery_plan(205, 175);
    let head = face.full_head();
    let gyro = face.full_gyro();
    let ball = face.full_ball();
    assert(head.len() == 5 + n);
    assert forall|i: int| 0 <= i < head.len() implies (#[trigger] s[i])@ == head[i] by {
        assert(face.plan()[i] == head[i]);
    }
    assert(s[0]@ == head[0] && s[1]@ == head[1] && s[2]@ == head[2] && s[3]@ == head[3] && s[4]@
        == head[4]);
    assert forall|j: int| 0 <= j < n implies (#[trigger] s[5 + j])@ == battery[j] by {
        assert(head[5 + j] == battery[j]);
    }
    lemma_draws_battery(face, s, 5);
    assert forall|j: int| 0 <= j < gyro.len() implies (#[trigger] s[5 + n + j])@ == gyro[j] by {
        assert(face.plan()[5 + n + j] == gyro[j]);
    }
    let b = 5 + n + gyro.len();
    assert forall|j: int| 0 <= j < ball.len() implies (#[trigger] s[b + j])@ == ball[j] by {
        assert(face.plan()[b + j] == ball[j]);
    }
    assert(s[b + ball.len()]@ == face.footer()) by {
        assert(face.plan()[b + ball.len()] == face.footer());
    }
    reveal_strlit("RUST WATCH");
    reveal_strlit("GYRO");
    reveal_strlit("TAP FOR GYRO");
    assert("RUST WATCH"@ =~= seq!['R', 'U', 'S', 'T', ' ', 'W', 'A', 'T', 'C', 'H']);
    assert("GYRO"@ =~= seq!['G', 'Y', 'R', 'O']);
    assert("TAP FOR GYRO"@ =~= seq!['T', 'A', 'P', ' ', 'F', 'O', 'R', ' ', 'G', 'Y', 'R', 'O']);
    assert(s[5 + n + 0]@ == gyro[0]);
    if face.gyro_enabled {
        assert(s[5 + n + 1]@ == gyro[1]);
        if face.ball_moved() {
            assert(s[b + 0]@ == ball[0] && s[b + 1]@ == ball[1]);
        }
    }
}

/// A partial redraw blackens and redraws the time where it changed, then the battery where that
/// changed, then moves the ball where it moved and the gyroscope is shown. It draws nothing else.
#[verifier::rlimit(40)]
pub proof fn law_partial_redraw_shows_changes(
    face: &WatchFace,
    steps: Vec<DrawCommand>,
    at: (i32, i32),
)
    requires
        face.wf(),
        !face.full_redraw,
        call_ensures(WatchFace::plan_render, (face,), steps),
        call_ensures(WatchFace::projected_ball_position, (face.accel_x, face.accel_y), at),
    ensures
        ({
            let s = steps@;
            let to = (at.0 as int, at.1 as int);
            let battery = if face.time_changed {
                2int
            } else {
                0
            };
            let gyro = battery + (if face.battery_changed {
                1 + battery_count(face.battery_percent)
            } else {
                0
            });
            let moves = face.gyro_changed && face.gyro_enabled && far_apart(
                ball_before(*face),
                to,
            );
            &&& s.len() == gyro + (if moves {
                2int
            } else {
                0
            })
            &&& face.time_changed ==> is_rect(s[0], 58, 56, 294, 72, Color::Black) && shows_time(
                s[1],
                face.hours,
                face.minutes,
                face.seconds,
            )
            &&& face.battery_changed ==> is_rect(s[battery], 85, 171, 240, 100, Color::Black)
                && draws_battery(
                s,
                battery + 1,
                205,
                175,
                face.battery_percent,
                face.is_charging,
            )
            &&& moves ==> draws_ball(s, gyro, ball_before(*face), to)
        }),
{
    lemma_plan_steps(face, steps);
    lemma_fill(face.battery_percent);
    let s = steps@;
    let n = battery_count(face.battery_percent);
    let time = face.time_part();
    let battery = face.battery_part();
    let ball = face.gyro_part();
    let t = time.len() as int;
    let g = t + battery.len();
    assert forall|j: int| 0 <= j < t implies (#[trigger] s[j])@ == time[j] by {
        assert(face.plan()[j] == time[j]);
    }
    assert forall|j: int| 0 <= j < battery.len() implies (#[trigger] s[t + j])@ == battery[j] by {
        assert(face.plan()[t + j] == battery[j]);
    }
    assert forall|j: int| 0 <= j < ball.len() implies (#[trigger] s[g + j])@ == ball[j] by {
        assert(face.plan()[g + j] == ball[j]);
    }
    if face.time_changed {
        assert(s[0]@ == time[0] && s[1]@ == time[1]);
    }
    if face.battery_changed {
        assert(s[t + 0]@ == battery[0]);
        assert forall|j: int| 0 <= j < n implies (#[trigger] s[t + 1 + j])@ == face.battery_plan(
            205,
            175,
        )[j] by {
            assert(s[t + (1 + j)]@ == battery[1 + j]);
        }
        lemma_draws_battery(face, s, t + 1);
    }
    if ball.len() > 0 {
        assert(s[g + 0]@ == ball[0] && s[g + 1]@ == ball[1]);
    }
}

/// A plan shows the time in one step, the current one, where everything is redrawn or the time
/// changed, and in none otherwise.
pub proof fn law_one_time_in_a_plan(
    face: &WatchFace,
    steps: Vec<DrawCommand>,
    at: (i32, i32),
    i: int,
)
    requires
        face.wf(),
        call_ensures(WatchFace::plan_render, (face,), steps),
        call_ensures(WatchFace::projected_ball_position, (face.accel_x, face.accel_y), at),
        0 <= i < steps@.len(),
    ensures
        any_time(steps@[i]) <==> (if face.full_redraw {
            i == 3
        } else {
            face.time_changed && i == 1
        }),
        any_time(steps@[i]) ==> shows_time(steps@[i], face.hours, face.minutes, face.seconds),
{
    let n = battery_count(face.battery_percent);
    if face.full_redraw {
        law_full_redraw_shows_everything(face, steps, at);
        assert(i == 5 || i == 6 || i == 7 || i < 5 || i >= 5 + n);
    } else {
        law_partial_redraw_shows_changes(face, steps, at);
        let b: int = if face.time_changed {
            2
        } else {
            0
        };
        assert(face.battery_changed ==> i < b || i == b || i == b + 1 || i == b + 2 || i == b + 3
            || i > b + n);
    }
}

/// A time that differs from the one before is on the screen after the next rendering.
pub proof fn law_new_time_is_drawn(
    face: &mut WatchFace,
    h: u8,
    m: u8,
    s: u8,
    needed: bool,
    steps: Vec<DrawCommand>,
    at: (i32, i32),
)
    requires
        old(face).wf(),
        (old(face).hours, old(face).minutes, old(face).seconds) != (h, m, s),
        call_ensures(WatchFace::update_time, (face, h, m, s), ()),
        call_ensures(WatchFace::needs_render, (&*final(face),), needed),
        call_ensures(WatchFace::plan_render, (&*final(face),), steps),
        call_ensures(
            WatchFace::projected_ball_position,
            (old(face).accel_x, old(face).accel_y),
            at,
        ),
    ensures
        needed,
        exists|i: int| 0 <= i < steps@.len() && shows_time(#[trigger] steps@[i], h, m, s),
{
    if final(face).full_redraw {
        law_full_redraw_shows_everything(&*final(face), steps, at);
        assert(shows_time(steps@[3], h, m, s));
    } else {
        law_partial_redraw_shows_changes(&*final(face), steps, at);
        assert(shows_time(steps@[1], h, m, s));
    }
}

/// A battery reading that differs from the one before is on the screen after the next rendering.
pub proof fn law_new_charge_is_drawn(
    face: &mut WatchFace,
    pct: u8,
    mv: u16,
    chg: bool,
    needed: bool,
    steps: Vec<DrawCommand>,
    at: (i32, i32),
)
    requires
        old(face).wf(),
        (old(face).battery_percent, old(face).battery_voltage, old(face).is_charging) != (
            pct,
            mv,
            chg,
        ),
        call_ensures(WatchFace::update_battery, (face, pct, mv, chg), ()),
        call_ensures(WatchFace::needs_render, (&*final(face),), needed),
        call_ensures(WatchFace::plan_render, (&*final(face),), steps),
        call_ensures(
            WatchFace::projected_ball_position,
            (old(face).accel_x, old(face).accel_y),
            at,
        ),
    ensures
        needed,
        exists|k: int| #[trigger] draws_battery(steps@, k, 205, 175, pct, chg),
{
    if final(face).full_redraw {
        law_full_redraw_shows_everything(&*final(face), steps, at);
        assert(draws_battery(steps@, 5, 205, 175, pct, chg));
    } else {
        law_partial_redraw_shows_changes(&*final(face), steps, at);
        let b: int = if old(face).time_changed {
            2
        } else {
            0
        };
        assert(draws_battery(steps@, b + 1, 205, 175, pct, chg));
    }
}

/// How many steps a partial redraw takes for the time.
pub open spec fn time_steps(face: WatchFace) -> int {
    if face.time_changed {
        2
    } else {
        0
    }
}

/// How many steps a partial redraw takes for the battery.
pub open spec fn battery_steps(face: WatchFace) -> int {
    if face.battery_changed {
        1 + battery_count(face.battery_percent)
    } else {
        0
    }
}

/// The region of a ball that moved: both places, with ten pixels around each.
pub open spec fn around_both(r: FlushRegion, a: (int, int), b: (int, int)) -> bool {
    &&& r.x == min_of(a.0, b.0) - 10
    &&& r.y == min_of(a.1, b.1) - 10
    &&& r.x + r.w == max_of(a.0, b.0) + 10
    &&& r.y + r.h == max_of(a.1, b.1) + 10
}

/// A rendering whose steps were all drawn leaves nothing out of date, but for a ball that moved
/// while the gyroscope is hidden. The ball then counts as drawn where it belongs, if it was drawn.
/// What changed on the screen is reported: everything after a full redraw, and otherwise the
/// region of each part that was redrawn.
pub proof fn law_rendering_completes<E>(
    face: &mut WatchFace,
    r: Result<RenderOutcome, E>,
    at: (i32, i32),
)
    requires
        old(face).wf(),
        call_ensures(WatchFace::render::<E>, (face, Ok(())), r),
        call_ensures(
            WatchFace::projected_ball_position,
            (old(face).accel_x, old(face).accel_y),
            at,
        ),
    ensures
        ({
            let to = (at.0 as int, at.1 as int);
            let from = ball_before(*old(face));
            let part = !old(face).full_redraw;
            let ball = old(face).gyro_enabled && (old(face).full_redraw || old(face).gyro_changed)
                && far_apart(from, to);
            &&& *final(face) == (WatchFace {
                full_redraw: false,
                time_changed: false,
                battery_changed: false,
                gyro_changed: part && old(face).gyro_changed && !old(face).gyro_enabled,
                prev_ball_x: if ball {
                    at.0
                } else {
                    old(face).prev_ball_x
                },
                prev_ball_y: if ball {
                    at.1
                } else {
                    old(face).prev_ball_y
                },
                ..*old(face)
            })
            &&& r matches Ok(outcome) && {
                &&& outcome.full_redraw == old(face).full_redraw
                &&& outcome.time_region == (if part && old(face).time_changed {
                    Some(FlushRegion { x: 58, y: 56, w: 294, h: 72 })
                } else {
                    None
                })
                &&& outcome.battery_region == (if part && old(face).battery_changed {
                    Some(FlushRegion { x: 85, y: 171, w: 240, h: 100 })
                } else {
                    None
                })
                &&& outcome.gyro_region is Some <==> part && ball
                &&& outcome.gyro_region matches Some(region) ==> around_both(region, from, to)
            }
        }),
{
    let f = *old(face);
    if !f.full_redraw && f.gyro_changed && f.gyro_enabled && f.ball_moved() {
        lemma_ball_region(f);
    }
}

/// The region of a moved ball in plain numbers.
proof fn lemma_ball_region(face: WatchFace)
    requires
        face.wf(),
        face.ball_moved(),
    ensures
        face.ball_dirt() is Some,
        around_both(
            face.ball_dirt()->0,
            ball_before(face),
            ball_position(face.accel_x as int, face.accel_y as int),
        ),
{
    law_regions_on_screen(face);
    let (nx, ny) = ball_position(face.accel_x as int, face.accel_y as int);
    let a = ball_area(face.prev_ball_x as int, face.prev_ball_y as int);
    let b = ball_area(nx, ny);
    assert(a.x == face.prev_ball_x - 10 && a.y == face.prev_ball_y - 10 && a.w == 20 && a.h == 20);
    assert(b.x == nx - 10 && b.y == ny - 10 && b.w == 20 && b.h == 20);
    law_union_spans(a, b);
}

/// A rendering that fails hands the error on. In a partial redraw, the time and the battery are up
/// to date once all of their steps were drawn, and the rest stays out of date. A full redraw stays
/// due as a whole; only the ball counts as drawn, where nothing but the last line is missing.
pub proof fn law_rendering_fails<E>(
    face: &mut WatchFace,
    failure: DrawFailure<E>,
    r: Result<RenderOutcome, E>,
    steps: Vec<DrawCommand>,
    at: (i32, i32),
)
    requires
        old(face).wf(),
        call_ensures(WatchFace::plan_render, (&*old(face),), steps),
        failure.drawn < steps@.len(),
        call_ensures(WatchFace::render::<E>, (face, Err(failure)), r),
        call_ensures(
            WatchFace::projected_ball_position,
            (old(face).accel_x, old(face).accel_y),
            at,
        ),
    ensures
        r == Err::<RenderOutcome, E>(failure.error),
        old(face).full_redraw ==> {
            let ball = old(face).gyro_enabled && failure.drawn == steps@.len() - 1 && far_apart(
                ball_before(*old(face)),
                (at.0 as int, at.1 as int),
            );
            *final(face) == (WatchFace {
                prev_ball_x: if ball {
                    at.0
                } else {
                    old(face).prev_ball_x
                },
                prev_ball_y: if ball {
                    at.1
                } else {
                    old(face).prev_ball_y
                },
                ..*old(face)
            })
        },
        !old(face).full_redraw ==> *final(face) == (WatchFace {
            time_changed: old(face).time_changed && failure.drawn < time_steps(*old(face)),
            battery_changed: old(face).battery_changed && failure.drawn < time_steps(*old(face))
                + battery_steps(*old(face)),
            ..*old(face)
        }),
{
    let f = *old(face);
    lemma_plan_steps(&f, steps);
    lemma_fill(f.battery_percent);
}

/// A report that names nothing says that nothing was drawn.
pub proof fn law_empty_report(r: RenderOutcome)
    requires
        call_ensures(<RenderOutcome as Default>::default, (), r),
    ensures
        !r.full_redraw,
        r.time_region is None && r.battery_region is None && r.gyro_region is None,
{
}

/// The always-on display is a black screen with the hours and minutes in a dim white and the
/// charge in a darker grey. Both stand up to four pixels away from their places, to the side by
/// the minute modulo nine and up or down by the minute modulo eight, so that no pixel burns in.
pub proof fn law_always_on_display_shows(face: &WatchFace, steps: Vec<DrawCommand>)
    requires
        call_ensures(WatchFace::plan_aod, (face,), steps),
    ensures
        ({
            let s = steps@;
            let right = face.minutes as int % 9;
            let down = face.minutes as int % 8;
            &&& s.len() == 3
            &&& is_rect(s[0], 0, 0, 410, 502, Color::Black)
            &&& s[1] matches Draw::HoursMinutes { cx, y, hours, minutes, color, back } && hours
                == face.hours && minutes == face.minutes && cx == 201 + right && y == 215 + down
                && color == (Color::Rgb { r: 20, g: 40, b: 20 }) && back == Color::Black
            &&& is_text(s[2], 336 + right, 446 + down, Color::Rgb { r: 8, g: 16, b: 8 })
            &&& spells_percent(words(s[2]), face.battery_percent as int)
        }),
{
    let s = steps@;
    let plan = face.aod_plan();
    lemma_texts_spell(face.battery_percent, face.is_charging, 0, 0, 0);
    assert(shown(s) == plan);
    assert(shown(s).len() == s.len());
    lemma_shown(steps, 0);
    lemma_shown(steps, 1);
    lemma_shown(steps, 2);
}

/// Once the always-on display was drawn, the face is out of date as a whole and in no part; where
/// drawing failed nothing changes, and the error is handed on.
pub proof fn law_always_on_display_is_drawn<E>(
    face: &mut WatchFace,
    drawing: Result<(), DrawFailure<E>>,
    r: Result<(), E>,
)
    requires
        call_ensures(WatchFace::render_aod::<E>, (face, drawing), r),
    ensures
        drawing is Ok ==> r is Ok && *final(face) == (WatchFace {
            full_redraw: true,
            time_changed: false,
            battery_changed: false,
            gyro_changed: false,
            ..*old(face)
        }),
        drawing matches Err(failure) ==> r == Err::<(), E>(failure.error) && *final(face) == *old(
            face,
        ),
{
}

/// After a rendering whose steps were all drawn, an unchanged face has nothing left to draw, as
/// long as no ball moved behind a hidden gyroscope.
pub proof fn law_rendered_face_is_quiet<E>(
    face: &mut WatchFace,
    r: Result<RenderOutcome, E>,
    needed: bool,
    steps: Vec<DrawCommand>,
    at: (i32, i32),
)
    requires
        old(face).wf(),
        old(face).full_redraw || old(face).gyro_enabled || !old(face).gyro_changed,
        call_ensures(WatchFace::render::<E>, (face, Ok(())), r),
        call_ensures(WatchFace::needs_render, (&*final(face),), needed),
        call_ensures(WatchFace::plan_render, (&*final(face),), steps),
        call_ensures(
            WatchFace::projected_ball_position,
            (old(face).accel_x, old(face).accel_y),
            at,
        ),
    ensures
        !needed,
        steps@.len() == 0,
{
    law_rendering_completes(face, r, at);
    law_partial_redraw_shows_changes(&*final(face), steps, at);
}

} // verus!
