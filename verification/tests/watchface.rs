use embedded_graphics::geometry::{Dimensions, Point, Size};
use embedded_graphics::mono_font::ascii::FONT_10X20;
use embedded_graphics::mono_font::MonoTextStyle;
use embedded_graphics::pixelcolor::BinaryColor;
use embedded_graphics::primitives::{Circle, Primitive, PrimitiveStyle, Rectangle, RoundedRectangle};
use embedded_graphics::text::{Alignment, Text};
use waveshare_watch::draw::{Color, Draw, DrawCommand, DrawFailure};
use waveshare_watch::region::FlushRegion;
use waveshare_watch::watchface::{
    RenderOutcome, WatchFace, FONT_BASELINE, FONT_H, FONT_W, TIME_DH, TIME_TOTAL_W,
};

const TIME: FlushRegion = FlushRegion { x: 58, y: 56, w: 294, h: 72 };
const BATTERY: FlushRegion = FlushRegion { x: 85, y: 171, w: 240, h: 100 };

fn text(s: &str, x: i32, y: i32, color: Color) -> DrawCommand {
    Draw::CenteredText { text: s.to_string(), x, y, color }
}

fn rect(x: i32, y: i32, w: u32, h: u32, color: Color) -> DrawCommand {
    Draw::FillRect { x, y, w, h, color }
}

fn frame() -> DrawCommand {
    Draw::StrokeRoundedRect {
        x: 105,
        y: 175,
        w: 200,
        h: 20,
        corner: 4,
        color: Color::White,
        stroke: 2,
    }
}

fn time(hours: u8, minutes: u8, seconds: u8) -> DrawCommand {
    Draw::Time {
        cx: 205,
        y: 60,
        hours,
        minutes,
        seconds,
        color: Color::White,
        back: Color::Black,
    }
}

/// All steps were drawn.
fn all() -> Result<(), DrawFailure<&'static str>> {
    Ok(())
}

/// The step behind the first `drawn` ones failed.
fn failed(drawn: usize) -> Result<(), DrawFailure<&'static str>> {
    Err(DrawFailure { drawn, error: "bus" })
}

fn settled() -> WatchFace {
    let mut face = WatchFace::new();
    assert!(face.render(all()).is_ok());
    assert!(!face.needs_render());
    face
}

#[test]
fn regions() {
    assert_eq!(WatchFace::time_region(), TIME);
    assert_eq!(WatchFace::battery_region(), BATTERY);
    assert_eq!(WatchFace::ball_region(205, 370), FlushRegion { x: 195, y: 360, w: 20, h: 20 });
    assert_eq!(WatchFace::ball_region(0, 5), FlushRegion { x: 65526, y: 65531, w: 20, h: 20 });
}

#[test]
fn gyro_zone_is_the_lower_middle() {
    assert!(!WatchFace::is_gyro_zone(299));
    assert!(WatchFace::is_gyro_zone(300));
    assert!(WatchFace::is_gyro_zone(440));
    assert!(!WatchFace::is_gyro_zone(441));
    assert!(!WatchFace::is_gyro_zone(0));
    assert!(!WatchFace::is_gyro_zone(u16::MAX));
}

#[test]
fn ball_follows_the_acceleration() {
    assert_eq!(WatchFace::projected_ball_position(0, 0), (205, 370));
    assert_eq!(WatchFace::projected_ball_position(100, 0), (205, 408));
    assert_eq!(WatchFace::projected_ball_position(0, 100), (167, 370));
    assert_eq!(WatchFace::projected_ball_position(-50, -50), (224, 351));
    // Rounded towards zero, in both directions.
    assert_eq!(WatchFace::projected_ball_position(2, 2), (205, 370));
    assert_eq!(WatchFace::projected_ball_position(-2, -2), (205, 370));
    assert_eq!(WatchFace::projected_ball_position(i16::MIN, i16::MIN), (243, 332));
    assert_eq!(WatchFace::projected_ball_position(i16::MAX, i16::MAX), (167, 408));
}

#[test]
fn first_rendering_draws_everything() {
    let face = WatchFace::new();
    assert!(face.needs_render());
    assert_eq!(
        face.plan_render(),
        vec![
            rect(0, 0, 410, 502, Color::Black),
            Draw::FillCircle { x: 60, y: 14, diameter: 8, color: Color::Red },
            text("RUST WATCH", 205, 38, Color::Cyan),
            time(0, 0, 0),
            text("06/04/2026", 205, 150, Color::CssGray),
            frame(),
            text("0%", 205, 220, Color::White),
            text("TAP FOR GYRO", 205, 370, Color::CssGray),
            text("100% Rust // ESP32-S3", 205, 487, Color::Yellow),
        ]
    );
}

#[test]
fn full_rendering_with_gyroscope() {
    let mut face = settled();
    face.update_date(31, 12, 27);
    face.update_battery(55, 3900, true);
    face.update_accel(100, 0, 100);
    face.wifi_connected = true;
    assert!(face.toggle_gyro());
    let plan = face.plan_render();
    assert_eq!(
        plan,
        vec![
            rect(0, 0, 410, 502, Color::Black),
            Draw::FillCircle { x: 60, y: 14, diameter: 8, color: Color::Green },
            text("RUST WATCH", 205, 38, Color::Cyan),
            time(0, 0, 0),
            text("31/12/2027", 205, 150, Color::CssGray),
            frame(),
            rect(108, 178, 106, 14, Color::Green),
            text("55% CHG", 205, 220, Color::Green),
            Draw::StrokeCircle {
                x: 155,
                y: 320,
                diameter: 100,
                color: Color::CssDarkGray,
                stroke: 2,
            },
            text("GYRO", 205, 310, Color::CssGray),
            rect(197, 362, 16, 16, Color::Black),
            rect(197, 400, 16, 16, Color::Green),
            text("100% Rust // ESP32-S3", 205, 487, Color::Yellow),
        ]
    );
    assert_eq!(
        face.render(all()),
        Ok(RenderOutcome { full_redraw: true, ..RenderOutcome::default() })
    );
    assert!(!face.needs_render());
    // The ball stands where it belongs: it is not drawn again.
    face.force_redraw();
    assert_eq!(face.plan_render().len(), plan.len() - 2);
}

#[test]
fn changed_time_redraws_its_region() {
    let mut face = settled();
    face.update_time(0, 0, 0);
    assert!(!face.needs_render());
    face.update_time(12, 34, 56);
    assert!(face.needs_render());
    assert_eq!(face.plan_render(), vec![rect(58, 56, 294, 72, Color::Black), time(12, 34, 56)]);
    assert_eq!(
        face.render(all()),
        Ok(RenderOutcome { time_region: Some(TIME), ..RenderOutcome::default() })
    );
    assert!(!face.needs_render());
}

#[test]
fn changed_battery_redraws_its_region() {
    let mut face = settled();
    face.update_battery(20, 3600, false);
    assert_eq!(
        face.plan_render(),
        vec![
            rect(85, 171, 240, 100, Color::Black),
            frame(),
            rect(108, 178, 38, 14, Color::Red),
            text("20%", 205, 220, Color::White),
        ]
    );
    assert_eq!(
        face.render(all()),
        Ok(RenderOutcome { battery_region: Some(BATTERY), ..RenderOutcome::default() })
    );
    // The voltage and the charger count too.
    face.update_battery(20, 3601, false);
    assert!(face.needs_render());
    assert!(face.render(all()).is_ok());
    face.update_battery(20, 3601, true);
    assert!(face.needs_render());
    assert!(face.render(all()).is_ok());
    face.update_battery(20, 3601, true);
    assert!(!face.needs_render());
}

#[test]
fn battery_bar_width_and_colour() {
    let mut face = WatchFace::new();
    for (pct, w, color) in [
        (1, 1, Color::Red),
        (21, 40, Color::Yellow),
        (50, 97, Color::Yellow),
        (51, 98, Color::Green),
        (100, 194, Color::Green),
        (200, 194, Color::Green),
    ] {
        face.update_battery(pct, 0, false);
        let mut steps = vec![];
        face.draw_battery(&mut steps, 105, 10);
        assert_eq!(steps[1], rect(8, 13, w, 14, color));
    }
}

#[test]
fn moved_ball_redraws_both_places() {
    let mut face = settled();
    face.toggle_gyro();
    assert!(face.render(all()).is_ok());
    face.update_accel(2, 3, 0);
    assert!(!face.needs_render());
    face.update_accel(0, 10, 0);
    assert!(face.needs_render());
    assert_eq!(
        face.plan_render(),
        vec![rect(197, 362, 16, 16, Color::Black), rect(194, 362, 16, 16, Color::Green)]
    );
    assert_eq!(
        face.render(all()),
        Ok(RenderOutcome {
            gyro_region: Some(FlushRegion { x: 192, y: 360, w: 23, h: 20 }),
            ..RenderOutcome::default()
        })
    );
    assert!(!face.needs_render());
}

#[test]
fn hidden_ball_stays_out_of_date() {
    let mut face = settled();
    face.update_accel(100, 100, 0);
    assert!(face.needs_render());
    assert!(face.plan_render().is_empty());
    assert_eq!(face.render(all()), Ok(RenderOutcome::default()));
    assert!(face.needs_render());
}

#[test]
fn all_parts_in_one_rendering() {
    let mut face = settled();
    face.toggle_gyro();
    assert!(face.render(all()).is_ok());
    face.update_time(1, 2, 3);
    face.update_battery(9, 1, true);
    face.update_accel(-100, -100, 0);
    assert_eq!(face.plan_render().len(), 8);
    assert_eq!(
        face.render(all()),
        Ok(RenderOutcome {
            full_redraw: false,
            time_region: Some(TIME),
            battery_region: Some(BATTERY),
            gyro_region: Some(FlushRegion { x: 195, y: 322, w: 58, h: 58 }),
        })
    );
}

#[test]
fn failed_rendering_keeps_what_is_missing() {
    let mut face = settled();
    face.toggle_gyro();
    assert!(face.render(all()).is_ok());
    face.update_time(1, 2, 3);
    face.update_battery(9, 1, true);
    face.update_accel(-100, -100, 0);
    for (drawn, left) in [(0, 8), (1, 8), (2, 6), (5, 6), (6, 2), (7, 2)] {
        let mut tried = face;
        assert_eq!(tried.render(failed(drawn)), Err("bus"));
        assert!(tried.needs_render());
        assert_eq!(tried.plan_render().len(), left);
    }
}

#[test]
fn failed_full_rendering_is_repeated() {
    let mut face = settled();
    face.toggle_gyro();
    face.update_accel(100, 0, 0);
    let n = face.plan_render().len();
    for drawn in 0..n {
        let mut tried = face;
        assert_eq!(tried.render(failed(drawn)), Err("bus"));
        assert!(tried.needs_render());
        // Only where both squares of the ball were drawn does it count as moved.
        let again = if drawn == n - 1 { n - 2 } else { n };
        assert_eq!(tried.plan_render().len(), again);
    }
}

#[test]
fn clean_face_draws_nothing() {
    let mut face = settled();
    assert!(face.plan_render().is_empty());
    assert_eq!(face.render(all()), Ok(RenderOutcome::default()));
}

#[test]
fn toggling_twice_leaves_a_redraw() {
    let mut face = settled();
    assert!(face.toggle_gyro());
    assert!(!face.toggle_gyro());
    assert!(!face.gyro_enabled);
    assert!(face.needs_render());
}

#[test]
fn always_on_display() {
    let mut face = settled();
    face.update_time(23, 59, 58);
    face.update_battery(100, 4200, false);
    assert_eq!(
        face.plan_aod(),
        vec![
            rect(0, 0, 410, 502, Color::Black),
            Draw::HoursMinutes {
                cx: 206,
                y: 218,
                hours: 23,
                minutes: 59,
                color: Color::Rgb { r: 20, g: 40, b: 20 },
                back: Color::Black,
            },
            text("100%", 341, 449, Color::Rgb { r: 8, g: 16, b: 8 }),
        ]
    );
    assert_eq!(face.render_aod(failed(2)), Err("bus"));
    assert_eq!(face.plan_render().len(), 6);
    assert_eq!(face.render_aod(all()), Ok(()));
    assert!(face.needs_render());
    assert_eq!(face.plan_render()[0], rect(0, 0, 410, 502, Color::Black));
    assert_eq!(face.plan_render().len(), 10);
}

#[test]
fn always_on_battery_stands_in_the_corner() {
    for minute in 0..60 {
        for pct in [0, 42, 100] {
            let mut face = WatchFace::new();
            face.update_time(0, minute, 0);
            face.update_battery(pct, 0, false);
            match &face.plan_aod()[2] {
                Draw::CenteredText { text, x, y, .. } => {
                    let half = 5 * text.len() as i32;
                    assert!(x - half >= 410 / 2 && x + half <= 410);
                    assert!(*y >= 2 * 502 / 3 && *y + 20 <= 502);
                    assert_eq!(*x - 340, i32::from(minute) % 9 - 4);
                    assert_eq!(*y - 450, i32::from(minute) % 8 - 4);
                }
                _ => unreachable!(),
            }
        }
    }
}

#[test]
fn always_on_display_wanders() {
    let mut places = vec![];
    for minute in 0..60 {
        let mut face = WatchFace::new();
        face.update_time(0, minute, 0);
        match face.plan_aod()[1] {
            Draw::HoursMinutes { cx, y, .. } => {
                assert!((201..=209).contains(&cx));
                assert!((215..=222).contains(&y));
                places.push((cx, y));
            }
            _ => unreachable!(),
        }
    }
    assert_eq!(places[0], (201, 215));
    assert_eq!(places[7], (208, 222));
    assert_eq!(places[8], (209, 215));
    for pair in places.windows(2) {
        assert_ne!(pair[0], pair[1]);
    }
    assert_ne!(places[59], places[0]);
}

/// Left, top, right and bottom edge of what a step draws.
fn extent(step: &DrawCommand) -> (i32, i32, i32, i32) {
    let outline = |w: u32| PrimitiveStyle::with_stroke(BinaryColor::On, w);
    let b: Rectangle = match step {
        Draw::FillRect { x, y, w, h, .. } => {
            Rectangle::new(Point::new(*x, *y), Size::new(*w, *h))
        }
        Draw::StrokeRoundedRect { x, y, w, h, corner, stroke, .. } => {
            let shape = Rectangle::new(Point::new(*x, *y), Size::new(*w, *h));
            RoundedRectangle::with_equal_corners(shape, Size::new(*corner, *corner))
                .into_styled(outline(*stroke))
                .bounding_box()
        }
        Draw::FillCircle { x, y, diameter, .. } => {
            Circle::new(Point::new(*x, *y), *diameter).bounding_box()
        }
        Draw::StrokeCircle { x, y, diameter, stroke, .. } => {
            Circle::new(Point::new(*x, *y), *diameter)
                .into_styled(outline(*stroke))
                .bounding_box()
        }
        Draw::CenteredText { text, x, y, .. } => {
            let style = MonoTextStyle::new(&FONT_10X20, BinaryColor::On);
            Text::with_alignment(text, Point::new(*x, *y), style, Alignment::Center)
                .bounding_box()
        }
        Draw::Time { cx, y, .. } | Draw::HoursMinutes { cx, y, .. } => Rectangle::new(
            Point::new(*cx - TIME_TOTAL_W / 2, *y),
            Size::new(TIME_TOTAL_W as u32, TIME_DH as u32),
        ),
    };
    let (x, y) = (b.top_left.x, b.top_left.y);
    (x, y, x + b.size.width as i32, y + b.size.height as i32)
}

fn lies_in(step: &DrawCommand, area: &FlushRegion) -> bool {
    let (left, top, right, bottom) = extent(step);
    let (x, y) = (i32::from(area.x), i32::from(area.y));
    x <= left
        && y <= top
        && right <= x + i32::from(area.w)
        && bottom <= y + i32::from(area.h)
}

#[test]
fn font_measures() {
    assert_eq!(FONT_10X20.character_size, Size::new(FONT_W as u32, FONT_H as u32));
    assert_eq!(FONT_10X20.character_spacing, 0);
    assert_eq!(FONT_10X20.baseline, FONT_BASELINE as u32);
    assert_eq!(extent(&text("100% CHG", 205, 220, Color::Green)), (166, 205, 246, 225));
    assert_eq!(extent(&frame()), (104, 174, 306, 196));
}

#[test]
fn partial_redraw_stays_in_its_regions() {
    let mut face = settled();
    face.toggle_gyro();
    assert!(face.render(all()).is_ok());
    face.update_time(23, 59, 58);
    face.update_battery(100, 4200, true);
    face.update_accel(90, -70, 0);
    let steps = face.plan_render();
    let outcome = face.render(all()).unwrap();
    let gyro = outcome.gyro_region.unwrap();
    assert_eq!(steps.len(), 8);
    for step in &steps[0..2] {
        assert!(lies_in(step, &TIME));
    }
    for step in &steps[2..6] {
        assert!(lies_in(step, &BATTERY));
    }
    for step in &steps[6..8] {
        assert!(lies_in(step, &gyro));
    }
}

#[test]
fn full_redraw_stays_on_the_screen() {
    let screen = FlushRegion { x: 0, y: 0, w: 410, h: 502 };
    let mut face = WatchFace::new();
    face.update_battery(100, 4200, true);
    face.update_accel(100, -100, 0);
    for step in face.plan_render() {
        assert!(lies_in(&step, &screen));
    }
    face.toggle_gyro();
    for step in face.plan_render() {
        assert!(lies_in(&step, &screen));
    }
}
