use imgui_core::draw::{
    Color, CHANNEL_EIGHT_TENTHS, CHANNEL_FOUR_TENTHS, CHANNEL_HALF, CHANNEL_ONE, CHANNEL_ZERO,
};
use imgui_core::widgets::BUTTON_MARGIN;
use imgui_core::{
    button, drag_offset, slider_in_range, slider_ratio, vertical_slider, Context, DrawItem, Focus,
    Point, Ratio, Rect,
};

fn rect(x: i32, y: i32, w: i32, h: i32) -> Rect {
    Rect::new(Point::new(x, y), Point::new(w, h))
}

fn channels(color: Color) -> [f32; 4] {
    [
        f32::from_bits(color.red),
        f32::from_bits(color.green),
        f32::from_bits(color.blue),
        f32::from_bits(color.alpha),
    ]
}

fn value(ratio: Ratio) -> f32 {
    ratio.num as f32 / ratio.den as f32
}

fn items(ctx: &mut Context) -> Vec<DrawItem> {
    ctx.draw_list_iter().copied().collect()
}

#[test]
fn channel_constants_are_the_bits_of_their_numbers() {
    assert_eq!(CHANNEL_ZERO, 0.0f32.to_bits());
    assert_eq!(CHANNEL_FOUR_TENTHS, 0.4f32.to_bits());
    assert_eq!(CHANNEL_HALF, 0.5f32.to_bits());
    assert_eq!(CHANNEL_EIGHT_TENTHS, 0.8f32.to_bits());
    assert_eq!(CHANNEL_ONE, 1.0f32.to_bits());
}

#[test]
fn named_colors_have_their_channels() {
    assert_eq!(channels(Color::transparent()), [0.0, 0.0, 0.0, 0.0]);
    assert_eq!(channels(Color::white()), [1.0, 1.0, 1.0, 1.0]);
    assert_eq!(channels(Color::light_gray()), [0.8, 0.8, 0.8, 1.0]);
    assert_eq!(channels(Color::mid_gray()), [0.5, 0.5, 0.5, 1.0]);
    assert_eq!(channels(Color::muted_gray()), [0.4, 0.4, 0.4, 0.4]);
}

#[test]
fn color_from_bits_keeps_any_number() {
    let c = Color::from_bits(2.5f32.to_bits(), (-1.0f32).to_bits(), 0.25f32.to_bits(), 7.0f32.to_bits());
    assert_eq!(channels(c), [2.5, -1.0, 0.25, 7.0]);
    let g = Color::gray(0.25f32.to_bits(), 0.75f32.to_bits());
    assert_eq!(channels(g), [0.25, 0.25, 0.25, 0.75]);
}

#[test]
fn button_margin_is_two() {
    assert_eq!(BUTTON_MARGIN, 2);
}

#[test]
fn click_fires_exactly_once() {
    let mut ctx = Context::new();
    let r = rect(0, 0, 10, 10);
    ctx.update(Point::new(5, 5), true);
    assert!(!button(&mut ctx, "ok", r));
    assert!(ctx.is_active("ok"));
    ctx.update(Point::new(5, 5), false);
    assert!(button(&mut ctx, "ok", r));
    assert!(!ctx.is_active("ok"));
    assert!(ctx.is_hot("ok"));
    ctx.update(Point::new(5, 5), false);
    assert!(!button(&mut ctx, "ok", r));
    assert!(ctx.is_hot("ok"));
}

#[test]
fn drag_off_keeps_the_button_active() {
    let mut ctx = Context::new();
    let r = rect(0, 0, 10, 10);
    ctx.update(Point::new(5, 5), true);
    assert!(!button(&mut ctx, "ok", r));
    assert!(ctx.is_active("ok"));
    ctx.update(Point::new(500, 500), true);
    assert!(!button(&mut ctx, "ok", r));
    assert!(ctx.is_active("ok"));
    assert!(!ctx.is_hot("ok"));
    ctx.update(Point::new(500, 500), false);
    assert!(button(&mut ctx, "ok", r));
    assert!(!ctx.is_active("ok"));
    assert!(!ctx.is_hot("ok"));
    assert_eq!(ctx.focus, Focus::Idle);
    ctx.update(Point::new(500, 500), false);
    assert!(!button(&mut ctx, "ok", r));
}

#[test]
fn button_does_not_click_on_the_press_itself() {
    let mut ctx = Context::new();
    let r = rect(0, 0, 10, 10);
    ctx.update(Point::new(5, 5), false);
    assert!(!button(&mut ctx, "ok", r));
    assert_eq!(ctx.focus, Focus::Hot("ok"));
    ctx.update(Point::new(5, 5), true);
    assert!(!button(&mut ctx, "ok", r));
    assert_eq!(ctx.focus, Focus::Active("ok"));
    ctx.update(Point::new(5, 5), true);
    assert!(!button(&mut ctx, "ok", r));
    assert_eq!(ctx.focus, Focus::Active("ok"));
}

#[test]
fn button_away_from_the_pointer_is_untouched() {
    let mut ctx = Context::new();
    let r = rect(0, 0, 10, 10);
    ctx.update(Point::new(50, 50), true);
    assert!(!button(&mut ctx, "ok", r));
    assert_eq!(ctx.focus, Focus::Idle);
    ctx.update(Point::new(50, 50), false);
    assert!(!button(&mut ctx, "ok", r));
    assert_eq!(ctx.focus, Focus::Idle);
}

#[test]
fn button_draws_outline_then_face() {
    let mut ctx = Context::new();
    let r = rect(10, 20, 30, 40);
    ctx.update(Point::new(0, 0), false);
    button(&mut ctx, "ok", r);
    assert_eq!(
        items(&mut ctx),
        vec![
            DrawItem::Rect(r, Color::transparent()),
            DrawItem::Rect(rect(12, 22, 26, 36), Color::mid_gray()),
        ]
    );
}

#[test]
fn button_face_shows_its_state() {
    let mut ctx = Context::new();
    let r = rect(0, 0, 10, 10);
    let face = rect(2, 2, 6, 6);
    ctx.update(Point::new(5, 5), false);
    button(&mut ctx, "ok", r);
    assert_eq!(items(&mut ctx)[1], DrawItem::Rect(face, Color::light_gray()));
    ctx.update(Point::new(5, 5), true);
    button(&mut ctx, "ok", r);
    assert_eq!(items(&mut ctx)[1], DrawItem::Rect(face, Color::white()));
    ctx.update(Point::new(50, 5), true);
    button(&mut ctx, "ok", r);
    assert_eq!(items(&mut ctx)[1], DrawItem::Rect(face, Color::white()));
    ctx.update(Point::new(50, 5), false);
    button(&mut ctx, "ok", r);
    assert_eq!(items(&mut ctx)[1], DrawItem::Rect(face, Color::mid_gray()));
    match items(&mut ctx)[0] {
        DrawItem::Rect(outline, color) => {
            assert_eq!(outline, r);
            assert_eq!(channels(color), [0.0, 0.0, 0.0, 0.0]);
        }
    }
}

#[test]
fn button_face_after_release_over_the_button_is_hot() {
    let mut ctx = Context::new();
    let r = rect(0, 0, 10, 10);
    ctx.update(Point::new(5, 5), true);
    button(&mut ctx, "ok", r);
    ctx.update(Point::new(5, 5), false);
    assert!(button(&mut ctx, "ok", r));
    assert_eq!(items(&mut ctx)[1], DrawItem::Rect(rect(2, 2, 6, 6), Color::light_gray()));
}

#[test]
fn two_buttons_add_four_items_in_call_order() {
    let mut ctx = Context::new();
    let a = rect(0, 0, 10, 10);
    let b = rect(20, 0, 10, 10);
    ctx.update(Point::new(25, 5), false);
    button(&mut ctx, "a", a);
    button(&mut ctx, "b", b);
    assert_eq!(
        items(&mut ctx),
        vec![
            DrawItem::Rect(a, Color::transparent()),
            DrawItem::Rect(rect(2, 2, 6, 6), Color::mid_gray()),
            DrawItem::Rect(b, Color::transparent()),
            DrawItem::Rect(rect(22, 2, 6, 6), Color::light_gray()),
        ]
    );
}

#[test]
fn overlapping_buttons_first_call_wins() {
    let mut ctx = Context::new();
    let r = rect(0, 0, 10, 10);
    ctx.update(Point::new(5, 5), false);
    button(&mut ctx, "a", r);
    button(&mut ctx, "b", r);
    assert_eq!(ctx.focus, Focus::Hot("a"));
    ctx.update(Point::new(5, 5), true);
    assert!(!button(&mut ctx, "a", r));
    assert!(!button(&mut ctx, "b", r));
    assert_eq!(ctx.focus, Focus::Active("a"));
    ctx.update(Point::new(5, 5), false);
    assert!(button(&mut ctx, "a", r));
    assert!(!button(&mut ctx, "b", r));
    assert_eq!(ctx.focus, Focus::Hot("a"));
}

#[test]
fn no_other_button_gets_focus_while_one_is_active() {
    let mut ctx = Context::new();
    let a = rect(0, 0, 10, 10);
    let b = rect(20, 0, 10, 10);
    ctx.update(Point::new(5, 5), true);
    button(&mut ctx, "a", a);
    button(&mut ctx, "b", b);
    assert_eq!(ctx.focus, Focus::Active("a"));
    ctx.update(Point::new(25, 5), true);
    assert!(!button(&mut ctx, "a", a));
    assert!(!button(&mut ctx, "b", b));
    assert_eq!(ctx.focus, Focus::Active("a"));
    assert!(!ctx.is_hot("b"));
    assert!(!ctx.is_active("b"));
    ctx.update(Point::new(25, 5), false);
    assert!(!button(&mut ctx, "b", b));
    assert_eq!(ctx.focus, Focus::Active("a"));
    assert!(button(&mut ctx, "a", a));
    assert_eq!(ctx.focus, Focus::Idle);
    ctx.update(Point::new(25, 5), false);
    assert!(!button(&mut ctx, "a", a));
    assert!(!button(&mut ctx, "b", b));
    assert_eq!(ctx.focus, Focus::Hot("b"));
}

#[test]
fn button_with_negative_size_is_hit_between_its_corners() {
    let mut ctx = Context::new();
    let r = rect(10, 10, -10, -10);
    ctx.update(Point::new(5, 5), true);
    assert!(!button(&mut ctx, "ok", r));
    assert_eq!(ctx.focus, Focus::Active("ok"));
    assert_eq!(items(&mut ctx)[1], DrawItem::Rect(rect(12, 12, -14, -14), Color::white()));
}

#[test]
fn slider_ratio_is_distance_over_height() {
    let track = rect(0, 10, 8, 100);
    assert_eq!(slider_ratio(track, Point::new(4, 35)), Ratio { num: 25, den: 100 });
    assert_eq!(value(slider_ratio(track, Point::new(4, 35))), 0.25);
    assert_eq!(slider_ratio(track, Point::new(400, 10)), Ratio { num: 0, den: 100 });
    assert_eq!(slider_ratio(track, Point::new(4, 110)), Ratio { num: 100, den: 100 });
    assert_eq!(slider_ratio(track, Point::new(4, 11)), Ratio { num: 1, den: 100 });
}

#[test]
fn slider_ratio_clamps() {
    let track = rect(0, 10, 8, 100);
    assert_eq!(slider_ratio(track, Point::new(4, -40)), Ratio { num: 0, den: 100 });
    assert_eq!(slider_ratio(track, Point::new(4, 210)), Ratio { num: 100, den: 100 });
    assert_eq!(slider_ratio(track, Point::new(4, i32::MIN)), Ratio { num: 0, den: 100 });
    assert_eq!(slider_ratio(track, Point::new(4, i32::MAX)), Ratio { num: 100, den: 100 });
}

#[test]
fn slider_ratio_of_zero_height_is_zero() {
    let track = rect(0, 10, 8, 0);
    for y in [-5, 10, 500] {
        let ratio = slider_ratio(track, Point::new(4, y));
        assert_eq!(ratio, Ratio { num: 0, den: 1 });
        assert_eq!(value(ratio), 0.0);
    }
}

#[test]
fn slider_ratio_of_negative_height_counts_upwards() {
    let track = rect(0, 100, 8, -100);
    assert_eq!(slider_ratio(track, Point::new(4, 75)), Ratio { num: 25, den: 100 });
    assert_eq!(slider_ratio(track, Point::new(4, 100)), Ratio { num: 0, den: 100 });
    assert_eq!(slider_ratio(track, Point::new(4, 150)), Ratio { num: 0, den: 100 });
    assert_eq!(slider_ratio(track, Point::new(4, 0)), Ratio { num: 100, den: 100 });
    assert_eq!(slider_ratio(track, Point::new(4, -30)), Ratio { num: 100, den: 100 });
}

#[test]
fn slider_ratio_stands_the_widest_track() {
    let down = rect(0, i32::MIN, 8, i32::MAX);
    assert_eq!(
        slider_ratio(down, Point::new(0, i32::MAX)),
        Ratio { num: i32::MAX as u32, den: i32::MAX as u32 }
    );
    let up = rect(0, i32::MAX, 8, i32::MIN);
    assert_eq!(
        slider_ratio(up, Point::new(0, i32::MIN)),
        Ratio { num: 1 << 31, den: 1 << 31 }
    );
    assert_eq!(slider_ratio(up, Point::new(0, i32::MAX - 1)), Ratio { num: 1, den: 1 << 31 });
}

#[test]
fn drag_offset_stays_on_the_track() {
    let track = rect(0, 10, 8, 100);
    assert_eq!(drag_offset(track, Point::new(4, 35)), 25);
    assert_eq!(drag_offset(track, Point::new(4, -40)), 0);
    assert_eq!(drag_offset(track, Point::new(4, 210)), 100);
    let up = rect(0, 100, 8, -100);
    assert_eq!(drag_offset(up, Point::new(4, 75)), -25);
    assert_eq!(drag_offset(up, Point::new(4, 150)), 0);
    assert_eq!(drag_offset(up, Point::new(4, -30)), -100);
    assert_eq!(drag_offset(rect(0, 10, 8, 0), Point::new(4, 99)), 0);
}

#[test]
fn drag_offset_is_the_ratio_of_the_height() {
    for &(top, height) in &[(10, 100), (100, -100), (0, 7), (3, -9), (5, 0)] {
        let track = rect(0, top, 8, height);
        for y in -120..220 {
            let p = Point::new(4, y);
            let ratio = slider_ratio(track, p);
            let offset = drag_offset(track, p) as i64;
            assert!(ratio.den > 0 && ratio.num <= ratio.den);
            assert_eq!(offset * ratio.den as i64, height as i64 * ratio.num as i64);
        }
    }
}

#[test]
fn slider_value_clamps() {
    let mut ctx = Context::new();
    let track = rect(0, 10, 8, 100);
    ctx.update(Point::new(4, 60), true);
    let picked = vertical_slider(&mut ctx, "s", track, 0);
    assert_eq!(picked.map(value), Some(0.5));
    assert!(ctx.is_active("s"));
    ctx.update(Point::new(4, 10 - 50), true);
    let picked = vertical_slider(&mut ctx, "s", track, 50);
    assert_eq!(picked.map(value), Some(0.0));
    ctx.update(Point::new(4, 10 + 200), true);
    let picked = vertical_slider(&mut ctx, "s", track, 0);
    assert_eq!(picked.map(value), Some(1.0));
}

#[test]
fn slider_leaves_the_value_alone_unless_dragged() {
    let mut ctx = Context::new();
    let track = rect(0, 10, 8, 100);
    ctx.update(Point::new(4, 60), false);
    assert_eq!(vertical_slider(&mut ctx, "s", track, 30), None);
    assert_eq!(ctx.focus, Focus::Hot("s"));
    ctx.update(Point::new(400, 60), true);
    assert_eq!(vertical_slider(&mut ctx, "s", track, 30), None);
    assert_eq!(ctx.focus, Focus::Idle);
    assert_eq!(
        items(&mut ctx),
        vec![
            DrawItem::Rect(track, Color::muted_gray()),
            DrawItem::Rect(rect(0, 40, 8, 8), Color::white()),
        ]
    );
}

#[test]
fn slider_handle_follows_the_pointer_while_dragged() {
    let mut ctx = Context::new();
    let track = rect(0, 10, 8, 100);
    ctx.update(Point::new(4, 35), true);
    assert_eq!(vertical_slider(&mut ctx, "s", track, 0), Some(Ratio { num: 25, den: 100 }));
    assert_eq!(
        items(&mut ctx),
        vec![
            DrawItem::Rect(track, Color::muted_gray()),
            DrawItem::Rect(rect(0, 35, 8, 8), Color::white()),
        ]
    );
    ctx.update(Point::new(300, 500), true);
    assert_eq!(vertical_slider(&mut ctx, "s", track, 25), Some(Ratio { num: 100, den: 100 }));
    assert_eq!(items(&mut ctx)[1], DrawItem::Rect(rect(0, 110, 8, 8), Color::white()));
    ctx.update(Point::new(300, -500), true);
    assert_eq!(vertical_slider(&mut ctx, "s", track, 100), Some(Ratio { num: 0, den: 100 }));
    assert_eq!(items(&mut ctx)[1], DrawItem::Rect(rect(0, 10, 8, 8), Color::white()));
}

#[test]
fn slider_stops_on_release() {
    let mut ctx = Context::new();
    let track = rect(0, 10, 8, 100);
    ctx.update(Point::new(4, 35), true);
    assert!(vertical_slider(&mut ctx, "s", track, 0).is_some());
    ctx.update(Point::new(4, 80), false);
    assert_eq!(vertical_slider(&mut ctx, "s", track, 25), None);
    assert_eq!(ctx.focus, Focus::Hot("s"));
    assert_eq!(items(&mut ctx)[1], DrawItem::Rect(rect(0, 35, 8, 8), Color::white()));
}

#[test]
fn slider_of_zero_height_picks_zero() {
    let mut ctx = Context::new();
    let track = rect(0, 10, 8, 0);
    ctx.update(Point::new(4, 10), true);
    let picked = vertical_slider(&mut ctx, "s", track, 0);
    assert_eq!(picked, Some(Ratio { num: 0, den: 1 }));
    assert_eq!(picked.map(value), Some(0.0));
    assert_eq!(items(&mut ctx)[1], DrawItem::Rect(rect(0, 10, 8, 8), Color::white()));
}

#[test]
fn slider_and_button_share_the_pointer() {
    let mut ctx = Context::new();
    let track = rect(0, 0, 8, 100);
    let b = rect(20, 0, 10, 10);
    ctx.update(Point::new(4, 50), true);
    assert!(!button(&mut ctx, "b", b));
    assert!(vertical_slider(&mut ctx, "s", track, 0).is_some());
    ctx.update(Point::new(25, 5), true);
    assert!(!button(&mut ctx, "b", b));
    assert!(!ctx.is_hot("b"));
    assert_eq!(vertical_slider(&mut ctx, "s", track, 50), Some(Ratio { num: 5, den: 100 }));
    ctx.update(Point::new(25, 5), false);
    assert!(!button(&mut ctx, "b", b));
    assert_eq!(vertical_slider(&mut ctx, "s", track, 5), None);
    assert_eq!(ctx.focus, Focus::Idle);
}

#[test]
fn slider_in_range_tells_when_the_handle_fits() {
    assert!(slider_in_range(rect(0, 10, 8, 100), 0));
    assert!(slider_in_range(rect(0, 10, 8, 100), -500));
    assert!(slider_in_range(rect(0, i32::MAX - 100, 8, 100), 100));
    assert!(!slider_in_range(rect(0, i32::MAX - 100, 8, 100), 101));
    assert!(!slider_in_range(rect(0, i32::MAX - 100, 8, 101), 0));
    assert!(!slider_in_range(rect(0, i32::MIN, 8, -1), 0));
    assert!(!slider_in_range(rect(0, i32::MIN, 8, 0), -1));
    assert!(slider_in_range(rect(i32::MAX, 0, i32::MAX, 0), 0));
}
