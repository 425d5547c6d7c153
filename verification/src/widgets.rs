//! The widgets: a button and a vertical slider.
//!
//! A widget is a function. It looks at the pointer, takes its part in the
//! focus, adds its draw items and returns what happened to it this frame.

use vstd::prelude::*;
use crate::context::{Context, ContextState};
use crate::draw::{Color, DrawItem};
use crate::focus::{FocusState, Id};
use crate::geometry::{Point, Rect};

verus! {

/// How far a button's face is inset from its outline, on every side.
pub const BUTTON_MARGIN: i32 = 2;

/// The inset of a button's face as a displacement.
pub open spec fn button_inset() -> Point {
    Point { x: BUTTON_MARGIN, y: BUTTON_MARGIN }
}

/// The colour of the face of button `id`: white while it holds the pointer,
/// light gray while it is hot, mid gray otherwise.
pub open spec fn button_face(focus: FocusState, id: Seq<char>) -> Color {
    if focus.is_active(id) {
        Color::white()
    } else if focus.is_hot(id) {
        Color::light_gray()
    } else {
        Color::mid_gray()
    }
}

/// The context after a call of button `id` with outline `rect`: the focus has
/// moved on by one widget call, and the outline and the face have been added
/// to the draw list, the face in the colour of the new focus.
pub open spec fn after_button(ctx: ContextState, id: Seq<char>, rect: Rect) -> ContextState {
    let focus = ctx.focus.after_widget(id, rect.spec_contains(ctx.mouse_pos), ctx.mouse_down);
    ctx.with_focus(focus).with_item(DrawItem::Rect(rect, Color::transparent())).with_item(
        DrawItem::Rect(rect.spec_shrink(button_inset()), button_face(focus, id)),
    )
}

/// A push button. Returns whether it was clicked: whether this call found the
/// button of the pointer released while the widget held the pointer, wherever
/// the pointer is by now.
pub fn button(ctx: &mut Context, id: Id, rect: Rect) -> (clicked: bool)
    requires
        rect.can_shrink(button_inset()),
    ensures
        clicked == old(ctx)@.focus.released_on(id@, old(ctx)@.mouse_down),
        final(ctx)@ == after_button(old(ctx)@, id@, rect),
{
    let hovered = rect.contains(ctx.mouse_pos());
    let clicked = ctx.track_widget(id, hovered);
    ctx.draw(DrawItem::Rect(rect, Color::transparent()));
    let face = if ctx.is_active(id) {
        Color::white()
    } else if ctx.is_hot(id) {
        Color::light_gray()
    } else {
        Color::mid_gray()
    };
    ctx.draw(DrawItem::Rect(rect.shrink(Point::new(BUTTON_MARGIN, BUTTON_MARGIN)), face));
    clicked
}

/// `value`, or the nearer of `low` and `high` where it lies outside them.
pub open spec fn clamp(value: int, low: int, high: int) -> int {
    if value < low {
        low
    } else if value > high {
        high
    } else {
        value
    }
}

/// A number from 0 to 1, held exactly as the fraction `num / den`.
#[derive(Clone, Copy, Debug, PartialEq, Eq, Structural)]
pub struct Ratio {
    pub num: u32,
    pub den: u32,
}

impl Ratio {
    /// Whether the fraction is defined and lies between 0 and 1.
    pub open spec fn is_valid(self) -> bool {
        0 < self.den && self.num <= self.den
    }
}

/// How far below the top of the track `rect` the pointer is, kept within the
/// track. For a track of negative height, which reaches upwards from
/// `rect.position`, the distance is negative or zero.
pub open spec fn spec_drag_offset(rect: Rect, mouse_pos: Point) -> int {
    let distance = mouse_pos.y - rect.position.y;
    let height = rect.size.y as int;
    if height >= 0 {
        clamp(distance, 0, height)
    } else {
        clamp(distance, height, 0)
    }
}

/// The value that the pointer picks on the track `rect`: its distance from the
/// top of the track over the track's height, limited to the range from 0 to 1.
/// A track of height 0 gives 0.
pub open spec fn spec_slider_ratio(rect: Rect, mouse_pos: Point) -> Ratio {
    let height = rect.size.y as int;
    if height == 0 {
        Ratio { num: 0, den: 1 }
    } else if height > 0 {
        Ratio { num: spec_drag_offset(rect, mouse_pos) as u32, den: height as u32 }
    } else {
        Ratio { num: (-spec_drag_offset(rect, mouse_pos)) as u32, den: (-height) as u32 }
    }
}

/// Where the handle of a slider sits while it is dragged: the pointer's
/// distance from the top of the track, kept within the track.
pub fn drag_offset(rect: Rect, mouse_pos: Point) -> (offset: i32)
    ensures
        offset == spec_drag_offset(rect, mouse_pos),
{
    let distance: i64 = mouse_pos.y as i64 - rect.position.y as i64;
    let height: i64 = rect.size.y as i64;
    let (low, high): (i64, i64) = if height >= 0 {
        (0, height)
    } else {
        (height, 0)
    };
    if distance < low {
        low as i32
    } else if distance > high {
        high as i32
    } else {
        distance as i32
    }
}

/// The value that the pointer picks on the track `rect`.
pub fn slider_ratio(rect: Rect, mouse_pos: Point) -> (ratio: Ratio)
    ensures
        ratio == spec_slider_ratio(rect, mouse_pos),
        ratio.is_valid(),
{
    let height: i64 = rect.size.y as i64;
    let offset: i64 = drag_offset(rect, mouse_pos) as i64;
    if height == 0 {
        Ratio { num: 0, den: 1 }
    } else if height > 0 {
        Ratio { num: offset as u32, den: height as u32 }
    } else {
        Ratio { num: (-offset) as u32, den: (-height) as u32 }
    }
}

/// The picked value is the pointer's distance from the top of the track over
/// the track's height, limited to the range from 0 to 1: it is 0 where the
/// quotient is 0 or less, 1 where the quotient is 1 or more, and the quotient
/// itself in between.
pub proof fn slider_ratio_is_clamped_quotient(rect: Rect, mouse_pos: Point)
    requires
        rect.size.y != 0,
    ensures
        ({
            let distance = mouse_pos.y - rect.position.y;
            let height = rect.size.y as int;
            let ratio = spec_slider_ratio(rect, mouse_pos);
            let at_most_zero = (height > 0 && distance <= 0) || (height < 0 && distance >= 0);
            let at_least_one = (height > 0 && distance >= height) || (height < 0 && distance
                <= height);
            &&& ratio.is_valid()
            &&& at_most_zero ==> ratio.num == 0
            &&& at_least_one ==> ratio.num == ratio.den
            &&& !at_most_zero && !at_least_one ==> ratio.num * height == distance * ratio.den
        }),
{
    let distance = mouse_pos.y - rect.position.y;
    let height = rect.size.y as int;
    let ratio = spec_slider_ratio(rect, mouse_pos);
    if height > 0 && 0 < distance < height {
        assert(ratio.num * height == distance * ratio.den) by (nonlinear_arith)
            requires
                ratio.num == distance,
                ratio.den == height,
        ;
    }
    if height < 0 && height < distance < 0 {
        assert(ratio.num * height == distance * ratio.den) by (nonlinear_arith)
            requires
                ratio.num == -distance,
                ratio.den == -height,
        ;
    }
}

/// A dragged handle sits at the picked share of the track's height exactly:
/// the offset is the height times the ratio, with nothing to round.
pub proof fn drag_offset_is_height_times_ratio(rect: Rect, mouse_pos: Point)
    ensures
        spec_drag_offset(rect, mouse_pos) * spec_slider_ratio(rect, mouse_pos).den == rect.size.y
            * spec_slider_ratio(rect, mouse_pos).num,
{
    let offset = spec_drag_offset(rect, mouse_pos);
    let height = rect.size.y as int;
    let ratio = spec_slider_ratio(rect, mouse_pos);
    if height > 0 {
        assert(offset * ratio.den == height * ratio.num) by (nonlinear_arith)
            requires
                ratio.num == offset,
                ratio.den == height,
        ;
    } else if height < 0 {
        assert(offset * ratio.den == height * ratio.num) by (nonlinear_arith)
            requires
                ratio.num == -offset,
                ratio.den == -height,
        ;
    } else {
        assert(offset * ratio.den == height * ratio.num) by (nonlinear_arith)
            requires
                offset == 0,
                height == 0,
        ;
    }
}

/// The handle of the slider with track `rect`, `offset` below the top of the
/// track: a square as wide as the track.
pub open spec fn slider_handle(rect: Rect, offset: int) -> Rect {
    Rect {
        position: Point { x: rect.position.x, y: (rect.position.y + offset) as i32 },
        size: Point { x: rect.size.x, y: rect.size.x },
    }
}

/// Whether slider `id` is dragged in a call that leaves the focus at `focus`.
pub open spec fn slider_dragged(focus: FocusState, id: Seq<char>, mouse_down: bool) -> bool {
    focus.is_active(id) && mouse_down
}

/// The value that a call of slider `id` picks: the pointer's place on the
/// track while the slider is dragged, none otherwise.
pub open spec fn slider_pick(ctx: ContextState, id: Seq<char>, rect: Rect) -> Option<Ratio> {
    let focus = ctx.focus.after_widget(id, rect.spec_contains(ctx.mouse_pos), ctx.mouse_down);
    if slider_dragged(focus, id, ctx.mouse_down) {
        Some(spec_slider_ratio(rect, ctx.mouse_pos))
    } else {
        None
    }
}

/// The context after a call of slider `id` with track `rect`: the focus has
/// moved on by one widget call, and the track and the handle have been added
/// to the draw list. The handle follows the pointer while the slider is
/// dragged and sits at `current_offset` otherwise.
pub open spec fn after_slider(
    ctx: ContextState,
    id: Seq<char>,
    rect: Rect,
    current_offset: i32,
) -> ContextState {
    let focus = ctx.focus.after_widget(id, rect.spec_contains(ctx.mouse_pos), ctx.mouse_down);
    let offset = if slider_dragged(focus, id, ctx.mouse_down) {
        spec_drag_offset(rect, ctx.mouse_pos)
    } else {
        current_offset as int
    };
    ctx.with_focus(focus).with_item(DrawItem::Rect(rect, Color::muted_gray())).with_item(
        DrawItem::Rect(slider_handle(rect, offset), Color::white()),
    )
}

/// Whether the slider with track `rect` can place its handle in the range of
/// `i32`, both anywhere on the track and at `current_offset`.
pub open spec fn spec_slider_in_range(rect: Rect, current_offset: i32) -> bool {
    &&& i32::MIN <= rect.max_y() <= i32::MAX
    &&& i32::MIN <= rect.position.y + current_offset <= i32::MAX
}

/// Whether [`vertical_slider`] can be called with this track and offset.
#[verifier::when_used_as_spec(spec_slider_in_range)]
pub fn slider_in_range(rect: Rect, current_offset: i32) -> (fits: bool)
    ensures
        fits == spec_slider_in_range(rect, current_offset),
{
    let far: i64 = rect.position.y as i64 + rect.size.y as i64;
    let resting: i64 = rect.position.y as i64 + current_offset as i64;
    let low: i64 = i32::MIN as i64;
    let high: i64 = i32::MAX as i64;
    low <= far && far <= high && low <= resting && resting <= high
}

/// While `holder` holds the pointer, a call of another widget `id` changes
/// nothing but the draw list: the focus stays, the button reports no click and
/// the slider picks no value.
pub proof fn widgets_respect_capture(
    ctx: ContextState,
    holder: Seq<char>,
    id: Seq<char>,
    rect: Rect,
    current_offset: i32,
)
    requires
        ctx.focus.is_active(holder),
        id != holder,
    ensures
        after_button(ctx, id, rect).focus == ctx.focus,
        after_slider(ctx, id, rect, current_offset).focus == ctx.focus,
        !ctx.focus.released_on(id, ctx.mouse_down),
        slider_pick(ctx, id, rect) is None,
{
}

/// A vertical slider. The widget keeps no value: the caller holds it, and
/// says with `current_offset` where the handle sits for that value, as a
/// distance below the top of the track.
///
/// While the slider is dragged the call returns the value that the pointer
/// picks, for the caller to take over. Otherwise it returns `None` and the
/// caller's value stands.
pub fn vertical_slider(ctx: &mut Context, id: Id, rect: Rect, current_offset: i32) -> (picked:
    Option<Ratio>)
    requires
        slider_in_range(rect, current_offset),
    ensures
        picked == slider_pick(old(ctx)@, id@, rect),
        final(ctx)@ == after_slider(old(ctx)@, id@, rect, current_offset),
{
    let hovered = rect.contains(ctx.mouse_pos());
    let _released = ctx.track_widget(id, hovered);
    ctx.draw(DrawItem::Rect(rect, Color::muted_gray()));
    let dragged = ctx.is_active(id) && ctx.mouse_down();
    let picked = if dragged {
        Some(slider_ratio(rect, ctx.mouse_pos()))
    } else {
        None
    };
    let offset = if dragged {
        drag_offset(rect, ctx.mouse_pos())
    } else {
        current_offset
    };
    let handle = Rect::new(
        Point::new(rect.position.x, rect.position.y + offset),
        Point::new(rect.width(), rect.width()),
    );
    ctx.draw(DrawItem::Rect(handle, Color::white()));
    picked
}

} // verus!
