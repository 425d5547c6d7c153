//! The frame context: the pointer sample, the focus and the draw list.

use vstd::prelude::*;
use crate::draw::DrawItem;
use crate::focus::{same_id, Focus, FocusState, Id};
use crate::geometry::Point;

verus! {

/// How many draw items the list has room for before it first grows.
pub const DRAW_LIST_CAPACITY: usize = 1000;

/// Everything the widgets of one user interface share.
///
/// The host makes one context, hands it the pointer sample at the start of
/// every frame with [`Context::update`], and lends it to each widget call in
/// turn.
pub struct Context {
    /// Where the pointer is this frame.
    pub mouse_pos: Point,
    /// Whether the pointer's button is down this frame.
    pub mouse_down: bool,
    pub focus: Focus,
    /// What the widgets called so far this frame want drawn, in call order.
    pub draw_list: Vec<DrawItem>,
}

/// A context as a plain value: ids as their text, the draw list as a sequence.
pub struct ContextState {
    pub mouse_pos: Point,
    pub mouse_down: bool,
    pub focus: FocusState,
    pub draw_list: Seq<DrawItem>,
}

impl View for Context {
    type V = ContextState;

    open spec fn view(&self) -> ContextState {
        ContextState {
            mouse_pos: self.mouse_pos,
            mouse_down: self.mouse_down,
            focus: self.focus@,
            draw_list: self.draw_list@,
        }
    }
}

impl ContextState {
    /// The context before the first frame: pointer at the origin, button up,
    /// no focus, nothing to draw.
    pub open spec fn initial() -> ContextState {
        ContextState {
            mouse_pos: Point { x: 0, y: 0 },
            mouse_down: false,
            focus: FocusState::Idle,
            draw_list: Seq::empty(),
        }
    }

    /// The context at the start of the frame whose pointer sample is
    /// `mouse_pos` and `mouse_down`.
    ///
    /// The last frame's draw items are gone, and so is its hot widget; a
    /// widget that holds the pointer keeps holding it.
    pub open spec fn after_update(self, mouse_pos: Point, mouse_down: bool) -> ContextState {
        ContextState {
            mouse_pos,
            mouse_down,
            focus: self.focus.at_frame_start(),
            draw_list: Seq::empty(),
        }
    }

    /// The same context with another focus.
    pub open spec fn with_focus(self, focus: FocusState) -> ContextState {
        ContextState { focus, ..self }
    }

    /// The same context with `item` added at the end of the draw list.
    pub open spec fn with_item(self, item: DrawItem) -> ContextState {
        ContextState { draw_list: self.draw_list.push(item), ..self }
    }
}

impl Context {
    pub fn new() -> (ctx: Context)
        ensures
            ctx@ == ContextState::initial(),
    {
        Context {
            mouse_pos: Point::zeros(),
            mouse_down: false,
            focus: Focus::Idle,
            draw_list: Vec::with_capacity(DRAW_LIST_CAPACITY),
        }
    }

    pub fn mouse_pos(&self) -> (pos: Point)
        ensures
            pos == self@.mouse_pos,
    {
        self.mouse_pos
    }

    pub fn mouse_down(&self) -> (down: bool)
        ensures
            down == self@.mouse_down,
    {
        self.mouse_down
    }

    /// The hot widget, if there is one.
    pub fn hot(&self) -> (hot: Option<Id>)
        ensures
            match hot {
                Some(id) => self@.focus.hot() == Some(id@),
                None => self@.focus.hot() is None,
            },
    {
        match self.focus {
            Focus::Hot(id) => Some(id),
            _ => None,
        }
    }

    /// Whether `id` is under the pointer while no widget holds the pointer.
    pub fn is_hot(&self, id: Id) -> (hot: bool)
        ensures
            hot == self@.focus.is_hot(id@),
    {
        match self.focus {
            Focus::Hot(held) => same_id(held, id),
            _ => false,
        }
    }

    /// Whether `id` holds the pointer.
    pub fn is_active(&self, id: Id) -> (active: bool)
        ensures
            active == self@.focus.is_active(id@),
    {
        match self.focus {
            Focus::Active(held) => same_id(held, id),
            _ => false,
        }
    }

    /// Whether `id` is hot and active at once. The focus is in one state at a
    /// time, so no id ever is.
    pub fn is_hot_and_active(&self, id: Id) -> (both: bool)
        ensures
            both == (self@.focus.is_hot(id@) && self@.focus.is_active(id@)),
            !both,
    {
        self.is_hot(id) && self.is_active(id)
    }

    /// Adds `draw_item` at the end of the draw list.
    pub fn draw(&mut self, draw_item: DrawItem)
        ensures
            final(self)@ == old(self)@.with_item(draw_item),
    {
        self.draw_list.push(draw_item)
    }

    /// Makes `id` hot, unless a widget is hot or active already.
    pub fn set_hot(&mut self, id: Id)
        ensures
            final(self)@ == old(self)@.with_focus(old(self)@.focus.claim_hot(id@)),
    {
        match self.focus {
            Focus::Idle => {
                self.focus = Focus::Hot(id);
            },
            _ => {},
        }
    }

    /// Makes `id` active, if the button is down and no widget is active
    /// already.
    pub fn set_active(&mut self, id: Id)
        ensures
            final(self)@ == old(self)@.with_focus(
                old(self)@.focus.claim_active(id@, old(self)@.mouse_down),
            ),
    {
        if self.mouse_down {
            match self.focus {
                Focus::Active(_) => {},
                _ => {
                    self.focus = Focus::Active(id);
                },
            }
        }
    }

    /// One widget call's part in the focus: widget `id` with the pointer over
    /// it or not (`hovered`).
    ///
    /// Returns whether the button was found released while `id` held the
    /// pointer, judged by the focus as it was before this call, so that a
    /// widget never gets hold of the pointer and reports its release in the
    /// same call.
    pub fn track_widget(&mut self, id: Id, hovered: bool) -> (released: bool)
        ensures
            released == old(self)@.focus.released_on(id@, old(self)@.mouse_down),
            final(self)@ == old(self)@.with_focus(
                old(self)@.focus.after_widget(id@, hovered, old(self)@.mouse_down),
            ),
    {
        let released = self.is_active(id) && !self.mouse_down;
        if released {
            self.focus = if hovered {
                Focus::Hot(id)
            } else {
                Focus::Idle
            };
        } else if hovered {
            self.set_hot(id);
            self.set_active(id);
        }
        released
    }

    /// The draw items of this frame, in the order in which they were added.
    pub fn draw_list_iter(&mut self) -> (items: std::slice::Iter<'_, DrawItem>)
        ensures
            final(self)@ == old(self)@,
            vstd::std_specs::slice::into_iter_elts(items) == old(self)@.draw_list,
    {
        self.draw_list.iter()
    }

    /// Starts a frame with the pointer at `mouse_pos` and its button down or
    /// up. To be called once per frame, before the frame's widgets.
    pub fn update(&mut self, mouse_pos: Point, mouse_down: bool)
        ensures
            final(self)@ == old(self)@.after_update(mouse_pos, mouse_down),
    {
        match self.focus {
            Focus::Active(_) => {},
            _ => {
                self.focus = Focus::Idle;
            },
        }
        self.mouse_pos = mouse_pos;
        self.mouse_down = mouse_down;
        self.draw_list.clear();
    }
}

/// Right after a frame has started, the context holds the pointer sample that
/// the frame was started with.
pub proof fn update_stores_sample(ctx: ContextState, mouse_pos: Point, mouse_down: bool)
    ensures
        ctx.after_update(mouse_pos, mouse_down).mouse_pos == mouse_pos,
        ctx.after_update(mouse_pos, mouse_down).mouse_down == mouse_down,
{
}

} // verus!
