//! The focus: which widget, if any, is under the pointer or holds it.
//!
//! The focus is one value with three states, so a widget is never hot while
//! another one is active, and two widgets are never active together. Every
//! rule by which it changes is a function of [`FocusState`] below, and the
//! executable operations are specified by those functions.

use vstd::prelude::*;
use vstd::utf8::encode_utf8_decode_utf8;

verus! {

/// The name of a widget instance. Two ids name the same widget exactly when
/// they are the same text.
pub type Id = &'static str;

/// Whether `a` and `b` are the same text.
pub fn same_id(a: &str, b: &str) -> (same: bool)
    ensures
        same == (a@ == b@),
{
    let left = a.as_bytes();
    let right = b.as_bytes();
    proof {
        // Texts with the same bytes are the same: decoding recovers each.
        encode_utf8_decode_utf8(a@);
        encode_utf8_decode_utf8(b@);
    }
    if left.len() != right.len() {
        return false;
    }
    let mut i: usize = 0;
    while i < left.len()
        invariant
            i <= left.len(),
            left.len() == right.len(),
            left@ == vstd::utf8::encode_utf8(a@),
            right@ == vstd::utf8::encode_utf8(b@),
            forall|j: int| 0 <= j < i ==> left@[j] == right@[j],
        decreases left.len() - i,
    {
        if left[i] != right[i] {
            return false;
        }
        i += 1;
    }
    assert(left@ =~= right@);
    true
}

/// The focus as the widgets see it.
#[derive(Clone, Copy, Debug, PartialEq, Eq)]
pub enum Focus {
    /// No widget is under the pointer or holds it.
    Idle,
    /// The widget is under the pointer and no widget holds the pointer.
    Hot(Id),
    /// The widget holds the pointer: it was pressed and the button has not
    /// been released on it yet, wherever the pointer is now.
    Active(Id),
}

/// The focus with each id taken as its text.
pub enum FocusState {
    Idle,
    Hot(Seq<char>),
    Active(Seq<char>),
}

impl View for Focus {
    type V = FocusState;

    open spec fn view(&self) -> FocusState {
        match *self {
            Focus::Idle => FocusState::Idle,
            Focus::Hot(id) => FocusState::Hot(id@),
            Focus::Active(id) => FocusState::Active(id@),
        }
    }
}

impl FocusState {
    pub open spec fn is_hot(self, id: Seq<char>) -> bool {
        self == FocusState::Hot(id)
    }

    pub open spec fn is_active(self, id: Seq<char>) -> bool {
        self == FocusState::Active(id)
    }

    /// The hot widget, if there is one.
    pub open spec fn hot(self) -> Option<Seq<char>> {
        match self {
            FocusState::Hot(id) => Some(id),
            _ => None,
        }
    }

    /// The focus at the start of a frame: hot has to be earned again, a held
    /// pointer stays held.
    pub open spec fn at_frame_start(self) -> FocusState {
        match self {
            FocusState::Active(id) => FocusState::Active(id),
            _ => FocusState::Idle,
        }
    }

    /// The focus after `id` asked to be hot. The first claim of a frame wins,
    /// and no widget becomes hot while the pointer is held.
    pub open spec fn claim_hot(self, id: Seq<char>) -> FocusState {
        match self {
            FocusState::Idle => FocusState::Hot(id),
            _ => self,
        }
    }

    /// The focus after `id` asked to hold the pointer. It gets hold of it when
    /// the button is down and no widget holds it already.
    pub open spec fn claim_active(self, id: Seq<char>, mouse_down: bool) -> FocusState {
        if mouse_down && !(self is Active) {
            FocusState::Active(id)
        } else {
            self
        }
    }

    /// Whether a call of widget `id` finds the button released while the
    /// widget held the pointer.
    pub open spec fn released_on(self, id: Seq<char>, mouse_down: bool) -> bool {
        self.is_active(id) && !mouse_down
    }

    /// The focus after one call of widget `id`, with the pointer over the
    /// widget or not (`hovered`) and the button down or up.
    ///
    /// The widget that held the pointer lets go of it once the button is up,
    /// and is hot afterwards if the pointer is still over it. Otherwise a
    /// widget under the pointer claims hot, then the pointer.
    pub open spec fn after_widget(self, id: Seq<char>, hovered: bool, mouse_down: bool) -> FocusState {
        if self.released_on(id, mouse_down) {
            if hovered {
                FocusState::Hot(id)
            } else {
                FocusState::Idle
            }
        } else if hovered {
            self.claim_hot(id).claim_active(id, mouse_down)
        } else {
            self
        }
    }
}

/// At most one widget is active: if `a` and `b` are both active, they are the
/// same widget.
pub proof fn active_is_unique(focus: FocusState, a: Seq<char>, b: Seq<char>)
    requires
        focus.is_active(a),
        focus.is_active(b),
    ensures
        a == b,
{
}

/// While `holder` is active no other widget becomes hot or active: a claim by
/// another widget `id`, a call of that widget, and the start of a frame all
/// leave the focus as it is.
pub proof fn capture_excludes_others(
    focus: FocusState,
    holder: Seq<char>,
    id: Seq<char>,
    hovered: bool,
    mouse_down: bool,
)
    requires
        focus.is_active(holder),
        id != holder,
    ensures
        focus.claim_hot(id) == focus,
        focus.claim_active(id, mouse_down) == focus,
        focus.after_widget(id, hovered, mouse_down) == focus,
        focus.at_frame_start() == focus,
{
}

/// An active widget stays active, under the pointer or not, for as long as the
/// button is down, and only its own call with the button up ends that.
pub proof fn capture_lasts_until_release(
    focus: FocusState,
    holder: Seq<char>,
    hovered: bool,
    mouse_down: bool,
)
    requires
        focus.is_active(holder),
    ensures
        focus.at_frame_start() == focus,
        focus.claim_hot(holder) == focus,
        focus.claim_active(holder, mouse_down) == focus,
        mouse_down ==> focus.after_widget(holder, hovered, mouse_down) == focus,
        !mouse_down && hovered ==> focus.after_widget(holder, hovered, mouse_down)
            == FocusState::Hot(holder),
        !mouse_down && !hovered ==> focus.after_widget(holder, hovered, mouse_down)
            == FocusState::Idle,
{
}

/// A release is reported once: the call of widget `id` that finds the button
/// released ends the hold, so the widget's next call reports none, be it in
/// the same frame or after the next frame has started.
pub proof fn release_is_reported_once(
    focus: FocusState,
    id: Seq<char>,
    hovered: bool,
    mouse_down: bool,
    next_down: bool,
)
    requires
        focus.released_on(id, mouse_down),
    ensures
        !focus.after_widget(id, hovered, mouse_down).released_on(id, next_down),
        !focus.after_widget(id, hovered, mouse_down).at_frame_start().released_on(id, next_down),
{
}

} // verus!
