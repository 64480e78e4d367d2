//! A toggle button: a stateful widget whose boolean state flips on every
//! click and is persisted across frames through the state store.

use vstd::prelude::*;

use crate::clipping::ClippedRectangle;
use crate::components::button::spec_button_flags;
use crate::ids::opt_is_id;
use crate::store::{StoreRecord, StoredValue, WidgetKind};
use crate::store::{Stored, lemma_commit_lookup, spec_commit, spec_lookup};
use crate::{AddState, Component, UiContext, UiView, WithoutState};

verus! {

/// A toggle button; its result is its activation state after this frame.
pub struct ToggleButton {
    pub id: &'static str,
    pub pressed_state: bool,
}

/// A toggle button's per-frame visual state: the button flags plus the
/// activation state the widget resolved to.
#[derive(Clone, Copy, Debug, PartialEq, Eq, Structural)]
pub struct ToggleButtonDrawState {
    pub activated: bool,
    pub is_over: bool,
    pub is_down: bool,
    pub is_clicked: bool,
}

impl Default for ToggleButtonDrawState {
    /// All flags clear.
    fn default() -> (d: ToggleButtonDrawState)
        ensures
            d == (ToggleButtonDrawState {
                activated: false,
                is_over: false,
                is_down: false,
                is_clicked: false,
            }),
    {
        ToggleButtonDrawState { activated: false, is_over: false, is_down: false, is_clicked: false }
    }
}

impl Component<bool, ToggleButtonDrawState> for ToggleButton {
    open spec fn spec_id(&self) -> Seq<char> {
        self.id@
    }

    open spec fn spec_kind(&self) -> WidgetKind {
        WidgetKind::ToggleButton
    }

    open spec fn spec_act(&self, clip_box: ClippedRectangle, ui: UiView) -> (
        bool,
        ToggleButtonDrawState,
    ) {
        let flags = spec_button_flags(self.id@, clip_box, ui);
        let activated = if flags.is_clicked {
            !self.pressed_state
        } else {
            self.pressed_state
        };
        (
            activated,
            ToggleButtonDrawState {
                activated,
                is_over: flags.is_over,
                is_down: flags.is_down,
                is_clicked: flags.is_clicked,
            },
        )
    }

    fn id(&self) -> &'static str {
        self.id
    }

    fn kind(&self) -> WidgetKind {
        WidgetKind::ToggleButton
    }

    fn act(
        &self,
        clip_box: ClippedRectangle,
        ui_context: &mut UiContext,
        draw_state: &mut ToggleButtonDrawState,
    ) -> (r: bool) {
        let is_over = match ui_context.mouse_pos {
            Some(p) => clip_box.contains(p),
            None => false,
        };
        let is_down = is_over && opt_is_id(ui_context.mouse_down, self.id);
        let is_clicked = is_over && !is_down && opt_is_id(ui_context.mouse_was_down, self.id);
        let activated = if is_clicked {
            !self.pressed_state
        } else {
            self.pressed_state
        };
        draw_state.is_over = is_over;
        draw_state.is_down = is_down;
        draw_state.is_clicked = is_clicked;
        draw_state.activated = activated;
        activated
    }
}

impl ToggleButton {
    /// A toggle button named `id`, seeded with the given activation state.
    pub fn new(id: &'static str, pressed_state: bool) -> (t: ToggleButton)
        ensures
            t == (ToggleButton { id, pressed_state }),
    {
        ToggleButton { id, pressed_state }
    }
}

/// A toggle button named `id` with no prior state: not activated.
pub fn toggle_button(id: &'static str) -> (t: ToggleButton)
    ensures
        t == (ToggleButton { id, pressed_state: false }),
{
    ToggleButton::new(id, false)
}

impl WithoutState<bool, ToggleButtonDrawState> for ToggleButton {
    fn without_state(id: &'static str) -> ToggleButton {
        ToggleButton::new(id, false)
    }
}

impl AddState<bool, ToggleButtonDrawState> for ToggleButton {
    open spec fn spec_add_state(&self, state: bool) -> ToggleButton {
        ToggleButton { id: self.id, pressed_state: state }
    }

    fn add_state(&mut self, state: &bool) {
        self.pressed_state = *state;
    }
}

/// A toggle seeded with `prev` resolves `!prev` exactly on a click and
/// `prev` otherwise.
pub proof fn lemma_toggle_flips_on_click(
    t: ToggleButton,
    prev: bool,
    clip_box: ClippedRectangle,
    ui: UiView,
)
    ensures
        ({
            let seeded = t.spec_add_state(prev);
            let resolved = seeded.spec_act(clip_box, ui);
            &&& resolved.1.is_clicked ==> resolved.0 == !prev
            &&& !resolved.1.is_clicked ==> resolved.0 == prev
        }),
{
}

/// Two clicks return a toggle to its starting state: seeded with `prev` and
/// clicked it resolves `!prev`, and seeded with that result and clicked
/// again it resolves `prev`.
pub proof fn lemma_toggle_double_click_roundtrip(
    t: ToggleButton,
    prev: bool,
    clip1: ClippedRectangle,
    ui1: UiView,
    clip2: ClippedRectangle,
    ui2: UiView,
)
    requires
        t.spec_add_state(prev).spec_act(clip1, ui1).1.is_clicked,
        t.spec_add_state(t.spec_add_state(prev).spec_act(clip1, ui1).0).spec_act(
            clip2,
            ui2,
        ).1.is_clicked,
    ensures
        t.spec_add_state(prev).spec_act(clip1, ui1).0 == !prev,
        t.spec_add_state(t.spec_add_state(prev).spec_act(clip1, ui1).0).spec_act(clip2, ui2).0
            == prev,
{
}

/// Across a frame that resolves no click, the stored toggle value is
/// stable: committing the frame's result under the widget's key leaves the
/// seeded previous value to be read back.
pub proof fn lemma_toggle_stable_without_click(
    t: ToggleButton,
    prev: bool,
    clip_box: ClippedRectangle,
    ui: UiView,
    s: Seq<StoreRecord>,
    kind: WidgetKind,
    key: Seq<char>,
)
    requires
        !(t.spec_add_state(prev).spec_act(clip_box, ui).1.is_clicked),
    ensures
        spec_lookup(
            spec_commit(s, kind, key, t.spec_add_state(prev).spec_act(clip_box, ui).0.stored_of()),
            kind,
            key,
        ) == Option::Some(StoredValue::Bool(prev)),
{
    lemma_commit_lookup(s, kind, key, StoredValue::Bool(prev));
}

} // verus!
