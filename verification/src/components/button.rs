//! A stateless push button.
//!
//! A button reports a click on the frame after it was pressed, when the
//! pointer is still over it and the press has been released: the one-frame
//! delay is what lets a drag off the widget cancel the click.

use vstd::prelude::*;

use crate::clipping::ClippedRectangle;
use crate::events::{PointerEvent, has_press, has_release};
use crate::ids::opt_is_id;
use crate::store::WidgetKind;
use crate::{Component, UiContext, UiView};
use crate::{frame_open, spec_clip_contains_opt, widget_interaction};

verus! {

/// A push button; its result is whether it was clicked this frame.
pub struct Button {
    pub id: &'static str,
}

/// A button's per-frame visual state, recomputed on every invocation and
/// never persisted.
#[derive(Clone, Copy, Debug, PartialEq, Eq, Structural)]
pub struct ButtonDrawState {
    pub is_over: bool,
    pub is_down: bool,
    pub is_clicked: bool,
}

impl Default for ButtonDrawState {
    /// All flags clear.
    fn default() -> (d: ButtonDrawState)
        ensures
            d == (ButtonDrawState { is_over: false, is_down: false, is_clicked: false }),
    {
        ButtonDrawState { is_over: false, is_down: false, is_clicked: false }
    }
}

/// The visual flags a button with identifier `id` resolves from the
/// interaction state: hovered; down while hovered; clicked when hovered,
/// not currently down, but the press target of the previous frame.
pub open spec fn spec_button_flags(
    id: Seq<char>,
    clip_box: ClippedRectangle,
    ui: UiView,
) -> ButtonDrawState {
    let is_over = spec_clip_contains_opt(clip_box, ui.mouse_pos);
    let is_down = is_over && ui.mouse_down == Option::Some(id);
    let is_clicked = is_over && !is_down && ui.mouse_was_down == Option::Some(id);
    ButtonDrawState { is_over, is_down, is_clicked }
}

impl Component<bool, ButtonDrawState> for Button {
    open spec fn spec_id(&self) -> Seq<char> {
        self.id@
    }

    open spec fn spec_kind(&self) -> WidgetKind {
        WidgetKind::Button
    }

    open spec fn spec_act(&self, clip_box: ClippedRectangle, ui: UiView) -> (
        bool,
        ButtonDrawState,
    ) {
        let flags = spec_button_flags(self.id@, clip_box, ui);
        (flags.is_clicked, flags)
    }

    fn id(&self) -> &'static str {
        self.id
    }

    fn kind(&self) -> WidgetKind {
        WidgetKind::Button
    }

    fn act(
        &self,
        clip_box: ClippedRectangle,
        ui_context: &mut UiContext,
        draw_state: &mut ButtonDrawState,
    ) -> (r: bool) {
        let is_over = match ui_context.mouse_pos {
            Some(p) => clip_box.contains(p),
            None => false,
        };
        let is_down = is_over && opt_is_id(ui_context.mouse_down, self.id);
        let is_clicked = is_over && !is_down && opt_is_id(ui_context.mouse_was_down, self.id);
        draw_state.is_over = is_over;
        draw_state.is_down = is_down;
        draw_state.is_clicked = is_clicked;
        is_clicked
    }
}

impl Button {
    /// A button named `id`.
    pub fn new(id: &'static str) -> (b: Button)
        ensures
            b == (Button { id }),
    {
        Button { id }
    }
}

/// A button named `id`.
pub fn button(id: &'static str) -> (b: Button)
    ensures
        b == (Button { id }),
{
    Button { id }
}

/// The click is one frame delayed, never on the press frame itself: with
/// the pointer over the widget, a frame whose batch holds a press and no
/// release resolves the button down but not clicked; the next frame, whose
/// batch holds a release, with the pointer still over the widget, resolves
/// the click.
pub proof fn lemma_click_is_one_frame_delayed(
    b: Button,
    ui0: UiView,
    clip_box: ClippedRectangle,
    pos2: (i32, i32),
    batch2: Seq<PointerEvent>,
)
    requires
        spec_clip_contains_opt(clip_box, ui0.mouse_pos),
        has_press(ui0.pending),
        !has_release(ui0.pending),
        spec_clip_contains_opt(clip_box, Option::Some(pos2)),
        has_release(batch2),
    ensures
        ({
            let ui1 = widget_interaction(frame_open(ui0), b.spec_id(), clip_box);
            let press_frame = b.spec_act(clip_box, ui1).1;
            let mid = UiView { mouse_pos: Option::Some(pos2), pending: batch2, ..ui1 };
            let ui2 = widget_interaction(frame_open(mid), b.spec_id(), clip_box);
            let release_frame = b.spec_act(clip_box, ui2).1;
            &&& press_frame.is_over
            &&& press_frame.is_down
            &&& !press_frame.is_clicked
            &&& release_frame.is_over
            &&& !release_frame.is_down
            &&& release_frame.is_clicked
        }),
{
}

/// Dragging off the widget before the release cancels the click: after a
/// press frame as above, a frame with the pointer away from the widget
/// resolves no click; and a later frame back over the widget, whose batch
/// holds no new press, still resolves no click.
pub proof fn lemma_drag_off_cancels_click(
    b: Button,
    ui0: UiView,
    clip_box: ClippedRectangle,
    pos2: (i32, i32),
    batch2: Seq<PointerEvent>,
    pos3: (i32, i32),
    batch3: Seq<PointerEvent>,
)
    requires
        spec_clip_contains_opt(clip_box, ui0.mouse_pos),
        has_press(ui0.pending),
        !has_release(ui0.pending),
        !spec_clip_contains_opt(clip_box, Option::Some(pos2)),
        spec_clip_contains_opt(clip_box, Option::Some(pos3)),
        !has_press(batch3),
    ensures
        ({
            let ui1 = widget_interaction(frame_open(ui0), b.spec_id(), clip_box);
            let mid2 = UiView { mouse_pos: Option::Some(pos2), pending: batch2, ..ui1 };
            let ui2 = widget_interaction(frame_open(mid2), b.spec_id(), clip_box);
            let off_frame = b.spec_act(clip_box, ui2).1;
            let mid3 = UiView { mouse_pos: Option::Some(pos3), pending: batch3, ..ui2 };
            let ui3 = widget_interaction(frame_open(mid3), b.spec_id(), clip_box);
            let back_frame = b.spec_act(clip_box, ui3).1;
            &&& !off_frame.is_over
            &&& !off_frame.is_clicked
            &&& !back_frame.is_clicked
        }),
{
}

} // verus!
