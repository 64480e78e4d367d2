//! An immediate-mode UI dispatch layer: the host describes its widgets
//! afresh every frame, while the library tracks cross-frame interaction
//! state (hover, press, click, toggle) and per-widget persisted results
//! keyed by a stable identifier.
//!
//! The host pushes raw input events into a [`UiContext`] between frames; at
//! render time it opens a frame session with [`UiContext::with_graphics`],
//! invokes each widget through the session, and closes the session with
//! [`FrameUiContext::finish`]. All interaction-state mutation funnels
//! through an open session.

use vstd::prelude::*;

mod clipping;
mod components;
mod events;
mod ids;
mod store;

pub use clipping::{ClippedRectangle, Rectangle, raw_rect};
pub use clipping::{spec_clip_contains, spec_rect_contains, spec_rect_intersects};
pub use components::button::{Button, ButtonDrawState, button};
pub use components::toggle_button::{ToggleButton, ToggleButtonDrawState, toggle_button};
pub use events::{InputEvent, MouseButton, PointerEvent, has_press, has_release};
pub use ids::opt_id_view;
pub use store::{StoreEntry, StoreRecord, Stored, StoredValue, WidgetKind};
pub use store::{count_id, spec_commit, spec_forget, spec_lookup, spec_seed};

use events::{contains_pressed, contains_released};
use ids::opt_is_id;
use store::{store_commit, store_forget, store_lookup, store_view};

verus! {

/// The mathematical state of a UI context: identifier slots as character
/// sequences, the pointer position, the pending and active event batches,
/// and the persisted store as records.
#[verifier::ext_equal]
pub ghost struct UiView {
    pub mouse_over: Option<Seq<char>>,
    pub mouse_down: Option<Seq<char>>,
    pub mouse_was_down: Option<Seq<char>>,
    pub mouse_up: Option<Seq<char>>,
    pub mouse_pos: Option<(i32, i32)>,
    pub pending: Seq<PointerEvent>,
    pub active: Seq<PointerEvent>,
    pub stored: Seq<StoreRecord>,
}

/// The UI context: global single-slot trackers of which widget is hovered,
/// pressed, was pressed last frame, and released; the tracked pointer
/// position; the event queues; and the persisted state store. One instance
/// lives as long as the application.
pub struct UiContext {
    pub mouse_over: Option<&'static str>,
    pub mouse_down: Option<&'static str>,
    pub mouse_was_down: Option<&'static str>,
    pub mouse_up: Option<&'static str>,
    pub stored: Vec<StoreEntry>,
    pub mouse_pos: Option<(i32, i32)>,
    pub event_queue: Vec<PointerEvent>,
    pub active_events: Vec<PointerEvent>,
}

impl View for UiContext {
    type V = UiView;

    open spec fn view(&self) -> UiView {
        UiView {
            mouse_over: opt_id_view(self.mouse_over),
            mouse_down: opt_id_view(self.mouse_down),
            mouse_was_down: opt_id_view(self.mouse_was_down),
            mouse_up: opt_id_view(self.mouse_up),
            mouse_pos: self.mouse_pos,
            pending: self.event_queue@,
            active: self.active_events@,
            stored: store_view(self.stored@),
        }
    }
}

/// A pointer position, possibly still unknown, hits a clipped rectangle;
/// an unknown position hits nothing.
pub open spec fn spec_clip_contains_opt(c: ClippedRectangle, pos: Option<(i32, i32)>) -> bool {
    match pos {
        Option::None => false,
        Option::Some(p) => spec_clip_contains(c, p.0 as int, p.1 as int),
    }
}

/// The frame-boundary transition, taken once per frame before any widget is
/// processed: the previous frame's press target is copied forward, the
/// hovered/pressed/released slots are cleared, and the pending event queue
/// is swapped into the active batch.
pub open spec fn frame_open(ui: UiView) -> UiView {
    UiView {
        mouse_over: Option::None,
        mouse_down: Option::None,
        mouse_was_down: ui.mouse_down,
        mouse_up: Option::None,
        mouse_pos: ui.mouse_pos,
        pending: Seq::empty(),
        active: ui.pending,
        stored: ui.stored,
    }
}

/// The hover/press/release bookkeeping one widget invocation performs: when
/// the pointer is over the widget's clipped rectangle, the widget takes the
/// hovered slot; it takes the pressed slot if it was the previous frame's
/// press target or the active batch holds a press; and a release in the
/// batch moves it to the released slot and clears the pressed slot.
pub open spec fn widget_interaction(ui: UiView, id: Seq<char>, clip: ClippedRectangle) -> UiView {
    if spec_clip_contains_opt(clip, ui.mouse_pos) {
        let hovered = UiView { mouse_over: Option::Some(id), ..ui };
        let pressed = if hovered.mouse_was_down == Option::Some(id) || has_press(hovered.active) {
            UiView { mouse_down: Option::Some(id), mouse_was_down: Option::Some(id), ..hovered }
        } else {
            hovered
        };
        if has_release(pressed.active) {
            UiView { mouse_up: Option::Some(id), mouse_down: Option::None, ..pressed }
        } else {
            pressed
        }
    } else {
        ui
    }
}

/// What classifying one raw event does: pointer motion updates the tracked
/// position at once and queues a move event; presses and releases are
/// queued unchanged; every other event kind is dropped.
pub open spec fn spec_add_event(ui: UiView, e: InputEvent) -> UiView {
    match e {
        InputEvent::MouseMove { x, y } => UiView {
            mouse_pos: Option::Some((x, y)),
            pending: ui.pending.push(PointerEvent::Move(x, y)),
            ..ui
        },
        InputEvent::MousePress(b) => UiView {
            pending: ui.pending.push(PointerEvent::Press(b)),
            ..ui
        },
        InputEvent::MouseRelease(b) => UiView {
            pending: ui.pending.push(PointerEvent::Release(b)),
            ..ui
        },
        InputEvent::Other => ui,
    }
}

/// The abstraction every widget kind implements: a stable identifier, a
/// kind tag for the persisted store, and an `act` operation that resolves
/// the widget's result and visual state from the current interaction state.
pub trait Component<R, D: Default>: Sized {
    /// The widget's stable identifier, as its character contents.
    spec fn spec_id(&self) -> Seq<char>;

    /// The widget's kind tag, one per widget type.
    spec fn spec_kind(&self) -> WidgetKind;

    /// What `act` resolves, as a function of the clip rectangle and the
    /// interaction state: the result value and the visual state.
    spec fn spec_act(&self, clip_box: ClippedRectangle, ui: UiView) -> (R, D);

    /// The stable identifier; pure, and the same across frames.
    fn id(&self) -> (r: &'static str)
        ensures
            r@ == self.spec_id(),
    ;

    /// The kind tag.
    fn kind(&self) -> (k: WidgetKind)
        ensures
            k == self.spec_kind(),
    ;

    /// Resolves the widget for this frame: reads the interaction state,
    /// fills in the visual state, and returns the result value. Call at
    /// most once per widget invocation per frame.
    fn act(&self, clip_box: ClippedRectangle, ui_context: &mut UiContext, draw_state: &mut D) -> (r:
        R)
        ensures
            final(ui_context)@ == old(ui_context)@,
            (r, *final(draw_state)) == self.spec_act(clip_box, old(ui_context)@),
    ;
}

/// A stateful widget: one that can be seeded with its previous frame's
/// result before acting.
pub trait AddState<R, D: Default>: Component<R, D> {
    /// The widget as seeded with a previous result.
    spec fn spec_add_state(&self, state: R) -> Self;

    /// Seeds the widget with last frame's result.
    fn add_state(&mut self, state: &R)
        ensures
            *final(self) == old(self).spec_add_state(*state),
    ;
}

/// A stateful widget that can also be constructed with no prior state.
pub trait WithoutState<R, D: Default>: Component<R, D> {
    /// Constructs the widget carrying the given identifier and no prior
    /// state.
    fn without_state(id: &'static str) -> (r: Self)
        ensures
            r.spec_id() == id@,
    ;
}

impl UiContext {
    /// A fresh context: no slot taken, no events, an empty store, and the
    /// pointer position still unknown.
    pub fn new() -> (c: UiContext)
        ensures
            c@ == (UiView {
                mouse_over: Option::None,
                mouse_down: Option::None,
                mouse_was_down: Option::None,
                mouse_up: Option::None,
                mouse_pos: Option::None,
                pending: Seq::<PointerEvent>::empty(),
                active: Seq::<PointerEvent>::empty(),
                stored: Seq::<StoreRecord>::empty(),
            }),
    {
        let c = UiContext {
            mouse_over: None,
            mouse_down: None,
            mouse_was_down: None,
            mouse_up: None,
            stored: Vec::new(),
            event_queue: Vec::new(),
            active_events: Vec::new(),
            mouse_pos: None,
        };
        proof {
            assert(store_view(c.stored@) =~= Seq::<StoreRecord>::empty());
        }
        c
    }

    /// Classifies one raw event: pointer motion updates the tracked position
    /// immediately and is queued; presses and releases are queued; all other
    /// event kinds are ignored as out of scope.
    pub fn add_event(&mut self, event: &InputEvent)
        ensures
            final(self)@ == spec_add_event(old(self)@, *event),
    {
        match *event {
            InputEvent::MouseMove { x, y } => {
                self.mouse_pos = Some((x, y));
                self.event_queue.push(PointerEvent::Move(x, y));
            },
            InputEvent::MousePress(b) => {
                self.event_queue.push(PointerEvent::Press(b));
            },
            InputEvent::MouseRelease(b) => {
                self.event_queue.push(PointerEvent::Release(b));
            },
            InputEvent::Other => {},
        }
    }

    /// Removes the first stored entry whose identifier matches, whatever its
    /// kind; a no-op if no identifier matches. Callers discard widgets by
    /// logical identity, e.g. when a UI node is torn down.
    pub fn forget(&mut self, id: &'static str)
        ensures
            final(self)@ == (UiView { stored: spec_forget(old(self)@.stored, id@), ..old(self)@ }),
    {
        store_forget(&mut self.stored, id);
    }

    /// Opens the frame session for one rendered frame: performs the
    /// frame-boundary transition and hands back the session that all widget
    /// invocations of this frame go through. The context is given back by
    /// [`FrameUiContext::finish`], so no interaction state can change
    /// outside a session.
    pub fn with_graphics(self) -> (f: FrameUiContext)
        ensures
            f@ == frame_open(self@),
    {
        let mut ui = self;
        core::mem::swap(&mut ui.event_queue, &mut ui.active_events);
        ui.mouse_was_down = ui.mouse_down;
        ui.mouse_over = None;
        ui.mouse_down = None;
        ui.mouse_up = None;
        ui.event_queue.clear();
        FrameUiContext { ui }
    }
}

/// A frame session: scoped to one rendered frame, it owns the context for
/// the frame's duration, resolves each widget invocation in call order, and
/// invokes the external draw routine with the resolved visual state.
pub struct FrameUiContext {
    ui: UiContext,
}

impl View for FrameUiContext {
    type V = UiView;

    closed spec fn view(&self) -> UiView {
        self.ui@
    }
}

impl FrameUiContext {
    /// Resolves one (stateless) widget invocation: hit test and
    /// hover/press/release bookkeeping, then the widget's `act`, then the
    /// external draw routine with the resolved visual state.
    pub fn with<R, D: Default, C: Component<R, D>, F: FnOnce(ClippedRectangle, D)>(
        &mut self,
        component: C,
        clipping: ClippedRectangle,
        drawfn: F,
    ) -> (ret: R)
        requires
            forall|c: ClippedRectangle, d: D| call_requires(drawfn, (c, d)),
        ensures
            final(self)@ == widget_interaction(old(self)@, component.spec_id(), clipping),
            ret == component.spec_act(
                clipping,
                widget_interaction(old(self)@, component.spec_id(), clipping),
            ).0,
    {
        let id = component.id();
        let over = match self.ui.mouse_pos {
            Some(p) => clipping.contains(p),
            None => false,
        };
        if over {
            self.ui.mouse_over = Some(id);
            if opt_is_id(self.ui.mouse_was_down, id) || contains_pressed(&self.ui.active_events) {
                self.ui.mouse_down = Some(id);
                self.ui.mouse_was_down = Some(id);
            }
            if contains_released(&self.ui.active_events) {
                self.ui.mouse_up = Some(id);
                self.ui.mouse_down = None;
            }
        }
        assert(self@ =~= widget_interaction(old(self)@, component.spec_id(), clipping));
        let mut draw_state: D = Default::default();
        let ret = component.act(clipping, &mut self.ui, &mut draw_state);
        drawfn(clipping, draw_state);
        ret
    }

    /// Resolves one stateful widget invocation: loads the last committed
    /// result under the widget's (kind, identifier) key — falling back to
    /// the default on a first sight or a kind mismatch — seeds the widget,
    /// resolves it as [`Self::with`] does, and commits the fresh result.
    pub fn with_stored<R: Stored, D: Default, C: AddState<R, D>, F: FnOnce(ClippedRectangle, D)>(
        &mut self,
        component: C,
        clipping: ClippedRectangle,
        drawfn: F,
    ) -> (ret: R)
        requires
            forall|c: ClippedRectangle, d: D| call_requires(drawfn, (c, d)),
        ensures
            ({
                let key_id = component.spec_id();
                let kind = component.spec_kind();
                let seeded = component.spec_add_state(
                    spec_seed::<R>(spec_lookup(old(self)@.stored, kind, key_id)),
                );
                let ui2 = widget_interaction(old(self)@, seeded.spec_id(), clipping);
                &&& ret == seeded.spec_act(clipping, ui2).0
                &&& final(self)@ == (UiView {
                    stored: spec_commit(ui2.stored, kind, key_id, ret.stored_of()),
                    ..ui2
                })
            }),
    {
        let id = component.id();
        let kind = component.kind();
        let ghost key_id: Seq<char> = component.spec_id();
        let mut component = component;
        let found = store_lookup(&self.ui.stored, kind, id);
        let seed: R = match found {
            Some(v) => match R::from_stored(&v) {
                Some(r) => r,
                None => R::default_value(),
            },
            None => R::default_value(),
        };
        component.add_state(&seed);
        let ret = self.with(component, clipping, drawfn);
        let ghost ui2: UiView = self@;
        let committed = ret.to_stored();
        store_commit(&mut self.ui.stored, kind, id, committed);
        proof {
            assert(self@ =~= (UiView {
                stored: spec_commit(ui2.stored, kind, key_id, ret.stored_of()),
                ..ui2
            }));
        }
        ret
    }

    /// Closes the session, handing the context back for the next frame.
    pub fn finish(self) -> (c: UiContext)
        ensures
            c@ == self@,
    {
        self.ui
    }
}

} // verus!
