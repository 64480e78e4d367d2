use iui::{ButtonDrawState, InputEvent, MouseButton, PointerEvent, UiContext, button, raw_rect};

#[test]
fn end_to_end_press_release_click() {
    let clip = raw_rect(0, 0, 50, 50);
    let mut ctx = UiContext::new();

    // Frame 1: pointer at (10, 10), no button events.
    ctx.add_event(&InputEvent::MouseMove { x: 10, y: 10 });
    let mut frame = ctx.with_graphics();
    let mut seen: Option<ButtonDrawState> = None;
    let clicked = frame.with(button("b"), clip, |_c, d| seen = Some(d));
    let d = seen.unwrap();
    assert!(d.is_over);
    assert!(!d.is_down);
    assert!(!d.is_clicked);
    assert!(!clicked);
    ctx = frame.finish();

    // Frame 2: press while the pointer is still at (10, 10).
    ctx.add_event(&InputEvent::MousePress(MouseButton::Left));
    let mut frame = ctx.with_graphics();
    let mut seen: Option<ButtonDrawState> = None;
    let clicked = frame.with(button("b"), clip, |_c, d| seen = Some(d));
    let d = seen.unwrap();
    assert!(d.is_over);
    assert!(d.is_down);
    assert!(!d.is_clicked);
    assert!(!clicked);
    ctx = frame.finish();

    // Frame 3: release, pointer still at (10, 10): the click resolves now.
    ctx.add_event(&InputEvent::MouseRelease(MouseButton::Left));
    let mut frame = ctx.with_graphics();
    let mut seen: Option<ButtonDrawState> = None;
    let clicked = frame.with(button("b"), clip, |_c, d| seen = Some(d));
    let d = seen.unwrap();
    assert!(d.is_over);
    assert!(!d.is_down);
    assert!(d.is_clicked);
    assert!(clicked);
    ctx = frame.finish();

    // Frame 4: nothing new; the click was for one frame only.
    let mut frame = ctx.with_graphics();
    let clicked = frame.with(button("b"), clip, |_c, _d| ());
    assert!(!clicked);
    frame.finish();
}

#[test]
fn drag_off_before_release_cancels_click() {
    let clip = raw_rect(0, 0, 50, 50);
    let mut ctx = UiContext::new();

    // Frame 1: press while hovering.
    ctx.add_event(&InputEvent::MouseMove { x: 10, y: 10 });
    ctx.add_event(&InputEvent::MousePress(MouseButton::Left));
    let mut frame = ctx.with_graphics();
    let clicked = frame.with(button("b"), clip, |_c, _d| ());
    assert!(!clicked);
    ctx = frame.finish();

    // Frame 2: pointer leaves the widget before any release.
    ctx.add_event(&InputEvent::MouseMove { x: 100, y: 100 });
    ctx.add_event(&InputEvent::MouseRelease(MouseButton::Left));
    let mut frame = ctx.with_graphics();
    let mut seen: Option<ButtonDrawState> = None;
    let clicked = frame.with(button("b"), clip, |_c, d| seen = Some(d));
    let d = seen.unwrap();
    assert!(!d.is_over);
    assert!(!d.is_clicked);
    assert!(!clicked);
    ctx = frame.finish();

    // Frame 3: pointer returns with no new press: still no click.
    ctx.add_event(&InputEvent::MouseMove { x: 10, y: 10 });
    let mut frame = ctx.with_graphics();
    let clicked = frame.with(button("b"), clip, |_c, _d| ());
    assert!(!clicked);
    frame.finish();
}

#[test]
fn overlap_last_invoked_wins() {
    let r1 = raw_rect(0, 0, 10, 10);
    let r2 = raw_rect(0, 0, 20, 20);
    let mut ctx = UiContext::new();
    ctx.add_event(&InputEvent::MouseMove { x: 5, y: 5 });
    let mut frame = ctx.with_graphics();
    frame.with(button("W1"), r1, |_c, _d| ());
    frame.with(button("W2"), r2, |_c, _d| ());
    ctx = frame.finish();
    assert_eq!(ctx.mouse_over, Some("W2"));
}

#[test]
fn no_widget_hovered_leaves_slots_empty() {
    let clip = raw_rect(0, 0, 10, 10);
    let mut ctx = UiContext::new();
    ctx.add_event(&InputEvent::MouseMove { x: 50, y: 50 });
    ctx.add_event(&InputEvent::MousePress(MouseButton::Left));
    let mut frame = ctx.with_graphics();
    frame.with(button("b"), clip, |_c, _d| ());
    ctx = frame.finish();
    assert_eq!(ctx.mouse_over, None);
    assert_eq!(ctx.mouse_down, None);
    assert_eq!(ctx.mouse_up, None);
}

#[test]
fn move_event_updates_position_immediately() {
    let mut ctx = UiContext::new();
    assert_eq!(ctx.mouse_pos, None);
    ctx.add_event(&InputEvent::MouseMove { x: 3, y: 4 });
    assert_eq!(ctx.mouse_pos, Some((3, 4)));
    ctx.add_event(&InputEvent::MouseMove { x: -7, y: 9 });
    assert_eq!(ctx.mouse_pos, Some((-7, 9)));
}

#[test]
fn frame_batch_holds_exactly_the_events_pushed_before() {
    let mut ctx = UiContext::new();
    ctx.add_event(&InputEvent::MouseMove { x: 1, y: 2 });
    ctx.add_event(&InputEvent::MousePress(MouseButton::Left));
    let frame = ctx.with_graphics();
    ctx = frame.finish();
    assert_eq!(ctx.active_events.len(), 2);
    assert_eq!(ctx.active_events[0], PointerEvent::Move(1, 2));
    assert_eq!(ctx.active_events[1], PointerEvent::Press(MouseButton::Left));

    // The next frame starts from an empty pending queue.
    ctx.add_event(&InputEvent::MouseRelease(MouseButton::Right));
    let frame = ctx.with_graphics();
    ctx = frame.finish();
    assert_eq!(ctx.active_events.len(), 1);
    assert_eq!(ctx.active_events[0], PointerEvent::Release(MouseButton::Right));
}

#[test]
fn other_events_are_ignored() {
    let mut ctx = UiContext::new();
    ctx.add_event(&InputEvent::Other);
    ctx.add_event(&InputEvent::Other);
    assert_eq!(ctx.mouse_pos, None);
    let frame = ctx.with_graphics();
    ctx = frame.finish();
    assert_eq!(ctx.active_events.len(), 0);
}
