use iui::{InputEvent, MouseButton, ToggleButton, ToggleButtonDrawState, UiContext, raw_rect,
          toggle_button};

fn press_frame(ctx: UiContext) -> (UiContext, bool) {
    let clip = raw_rect(0, 0, 50, 50);
    let mut ctx = ctx;
    ctx.add_event(&InputEvent::MousePress(MouseButton::Left));
    let mut frame = ctx.with_graphics();
    let value = frame.with_stored(toggle_button("t"), clip, |_c, _d| ());
    (frame.finish(), value)
}

fn release_frame(ctx: UiContext) -> (UiContext, bool) {
    let clip = raw_rect(0, 0, 50, 50);
    let mut ctx = ctx;
    ctx.add_event(&InputEvent::MouseRelease(MouseButton::Left));
    let mut frame = ctx.with_graphics();
    let value = frame.with_stored(toggle_button("t"), clip, |_c, _d| ());
    (frame.finish(), value)
}

fn idle_frame(ctx: UiContext) -> (UiContext, bool) {
    let clip = raw_rect(0, 0, 50, 50);
    let mut ctx = ctx;
    let mut frame = ctx.with_graphics();
    let value = frame.with_stored(toggle_button("t"), clip, |_c, _d| ());
    (frame.finish(), value)
}

#[test]
fn toggle_flips_on_click_and_is_stable_otherwise() {
    let mut ctx = UiContext::new();
    ctx.add_event(&InputEvent::MouseMove { x: 10, y: 10 });

    // Starting state is false; a press alone does not flip.
    let (ctx, value) = idle_frame(ctx);
    assert!(!value);
    let (ctx, value) = press_frame(ctx);
    assert!(!value);

    // The release resolves the click: flipped to true.
    let (ctx, value) = release_frame(ctx);
    assert!(value);

    // Frames with no click read the stored value back unchanged.
    let (ctx, value) = idle_frame(ctx);
    assert!(value);
    let (ctx, value) = idle_frame(ctx);
    assert!(value);

    // A second click flips back to false.
    let (ctx, value) = press_frame(ctx);
    assert!(value);
    let (ctx, value) = release_frame(ctx);
    assert!(!value);
    let (_ctx, value) = idle_frame(ctx);
    assert!(!value);
}

#[test]
fn forget_returns_widget_to_default_seed() {
    let clip = raw_rect(0, 0, 50, 50);
    let mut ctx = UiContext::new();
    ctx.add_event(&InputEvent::MouseMove { x: 10, y: 10 });

    // Toggle "t" to true over three frames.
    let (ctx, _) = idle_frame(ctx);
    let (ctx, _) = press_frame(ctx);
    let (ctx, value) = release_frame(ctx);
    assert!(value);

    // Forget it: the next invocation behaves like a never-seen identifier.
    let mut ctx = ctx;
    ctx.forget("t");
    let mut frame = ctx.with_graphics();
    let value = frame.with_stored(toggle_button("t"), clip, |_c, _d| ());
    assert!(!value);
    frame.finish();
}

#[test]
fn forget_matches_the_identifier_exactly() {
    let clip_t = raw_rect(0, 0, 50, 50);
    let clip_u = raw_rect(100, 0, 50, 50);
    let mut ctx = UiContext::new();

    // Click toggle "t" to true.
    ctx.add_event(&InputEvent::MouseMove { x: 10, y: 10 });
    let (ctx, _) = idle_frame(ctx);
    let (ctx, _) = press_frame(ctx);
    let (mut ctx, value) = release_frame(ctx);
    assert!(value);

    // Click toggle "u" to true as well.
    ctx.add_event(&InputEvent::MouseMove { x: 110, y: 10 });
    let mut frame = ctx.with_graphics();
    frame.with_stored(toggle_button("u"), clip_u, |_c, _d| ());
    let mut ctx = frame.finish();
    ctx.add_event(&InputEvent::MousePress(MouseButton::Left));
    let mut frame = ctx.with_graphics();
    frame.with_stored(toggle_button("u"), clip_u, |_c, _d| ());
    let mut ctx = frame.finish();
    ctx.add_event(&InputEvent::MouseRelease(MouseButton::Left));
    let mut frame = ctx.with_graphics();
    let value = frame.with_stored(toggle_button("u"), clip_u, |_c, _d| ());
    assert!(value);
    let mut ctx = frame.finish();

    // Forgetting "u" leaves "t" stored and resets only "u".
    ctx.forget("u");
    let mut frame = ctx.with_graphics();
    let t_value = frame.with_stored(toggle_button("t"), clip_t, |_c, _d| ());
    let u_value = frame.with_stored(toggle_button("u"), clip_u, |_c, _d| ());
    assert!(t_value);
    assert!(!u_value);
    frame.finish();
}

#[test]
fn forget_of_an_absent_identifier_is_a_noop() {
    let clip = raw_rect(0, 0, 50, 50);
    let mut ctx = UiContext::new();
    ctx.forget("nothing");
    ctx.add_event(&InputEvent::MouseMove { x: 10, y: 10 });
    let mut frame = ctx.with_graphics();
    let value = frame.with_stored(toggle_button("t"), clip, |_c, _d| ());
    assert!(!value);
    frame.finish();
}

#[test]
fn seeded_toggle_keeps_its_state_without_a_click() {
    let clip = raw_rect(0, 0, 50, 50);
    let mut ctx = UiContext::new();
    ctx.add_event(&InputEvent::MouseMove { x: 10, y: 10 });
    let mut frame = ctx.with_graphics();
    let mut seen: Option<ToggleButtonDrawState> = None;
    let value = frame.with(ToggleButton::new("s", true), clip, |_c, d| seen = Some(d));
    let d = seen.unwrap();
    assert!(value);
    assert!(d.activated);
    assert!(d.is_over);
    assert!(!d.is_clicked);
    frame.finish();
}

#[test]
fn fresh_toggle_starts_unpressed() {
    let clip = raw_rect(0, 0, 50, 50);
    let ctx = UiContext::new();
    let mut frame = ctx.with_graphics();
    let value = frame.with(toggle_button("f"), clip, |_c, _d| ());
    assert!(!value);
    frame.finish();
}
