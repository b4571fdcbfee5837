use gol::clock::AutoplayClock;
use gol::input::InputButton;
use gol::router::InteractionRouter;
use gol::speed::Speed;

#[test]
fn clock_never_fires_while_disabled() {
    let mut clock = AutoplayClock::new(0);
    let speed = Speed::new(0, 0, 0, 0, 4, 1, 16, 30);
    assert!(!clock.enabled);
    assert!(!clock.maybe_step(10_000, &speed));
    assert_eq!(clock.last_step, 0);
}

#[test]
fn clock_fires_exactly_on_the_interval() {
    let mut clock = AutoplayClock::new(0);
    let speed = Speed::new(0, 0, 0, 0, 4, 1, 16, 30);
    clock.set_enabled(true, 0);
    // The interval at 4x is 1000 / 4 = 250 ms.
    assert!(!clock.maybe_step(249, &speed));
    assert_eq!(clock.last_step, 0);
    assert!(clock.maybe_step(250, &speed));
    assert_eq!(clock.last_step, 250);
    // Once per interval: an immediate retry does not fire again.
    assert!(!clock.maybe_step(251, &speed));
    assert_eq!(clock.last_step, 250);
    assert!(clock.maybe_step(500, &speed));
    assert_eq!(clock.last_step, 500);
}

#[test]
fn enabling_resets_the_interval_baseline() {
    let mut clock = AutoplayClock::new(0);
    let speed = Speed::new(0, 0, 0, 0, 1, 1, 16, 30);
    clock.set_enabled(true, 5_000);
    assert_eq!(clock.last_step, 5_000);
    // No immediate step right after re-enabling, however long the pause.
    assert!(!clock.maybe_step(5_500, &speed));
    assert!(clock.maybe_step(6_000, &speed));
    // Disabling keeps the baseline; re-enabling at the same instant too.
    clock.set_enabled(false, 6_100);
    assert_eq!(clock.last_step, 6_000);
    clock.set_enabled(true, 6_200);
    assert_eq!(clock.last_step, 6_200);
}

#[test]
fn router_starts_paused_on_an_empty_grid() {
    let router = InteractionRouter::new(7);
    assert_eq!(router.grid.columns(), 50);
    assert_eq!(router.grid.rows(), 50);
    assert!(!router.play.toggle);
    assert!(!router.clock.enabled);
    assert_eq!(router.clock.last_step, 7);
    assert_eq!(router.speed.speed, 4);
    for cy in 0..50 {
        for cx in 0..50 {
            assert!(!router.grid.get(cx, cy));
        }
    }
}

#[test]
fn router_left_click_paints_the_grid_cell() {
    let mut router = InteractionRouter::new(0);
    // The grid spans (0, 50)..(500, 550) in 10-pixel cells.
    router.mouse_cursor(15, 75);
    assert_eq!(router.grid.hover(), Some((1, 2)));
    router.press(InputButton::MouseLeft, 0);
    assert!(router.grid.get(1, 2));
    router.press(InputButton::MouseRight, 0);
    assert!(!router.grid.get(1, 2));
}

#[test]
fn router_next_button_steps_one_generation() {
    let mut router = InteractionRouter::new(0);
    // A lone cell, painted by a click over it.
    router.mouse_cursor(15, 75);
    router.press(InputButton::MouseLeft, 0);
    assert!(router.grid.get(1, 2));
    // A click on the next button (at 100..150, 0..50) steps once: the
    // lone cell dies.
    router.mouse_cursor(125, 25);
    router.press(InputButton::MouseLeft, 0);
    assert!(!router.grid.get(1, 2));
}

#[test]
fn router_play_button_drives_the_clock() {
    let mut router = InteractionRouter::new(0);
    router.mouse_cursor(175, 25);
    router.press(InputButton::MouseLeft, 40);
    assert!(router.play.toggle);
    assert!(router.clock.enabled);
    assert_eq!(router.clock.last_step, 40);
    router.press(InputButton::MouseLeft, 90);
    assert!(!router.play.toggle);
    assert!(!router.clock.enabled);
    assert_eq!(router.clock.last_step, 40);
}

#[test]
fn router_speed_buttons_change_the_multiplier() {
    let mut router = InteractionRouter::new(0);
    router.mouse_cursor(375, 25); // over the increase button
    router.press(InputButton::MouseLeft, 0);
    assert_eq!(router.speed.speed, 8);
    router.mouse_cursor(275, 25); // over the decrease button
    router.press(InputButton::MouseLeft, 0);
    router.press(InputButton::MouseLeft, 0);
    assert_eq!(router.speed.speed, 2);
}

#[test]
fn router_random_button_rerolls_the_face_and_randomizes() {
    let mut router = InteractionRouter::new(0);
    router.mouse_cursor(225, 25); // over the randomize button
    let before = router.random.face;
    router.press(InputButton::MouseLeft, 0);
    assert_ne!(router.random.face, before);
    assert_eq!(router.grid.columns(), 50);
    assert_eq!(router.grid.rows(), 50);
    let mut live = 0usize;
    for cy in 0..50 {
        for cx in 0..50 {
            if router.grid.get(cx, cy) {
                live += 1;
            }
        }
    }
    assert!(live > 0);
    assert!(live < 50 * 50);
}

#[test]
fn router_tick_steps_only_when_due() {
    let mut router = InteractionRouter::new(0);
    // Paint a lone cell, then enable autoplay at t = 0.
    router.mouse_cursor(15, 75);
    router.press(InputButton::MouseLeft, 0);
    router.mouse_cursor(175, 25);
    router.press(InputButton::MouseLeft, 0);
    assert!(router.clock.enabled);
    // At 4x the interval is 250 ms: too early, nothing happens.
    assert!(!router.tick(100));
    assert!(router.grid.get(1, 2));
    // Due: the grid steps and the lone cell dies.
    assert!(router.tick(250));
    assert!(!router.grid.get(1, 2));
    // Not due again immediately after.
    assert!(!router.tick(300));
}

#[test]
fn router_space_key_steps_regardless_of_widgets() {
    let mut router = InteractionRouter::new(0);
    router.mouse_cursor(15, 75);
    router.press(InputButton::MouseLeft, 0);
    assert!(router.grid.get(1, 2));
    router.press(InputButton::KeySpace, 0);
    assert!(!router.grid.get(1, 2));
}
