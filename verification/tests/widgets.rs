use gol::input::InputButton;
use gol::layout::{HGroup, Widget};
use gol::speed::Speed;
use gol::widget::{face_index, Btn, Decrease, Increase, Next, Play, Random};

fn press_at<B: Btn>(x: u32, y: u32) -> bool {
    let mut b = B::new(x, y, 50, 50);
    b.mouse_cursor(x as i64 + 25, y as i64 + 25);
    b.is_pressed(&InputButton::MouseLeft)
}

#[test]
fn next_reports_pressed_only_while_hovered() {
    let mut next = Next::new(100, 0, 50, 50);
    assert!(!next.is_pressed(&InputButton::MouseLeft));
    next.mouse_cursor(125, 25);
    assert!(next.hover);
    assert!(next.is_pressed(&InputButton::MouseLeft));
    assert!(!next.is_pressed(&InputButton::MouseRight));
    assert!(!next.is_pressed(&InputButton::KeySpace));
    next.mouse_cursor(200, 25);
    assert!(!next.hover);
    assert!(!next.is_pressed(&InputButton::MouseLeft));
}

#[test]
fn hover_is_strict_containment() {
    let mut next = Next::new(100, 0, 50, 50);
    next.mouse_cursor(100, 25);
    assert!(!next.hover);
    next.mouse_cursor(150, 25);
    assert!(!next.hover);
    next.mouse_cursor(101, 1);
    assert!(next.hover);
}

#[test]
fn play_toggles_on_each_hovered_press() {
    let mut play = Play::new(150, 0, 50, 50);
    play.mouse_cursor(175, 25);
    assert!(!play.toggle);
    assert!(play.is_pressed(&InputButton::MouseLeft));
    assert!(play.toggle);
    assert!(play.is_pressed(&InputButton::MouseLeft));
    assert!(!play.toggle);
    // A press without hover neither reports nor toggles.
    play.mouse_cursor(0, 0);
    assert!(!play.is_pressed(&InputButton::MouseLeft));
    assert!(!play.toggle);
}

#[test]
fn random_press_always_changes_the_face() {
    let mut random = Random::new(200, 0, 50, 50);
    random.mouse_cursor(225, 25);
    let mut previous = random.face;
    for _ in 0..50 {
        assert!(random.is_pressed(&InputButton::MouseLeft));
        assert_ne!(random.face, previous);
        assert!((1..=6).contains(&face_index(random.face)));
        previous = random.face;
    }
}

#[test]
fn random_unhovered_press_keeps_the_face() {
    let mut random = Random::new(200, 0, 50, 50);
    let before = random.face;
    assert!(!random.is_pressed(&InputButton::MouseLeft));
    assert_eq!(random.face, before);
    random.mouse_cursor(225, 25);
    assert!(!random.is_pressed(&InputButton::MouseRight));
    assert_eq!(random.face, before);
}

#[test]
fn increase_and_decrease_report_like_next() {
    let mut increase = Increase::new(350, 0, 50, 50);
    let mut decrease = Decrease::new(250, 0, 50, 50);
    assert!(!increase.is_pressed(&InputButton::MouseLeft));
    assert!(!decrease.is_pressed(&InputButton::MouseLeft));
    increase.mouse_cursor(375, 25);
    decrease.mouse_cursor(275, 25);
    assert!(increase.is_pressed(&InputButton::MouseLeft));
    assert!(decrease.is_pressed(&InputButton::MouseLeft));
}

#[test]
fn speed_doubles_and_halves_between_bounds() {
    let mut speed = Speed::new(300, 0, 50, 50, 4, 1, 16, 30);
    assert_eq!(speed.speed, 4);
    speed.increase();
    assert_eq!(speed.speed, 8);
    speed.increase();
    assert_eq!(speed.speed, 16);
    // At the maximum an increase is a no-op.
    speed.increase();
    assert_eq!(speed.speed, 16);
    speed.decrease();
    assert_eq!(speed.speed, 8);
    speed.decrease();
    speed.decrease();
    speed.decrease();
    assert_eq!(speed.speed, 1);
    // At the minimum a decrease is a no-op.
    speed.decrease();
    assert_eq!(speed.speed, 1);
}

#[test]
fn hgroup_places_equal_slots_left_to_right() {
    let mut buttons = vec![
        Next::new(0, 0, 1, 1),
        Next::new(0, 0, 1, 1),
        Next::new(0, 0, 1, 1),
        Next::new(0, 0, 1, 1),
    ];
    let group = HGroup::new(100, 20, 200, 50, &mut buttons);
    assert_eq!(group.x, 100);
    assert_eq!(group.width, 200);
    for (i, button) in buttons.iter().enumerate() {
        assert_eq!(button.size(), (50, 50));
        assert_eq!(button.pos(), (100 + 50 * i as u32, 20));
    }
}

#[test]
fn btn_trait_presses_uniformly() {
    assert!(press_at::<Next>(0, 0));
    assert!(press_at::<Play>(10, 10));
    assert!(press_at::<Random>(20, 20));
    assert!(press_at::<Increase>(30, 30));
    assert!(press_at::<Decrease>(40, 40));
}
