use fund_baby::geometry::{is_near_position, Position, SavedPosition};
use fund_baby::desktop_state::DesktopState;

fn pos(x: i32, y: i32) -> Position {
    Position { x, y }
}

#[test]
fn near_within_tolerance_on_both_axes() {
    assert!(is_near_position(pos(100, 200), pos(104, 196)));
    assert!(is_near_position(pos(-10, -10), pos(-14, -6)));
}

#[test]
fn near_fails_just_outside_tolerance() {
    assert!(!is_near_position(pos(100, 200), pos(105, 200)));
    assert!(!is_near_position(pos(100, 200), pos(100, 195)));
}

#[test]
fn near_is_symmetric_and_reflexive_on_examples() {
    let a = pos(7, -3);
    let b = pos(10, 1);
    assert_eq!(is_near_position(a, b), is_near_position(b, a));
    assert!(is_near_position(a, a));
}

#[test]
fn near_does_not_wrap_at_the_extremes() {
    assert!(!is_near_position(pos(i32::MAX, 0), pos(i32::MIN, 0)));
    assert!(!is_near_position(pos(0, i32::MIN), pos(0, i32::MAX)));
    assert!(is_near_position(pos(i32::MAX, i32::MIN), pos(i32::MAX - 4, i32::MIN + 4)));
}

#[test]
fn saved_position_round_trips() {
    let p = pos(-1234, 5678);
    let saved = SavedPosition::from(p);
    assert_eq!(saved, SavedPosition { x: -1234, y: 5678 });
    assert_eq!(Position::from(saved), p);
}

#[test]
fn desktop_state_default_and_save() {
    let mut d = DesktopState::default();
    assert_eq!(d.compact_position, None);
    d.save_compact_position(pos(4, 1000));
    assert_eq!(d.compact_position, Some(SavedPosition { x: 4, y: 1000 }));
    d.save_compact_position(pos(50, 60));
    assert_eq!(d.compact_position, Some(SavedPosition { x: 50, y: 60 }));
}
