use fund_baby::desktop_state::DesktopState;
use fund_baby::geometry::{Position, SavedPosition, Size, WorkArea};
use fund_baby::window::{compact_anchor, BossKeyState, MoveOutcome, WindowAction};

fn pos(x: i32, y: i32) -> Position {
    Position { x, y }
}

fn full_plan(p: Position) -> Vec<WindowAction> {
    vec![
        WindowAction::Show,
        WindowAction::SetResizable(true),
        WindowAction::SetMinSize(Size { width: 620, height: 220 }),
        WindowAction::SetMaxSize(Size { width: 900, height: 700 }),
        WindowAction::SetSize(Size { width: 720, height: 360 }),
        WindowAction::ExpectMove(p),
        WindowAction::SetPosition(p),
        WindowAction::SetFocus,
        WindowAction::EmitCompact(false),
        WindowAction::EmitRefresh,
    ]
}

fn full_plan_instant(p: Position) -> Vec<WindowAction> {
    vec![
        WindowAction::Show,
        WindowAction::SetResizable(true),
        WindowAction::SetMinSize(Size { width: 620, height: 220 }),
        WindowAction::SetMaxSize(Size { width: 900, height: 700 }),
        WindowAction::SetSize(Size { width: 720, height: 360 }),
        WindowAction::MarkCompact(false),
        WindowAction::ExpectMove(p),
        WindowAction::SetPosition(p),
        WindowAction::SetFocus,
        WindowAction::EmitCompact(false),
        WindowAction::EmitRefresh,
    ]
}

/// Takes the state steps of a sequence, as the program does while it
/// performs the window operations.
fn run(s: &mut BossKeyState, acts: &[WindowAction]) {
    for a in acts {
        s.apply_step(*a);
    }
}

fn show_main(s: &mut BossKeyState) -> Vec<WindowAction> {
    let acts = s.show_main_window();
    run(s, &acts);
    acts
}

fn show_compact(s: &mut BossKeyState, outer: Option<Position>, wa: Option<WorkArea>) -> Vec<WindowAction> {
    let acts = s.show_compact_profit_window(outer, wa);
    run(s, &acts);
    acts
}

fn toggle(s: &mut BossKeyState, visible: bool, outer: Option<Position>, wa: Option<WorkArea>) -> Vec<WindowAction> {
    let acts = s.toggle_main_window_instant(visible, outer, wa);
    run(s, &acts);
    acts
}

fn compact_plan(p: Position) -> Vec<WindowAction> {
    let c = Size { width: 225, height: 38 };
    vec![
        WindowAction::Show,
        WindowAction::SetResizable(false),
        WindowAction::SetMinSize(c),
        WindowAction::SetMaxSize(c),
        WindowAction::SetSize(c),
        WindowAction::ExpectMove(p),
        WindowAction::SetPosition(p),
        WindowAction::MarkCompact(true),
        WindowAction::EmitCompact(true),
    ]
}

fn area(x: i32, y: i32, w: u32, h: u32) -> WorkArea {
    WorkArea { position: pos(x, y), size: Size { width: w, height: h } }
}

#[test]
fn default_state_is_empty() {
    let s = BossKeyState::default();
    assert_eq!(s.last_full_position, None);
    assert_eq!(s.last_compact_position, None);
    assert!(!s.is_compact);
    assert_eq!(s.suppressed_move_position, None);
}

#[test]
fn show_main_uses_default_place_first() {
    let mut s = BossKeyState::default();
    let acts = s.show_main_window();
    assert_eq!(acts, full_plan(pos(120, 120)));
    // compact mode is left at once; the move is expected only at its step
    assert!(!s.is_compact);
    assert_eq!(s.suppressed_move_position, None);
    run(&mut s, &acts);
    assert_eq!(s.suppressed_move_position, Some(pos(120, 120)));
}

#[test]
fn show_main_instant_leaves_compact_late() {
    let mut a = BossKeyState::default();
    a.last_full_position = Some(pos(300, 40));
    a.is_compact = true;
    let mut b = a;
    let acts_a = a.show_main_window();
    let acts_b = b.show_main_window_instant();
    assert_eq!(acts_a, full_plan(pos(300, 40)));
    assert_eq!(acts_b, full_plan_instant(pos(300, 40)));
    assert!(!a.is_compact);
    assert!(b.is_compact);
    assert_eq!(b.last_full_position, None);
    run(&mut a, &acts_a);
    run(&mut b, &acts_b);
    assert_eq!(a, b);
    assert!(!b.is_compact);
}

#[test]
fn hide_leaves_compact_mode() {
    let mut s = BossKeyState::default();
    s.is_compact = true;
    s.last_compact_position = Some(pos(1, 2));
    let acts = s.hide_main_window();
    assert_eq!(acts, vec![WindowAction::EmitCompact(false), WindowAction::Hide]);
    assert!(!s.is_compact);
    assert_eq!(s.last_compact_position, Some(pos(1, 2)));
}

#[test]
fn compact_goes_bottom_left_of_work_area() {
    let mut s = BossKeyState::default();
    let acts = s.show_compact_profit_window(Some(pos(200, 150)), Some(area(0, 0, 1920, 1040)));
    // 1040 - 38 - 4
    assert_eq!(acts, compact_plan(pos(4, 998)));
    // the full place is remembered at once, compact mode only at its step
    assert_eq!(s.last_full_position, Some(pos(200, 150)));
    assert!(!s.is_compact);
    assert_eq!(s.suppressed_move_position, None);
    run(&mut s, &acts);
    assert!(s.is_compact);
    assert_eq!(s.suppressed_move_position, Some(pos(4, 998)));
}

#[test]
fn compact_without_monitor_uses_fixed_place() {
    let mut s = BossKeyState::default();
    let acts = show_compact(&mut s, None, None);
    assert_eq!(acts, compact_plan(pos(4, 720)));
    assert_eq!(s.last_full_position, None);
}

#[test]
fn compact_ignores_minimised_place() {
    let mut s = BossKeyState::default();
    show_compact(&mut s, Some(pos(-32000, -32000)), None);
    assert_eq!(s.last_full_position, None);
    let mut t = BossKeyState::default();
    show_compact(&mut t, Some(pos(-30000, 10)), None);
    assert_eq!(t.last_full_position, None);
    let mut u = BossKeyState::default();
    show_compact(&mut u, Some(pos(-29999, -29999)), None);
    assert_eq!(u.last_full_position, Some(pos(-29999, -29999)));
}

#[test]
fn compact_from_compact_keeps_full_place() {
    let mut s = BossKeyState::default();
    show_compact(&mut s, Some(pos(10, 20)), None);
    show_compact(&mut s, Some(pos(4, 720)), None);
    assert_eq!(s.last_full_position, Some(pos(10, 20)));
}

#[test]
fn main_panel_returns_after_compact() {
    let mut s = BossKeyState::default();
    show_compact(&mut s, Some(pos(333, 222)), Some(area(0, 0, 800, 600)));
    let acts = show_main(&mut s);
    assert_eq!(acts, full_plan(pos(333, 222)));
}

#[test]
fn remembered_compact_place_wins() {
    let mut s = BossKeyState::default();
    s.last_compact_position = Some(pos(500, 500));
    let acts = show_compact(&mut s, None, Some(area(0, 0, 1920, 1040)));
    assert_eq!(acts, compact_plan(pos(500, 500)));
}

#[test]
fn anchor_checks_overflow() {
    assert_eq!(compact_anchor(area(10, 20, 100, 100)), Some(pos(14, 78)));
    assert_eq!(compact_anchor(area(i32::MAX, 0, 100, 100)), None);
    assert_eq!(compact_anchor(area(0, i32::MAX, 100, 100)), None);
    // heights above i32::MAX read as negative numbers
    assert_eq!(compact_anchor(area(0, 0, 100, u32::MAX)), Some(pos(4, -43)));
    let s = BossKeyState::default();
    assert!(!s.can_show_compact(Some(area(i32::MAX, 0, 1, 1))));
    assert!(s.can_show_compact(None));
    let mut t = s;
    t.last_compact_position = Some(pos(0, 0));
    assert!(t.can_show_compact(Some(area(i32::MAX, 0, 1, 1))));
}

#[test]
fn echo_of_programmatic_move_is_suppressed_once() {
    let mut s = BossKeyState::default();
    show_compact(&mut s, None, Some(area(0, 0, 1920, 1040)));
    assert_eq!(s.on_window_moved(pos(6, 1000), Some(Size { width: 225, height: 38 })), MoveOutcome::Suppressed);
    assert_eq!(s.suppressed_move_position, None);
    assert_eq!(s.last_compact_position, None);
    // a second move is a drag
    assert_eq!(
        s.on_window_moved(pos(6, 1000), Some(Size { width: 225, height: 38 })),
        MoveOutcome::RememberCompact(pos(6, 1000))
    );
    assert_eq!(s.last_compact_position, Some(pos(6, 1000)));
}

#[test]
fn move_report_before_compact_step_is_not_remembered() {
    // a move reported while the strip is being set up, before the window
    // counts as the strip, is not taken for a drag
    let mut s = BossKeyState::default();
    let acts = s.show_compact_profit_window(None, None);
    for a in &acts[..5] {
        s.apply_step(*a);
    }
    assert_eq!(s.on_window_moved(pos(300, 300), Some(Size { width: 225, height: 38 })), MoveOutcome::Ignored);
    run(&mut s, &acts[5..]);
    assert!(s.is_compact);
    assert_eq!(s.on_window_moved(pos(4, 720), Some(Size { width: 225, height: 38 })), MoveOutcome::Suppressed);
}

#[test]
fn far_move_is_not_an_echo() {
    let mut s = BossKeyState::default();
    show_compact(&mut s, None, None);
    let out = s.on_window_moved(pos(40, 700), Some(Size { width: 233, height: 46 }));
    assert_eq!(out, MoveOutcome::RememberCompact(pos(40, 700)));
    assert_eq!(s.suppressed_move_position, Some(pos(4, 720)));
}

#[test]
fn moves_outside_compact_mode_or_size_are_ignored() {
    let mut s = BossKeyState::default();
    assert_eq!(s.on_window_moved(pos(1, 1), Some(Size { width: 10, height: 10 })), MoveOutcome::Ignored);
    s.is_compact = true;
    assert_eq!(s.on_window_moved(pos(1, 1), Some(Size { width: 234, height: 38 })), MoveOutcome::Ignored);
    assert_eq!(s.on_window_moved(pos(1, 1), Some(Size { width: 225, height: 47 })), MoveOutcome::Ignored);
    assert_eq!(s.on_window_moved(pos(1, 1), None), MoveOutcome::Ignored);
    assert_eq!(s.last_compact_position, None);
}

#[test]
fn dragged_strip_comes_back_there() {
    let mut s = BossKeyState::default();
    show_compact(&mut s, Some(pos(100, 100)), Some(area(0, 0, 1920, 1040)));
    s.on_window_moved(pos(4, 998), Some(Size { width: 225, height: 38 }));
    s.on_window_moved(pos(800, 20), Some(Size { width: 225, height: 38 }));
    show_main(&mut s);
    let acts = show_compact(&mut s, Some(pos(100, 100)), Some(area(0, 0, 1920, 1040)));
    assert_eq!(acts, compact_plan(pos(800, 20)));
}

#[test]
fn f2_toggle_alternates_on_example() {
    let mut s = BossKeyState::default();
    // window visible as main panel: F2 shows the strip
    assert!(!s.toggle_shows_main(true));
    let acts = toggle(&mut s, true, Some(pos(50, 60)), Some(area(0, 0, 1280, 720)));
    assert_eq!(acts, compact_plan(pos(4, 678)));
    assert!(s.is_compact);
    // F2 again: back to the main panel where it stood
    assert!(s.toggle_shows_main(true));
    let acts = toggle(&mut s, true, Some(pos(4, 678)), Some(area(0, 0, 1280, 720)));
    assert_eq!(acts, full_plan_instant(pos(50, 60)));
    assert!(!s.is_compact);
    assert!(!s.toggle_shows_main(true));
}

#[test]
fn toggle_shows_main_when_hidden() {
    let mut s = BossKeyState::default();
    assert!(s.toggle_shows_main(false));
    let acts = toggle(&mut s, false, None, None);
    assert_eq!(acts, full_plan_instant(pos(120, 120)));
}

#[test]
fn state_steps_leave_window_operations_alone() {
    let mut s = BossKeyState::default();
    s.apply_step(WindowAction::Show);
    s.apply_step(WindowAction::SetPosition(pos(1, 1)));
    assert_eq!(s, BossKeyState::default());
    s.apply_step(WindowAction::MarkCompact(true));
    assert!(s.is_compact);
    s.apply_step(WindowAction::ExpectMove(pos(2, 3)));
    assert_eq!(s.suppressed_move_position, Some(pos(2, 3)));
}

#[test]
fn saved_state_is_restored() {
    let mut d = DesktopState::default();
    d.save_compact_position(pos(77, 88));
    let mut s = BossKeyState::default();
    s.restore_saved(&d);
    assert_eq!(s.last_compact_position, Some(pos(77, 88)));
    let mut t = BossKeyState::default();
    t.restore_saved(&DesktopState { compact_position: None });
    assert_eq!(t, BossKeyState::default());
    let mut u = BossKeyState::default();
    u.restore_saved(&DesktopState { compact_position: Some(SavedPosition { x: -5, y: 9 }) });
    let acts = show_compact(&mut u, None, None);
    assert_eq!(acts, compact_plan(pos(-5, 9)));
}

#[test]
fn suppress_sets_expected_move() {
    let mut s = BossKeyState::default();
    s.suppress_programmatic_move(pos(9, 9));
    assert_eq!(s.suppressed_move_position, Some(pos(9, 9)));
    assert_eq!(s.on_window_moved(pos(13, 5), None), MoveOutcome::Suppressed);
}
