//! What each step of the boss-key state machine changes, and what it leaves
//! alone, stated field by field over its inputs.

use vstd::prelude::*;
use crate::geometry::{Position, Size, WorkArea};
use crate::desktop_state::DesktopState;
use crate::window::{
    BossKeyState, MoveOutcome, WindowAction, initial_state, full_position, show_main_state,
    show_main_begin, show_main_instant_begin, show_compact_begin, show_compact_state, hide_state,
    compact_position, moved_state, moved_outcome, restored_state, toggle_shows_main_spec,
    step_state, full_window_actions, full_window_actions_instant, anchor_fits,
};

verus! {

/// F2 shows the main panel whenever a main-panel place is remembered, the
/// window is hidden, or the window is the compact strip. Only a visible main
/// panel with no remembered panel place is turned into the strip.
pub proof fn f2_shows_main_unless_panel_visible(s: BossKeyState, visible: bool)
    ensures
        s.last_full_position is Some ==> toggle_shows_main_spec(s, visible),
        !visible ==> toggle_shows_main_spec(s, visible),
        s.is_compact ==> toggle_shows_main_spec(s, visible),
        visible && !s.is_compact && s.last_full_position is None ==> !toggle_shows_main_spec(
            s,
            visible,
        ),
{
}

/// After the strip is shown from an on-screen main panel at `p` and the
/// window is then hidden to the tray, F2 (window hidden or not) brings back
/// the main panel, at `p`.
pub proof fn f2_after_hiding_the_strip_restores_the_panel(
    s: BossKeyState,
    p: Position,
    area: Option<WorkArea>,
    visible: bool,
)
    requires
        !s.is_compact,
        p.x > -30000,
        p.y > -30000,
    ensures
        toggle_shows_main_spec(hide_state(show_compact_state(s, Some(p), area)), visible),
        full_position(hide_state(show_compact_state(s, Some(p), area))) == p,
        full_window_actions_instant(full_position(hide_state(show_compact_state(s, Some(p), area))))[7]
            == WindowAction::SetPosition(p),
        full_window_actions(full_position(hide_state(show_compact_state(s, Some(p), area))))[6]
            == WindowAction::SetPosition(p),
{
}

/// The main panel is shown at its remembered place, whatever the compact
/// flag, else at (120, 120). Showing it uses that place up, leaves compact
/// mode, expects the move there and keeps the strip's place.
pub proof fn main_panel_goes_to_its_remembered_place(s: BossKeyState)
    ensures
        s.last_full_position matches Some(p) ==> full_position(s) == p,
        s.last_full_position is None ==> full_position(s) == (Position { x: 120, y: 120 }),
        show_main_state(s).last_full_position is None,
        !show_main_state(s).is_compact,
        show_main_state(s).suppressed_move_position == Some(full_position(s)),
        show_main_state(s).last_compact_position == s.last_compact_position,
{
}

/// Hiding the window to the tray changes only the compact flag: the panel's
/// and the strip's places, and an expected move, are all kept.
pub proof fn hiding_changes_only_the_compact_flag(s: BossKeyState, area: Option<WorkArea>)
    ensures
        !hide_state(s).is_compact,
        hide_state(s).last_full_position == s.last_full_position,
        hide_state(s).last_compact_position == s.last_compact_position,
        hide_state(s).suppressed_move_position == s.suppressed_move_position,
        full_position(hide_state(s)) == full_position(s),
        compact_position(hide_state(s), area) == compact_position(s, area),
{
}

/// Showing the strip makes the window compact, expects the move to the
/// strip's place, keeps the strip's place, and remembers the panel's place
/// exactly when the window was the main panel with an on-screen corner.
/// The strip's place is the remembered one, else the bottom-left corner of
/// the work area, else (4, 720).
pub proof fn compact_strip_changes(s: BossKeyState, outer: Option<Position>, area: Option<WorkArea>)
    ensures
        show_compact_state(s, outer, area).is_compact,
        show_compact_state(s, outer, area).last_compact_position == s.last_compact_position,
        show_compact_state(s, outer, area).suppressed_move_position == Some(
            compact_position(s, area),
        ),
        (!s.is_compact && (outer matches Some(p) && p.x > -30000 && p.y > -30000))
            ==> show_compact_state(s, outer, area).last_full_position == outer,
        !(!s.is_compact && (outer matches Some(p) && p.x > -30000 && p.y > -30000))
            ==> show_compact_state(s, outer, area).last_full_position == s.last_full_position,
        s.last_compact_position matches Some(q) ==> compact_position(s, area) == q,
        s.last_compact_position is None && area is None ==> compact_position(s, area) == (Position {
            x: 4,
            y: 720,
        }),
        (s.last_compact_position is None && (area matches Some(a) && anchor_fits(a)
            && a.size.height <= i32::MAX)) ==> ({
            let a = area.unwrap();
            &&& compact_position(s, area).x == a.position.x + 4
            &&& compact_position(s, area).y == a.position.y + a.size.height - 42
        }),
{
}

/// Before any window operation, showing the main panel uses up its place and
/// leaves compact mode; the F2 form uses up the place but stays compact until
/// its compact step; showing the strip only remembers the panel's place.
/// Nothing else changes at that point.
pub proof fn changes_before_the_window_operations(s: BossKeyState, outer: Option<Position>)
    ensures
        show_main_begin(s).last_full_position is None,
        !show_main_begin(s).is_compact,
        show_main_begin(s).last_compact_position == s.last_compact_position,
        show_main_begin(s).suppressed_move_position == s.suppressed_move_position,
        show_main_instant_begin(s).last_full_position is None,
        show_main_instant_begin(s).is_compact == s.is_compact,
        show_main_instant_begin(s).last_compact_position == s.last_compact_position,
        show_main_instant_begin(s).suppressed_move_position == s.suppressed_move_position,
        show_compact_begin(s, outer).is_compact == s.is_compact,
        show_compact_begin(s, outer).last_compact_position == s.last_compact_position,
        show_compact_begin(s, outer).suppressed_move_position == s.suppressed_move_position,
        show_compact_begin(s, outer).last_full_position == show_compact_state(
            s,
            outer,
            None,
        ).last_full_position,
{
}

/// An expected-move step sets only the expected move; a compact step sets
/// only the compact flag; a window operation changes nothing.
pub proof fn state_steps_change_one_field(s: BossKeyState, a: WindowAction)
    ensures
        a matches WindowAction::ExpectMove(p) ==> {
            &&& step_state(s, a).suppressed_move_position == Some(p)
            &&& step_state(s, a).is_compact == s.is_compact
            &&& step_state(s, a).last_full_position == s.last_full_position
            &&& step_state(s, a).last_compact_position == s.last_compact_position
        },
        a matches WindowAction::MarkCompact(b) ==> {
            &&& step_state(s, a).is_compact == b
            &&& step_state(s, a).suppressed_move_position == s.suppressed_move_position
            &&& step_state(s, a).last_full_position == s.last_full_position
            &&& step_state(s, a).last_compact_position == s.last_compact_position
        },
        !(a is ExpectMove) && !(a is MarkCompact) ==> step_state(s, a) == s,
{
}

/// A move report is the echo of the program's own move exactly when a move
/// is expected within 4 pixels of it on both axes; the echo only clears the
/// expectation. Any other report leaves the expectation as it was.
pub proof fn echo_moves_only_clear_the_expectation(s: BossKeyState, p: Position, z: Option<Size>)
    ensures
        (moved_outcome(s, p, z) == MoveOutcome::Suppressed) <==> (s.suppressed_move_position matches Some(
            t,
        ) && -4 <= t.x - p.x <= 4 && -4 <= t.y - p.y <= 4),
        moved_outcome(s, p, z) == MoveOutcome::Suppressed ==> {
            &&& moved_state(s, p, z).suppressed_move_position is None
            &&& moved_state(s, p, z).last_compact_position == s.last_compact_position
        },
        moved_outcome(s, p, z) != MoveOutcome::Suppressed
            ==> moved_state(s, p, z).suppressed_move_position == s.suppressed_move_position,
{
}

/// A move report never changes the mode or the panel's place. It is
/// remembered (for the strip, and for saving) only when it is no echo, the
/// window is the strip, and its size is known and at most 233 by 46; then it
/// always is, and the strip's place becomes the reported one. Otherwise the
/// strip's place is kept, and a move that is neither echo nor drag changes
/// nothing.
pub proof fn only_drags_of_the_strip_are_remembered(s: BossKeyState, p: Position, z: Option<Size>)
    ensures
        moved_state(s, p, z).is_compact == s.is_compact,
        moved_state(s, p, z).last_full_position == s.last_full_position,
        !s.is_compact ==> moved_outcome(s, p, z) != MoveOutcome::RememberCompact(p),
        !s.is_compact ==> moved_state(s, p, z).last_compact_position == s.last_compact_position,
        z is None ==> moved_state(s, p, z).last_compact_position == s.last_compact_position,
        (z matches Some(sz) && (sz.width > 233 || sz.height > 46)) ==> moved_state(
            s,
            p,
            z,
        ).last_compact_position == s.last_compact_position,
        moved_outcome(s, p, z) matches MoveOutcome::RememberCompact(q) ==> {
            &&& q == p
            &&& s.is_compact
            &&& z matches Some(sz) && sz.width <= 233 && sz.height <= 46
            &&& moved_state(s, p, z).last_compact_position == Some(p)
        },
        (moved_outcome(s, p, z) != MoveOutcome::Suppressed && s.is_compact && (z matches Some(sz)
            && sz.width <= 233 && sz.height <= 46)) ==> moved_outcome(s, p, z)
            == MoveOutcome::RememberCompact(p),
        !(moved_outcome(s, p, z) is RememberCompact) ==> moved_state(
            s,
            p,
            z,
        ).last_compact_position == s.last_compact_position,
        moved_outcome(s, p, z) == MoveOutcome::Ignored ==> moved_state(s, p, z) == s,
{
}

/// At start-up nothing is remembered and the window is not the strip.
/// Loading the saved state changes only the strip's place: a saved place
/// becomes the remembered one, no saved place keeps what was there. So F2 on
/// the visible panel right after start-up shows the strip, at the saved
/// place if there is one.
pub proof fn loading_saved_state_changes_only_the_strip_place(
    s: BossKeyState,
    d: DesktopState,
    area: Option<WorkArea>,
)
    ensures
        initial_state().last_full_position is None,
        initial_state().last_compact_position is None,
        !initial_state().is_compact,
        initial_state().suppressed_move_position is None,
        restored_state(s, d).is_compact == s.is_compact,
        restored_state(s, d).last_full_position == s.last_full_position,
        restored_state(s, d).suppressed_move_position == s.suppressed_move_position,
        d.compact_position matches Some(q) ==> restored_state(s, d).last_compact_position == Some(
            Position { x: q.x, y: q.y },
        ),
        d.compact_position is None ==> restored_state(s, d) == s,
        !toggle_shows_main_spec(restored_state(initial_state(), d), true),
        d.compact_position matches Some(q) ==> compact_position(restored_state(s, d), area) == (
        Position { x: q.x, y: q.y }),
{
}

} // verus!
