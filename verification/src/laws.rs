//! Properties that hold across the operations of the library.

use vstd::prelude::*;
use crate::geometry::{Position, Size, WorkArea, SavedPosition, near};
use crate::desktop_state::DesktopState;
use crate::window::{
    BossKeyState, WindowAction, MoveOutcome, COMPACT_WINDOW_HEIGHT, COMPACT_WINDOW_MARGIN,
    full_position, show_main_state, hide_window_actions, full_window_actions_instant, hide_state, show_compact_state, compact_position,
    compact_placeable, full_window_actions, compact_window_actions, moved_state, moved_outcome,
    compact_sized, anchor_fits, on_screen, toggle_shows_main_spec, restored_state,
};
use crate::menu::{MenuCommand, menu_command_spec, opacity_prefix, strip_prefixes, all_digits, digits_value, is_digit};
use crate::export::{decimal, digit_char, export_file_name_spec};

verus! {

/// Being near is symmetric: the order of the two positions does not matter.
pub proof fn near_is_symmetric(a: Position, b: Position)
    ensures
        near(a, b) == near(b, a),
{
}

/// Every position is near itself.
pub proof fn near_is_reflexive(a: Position)
    ensures
        near(a, a),
{
}

/// Showing the main panel moves the window to the panel's place, expecting
/// the move just before it is made; the move report that this causes, at that place or within the tolerance of it, is
/// taken as the program's own echo: nothing is remembered and the
/// suppression is used up.
pub proof fn main_panel_move_echo_is_suppressed(s: BossKeyState, reported: Position, outer_size: Option<Size>)
    requires
        near(full_position(s), reported),
    ensures
        full_window_actions(full_position(s))[5] == WindowAction::ExpectMove(full_position(s)),
        full_window_actions(full_position(s))[6] == WindowAction::SetPosition(full_position(s)),
        moved_outcome(show_main_state(s), reported, outer_size) == MoveOutcome::Suppressed,
        moved_state(show_main_state(s), reported, outer_size) == (BossKeyState {
            suppressed_move_position: None,
            ..show_main_state(s)
        }),
{
}

/// Showing the compact strip moves the window to the strip's place,
/// expecting the move just before it is made; the move report that this
/// causes is taken as the program's own echo, so the place
/// the user chose for the strip is not overwritten by it.
pub proof fn compact_strip_move_echo_is_suppressed(
    s: BossKeyState,
    outer: Option<Position>,
    area: Option<WorkArea>,
    reported: Position,
    outer_size: Option<Size>,
)
    requires
        near(compact_position(s, area), reported),
    ensures
        compact_window_actions(compact_position(s, area))[5] == WindowAction::ExpectMove(
            compact_position(s, area),
        ),
        compact_window_actions(compact_position(s, area))[6] == WindowAction::SetPosition(
            compact_position(s, area),
        ),
        moved_outcome(show_compact_state(s, outer, area), reported, outer_size)
            == MoveOutcome::Suppressed,
        moved_state(show_compact_state(s, outer, area), reported, outer_size) == (BossKeyState {
            suppressed_move_position: None,
            ..show_compact_state(s, outer, area)
        }),
{
}

/// A drag of the compact strip (a move that is not an echo, reported while
/// the window is the strip and has the strip's size) is remembered: it is
/// reported for saving, and the next time the strip is shown it goes there.
pub proof fn dragged_compact_position_is_reused(
    s: BossKeyState,
    p: Position,
    size: Size,
    outer: Option<Position>,
    area: Option<WorkArea>,
)
    requires
        s.is_compact,
        compact_sized(size),
        !(s.suppressed_move_position matches Some(t) && near(t, p)),
    ensures
        moved_outcome(s, p, Some(size)) == MoveOutcome::RememberCompact(p),
        compact_position(moved_state(s, p, Some(size)), area) == p,
        compact_placeable(moved_state(s, p, Some(size)), area),
{
}

/// The place remembered for the compact strip survives showing and hiding the
/// main panel.
pub proof fn compact_position_survives_main_panel(s: BossKeyState, area: Option<WorkArea>)
    ensures
        compact_position(show_main_state(s), area) == compact_position(s, area),
        compact_position(hide_state(s), area) == compact_position(s, area),
{
}

/// With no place remembered, the compact strip goes to the bottom-left corner
/// of the monitor's work area: the margin right of its left edge, and with
/// its bottom the margin above the work area's bottom edge.
pub proof fn default_compact_position_is_bottom_left(s: BossKeyState, a: WorkArea)
    requires
        s.last_compact_position is None,
        anchor_fits(a),
        a.size.height <= i32::MAX,
    ensures
        compact_position(s, Some(a)).x == a.position.x + COMPACT_WINDOW_MARGIN,
        compact_position(s, Some(a)).y + COMPACT_WINDOW_HEIGHT + COMPACT_WINDOW_MARGIN
            == a.position.y + a.size.height,
{
}

/// Leaving the main panel for the compact strip and coming back returns the
/// panel to where it stood, when it stood on screen.
pub proof fn main_panel_returns_to_its_place(s: BossKeyState, p: Position, area: Option<WorkArea>)
    requires
        !s.is_compact,
        on_screen(p),
    ensures
        full_position(show_compact_state(s, Some(p), area)) == p,
        full_window_actions(full_position(show_compact_state(s, Some(p), area)))[6]
            == WindowAction::SetPosition(p),
{
}

/// F2 alternates: right after the main panel is shown (and visible), F2 shows
/// the compact strip; right after the compact strip is shown, F2 shows the
/// main panel.
pub proof fn f2_toggle_alternates(
    s: BossKeyState,
    outer: Option<Position>,
    area: Option<WorkArea>,
    visible: bool,
)
    ensures
        !toggle_shows_main_spec(show_main_state(s), true),
        toggle_shows_main_spec(show_compact_state(s, outer, area), visible),
{
}

/// Restoring the main panel asks the page to refresh, once and as the last
/// operation; showing the compact strip or hiding the window does not.
pub proof fn only_the_main_panel_refreshes(p: Position)
    ensures
        full_window_actions(p).last() == WindowAction::EmitRefresh,
        full_window_actions_instant(p).last() == WindowAction::EmitRefresh,
        forall|i: int| 0 <= i < full_window_actions_instant(p).len() - 1
            ==> full_window_actions_instant(p)[i] != WindowAction::EmitRefresh,
        forall|i: int| 0 <= i < full_window_actions(p).len() - 1
            ==> full_window_actions(p)[i] != WindowAction::EmitRefresh,
        forall|i: int| 0 <= i < compact_window_actions(p).len()
            ==> compact_window_actions(p)[i] != WindowAction::EmitRefresh,
        forall|i: int| 0 <= i < hide_window_actions().len()
            ==> hide_window_actions()[i] != WindowAction::EmitRefresh,
{
}

/// The window is the compact strip exactly after the strip is shown: showing
/// or hiding the main panel leaves compact mode.
pub proof fn compact_flag_follows_the_window(
    s: BossKeyState,
    outer: Option<Position>,
    area: Option<WorkArea>,
)
    ensures
        show_compact_state(s, outer, area).is_compact,
        !show_main_state(s).is_compact,
        !hide_state(s).is_compact,
{
}

/// A position survives being written in saved form and read back, and so
/// does a saved position read and written again.
pub proof fn saved_position_round_trip(p: Position, q: SavedPosition)
    ensures
        <Position as vstd::std_specs::convert::FromSpec<SavedPosition>>::from_spec(
            <SavedPosition as vstd::std_specs::convert::FromSpec<Position>>::from_spec(p),
        ) == p,
        <SavedPosition as vstd::std_specs::convert::FromSpec<Position>>::from_spec(
            <Position as vstd::std_specs::convert::FromSpec<SavedPosition>>::from_spec(q),
        ) == q,
{
}

/// A compact place saved to the desktop state is the remembered compact place
/// after the state is loaded at the next start.
pub proof fn saved_compact_position_is_restored(p: Position, s: BossKeyState)
    ensures
        restored_state(
            s,
            DesktopState { compact_position: Some(SavedPosition { x: p.x, y: p.y }) },
        ).last_compact_position == Some(p),
{
}

proof fn lemma_decimal_digits(n: nat)
    ensures
        decimal(n).len() >= 1,
        all_digits(decimal(n)),
        digits_value(decimal(n)) == n,
    decreases n,
{
    if n < 10 {
        let c = digit_char(n);
        assert(decimal(n) == seq![c]);
        assert(seq![c].drop_last() =~= Seq::<char>::empty());
        assert(c as int == n + 48);
        assert(digits_value(Seq::<char>::empty()) == 0);
        assert(digits_value(seq![c]) == n);
    } else {
        lemma_decimal_digits(n / 10);
        let c = digit_char(n % 10);
        let d = decimal(n / 10);
        assert(decimal(n) == d.push(c));
        assert(d.push(c).drop_last() =~= d);
        assert(c as int == n % 10 + 48);
        assert(digits_value(d.push(c)) == digits_value(d) * 10 + (n % 10));
        assert((n / 10) * 10 + n % 10 == n);
        assert forall|i: int| 0 <= i < d.push(c).len() implies is_digit(#[trigger] d.push(c)[i]) by {
            if i < d.len() {
                assert(d.push(c)[i] == d[i]);
            }
        }
    }
}

/// Different export times give different export file names.
pub proof fn export_file_names_differ(m1: nat, m2: nat)
    requires
        m1 != m2,
    ensures
        export_file_name_spec(m1) != export_file_name_spec(m2),
{
    reveal_strlit("realtime-fund-config-");
    reveal_strlit(".json");
    lemma_decimal_digits(m1);
    lemma_decimal_digits(m2);
    let p = "realtime-fund-config-"@;
    let q = ".json"@;
    let n1 = export_file_name_spec(m1);
    let n2 = export_file_name_spec(m2);
    assert(n1.subrange(p.len() as int, n1.len() - q.len()) =~= decimal(m1));
    assert(n2.subrange(p.len() as int, n2.len() - q.len()) =~= decimal(m2));
    if n1 == n2 {
        assert(decimal(m1) == decimal(m2));
    }
}

/// The id of an opacity menu item, `opacity:` followed by a percentage from 0
/// to 255 in decimal, stands for that opacity.
pub proof fn opacity_ids_name_their_percentage(n: nat)
    requires
        n <= 255,
    ensures
        menu_command_spec(opacity_prefix() + decimal(n)) == MenuCommand::Opacity(n as u8),
{
    reveal_strlit("opacity:");
    reveal_strlit("show");
    reveal_strlit("hide");
    reveal_strlit("import-data");
    reveal_strlit("export-data");
    reveal_strlit("autostart");
    reveal_strlit("quit");
    lemma_decimal_digits(n);
    let p = opacity_prefix();
    let d = decimal(n);
    let id = p + d;
    assert(id[0] == 'o');
    assert(id != "show"@);
    assert(id != "hide"@);
    assert(id != "import-data"@);
    assert(id != "export-data"@);
    assert(id != "autostart"@);
    assert(id != "quit"@);
    assert(id.subrange(0, 8) =~= p);
    assert(id.subrange(8, id.len() as int) =~= d);
    assert(is_digit(d[0]));
    if 8 <= d.len() {
        assert(d.subrange(0, 8)[0] == d[0]);
        assert(d.subrange(0, 8) != p);
    }
    assert(strip_prefixes(d, p) == d);
    assert(strip_prefixes(id, p) == d);
    assert(d[0] != '+');
}

} // verus!
