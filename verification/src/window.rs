//! The boss-key state machine: what the widget remembers about its main
//! window, and the window operations each user action turns into.
//!
//! Every operation here takes the current state and what the windowing
//! system reported, makes the state changes that come before any window
//! operation, and returns the rest as a sequence of steps: window operations,
//! which the caller performs on the real window, and state steps, which it
//! takes with `BossKeyState::apply_step` at their place in the sequence, so
//! that a move report arriving meanwhile meets the state it would meet there.

use vstd::prelude::*;
use crate::geometry::{Position, Size, WorkArea, near, is_near_position};
use crate::desktop_state::DesktopState;

verus! {

/// Width of the main panel.
pub const FULL_WINDOW_WIDTH: u32 = 720;
/// Height of the main panel.
pub const FULL_WINDOW_HEIGHT: u32 = 360;
/// Smallest width the main panel may be resized to.
pub const FULL_WINDOW_MIN_WIDTH: u32 = 620;
/// Smallest height the main panel may be resized to.
pub const FULL_WINDOW_MIN_HEIGHT: u32 = 220;
/// Largest width the main panel may be resized to.
pub const FULL_WINDOW_MAX_WIDTH: u32 = 900;
/// Largest height the main panel may be resized to.
pub const FULL_WINDOW_MAX_HEIGHT: u32 = 700;
/// Width of the compact daily-profit strip.
pub const COMPACT_WINDOW_WIDTH: u32 = 225;
/// Height of the compact daily-profit strip.
pub const COMPACT_WINDOW_HEIGHT: u32 = 38;
/// Gap kept between the compact strip and the edges of the work area.
pub const COMPACT_WINDOW_MARGIN: i32 = 4;
/// Vertical place of the compact strip when no monitor is known.
pub const FALLBACK_COMPACT_Y: i32 = 720;
/// Place of the main panel when no earlier place is remembered.
pub const DEFAULT_FULL_X: i32 = 120;
/// Place of the main panel when no earlier place is remembered.
pub const DEFAULT_FULL_Y: i32 = 120;
/// A window whose outer corner lies at or beyond this coordinate is
/// minimised off screen; its place is not worth remembering.
pub const OFFSCREEN_COORDINATE: i32 = -30000;
/// How much larger than the compact size a window may be and still count as
/// the compact strip.
pub const COMPACT_SIZE_SLACK: u32 = 8;

/// One step of a returned sequence: an operation on the main window, or a
/// step of the widget's own state.
#[derive(Clone, Copy, Debug, PartialEq, Eq, Structural)]
pub enum WindowAction {
    Show,
    Hide,
    SetResizable(bool),
    SetMinSize(Size),
    SetMaxSize(Size),
    SetSize(Size),
    SetPosition(Position),
    SetFocus,
    /// Tell the page whether it is now shown as the compact strip.
    EmitCompact(bool),
    /// Ask the page to refresh its quotes.
    EmitRefresh,
    /// Not a window operation but a step of the widget's own state, taken at
    /// this point of the sequence: the program is about to move the window
    /// here, so the move report this causes is its own echo.
    ExpectMove(Position),
    /// A step of the widget's own state, taken at this point of the
    /// sequence: the window is (or is no longer) the compact strip.
    MarkCompact(bool),
}

/// What a reported window move turned out to be.
#[derive(Clone, Copy, Debug, PartialEq, Eq, Structural)]
pub enum MoveOutcome {
    /// The echo of a move the program made itself; nothing is remembered.
    Suppressed,
    /// A move that changes nothing.
    Ignored,
    /// The user dragged the compact strip here; the place is remembered and
    /// should be saved to disk.
    RememberCompact(Position),
}

/// What the widget remembers about its main window during a run.
#[derive(Clone, Copy, Debug, PartialEq, Eq, Structural)]
pub struct BossKeyState {
    /// Where the main panel stood before it last became the compact strip.
    pub last_full_position: Option<Position>,
    /// Where the user last put the compact strip.
    pub last_compact_position: Option<Position>,
    /// Whether the window is currently the compact strip.
    pub is_compact: bool,
    /// A place the program just moved the window to, whose move report is
    /// still expected.
    pub suppressed_move_position: Option<Position>,
}

impl Default for BossKeyState {
    /// Nothing remembered, window not compact.
    fn default() -> (r: BossKeyState)
        ensures
            r == initial_state(),
    {
        BossKeyState {
            last_full_position: None,
            last_compact_position: None,
            is_compact: false,
            suppressed_move_position: None,
        }
    }
}

/// The state at start-up.
pub open spec fn initial_state() -> BossKeyState {
    BossKeyState {
        last_full_position: None,
        last_compact_position: None,
        is_compact: false,
        suppressed_move_position: None,
    }
}

pub open spec fn full_window_size() -> Size {
    Size { width: FULL_WINDOW_WIDTH, height: FULL_WINDOW_HEIGHT }
}

pub open spec fn full_window_min_size() -> Size {
    Size { width: FULL_WINDOW_MIN_WIDTH, height: FULL_WINDOW_MIN_HEIGHT }
}

pub open spec fn full_window_max_size() -> Size {
    Size { width: FULL_WINDOW_MAX_WIDTH, height: FULL_WINDOW_MAX_HEIGHT }
}

pub open spec fn compact_window_size() -> Size {
    Size { width: COMPACT_WINDOW_WIDTH, height: COMPACT_WINDOW_HEIGHT }
}

/// The operations that turn the window into the main panel at `position`,
/// with the move to it expected just before it is made.
pub open spec fn full_window_actions(position: Position) -> Seq<WindowAction> {
    seq![
        WindowAction::Show,
        WindowAction::SetResizable(true),
        WindowAction::SetMinSize(full_window_min_size()),
        WindowAction::SetMaxSize(full_window_max_size()),
        WindowAction::SetSize(full_window_size()),
        WindowAction::ExpectMove(position),
        WindowAction::SetPosition(position),
        WindowAction::SetFocus,
        WindowAction::EmitCompact(false),
        WindowAction::EmitRefresh,
    ]
}

/// The F2 form of `full_window_actions`: compact mode is left only once the
/// panel has its size, just before the move is expected.
pub open spec fn full_window_actions_instant(position: Position) -> Seq<WindowAction> {
    seq![
        WindowAction::Show,
        WindowAction::SetResizable(true),
        WindowAction::SetMinSize(full_window_min_size()),
        WindowAction::SetMaxSize(full_window_max_size()),
        WindowAction::SetSize(full_window_size()),
        WindowAction::MarkCompact(false),
        WindowAction::ExpectMove(position),
        WindowAction::SetPosition(position),
        WindowAction::SetFocus,
        WindowAction::EmitCompact(false),
        WindowAction::EmitRefresh,
    ]
}

/// The operations that turn the window into the compact strip at `position`:
/// the move is expected just before it is made, and the window counts as the
/// strip once it stands there.
pub open spec fn compact_window_actions(position: Position) -> Seq<WindowAction> {
    seq![
        WindowAction::Show,
        WindowAction::SetResizable(false),
        WindowAction::SetMinSize(compact_window_size()),
        WindowAction::SetMaxSize(compact_window_size()),
        WindowAction::SetSize(compact_window_size()),
        WindowAction::ExpectMove(position),
        WindowAction::SetPosition(position),
        WindowAction::MarkCompact(true),
        WindowAction::EmitCompact(true),
    ]
}

/// The widget's state after one step of a sequence: the two state steps
/// change it, window operations leave it as it is.
pub open spec fn step_state(s: BossKeyState, a: WindowAction) -> BossKeyState {
    match a {
        WindowAction::ExpectMove(p) => BossKeyState { suppressed_move_position: Some(p), ..s },
        WindowAction::MarkCompact(b) => BossKeyState { is_compact: b, ..s },
        _ => s,
    }
}

/// The widget's state after the first `n` steps of `acts`.
pub open spec fn run_prefix(s: BossKeyState, acts: Seq<WindowAction>, n: nat) -> BossKeyState
    decreases n,
{
    if n == 0 {
        s
    } else {
        step_state(run_prefix(s, acts, (n - 1) as nat), acts[n - 1])
    }
}

/// The widget's state after all steps of `acts`.
pub open spec fn run_steps(s: BossKeyState, acts: Seq<WindowAction>) -> BossKeyState {
    run_prefix(s, acts, acts.len())
}

/// The operations that hide the window to the tray.
pub open spec fn hide_window_actions() -> Seq<WindowAction> {
    seq![WindowAction::EmitCompact(false), WindowAction::Hide]
}

/// Where the main panel is shown: where it stood before it became compact,
/// else the default place.
pub open spec fn full_position(s: BossKeyState) -> Position {
    match s.last_full_position {
        Some(p) => p,
        None => Position { x: DEFAULT_FULL_X, y: DEFAULT_FULL_Y },
    }
}

/// The state after the main panel is shown.
pub open spec fn show_main_state(s: BossKeyState) -> BossKeyState {
    BossKeyState {
        last_full_position: None,
        last_compact_position: s.last_compact_position,
        is_compact: false,
        suppressed_move_position: Some(full_position(s)),
    }
}

/// The state as soon as the main panel is asked for, before any window
/// operation: compact mode is left and the panel's remembered place is used
/// up.
pub open spec fn show_main_begin(s: BossKeyState) -> BossKeyState {
    BossKeyState { last_full_position: None, is_compact: false, ..s }
}

/// The state as soon as the main panel is asked for by F2: the panel's
/// remembered place is used up.
pub open spec fn show_main_instant_begin(s: BossKeyState) -> BossKeyState {
    BossKeyState { last_full_position: None, ..s }
}

/// The state after the window is hidden to the tray.
pub open spec fn hide_state(s: BossKeyState) -> BossKeyState {
    BossKeyState { is_compact: false, ..s }
}

/// A window corner that is on screen, not parked by minimising.
pub open spec fn on_screen(p: Position) -> bool {
    p.x > OFFSCREEN_COORDINATE && p.y > OFFSCREEN_COORDINATE
}

/// Horizontal place of the compact strip in a work area: the left edge plus
/// the margin.
pub open spec fn anchor_x(a: WorkArea) -> int {
    a.position.x + COMPACT_WINDOW_MARGIN
}

/// Vertical place of the compact strip in a work area: the bottom edge less
/// the strip's height and the margin. The height is read as a signed 32-bit
/// number, as the windowing code does.
pub open spec fn anchor_y(a: WorkArea) -> int {
    a.position.y + (a.size.height as i32) - (COMPACT_WINDOW_HEIGHT as int) - COMPACT_WINDOW_MARGIN
}

/// Whether the bottom-left place of the compact strip in `a` is a valid
/// coordinate pair.
pub open spec fn anchor_fits(a: WorkArea) -> bool {
    &&& i32::MIN <= anchor_x(a) <= i32::MAX
    &&& i32::MIN <= anchor_y(a) <= i32::MAX
}

/// The bottom-left place of the compact strip in a work area.
pub open spec fn compact_anchor_position(a: WorkArea) -> Position {
    Position { x: anchor_x(a) as i32, y: anchor_y(a) as i32 }
}

/// Where the compact strip is shown: where the user last put it, else the
/// bottom-left corner of the work area, else a fixed place.
pub open spec fn compact_position(s: BossKeyState, area: Option<WorkArea>) -> Position {
    match s.last_compact_position {
        Some(p) => p,
        None => match area {
            Some(a) => compact_anchor_position(a),
            None => Position { x: COMPACT_WINDOW_MARGIN, y: FALLBACK_COMPACT_Y },
        },
    }
}

/// Whether the compact strip can be placed: a remembered place needs no
/// arithmetic, a work area must give a valid corner.
pub open spec fn compact_placeable(s: BossKeyState, area: Option<WorkArea>) -> bool {
    s.last_compact_position is None ==> (area matches Some(a) ==> anchor_fits(a))
}

/// The main panel's place remembered when the compact strip is shown: the
/// panel's current place if it was the main panel and on screen, else what
/// was remembered before.
pub open spec fn remembered_full_position(s: BossKeyState, outer: Option<Position>) -> Option<Position> {
    if !s.is_compact && (outer matches Some(p) && on_screen(p)) {
        outer
    } else {
        s.last_full_position
    }
}

/// The state after the compact strip is shown, given the window's place
/// before and the work area of its monitor, as far as they were known.
pub open spec fn show_compact_state(
    s: BossKeyState,
    outer: Option<Position>,
    area: Option<WorkArea>,
) -> BossKeyState {
    BossKeyState {
        last_full_position: remembered_full_position(s, outer),
        last_compact_position: s.last_compact_position,
        is_compact: true,
        suppressed_move_position: Some(compact_position(s, area)),
    }
}

/// The state as soon as the compact strip is asked for, before any window
/// operation: the main panel's place is remembered.
pub open spec fn show_compact_begin(s: BossKeyState, outer: Option<Position>) -> BossKeyState {
    BossKeyState { last_full_position: remembered_full_position(s, outer), ..s }
}

proof fn lemma_show_main_steps(s: BossKeyState)
    ensures
        run_steps(show_main_begin(s), full_window_actions(full_position(s))) == show_main_state(s),
        run_steps(show_main_instant_begin(s), full_window_actions_instant(full_position(s)))
            == show_main_state(s),
{
    reveal_with_fuel(run_prefix, 12);
}

proof fn lemma_show_compact_steps(s: BossKeyState, outer: Option<Position>, area: Option<WorkArea>)
    ensures
        run_steps(show_compact_begin(s, outer), compact_window_actions(compact_position(s, area)))
            == show_compact_state(s, outer, area),
{
    reveal_with_fuel(run_prefix, 10);
}

/// Whether the F2 toggle shows the main panel (rather than the compact
/// strip): when a main-panel place is remembered, when the window is not
/// visible, or when it is the compact strip.
pub open spec fn toggle_shows_main_spec(s: BossKeyState, visible: bool) -> bool {
    s.last_full_position is Some || !visible || s.is_compact
}

/// A window size that counts as the compact strip.
pub open spec fn compact_sized(size: Size) -> bool {
    &&& size.width <= COMPACT_WINDOW_WIDTH + COMPACT_SIZE_SLACK
    &&& size.height <= COMPACT_WINDOW_HEIGHT + COMPACT_SIZE_SLACK
}

/// The state after a move of the window to `position` is reported, with the
/// window's outer size as far as it was known.
pub open spec fn moved_state(s: BossKeyState, position: Position, outer_size: Option<Size>) -> BossKeyState {
    if s.suppressed_move_position matches Some(t) && near(t, position) {
        BossKeyState { suppressed_move_position: None, ..s }
    } else if s.is_compact && (outer_size matches Some(z) && compact_sized(z)) {
        BossKeyState { last_compact_position: Some(position), ..s }
    } else {
        s
    }
}

/// What a reported move of the window to `position` is.
pub open spec fn moved_outcome(s: BossKeyState, position: Position, outer_size: Option<Size>) -> MoveOutcome {
    if s.suppressed_move_position matches Some(t) && near(t, position) {
        MoveOutcome::Suppressed
    } else if s.is_compact && (outer_size matches Some(z) && compact_sized(z)) {
        MoveOutcome::RememberCompact(position)
    } else {
        MoveOutcome::Ignored
    }
}

/// The state after the saved desktop state is loaded at start-up.
pub open spec fn restored_state(s: BossKeyState, saved: DesktopState) -> BossKeyState {
    match saved.compact_position {
        Some(p) => BossKeyState { last_compact_position: Some(Position { x: p.x, y: p.y }), ..s },
        None => s,
    }
}

/// The bottom-left place of the compact strip in `area`, or `None` when that
/// place is not a valid coordinate pair.
pub fn compact_anchor(area: WorkArea) -> (r: Option<Position>)
    ensures
        r == (if anchor_fits(area) { Some(compact_anchor_position(area)) } else { None::<Position> }),
{
    let h: i32 = area.size.height as i32;
    let x: i64 = area.position.x as i64 + COMPACT_WINDOW_MARGIN as i64;
    let y: i64 = area.position.y as i64 + h as i64 - COMPACT_WINDOW_HEIGHT as i64
        - COMPACT_WINDOW_MARGIN as i64;
    if x < i32::MIN as i64 || x > i32::MAX as i64 || y < i32::MIN as i64 || y > i32::MAX as i64 {
        None
    } else {
        Some(Position { x: x as i32, y: y as i32 })
    }
}

fn full_window_plan(position: Position, instant: bool) -> (v: Vec<WindowAction>)
    ensures
        !instant ==> v@ == full_window_actions(position),
        instant ==> v@ == full_window_actions_instant(position),
{
    let mut v: Vec<WindowAction> = Vec::new();
    v.push(WindowAction::Show);
    v.push(WindowAction::SetResizable(true));
    v.push(WindowAction::SetMinSize(Size { width: FULL_WINDOW_MIN_WIDTH, height: FULL_WINDOW_MIN_HEIGHT }));
    v.push(WindowAction::SetMaxSize(Size { width: FULL_WINDOW_MAX_WIDTH, height: FULL_WINDOW_MAX_HEIGHT }));
    v.push(WindowAction::SetSize(Size { width: FULL_WINDOW_WIDTH, height: FULL_WINDOW_HEIGHT }));
    if instant {
        v.push(WindowAction::MarkCompact(false));
    }
    v.push(WindowAction::ExpectMove(position));
    v.push(WindowAction::SetPosition(position));
    v.push(WindowAction::SetFocus);
    v.push(WindowAction::EmitCompact(false));
    v.push(WindowAction::EmitRefresh);
    if instant {
        assert(v@ =~= full_window_actions_instant(position));
    } else {
        assert(v@ =~= full_window_actions(position));
    }
    v
}

fn compact_window_plan(position: Position) -> (v: Vec<WindowAction>)
    ensures
        v@ == compact_window_actions(position),
{
    let compact = Size { width: COMPACT_WINDOW_WIDTH, height: COMPACT_WINDOW_HEIGHT };
    let mut v: Vec<WindowAction> = Vec::new();
    v.push(WindowAction::Show);
    v.push(WindowAction::SetResizable(false));
    v.push(WindowAction::SetMinSize(compact));
    v.push(WindowAction::SetMaxSize(compact));
    v.push(WindowAction::SetSize(compact));
    v.push(WindowAction::ExpectMove(position));
    v.push(WindowAction::SetPosition(position));
    v.push(WindowAction::MarkCompact(true));
    v.push(WindowAction::EmitCompact(true));
    assert(v@ =~= compact_window_actions(position));
    v
}

impl BossKeyState {
    /// Remembers that the program is about to move the window to `position`,
    /// so that the move report it causes is not taken for a user drag.
    pub fn suppress_programmatic_move(&mut self, position: Position)
        ensures
            *final(self) == (BossKeyState { suppressed_move_position: Some(position), ..*old(self) }),
    {
        self.suppressed_move_position = Some(position);
    }

    /// Takes one step of a returned sequence that concerns the widget's own
    /// state (`ExpectMove`, `MarkCompact`); window operations leave the state
    /// as it is. The caller takes each step at its place in the sequence.
    pub fn apply_step(&mut self, action: WindowAction)
        ensures
            *final(self) == step_state(*old(self), action),
    {
        match action {
            WindowAction::ExpectMove(p) => self.suppress_programmatic_move(p),
            WindowAction::MarkCompact(b) => {
                self.is_compact = b;
            },
            _ => {},
        }
    }

    /// Shows the main panel where it stood before it became compact (else at
    /// the default place) and forgets that place. Compact mode is left at
    /// once; the move to the panel's place is expected just before it is
    /// made.
    pub fn show_main_window(&mut self) -> (actions: Vec<WindowAction>)
        ensures
            *final(self) == show_main_begin(*old(self)),
            actions@ == full_window_actions(full_position(*old(self))),
            run_steps(*final(self), actions@) == show_main_state(*old(self)),
    {
        self.is_compact = false;
        let position = match self.last_full_position {
            Some(p) => p,
            None => Position { x: DEFAULT_FULL_X, y: DEFAULT_FULL_Y },
        };
        self.last_full_position = None;
        proof {
            lemma_show_main_steps(*old(self));
        }
        full_window_plan(position, false)
    }

    /// The F2 form of `show_main_window`: compact mode is left only after the
    /// panel has its size, just before the move is expected. It ends in the
    /// same state.
    pub fn show_main_window_instant(&mut self) -> (actions: Vec<WindowAction>)
        ensures
            *final(self) == show_main_instant_begin(*old(self)),
            actions@ == full_window_actions_instant(full_position(*old(self))),
            run_steps(*final(self), actions@) == show_main_state(*old(self)),
    {
        let position = match self.last_full_position {
            Some(p) => p,
            None => Position { x: DEFAULT_FULL_X, y: DEFAULT_FULL_Y },
        };
        self.last_full_position = None;
        proof {
            lemma_show_main_steps(*old(self));
        }
        full_window_plan(position, true)
    }

    /// Leaves compact mode and hides the window to the tray.
    pub fn hide_main_window(&mut self) -> (actions: Vec<WindowAction>)
        ensures
            *final(self) == hide_state(*old(self)),
            actions@ == hide_window_actions(),
    {
        self.is_compact = false;
        let mut v: Vec<WindowAction> = Vec::new();
        v.push(WindowAction::EmitCompact(false));
        v.push(WindowAction::Hide);
        assert(v@ =~= hide_window_actions());
        v
    }

    /// Whether the compact strip can be placed with this work area (see
    /// `compact_placeable`).
    pub fn can_show_compact(&self, work_area: Option<WorkArea>) -> (r: bool)
        ensures
            r == compact_placeable(*self, work_area),
    {
        match self.last_compact_position {
            Some(_) => true,
            None => match work_area {
                Some(a) => compact_anchor(a).is_some(),
                None => true,
            },
        }
    }

    /// Turns the window into the compact daily-profit strip.
    ///
    /// `outer_position` is the window's place before, `work_area` the work
    /// area of its monitor, each `None` where the windowing system could not
    /// tell. Coming from the main panel, an on-screen place is remembered so
    /// that the panel can return there. The strip goes where the user last
    /// put it, else to the bottom-left corner of the work area, else to a
    /// fixed place.
    pub fn show_compact_profit_window(
        &mut self,
        outer_position: Option<Position>,
        work_area: Option<WorkArea>,
    ) -> (actions: Vec<WindowAction>)
        requires
            compact_placeable(*old(self), work_area),
        ensures
            *final(self) == show_compact_begin(*old(self), outer_position),
            actions@ == compact_window_actions(compact_position(*old(self), work_area)),
            run_steps(*final(self), actions@) == show_compact_state(
                *old(self),
                outer_position,
                work_area,
            ),
    {
        if !self.is_compact {
            if let Some(p) = outer_position {
                if p.x > OFFSCREEN_COORDINATE && p.y > OFFSCREEN_COORDINATE {
                    self.last_full_position = Some(p);
                }
            }
        }
        let position = match self.last_compact_position {
            Some(p) => p,
            None => match work_area {
                Some(a) => match compact_anchor(a) {
                    Some(p) => p,
                    None => Position { x: COMPACT_WINDOW_MARGIN, y: FALLBACK_COMPACT_Y },
                },
                None => Position { x: COMPACT_WINDOW_MARGIN, y: FALLBACK_COMPACT_Y },
            },
        };
        proof {
            lemma_show_compact_steps(*old(self), outer_position, work_area);
        }
        compact_window_plan(position)
    }

    /// Whether the F2 toggle shows the main panel (see
    /// `toggle_shows_main_spec`); otherwise it shows the compact strip.
    pub fn toggle_shows_main(&self, window_visible: bool) -> (r: bool)
        ensures
            r == toggle_shows_main_spec(*self, window_visible),
    {
        self.last_full_position.is_some() || !window_visible || self.is_compact
    }

    /// The F2 toggle between the main panel and the compact strip.
    pub fn toggle_main_window_instant(
        &mut self,
        window_visible: bool,
        outer_position: Option<Position>,
        work_area: Option<WorkArea>,
    ) -> (actions: Vec<WindowAction>)
        requires
            !toggle_shows_main_spec(*old(self), window_visible) ==> compact_placeable(*old(self), work_area),
        ensures
            toggle_shows_main_spec(*old(self), window_visible) ==> {
                &&& *final(self) == show_main_instant_begin(*old(self))
                &&& actions@ == full_window_actions_instant(full_position(*old(self)))
                &&& run_steps(*final(self), actions@) == show_main_state(*old(self))
            },
            !toggle_shows_main_spec(*old(self), window_visible) ==> {
                &&& *final(self) == show_compact_begin(*old(self), outer_position)
                &&& actions@ == compact_window_actions(compact_position(*old(self), work_area))
                &&& run_steps(*final(self), actions@) == show_compact_state(
                    *old(self),
                    outer_position,
                    work_area,
                )
            },
    {
        if self.toggle_shows_main(window_visible) {
            self.show_main_window_instant()
        } else {
            self.show_compact_profit_window(outer_position, work_area)
        }
    }

    /// A report that the window moved to `position`; `outer_size` is the
    /// window's size, where it could be read.
    ///
    /// A report near the place the program last moved the window to is its
    /// echo: it is consumed and nothing else happens. Otherwise, in compact
    /// mode and at the compact size, the place is remembered for the strip.
    pub fn on_window_moved(&mut self, position: Position, outer_size: Option<Size>) -> (outcome: MoveOutcome)
        ensures
            *final(self) == moved_state(*old(self), position, outer_size),
            outcome == moved_outcome(*old(self), position, outer_size),
    {
        let suppressed = match self.suppressed_move_position {
            Some(target) => is_near_position(target, position),
            None => false,
        };
        if suppressed {
            self.suppressed_move_position = None;
            return MoveOutcome::Suppressed;
        }
        if self.is_compact {
            let compact_size = match outer_size {
                Some(z) => z.width <= COMPACT_WINDOW_WIDTH + COMPACT_SIZE_SLACK
                    && z.height <= COMPACT_WINDOW_HEIGHT + COMPACT_SIZE_SLACK,
                None => false,
            };
            if compact_size {
                self.last_compact_position = Some(position);
                return MoveOutcome::RememberCompact(position);
            }
        }
        MoveOutcome::Ignored
    }

    /// Loads the saved desktop state at start-up: a saved compact place
    /// becomes the remembered one.
    pub fn restore_saved(&mut self, saved: &DesktopState)
        ensures
            *final(self) == restored_state(*old(self), *saved),
    {
        if let Some(p) = saved.compact_position {
            self.last_compact_position = Some(Position::from(p));
        }
    }
}

} // verus!
