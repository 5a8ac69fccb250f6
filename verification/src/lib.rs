//! Window-placement logic of the fund-baby desktop widget: the rules that
//! decide where the main panel and the compact daily-profit strip are shown,
//! which window moves are echoes of the program's own moves, what is kept on
//! disk between runs, and how tray-menu ids and export file names are formed.

pub mod geometry;
pub mod desktop_state;
pub mod window;
pub mod text;
pub mod menu;
pub mod export;
pub mod clock;
pub mod laws;
pub mod state_laws;
