//! An on-screen frames-per-second display controller.
//!
//! The controller owns a pausable interval timer, an enabled flag, a one-shot
//! forced-update flag and the last frames-per-second reading. Once per host
//! tick it decides whether to poll the diagnostic source and what text the
//! display should show, so that the display is rewritten at most once per
//! interval while enabled, is cleared promptly when disabled, and shows a
//! placeholder until the first reading arrives.
//!
//! The host (for example a game engine's per-frame scheduler) drives the
//! controller: it forwards elapsed milliseconds to [`ScreenDiagsState::on_tick`],
//! performs the returned [`TickAction`], and hands any polled reading back
//! through [`ScreenDiagsState::apply_sample`], which yields the exact text to
//! write.

pub mod model;
pub mod text;
pub mod state;
pub mod laws;

pub use model::DisplayModel;
pub use model::TickAction;
pub use state::ConfigError;
pub use state::ScreenDiagsState;
pub use text::FpsSample;
