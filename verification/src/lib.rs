//! Verified core of the herdr-e2b sandbox dashboard: record handling, shell
//! quoting, theming, and the key-driven state machine of the board.
pub mod text;
pub mod state;
pub mod actions;
pub mod theme;
pub mod board;
pub mod app;
