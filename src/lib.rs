//! Routes directional focus and resize commands inside a terminal
//! multiplexer: to native actions, or, when a modal editor holds the focused
//! pane, to the keystrokes that the editor expects.
pub mod text;
pub mod classify;
pub mod command;
pub mod keys;
pub mod router;
