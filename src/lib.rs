//! Decisions of a command relay: a line typed by a user is turned into a
//! shell script to run in a sandboxed environment, and what that script
//! reports is turned into events for the presentation layer.
pub mod dispatch;
pub mod event;
pub mod shell;
pub mod store;
pub mod text;
