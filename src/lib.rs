//! A small TCP server core with verified request handling, a verified message
//! channel state machine and a poison-aware shared counter, together with a few
//! verified text and state utilities.
pub mod arith;
pub mod blog;
pub mod cell;
pub mod channel;
pub mod chat;
pub mod gui;
pub mod http;
pub mod listener;
pub mod minigrep;
pub mod minigrep_iter;
pub mod pool;
pub mod restaurant;
pub mod text;
