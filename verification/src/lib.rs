//! Engine support library: a ledger of tagged memory and the growable array built on
//! it, the input state of the engine, the text of its log, and what the messages of the
//! window system mean to it.

pub mod app;
pub mod collections;
pub mod event;
pub mod input;
pub mod log;
pub mod mem;
pub mod platform;
