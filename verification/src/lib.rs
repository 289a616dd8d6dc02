//! Conversation orchestration core for a live-chat narrator.
//!
//! The library keeps a single, strictly ordered conversation history,
//! normalizes raw producer text into tagged turns, records completion
//! outcomes, and segments a reply into speakable fragments.  All I/O —
//! polling the chat feed, calling the completion service, speaking the
//! fragments — lives outside the library and exchanges plain values
//! with it.

pub mod turn;
pub mod store;
pub mod norm;
pub mod segment;
pub mod dispatch;
