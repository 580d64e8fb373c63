//! Safe wrappers over a foreign object-messaging runtime's web view.
//!
//! The library never talks to the foreign runtime itself. Every operation
//! decides, and appends to a [`runtime::Runtime`]'s outbox, the exact sequence of
//! foreign messages it needs; the host drains the outbox in order on the UI
//! thread. Foreign objects are named by slots that the library hands out, so
//! a message can address an object that an earlier message in the same outbox
//! creates.

pub mod foreign;
pub mod runtime;
pub mod layout;
pub mod config;
pub mod webview;
