//! Keyboard-driven input resolution: a small grammar for modifier+key
//! bindings, a closed taxonomy of user actions, a mode-based dispatch table,
//! and a navigable focus tree for traversing the interface by keyboard.
pub mod act;
pub mod choices;
pub mod command;
pub mod convert;
pub mod dispatch;
pub mod focus;
pub mod tab;
pub mod table;
