//! Decision logic of a Wayland clipboard client that works without a window.
//!
//! The crate holds the protocol engine of a data-control client as plain values:
//! which clipboard manager to bind, what each seat currently holds, which MIME
//! type a paste asks for, what a copy offers and how it answers paste requests.
//! Talking to the compositor itself is left to the caller, which reports what
//! arrived and performs what the engine decides.

pub mod capi;
pub mod clipboard_manager;
pub mod common;
pub mod copy;
pub mod data_control;
pub mod guarantees;
pub mod paste;
pub mod search;
pub mod seat_data;
pub mod utils;
pub mod wl_clip;
pub mod wl_copy;
pub mod wl_paste;
pub mod xdg_mime;
