//! The logic of torfile, a download manager for the terminal over the aria2 daemon.
//!
//! The library holds no handle to the world: it computes what is sent to the daemon, to
//! the search engines and to the screen, and what their answers and the keys do to the
//! state. The program around it sends, receives and draws.
//!
//! - [`app`]: the state, and what messages and searches do to it.
//! - [`keys`]: what a key does to the state, and which action it calls for.
//! - [`render`]: what the state shows, in the plain widgets of [`screen`].
//! - [`aria2`], [`download`], [`background`]: the calls to the daemon and its reports.
//! - [`search`], [`trackers`]: the search engines, magnet links and tracker lists.
//! - [`json`], [`text`], [`double`], [`sizes`]: the values all of this is made of.
//! - [`laws`]: what holds of keys, messages and screen as a whole.
//! - [`text_laws`], [`report_laws`], [`search_laws`], [`action_laws`], [`screen_laws`]: what
//!   each operation is for, in terms of what goes in and what comes out.
//! - [`outside`]: the calls into other crates, whose contracts are taken on trust.

pub mod action_laws;
pub mod app;
pub mod aria2;
pub mod background;
pub mod double;
pub mod download;
pub mod json;
pub mod keys;
pub mod laws;
pub mod outside;
pub mod render;
pub mod report_laws;
pub mod screen;
pub mod screen_laws;
pub mod search;
pub mod search_laws;
pub mod sizes;
pub mod text;
pub mod text_laws;
pub mod trackers;
