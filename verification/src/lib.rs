//! A dashboard for the profiles of a tunnel service, and the modal line
//! editor that it edits them with.
//!
//! The editor is the larger part: a text buffer with a two-dimensional
//! cursor ([`buffer`]), a navigation mode and an insertion mode with a help
//! overlay ([`mode`]), and the session that feeds them one key at a time
//! until a key saves or cancels the edit ([`session`]). What holds of every
//! session, whatever keys arrive, is proved in [`laws`].
//!
//! Around it: how text is cut into lines ([`text`]), the keys ([`key`]) and
//! how terminal events are read as keys ([`terminal`]), the dashboard's
//! screens ([`dashboard`]), and what the dashboard knows of profiles and
//! of the reports of the service ([`profiles`]).

pub mod buffer;
pub mod dashboard;
pub mod key;
pub mod laws;
pub mod mode;
pub mod profiles;
pub mod session;
pub mod terminal;
pub mod text;
