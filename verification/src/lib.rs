//! Navigation state and viewport arithmetic of a terminal file browser.
//!
//! The crate owns the answer to three questions: where the browser stands,
//! what part of the listing is visible, and what changes when the selection
//! moves or the browser enters or leaves a directory. It touches no file and
//! no terminal: whoever drives it reads the disk and hands over what was
//! found.

pub mod text;
pub mod errors;
pub mod paths;
pub mod info;
pub mod logic;
pub mod listing;
pub mod snapshot;
pub mod category;
pub mod theorems;
