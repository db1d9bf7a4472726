//! The selection engine of an interactive `.gitignore` builder: a catalog of
//! named templates split into selected and unselected ones, a prefix filter
//! typed one character at a time, the projection of both onto display lists,
//! and the workflow that decides how selections are written to disk.

pub mod template;
pub mod text;
pub mod filter;
pub mod projection;
pub mod save;
pub mod session;
pub mod source;
pub mod listing;
