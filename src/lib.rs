//! Backend operations of a radial-menu editor: command catalogs, menu
//! documents stored as JSON, a remembered working directory, and the
//! decisions around native file pickers and file-access permission.
//!
//! Everything that touches the file system or the windowing system is done
//! by the caller; this crate holds what is decided and computed around it.

pub mod error;
pub mod json;
pub mod listing;
pub mod text;
pub mod preference;
pub mod catalog;
pub mod access;
pub mod dialog;
