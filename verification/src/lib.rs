//! A local password-entry catalog backed by encrypted files on disk, with
//! dispatch of long-running operations against an external credential tool.
//!
//! The library holds the verified core: catalog scanning and ordering, store
//! root resolution, the operation registry that guarantees at-most-one
//! concurrent operation per identity, the command executor's event discipline,
//! and the line-positional parsing of decrypted entries. Process spawning,
//! filesystem walking and the event channel transport live outside, in the
//! surrounding binary, which feeds this library plain values.

pub mod catalog;
pub mod clipboard;
pub mod dashboard;
pub mod details;
pub mod errors;
pub mod events;
pub mod executor;
pub mod password_info;
pub mod password_list;
pub mod password_store;
pub mod registry;
pub mod sidebar;
pub mod text;

pub use clipboard::copy_id;
pub use clipboard::get_clipboard;
pub use errors::PasswordError;
pub use events::ChannelEvent;
pub use password_info::PasswordInfo;
pub use password_store::PasswordStore;
