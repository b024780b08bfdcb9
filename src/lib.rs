//! An append-only mail record store with administrator-configured size limits.
//!
//! Every identity owns an inbox and a sent list; a send validates the message
//! body against the content limit, keeps a bounded preview of it, and appends
//! the resulting record to both lists. The inbox is read back a page at a
//! time, encoded with the MultiversX codec.

pub mod address;
pub mod codec;
pub mod email_box;
pub mod store;
pub mod summary;

pub use address::Address;
pub use codec::{encode_summary, serialize};
pub use email_box::{
    EmailBox, EmailError, DEFAULT_CONTENT_SIZE, DEFAULT_PREVIEW_SIZE, MAX_CONTENT_SIZE,
    MAX_PREVIEW_SIZE, MIN_CONTENT_SIZE, MIN_PREVIEW_SIZE,
};
pub use store::{ListKind, MailStore};
pub use summary::EmailSummary;
