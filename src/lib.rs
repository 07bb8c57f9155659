//! Collects the pinned messages of a set of chats, orders them by date and
//! prepares their delivery as a JSON file.
pub mod auth;
pub mod collect;
pub mod date;
pub mod message;
pub mod order;
pub mod upload;
