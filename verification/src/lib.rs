//! The core of a keeper of chat events: every new, edited and deleted
//! message goes into an append-only log, every chat's last snapshot into a
//! cache and a table, and every attachment to a path of its own.
//!
//! The modules, leaves first: [`text`], [`bytes`] and [`filename`] hold
//! the building blocks; [`message`], [`media`] and [`chat`] model what
//! comes from the remote side; [`events`], [`cache`], [`store`] and [`db`]
//! keep it; [`summary`] words it for the log; [`supervisor`] decides what
//! the update loop does and how it stops; [`login`] decides how the login
//! prompt falls back.

pub mod bytes;
pub mod cache;
pub mod chat;
pub mod db;
pub mod events;
pub mod filename;
pub mod login;
pub mod media;
pub mod message;
pub mod store;
pub mod summary;
pub mod supervisor;
pub mod text;
