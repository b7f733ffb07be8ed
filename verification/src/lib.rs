//! The core of a chat server, without its sockets and its database.
//!
//! Everything that the server decides is decided here: who gets in, what is stored,
//! who is told what, and what goes through the core server that links the chat
//! servers. What it takes to act on these decisions (reading, writing, waiting) is
//! left to the caller. An operation that has to wait for something is a function from
//! an event to an action; the caller carries the action out and comes back with the
//! event that answers it.
//!
//! - `protocol`: the values that are exchanged.
//! - `rows`: what the store keeps.
//! - `db`: the operations on the store.
//! - `connection`: who is connected.
//! - `handlers`: what a client's messages lead to.
//! - `session`: what a connection goes through.
//! - `core_link`: the link to the core server.
//! - `outside`: the calls into other crates.
//! - `guarantees`: what each operation is for, told of what it is handed and what it
//!   returns.
//! - `laws`: what holds of whole runs and of several operations together.
pub mod connection;
pub mod core_link;
pub mod db;
pub mod guarantees;
pub mod handlers;
pub mod laws;
pub mod outside;
pub mod protocol;
pub mod rows;
mod sequences;
pub mod session;
mod text;
