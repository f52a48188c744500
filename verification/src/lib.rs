//! The verified core of a file search daemon: its wire protocol, the state it
//! keeps for every indexed directory, the way it answers requests, and the
//! client side of the conversation.
//!
//! Everything here computes on plain values. Sockets, processes, the clock and
//! the search engine itself live outside the library, which decides what is to
//! be asked of them and what their answers mean.

pub mod bench;
pub mod client;
pub mod connection;
pub mod convert;
pub mod coverage;
pub mod frame;
pub mod handler;
pub mod hash;
pub mod laws;
pub mod lifecycle;
pub mod link;
pub mod lua;
pub mod order;
pub mod path;
pub mod pid;
pub mod protocol;
pub mod recency;
pub mod socket;
pub mod spawn;
pub mod state;
pub mod table;
pub mod text;
