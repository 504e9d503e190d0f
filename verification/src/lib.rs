//! A snapshot of the processes running on a host, with the name of each
//! process's executable image.
//!
//! The library holds the decisions of such a snapshot and none of the system
//! calls. A [`session::Session`] says which request to put to the operating
//! system next and takes the system's answer as plain data; the program
//! around it carries the requests out. Whatever the system answers, a
//! session never keeps a process handle open past the process it belongs to,
//! never reads past the end of a buffer, and reports one record for each
//! process that could be opened and named.

pub mod config;
pub mod error;
pub mod invariants;
pub mod model;
pub mod process;
pub mod protocol;
pub mod record;
pub mod session;
pub mod sized_query;
pub mod text;
