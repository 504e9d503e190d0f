//! The requests that a session puts to the system, and the system's answers.

use crate::error::Error;
use crate::sized_query::{QueryReply, QueryReplyView};
use vstd::prelude::*;

verus! {

/// What the system answered to the request that a session made last.
#[derive(Debug)]
pub enum Event {
    /// The answer to [`Action::Enumerate`].
    Enumerated(QueryReply<u32>),
    /// The answer to [`Action::Open`]: the handle that came back, null where
    /// the system handed none out, and the system's error code.
    Opened { handle: usize, code: u32 },
    /// The answer to [`Action::QueryModules`].
    Modules(QueryReply<usize>),
    /// The answer to [`Action::QueryName`]: the buffer that was offered, the
    /// number of bytes written to it, none on failure, and the system's
    /// error code.
    Named { buffer: Vec<u8>, written: u32, code: u32 },
    /// The line of [`Action::Report`] was shown.
    Reported,
    /// The handle of [`Action::Release`] was closed. Whether closing it
    /// succeeded is of no account.
    Released,
}

/// An [`Event`] with its buffers as sequences.
pub enum EventView {
    Enumerated(QueryReplyView<u32>),
    Opened { handle: usize, code: u32 },
    Modules(QueryReplyView<usize>),
    Named { buffer: Seq<u8>, written: u32, code: u32 },
    Reported,
    Released,
}

impl View for Event {
    type V = EventView;

    open spec fn view(&self) -> EventView {
        match *self {
            Event::Enumerated(reply) => EventView::Enumerated(reply@),
            Event::Opened { handle, code } => EventView::Opened { handle, code },
            Event::Modules(reply) => EventView::Modules(reply@),
            Event::Named { buffer, written, code } => EventView::Named {
                buffer: buffer@,
                written,
                code,
            },
            Event::Reported => EventView::Reported,
            Event::Released => EventView::Released,
        }
    }
}

/// What the program around a session is to do next.
#[derive(Debug, PartialEq, Eq)]
pub enum Action {
    /// Query the identifiers of the running processes into a buffer of
    /// `capacity` identifiers, which are `bytes` bytes.
    Enumerate { capacity: u32, bytes: u32 },
    /// Ask for a handle to process `pid` with the rights `access`, inherited
    /// by child processes or not.
    Open { pid: u32, access: u32, inherit: bool },
    /// Query the module handles of the process behind `handle` into a buffer
    /// of `capacity` handles, which are `bytes` bytes.
    QueryModules { handle: usize, capacity: u32, bytes: u32 },
    /// Query the base name of `module` in the process behind `handle` into a
    /// buffer of `capacity` bytes.
    QueryName { handle: usize, module: usize, capacity: u32 },
    /// Show `line`, which stands for the record that was just made.
    Report { line: String },
    /// Close `handle`.
    Release { handle: usize },
    /// Nothing is left to do: the snapshot is complete.
    Finish,
    /// Nothing is left to do: the snapshot failed as a whole.
    Abort { error: Error },
}

/// An [`Action`] with its text as a sequence of characters.
pub enum ActionView {
    Enumerate { capacity: u32, bytes: u32 },
    Open { pid: u32, access: u32, inherit: bool },
    QueryModules { handle: usize, capacity: u32, bytes: u32 },
    QueryName { handle: usize, module: usize, capacity: u32 },
    Report { line: Seq<char> },
    Release { handle: usize },
    Finish,
    Abort { error: Error },
}

impl View for Action {
    type V = ActionView;

    open spec fn view(&self) -> ActionView {
        match *self {
            Action::Enumerate { capacity, bytes } => ActionView::Enumerate { capacity, bytes },
            Action::Open { pid, access, inherit } => ActionView::Open { pid, access, inherit },
            Action::QueryModules { handle, capacity, bytes } => ActionView::QueryModules {
                handle,
                capacity,
                bytes,
            },
            Action::QueryName { handle, module, capacity } => ActionView::QueryName {
                handle,
                module,
                capacity,
            },
            Action::Report { line } => ActionView::Report { line: line@ },
            Action::Release { handle } => ActionView::Release { handle },
            Action::Finish => ActionView::Finish,
            Action::Abort { error } => ActionView::Abort { error },
        }
    }
}

} // verus!
