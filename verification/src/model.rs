//! The snapshot as a state machine over plain values.
//!
//! A session asks one thing of the system at a time and waits for the
//! answer. [`step`] says, for each state and each answer, which state follows
//! and what is asked next; [`run`] does so for a whole sequence of answers.

use crate::config::Config;
use crate::process::{
    enumerated, module_capacity, module_width, modules_of, name_of, MAX_PROC_NAME_LEN,
    OPEN_ACCESS, OPEN_INHERIT, PID_WIDTH,
};
use crate::protocol::{ActionView, EventView};
use crate::record::{line_of, ProcessRecordView};
use vstd::prelude::*;

verus! {

/// What a session is waiting for. From `Probing` to `Reporting` it owns the
/// handle `handle` of the process it is working on.
pub enum PhaseView {
    /// The answer to the enumeration.
    Enumerating,
    /// The answer to the request for a handle.
    Opening,
    /// The size that the modules of the process need.
    Probing { handle: usize },
    /// The module handles of the process.
    Filling { handle: usize },
    /// The base name of the executable image.
    Naming { handle: usize },
    /// Word that the record's line was shown.
    Reporting { handle: usize },
    /// Word that the handle was closed.
    Releasing,
    /// Nothing: every identifier was dealt with.
    Done,
    /// Nothing: the enumeration failed with the system's error `code`.
    Failed { code: u32 },
}

/// The state of a session.
pub struct SessionView {
    /// The settings that the session was started with.
    pub config: Config,
    pub phase: PhaseView,
    /// The identifiers that the enumeration yielded, in the system's order.
    pub pids: Seq<u32>,
    /// The index in `pids` of the process that is being worked on.
    pub next: nat,
    /// The records made so far, in the order of `pids`.
    pub records: Seq<ProcessRecordView>,
}

/// The state in which a session starts.
pub open spec fn initial(config: Config) -> SessionView {
    SessionView {
        config,
        phase: PhaseView::Enumerating,
        pids: Seq::empty(),
        next: 0,
        records: Seq::empty(),
    }
}

/// What a session asks first: the identifiers of the running processes, with
/// room for as many as the settings say.
pub open spec fn first_request(config: Config) -> ActionView {
    ActionView::Enumerate {
        capacity: config.limit(),
        bytes: (config.limit() * PID_WIDTH) as u32,
    }
}

/// The index of the first identifier at or after `from` that the settings
/// admit, or the length of `pids` where there is none.
pub open spec fn next_candidate(pids: Seq<u32>, from: nat, config: Config) -> nat
    decreases pids.len() - from,
{
    if from >= pids.len() {
        pids.len()
    } else if config.admits(pids[from as int]) {
        from
    } else {
        next_candidate(pids, from + 1, config)
    }
}

/// Turns to the next process at or after index `from`: asks for its handle,
/// or ends the run where no process is left.
pub open spec fn turn_to(s: SessionView, from: nat) -> (SessionView, ActionView) {
    let index = next_candidate(s.pids, from, s.config);
    if index < s.pids.len() {
        (
            SessionView { phase: PhaseView::Opening, next: index, ..s },
            ActionView::Open {
                pid: s.pids[index as int],
                access: OPEN_ACCESS,
                inherit: OPEN_INHERIT,
            },
        )
    } else {
        (SessionView { phase: PhaseView::Done, next: s.pids.len(), ..s }, ActionView::Finish)
    }
}

/// Gives the process up without a record: its handle is closed next.
pub open spec fn let_go(s: SessionView, handle: usize) -> (SessionView, ActionView) {
    (SessionView { phase: PhaseView::Releasing, ..s }, ActionView::Release { handle })
}

/// The identifier of the process that is being worked on.
pub open spec fn current(s: SessionView) -> u32 {
    s.pids[s.next as int]
}

/// The state that follows `s` on the answer `e`, and what is asked next.
/// `None` where `e` answers nothing that `s` is waiting for.
///
/// A failed enumeration ends the run. A process that cannot be opened is
/// passed over. A process whose modules or name cannot be had, or that has
/// no module, yields no record, and its handle is closed as that of any
/// other. The name asked for is that of the first module.
pub open spec fn step(s: SessionView, e: EventView) -> Option<(SessionView, ActionView)> {
    match (s.phase, e) {
        (PhaseView::Enumerating, EventView::Enumerated(reply)) => Some(
            match enumerated(reply) {
                Ok(pids) => turn_to(SessionView { pids, ..s }, 0),
                Err(error) => (
                    SessionView { phase: PhaseView::Failed { code: reply.code }, ..s },
                    ActionView::Abort { error },
                ),
            },
        ),
        (PhaseView::Opening, EventView::Opened { handle, code }) => Some(
            if handle != 0 {
                (
                    SessionView { phase: PhaseView::Probing { handle }, ..s },
                    ActionView::QueryModules { handle, capacity: 0, bytes: 0 },
                )
            } else {
                turn_to(s, s.next + 1)
            },
        ),
        (PhaseView::Probing { handle }, EventView::Modules(probe)) => Some(
            match module_capacity(current(s), probe) {
                Ok(capacity) => (
                    SessionView { phase: PhaseView::Filling { handle }, ..s },
                    ActionView::QueryModules {
                        handle,
                        capacity: capacity as u32,
                        bytes: (capacity * module_width()) as u32,
                    },
                ),
                Err(_) => let_go(s, handle),
            },
        ),
        (PhaseView::Filling { handle }, EventView::Modules(fill)) => Some(
            match modules_of(current(s), fill) {
                Ok(modules) => if modules.len() > 0 {
                    (
                        SessionView { phase: PhaseView::Naming { handle }, ..s },
                        ActionView::QueryName {
                            handle,
                            module: modules[0],
                            capacity: MAX_PROC_NAME_LEN,
                        },
                    )
                } else {
                    let_go(s, handle)
                },
                Err(_) => let_go(s, handle),
            },
        ),
        (PhaseView::Naming { handle }, EventView::Named { buffer, written, code }) => Some(
            match name_of(current(s), buffer, written, code) {
                Ok(name) => {
                    let record = ProcessRecordView { pid: current(s), name };
                    (
                        SessionView {
                            phase: PhaseView::Reporting { handle },
                            records: s.records.push(record),
                            ..s
                        },
                        ActionView::Report { line: line_of(record) },
                    )
                },
                Err(_) => let_go(s, handle),
            },
        ),
        (PhaseView::Reporting { handle }, EventView::Reported) => Some(let_go(s, handle)),
        (PhaseView::Releasing, EventView::Released) => Some(turn_to(s, s.next + 1)),
        _ => None,
    }
}

/// What a run of a session comes to.
pub struct Run {
    /// The state after the last answer.
    pub end: SessionView,
    /// What the session asked, in order.
    pub actions: Seq<ActionView>,
    /// The handles that the system handed out to the session, in order.
    pub acquired: Seq<usize>,
}

/// The handle that a session owns, as a sequence of one handle or none.
pub open spec fn holding(s: SessionView) -> Seq<usize> {
    match s.phase {
        PhaseView::Probing { handle } => seq![handle],
        PhaseView::Filling { handle } => seq![handle],
        PhaseView::Naming { handle } => seq![handle],
        PhaseView::Reporting { handle } => seq![handle],
        _ => Seq::empty(),
    }
}

/// The handle that the answer `e` hands to a session in state `s`, as a
/// sequence of one handle or none.
pub open spec fn acquires(s: SessionView, e: EventView) -> Seq<usize> {
    match (s.phase, e) {
        (PhaseView::Opening, EventView::Opened { handle, code }) => if handle != 0 {
            seq![handle]
        } else {
            Seq::empty()
        },
        _ => Seq::empty(),
    }
}

/// The handle that an action has closed, as a sequence of one handle or
/// none.
pub open spec fn releases(a: ActionView) -> Seq<usize> {
    match a {
        ActionView::Release { handle } => seq![handle],
        _ => Seq::empty(),
    }
}

/// The handles that a sequence of actions has closed, in order.
pub open spec fn released(actions: Seq<ActionView>) -> Seq<usize>
    decreases actions.len(),
{
    if actions.len() == 0 {
        Seq::empty()
    } else {
        releases(actions[0]) + released(actions.drop_first())
    }
}

/// Runs a session from state `s` through the answers `events`. An answer
/// that the session is not waiting for changes nothing.
pub open spec fn run(s: SessionView, events: Seq<EventView>) -> Run
    decreases events.len(),
{
    if events.len() == 0 {
        Run { end: s, actions: Seq::empty(), acquired: Seq::empty() }
    } else {
        match step(s, events[0]) {
            Some((t, a)) => {
                let rest = run(t, events.drop_first());
                Run {
                    end: rest.end,
                    actions: seq![a] + rest.actions,
                    acquired: acquires(s, events[0]) + rest.acquired,
                }
            },
            None => run(s, events.drop_first()),
        }
    }
}

} // verus!
