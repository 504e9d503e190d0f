//! The driver of one snapshot.
//!
//! A [`Session`] is started with its settings and says what to ask of the
//! system first. Each answer is handed to [`Session::step`], which says what
//! to ask next, until it says that nothing is left to do. The session makes
//! no call itself: it can be driven by a real system or by a made-up one.

use crate::config::Config;
use crate::error::Error;
use crate::invariants::{at_work, inv, lemma_initial_inv, lemma_step_inv};
use crate::model::{first_request, initial, next_candidate, step, turn_to, PhaseView, SessionView};
use crate::process::{
    enumProcs, Process, MAX_PROC_NAME_LEN, OPEN_ACCESS, OPEN_INHERIT, PID_WIDTH,
};
use crate::protocol::{Action, Event};
use crate::record::ProcessRecord;
use vstd::prelude::*;

verus! {

#[derive(Debug)]
enum Phase {
    Enumerating,
    Opening,
    Probing(Process),
    Filling(Process),
    Naming(Process),
    Reporting(Process),
    Releasing,
    Done,
    Failed { code: u32 },
}

impl Phase {
    spec fn view(self) -> PhaseView {
        match self {
            Phase::Enumerating => PhaseView::Enumerating,
            Phase::Opening => PhaseView::Opening,
            Phase::Probing(process) => PhaseView::Probing { handle: process.raw() },
            Phase::Filling(process) => PhaseView::Filling { handle: process.raw() },
            Phase::Naming(process) => PhaseView::Naming { handle: process.raw() },
            Phase::Reporting(process) => PhaseView::Reporting { handle: process.raw() },
            Phase::Releasing => PhaseView::Releasing,
            Phase::Done => PhaseView::Done,
            Phase::Failed { code } => PhaseView::Failed { code },
        }
    }

    spec fn owner(self) -> Option<Process> {
        match self {
            Phase::Probing(process) => Some(process),
            Phase::Filling(process) => Some(process),
            Phase::Naming(process) => Some(process),
            Phase::Reporting(process) => Some(process),
            _ => None,
        }
    }
}

/// One snapshot in progress: the identifiers that the enumeration yielded,
/// the process that is being worked on, with its handle while one is open,
/// and the records made so far.
#[derive(Debug)]
pub struct Session {
    config: Config,
    phase: Phase,
    pids: Vec<u32>,
    next: usize,
    records: Vec<ProcessRecord>,
}

impl View for Session {
    type V = SessionView;

    closed spec fn view(&self) -> SessionView {
        SessionView {
            config: self.config,
            phase: self.phase.view(),
            pids: self.pids@,
            next: self.next as nat,
            records: self.records@.map_values(|r: ProcessRecord| r@),
        }
    }
}

fn seek(config: &Config, pids: &Vec<u32>, from: usize) -> (index: usize)
    requires
        from <= pids.len(),
    ensures
        index == next_candidate(pids@, from as nat, *config),
        from <= index <= pids.len(),
{
    let mut index = from;
    while index < pids.len() && !config.selects(pids[index])
        invariant
            from <= index <= pids.len(),
            next_candidate(pids@, index as nat, *config) == next_candidate(
                pids@,
                from as nat,
                *config,
            ),
        decreases pids.len() - index,
    {
        index = index + 1;
    }
    index
}

impl Session {
    /// Whether the session is in a state that a run can reach. Every session
    /// that [`Session::start`] and [`Session::step`] hand out is.
    pub closed spec fn wf(&self) -> bool {
        &&& inv(self@)
        &&& self.phase.owner() matches Some(process) ==> process.id() == self.pids[self.next as int]
    }

    /// A session in a state that a run can reach meets the invariant of the
    /// state machine.
    pub proof fn lemma_wf_inv(&self)
        requires
            self.wf(),
        ensures
            inv(self@),
    {
    }

    /// Starts a snapshot. The action is the first thing to ask of the
    /// system: the identifiers of the running processes.
    pub fn start(config: Config) -> (result: (Session, Action))
        ensures
            result.0.wf(),
            result.0@ == initial(config),
            result.1@ == first_request(config),
    {
        let capacity = config.max_pids();
        let session = Session {
            config,
            phase: Phase::Enumerating,
            pids: Vec::new(),
            next: 0,
            records: Vec::new(),
        };
        proof {
            lemma_initial_inv(config);
            assert(session@.records =~= initial(config).records);
        }
        (session, Action::Enumerate { capacity, bytes: capacity * PID_WIDTH })
    }

    fn turn_to(config: Config, pids: Vec<u32>, from: usize, records: Vec<ProcessRecord>) -> (result:
        (Session, Action))
        requires
            from <= pids.len(),
        ensures
            result.0.phase.owner() is None,
            (result.0@, result.1@) == turn_to(
                SessionView {
                    config,
                    phase: PhaseView::Releasing,
                    pids: pids@,
                    next: 0,
                    records: records@.map_values(|r: ProcessRecord| r@),
                },
                from as nat,
            ),
    {
        let index = seek(&config, &pids, from);
        if index < pids.len() {
            let pid = pids[index];
            (
                Session { config, phase: Phase::Opening, pids, next: index, records },
                Action::Open { pid, access: OPEN_ACCESS, inherit: OPEN_INHERIT },
            )
        } else {
            let next = pids.len();
            (Session { config, phase: Phase::Done, pids, next, records }, Action::Finish)
        }
    }

    fn let_go(
        config: Config,
        process: Process,
        pids: Vec<u32>,
        next: usize,
        records: Vec<ProcessRecord>,
    ) -> (result: (Session, Action))
        ensures
            result.0.phase.owner() is None,
            (result.0@, result.1@) == crate::model::let_go(
                SessionView {
                    config,
                    phase: PhaseView::Releasing,
                    pids: pids@,
                    next: next as nat,
                    records: records@.map_values(|r: ProcessRecord| r@),
                },
                process.raw(),
            ),
    {
        let handle = process.release();
        (
            Session { config, phase: Phase::Releasing, pids, next, records },
            Action::Release { handle },
        )
    }

    /// Takes the system's answer to the action that the session asked for
    /// last and says what to do next.
    ///
    /// The result is `None`, and the session as it was, where the event
    /// answers nothing that the session is waiting for; a session that has
    /// ended waits for nothing.
    pub fn step(self, event: Event) -> (result: (Session, Option<Action>))
        requires
            self.wf(),
        ensures
            result.0.wf(),
            (match step(self@, event@) {
                Some((state, action)) => result.0@ == state && (result.1 matches Some(a) && a@
                    == action),
                None => result.0@ == self@ && result.1 is None,
            }),
    {
        let ghost before = self@;
        let Session { config, phase, pids, next, records } = self;
        assert(at_work(before) ==> next < pids.len());
        let (session, action) = match phase {
            Phase::Enumerating => match event {
                Event::Enumerated(reply) => {
                    let code = reply.code;
                    match enumProcs(reply) {
                        Ok(found) => {
                            let (session, action) = Session::turn_to(config, found, 0, records);
                            (session, Some(action))
                        },
                        Err(error) => (
                            Session { config, phase: Phase::Failed { code }, pids, next, records },
                            Some(Action::Abort { error }),
                        ),
                    }
                },
                _ => (Session { config, phase: Phase::Enumerating, pids, next, records }, None),
            },
            Phase::Opening => match event {
                Event::Opened { handle, code } => {
                    let pid = pids[next];
                    match Process::open(pid, handle, code) {
                        Ok(process) => {
                            let handle = process.handle();
                            (
                                Session {
                                    config,
                                    phase: Phase::Probing(process),
                                    pids,
                                    next,
                                    records,
                                },
                                Some(Action::QueryModules { handle, capacity: 0, bytes: 0 }),
                            )
                        },
                        Err(_) => {
                            let (session, action) = Session::turn_to(
                                config,
                                pids,
                                next + 1,
                                records,
                            );
                            (session, Some(action))
                        },
                    }
                },
                _ => (Session { config, phase: Phase::Opening, pids, next, records }, None),
            },
            Phase::Probing(process) => match event {
                Event::Modules(probe) => match process.module_room(&probe) {
                    Ok(capacity) => {
                        let handle = process.handle();
                        let bytes = capacity * crate::process::module_handle_width();
                        (
                            Session { config, phase: Phase::Filling(process), pids, next, records },
                            Some(Action::QueryModules { handle, capacity, bytes }),
                        )
                    },
                    Err(_) => {
                        let (session, action) = Session::let_go(
                            config,
                            process,
                            pids,
                            next,
                            records,
                        );
                        (session, Some(action))
                    },
                },
                _ => (Session { config, phase: Phase::Probing(process), pids, next, records }, None),
            },
            Phase::Filling(process) => match event {
                Event::Modules(fill) => match process.enum_module(fill) {
                    Ok(modules) => {
                        if modules.len() > 0 {
                            let handle = process.handle();
                            let module = modules[0];
                            (
                                Session {
                                    config,
                                    phase: Phase::Naming(process),
                                    pids,
                                    next,
                                    records,
                                },
                                Some(
                                    Action::QueryName {
                                        handle,
                                        module,
                                        capacity: MAX_PROC_NAME_LEN,
                                    },
                                ),
                            )
                        } else {
                            let (session, action) = Session::let_go(
                                config,
                                process,
                                pids,
                                next,
                                records,
                            );
                            (session, Some(action))
                        }
                    },
                    Err(_) => {
                        let (session, action) = Session::let_go(
                            config,
                            process,
                            pids,
                            next,
                            records,
                        );
                        (session, Some(action))
                    },
                },
                _ => (Session { config, phase: Phase::Filling(process), pids, next, records }, None),
            },
            Phase::Naming(process) => match event {
                Event::Named { buffer, written, code } => match process.name(
                    buffer,
                    written,
                    code,
                ) {
                    Ok(name) => {
                        let record = ProcessRecord { pid: process.pid(), name };
                        let line = record.line();
                        let mut records = records;
                        let ghost earlier = records@.map_values(|r: ProcessRecord| r@);
                        records.push(record);
                        assert(records@.map_values(|r: ProcessRecord| r@) =~= earlier.push(
                            record@,
                        ));
                        (
                            Session {
                                config,
                                phase: Phase::Reporting(process),
                                pids,
                                next,
                                records,
                            },
                            Some(Action::Report { line }),
                        )
                    },
                    Err(_) => {
                        let (session, action) = Session::let_go(
                            config,
                            process,
                            pids,
                            next,
                            records,
                        );
                        (session, Some(action))
                    },
                },
                _ => (Session { config, phase: Phase::Naming(process), pids, next, records }, None),
            },
            Phase::Reporting(process) => match event {
                Event::Reported => {
                    let (session, action) = Session::let_go(config, process, pids, next, records);
                    (session, Some(action))
                },
                _ => (
                    Session { config, phase: Phase::Reporting(process), pids, next, records },
                    None,
                ),
            },
            Phase::Releasing => match event {
                Event::Released => {
                    let (session, action) = Session::turn_to(config, pids, next + 1, records);
                    (session, Some(action))
                },
                _ => (Session { config, phase: Phase::Releasing, pids, next, records }, None),
            },
            Phase::Done => (Session { config, phase: Phase::Done, pids, next, records }, None),
            Phase::Failed { code } => (
                Session { config, phase: Phase::Failed { code }, pids, next, records },
                None,
            ),
        };
        proof {
            if step(before, event@) is Some {
                lemma_step_inv(before, event@);
            }
        }
        (session, action)
    }

    /// Whether nothing is left to do: the snapshot is complete or has
    /// failed.
    pub fn is_finished(&self) -> (finished: bool)
        ensures
            finished == (self@.phase is Done || self@.phase is Failed),
    {
        match self.phase {
            Phase::Done => true,
            Phase::Failed { .. } => true,
            _ => false,
        }
    }

    /// The failure that ended the snapshot, if one did.
    pub fn failure(&self) -> (failure: Option<Error>)
        ensures
            failure == (match self@.phase {
                PhaseView::Failed { code } => Some(Error::EnumerationFailed { code }),
                _ => None,
            }),
    {
        match self.phase {
            Phase::Failed { code } => Some(Error::EnumerationFailed { code }),
            _ => None,
        }
    }

    /// The identifiers that the enumeration yielded, in the system's order.
    pub fn pids(&self) -> (pids: &Vec<u32>)
        ensures
            pids@ == self@.pids,
    {
        &self.pids
    }

    /// The records made so far, in the order of the enumeration.
    pub fn records(&self) -> (records: &Vec<ProcessRecord>)
        ensures
            records@.len() == self@.records.len(),
            forall|i: int| 0 <= i < records@.len() ==> (#[trigger] records@[i])@ == self@.records[i],
    {
        &self.records
    }

    /// Ends the session and hands out its records, in the order of the
    /// enumeration.
    pub fn into_records(self) -> (records: Vec<ProcessRecord>)
        ensures
            records@.len() == self@.records.len(),
            forall|i: int| 0 <= i < records@.len() ==> (#[trigger] records@[i])@ == self@.records[i],
    {
        self.records
    }
}

} // verus!
