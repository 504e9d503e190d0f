use proclist::config::Config;
use proclist::error::Error;
use proclist::process::{MAX_PROC_NAME_LEN, OPEN_ACCESS};
use proclist::protocol::{Action, Event};
use proclist::record::ProcessRecord;
use proclist::session::Session;
use proclist::sized_query::QueryReply;

const WIDTH: u32 = std::mem::size_of::<usize>() as u32;

/// One process of a made-up system.
#[derive(Clone)]
struct FakeProcess {
    pid: u32,
    /// The handle that an open hands out; null where the system denies it.
    handle: usize,
    /// The module handles, the executable image first; `Err` where the
    /// module queries fail.
    modules: Result<Vec<usize>, u32>,
    /// Whether the second module query fails though the first did not.
    fill_fails: bool,
    /// The bytes that the system writes as the base name of any module.
    name: Vec<u8>,
}

impl FakeProcess {
    fn named(pid: u32, handle: usize, name: &str) -> FakeProcess {
        FakeProcess {
            pid,
            handle,
            modules: Ok(vec![0x40_0000 + pid as usize]),
            fill_fails: false,
            name: name.as_bytes().to_vec(),
        }
    }
}

/// A made-up system that keeps count of what it is asked.
struct FakeSystem {
    enumeration: Result<Vec<u32>, u32>,
    processes: Vec<FakeProcess>,
    opens: Vec<u32>,
    handed_out: Vec<usize>,
    closed: Vec<usize>,
    name_queries: Vec<(usize, usize)>,
    lines: Vec<String>,
}

impl FakeSystem {
    fn new(enumeration: Result<Vec<u32>, u32>, processes: Vec<FakeProcess>) -> FakeSystem {
        FakeSystem {
            enumeration,
            processes,
            opens: Vec::new(),
            handed_out: Vec::new(),
            closed: Vec::new(),
            name_queries: Vec::new(),
            lines: Vec::new(),
        }
    }

    fn by_handle(&self, handle: usize) -> FakeProcess {
        self.processes.iter().find(|p| p.handle == handle).unwrap().clone()
    }

    fn answer(&mut self, action: &Action) -> Option<Event> {
        match action {
            Action::Enumerate { capacity, bytes } => {
                assert_eq!(*bytes, *capacity * 4);
                let mut buffer = vec![0u32; *capacity as usize];
                Some(Event::Enumerated(match &self.enumeration {
                    Ok(pids) => {
                        let count = pids.len().min(buffer.len());
                        buffer[..count].copy_from_slice(&pids[..count]);
                        QueryReply { ok: true, buffer, bytes: count as u32 * 4, code: 0 }
                    }
                    Err(code) => QueryReply { ok: false, buffer, bytes: 0, code: *code },
                }))
            }
            Action::Open { pid, access, inherit } => {
                assert_eq!(*access, OPEN_ACCESS);
                assert!(!*inherit);
                self.opens.push(*pid);
                let handle = self.processes.iter().find(|p| p.pid == *pid).map_or(0, |p| p.handle);
                if handle != 0 {
                    self.handed_out.push(handle);
                }
                Some(Event::Opened { handle, code: if handle == 0 { 5 } else { 0 } })
            }
            Action::QueryModules { handle, capacity, bytes } => {
                assert_eq!(*bytes, *capacity * WIDTH);
                let process = self.by_handle(*handle);
                let mut buffer = vec![0usize; *capacity as usize];
                Some(Event::Modules(match &process.modules {
                    Ok(modules) if !(process.fill_fails && *capacity > 0) => {
                        let count = modules.len().min(buffer.len());
                        buffer[..count].copy_from_slice(&modules[..count]);
                        QueryReply {
                            ok: true,
                            buffer,
                            bytes: modules.len() as u32 * WIDTH,
                            code: 0,
                        }
                    }
                    Ok(_) => QueryReply { ok: false, buffer, bytes: 0, code: 299 },
                    Err(code) => QueryReply { ok: false, buffer, bytes: 0, code: *code },
                }))
            }
            Action::QueryName { handle, module, capacity } => {
                assert_eq!(*capacity, MAX_PROC_NAME_LEN);
                self.name_queries.push((*handle, *module));
                let process = self.by_handle(*handle);
                let mut buffer = vec![0u8; *capacity as usize];
                let written = process.name.len().min(buffer.len());
                buffer[..written].copy_from_slice(&process.name[..written]);
                Some(Event::Named {
                    buffer,
                    written: written as u32,
                    code: if written == 0 { 6 } else { 0 },
                })
            }
            Action::Report { line } => {
                self.lines.push(line.clone());
                Some(Event::Reported)
            }
            Action::Release { handle } => {
                self.closed.push(*handle);
                Some(Event::Released)
            }
            Action::Finish | Action::Abort { .. } => None,
        }
    }

    /// Runs one snapshot against this system, to its end.
    fn snapshot(&mut self, config: Config) -> Result<Vec<ProcessRecord>, Error> {
        let (mut session, mut action) = Session::start(config);
        let mut steps = 0;
        while let Some(event) = self.answer(&action) {
            let (next, asked) = session.step(event);
            session = next;
            action = asked.unwrap();
            steps += 1;
            assert!(steps < 10_000);
        }
        assert!(session.is_finished());
        match action {
            Action::Finish => {
                assert_eq!(session.failure(), None);
                Ok(session.into_records())
            }
            Action::Abort { error } => {
                assert_eq!(session.failure(), Some(error));
                assert!(session.records().is_empty());
                Err(error)
            }
            _ => unreachable!(),
        }
    }
}

fn record(pid: u32, name: &str) -> ProcessRecord {
    ProcessRecord { pid, name: name.to_string() }
}

#[test]
fn every_process_named() {
    let mut system = FakeSystem::new(
        Ok(vec![4, 8, 15]),
        vec![
            FakeProcess::named(4, 0x10, "System"),
            FakeProcess::named(8, 0x20, "smss.exe"),
            FakeProcess::named(15, 0x30, "explorer.exe"),
        ],
    );
    let records = system.snapshot(Config::default()).unwrap();
    assert_eq!(
        records,
        vec![record(4, "System"), record(8, "smss.exe"), record(15, "explorer.exe")]
    );
    assert_eq!(
        system.lines,
        vec!["System (pid=4)", "smss.exe (pid=8)", "explorer.exe (pid=15)"]
    );
    assert_eq!(system.opens, vec![4, 8, 15]);
    assert_eq!(system.handed_out, vec![0x10, 0x20, 0x30]);
    assert_eq!(system.closed, vec![0x10, 0x20, 0x30]);
}

#[test]
fn denied_and_unnamed_processes_are_left_out() {
    let mut unnamed = FakeProcess::named(300, 0x30, "");
    unnamed.name = Vec::new();
    let mut system = FakeSystem::new(
        Ok(vec![100, 200, 300]),
        vec![
            FakeProcess::named(100, 0x10, "alpha.exe"),
            FakeProcess::named(200, 0, "beta.exe"),
            unnamed,
        ],
    );
    let records = system.snapshot(Config::default()).unwrap();
    assert_eq!(records, vec![record(100, "alpha.exe")]);
    assert_eq!(system.lines, vec!["alpha.exe (pid=100)"]);
    assert_eq!(system.opens, vec![100, 200, 300]);
    assert_eq!(system.handed_out, vec![0x10, 0x30]);
    assert_eq!(system.closed, vec![0x10, 0x30]);
}

#[test]
fn failed_enumeration_is_fatal() {
    let mut system =
        FakeSystem::new(Err(5), vec![FakeProcess::named(100, 0x10, "alpha.exe")]);
    let outcome = system.snapshot(Config::default());
    assert_eq!(outcome, Err(Error::EnumerationFailed { code: 5 }));
    assert!(system.opens.is_empty());
    assert!(system.handed_out.is_empty());
    assert!(system.closed.is_empty());
    assert!(system.lines.is_empty());
}

#[test]
fn name_is_that_of_the_first_module() {
    let mut process = FakeProcess::named(100, 0x10, "alpha.exe");
    process.modules = Ok(vec![0xaaaa, 0xbbbb]);
    let mut system = FakeSystem::new(Ok(vec![100]), vec![process]);
    let records = system.snapshot(Config::default()).unwrap();
    assert_eq!(records, vec![record(100, "alpha.exe")]);
    assert_eq!(system.name_queries, vec![(0x10, 0xaaaa)]);
    assert!(system.name_queries.iter().all(|query| query.1 != 0xbbbb));
}

#[test]
fn handle_is_released_when_the_size_query_fails() {
    let mut process = FakeProcess::named(100, 0x10, "alpha.exe");
    process.modules = Err(299);
    let mut system = FakeSystem::new(Ok(vec![100]), vec![process]);
    assert_eq!(system.snapshot(Config::default()), Ok(vec![]));
    assert_eq!(system.handed_out, vec![0x10]);
    assert_eq!(system.closed, vec![0x10]);
    assert!(system.name_queries.is_empty());
}

#[test]
fn handle_is_released_when_the_fill_query_fails() {
    let mut process = FakeProcess::named(100, 0x10, "alpha.exe");
    process.fill_fails = true;
    let mut system = FakeSystem::new(Ok(vec![100]), vec![process]);
    assert_eq!(system.snapshot(Config::default()), Ok(vec![]));
    assert_eq!(system.handed_out, vec![0x10]);
    assert_eq!(system.closed, vec![0x10]);
    assert!(system.name_queries.is_empty());
}

#[test]
fn handle_is_released_when_the_name_query_fails() {
    let mut process = FakeProcess::named(100, 0x10, "alpha.exe");
    process.name = Vec::new();
    let mut system = FakeSystem::new(Ok(vec![100]), vec![process]);
    assert_eq!(system.snapshot(Config::default()), Ok(vec![]));
    assert_eq!(system.handed_out, vec![0x10]);
    assert_eq!(system.closed, vec![0x10]);
    assert_eq!(system.name_queries.len(), 1);
}

#[test]
fn handle_is_released_when_the_name_does_not_decode() {
    let mut process = FakeProcess::named(100, 0x10, "alpha.exe");
    process.name = vec![b'a', 0xff, b'b'];
    let mut system = FakeSystem::new(Ok(vec![100]), vec![process]);
    assert_eq!(system.snapshot(Config::default()), Ok(vec![]));
    assert_eq!(system.handed_out, vec![0x10]);
    assert_eq!(system.closed, vec![0x10]);
    assert!(system.lines.is_empty());
}

#[test]
fn handle_is_released_when_the_process_has_no_module() {
    let mut process = FakeProcess::named(100, 0x10, "alpha.exe");
    process.modules = Ok(Vec::new());
    let mut system = FakeSystem::new(Ok(vec![100]), vec![process]);
    assert_eq!(system.snapshot(Config::default()), Ok(vec![]));
    assert_eq!(system.handed_out, vec![0x10]);
    assert_eq!(system.closed, vec![0x10]);
    assert!(system.name_queries.is_empty());
}

#[test]
fn every_open_is_paired_with_one_release() {
    let mut no_modules = FakeProcess::named(2, 0x20, "b");
    no_modules.modules = Err(299);
    let mut no_fill = FakeProcess::named(3, 0x30, "c");
    no_fill.fill_fails = true;
    let mut no_name = FakeProcess::named(4, 0x40, "d");
    no_name.name = Vec::new();
    let mut bad_name = FakeProcess::named(5, 0x50, "e");
    bad_name.name = vec![0xc3, 0x28];
    let mut system = FakeSystem::new(
        Ok(vec![1, 2, 3, 4, 5, 6, 7]),
        vec![
            FakeProcess::named(1, 0x10, "a"),
            no_modules,
            no_fill,
            no_name,
            bad_name,
            FakeProcess::named(6, 0, "f"),
            FakeProcess::named(7, 0x70, "g"),
        ],
    );
    let records = system.snapshot(Config::default()).unwrap();
    assert_eq!(records, vec![record(1, "a"), record(7, "g")]);
    assert_eq!(system.opens, vec![1, 2, 3, 4, 5, 6, 7]);
    assert_eq!(system.handed_out, vec![0x10, 0x20, 0x30, 0x40, 0x50, 0x70]);
    assert_eq!(system.closed, system.handed_out);
}

#[test]
fn records_are_drawn_from_the_enumeration() {
    let mut system = FakeSystem::new(
        Ok(vec![9, 3, 9, 12]),
        vec![FakeProcess::named(9, 0x90, "nine"), FakeProcess::named(12, 0, "twelve")],
    );
    let records = system.snapshot(Config::default()).unwrap();
    assert!(records.len() <= 4);
    assert!(records.iter().all(|r| [9, 3, 9, 12].contains(&r.pid)));
    assert_eq!(records, vec![record(9, "nine"), record(9, "nine")]);
}

#[test]
fn empty_enumeration_finishes_at_once() {
    let mut system = FakeSystem::new(Ok(Vec::new()), Vec::new());
    assert_eq!(system.snapshot(Config::default()), Ok(vec![]));
    assert!(system.opens.is_empty());
}

#[test]
fn enumeration_is_cut_at_the_configured_bound() {
    let mut system = FakeSystem::new(
        Ok(vec![1, 2, 3]),
        vec![
            FakeProcess::named(1, 0x10, "a"),
            FakeProcess::named(2, 0x20, "b"),
            FakeProcess::named(3, 0x30, "c"),
        ],
    );
    let records = system.snapshot(Config::new(2, None).unwrap()).unwrap();
    assert_eq!(records, vec![record(1, "a"), record(2, "b")]);
    assert_eq!(system.opens, vec![1, 2]);
}

#[test]
fn filter_restricts_the_work_to_one_process() {
    let mut system = FakeSystem::new(
        Ok(vec![1, 2, 3]),
        vec![
            FakeProcess::named(1, 0x10, "a"),
            FakeProcess::named(2, 0x20, "b"),
            FakeProcess::named(3, 0x30, "c"),
        ],
    );
    let records = system.snapshot(Config::new(1024, Some(2)).unwrap()).unwrap();
    assert_eq!(records, vec![record(2, "b")]);
    assert_eq!(system.opens, vec![2]);
    assert_eq!(system.closed, vec![0x20]);
}

#[test]
fn filter_for_a_process_that_does_not_run() {
    let mut system =
        FakeSystem::new(Ok(vec![1, 2, 3]), vec![FakeProcess::named(1, 0x10, "a")]);
    assert_eq!(system.snapshot(Config::new(1024, Some(77)).unwrap()), Ok(vec![]));
    assert!(system.opens.is_empty());
}

#[test]
fn long_names_are_cut_at_the_buffer() {
    let long = "x".repeat(100);
    let mut system = FakeSystem::new(Ok(vec![1]), vec![FakeProcess::named(1, 0x10, &long)]);
    let records = system.snapshot(Config::default()).unwrap();
    assert_eq!(records, vec![record(1, &"x".repeat(64))]);
}

#[test]
fn first_request_is_the_enumeration() {
    let (_, action) = Session::start(Config::default());
    assert_eq!(action, Action::Enumerate { capacity: 1024, bytes: 4096 });
    let (_, action) = Session::start(Config::new(10, Some(3)).unwrap());
    assert_eq!(action, Action::Enumerate { capacity: 10, bytes: 40 });
}

#[test]
fn requests_follow_the_answers() {
    let (session, _) = Session::start(Config::default());
    let (session, action) = session.step(Event::Enumerated(QueryReply {
        ok: true,
        buffer: vec![42, 0, 0],
        bytes: 4,
        code: 0,
    }));
    assert_eq!(session.pids(), &vec![42]);
    assert_eq!(action, Some(Action::Open { pid: 42, access: 0x0438, inherit: false }));
    let (session, action) = session.step(Event::Opened { handle: 0x99, code: 0 });
    assert_eq!(action, Some(Action::QueryModules { handle: 0x99, capacity: 0, bytes: 0 }));
    let (session, action) = session.step(Event::Modules(QueryReply {
        ok: true,
        buffer: Vec::new(),
        bytes: 3 * WIDTH + 1,
        code: 0,
    }));
    assert_eq!(
        action,
        Some(Action::QueryModules { handle: 0x99, capacity: 3, bytes: 3 * WIDTH })
    );
    let (session, action) = session.step(Event::Modules(QueryReply {
        ok: true,
        buffer: vec![0x1000, 0x2000, 0x3000],
        bytes: 3 * WIDTH,
        code: 0,
    }));
    assert_eq!(action, Some(Action::QueryName { handle: 0x99, module: 0x1000, capacity: 64 }));
    let mut buffer = vec![0u8; 64];
    buffer[..8].copy_from_slice(b"calc.exe");
    let (session, action) = session.step(Event::Named { buffer, written: 8, code: 0 });
    assert_eq!(action, Some(Action::Report { line: "calc.exe (pid=42)".to_string() }));
    assert_eq!(session.records(), &vec![record(42, "calc.exe")]);
    assert!(!session.is_finished());
    let (session, action) = session.step(Event::Reported);
    assert_eq!(action, Some(Action::Release { handle: 0x99 }));
    let (session, action) = session.step(Event::Released);
    assert_eq!(action, Some(Action::Finish));
    assert!(session.is_finished());
    assert_eq!(session.failure(), None);
    assert_eq!(session.into_records(), vec![record(42, "calc.exe")]);
}

#[test]
fn answers_out_of_turn_change_nothing() {
    let (session, _) = Session::start(Config::default());
    let (session, action) = session.step(Event::Released);
    assert_eq!(action, None);
    let (session, action) = session.step(Event::Opened { handle: 0x10, code: 0 });
    assert_eq!(action, None);
    let (session, action) = session.step(Event::Enumerated(QueryReply {
        ok: true,
        buffer: vec![42],
        bytes: 4,
        code: 0,
    }));
    assert_eq!(action, Some(Action::Open { pid: 42, access: 0x0438, inherit: false }));
    let (session, action) = session.step(Event::Reported);
    assert_eq!(action, None);
    let (session, action) = session.step(Event::Opened { handle: 0x10, code: 0 });
    assert_eq!(action, Some(Action::QueryModules { handle: 0x10, capacity: 0, bytes: 0 }));
    let (session, action) = session.step(Event::Released);
    assert_eq!(action, None);
    let (session, action) = session.step(Event::Named { buffer: vec![b'a'], written: 1, code: 0 });
    assert_eq!(action, None);
    assert!(session.records().is_empty());
    assert_eq!(session.pids(), &vec![42]);
}

#[test]
fn ended_session_waits_for_nothing() {
    let (session, _) = Session::start(Config::default());
    let (session, action) = session.step(Event::Enumerated(QueryReply {
        ok: false,
        buffer: Vec::new(),
        bytes: 0,
        code: 31,
    }));
    assert_eq!(action, Some(Action::Abort { error: Error::EnumerationFailed { code: 31 } }));
    assert!(session.is_finished());
    assert_eq!(session.failure(), Some(Error::EnumerationFailed { code: 31 }));
    let (session, action) = session.step(Event::Released);
    assert_eq!(action, None);
    let (session, action) = session.step(Event::Enumerated(QueryReply {
        ok: true,
        buffer: vec![1],
        bytes: 4,
        code: 0,
    }));
    assert_eq!(action, None);
    assert_eq!(session.failure(), Some(Error::EnumerationFailed { code: 31 }));
    assert!(session.into_records().is_empty());
}

#[test]
fn fill_that_reports_fewer_modules_yields_fewer() {
    let (session, _) = Session::start(Config::default());
    let (session, _) = session.step(Event::Enumerated(QueryReply {
        ok: true,
        buffer: vec![42],
        bytes: 4,
        code: 0,
    }));
    let (session, _) = session.step(Event::Opened { handle: 0x99, code: 0 });
    let (session, action) = session.step(Event::Modules(QueryReply {
        ok: true,
        buffer: Vec::new(),
        bytes: 2 * WIDTH,
        code: 0,
    }));
    assert_eq!(
        action,
        Some(Action::QueryModules { handle: 0x99, capacity: 2, bytes: 2 * WIDTH })
    );
    let (_, action) = session.step(Event::Modules(QueryReply {
        ok: true,
        buffer: vec![0, 0],
        bytes: 0,
        code: 0,
    }));
    assert_eq!(action, Some(Action::Release { handle: 0x99 }));
}
