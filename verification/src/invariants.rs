//! What holds of every state that a session can reach, and of every run.

use crate::config::Config;
use crate::error::Error;
use crate::model::{
    acquires, current, holding, initial, next_candidate, released, releases, run, step, turn_to,
    PhaseView, SessionView,
};
use crate::protocol::{ActionView, EventView};
use crate::record::ProcessRecordView;
use crate::sized_query::QueryReplyView;
use vstd::prelude::*;

verus! {

/// The identifiers of a sequence of records, in order.
pub open spec fn record_pids(records: Seq<ProcessRecordView>) -> Seq<u32> {
    records.map_values(|r: ProcessRecordView| r.pid)
}

/// Whether `a` can be had from `b` by leaving entries out: every entry of
/// `a` is an entry of `b` of its own, and the order is that of `b`.
pub open spec fn drawn_from(a: Seq<u32>, b: Seq<u32>) -> bool
    decreases b.len(),
{
    if a.len() == 0 {
        true
    } else if b.len() == 0 {
        false
    } else {
        (a.last() == b.last() && drawn_from(a.drop_last(), b.drop_last())) || drawn_from(
            a,
            b.drop_last(),
        )
    }
}

/// The number of identifiers, from the front of the enumeration, that a
/// record may have been made for.
pub open spec fn settled(s: SessionView) -> nat {
    match s.phase {
        PhaseView::Reporting { .. } => s.next + 1,
        PhaseView::Releasing => s.next + 1,
        _ => s.next,
    }
}

/// Whether a session in state `s` is working on a process.
pub open spec fn at_work(s: SessionView) -> bool {
    !(s.phase is Enumerating || s.phase is Done || s.phase is Failed)
}

/// What holds of every state that a session can reach.
pub open spec fn inv(s: SessionView) -> bool {
    &&& s.config.valid()
    &&& s.next <= s.pids.len()
    &&& at_work(s) ==> s.next < s.pids.len() && s.config.admits(current(s))
    &&& s.phase is Enumerating || s.phase is Failed ==> s.pids.len() == 0 && s.records.len() == 0
    &&& s.phase is Done ==> s.next == s.pids.len()
    &&& holding(s).len() > 0 ==> holding(s)[0] != 0
    &&& drawn_from(record_pids(s.records), s.pids.take(settled(s) as int))
    &&& forall|k: int| 0 <= k < s.records.len() ==> s.config.admits(#[trigger] s.records[k].pid)
}

/// What can be had from a sequence by leaving entries out can be had from
/// any longer one.
pub proof fn lemma_drawn_from_longer(a: Seq<u32>, b: Seq<u32>, shorter: int, longer: int)
    requires
        0 <= shorter <= longer <= b.len(),
        drawn_from(a, b.take(shorter)),
    ensures
        drawn_from(a, b.take(longer)),
    decreases longer - shorter,
{
    if shorter < longer {
        lemma_drawn_from_longer(a, b, shorter, longer - 1);
        assert(b.take(longer).drop_last() =~= b.take(longer - 1));
    }
}

/// What is drawn from a sequence is no longer than it, and each of its
/// entries occurs in it.
pub proof fn lemma_drawn_from_within(a: Seq<u32>, b: Seq<u32>)
    requires
        drawn_from(a, b),
    ensures
        a.len() <= b.len(),
        forall|k: int| 0 <= k < a.len() ==> b.contains(#[trigger] a[k]),
    decreases b.len(),
{
    if a.len() == 0 {
    } else {
        let shorter = b.drop_last();
        if a.last() == b.last() && drawn_from(a.drop_last(), shorter) {
            lemma_drawn_from_within(a.drop_last(), shorter);
            assert forall|k: int| 0 <= k < a.len() implies b.contains(#[trigger] a[k]) by {
                if k == a.len() - 1 {
                    assert(b[b.len() - 1] == a[k]);
                } else {
                    assert(a.drop_last()[k] == a[k]);
                    let j = choose|j: int| 0 <= j < shorter.len() && shorter[j] == a[k];
                    assert(b[j] == a[k]);
                }
            }
        } else {
            lemma_drawn_from_within(a, shorter);
            assert forall|k: int| 0 <= k < a.len() implies b.contains(#[trigger] a[k]) by {
                let j = choose|j: int| 0 <= j < shorter.len() && shorter[j] == a[k];
                assert(b[j] == a[k]);
            }
        }
    }
}

/// The next candidate lies at or after the index the search starts from and
/// within the enumeration, and the settings admit it.
pub proof fn lemma_next_candidate(pids: Seq<u32>, from: nat, config: Config)
    requires
        from <= pids.len(),
    ensures
        from <= next_candidate(pids, from, config) <= pids.len(),
        next_candidate(pids, from, config) < pids.len() ==> config.admits(
            pids[next_candidate(pids, from, config) as int],
        ),
    decreases pids.len() - from,
{
    if from < pids.len() && !config.admits(pids[from as int]) {
        lemma_next_candidate(pids, from + 1, config);
    }
}

/// A session starts in a state of which the invariant holds.
pub proof fn lemma_initial_inv(config: Config)
    requires
        config.valid(),
    ensures
        inv(initial(config)),
{
    assert(record_pids(initial(config).records) =~= Seq::<u32>::empty());
}

proof fn lemma_turn_to_inv(s: SessionView, from: nat)
    requires
        s.config.valid(),
        from <= s.pids.len(),
        drawn_from(record_pids(s.records), s.pids.take(from as int)),
        forall|k: int| 0 <= k < s.records.len() ==> s.config.admits(#[trigger] s.records[k].pid),
    ensures
        inv(turn_to(s, from).0),
{
    lemma_next_candidate(s.pids, from, s.config);
    let index = next_candidate(s.pids, from, s.config);
    lemma_drawn_from_longer(record_pids(s.records), s.pids, from as int, index as int);
}

/// Every step keeps the invariant.
pub proof fn lemma_step_inv(s: SessionView, e: EventView)
    requires
        inv(s),
        step(s, e) is Some,
    ensures
        inv(step(s, e).unwrap().0),
{
    let t = step(s, e).unwrap().0;
    let before = record_pids(s.records);
    match (s.phase, e) {
        (PhaseView::Enumerating, EventView::Enumerated(reply)) => {
            if reply.ok {
                let pids = crate::process::enumerated(reply)->Ok_0;
                assert(before =~= Seq::<u32>::empty());
                lemma_turn_to_inv(SessionView { pids, ..s }, 0);
            }
            assert(inv(t));
        },
        (PhaseView::Opening, EventView::Opened { handle, code }) => {
            if handle == 0 {
                lemma_drawn_from_longer(before, s.pids, s.next as int, (s.next + 1) as int);
                lemma_turn_to_inv(s, s.next + 1);
            }
            assert(inv(t));
        },
        (PhaseView::Naming { handle }, EventView::Named { buffer, written, code }) => {
            if t.phase is Reporting {
                let after = record_pids(t.records);
                let seen = s.pids.take((s.next + 1) as int);
                assert(after.drop_last() =~= before);
                assert(seen.drop_last() =~= s.pids.take(s.next as int));
                assert(after.last() == seen.last());
            } else {
                lemma_drawn_from_longer(before, s.pids, s.next as int, (s.next + 1) as int);
            }
            assert(inv(t));
        },
        (PhaseView::Releasing, EventView::Released) => {
            lemma_turn_to_inv(s, s.next + 1);
            assert(inv(t));
        },
        _ => {
            lemma_drawn_from_longer(before, s.pids, settled(s) as int, settled(t) as int);
            assert(inv(t));
        },
    }
}

/// Every run keeps the invariant.
pub proof fn lemma_run_inv(s: SessionView, events: Seq<EventView>)
    requires
        inv(s),
    ensures
        inv(run(s, events).end),
    decreases events.len(),
{
    if events.len() > 0 {
        match step(s, events[0]) {
            Some((t, a)) => {
                lemma_step_inv(s, events[0]);
                lemma_run_inv(t, events.drop_first());
            },
            None => {
                lemma_run_inv(s, events.drop_first());
            },
        }
    }
}

/// A session makes no more records than the enumeration yielded
/// identifiers, and makes records only of identifiers that it yielded: the
/// identifiers of the records are drawn from those of the enumeration, each
/// from an entry of its own and in the same order. With a filter set, every
/// record is of the one identifier that the filter names.
pub proof fn lemma_records_from_enumeration(s: SessionView)
    requires
        inv(s),
    ensures
        drawn_from(record_pids(s.records), s.pids),
        s.records.len() <= s.pids.len(),
        forall|k: int| 0 <= k < s.records.len() ==> s.pids.contains(#[trigger] s.records[k].pid),
        forall|k: int| 0 <= k < s.records.len() ==> s.config.admits(#[trigger] s.records[k].pid),
{
    let drawn = record_pids(s.records);
    lemma_drawn_from_longer(drawn, s.pids, settled(s) as int, s.pids.len() as int);
    assert(s.pids.take(s.pids.len() as int) =~= s.pids);
    lemma_drawn_from_within(drawn, s.pids);
    assert forall|k: int| 0 <= k < s.records.len() implies s.pids.contains(
        #[trigger] s.records[k].pid,
    ) by {
        assert(drawn[k] == s.records[k].pid);
    }
}

/// Whatever the system answers, a run from the start makes no more records
/// than its enumeration yielded identifiers, and every record is of an
/// identifier that the enumeration yielded.
pub proof fn lemma_run_records(config: Config, events: Seq<EventView>)
    requires
        config.valid(),
    ensures
        ({
            let end = run(initial(config), events).end;
            &&& drawn_from(record_pids(end.records), end.pids)
            &&& end.records.len() <= end.pids.len()
            &&& forall|k: int|
                0 <= k < end.records.len() ==> end.pids.contains(#[trigger] end.records[k].pid)
        }),
{
    lemma_initial_inv(config);
    lemma_run_inv(initial(config), events);
    lemma_records_from_enumeration(run(initial(config), events).end);
}

/// A failed enumeration ends the run at once. The session asks for no
/// handle and makes no record, and whatever it is told afterwards, it asks
/// nothing more.
pub proof fn lemma_failed_enumeration_ends_run(
    config: Config,
    reply: QueryReplyView<u32>,
    later: Seq<EventView>,
)
    requires
        !reply.ok,
    ensures
        ({
            let whole = run(initial(config), seq![EventView::Enumerated(reply)] + later);
            &&& whole.actions == seq![
                ActionView::Abort { error: Error::EnumerationFailed { code: reply.code } },
            ]
            &&& whole.end.phase == PhaseView::Failed { code: reply.code }
            &&& whole.end.pids.len() == 0
            &&& whole.end.records.len() == 0
            &&& whole.acquired.len() == 0
        }),
{
    let events = seq![EventView::Enumerated(reply)] + later;
    let failed = step(initial(config), events[0]).unwrap().0;
    assert(events.drop_first() =~= later);
    lemma_run_of_ended(failed, later);
    let whole = run(initial(config), events);
    assert(whole.actions =~= seq![
        ActionView::Abort { error: Error::EnumerationFailed { code: reply.code } },
    ]);
}

/// A session that has ended asks nothing more, whatever it is told.
pub proof fn lemma_run_of_ended(s: SessionView, events: Seq<EventView>)
    requires
        s.phase is Done || s.phase is Failed,
    ensures
        run(s, events).end == s,
        run(s, events).actions.len() == 0,
        run(s, events).acquired.len() == 0,
    decreases events.len(),
{
    if events.len() > 0 {
        lemma_run_of_ended(s, events.drop_first());
    }
}

/// The number of answers that a session in state `s` can at most still take
/// once the enumeration is in.
pub open spec fn remaining(s: SessionView) -> nat {
    let ahead = (s.pids.len() - s.next) as nat;
    match s.phase {
        PhaseView::Enumerating => 7 * ahead + 7,
        PhaseView::Opening => 7 * ahead + 6,
        PhaseView::Probing { .. } => 7 * ahead + 5,
        PhaseView::Filling { .. } => 7 * ahead + 4,
        PhaseView::Naming { .. } => 7 * ahead + 3,
        PhaseView::Reporting { .. } => 7 * ahead + 2,
        PhaseView::Releasing => 7 * ahead + 1,
        PhaseView::Done => 0,
        PhaseView::Failed { .. } => 0,
    }
}

/// Once the enumeration is in, every answer that a session takes brings the
/// run nearer to its end: a run takes at most seven answers for each
/// identifier, and the identifiers are worked on in the order of the
/// enumeration, none twice.
pub proof fn lemma_step_progress(s: SessionView, e: EventView)
    requires
        inv(s),
        !(s.phase is Enumerating),
        step(s, e) is Some,
    ensures
        remaining(step(s, e).unwrap().0) < remaining(s),
        step(s, e).unwrap().0.pids == s.pids,
        step(s, e).unwrap().0.next >= s.next,
{
    let t = step(s, e).unwrap().0;
    lemma_step_inv(s, e);
    if s.next < s.pids.len() {
        lemma_next_candidate(s.pids, s.next + 1, s.config);
    }
}

/// One step neither loses a handle nor makes one up: the handle owned
/// before, and the one that the answer hands over, are the one that the
/// action closes and the one owned after.
pub proof fn lemma_step_balance(s: SessionView, e: EventView)
    requires
        step(s, e) is Some,
    ensures
        holding(s) + acquires(s, e) == releases(step(s, e).unwrap().1) + holding(step(s, e).unwrap().0),
{
    let (t, a) = step(s, e).unwrap();
    assert(holding(s) + acquires(s, e) =~= releases(a) + holding(t));
}

/// Over a run, every handle that the system hands out is closed by exactly
/// one action, in the order in which the handles came, but for the one that
/// the session still owns at the end.
pub proof fn lemma_run_balance(s: SessionView, events: Seq<EventView>)
    ensures
        holding(s) + run(s, events).acquired == released(run(s, events).actions) + holding(
            run(s, events).end,
        ),
    decreases events.len(),
{
    let whole = run(s, events);
    if events.len() == 0 {
        assert(holding(s) + whole.acquired =~= released(whole.actions) + holding(whole.end));
    } else {
        match step(s, events[0]) {
            Some((t, a)) => {
                let rest = run(t, events.drop_first());
                lemma_step_balance(s, events[0]);
                lemma_run_balance(t, events.drop_first());
                assert(whole.actions[0] == a);
                assert(whole.actions.drop_first() =~= rest.actions);
                assert(released(whole.actions) == releases(a) + released(rest.actions));
                assert(holding(s) + whole.acquired =~= (holding(s) + acquires(s, events[0]))
                    + rest.acquired);
                assert(released(whole.actions) + holding(whole.end) =~= releases(a) + (released(
                    rest.actions,
                ) + holding(rest.end)));
                assert((releases(a) + holding(t)) + rest.acquired =~= releases(a) + (holding(t)
                    + rest.acquired));
            },
            None => {
                lemma_run_balance(s, events.drop_first());
            },
        }
    }
}

/// A run from the start that has ended has closed every handle that the
/// system handed out to it, each exactly once: whichever way the work on a
/// process went, no handle is left open and none is closed twice.
pub proof fn lemma_ended_run_leaks_nothing(config: Config, events: Seq<EventView>)
    requires
        run(initial(config), events).end.phase is Done || run(
            initial(config),
            events,
        ).end.phase is Failed,
    ensures
        released(run(initial(config), events).actions) == run(initial(config), events).acquired,
{
    let whole = run(initial(config), events);
    lemma_run_balance(initial(config), events);
    assert(holding(initial(config)) + whole.acquired =~= whole.acquired);
    assert(released(whole.actions) + holding(whole.end) =~= released(whole.actions));
}

/// A session that owns a handle and learns that the modules or the name of
/// its process cannot be had closes that handle next, and makes no record.
pub proof fn lemma_failure_releases(s: SessionView, e: EventView)
    requires
        holding(s).len() == 1,
        match e {
            EventView::Modules(reply) => !reply.ok && (s.phase is Probing || s.phase is Filling),
            EventView::Named { buffer, written, code } => s.phase is Naming
                && crate::process::name_of(current(s), buffer, written, code) is Err,
            _ => false,
        },
    ensures
        step(s, e) matches Some((t, a)) && a == (ActionView::Release { handle: holding(s)[0] })
            && t.phase is Releasing && t.records == s.records,
{
}

} // verus!
