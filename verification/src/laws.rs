//! The pipeline's laws, proved over whole runs of the state machine. A run
//! folds the transition function over a sequence of observed events while
//! tracking whether the request's artifact file exists on disk, under the
//! faithful-follower reading of the events: a write is on disk once the
//! surrounding process reports `WriteSucceeded`, and gone once it reports
//! `Disposed`.

use vstd::prelude::*;
use crate::auth::spec_authenticate;
use crate::outcome::{auth_failure_response_v, lossy_decoded, response_for, OutcomeV, ResponseV};
use crate::pipeline::{spec_step, ActionV, EventV, PhaseV, RequestV};

verus! {

/// Whether the artifact file exists after one more event, given the phase the
/// event was delivered in: it appears when a demanded write is confirmed and
/// vanishes when a demanded disposal is confirmed.
pub open spec fn disk_after(p: PhaseV, e: EventV, on_disk: bool) -> bool {
    if p is AwaitingWrite && e is WriteSucceeded {
        true
    } else if p is AwaitingDisposal && e is Disposed {
        false
    } else {
        on_disk
    }
}

/// Fold the machine and the disk over a sequence of events.
pub open spec fn run(secret: Seq<char>, p: PhaseV, on_disk: bool, events: Seq<EventV>) -> (
    PhaseV,
    bool,
)
    decreases events.len(),
{
    if events.len() == 0 {
        (p, on_disk)
    } else {
        let p2 = spec_step(secret, p, events[0]).0;
        let d2 = disk_after(p, events[0], on_disk);
        run(secret, p2, d2, events.drop_first())
    }
}

/// The phases in which the artifact file exists: between a confirmed write
/// and a confirmed disposal.
pub open spec fn artifact_live(p: PhaseV) -> bool {
    p is AwaitingExecution || p is AwaitingDisposal
}

/// The response a phase has settled on, if it has responded.
pub open spec fn response_of(p: PhaseV) -> Option<ResponseV> {
    match p {
        PhaseV::Responded { response } => Option::Some(response),
        _ => Option::None,
    }
}

/// One step keeps the disk in lockstep with the phase: the artifact exists
/// exactly in the live phases.
proof fn lemma_step_keeps_disk_in_lockstep(secret: Seq<char>, p: PhaseV, e: EventV, on_disk: bool)
    requires
        on_disk == artifact_live(p),
    ensures
        disk_after(p, e, on_disk) == artifact_live(spec_step(secret, p, e).0),
{
}

/// A whole run keeps the disk in lockstep with the phase.
proof fn lemma_run_keeps_disk_in_lockstep(
    secret: Seq<char>,
    p: PhaseV,
    on_disk: bool,
    events: Seq<EventV>,
)
    requires
        on_disk == artifact_live(p),
    ensures
        run(secret, p, on_disk, events).1 == artifact_live(run(secret, p, on_disk, events).0),
    decreases events.len(),
{
    if events.len() > 0 {
        lemma_step_keeps_disk_in_lockstep(secret, p, events[0], on_disk);
        lemma_run_keeps_disk_in_lockstep(
            secret,
            spec_step(secret, p, events[0]).0,
            disk_after(p, events[0], on_disk),
            events.drop_first(),
        );
    }
}

/// LAW (guaranteed cleanup): whatever the outcome, once the pipeline has
/// responded, the artifact file created for the request no longer exists. In
/// any run from an idle start, a phase that has responded — and likewise the
/// idle and pre-write phases — holds no artifact on disk.
pub proof fn lemma_artifact_gone_after_response(secret: Seq<char>, events: Seq<EventV>)
    ensures
        ({
            let (p, on_disk) = run(secret, PhaseV::Idle, false, events);
            !artifact_live(p) ==> !on_disk
        }),
{
    lemma_run_keeps_disk_in_lockstep(secret, PhaseV::Idle, false, events);
}

/// A responded machine is terminal: every further event leaves it in place
/// and demands nothing.
pub proof fn lemma_responded_is_terminal(secret: Seq<char>, r: ResponseV, e: EventV)
    ensures
        spec_step(secret, PhaseV::Responded { response: r }, e) == (
            PhaseV::Responded { response: r },
            Option::<ActionV>::None,
        ),
{
}

/// A whole run from a responded machine goes nowhere and touches no disk.
pub proof fn lemma_responded_run_goes_nowhere(
    secret: Seq<char>,
    r: ResponseV,
    on_disk: bool,
    events: Seq<EventV>,
)
    ensures
        run(secret, PhaseV::Responded { response: r }, on_disk, events) == (
            PhaseV::Responded { response: r },
            on_disk,
        ),
    decreases events.len(),
{
    if events.len() > 0 {
        lemma_responded_run_goes_nowhere(secret, r, on_disk, events.drop_first());
    }
}

/// LAW (rejection before side effects): a request with an invalid credential
/// is answered at once with the fixed authentication-failure payload, and no
/// artifact is ever written: however the run goes on, the machine stays on
/// that response and the disk never holds a file for this request.
pub proof fn lemma_invalid_credential_writes_nothing(
    secret: Seq<char>,
    request: RequestV,
    artifact_id: Seq<char>,
    events: Seq<EventV>,
)
    requires
        !spec_authenticate(request.credential, secret),
    ensures
        spec_step(secret, PhaseV::Idle, EventV::Arrived { request, artifact_id }) == (
            PhaseV::Responded { response: auth_failure_response_v() },
            Option::Some(ActionV::Respond { response: auth_failure_response_v() }),
        ),
        run(
            secret,
            PhaseV::Idle,
            false,
            seq![EventV::Arrived { request, artifact_id }] + events,
        ) == (PhaseV::Responded { response: auth_failure_response_v() }, false),
{
    let first = EventV::Arrived { request, artifact_id };
    let trace = seq![first] + events;
    assert(trace[0] == first);
    assert(trace.drop_first() =~= events);
    lemma_responded_run_goes_nowhere(
        secret,
        auth_failure_response_v(),
        false,
        events,
    );
}

/// The number of confirmed artifact writes in a run: events that report a
/// demanded write done, delivered in the phase that awaits them.
pub open spec fn confirmed_writes(secret: Seq<char>, p: PhaseV, events: Seq<EventV>) -> int
    decreases events.len(),
{
    if events.len() == 0 {
        0
    } else {
        let here: int = if p is AwaitingWrite && events[0] is WriteSucceeded {
            1
        } else {
            0
        };
        here + confirmed_writes(secret, spec_step(secret, p, events[0]).0, events.drop_first())
    }
}

/// The number of confirmed artifact disposals in a run: events that report a
/// demanded disposal done, delivered in the phase that awaits them.
pub open spec fn confirmed_disposals(secret: Seq<char>, p: PhaseV, events: Seq<EventV>) -> int
    decreases events.len(),
{
    if events.len() == 0 {
        0
    } else {
        let here: int = if p is AwaitingDisposal && events[0] is Disposed {
            1
        } else {
            0
        };
        here + confirmed_disposals(secret, spec_step(secret, p, events[0]).0, events.drop_first())
    }
}

/// How far the pipeline has advanced within its one request.
pub open spec fn rank(p: PhaseV) -> int {
    match p {
        PhaseV::Idle => 0,
        PhaseV::AwaitingWrite { .. } => 1,
        PhaseV::AwaitingExecution { .. } => 2,
        PhaseV::AwaitingDisposal { .. } => 3,
        PhaseV::Responded { .. } => 4,
    }
}

/// A step never goes backward: the pipeline serves one request and never
/// returns to an earlier stage of it.
proof fn lemma_step_never_goes_backward(secret: Seq<char>, p: PhaseV, e: EventV)
    ensures
        rank(spec_step(secret, p, e).0) >= rank(p),
{
}

/// At most one write is ever confirmed, and none once the write stage is
/// past.
proof fn lemma_writes_bounded(secret: Seq<char>, p: PhaseV, events: Seq<EventV>)
    ensures
        confirmed_writes(secret, p, events) <= 1,
        rank(p) >= 2 ==> confirmed_writes(secret, p, events) == 0,
    decreases events.len(),
{
    if events.len() > 0 {
        lemma_step_never_goes_backward(secret, p, events[0]);
        lemma_writes_bounded(secret, spec_step(secret, p, events[0]).0, events.drop_first());
    }
}

/// Write/dispose accounting: across any stretch of a run, the confirmed
/// writes and disposals balance, up to whether an artifact is live at either
/// end.
proof fn lemma_write_dispose_balance(secret: Seq<char>, p: PhaseV, events: Seq<EventV>)
    ensures
        ({
            let w = confirmed_writes(secret, p, events);
            let d = confirmed_disposals(secret, p, events);
            let q = run(secret, p, artifact_live(p), events).0;
            w + (if artifact_live(p) {
                1int
            } else {
                0int
            }) == d + (if artifact_live(q) {
                1int
            } else {
                0int
            })
        }),
    decreases events.len(),
{
    if events.len() > 0 {
        lemma_write_dispose_balance(secret, spec_step(secret, p, events[0]).0, events.drop_first());
    }
}

/// LAW (disposal exactly once): over any complete run — idle start, responded
/// finish — a write is confirmed at most once, and disposal is confirmed
/// exactly as often as the write: every artifact that came to exist is
/// disposed of exactly once, and nothing is disposed of that never existed.
pub proof fn lemma_dispose_exactly_once_per_write(secret: Seq<char>, events: Seq<EventV>)
    ensures
        confirmed_writes(secret, PhaseV::Idle, events) <= 1,
        run(secret, PhaseV::Idle, false, events).0 is Responded ==> confirmed_disposals(
            secret,
            PhaseV::Idle,
            events,
        ) == confirmed_writes(secret, PhaseV::Idle, events),
{
    lemma_writes_bounded(secret, PhaseV::Idle, events);
    lemma_write_dispose_balance(secret, PhaseV::Idle, events);
}

/// Two phases that differ in nothing but the artifact path.
pub open spec fn same_but_path(p1: PhaseV, p2: PhaseV) -> bool {
    match (p1, p2) {
        (PhaseV::Idle, PhaseV::Idle) => true,
        (
            PhaseV::AwaitingWrite { path: _, lang: l1, deadline_secs: d1 },
            PhaseV::AwaitingWrite { path: _, lang: l2, deadline_secs: d2 },
        ) => l1 == l2 && d1 == d2,
        (PhaseV::AwaitingExecution { .. }, PhaseV::AwaitingExecution { .. }) => true,
        (
            PhaseV::AwaitingDisposal { path: _, response: r1 },
            PhaseV::AwaitingDisposal { path: _, response: r2 },
        ) => r1 == r2,
        (PhaseV::Responded { response: r1 }, PhaseV::Responded { response: r2 }) => r1 == r2,
        _ => false,
    }
}

/// Two events that differ in nothing but the generated artifact identifier.
pub open spec fn same_but_id(e1: EventV, e2: EventV) -> bool {
    match (e1, e2) {
        (
            EventV::Arrived { request: r1, artifact_id: _ },
            EventV::Arrived { request: r2, artifact_id: _ },
        ) => r1 == r2,
        _ => e1 == e2,
    }
}

/// One step preserves path-indifference: equal requests under different
/// artifact identifiers drive the two machines through matching phases.
proof fn lemma_step_ignores_path(
    secret: Seq<char>,
    p1: PhaseV,
    p2: PhaseV,
    e1: EventV,
    e2: EventV,
)
    requires
        same_but_path(p1, p2),
        same_but_id(e1, e2),
    ensures
        same_but_path(spec_step(secret, p1, e1).0, spec_step(secret, p2, e2).0),
{
}

/// LAW (idempotence over artifact identifiers): two runs of the same request
/// that differ only in the generated artifact identifier — and so in every
/// artifact path — settle on equal responses, given the same write and
/// execution events. The payload depends on the code's behaviour alone, never
/// on the file name drawn for it.
pub proof fn lemma_response_independent_of_artifact_id(
    secret: Seq<char>,
    p1: PhaseV,
    p2: PhaseV,
    on_disk1: bool,
    on_disk2: bool,
    events1: Seq<EventV>,
    events2: Seq<EventV>,
)
    requires
        same_but_path(p1, p2),
        events1.len() == events2.len(),
        forall|i: int| 0 <= i < events1.len() ==> same_but_id(events1[i], events2[i]),
    ensures
        response_of(run(secret, p1, on_disk1, events1).0) == response_of(
            run(secret, p2, on_disk2, events2).0,
        ),
    decreases events1.len(),
{
    if events1.len() == 0 {
    } else {
        assert(same_but_id(events1[0], events2[0]));
        lemma_step_ignores_path(secret, p1, p2, events1[0], events2[0]);
        lemma_response_independent_of_artifact_id(
            secret,
            spec_step(secret, p1, events1[0]).0,
            spec_step(secret, p2, events2[0]).0,
            disk_after(p1, events1[0], on_disk1),
            disk_after(p2, events2[0], on_disk2),
            events1.drop_first(),
            events2.drop_first(),
        );
    }
}

/// A run over exactly four events, unfolded step by step.
proof fn lemma_run_four(secret: Seq<char>, e0: EventV, e1: EventV, e2: EventV, e3: EventV)
    ensures
        run(secret, PhaseV::Idle, false, seq![e0, e1, e2, e3]) == ({
            let p1 = spec_step(secret, PhaseV::Idle, e0).0;
            let d1 = disk_after(PhaseV::Idle, e0, false);
            let p2 = spec_step(secret, p1, e1).0;
            let d2 = disk_after(p1, e1, d1);
            let p3 = spec_step(secret, p2, e2).0;
            let d3 = disk_after(p2, e2, d2);
            let p4 = spec_step(secret, p3, e3).0;
            let d4 = disk_after(p3, e3, d3);
            (p4, d4)
        }),
{
    let t0 = seq![e0, e1, e2, e3];
    let t1 = seq![e1, e2, e3];
    let t2 = seq![e2, e3];
    let t3 = seq![e3];
    let t4 = Seq::<EventV>::empty();
    assert(t0.drop_first() =~= t1);
    assert(t1.drop_first() =~= t2);
    assert(t2.drop_first() =~= t3);
    assert(t3.drop_first() =~= t4);
    let p1 = spec_step(secret, PhaseV::Idle, e0).0;
    let d1 = disk_after(PhaseV::Idle, e0, false);
    let p2 = spec_step(secret, p1, e1).0;
    let d2 = disk_after(p1, e1, d1);
    let p3 = spec_step(secret, p2, e2).0;
    let d3 = disk_after(p2, e2, d2);
    let p4 = spec_step(secret, p3, e3).0;
    let d4 = disk_after(p3, e3, d3);
    assert(run(secret, PhaseV::Idle, false, t0) == run(secret, p1, d1, t1));
    assert(run(secret, p1, d1, t1) == run(secret, p2, d2, t2));
    assert(run(secret, p2, d2, t2) == run(secret, p3, d3, t3));
    assert(run(secret, p3, d3, t3) == run(secret, p4, d4, t4));
}

/// LAW (clean run): a request with a valid credential whose artifact write
/// succeeds and whose process exits in time writing nothing to its error
/// stream is answered with exactly the decoded stdout and no error — and the
/// artifact is gone.
pub proof fn lemma_clean_run_reports_stdout(
    secret: Seq<char>,
    request: RequestV,
    artifact_id: Seq<char>,
    stdout: Seq<u8>,
    stderr: Seq<u8>,
)
    requires
        spec_authenticate(request.credential, secret),
        stderr.len() == 0,
    ensures
        run(
            secret,
            PhaseV::Idle,
            false,
            seq![
                EventV::Arrived { request, artifact_id },
                EventV::WriteSucceeded,
                EventV::ProcessExited { stdout, stderr },
                EventV::Disposed,
            ],
        ) == (
            PhaseV::Responded {
                response: ResponseV { output: lossy_decoded(stdout), error: Option::None },
            },
            false,
        ),
{
    lemma_run_four(
        secret,
        EventV::Arrived { request, artifact_id },
        EventV::WriteSucceeded,
        EventV::ProcessExited { stdout, stderr },
        EventV::Disposed,
    );
    assert(response_for(OutcomeV::Completed { stdout, stderr }) == ResponseV {
        output: lossy_decoded(stdout),
        error: Option::<Seq<char>>::None,
    });
}

/// LAW (timeout): a request whose process outlives its deadline is answered
/// with an empty output and the fixed timeout message — and the artifact is
/// gone. (Terminating and reaping the timed-out process is the demanded
/// behaviour of the `RunInterpreter` action's follower.)
pub proof fn lemma_timed_out_run_reports_timeout(
    secret: Seq<char>,
    request: RequestV,
    artifact_id: Seq<char>,
)
    requires
        spec_authenticate(request.credential, secret),
    ensures
        run(
            secret,
            PhaseV::Idle,
            false,
            seq![
                EventV::Arrived { request, artifact_id },
                EventV::WriteSucceeded,
                EventV::DeadlineElapsed,
                EventV::Disposed,
            ],
        ) == (
            PhaseV::Responded {
                response: ResponseV {
                    output: Seq::empty(),
                    error: Option::Some("Execution timed out"@),
                },
            },
            false,
        ),
{
    lemma_run_four(
        secret,
        EventV::Arrived { request, artifact_id },
        EventV::WriteSucceeded,
        EventV::DeadlineElapsed,
        EventV::Disposed,
    );
}

} // verus!
