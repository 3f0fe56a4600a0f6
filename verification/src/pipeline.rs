//! The per-request pipeline, as a state machine. The machine makes every
//! decision — authentication, artifact naming, interpreter choice, deadline,
//! outcome classification, the order of disposal and response — while the
//! surrounding process carries out the file and process work it is told to do
//! and feeds the observed events back in.
//!
//! Control flow: authenticate, write the artifact, run the interpreter under
//! the deadline, dispose of the artifact, respond. A failure at any stage
//! short-circuits to a response; disposal is demanded on every path on which
//! the artifact came to exist, before the response goes out.

use vstd::prelude::*;
use crate::artifact::{artifact_path, spec_artifact_path, TEMP_DIR};
use crate::auth::{authenticate, spec_authenticate};
use crate::lang::{Lang, lang_of, spec_interpreter};
use crate::outcome::{
    auth_failure_response_v, build_response, response_for, write_failure_response_v,
    ExecutionOutcome, ExecutionResponse, OutcomeV, ResponseV,
};

verus! {

/// The deadline, in seconds, of a request that names none.
pub const DEFAULT_DEADLINE_SECS: u64 = 5;

/// One inbound request, already decoded from the wire.
pub struct RequestData {
    /// The source text to run.
    pub code: String,
    /// The language tag; `"javascript"` selects JavaScript, anything else
    /// falls back to Python.
    pub lang: String,
    /// The deadline in seconds, if the caller set one.
    pub timeout_secs: Option<u64>,
    /// The caller's credential.
    pub credential: String,
}

/// The mathematical counterpart of a request.
pub struct RequestV {
    pub code: Seq<char>,
    pub lang: Seq<char>,
    pub timeout_secs: Option<u64>,
    pub credential: Seq<char>,
}

impl View for RequestData {
    type V = RequestV;

    open spec fn view(&self) -> RequestV {
        RequestV {
            code: self.code@,
            lang: self.lang@,
            timeout_secs: self.timeout_secs,
            credential: self.credential@,
        }
    }
}

/// The effective deadline of a request: the caller's, or the default.
pub open spec fn spec_deadline(timeout_secs: Option<u64>) -> u64 {
    match timeout_secs {
        Option::Some(t) => t,
        Option::None => DEFAULT_DEADLINE_SECS,
    }
}

/// Where the pipeline stands within one request.
pub enum Phase {
    /// No request has arrived yet.
    Idle,
    /// The artifact write was demanded and its result is awaited.
    AwaitingWrite { path: String, lang: Lang, deadline_secs: u64 },
    /// The artifact exists; the interpreter run is awaited.
    AwaitingExecution { path: String },
    /// The run is classified; the artifact's disposal is awaited before the
    /// response may go out.
    AwaitingDisposal { path: String, response: ExecutionResponse },
    /// The response went out. Terminal: every further event is ignored.
    Responded { response: ExecutionResponse },
}

/// The mathematical counterpart of a phase.
pub enum PhaseV {
    Idle,
    AwaitingWrite { path: Seq<char>, lang: Lang, deadline_secs: u64 },
    AwaitingExecution { path: Seq<char> },
    AwaitingDisposal { path: Seq<char>, response: ResponseV },
    Responded { response: ResponseV },
}

impl View for Phase {
    type V = PhaseV;

    open spec fn view(&self) -> PhaseV {
        match self {
            Phase::Idle => PhaseV::Idle,
            Phase::AwaitingWrite { path, lang, deadline_secs } => PhaseV::AwaitingWrite {
                path: path@,
                lang: *lang,
                deadline_secs: *deadline_secs,
            },
            Phase::AwaitingExecution { path } => PhaseV::AwaitingExecution { path: path@ },
            Phase::AwaitingDisposal { path, response } => PhaseV::AwaitingDisposal {
                path: path@,
                response: response@,
            },
            Phase::Responded { response } => PhaseV::Responded { response: response@ },
        }
    }
}

/// What the surrounding process observed and reports back.
pub enum Event {
    /// A request arrived, with the artifact identifier generated for it.
    Arrived { request: RequestData, artifact_id: String },
    /// The demanded artifact write completed.
    WriteSucceeded,
    /// The demanded artifact write failed.
    WriteFailed,
    /// The interpreter process exited within the deadline, with these
    /// captured stdout and stderr bytes.
    ProcessExited { stdout: Vec<u8>, stderr: Vec<u8> },
    /// Spawning or waiting on the interpreter failed at the
    /// operating-system level.
    SpawnFailed,
    /// The deadline elapsed before the process exited (the process was
    /// terminated).
    DeadlineElapsed,
    /// The demanded artifact disposal was carried out.
    Disposed,
}

/// The mathematical counterpart of an event.
pub enum EventV {
    Arrived { request: RequestV, artifact_id: Seq<char> },
    WriteSucceeded,
    WriteFailed,
    ProcessExited { stdout: Seq<u8>, stderr: Seq<u8> },
    SpawnFailed,
    DeadlineElapsed,
    Disposed,
}

impl View for Event {
    type V = EventV;

    open spec fn view(&self) -> EventV {
        match self {
            Event::Arrived { request, artifact_id } => EventV::Arrived {
                request: request@,
                artifact_id: artifact_id@,
            },
            Event::WriteSucceeded => EventV::WriteSucceeded,
            Event::WriteFailed => EventV::WriteFailed,
            Event::ProcessExited { stdout, stderr } => EventV::ProcessExited {
                stdout: stdout@,
                stderr: stderr@,
            },
            Event::SpawnFailed => EventV::SpawnFailed,
            Event::DeadlineElapsed => EventV::DeadlineElapsed,
            Event::Disposed => EventV::Disposed,
        }
    }
}

/// What the surrounding process must do next.
pub enum Action {
    /// Write `code` to the file at `path`.
    WriteArtifact { path: String, code: String },
    /// Run `program` with `path` as its sole argument, bounded by
    /// `deadline_secs` of wall-clock time; terminate and reap the process if
    /// the deadline fires first.
    RunInterpreter { program: String, path: String, deadline_secs: u64 },
    /// Delete the file at `path` (best effort: a deletion failure is
    /// swallowed and still reported back as disposed).
    DisposeArtifact { path: String },
    /// Send this payload to the caller.
    Respond { response: ExecutionResponse },
}

/// The mathematical counterpart of an action.
pub enum ActionV {
    WriteArtifact { path: Seq<char>, code: Seq<char> },
    RunInterpreter { program: Seq<char>, path: Seq<char>, deadline_secs: u64 },
    DisposeArtifact { path: Seq<char> },
    Respond { response: ResponseV },
}

impl View for Action {
    type V = ActionV;

    open spec fn view(&self) -> ActionV {
        match self {
            Action::WriteArtifact { path, code } => ActionV::WriteArtifact {
                path: path@,
                code: code@,
            },
            Action::RunInterpreter { program, path, deadline_secs } => ActionV::RunInterpreter {
                program: program@,
                path: path@,
                deadline_secs: *deadline_secs,
            },
            Action::DisposeArtifact { path } => ActionV::DisposeArtifact { path: path@ },
            Action::Respond { response } => ActionV::Respond { response: response@ },
        }
    }
}

/// The view of an optional action.
pub open spec fn opt_action_view(a: Option<Action>) -> Option<ActionV> {
    match a {
        Option::Some(act) => Option::Some(act@),
        Option::None => Option::None,
    }
}

/// The machine's transition function. Any event that does not fit the phase
/// is ignored: the phase stands and no action is demanded.
pub open spec fn spec_step(secret: Seq<char>, p: PhaseV, e: EventV) -> (PhaseV, Option<ActionV>) {
    match (p, e) {
        (PhaseV::Idle, EventV::Arrived { request, artifact_id }) => {
            if !spec_authenticate(request.credential, secret) {
                let r = auth_failure_response_v();
                (PhaseV::Responded { response: r }, Option::Some(ActionV::Respond { response: r }))
            } else {
                let lang = lang_of(request.lang);
                let path = spec_artifact_path(TEMP_DIR@, artifact_id, lang);
                (
                    PhaseV::AwaitingWrite {
                        path,
                        lang,
                        deadline_secs: spec_deadline(request.timeout_secs),
                    },
                    Option::Some(ActionV::WriteArtifact { path, code: request.code }),
                )
            }
        },
        (PhaseV::AwaitingWrite { path, lang, deadline_secs }, EventV::WriteSucceeded) => (
            PhaseV::AwaitingExecution { path },
            Option::Some(
                ActionV::RunInterpreter { program: spec_interpreter(lang), path, deadline_secs },
            ),
        ),
        (PhaseV::AwaitingWrite { .. }, EventV::WriteFailed) => {
            let r = write_failure_response_v();
            (PhaseV::Responded { response: r }, Option::Some(ActionV::Respond { response: r }))
        },
        (PhaseV::AwaitingExecution { path }, EventV::ProcessExited { stdout, stderr }) => {
            let r = response_for(OutcomeV::Completed { stdout, stderr });
            (
                PhaseV::AwaitingDisposal { path, response: r },
                Option::Some(ActionV::DisposeArtifact { path }),
            )
        },
        (PhaseV::AwaitingExecution { path }, EventV::SpawnFailed) => {
            let r = response_for(OutcomeV::ProcessError);
            (
                PhaseV::AwaitingDisposal { path, response: r },
                Option::Some(ActionV::DisposeArtifact { path }),
            )
        },
        (PhaseV::AwaitingExecution { path }, EventV::DeadlineElapsed) => {
            let r = response_for(OutcomeV::TimedOut);
            (
                PhaseV::AwaitingDisposal { path, response: r },
                Option::Some(ActionV::DisposeArtifact { path }),
            )
        },
        (PhaseV::AwaitingDisposal { path: _, response }, EventV::Disposed) => (
            PhaseV::Responded { response },
            Option::Some(ActionV::Respond { response }),
        ),
        (other, _) => (other, Option::None),
    }
}

/// The pipeline state for one request: the configured secret, and where the
/// machine stands.
pub struct Session {
    pub secret: String,
    pub phase: Phase,
}

/// The mathematical counterpart of a session.
pub struct SessionV {
    pub secret: Seq<char>,
    pub phase: PhaseV,
}

impl View for Session {
    type V = SessionV;

    open spec fn view(&self) -> SessionV {
        SessionV { secret: self.secret@, phase: self.phase@ }
    }
}

/// One transition, on an owned phase.
fn transition(secret: &str, p: Phase, e: Event) -> (r: (Phase, Option<Action>))
    ensures
        (r.0@, opt_action_view(r.1)) == spec_step(secret@, p@, e@),
{
    match (p, e) {
        (Phase::Idle, Event::Arrived { request, artifact_id }) => {
            if !authenticate(request.credential.as_str(), secret) {
                let r = ExecutionResponse::auth_failure();
                let r2 = r.duplicate();
                (Phase::Responded { response: r }, Some(Action::Respond { response: r2 }))
            } else {
                let lang = Lang::of_tag(request.lang.as_str());
                let path = artifact_path(TEMP_DIR, artifact_id.as_str(), lang);
                let path2 = path.clone();
                let deadline_secs = match request.timeout_secs {
                    Some(t) => t,
                    None => DEFAULT_DEADLINE_SECS,
                };
                (
                    Phase::AwaitingWrite { path, lang, deadline_secs },
                    Some(Action::WriteArtifact { path: path2, code: request.code }),
                )
            }
        },
        (Phase::AwaitingWrite { path, lang, deadline_secs }, Event::WriteSucceeded) => {
            let program = lang.interpreter().to_owned();
            let path2 = path.clone();
            (
                Phase::AwaitingExecution { path },
                Some(Action::RunInterpreter { program, path: path2, deadline_secs }),
            )
        },
        (Phase::AwaitingWrite { .. }, Event::WriteFailed) => {
            let r = ExecutionResponse::write_failure();
            let r2 = r.duplicate();
            (Phase::Responded { response: r }, Some(Action::Respond { response: r2 }))
        },
        (Phase::AwaitingExecution { path }, Event::ProcessExited { stdout, stderr }) => {
            let outcome = ExecutionOutcome::Completed { stdout, stderr };
            let response = build_response(&outcome);
            let path2 = path.clone();
            (
                Phase::AwaitingDisposal { path, response },
                Some(Action::DisposeArtifact { path: path2 }),
            )
        },
        (Phase::AwaitingExecution { path }, Event::SpawnFailed) => {
            let response = build_response(&ExecutionOutcome::ProcessError);
            let path2 = path.clone();
            (
                Phase::AwaitingDisposal { path, response },
                Some(Action::DisposeArtifact { path: path2 }),
            )
        },
        (Phase::AwaitingExecution { path }, Event::DeadlineElapsed) => {
            let response = build_response(&ExecutionOutcome::TimedOut);
            let path2 = path.clone();
            (
                Phase::AwaitingDisposal { path, response },
                Some(Action::DisposeArtifact { path: path2 }),
            )
        },
        (Phase::AwaitingDisposal { path: _, response }, Event::Disposed) => {
            let r2 = response.duplicate();
            (Phase::Responded { response }, Some(Action::Respond { response: r2 }))
        },
        (other, _) => (other, None),
    }
}

impl Session {
    /// A fresh session for one request, holding the configured secret.
    pub fn new(secret: String) -> (s: Session)
        ensures
            s@.secret == secret@,
            s@.phase == PhaseV::Idle,
    {
        Session { secret, phase: Phase::Idle }
    }

    /// Feed one observed event to the machine. Returns the next thing the
    /// surrounding process must do, if any; the phase advances per the
    /// transition function, and the secret never changes.
    pub fn step(&mut self, event: Event) -> (a: Option<Action>)
        ensures
            final(self)@.secret == old(self)@.secret,
            (final(self)@.phase, opt_action_view(a)) == spec_step(
                old(self)@.secret,
                old(self)@.phase,
                event@,
            ),
    {
        let mut ph = Phase::Idle;
        core::mem::swap(&mut ph, &mut self.phase);
        let (next, action) = transition(self.secret.as_str(), ph, event);
        self.phase = next;
        action
    }
}

} // verus!
