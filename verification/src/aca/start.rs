//! Starting a sandbox that exists already: it is resumed where it is stopped, and it counts as
//! started only once the Bash probe has passed.

use vstd::prelude::*;

use crate::aca::client::{ApiCall, BodyView, CallView, Method, Operation, SandboxResource};
use crate::aca::initialize::{
    outcome_view, probe_verdict, validate_bash_probe, BASH_PROBE_SCRIPT, BASH_PROBE_TIMEOUT_MS,
};
use crate::aca::sandbox::{is_stopped, needs_resume, AcaSandbox, TimedCall};
use crate::error::{Error, ErrorView};
use crate::exec::{ExecResult, ExecView};

verus! {

/// What a start is waiting for.
#[derive(Debug)]
pub enum Starting {
    /// The sandbox's present state.
    Looking,
    /// The answer to a resume.
    Resuming,
    /// The outcome of the Bash probe.
    Probing,
    /// Nothing more.
    Done(Result<(), Error>),
}

/// The model of a [`Starting`].
#[verifier::ext_equal]
pub ghost enum StartView {
    Looking,
    Resuming,
    Probing,
    Done(Result<(), ErrorView>),
}

impl View for Starting {
    type V = StartView;

    open spec fn view(&self) -> StartView {
        match *self {
            Starting::Looking => StartView::Looking,
            Starting::Resuming => StartView::Resuming,
            Starting::Probing => StartView::Probing,
            Starting::Done(Ok(_)) => StartView::Done(Ok(())),
            Starting::Done(Err(e)) => StartView::Done(Err(e@)),
        }
    }
}

/// What a start asks for.
#[derive(Debug)]
pub enum StartAction {
    /// Make a call.
    Call(ApiCall),
    /// Run a command.
    Run(TimedCall),
    /// Nothing: the start has ended.
    Finished,
}

/// What follows the sandbox's state: a resume where it is stopped, and the probe otherwise.
pub open spec fn after_look(found: Result<Option<SandboxResource>, Error>) -> StartView {
    match found {
        Err(e) => StartView::Done(Err(e@)),
        Ok(resource) => if needs_resume(resource) {
            StartView::Resuming
        } else {
            StartView::Probing
        },
    }
}

/// What follows the answer to a resume: the probe, where it succeeded.
pub open spec fn after_start_resume(reply: Result<(), Error>) -> StartView {
    match reply {
        Err(e) => StartView::Done(Err(e@)),
        Ok(_) => StartView::Probing,
    }
}

/// What follows the probe: its verdict is the start's.
pub open spec fn after_start_probe(outcome: Result<ExecView, ErrorView>) -> StartView {
    StartView::Done(probe_verdict(outcome))
}

impl Starting {
    /// Takes the sandbox's state.
    pub fn looked(self, found: Result<Option<SandboxResource>, Error>) -> (r: Starting)
        requires
            self is Looking,
        ensures
            r@ == after_look(found),
    {
        match found {
            Err(e) => Starting::Done(Err(e)),
            Ok(resource) => if is_stopped(&resource) {
                Starting::Resuming
            } else {
                Starting::Probing
            },
        }
    }

    /// Takes the answer to a resume.
    pub fn resumed(self, reply: Result<(), Error>) -> (r: Starting)
        requires
            self is Resuming,
        ensures
            r@ == after_start_resume(reply),
    {
        match reply {
            Err(e) => Starting::Done(Err(e)),
            Ok(()) => Starting::Probing,
        }
    }

    /// Takes the outcome of the probe.
    pub fn probed(self, outcome: Result<ExecResult, Error>) -> (r: Starting)
        requires
            self is Probing,
        ensures
            r@ == after_start_probe(outcome_view(outcome)),
    {
        Starting::Done(validate_bash_probe(outcome))
    }
}

impl AcaSandbox {
    /// Begins a start, with a look at the sandbox's state.
    pub fn start(&self) -> (r: Starting)
        ensures
            r@ == StartView::Looking,
    {
        Starting::Looking
    }

    /// What a start asks for in its present state.
    pub fn start_action(&self, state: &Starting) -> (r: StartAction)
        ensures
            match state@ {
                StartView::Looking => r matches StartAction::Call(call) && call@ == (CallView {
                    op: Operation::GetSandbox,
                    method: Method::Get,
                    path: self@.client.path_of(self@.id),
                    query: seq![],
                    body: BodyView::Nothing,
                }),
                StartView::Resuming => r matches StartAction::Call(call) && call@
                    == self@.action_call(Operation::Resume, "resume"@),
                StartView::Probing => r matches StartAction::Run(probe) && {
                    &&& probe.call@ == self@.exec_call(BASH_PROBE_SCRIPT@, None, seq![])
                    &&& probe.timeout_ms == BASH_PROBE_TIMEOUT_MS
                },
                StartView::Done(_) => r is Finished,
            },
    {
        match state {
            Starting::Looking => StartAction::Call(self.activate()),
            Starting::Resuming => StartAction::Call(self.resume()),
            Starting::Probing => StartAction::Run(self.run_bash_probe()),
            Starting::Done(_) => StartAction::Finished,
        }
    }
}

/// A sandbox is never reported as started without a probe that passed: no other step ends a
/// start with success. It is resumed at most once, and only where it was stopped.
pub proof fn started_means_probed(
    found: Result<Option<SandboxResource>, Error>,
    reply: Result<(), Error>,
    outcome: Result<ExecView, ErrorView>,
)
    ensures
        after_look(found) != StartView::Done(Ok::<(), ErrorView>(())),
        after_start_resume(reply) != StartView::Done(Ok::<(), ErrorView>(())),
        after_start_probe(outcome) == StartView::Done(Ok::<(), ErrorView>(())) <==> probe_verdict(
            outcome,
        ) is Ok,
        after_look(found) is Resuming <==> found is Ok && needs_resume(found->Ok_0),
        !(after_start_resume(reply) is Resuming),
        after_start_probe(outcome) is Done,
{
}

} // verus!
