//! The guard against a sandbox that was suspended in the middle of a session: resume it and
//! try once more.

use vstd::prelude::*;

use crate::aca::client::{refused, AcaApiError, Operation};
use crate::error::{caused_by_not_running, Error, ErrorView};

verus! {

/// Whether the data plane's "not running" answer is the error or one of its causes, however
/// many contexts have been put around it.
pub fn is_not_running_error(error: &Error) -> (r: bool)
    ensures
        r == caused_by_not_running(error@),
    decreases error,
{
    match error {
        Error::Api(AcaApiError::NotRunning) => true,
        Error::Context { source, .. } => is_not_running_error(source),
        _ => false,
    }
}

/// What a guarded operation is waiting for.
#[derive(Clone, Copy, Debug, PartialEq, Eq, Structural)]
pub enum RunningRetry {
    /// The operation's first answer.
    Calling,
    /// The answer to a resume.
    Resuming,
    /// The operation's second answer.
    CallingAgain,
}

/// What a guarded operation does next.
#[derive(Debug)]
pub enum RetryStep<T> {
    /// Start what the state is waiting for.
    Go(RunningRetry),
    /// Give this to the caller.
    Return(Result<T, Error>),
}

/// What follows an answer to the operation: a first answer that the sandbox is not running
/// leads to a resume, and every other answer to the caller.
pub open spec fn after_call<T>(state: RunningRetry, reply: Result<T, Error>) -> RetryStep<T> {
    match reply {
        Err(e) => if state == RunningRetry::Calling && caused_by_not_running(e@) {
            RetryStep::Go(RunningRetry::Resuming)
        } else {
            RetryStep::Return(reply)
        },
        Ok(_) => RetryStep::Return(reply),
    }
}

/// What follows the answer to a resume: the second call, or the resume's error to the caller.
pub open spec fn after_resume<T>(reply: Result<(), Error>) -> RetryStep<T> {
    match reply {
        Ok(_) => RetryStep::Go(RunningRetry::CallingAgain),
        Err(e) => RetryStep::Return(Err(e)),
    }
}

impl RunningRetry {
    /// A guarded operation starts with the operation itself: the sandbox's state is not asked
    /// for first.
    pub fn start() -> (r: RunningRetry)
        ensures
            r == RunningRetry::Calling,
    {
        RunningRetry::Calling
    }

    /// Takes an answer to the operation.
    pub fn called<T>(self, reply: Result<T, Error>) -> (r: RetryStep<T>)
        requires
            self != RunningRetry::Resuming,
        ensures
            r == after_call(self, reply),
    {
        let suspended = match &reply {
            Err(e) => is_not_running_error(e),
            Ok(_) => false,
        };
        if suspended && self == RunningRetry::Calling {
            RetryStep::Go(RunningRetry::Resuming)
        } else {
            RetryStep::Return(reply)
        }
    }

    /// Takes the answer to a resume.
    pub fn resumed<T>(self, reply: Result<(), Error>) -> (r: RetryStep<T>)
        requires
            self == RunningRetry::Resuming,
        ensures
            r == after_resume::<T>(reply),
    {
        match reply {
            Ok(()) => RetryStep::Go(RunningRetry::CallingAgain),
            Err(e) => RetryStep::Return(Err(e)),
        }
    }
}

/// What an outside party answers a guarded operation.
pub ghost enum Answer<T> {
    ToCall(Result<T, Error>),
    ToResume(Result<(), Error>),
}

/// How many operations and resumes a guarded operation has started when it is in a state.
pub open spec fn started(state: RunningRetry) -> (nat, nat) {
    match state {
        RunningRetry::Calling => (1, 0),
        RunningRetry::Resuming => (1, 1),
        RunningRetry::CallingAgain => (2, 1),
    }
}

/// One step with whatever answer a state waits for.
pub open spec fn retry_step<T>(state: RunningRetry, answer: Answer<T>) -> Option<RetryStep<T>> {
    match answer {
        Answer::ToCall(reply) => if state != RunningRetry::Resuming {
            Some(after_call(state, reply))
        } else {
            None
        },
        Answer::ToResume(reply) => if state == RunningRetry::Resuming {
            Some(after_resume(reply))
        } else {
            None
        },
    }
}

/// A guarded operation is tried twice at most and resumes once at most, whatever the answers:
/// each step that does not return starts exactly one thing more, and there is nothing more to
/// start after the second call.
pub proof fn retry_is_single_shot<T>(state: RunningRetry, answer: Answer<T>)
    requires
        retry_step(state, answer) is Some,
    ensures
        match retry_step(state, answer)->Some_0 {
            RetryStep::Go(next) => {
                &&& state != RunningRetry::CallingAgain
                &&& started(next).0 + started(next).1 == started(state).0 + started(state).1 + 1
                &&& started(next).0 <= 2 && started(next).1 <= 1
            },
            RetryStep::Return(_) => true,
        },
{
}

/// The guarded operation as a whole. A first answer other than "not running" is the result.
/// Otherwise the sandbox is resumed; a resume that fails is the result; and after one that
/// succeeds the second answer is the result as it comes, even if it is "not running" again.
pub proof fn running_retry_outcome<T>(
    first: Result<T, Error>,
    resume: Result<(), Error>,
    second: Result<T, Error>,
)
    ensures
        !(first is Err && caused_by_not_running(first->Err_0@)) ==> after_call(
            RunningRetry::Calling,
            first,
        ) == RetryStep::Return(first),
        first is Err && caused_by_not_running(first->Err_0@) ==> {
            &&& after_call(RunningRetry::Calling, first) == RetryStep::<T>::Go(
                RunningRetry::Resuming,
            )
            &&& resume is Err ==> after_resume::<T>(resume) == RetryStep::<T>::Return(
                Err(resume->Err_0),
            )
            &&& resume is Ok ==> after_resume::<T>(resume) == RetryStep::<T>::Go(
                RunningRetry::CallingAgain,
            )
            &&& after_call(RunningRetry::CallingAgain, second) == RetryStep::Return(second)
        },
{
}

/// A context around an error does not hide why it happened from the guard.
pub proof fn context_keeps_the_cause(message: Seq<char>, cause: ErrorView)
    ensures
        caused_by_not_running(crate::error::in_context(message, cause)) == caused_by_not_running(
            cause,
        ),
{
}

/// A refused call leads to a resume exactly where the status is 409.
pub proof fn only_a_conflict_leads_to_a_resume(op: Operation, status: u16, body: Seq<char>)
    ensures
        caused_by_not_running(refused(op, status, body)) <==> status == 409,
{
    reveal_with_fuel(caused_by_not_running, 2);
}

} // verus!
