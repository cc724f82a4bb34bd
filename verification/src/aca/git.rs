//! Git inside a cloned sandbox: the run's branch, and pushing it.

use vstd::prelude::*;

use crate::aca::initialize::{outcome_view, RetryPlan};
use crate::aca::sandbox::{AcaSandbox, TimedCall};
use crate::clone_source::{git_words, git_words_read_back, GIT};
use crate::error::{in_context, Error, ErrorView};
use crate::exec::{ExecResult, ExecView};
use crate::shell::{
    option_joins_the_line, quoted, shell_quote, shell_words, spelled_words_read_back, two_spelled_words,
    word_joins_the_line,
};
use crate::text::{opt_text, same_text, trim, trimmed};

verus! {

/// The time allowed for one git command.
pub const GIT_TIMEOUT_MS: u64 = 30_000;

// ---------------------------------------------------------------------------
// The run's branch
// ---------------------------------------------------------------------------

/// What a run wants of its repository.
#[derive(Debug)]
pub enum GitSetupIntent {
    /// A branch of its own, from where the repository is.
    NewRun { run_id: String },
}

/// What a run starts from.
#[derive(Debug)]
pub struct GitRunInfo {
    pub base_sha: String,
    pub run_branch: String,
    pub base_branch: Option<String>,
}

/// The model of a [`GitRunInfo`].
#[verifier::ext_equal]
pub ghost struct RunInfoView {
    pub base_sha: Seq<char>,
    pub run_branch: Seq<char>,
    pub base_branch: Option<Seq<char>>,
}

impl View for GitRunInfo {
    type V = RunInfoView;

    open spec fn view(&self) -> RunInfoView {
        RunInfoView {
            base_sha: self.base_sha@,
            run_branch: self.run_branch@,
            base_branch: opt_text(self.base_branch),
        }
    }
}

/// What the setup of a run's branch is waiting for.
#[derive(Debug)]
pub enum GitSetup {
    /// The name of the branch that is checked out.
    ReadingBranch { run_branch: String },
    /// The commit that is checked out.
    ReadingBase { run_branch: String, base_branch: Option<String> },
    /// The new branch.
    Branching { info: GitRunInfo },
    /// Nothing more.
    Done(Result<GitRunInfo, Error>),
}

/// The model of a [`GitSetup`].
#[verifier::ext_equal]
pub ghost enum SetupView {
    ReadingBranch { run_branch: Seq<char> },
    ReadingBase { run_branch: Seq<char>, base_branch: Option<Seq<char>> },
    Branching { info: RunInfoView },
    Done(Result<RunInfoView, ErrorView>),
}

impl View for GitSetup {
    type V = SetupView;

    open spec fn view(&self) -> SetupView {
        match *self {
            GitSetup::ReadingBranch { run_branch } => SetupView::ReadingBranch {
                run_branch: run_branch@,
            },
            GitSetup::ReadingBase { run_branch, base_branch } => SetupView::ReadingBase {
                run_branch: run_branch@,
                base_branch: opt_text(base_branch),
            },
            GitSetup::Branching { info } => SetupView::Branching { info: info@ },
            GitSetup::Done(Ok(info)) => SetupView::Done(Ok(info@)),
            GitSetup::Done(Err(e)) => SetupView::Done(Err(e@)),
        }
    }
}

/// The branch of a run.
pub open spec fn run_branch_name(run_id: Seq<char>) -> Seq<char> {
    "fabro/run/"@ + run_id
}

impl SetupView {
    /// The command that is to be run, where one is.
    pub open spec fn command(self) -> Option<Seq<char>> {
        match self {
            SetupView::ReadingBranch { .. } => Some("git rev-parse --abbrev-ref HEAD"@),
            SetupView::ReadingBase { .. } => Some("git rev-parse HEAD"@),
            SetupView::Branching { info } => Some(
                "git checkout -B "@ + quoted(info.run_branch) + " "@ + quoted(info.base_sha),
            ),
            SetupView::Done(_) => None,
        }
    }
}

/// The branch that was printed, where one is checked out: `HEAD` stands for none.
pub open spec fn printed_branch(result: ExecView) -> Option<Seq<char>> {
    let name = trimmed(result.stdout);
    if result.succeeded() && name.len() > 0 && name != "HEAD"@ {
        Some(name)
    } else {
        None
    }
}

/// What follows the outcome of a command. Without a branch the run starts from a bare commit;
/// without a commit, or without the new branch, there is no run.
pub open spec fn after_git(state: SetupView, outcome: Result<ExecView, ErrorView>) -> SetupView {
    match outcome {
        Err(e) => SetupView::Done(Err(in_context("git setup command failed"@, e))),
        Ok(result) => match state {
            SetupView::ReadingBranch { run_branch } => SetupView::ReadingBase {
                run_branch,
                base_branch: printed_branch(result),
            },
            SetupView::ReadingBase { run_branch, base_branch } => if result.succeeded() && trimmed(
                result.stdout,
            ).len() > 0 {
                SetupView::Branching {
                    info: RunInfoView {
                        base_sha: trimmed(result.stdout),
                        run_branch,
                        base_branch,
                    },
                }
            } else {
                SetupView::Done(Err(ErrorView::Exec { label: "git rev-parse HEAD"@, result }))
            },
            SetupView::Branching { info } => if result.succeeded() {
                SetupView::Done(Ok(info))
            } else {
                SetupView::Done(Err(ErrorView::Exec { label: "git checkout"@, result }))
            },
            SetupView::Done(_) => state,
        },
    }
}

impl GitSetup {
    /// Takes the outcome of the command that the state asked for.
    pub fn next(self, outcome: Result<ExecResult, Error>) -> (r: GitSetup)
        requires
            !(self is Done),
        ensures
            r@ == after_git(self@, outcome_view(outcome)),
    {
        let result = match outcome {
            Ok(result) => result,
            Err(e) => return GitSetup::Done(Err(Error::context("git setup command failed", e))),
        };
        match self {
            GitSetup::ReadingBranch { run_branch } => {
                let name = trim(result.stdout.as_str());
                let base_branch = if result.is_success() && !name.as_str().is_empty() && !same_text(
                    name.as_str(),
                    "HEAD",
                ) {
                    Some(name)
                } else {
                    None
                };
                GitSetup::ReadingBase { run_branch, base_branch }
            },
            GitSetup::ReadingBase { run_branch, base_branch } => {
                let base_sha = trim(result.stdout.as_str());
                if result.is_success() && !base_sha.as_str().is_empty() {
                    GitSetup::Branching { info: GitRunInfo { base_sha, run_branch, base_branch } }
                } else {
                    GitSetup::Done(
                        Err(Error::Exec { label: "git rev-parse HEAD".to_owned(), result }),
                    )
                }
            },
            GitSetup::Branching { info } => if result.is_success() {
                GitSetup::Done(Ok(info))
            } else {
                GitSetup::Done(Err(Error::Exec { label: "git checkout".to_owned(), result }))
            },
            GitSetup::Done(done) => GitSetup::Done(done),
        }
    }
}

// ---------------------------------------------------------------------------
// Pushing
// ---------------------------------------------------------------------------

/// One attempt to push.
#[derive(Debug)]
pub struct PushAttempt {
    pub success: bool,
    /// The token that was used: none, as long as pushes run with what the remote carries.
    pub token: Option<String>,
    /// What was done about credentials: nothing, for the same reason.
    pub credential_action: Option<String>,
}

/// The attempts of a push that succeeded.
#[derive(Debug)]
pub struct PushReport {
    pub attempts: Vec<PushAttempt>,
}

/// The attempts of a push that failed, and the error of the last one.
#[derive(Debug)]
pub struct PushError {
    pub attempts: Vec<PushAttempt>,
    pub error: Error,
}

/// A push that is waiting for the outcome of its next attempt.
#[derive(Debug)]
pub struct Pushing {
    pub refspec: String,
    pub failed: Vec<PushAttempt>,
}

/// What a push does next.
#[derive(Debug)]
pub enum PushStep {
    /// Pause, and try again.
    Again(Pushing),
    Done(Result<PushReport, PushError>),
}

/// Whether an attempt ran with what the remote already carried.
pub open spec fn bare_attempt(a: PushAttempt, success: bool) -> bool {
    a.success == success && a.token is None && a.credential_action is None
}

/// Whether all attempts so far failed, and none used managed credentials.
pub open spec fn all_failed(attempts: Seq<PushAttempt>) -> bool {
    forall|i: int| 0 <= i < attempts.len() ==> bare_attempt(#[trigger] attempts[i], false)
}

/// The command of a push.
pub open spec fn push_command(refspec: Seq<char>) -> Seq<char> {
    GIT@ + " push origin "@ + quoted(refspec)
}

impl Pushing {
    /// A push holds only failed attempts, as long as it goes on.
    pub open spec fn wf(self) -> bool {
        all_failed(self.failed@)
    }

    /// Takes the outcome of an attempt. A failure that may pass is followed by another attempt
    /// as long as the plan allows one.
    pub fn next(self, outcome: Result<ExecResult, Error>, retryable: bool, plan: RetryPlan) -> (r:
        PushStep)
        requires
            self.wf(),
        ensures
            match outcome {
                Ok(result) if result@.succeeded() => r matches PushStep::Done(Ok(report))
                    && report.attempts@.len() == self.failed@.len() + 1 && all_failed(
                    report.attempts@.drop_last(),
                ) && bare_attempt(report.attempts@.last(), true),
                Ok(result) => if retryable && self.failed@.len() + 1 < plan.max_attempts {
                    r matches PushStep::Again(next) && next.wf() && next.refspec == self.refspec
                        && next.failed@.len() == self.failed@.len() + 1
                } else {
                    r matches PushStep::Done(Err(e)) && all_failed(e.attempts@) && e.attempts@.len()
                        == self.failed@.len() + 1 && e.error@ == ErrorView::Exec {
                        label: "git push"@,
                        result: result@,
                    }
                },
                Err(cause) => r matches PushStep::Done(Err(e)) && all_failed(e.attempts@)
                    && e.attempts@.len() == self.failed@.len() + 1 && e.error == cause,
            },
    {
        let mut attempts = self.failed;
        let refspec = self.refspec;
        let success = match &outcome {
            Ok(result) => result.is_success(),
            Err(_) => false,
        };
        let ghost before = attempts@;
        attempts.push(PushAttempt { success, token: None, credential_action: None });
        proof {
            assert(attempts@.drop_last() =~= before);
        }
        match outcome {
            Err(error) => PushStep::Done(Err(PushError { attempts, error })),
            Ok(result) => if success {
                PushStep::Done(Ok(PushReport { attempts }))
            } else if retryable && (attempts.len() as u64) < (plan.max_attempts as u64) {
                PushStep::Again(Pushing { refspec, failed: attempts })
            } else {
                PushStep::Done(
                    Err(
                        PushError {
                            attempts,
                            error: Error::Exec { label: "git push".to_owned(), result },
                        },
                    ),
                )
            },
        }
    }
}

impl AcaSandbox {
    /// Starts the setup of a run's branch, where a repository was cloned; there is nothing to
    /// branch from otherwise.
    pub fn setup_git(&self, intent: &GitSetupIntent) -> (r: Option<GitSetup>)
        ensures
            match r {
                Some(setup) => {
                    &&& self@.cloned()
                    &&& intent matches GitSetupIntent::NewRun { run_id }
                    &&& setup@ == (SetupView::ReadingBranch { run_branch: run_branch_name(run_id@) })
                },
                None => !self@.cloned(),
            },
    {
        if !self.repo_cloned() {
            return None;
        }
        match intent {
            GitSetupIntent::NewRun { run_id } => {
                let mut run_branch = "fabro/run/".to_owned();
                run_branch.append(run_id.as_str());
                Some(GitSetup::ReadingBranch { run_branch })
            },
        }
    }

    /// The command that a setup asks for in its present state, where it asks for one.
    pub fn setup_git_call(&self, state: &GitSetup) -> (r: Option<TimedCall>)
        ensures
            match r {
                Some(timed) => {
                    &&& state@.command() is Some
                    &&& timed.call@ == self@.exec_call(state@.command()->Some_0, None, seq![])
                    &&& timed.timeout_ms == GIT_TIMEOUT_MS
                },
                None => state@ is Done,
            },
    {
        let command = match state {
            GitSetup::ReadingBranch { .. } => "git rev-parse --abbrev-ref HEAD".to_owned(),
            GitSetup::ReadingBase { .. } => "git rev-parse HEAD".to_owned(),
            GitSetup::Branching { info } => {
                let mut command = "git checkout -B ".to_owned();
                command.append(shell_quote(info.run_branch.as_str()).as_str());
                command.append(" ");
                command.append(shell_quote(info.base_sha.as_str()).as_str());
                command
            },
            GitSetup::Done(_) => return None,
        };
        Some(TimedCall { call: self.plain_exec(command.as_str()), timeout_ms: GIT_TIMEOUT_MS })
    }

    /// Starts a push.
    pub fn git_push_ref(&self, refspec: &str) -> (r: Pushing)
        ensures
            r.wf(),
            r.refspec@ == refspec@,
            r.failed@.len() == 0,
    {
        Pushing { refspec: refspec.to_owned(), failed: Vec::new() }
    }

    /// The call of a push's next attempt.
    pub fn push_call(&self, push: &Pushing) -> (r: TimedCall)
        ensures
            r.call@ == self@.exec_call(push_command(push.refspec@), None, seq![]),
            r.timeout_ms == GIT_TIMEOUT_MS,
    {
        let mut command = GIT.to_owned();
        command.append(" push origin ");
        command.append(shell_quote(push.refspec.as_str()).as_str());
        TimedCall { call: self.plain_exec(command.as_str()), timeout_ms: GIT_TIMEOUT_MS }
    }
}

/// A run that was set up starts from the commit that was read, on its own branch: the last two
/// commands both succeeded, and the second put the branch on what the first printed.
pub proof fn run_starts_from_the_commit_that_was_read(
    run_branch: Seq<char>,
    base_branch: Option<Seq<char>>,
    read: ExecView,
    branched: ExecView,
    info: RunInfoView,
)
    requires
        after_git(
            after_git(SetupView::ReadingBase { run_branch, base_branch }, Ok(read)),
            Ok(branched),
        ) == SetupView::Done(Ok::<RunInfoView, ErrorView>(info)),
    ensures
        read.succeeded(),
        branched.succeeded(),
        info == (RunInfoView { base_sha: trimmed(read.stdout), run_branch, base_branch }),
{
}

/// A push is handed its refspec as one word, whatever it holds.
pub proof fn push_names_one_ref(refspec: Seq<char>)
    ensures
        shell_words(push_command(refspec)) == Some(
            git_words() + seq!["push"@, "origin"@, refspec],
        ),
{
    git_words_read_back();
    reveal_strlit(" ");
    reveal_strlit("push");
    reveal_strlit("origin");
    reveal_strlit(" push origin ");
    let push = " "@ + "push"@;
    let origin = " "@ + "origin"@ + " "@;
    word_joins_the_line(git_words(), git_words(), GIT@, "push"@, push, "push"@);
    let w1 = git_words() + seq!["push"@];
    option_joins_the_line(w1, w1, GIT@ + push, "origin"@, origin, quoted(refspec), refspec);
    spelled_words_read_back(
        w1 + seq!["origin"@, quoted(refspec)],
        w1 + seq!["origin"@, refspec],
    );
    assert(push + origin =~= " push origin "@);
    assert(GIT@ + push + origin + quoted(refspec) =~= push_command(refspec));
    assert(w1 + seq!["origin"@, refspec] =~= git_words() + seq!["push"@, "origin"@, refspec]);
}

/// The command that makes a run's branch is handed the branch and the commit as one word each.
pub proof fn branching_names_one_branch_and_one_commit(info: RunInfoView)
    ensures
        (SetupView::Branching { info }).command() is Some,
        shell_words((SetupView::Branching { info }).command()->Some_0) == Some(
            seq!["git"@, "checkout"@, "-B"@, info.run_branch, info.base_sha],
        ),
{
    reveal_strlit(" ");
    reveal_strlit("git");
    reveal_strlit("checkout");
    reveal_strlit("-B");
    reveal_strlit("git checkout -B ");
    let start = seq!["git"@, "checkout"@];
    two_spelled_words("git"@, "git"@, "checkout"@, "checkout"@);
    let t1 = "git"@ + " "@ + "checkout"@;
    let option = " "@ + "-B"@ + " "@;
    let branch = quoted(info.run_branch);
    let commit = quoted(info.base_sha);
    option_joins_the_line(start, start, t1, "-B"@, option, branch, info.run_branch);
    let p2 = start + seq!["-B"@, branch];
    let w2 = start + seq!["-B"@, info.run_branch];
    let t2 = t1 + option + branch;
    word_joins_the_line(p2, w2, t2, commit, " "@ + commit, info.base_sha);
    spelled_words_read_back(p2 + seq![commit], w2 + seq![info.base_sha]);
    assert(t1 + option =~= "git checkout -B "@);
    assert(t2 + (" "@ + commit) =~= "git checkout -B "@ + branch + " "@ + commit);
    assert(w2 + seq![info.base_sha] =~= seq![
        "git"@,
        "checkout"@,
        "-B"@,
        info.run_branch,
        info.base_sha,
    ]);
}

} // verus!
