//! Making a sandbox ready: the Bash probe, and then the clone of the configured repository.

use vstd::prelude::*;

use crate::aca::client::BodyView;
use crate::aca::command::{wrapped, EnvView};
use crate::aca::sandbox::{borrowed, AcaSandbox, SandboxView, TimedCall};
use crate::clone_source::{
    branch_missing, branch_named, checkout_command, decide_clone, exact_checkout_verify_command,
    exact_repository_init_command, fetch_command, git_words, git_words_read_back, github_repo,
    github_url, init_command, lemma_two_operands, missing_branch_error, not_github, opt_pin, opt_str, pinned_fetch_command, selected_pin,
    selector_error, wrong_head, CloneDecision, PinView, PinnedRevision,
    FETCH_HEAD_COMMIT, GIT,
};
use crate::error::{in_context, Error, ErrorView};
use crate::exec::{ExecResult, ExecView};
use crate::outside::{set_url_credentials, url_sized, url_with_credentials};
use crate::shell::{
    option_joins_the_line, quoted, shell_quote, shell_words, word_joins_the_line,
};
use crate::text::{
    blank, lines, lines_of, nothing_left_after_replacement, occurs, opt_text, replace_all, replaced,
    same_text, stands_apart, texts,
};

verus! {

/// What to do about a sandbox without a usable Bash.
pub const ACA_BASH_REMEDIATION: &'static str =
    "ACA sandboxes require /bin/bash for every command, with no `sh` fallback; use a disk image that provides bash, such as `ubuntu`.";

/// A script that prints the marker where it is run by a Bash that is no login shell.
pub const BASH_PROBE_SCRIPT: &'static str =
    "[ -n \"$BASH_VERSION\" ] && ! shopt -q login_shell && echo fabro-bash-ready";

/// What the probe script prints.
pub const BASH_PROBE_MARKER: &'static str = "fabro-bash-ready";

/// The time allowed for the probe.
pub const BASH_PROBE_TIMEOUT_MS: u64 = 30_000;

/// The time allowed for each git command of a clone.
pub const ACA_CLONE_TIMEOUT_MS: u64 = 300_000;

/// The user name that goes with a token in a clone URL.
pub const TOKEN_USER: &'static str = "x-access-token";

/// What stands in place of an authenticated URL in the output of a failed command.
pub const REDACTED: &'static str = "***";

// ---------------------------------------------------------------------------
// The probe
// ---------------------------------------------------------------------------

/// The model of the outcome of a command.
pub open spec fn outcome_view(outcome: Result<ExecResult, Error>) -> Result<ExecView, ErrorView> {
    match outcome {
        Ok(result) => Ok(result@),
        Err(e) => Err(e@),
    }
}

/// The verdict of a probe: it must succeed and print the marker on a line of its own.
pub open spec fn probe_verdict(outcome: Result<ExecView, ErrorView>) -> Result<(), ErrorView> {
    match outcome {
        Err(e) => Err(in_context(ACA_BASH_REMEDIATION@, e)),
        Ok(result) => if result.succeeded() && lines_of(result.stdout).contains(BASH_PROBE_MARKER@) {
            Ok(())
        } else {
            Err(
                in_context(
                    ACA_BASH_REMEDIATION@,
                    ErrorView::Exec { label: "bash probe"@, result },
                ),
            )
        },
    }
}

fn has_line(text: &str, line: &str) -> (r: bool)
    ensures
        r == lines_of(text@).contains(line@),
{
    let all = lines(text);
    let mut i: usize = 0;
    while i < all.len()
        invariant
            i <= all@.len(),
            texts(all@) == lines_of(text@),
            forall|j: int| 0 <= j < i ==> #[trigger] lines_of(text@)[j] != line@,
        decreases all@.len() - i,
    {
        proof {
            assert(texts(all@)[i as int] == all@[i as int]@);
        }
        if same_text(all[i].as_str(), line) {
            proof {
                assert(lines_of(text@)[i as int] == line@);
            }
            return true;
        }
        i = i + 1;
    }
    false
}

/// Takes the outcome of a probe.
pub fn validate_bash_probe(outcome: Result<ExecResult, Error>) -> (r: Result<(), Error>)
    ensures
        match probe_verdict(outcome_view(outcome)) {
            Ok(_) => r is Ok,
            Err(e) => r is Err && r->Err_0@ == e,
        },
{
    match outcome {
        Err(e) => Err(Error::context(ACA_BASH_REMEDIATION, e)),
        Ok(result) => if result.is_success() && has_line(result.stdout.as_str(), BASH_PROBE_MARKER) {
            Ok(())
        } else {
            Err(
                Error::context(
                    ACA_BASH_REMEDIATION,
                    Error::Exec { label: "bash probe".to_owned(), result },
                ),
            )
        },
    }
}

// ---------------------------------------------------------------------------
// Clone commands and failures
// ---------------------------------------------------------------------------

/// Clones a repository into a directory: one branch where it is named, without tags.
pub open spec fn clone_command(url: Seq<char>, branch: Option<Seq<char>>, path: Seq<char>) -> Seq<char> {
    let start = GIT@ + " clone"@;
    let branched = match branch {
        Some(b) => start + " --branch "@ + quoted(b) + " --single-branch"@,
        None => start,
    };
    branched + " --no-tags -- "@ + quoted(url) + " "@ + quoted(path)
}

/// [`clone_command`].
pub fn aca_git_clone_command(clone_url: &str, branch: Option<&str>, checkout_path: &str) -> (r: String)
    ensures
        r@ == clone_command(clone_url@, opt_str(branch), checkout_path@),
{
    let mut command = GIT.to_owned();
    command.append(" clone");
    if let Some(branch) = branch {
        command.append(" --branch ");
        command.append(shell_quote(branch).as_str());
        command.append(" --single-branch");
    }
    command.append(" --no-tags -- ");
    command.append(shell_quote(clone_url).as_str());
    command.append(" ");
    command.append(shell_quote(checkout_path).as_str());
    command
}

/// A text with the authenticated URL masked.
pub open spec fn redacted(text: Seq<char>, auth_url: Option<Seq<char>>) -> Seq<char> {
    match auth_url {
        Some(url) => replaced(text, url, REDACTED@),
        None => text,
    }
}

/// [`redacted`].
pub fn redact_auth_url(output: &str, auth_url: &Option<String>) -> (r: String)
    ensures
        r@ == redacted(output@, opt_text(*auth_url)),
{
    match auth_url {
        Some(url) => replace_all(output, url.as_str(), REDACTED),
        None => output.to_owned(),
    }
}

/// The error for a git command that failed: what it printed is kept, with the authenticated
/// URL masked. Without a token source the repository may be a private one.
pub open spec fn clone_failure(
    has_token_source: bool,
    label: Seq<char>,
    result: ExecView,
    auth_url: Option<Seq<char>>,
) -> ErrorView {
    in_context(
        if has_token_source {
            "Failed to clone repository into ACA sandbox"@
        } else {
            "Git clone failed. If this is a private repository, configure a GitHub App with `fabro install` and install it for your organization."@
        },
        ErrorView::Exec {
            label,
            result: ExecView {
                stdout: redacted(result.stdout, auth_url),
                stderr: redacted(result.stderr, auth_url),
                ..result
            },
        },
    )
}

/// [`clone_failure`].
pub fn clone_failure_error(
    has_token_source: bool,
    result: ExecResult,
    label: &str,
    auth_url: &Option<String>,
) -> (r: Error)
    ensures
        r@ == clone_failure(has_token_source, label@, result@, opt_text(*auth_url)),
{
    let masked = ExecResult {
        stdout: redact_auth_url(result.stdout.as_str(), auth_url),
        stderr: redact_auth_url(result.stderr.as_str(), auth_url),
        exit_code: result.exit_code,
        termination: result.termination,
        duration_ms: result.duration_ms,
    };
    let message = if has_token_source {
        "Failed to clone repository into ACA sandbox"
    } else {
        "Git clone failed. If this is a private repository, configure a GitHub App with `fabro install` and install it for your organization."
    };
    Error::context(message, Error::Exec { label: label.to_owned(), result: masked })
}

/// The URL that a token is put into.
pub open spec fn authenticated(origin: Seq<char>, token: Seq<char>) -> Option<Seq<char>> {
    url_with_credentials(origin, TOKEN_USER@, token)
}

/// Puts a token into a clone URL.
pub fn embed_token_in_url(origin: &str, token: &str) -> (r: Option<String>)
    requires
        url_sized(origin@.len() + TOKEN_USER@.len() + token@.len()),
    ensures
        opt_text(r) == authenticated(origin@, token@),
{
    set_url_credentials(origin, TOKEN_USER, token)
}

// ---------------------------------------------------------------------------
// The course of an initialization
// ---------------------------------------------------------------------------

/// How often a git command is tried.
#[derive(Clone, Copy, Debug, PartialEq, Eq, Structural)]
pub struct RetryPlan {
    pub max_attempts: u32,
}

/// What is being cloned.
#[derive(Debug)]
pub struct CloneJob {
    pub origin_url: String,
    pub branch: Option<String>,
    /// The token of this clone, where one was minted, and the URL that carries it.
    pub token: Option<String>,
    pub auth_url: Option<String>,
}

/// The model of a [`CloneJob`].
#[verifier::ext_equal]
pub ghost struct JobView {
    pub origin: Seq<char>,
    pub branch: Option<Seq<char>>,
    pub token: Option<Seq<char>>,
    pub auth_url: Option<Seq<char>>,
}

impl View for CloneJob {
    type V = JobView;

    open spec fn view(&self) -> JobView {
        JobView {
            origin: self.origin_url@,
            branch: opt_text(self.branch),
            token: opt_text(self.token),
            auth_url: opt_text(self.auth_url),
        }
    }
}

impl JobView {
    /// The URL that is cloned from: the one with the token, where there is one.
    pub open spec fn clone_url(self) -> Seq<char> {
        match self.auth_url {
            Some(url) => url,
            None => self.origin,
        }
    }
}

/// What an initialization is waiting for.
#[derive(Debug)]
pub enum Initializing {
    /// The outcome of the Bash probe.
    Probing,
    /// A token for the clone.
    Minting { job: CloneJob, wanted: Option<PinnedRevision> },
    /// The outcome of a plain clone.
    Cloning { job: CloneJob, attempt: u32 },
    /// The outcome of making an empty repository for an exact revision.
    Seeding { job: CloneJob, pin: PinnedRevision },
    /// The outcome of fetching the exact revision.
    Fetching { job: CloneJob, pin: PinnedRevision, branch: String, attempt: u32 },
    /// The outcome of checking the exact revision out.
    CheckingOut { job: CloneJob, pin: PinnedRevision, branch: String },
    /// Nothing more.
    Done(Result<(), Error>),
}

/// The model of an [`Initializing`].
#[verifier::ext_equal]
pub ghost enum InitView {
    Probing,
    Minting { job: JobView, wanted: Option<PinView> },
    Cloning { job: JobView, attempt: u32 },
    Seeding { job: JobView, pin: PinView },
    Fetching { job: JobView, pin: PinView, branch: Seq<char>, attempt: u32 },
    CheckingOut { job: JobView, pin: PinView, branch: Seq<char> },
    Done(Result<(), ErrorView>),
}

impl View for Initializing {
    type V = InitView;

    open spec fn view(&self) -> InitView {
        match *self {
            Initializing::Probing => InitView::Probing,
            Initializing::Minting { job, wanted } => InitView::Minting {
                job: job@,
                wanted: opt_pin(wanted),
            },
            Initializing::Cloning { job, attempt } => InitView::Cloning { job: job@, attempt },
            Initializing::Seeding { job, pin } => InitView::Seeding { job: job@, pin: pin@ },
            Initializing::Fetching { job, pin, branch, attempt } => InitView::Fetching {
                job: job@,
                pin: pin@,
                branch: branch@,
                attempt,
            },
            Initializing::CheckingOut { job, pin, branch } => InitView::CheckingOut {
                job: job@,
                pin: pin@,
                branch: branch@,
            },
            Initializing::Done(Ok(_)) => InitView::Done(Ok(())),
            Initializing::Done(Err(e)) => InitView::Done(Err(e@)),
        }
    }
}

impl InitView {
    /// Whether the outcome of a command is waited for.
    pub open spec fn awaits_command(self) -> bool {
        !(self is Minting) && !(self is Done)
    }

    /// The command that is to be run, where one is, in a given working directory.
    pub open spec fn command(self, working_dir: Seq<char>) -> Option<Seq<char>> {
        match self {
            InitView::Probing => Some(BASH_PROBE_SCRIPT@),
            InitView::Cloning { job, .. } => Some(
                clone_command(job.clone_url(), job.branch, working_dir),
            ),
            InitView::Seeding { job, .. } => Some(init_command(job.clone_url(), working_dir)),
            InitView::Fetching { pin, .. } => Some(
                fetch_command(working_dir, "origin"@, pin.refspec(), None),
            ),
            InitView::CheckingOut { branch, .. } => Some(
                checkout_command(working_dir, branch, FETCH_HEAD_COMMIT@),
            ),
            _ => None,
        }
    }

    /// The time allowed for that command.
    pub open spec fn timeout_ms(self) -> u64 {
        if self is Probing {
            BASH_PROBE_TIMEOUT_MS
        } else {
            ACA_CLONE_TIMEOUT_MS
        }
    }
}

/// What an initialization asks for.
#[derive(Debug)]
pub enum InitAction {
    /// Run a command. An attempt after the first comes after a pause.
    Run { call: TimedCall, attempt: u32 },
    /// Mint a token for the clone: a new one, not one that was used before.
    MintToken,
    /// Nothing: the initialization has ended.
    Finished,
}

/// A failed initialization.
pub open spec fn failed(e: ErrorView) -> InitView {
    InitView::Done(Err(e))
}

/// The clone begins: plainly, or with an empty repository for an exact revision.
pub open spec fn begun_clone(job: JobView, pin: Option<PinView>) -> InitView {
    match pin {
        None => InitView::Cloning { job, attempt: 1 },
        Some(pin) => InitView::Seeding { job, pin },
    }
}

/// What follows a probe that passed: the decision about the clone. An empty workspace ends the
/// initialization; otherwise a token is minted where that can be done, and the clone begins.
pub open spec fn after_probe(sandbox: SandboxView) -> (SandboxView, InitView) {
    match sandbox.origin {
        None => (set_cloned(sandbox, false), InitView::Done(Ok(()))),
        Some(origin) => match github_repo(origin) {
            None => (sandbox, failed(not_github())),
            Some((owner, repo)) => match selector_error(sandbox.branch, sandbox.tag, sandbox.commit) {
                Some(e) => (sandbox, failed(e)),
                None => {
                    let job = JobView {
                        origin: github_url(owner, repo),
                        branch: sandbox.branch,
                        token: None,
                        auth_url: None,
                    };
                    let pin = selected_pin(sandbox.tag, sandbox.commit);
                    if sandbox.has_token_source {
                        (sandbox, InitView::Minting { job, wanted: pin })
                    } else {
                        (sandbox, begun_clone(job, pin))
                    }
                },
            },
        },
    }
}

/// What is recorded first about a clone stays.
pub open spec fn set_cloned(sandbox: SandboxView, cloned: bool) -> SandboxView {
    SandboxView {
        repo_cloned: match sandbox.repo_cloned {
            Some(first) => Some(first),
            None => Some(cloned),
        },
        ..sandbox
    }
}

/// A finished clone: the token that is now in the remote's URL is recorded, and so is the clone.
pub open spec fn finished_clone(sandbox: SandboxView, job: JobView) -> (SandboxView, InitView) {
    (
        set_cloned(
            SandboxView {
                embedded_token: match job.token {
                    Some(token) => Some(token),
                    None => sandbox.embedded_token,
                },
                ..sandbox
            },
            true,
        ),
        InitView::Done(Ok(())),
    )
}

/// What follows the outcome of a command. `retryable` tells whether a command that failed may
/// be tried again.
pub open spec fn after_command(
    sandbox: SandboxView,
    state: InitView,
    outcome: Result<ExecView, ErrorView>,
    retryable: bool,
    plan: RetryPlan,
) -> (SandboxView, InitView) {
    match state {
        InitView::Probing => match probe_verdict(outcome) {
            Err(e) => (sandbox, failed(e)),
            Ok(_) => after_probe(sandbox),
        },
        InitView::Cloning { job, attempt } => match outcome {
            Err(e) => (sandbox, failed(in_context("ACA git clone transport failed"@, e))),
            Ok(result) => if result.succeeded() {
                finished_clone(sandbox, job)
            } else if retryable && attempt < plan.max_attempts {
                (sandbox, InitView::Cloning { job, attempt: (attempt + 1) as u32 })
            } else {
                (
                    sandbox,
                    failed(
                        clone_failure(
                            sandbox.has_token_source,
                            "ACA git clone"@,
                            result,
                            job.auth_url,
                        ),
                    ),
                )
            },
        },
        InitView::Seeding { job, pin } => match outcome {
            Err(e) => (
                sandbox,
                failed(in_context("ACA pinned repository init transport failed"@, e)),
            ),
            Ok(result) => if !result.succeeded() {
                (
                    sandbox,
                    failed(
                        clone_failure(
                            sandbox.has_token_source,
                            "ACA pinned repository init"@,
                            result,
                            job.auth_url,
                        ),
                    ),
                )
            } else if branch_named(job.branch) {
                (
                    sandbox,
                    InitView::Fetching { job, pin, branch: job.branch->Some_0, attempt: 1 },
                )
            } else {
                (sandbox, failed(branch_missing(pin)))
            },
        },
        InitView::Fetching { job, pin, branch, attempt } => match outcome {
            Err(e) => (sandbox, failed(in_context("ACA pinned fetch transport failed"@, e))),
            Ok(result) => if result.succeeded() {
                (sandbox, InitView::CheckingOut { job, pin, branch })
            } else if retryable && attempt < plan.max_attempts {
                (
                    sandbox,
                    InitView::Fetching { job, pin, branch, attempt: (attempt + 1) as u32 },
                )
            } else {
                (
                    sandbox,
                    failed(
                        clone_failure(
                            sandbox.has_token_source,
                            "ACA pinned fetch"@,
                            result,
                            job.auth_url,
                        ),
                    ),
                )
            },
        },
        InitView::CheckingOut { job, pin, .. } => match outcome {
            Err(e) => (sandbox, failed(in_context("ACA pinned checkout transport failed"@, e))),
            Ok(result) => if !result.succeeded() {
                (
                    sandbox,
                    failed(
                        clone_failure(
                            sandbox.has_token_source,
                            "ACA pinned checkout"@,
                            result,
                            job.auth_url,
                        ),
                    ),
                )
            } else if pin.accepts_head(result.stdout) {
                finished_clone(sandbox, job)
            } else {
                (sandbox, failed(wrong_head(pin, crate::text::trimmed(result.stdout))))
            },
        },
        _ => (sandbox, state),
    }
}

/// What follows a token, or the failure to mint one.
pub open spec fn after_token(
    job: JobView,
    pin: Option<PinView>,
    token: Result<Seq<char>, Seq<char>>,
    auth_url: Option<Seq<char>>,
) -> InitView {
    match token {
        Err(cause) => failed(
            in_context(
                "Failed to get GitHub App credentials for clone"@,
                ErrorView::Outside(cause),
            ),
        ),
        Ok(token) => match auth_url {
            None => failed(
                in_context(
                    "Failed to build authenticated GitHub clone URL"@,
                    ErrorView::Message("the clone origin cannot carry credentials"@),
                ),
            ),
            Some(url) => begun_clone(
                JobView { token: Some(token), auth_url: Some(url), ..job },
                pin,
            ),
        },
    }
}

fn begin_clone(job: CloneJob, pin: Option<PinnedRevision>) -> (r: Initializing)
    ensures
        r@ == begun_clone(job@, opt_pin(pin)),
{
    match pin {
        None => Initializing::Cloning { job, attempt: 1 },
        Some(pin) => Initializing::Seeding { job, pin },
    }
}

/// [`after_token`], with the URL that carries the token given.
pub fn token_embedded(
    job: CloneJob,
    pin: Option<PinnedRevision>,
    token: String,
    auth_url: Option<String>,
) -> (r: Initializing)
    ensures
        r@ == after_token(job@, opt_pin(pin), Ok(token@), opt_text(auth_url)),
{
    match auth_url {
        None => Initializing::Done(
            Err(
                Error::context(
                    "Failed to build authenticated GitHub clone URL",
                    Error::message("the clone origin cannot carry credentials"),
                ),
            ),
        ),
        Some(url) => begin_clone(
            CloneJob {
                origin_url: job.origin_url,
                branch: job.branch,
                token: Some(token),
                auth_url: Some(url),
            },
            pin,
        ),
    }
}

impl Initializing {
    /// Takes a token, or the failure to mint one.
    pub fn minted(self, token: Result<String, String>) -> (r: Initializing)
        requires
            self is Minting,
            token matches Ok(t) ==> url_sized(
                self->Minting_job.origin_url@.len() + TOKEN_USER@.len() + t@.len(),
            ),
        ensures
            self matches Initializing::Minting { job, wanted: pin } ==> match token {
                Ok(t) => r@ == after_token(
                    job@,
                    opt_pin(pin),
                    Ok(t@),
                    authenticated(job.origin_url@, t@),
                ),
                Err(cause) => r@ == after_token(job@, opt_pin(pin), Err(cause@), None),
            },
    {
        match self {
            Initializing::Minting { job, wanted: pin } => match token {
                Err(cause) => Initializing::Done(
                    Err(Error::outside("Failed to get GitHub App credentials for clone", cause)),
                ),
                Ok(token) => {
                    let auth_url = embed_token_in_url(job.origin_url.as_str(), token.as_str());
                    token_embedded(job, pin, token, auth_url)
                },
            },
            other => other,
        }
    }
}

impl AcaSandbox {
    /// Starts an initialization, with the Bash probe: nothing is cloned into a sandbox that is
    /// not ready.
    pub fn initialize(&self) -> (r: Initializing)
        ensures
            r@ == InitView::Probing,
    {
        Initializing::Probing
    }

    /// The call of the Bash probe.
    pub fn run_bash_probe(&self) -> (r: TimedCall)
        ensures
            r.call@ == self@.exec_call(BASH_PROBE_SCRIPT@, None, seq![]),
            r.timeout_ms == BASH_PROBE_TIMEOUT_MS,
    {
        TimedCall {
            call: self.plain_exec(BASH_PROBE_SCRIPT),
            timeout_ms: BASH_PROBE_TIMEOUT_MS,
        }
    }

    fn git_call(&self, command: &str) -> (r: TimedCall)
        ensures
            r.call@ == self@.exec_call(command@, None, seq![]),
            r.timeout_ms == ACA_CLONE_TIMEOUT_MS,
    {
        TimedCall { call: self.plain_exec(command), timeout_ms: ACA_CLONE_TIMEOUT_MS }
    }

    /// What an initialization asks for in its present state.
    pub fn initialize_action(&self, state: &Initializing) -> (r: InitAction)
        ensures
            match state@ {
                InitView::Minting { .. } => r is MintToken,
                InitView::Done(_) => r is Finished,
                s => r matches InitAction::Run { call, attempt } && {
                    &&& call.call@ == self@.exec_call(
                        s.command(self@.config.working_dir)->Some_0,
                        None,
                        seq![],
                    )
                    &&& call.timeout_ms == s.timeout_ms()
                    &&& attempt == match s {
                        InitView::Cloning { attempt: n, .. } => n,
                        InitView::Fetching { attempt: n, .. } => n,
                        _ => 1u32,
                    }
                },
            },
    {
        let dir = self.config.working_dir.as_str();
        match state {
            Initializing::Probing => InitAction::Run { call: self.run_bash_probe(), attempt: 1 },
            Initializing::Minting { .. } => InitAction::MintToken,
            Initializing::Cloning { job, attempt } => {
                let command = aca_git_clone_command(job.clone_url(), borrowed(&job.branch), dir);
                InitAction::Run { call: self.git_call(command.as_str()), attempt: *attempt }
            },
            Initializing::Seeding { job, .. } => {
                let command = exact_repository_init_command(job.clone_url(), dir);
                InitAction::Run { call: self.git_call(command.as_str()), attempt: 1 }
            },
            Initializing::Fetching { pin, attempt, .. } => {
                let command = pinned_fetch_command(
                    dir,
                    "origin",
                    pin.fetch_refspec().as_str(),
                    None,
                );
                InitAction::Run { call: self.git_call(command.as_str()), attempt: *attempt }
            },
            Initializing::CheckingOut { branch, .. } => {
                let command = exact_checkout_verify_command(dir, branch.as_str(), FETCH_HEAD_COMMIT);
                InitAction::Run { call: self.git_call(command.as_str()), attempt: 1 }
            },
            Initializing::Done(_) => InitAction::Finished,
        }
    }

    /// Decides about the clone once the sandbox is ready.
    pub fn clone_if_configured(&mut self) -> (r: Initializing)
        ensures
            (final(self)@, r@) == after_probe(old(self)@),
    {
        let decision = decide_clone(
            false,
            borrowed(&self.clone_origin_url),
            borrowed(&self.clone_branch),
            borrowed(&self.clone_tag),
            borrowed(&self.clone_commit_sha),
        );
        match decision {
            Err(e) => Initializing::Done(Err(e)),
            Ok(CloneDecision::EmptyWorkspace { .. }) => {
                self.record_cloned(false);
                Initializing::Done(Ok(()))
            },
            Ok(CloneDecision::GitHub { origin_url, branch, tag, commit_sha }) => {
                let pin = PinnedRevision::from_selectors(borrowed(&tag), borrowed(&commit_sha));
                self.clone_github_repo(origin_url, branch, pin)
            },
        }
    }

    /// Begins a clone, with a token where one can be minted.
    pub fn clone_github_repo(
        &self,
        origin_url: String,
        branch: Option<String>,
        pin: Option<PinnedRevision>,
    ) -> (r: Initializing)
        ensures
            ({
                let job = JobView {
                    origin: origin_url@,
                    branch: opt_text(branch),
                    token: None,
                    auth_url: None,
                };
                r@ == if self@.has_token_source {
                    InitView::Minting { job, wanted: opt_pin(pin) }
                } else {
                    begun_clone(job, opt_pin(pin))
                }
            }),
    {
        let job = CloneJob { origin_url, branch, token: None, auth_url: None };
        if self.has_token_source {
            Initializing::Minting { job, wanted: pin }
        } else {
            begin_clone(job, pin)
        }
    }

    fn finish_clone(&mut self, job: CloneJob) -> (r: Initializing)
        ensures
            (final(self)@, r@) == finished_clone(old(self)@, job@),
    {
        if let Some(token) = job.token {
            self.embedded_token = Some(token);
        }
        self.record_cloned(true);
        Initializing::Done(Ok(()))
    }

    fn clone_error(&self, result: ExecResult, label: &str, job: &CloneJob) -> (r: Initializing)
        ensures
            r@ == failed(
                clone_failure(self@.has_token_source, label@, result@, job@.auth_url),
            ),
    {
        Initializing::Done(
            Err(clone_failure_error(self.has_token_source, result, label, &job.auth_url)),
        )
    }

    fn run_branch_clone(
        &mut self,
        job: CloneJob,
        attempt: u32,
        outcome: Result<ExecResult, Error>,
        retryable: bool,
        plan: RetryPlan,
    ) -> (r: Initializing)
        ensures
            (final(self)@, r@) == after_command(
                old(self)@,
                InitView::Cloning { job: job@, attempt },
                outcome_view(outcome),
                retryable,
                plan,
            ),
    {
        match outcome {
            Err(e) => Initializing::Done(Err(Error::context("ACA git clone transport failed", e))),
            Ok(result) => if result.is_success() {
                self.finish_clone(job)
            } else if retryable && attempt < plan.max_attempts {
                Initializing::Cloning { job, attempt: attempt + 1 }
            } else {
                self.clone_error(result, "ACA git clone", &job)
            },
        }
    }

    fn init_and_checkout_pin(
        &self,
        job: CloneJob,
        pin: PinnedRevision,
        outcome: Result<ExecResult, Error>,
    ) -> (r: Initializing)
        ensures
            forall|retryable: bool, plan: RetryPlan|
                (self@, r@) == #[trigger] after_command(
                    self@,
                    InitView::Seeding { job: job@, pin: pin@ },
                    outcome_view(outcome),
                    retryable,
                    plan,
                ),
    {
        match outcome {
            Err(e) => Initializing::Done(
                Err(Error::context("ACA pinned repository init transport failed", e)),
            ),
            Ok(result) => {
                if !result.is_success() {
                    return self.clone_error(result, "ACA pinned repository init", &job);
                }
                let named: Option<String> = match &job.branch {
                    Some(branch) => if blank(branch.as_str()) {
                        None
                    } else {
                        Some(branch.clone())
                    },
                    None => None,
                };
                match named {
                    Some(branch) => Initializing::Fetching { job, pin, branch, attempt: 1 },
                    None => Initializing::Done(Err(missing_branch_error(&pin))),
                }
            },
        }
    }

    fn pin_fetched(
        &self,
        job: CloneJob,
        pin: PinnedRevision,
        branch: String,
        attempt: u32,
        outcome: Result<ExecResult, Error>,
        retryable: bool,
        plan: RetryPlan,
    ) -> (r: Initializing)
        ensures
            (self@, r@) == after_command(
                self@,
                InitView::Fetching { job: job@, pin: pin@, branch: branch@, attempt },
                outcome_view(outcome),
                retryable,
                plan,
            ),
    {
        match outcome {
            Err(e) => Initializing::Done(
                Err(Error::context("ACA pinned fetch transport failed", e)),
            ),
            Ok(result) => if result.is_success() {
                Initializing::CheckingOut { job, pin, branch }
            } else if retryable && attempt < plan.max_attempts {
                Initializing::Fetching { job, pin, branch, attempt: attempt + 1 }
            } else {
                self.clone_error(result, "ACA pinned fetch", &job)
            },
        }
    }

    fn pin_checked_out(
        &mut self,
        job: CloneJob,
        pin: PinnedRevision,
        outcome: Result<ExecResult, Error>,
    ) -> (r: Initializing)
        ensures
            forall|branch: Seq<char>, retryable: bool, plan: RetryPlan|
                (final(self)@, r@) == #[trigger] after_command(
                    old(self)@,
                    InitView::CheckingOut { job: job@, pin: pin@, branch },
                    outcome_view(outcome),
                    retryable,
                    plan,
                ),
    {
        match outcome {
            Err(e) => Initializing::Done(
                Err(Error::context("ACA pinned checkout transport failed", e)),
            ),
            Ok(result) => {
                if !result.is_success() {
                    return self.clone_error(result, "ACA pinned checkout", &job);
                }
                match pin.verify_head(result.stdout.as_str()) {
                    Ok(()) => self.finish_clone(job),
                    Err(e) => Initializing::Done(Err(e)),
                }
            },
        }
    }

    /// Takes the outcome of the command that the state asked for. `retryable` tells whether
    /// its failure, if it failed, is one that may pass.
    pub fn initialize_next(
        &mut self,
        state: Initializing,
        outcome: Result<ExecResult, Error>,
        retryable: bool,
        plan: RetryPlan,
    ) -> (r: Initializing)
        requires
            state@.awaits_command(),
        ensures
            (final(self)@, r@) == after_command(
                old(self)@,
                state@,
                outcome_view(outcome),
                retryable,
                plan,
            ),
    {
        match state {
            Initializing::Probing => match validate_bash_probe(outcome) {
                Err(e) => Initializing::Done(Err(e)),
                Ok(()) => self.clone_if_configured(),
            },
            Initializing::Cloning { job, attempt } => self.run_branch_clone(
                job,
                attempt,
                outcome,
                retryable,
                plan,
            ),
            Initializing::Seeding { job, pin } => self.init_and_checkout_pin(job, pin, outcome),
            Initializing::Fetching { job, pin, branch, attempt } => self.pin_fetched(
                job,
                pin,
                branch,
                attempt,
                outcome,
                retryable,
                plan,
            ),
            Initializing::CheckingOut { job, pin, .. } => self.pin_checked_out(job, pin, outcome),
            other => other,
        }
    }
}

impl CloneJob {
    /// The URL that is cloned from.
    pub fn clone_url(&self) -> (r: &str)
        ensures
            r@ == self@.clone_url(),
    {
        match &self.auth_url {
            Some(url) => url.as_str(),
            None => self.origin_url.as_str(),
        }
    }
}

// ---------------------------------------------------------------------------
// Laws
// ---------------------------------------------------------------------------

/// How many answers an initialization can still wait for.
pub open spec fn answers_left(state: InitView, plan: RetryPlan) -> nat {
    let max = plan.max_attempts as nat;
    match state {
        InitView::Done(_) => 0,
        InitView::CheckingOut { .. } => 1,
        InitView::Fetching { attempt, .. } => if attempt < max {
            (2 + max - attempt) as nat
        } else {
            2
        },
        InitView::Cloning { attempt, .. } => if attempt < max {
            (1 + max - attempt) as nat
        } else {
            1
        },
        InitView::Seeding { .. } => max + 3,
        InitView::Minting { .. } => max + 4,
        InitView::Probing => max + 5,
    }
}

/// Every initialization ends: each outcome brings it closer to its end, whatever the outcome
/// is. A git command is tried no more often than the plan allows.
pub proof fn initialization_ends(
    sandbox: SandboxView,
    state: InitView,
    outcome: Result<ExecView, ErrorView>,
    retryable: bool,
    plan: RetryPlan,
)
    requires
        state.awaits_command(),
    ensures
        answers_left(after_command(sandbox, state, outcome, retryable, plan).1, plan)
            < answers_left(state, plan),
{
}

/// A token, and the failure to mint one, brings an initialization closer to its end as well.
pub proof fn minting_ends(
    job: JobView,
    pin: Option<PinView>,
    token: Result<Seq<char>, Seq<char>>,
    auth_url: Option<Seq<char>>,
    plan: RetryPlan,
)
    ensures
        answers_left(after_token(job, pin, token, auth_url), plan) < answers_left(
            InitView::Minting { job, wanted: pin },
            plan,
        ),
{
}

/// Nothing is cloned into a sandbox that is not ready: an initialization goes on after the
/// probe only where it passed, and where it did not, the error says what to do.
pub proof fn nothing_happens_before_the_probe_passed(
    sandbox: SandboxView,
    outcome: Result<ExecView, ErrorView>,
    retryable: bool,
    plan: RetryPlan,
)
    ensures
        ({
            let (after, next) = after_command(
                sandbox,
                InitView::Probing,
                outcome,
                retryable,
                plan,
            );
            probe_verdict(outcome) is Err ==> {
                &&& after == sandbox
                &&& next matches InitView::Done(Err(ErrorView::Context { message, .. }))
                &&& message == ACA_BASH_REMEDIATION@
            }
        }),
{
}

/// An initialization succeeds in three ways only: there was nothing to clone, a plain clone
/// succeeded, or an exact revision was checked out and `HEAD` was verified to be it.
pub proof fn success_means_what_was_asked_for_is_there(
    sandbox: SandboxView,
    state: InitView,
    outcome: Result<ExecView, ErrorView>,
    retryable: bool,
    plan: RetryPlan,
)
    requires
        state.awaits_command(),
        after_command(sandbox, state, outcome, retryable, plan).1 == InitView::Done(
            Ok::<(), ErrorView>(()),
        ),
    ensures
        outcome is Ok,
        outcome->Ok_0.succeeded(),
        match state {
            InitView::Probing => sandbox.origin is None,
            InitView::Cloning { .. } => true,
            InitView::CheckingOut { pin, .. } => pin.accepts_head(outcome->Ok_0.stdout),
            _ => false,
        },
{
}

/// Whether a state belongs to the course for an exact revision.
pub open spec fn on_pinned_course(state: InitView) -> bool {
    state is Seeding || state is Fetching || state is CheckingOut || (state matches InitView::Minting {
        wanted,
        ..
    } && wanted is Some)
}

/// A pinned run never clones a branch: once an exact revision is asked for, only that revision
/// is fetched, and the run ends with it or with an error.
pub proof fn pinned_runs_never_clone_a_branch(
    sandbox: SandboxView,
    state: InitView,
    outcome: Result<ExecView, ErrorView>,
    retryable: bool,
    plan: RetryPlan,
)
    ensures
        on_pinned_course(state) && state.awaits_command() ==> {
            let next = after_command(sandbox, state, outcome, retryable, plan).1;
            on_pinned_course(next) || next is Done
        },
        sandbox.tag is Some || sandbox.commit is Some ==> {
            let next = after_probe(sandbox).1;
            on_pinned_course(next) || next is Done
        },
{
}

/// Waiting for a token does not lead away from the course for an exact revision.
pub proof fn minting_keeps_to_the_course(
    job: JobView,
    pin: PinView,
    token: Result<Seq<char>, Seq<char>>,
    auth_url: Option<Seq<char>>,
)
    ensures
        ({
            let next = after_token(job, Some(pin), token, auth_url);
            on_pinned_course(next) || next is Done
        }),
{
}

/// A repository counts as cloned after an initialization only where this initialization cloned
/// it or one before had: no failure and no empty workspace makes it so.
pub proof fn cloned_only_by_a_clone(
    sandbox: SandboxView,
    state: InitView,
    outcome: Result<ExecView, ErrorView>,
    retryable: bool,
    plan: RetryPlan,
)
    requires
        state.awaits_command(),
        !sandbox.cloned(),
        after_command(sandbox, state, outcome, retryable, plan).0.cloned(),
    ensures
        state is Cloning || state is CheckingOut,
        after_command(sandbox, state, outcome, retryable, plan).1 == InitView::Done(
            Ok::<(), ErrorView>(()),
        ),
{
}

/// The authenticated URL never shows in the error of a failed git command, wherever the command
/// printed it: as long as the mask could not be taken for a part of it.
pub proof fn failures_do_not_show_the_token(
    has_token_source: bool,
    label: Seq<char>,
    result: ExecView,
    url: Seq<char>,
)
    requires
        stands_apart(url, REDACTED@),
    ensures
        ({
            &&& clone_failure(has_token_source, label, result, Some(url)) matches ErrorView::Context {
                source,
                ..
            }
            &&& *source matches ErrorView::Exec { result: shown, .. }
            &&& !occurs(url, shown.stdout)
            &&& !occurs(url, shown.stderr)
            &&& shown.exit_code == result.exit_code
        }),
{
    nothing_left_after_replacement(result.stdout, url, REDACTED@);
    nothing_left_after_replacement(result.stderr, url, REDACTED@);
}

/// Once a repository was cloned, a command that names no directory runs in the clone, and one
/// that names a directory runs there; before that, a command that names none is left to run
/// where the sandbox runs it.
pub proof fn commands_run_in_the_clone(
    sandbox: SandboxView,
    job: JobView,
    command: Seq<char>,
    dir: Seq<char>,
    env: Seq<EnvView>,
)
    requires
        sandbox.repo_cloned is None,
    ensures
        ({
            let after = finished_clone(sandbox, job).0;
            &&& sandbox.exec_call(command, None, env).body == BodyView::Command(
                wrapped(command, None, env),
            )
            &&& after.exec_call(command, None, env).body == BodyView::Command(
                wrapped(command, Some(sandbox.config.working_dir), env),
            )
            &&& after.exec_call(command, Some(dir), env) == sandbox.exec_call(
                command,
                Some(dir),
                env,
            )
        }),
{
}

/// A clone is handed its branch, its URL and its directory as one word each, whatever they hold;
/// the URL and the directory come after `--` and cannot be taken for options.
pub proof fn clone_keeps_its_words_apart(
    url: Seq<char>,
    branch: Option<Seq<char>>,
    path: Seq<char>,
)
    ensures
        shell_words(clone_command(url, branch, path)) == Some(
            git_words() + seq!["clone"@] + (match branch {
                Some(b) => seq!["--branch"@, b, "--single-branch"@],
                None => seq![],
            }) + seq!["--no-tags"@, "--"@, url, path],
        ),
{
    git_words_read_back();
    reveal_strlit(" ");
    reveal_strlit("clone");
    reveal_strlit(" clone");
    assert(" clone"@ =~= " "@ + "clone"@);
    word_joins_the_line(git_words(), git_words(), GIT@, "clone"@, " clone"@, "clone"@);
    let w1 = git_words() + seq!["clone"@];
    let t1 = GIT@ + " clone"@;
    match branch {
        Some(b) => {
            reveal_strlit("--branch");
            reveal_strlit(" --branch ");
            reveal_strlit("--single-branch");
            reveal_strlit(" --single-branch");
            assert(" --branch "@ =~= " "@ + "--branch"@ + " "@);
            assert(" --single-branch"@ =~= " "@ + "--single-branch"@);
            option_joins_the_line(w1, w1, t1, "--branch"@, " --branch "@, quoted(b), b);
            let p2 = w1 + seq!["--branch"@, quoted(b)];
            let w2 = w1 + seq!["--branch"@, b];
            let t2 = t1 + " --branch "@ + quoted(b);
            word_joins_the_line(
                p2,
                w2,
                t2,
                "--single-branch"@,
                " --single-branch"@,
                "--single-branch"@,
            );
            lemma_two_operands(
                p2 + seq!["--single-branch"@],
                w2 + seq!["--single-branch"@],
                t2 + " --single-branch"@,
                url,
                path,
            );
            assert(w2 + seq!["--single-branch"@] =~= w1 + seq!["--branch"@, b, "--single-branch"@]);
        },
        None => {
            lemma_two_operands(w1, w1, t1, url, path);
            assert(w1 + Seq::<Seq<char>>::empty() =~= w1);
        },
    }
}

} // verus!
