//! Making a sandbox ready.

use vstd::prelude::*;

use crate::aca::initialize::{
    after_command, after_probe, after_token, clone_failure, clone_keeps_its_words_apart, probe_verdict,
    redacted, InitView, JobView, RetryPlan,
};
use crate::aca::sandbox::SandboxView;
use crate::aca::start::{after_look, after_start_probe, after_start_resume, StartView};
use crate::clone_source::{
    checkout_command, fetch_keeps_its_words_apart, git_words, git_words_read_back, github_repo, PinView,
};
use crate::error::{Error, ErrorView};
use crate::exec::{CommandTermination, ExecView};
use crate::shell::{
    option_joins_the_line, quoted, shell_words, spelled_words_read_back, word_joins_the_line,
};
use crate::text::{is_blank, lines_of, replaced, trimmed};

verus! {

// ---------------------------------------------------------------------------
// The commands
// ---------------------------------------------------------------------------

/// The words of a command of git in a directory.
proof fn lemma_git_in(dir: Seq<char>)
    ensures
        crate::shell::spelled(
            git_words() + seq!["-C"@, quoted(dir)],
            git_words() + seq!["-C"@, dir],
        ),
        crate::shell::spaced(git_words() + seq!["-C"@, quoted(dir)])
            == "git -c maintenance.auto=0 -c gc.auto=0"@ + " -C "@ + quoted(dir),
{
    git_words_read_back();
    reveal_strlit(" ");
    reveal_strlit("-C");
    reveal_strlit(" -C ");
    assert(" -C "@ =~= " "@ + "-C"@ + " "@);
    option_joins_the_line(
        git_words(),
        git_words(),
        "git -c maintenance.auto=0 -c gc.auto=0"@,
        "-C"@,
        " -C "@,
        quoted(dir),
        dir,
    );
}

proof fn lemma_init_words(dir: Seq<char>, url: Seq<char>)
    ensures
        shell_words("git -c maintenance.auto=0 -c gc.auto=0"@ + " init "@ + quoted(dir)) == Some(
            git_words() + seq!["init"@, dir],
        ),
        shell_words(
            "git -c maintenance.auto=0 -c gc.auto=0"@ + " -C "@ + quoted(dir)
                + " remote add origin "@ + quoted(url),
        ) == Some(git_words() + seq!["-C"@, dir, "remote"@, "add"@, "origin"@, url]),
{
    git_words_read_back();
    let git = "git -c maintenance.auto=0 -c gc.auto=0"@;
    reveal_strlit(" ");
    reveal_strlit("init");
    reveal_strlit(" init ");
    assert(" init "@ =~= " "@ + "init"@ + " "@);
    option_joins_the_line(git_words(), git_words(), git, "init"@, " init "@, quoted(dir), dir);
    spelled_words_read_back(
        git_words() + seq!["init"@, quoted(dir)],
        git_words() + seq!["init"@, dir],
    );
    lemma_git_in(dir);
    let p0 = git_words() + seq!["-C"@, quoted(dir)];
    let w0 = git_words() + seq!["-C"@, dir];
    let t0 = git + " -C "@ + quoted(dir);
    reveal_strlit("remote");
    reveal_strlit("add");
    reveal_strlit("origin");
    reveal_strlit(" remote add origin ");
    let remote = " "@ + "remote"@;
    let adding = " "@ + "add"@;
    let origin = " "@ + "origin"@ + " "@;
    word_joins_the_line(p0, w0, t0, "remote"@, remote, "remote"@);
    let p1 = p0 + seq!["remote"@];
    let w1 = w0 + seq!["remote"@];
    word_joins_the_line(p1, w1, t0 + remote, "add"@, adding, "add"@);
    let p2 = p1 + seq!["add"@];
    let w2 = w1 + seq!["add"@];
    let t2 = t0 + remote + adding;
    option_joins_the_line(p2, w2, t2, "origin"@, origin, quoted(url), url);
    spelled_words_read_back(p2 + seq!["origin"@, quoted(url)], w2 + seq!["origin"@, url]);
    assert(t2 + origin + quoted(url) =~= t0 + " remote add origin "@ + quoted(url)) by {
        assert(remote + adding + origin =~= " remote add origin "@);
    }
    assert(w2 + seq!["origin"@, url] =~= git_words() + seq![
        "-C"@,
        dir,
        "remote"@,
        "add"@,
        "origin"@,
        url,
    ]);
}

proof fn lemma_checkout_words(dir: Seq<char>, branch: Seq<char>, revision: Seq<char>)
    ensures
        shell_words(
            "git -c maintenance.auto=0 -c gc.auto=0"@ + " -C "@ + quoted(dir) + " checkout -B "@
                + quoted(branch) + " "@ + quoted(revision),
        ) == Some(git_words() + seq!["-C"@, dir, "checkout"@, "-B"@, branch, revision]),
        shell_words(
            "git -c maintenance.auto=0 -c gc.auto=0"@ + " -C "@ + quoted(dir)
                + " rev-parse HEAD"@,
        ) == Some(git_words() + seq!["-C"@, dir, "rev-parse"@, "HEAD"@]),
{
    let git = "git -c maintenance.auto=0 -c gc.auto=0"@;
    lemma_git_in(dir);
    let p0 = git_words() + seq!["-C"@, quoted(dir)];
    let w0 = git_words() + seq!["-C"@, dir];
    let t0 = git + " -C "@ + quoted(dir);
    reveal_strlit(" ");
    reveal_strlit("checkout");
    reveal_strlit("-B");
    reveal_strlit(" checkout -B ");
    let checkout = " "@ + "checkout"@;
    let option = " "@ + "-B"@ + " "@;
    word_joins_the_line(p0, w0, t0, "checkout"@, checkout, "checkout"@);
    let p1 = p0 + seq!["checkout"@];
    let w1 = w0 + seq!["checkout"@];
    let t1 = t0 + checkout;
    option_joins_the_line(p1, w1, t1, "-B"@, option, quoted(branch), branch);
    let p2 = p1 + seq!["-B"@, quoted(branch)];
    let w2 = w1 + seq!["-B"@, branch];
    let t2 = t1 + option + quoted(branch);
    word_joins_the_line(p2, w2, t2, quoted(revision), " "@ + quoted(revision), revision);
    spelled_words_read_back(p2 + seq![quoted(revision)], w2 + seq![revision]);
    assert(t2 + (" "@ + quoted(revision)) =~= t0 + " checkout -B "@ + quoted(branch) + " "@
        + quoted(revision)) by {
        assert(checkout + option =~= " checkout -B "@);
    }
    assert(w2 + seq![revision] =~= git_words() + seq![
        "-C"@,
        dir,
        "checkout"@,
        "-B"@,
        branch,
        revision,
    ]);
    reveal_strlit("rev-parse");
    reveal_strlit("HEAD");
    reveal_strlit(" rev-parse HEAD");
    let parse = " "@ + "rev-parse"@;
    let head = " "@ + "HEAD"@;
    word_joins_the_line(p0, w0, t0, "rev-parse"@, parse, "rev-parse"@);
    let p3 = p0 + seq!["rev-parse"@];
    let w3 = w0 + seq!["rev-parse"@];
    word_joins_the_line(p3, w3, t0 + parse, "HEAD"@, head, "HEAD"@);
    spelled_words_read_back(p3 + seq!["HEAD"@], w3 + seq!["HEAD"@]);
    assert(t0 + parse + head =~= t0 + " rev-parse HEAD"@) by {
        assert(parse + head =~= " rev-parse HEAD"@);
    }
    assert(w3 + seq!["HEAD"@] =~= git_words() + seq!["-C"@, dir, "rev-parse"@, "HEAD"@]);
}

/// A pinned run fetches from `origin` the very revision that was pinned, into the working
/// directory: a tag by its full name, and a commit by its own. The branch, the origin and the
/// number of the attempt have no say in it.
pub proof fn the_pinned_revision_is_fetched(
    job: JobView,
    pin: PinView,
    branch: Seq<char>,
    attempt: u32,
    dir: Seq<char>,
)
    ensures
        ({
            &&& (InitView::Fetching { job, pin, branch, attempt }).command(dir) matches Some(command)
            &&& shell_words(command) matches Some(words)
            &&& words == seq![
                "git"@,
                "-c"@,
                "maintenance.auto=0"@,
                "-c"@,
                "gc.auto=0"@,
                "-C"@,
                dir,
                "fetch"@,
                "--no-tags"@,
                "--"@,
                "origin"@,
                words.last(),
            ]
            &&& pin matches PinView::Tag(tag) ==> words.last() == "refs/tags/"@ + tag
            &&& pin matches PinView::Commit(sha) ==> words.last() == sha
        }),
{
    let name = match pin {
        PinView::Tag(tag) => "refs/tags/"@ + tag,
        PinView::Commit(sha) => sha,
    };
    fetch_keeps_its_words_apart(dir, "origin"@, name, None);
    let words = git_words() + seq!["-C"@, dir, "fetch"@] + seq![] + seq![
        "--no-tags"@,
        "--"@,
        "origin"@,
        name,
    ];
    assert(words =~= seq![
        "git"@,
        "-c"@,
        "maintenance.auto=0"@,
        "-c"@,
        "gc.auto=0"@,
        "-C"@,
        dir,
        "fetch"@,
        "--no-tags"@,
        "--"@,
        "origin"@,
        name,
    ]);
    assert(words.last() == name);
}

/// A plain clone is made from the URL that carries the token, and from the origin where there is
/// none, into the working directory; of the branch alone where one is named.
pub proof fn the_repository_asked_for_is_cloned(job: JobView, attempt: u32, dir: Seq<char>)
    ensures
        ({
            let url = match job.auth_url {
                Some(url) => url,
                None => job.origin,
            };
            let git = seq!["git"@, "-c"@, "maintenance.auto=0"@, "-c"@, "gc.auto=0"@];
            &&& (InitView::Cloning { job, attempt }).command(dir) matches Some(command)
            &&& shell_words(command) == Some(
                match job.branch {
                    Some(branch) => git + seq![
                        "clone"@,
                        "--branch"@,
                        branch,
                        "--single-branch"@,
                        "--no-tags"@,
                        "--"@,
                        url,
                        dir,
                    ],
                    None => git + seq!["clone"@, "--no-tags"@, "--"@, url, dir],
                },
            )
        }),
{
    let url = match job.auth_url {
        Some(url) => url,
        None => job.origin,
    };
    clone_keeps_its_words_apart(url, job.branch, dir);
    let git = seq!["git"@, "-c"@, "maintenance.auto=0"@, "-c"@, "gc.auto=0"@];
    match job.branch {
        Some(branch) => {
            assert(git + seq!["clone"@] + seq!["--branch"@, branch, "--single-branch"@] + seq![
                "--no-tags"@,
                "--"@,
                url,
                dir,
            ] =~= git + seq![
                "clone"@,
                "--branch"@,
                branch,
                "--single-branch"@,
                "--no-tags"@,
                "--"@,
                url,
                dir,
            ]);
        },
        None => {
            assert(git + seq!["clone"@] + seq![] + seq!["--no-tags"@, "--"@, url, dir] =~= git
                + seq!["clone"@, "--no-tags"@, "--"@, url, dir]);
        },
    }
}

/// A pinned run begins with two commands, the second only where the first succeeded: an empty
/// repository in the working directory, and its `origin`, which is the URL that carries the
/// token, and the origin where there is none.
pub proof fn a_pinned_repository_is_seeded(job: JobView, pin: PinView, dir: Seq<char>)
    ensures
        ({
            let url = match job.auth_url {
                Some(url) => url,
                None => job.origin,
            };
            let git = seq!["git"@, "-c"@, "maintenance.auto=0"@, "-c"@, "gc.auto=0"@];
            let text = "git -c maintenance.auto=0 -c gc.auto=0"@;
            let first = text + " init "@ + quoted(dir);
            let second = text + " -C "@ + quoted(dir) + " remote add origin "@ + quoted(url);
            &&& (InitView::Seeding { job, pin }).command(dir) == Some(first + " && "@ + second)
            &&& shell_words(first) == Some(git + seq!["init"@, dir])
            &&& shell_words(second) == Some(
                git + seq!["-C"@, dir, "remote"@, "add"@, "origin"@, url],
            )
        }),
{
    let url = match job.auth_url {
        Some(url) => url,
        None => job.origin,
    };
    lemma_init_words(dir, url);
    let text = "git -c maintenance.auto=0 -c gc.auto=0"@;
    let first = text + " init "@ + quoted(dir);
    let second = text + " -C "@ + quoted(dir) + " remote add origin "@ + quoted(url);
    assert((InitView::Seeding { job, pin }).command(dir)->Some_0 =~= first + " && "@ + second);
}

/// A pinned run ends with two commands, the second only where the first succeeded: the run's
/// branch is put on the commit that was fetched, and the commit it is at is printed.
pub proof fn the_fetched_commit_is_checked_out(
    job: JobView,
    pin: PinView,
    branch: Seq<char>,
    dir: Seq<char>,
)
    ensures
        ({
            let git = seq!["git"@, "-c"@, "maintenance.auto=0"@, "-c"@, "gc.auto=0"@];
            let text = "git -c maintenance.auto=0 -c gc.auto=0"@ + " -C "@ + quoted(dir);
            let first = text + " checkout -B "@ + quoted(branch) + " "@ + quoted(
                "FETCH_HEAD^{commit}"@,
            );
            let second = text + " rev-parse HEAD"@;
            &&& (InitView::CheckingOut { job, pin, branch }).command(dir) == Some(
                first + " && "@ + second,
            )
            &&& shell_words(first) == Some(
                git + seq!["-C"@, dir, "checkout"@, "-B"@, branch, "FETCH_HEAD^{commit}"@],
            )
            &&& shell_words(second) == Some(git + seq!["-C"@, dir, "rev-parse"@, "HEAD"@])
        }),
{
    lemma_checkout_words(dir, branch, "FETCH_HEAD^{commit}"@);
    let text = "git -c maintenance.auto=0 -c gc.auto=0"@ + " -C "@ + quoted(dir);
    let first = text + " checkout -B "@ + quoted(branch) + " "@ + quoted("FETCH_HEAD^{commit}"@);
    let second = text + " rev-parse HEAD"@;
    assert((InitView::CheckingOut { job, pin, branch }).command(dir)->Some_0 =~= first + " && "@
        + second);
}

/// A checkout is told its directory, its branch and its revision as one word each, whatever they
/// hold, and prints the commit that the directory is at.
pub proof fn checkouts_name_branch_and_revision(
    dir: Seq<char>,
    branch: Seq<char>,
    revision: Seq<char>,
)
    ensures
        ({
            let git = seq!["git"@, "-c"@, "maintenance.auto=0"@, "-c"@, "gc.auto=0"@];
            let text = "git -c maintenance.auto=0 -c gc.auto=0"@ + " -C "@ + quoted(dir);
            let first = text + " checkout -B "@ + quoted(branch) + " "@ + quoted(revision);
            let second = text + " rev-parse HEAD"@;
            &&& checkout_command(dir, branch, revision) == first + " && "@ + second
            &&& shell_words(first) == Some(
                git + seq!["-C"@, dir, "checkout"@, "-B"@, branch, revision],
            )
            &&& shell_words(second) == Some(git + seq!["-C"@, dir, "rev-parse"@, "HEAD"@])
        }),
{
    lemma_checkout_words(dir, branch, revision);
    let text = "git -c maintenance.auto=0 -c gc.auto=0"@ + " -C "@ + quoted(dir);
    let first = text + " checkout -B "@ + quoted(branch) + " "@ + quoted(revision);
    assert(checkout_command(dir, branch, revision) =~= first + " && "@ + (text
        + " rev-parse HEAD"@));
}

/// The probe asks for a Bash that is no login shell and has half a minute; every other command
/// has five. While a token is waited for, and at the end, no command is run.
pub proof fn commands_have_their_time(state: InitView, dir: Seq<char>)
    ensures
        state is Probing ==> state.command(dir) == Some(
            "[ -n \"$BASH_VERSION\" ] && ! shopt -q login_shell && echo fabro-bash-ready"@,
        ) && state.timeout_ms() == 30_000,
        state is Minting || state is Done ==> state.command(dir) is None
            && !state.awaits_command(),
        !(state is Minting || state is Done) ==> state.command(dir) is Some
            && state.awaits_command(),
        !(state is Probing) ==> state.timeout_ms() == 300_000,
{
}

// ---------------------------------------------------------------------------
// What follows
// ---------------------------------------------------------------------------

/// A probe passes exactly where it ran to its end, exited with zero and printed the marker on a
/// line of its own; what it did otherwise is kept in the error, which says what to do.
pub proof fn only_a_ready_bash_passes(outcome: Result<ExecView, ErrorView>)
    ensures
        probe_verdict(outcome) is Ok <==> (outcome matches Ok(result) && {
            &&& result.termination == CommandTermination::Exited
            &&& result.exit_code == Some(0i32)
            &&& lines_of(result.stdout).contains("fabro-bash-ready"@)
        }),
        probe_verdict(outcome) matches Err(e) ==> e == (ErrorView::Context {
            message:
                "ACA sandboxes require /bin/bash for every command, with no `sh` fallback; use a disk image that provides bash, such as `ubuntu`."@,
            source: Box::new(
                match outcome {
                    Err(cause) => cause,
                    Ok(result) => ErrorView::Exec { label: "bash probe"@, result },
                },
            ),
        }),
{
}

/// What a failed git command ends an initialization with: what it printed, with the URL that
/// carries the token masked wherever it occurs, and everything else that is known of it.
pub open spec fn ends_with_what_failed(
    next: InitView,
    sandbox: SandboxView,
    label: Seq<char>,
    result: ExecView,
    auth_url: Option<Seq<char>>,
) -> bool {
    &&& next matches InitView::Done(Err(ErrorView::Context { message, source }))
    &&& message == if sandbox.has_token_source {
        "Failed to clone repository into ACA sandbox"@
    } else {
        "Git clone failed. If this is a private repository, configure a GitHub App with `fabro install` and install it for your organization."@
    }
    &&& *source matches ErrorView::Exec { label: l, result: shown }
    &&& l == label
    &&& shown.exit_code == result.exit_code
    &&& shown.termination == result.termination
    &&& shown.duration_ms == result.duration_ms
    &&& match auth_url {
        None => shown.stdout == result.stdout && shown.stderr == result.stderr,
        Some(url) => shown.stdout == replaced(result.stdout, url, "***"@) && shown.stderr
            == replaced(result.stderr, url, "***"@),
    }
}

/// Every failed git command is told alike, whatever it is called: with all that is known of it, and
/// with the URL that carries the token masked.
pub proof fn failed_commands_are_told_in_full(
    sandbox: SandboxView,
    label: Seq<char>,
    result: ExecView,
    auth_url: Option<Seq<char>>,
    text: Seq<char>,
)
    ensures
        ends_with_what_failed(
            InitView::Done(
                Err(clone_failure(sandbox.has_token_source, label, result, auth_url)),
            ),
            sandbox,
            label,
            result,
            auth_url,
        ),
        auth_url is None ==> redacted(text, auth_url) == text,
        auth_url matches Some(url) ==> redacted(text, auth_url) == replaced(text, url, "***"@),
{
}

/// What a clone that succeeded leaves: the repository counts as cloned unless that was decided
/// before, the token that was used is kept, and nothing else of the sandbox changes.
pub open spec fn ends_with_a_clone(
    after: SandboxView,
    next: InitView,
    sandbox: SandboxView,
    token: Option<Seq<char>>,
) -> bool {
    &&& next == InitView::Done(Ok(()))
    &&& sandbox.repo_cloned is None ==> after.repo_cloned == Some(true)
    &&& sandbox.repo_cloned is Some ==> after.repo_cloned == sandbox.repo_cloned
    &&& token is Some ==> after.embedded_token == token
    &&& token is None ==> after.embedded_token == sandbox.embedded_token
    &&& after.client == sandbox.client && after.id == sandbox.id && after.config == sandbox.config
    &&& after.origin == sandbox.origin && after.branch == sandbox.branch
    &&& after.tag == sandbox.tag && after.commit == sandbox.commit
    &&& after.has_token_source == sandbox.has_token_source
    &&& after.rg_available == sandbox.rg_available
}

/// A plain clone that succeeded ends the initialization. One that failed is tried again, the same
/// clone under the next number, as long as the failure may pass and the plan allows it; otherwise
/// its failure is the end. Nothing but a success changes the sandbox.
pub proof fn a_plain_clone_takes_its_course(
    sandbox: SandboxView,
    job: JobView,
    attempt: u32,
    outcome: Result<ExecView, ErrorView>,
    retryable: bool,
    plan: RetryPlan,
)
    ensures
        ({
            let (after, next) = after_command(
                sandbox,
                InitView::Cloning { job, attempt },
                outcome,
                retryable,
                plan,
            );
            match outcome {
                Err(e) => after == sandbox && next == InitView::Done(
                    Err(
                        ErrorView::Context {
                            message: "ACA git clone transport failed"@,
                            source: Box::new(e),
                        },
                    ),
                ),
                Ok(result) => if result.termination == CommandTermination::Exited
                    && result.exit_code == Some(0i32) {
                    ends_with_a_clone(after, next, sandbox, job.token)
                } else if retryable && attempt < plan.max_attempts {
                    after == sandbox && (next matches InitView::Cloning { job: again, attempt: n }
                        && again == job && n == attempt + 1)
                } else {
                    after == sandbox && ends_with_what_failed(
                        next,
                        sandbox,
                        "ACA git clone"@,
                        result,
                        job.auth_url,
                    )
                },
            }
        }),
{
}

/// An exact revision is fetched once the empty repository is there, onto the branch that the run
/// names; a branch of nothing but white space is none.
pub proof fn a_seeded_repository_is_fetched_into(
    sandbox: SandboxView,
    job: JobView,
    pin: PinView,
    outcome: Result<ExecView, ErrorView>,
    retryable: bool,
    plan: RetryPlan,
)
    ensures
        ({
            let (after, next) = after_command(
                sandbox,
                InitView::Seeding { job, pin },
                outcome,
                retryable,
                plan,
            );
            &&& after == sandbox
            &&& match outcome {
                Err(e) => next == InitView::Done(
                    Err(
                        ErrorView::Context {
                            message: "ACA pinned repository init transport failed"@,
                            source: Box::new(e),
                        },
                    ),
                ),
                Ok(result) => if !(result.termination == CommandTermination::Exited
                    && result.exit_code == Some(0i32)) {
                    ends_with_what_failed(
                        next,
                        sandbox,
                        "ACA pinned repository init"@,
                        result,
                        job.auth_url,
                    )
                } else {
                    match job.branch {
                        Some(branch) if !is_blank(branch) => next == (InitView::Fetching {
                            job,
                            pin,
                            branch,
                            attempt: 1,
                        }),
                        _ => next == InitView::Done(
                            Err(
                                ErrorView::Message(
                                    match pin {
                                        PinView::Tag(_) =>
                                            "pinned tag"@ + " requires a repository branch"@,
                                        PinView::Commit(_) =>
                                            "pinned commit"@ + " requires a repository branch"@,
                                    },
                                ),
                            ),
                        ),
                    }
                },
            }
        }),
{
}

/// A fetch that succeeded is followed by the checkout of the same revision on the same branch. One
/// that failed is tried again, the same fetch under the next number, as long as the failure may
/// pass and the plan allows it. The sandbox does not change.
pub proof fn a_fetched_revision_is_checked_out(
    sandbox: SandboxView,
    job: JobView,
    pin: PinView,
    branch: Seq<char>,
    attempt: u32,
    outcome: Result<ExecView, ErrorView>,
    retryable: bool,
    plan: RetryPlan,
)
    ensures
        ({
            let (after, next) = after_command(
                sandbox,
                InitView::Fetching { job, pin, branch, attempt },
                outcome,
                retryable,
                plan,
            );
            &&& after == sandbox
            &&& match outcome {
                Err(e) => next == InitView::Done(
                    Err(
                        ErrorView::Context {
                            message: "ACA pinned fetch transport failed"@,
                            source: Box::new(e),
                        },
                    ),
                ),
                Ok(result) => if result.termination == CommandTermination::Exited
                    && result.exit_code == Some(0i32) {
                    next == (InitView::CheckingOut { job, pin, branch })
                } else if retryable && attempt < plan.max_attempts {
                    next matches InitView::Fetching {
                        job: again,
                        pin: same,
                        branch: onto,
                        attempt: n,
                    } && again == job && same == pin && onto == branch && n == attempt + 1
                } else {
                    ends_with_what_failed(
                        next,
                        sandbox,
                        "ACA pinned fetch"@,
                        result,
                        job.auth_url,
                    )
                },
            }
        }),
{
}

/// A checkout ends the initialization well exactly where it succeeded and printed the full name of
/// a commit, and for a pinned commit that commit's name in whatever case; a name that is another
/// is told.
pub proof fn a_checkout_is_verified(
    sandbox: SandboxView,
    job: JobView,
    pin: PinView,
    branch: Seq<char>,
    outcome: Result<ExecView, ErrorView>,
    retryable: bool,
    plan: RetryPlan,
)
    ensures
        ({
            let (after, next) = after_command(
                sandbox,
                InitView::CheckingOut { job, pin, branch },
                outcome,
                retryable,
                plan,
            );
            match outcome {
                Err(e) => after == sandbox && next == InitView::Done(
                    Err(
                        ErrorView::Context {
                            message: "ACA pinned checkout transport failed"@,
                            source: Box::new(e),
                        },
                    ),
                ),
                Ok(result) => if !(result.termination == CommandTermination::Exited
                    && result.exit_code == Some(0i32)) {
                    after == sandbox && ends_with_what_failed(
                        next,
                        sandbox,
                        "ACA pinned checkout"@,
                        result,
                        job.auth_url,
                    )
                } else {
                    let head = trimmed(result.stdout);
                    let full = head.len() == 40 && forall|i: int|
                        0 <= i < 40 ==> {
                            let c = #[trigger] head[i];
                            '0' <= c <= '9' || 'a' <= c <= 'f' || 'A' <= c <= 'F'
                        };
                    let same = match pin {
                        PinView::Tag(_) => true,
                        PinView::Commit(sha) => crate::text::same_but_for_case(head, sha),
                    };
                    if full && same {
                        ends_with_a_clone(after, next, sandbox, job.token)
                    } else {
                        after == sandbox && next == InitView::Done(
                            Err(
                                ErrorView::Message(
                                    match pin {
                                        PinView::Tag(_) => "pinned tag"@,
                                        PinView::Commit(_) => "pinned commit"@,
                                    } + " was checked out at '"@ + head + "'"@,
                                ),
                            ),
                        )
                    }
                },
            }
        }),
{
}

/// What a ready sandbox begins with. Without an origin there is nothing to clone. An origin must be
/// on GitHub, a pinned commit must be named in full, and a pin needs a branch. What is cloned is
/// then the repository that the origin names, with the branch and the pin that the sandbox was
/// given, a commit before a tag; a token is minted first exactly where that can be done.
pub proof fn a_ready_sandbox_begins_its_clone(sandbox: SandboxView)
    ensures
        ({
            let (after, next) = after_probe(sandbox);
            let pin = match sandbox.commit {
                Some(sha) => Some(PinView::Commit(sha)),
                None => match sandbox.tag {
                    Some(tag) => Some(PinView::Tag(tag)),
                    None => None,
                },
            };
            match sandbox.origin {
                None => {
                    &&& next == InitView::Done(Ok(()))
                    &&& sandbox.repo_cloned is None ==> after == (SandboxView {
                        repo_cloned: Some(false),
                        ..sandbox
                    })
                    &&& sandbox.repo_cloned is Some ==> after == sandbox
                },
                Some(origin) => after == sandbox && match github_repo(origin) {
                    None => next == InitView::Done(
                        Err(ErrorView::Message("clone origin is not a GitHub repository"@)),
                    ),
                    Some((owner, repo)) => {
                        let unnamed = match sandbox.branch {
                            Some(branch) => is_blank(branch),
                            None => true,
                        };
                        let partial = match sandbox.commit {
                            Some(sha) => sha.len() != 40 || exists|i: int|
                                0 <= i < 40 && {
                                    let c = #[trigger] sha[i];
                                    !('0' <= c <= '9' || 'a' <= c <= 'f' || 'A' <= c <= 'F')
                                },
                            None => false,
                        };
                        if partial {
                            next == InitView::Done(
                                Err(
                                    ErrorView::Message(
                                        "clone commit must be exactly 40 ASCII hexadecimal characters"@,
                                    ),
                                ),
                            )
                        } else if unnamed && pin is Some {
                            next == InitView::Done(
                                Err(
                                    ErrorView::Message(
                                        if sandbox.commit is Some {
                                            "pinned commit"@
                                        } else {
                                            "pinned tag"@
                                        } + " requires a repository branch"@,
                                    ),
                                ),
                            )
                        } else {
                            let job = JobView {
                                origin: "https://github.com/"@ + owner + "/"@ + repo,
                                branch: sandbox.branch,
                                token: None,
                                auth_url: None,
                            };
                            next == if sandbox.has_token_source {
                                InitView::Minting { job, wanted: pin }
                            } else {
                                match pin {
                                    None => InitView::Cloning { job, attempt: 1 },
                                    Some(pin) => InitView::Seeding { job, pin },
                                }
                            }
                        }
                    },
                },
            }
        }),
{
    if let Some(sha) = sandbox.commit {
        if sha.len() == 40 && !crate::clone_source::is_commit_name(sha) {
            let i = choose|i: int|
                0 <= i < sha.len() && !crate::clone_source::is_hex(#[trigger] sha[i]);
            assert(0 <= i < 40);
        }
    }
}

/// A sandbox that passed the probe goes on as a ready one.
pub proof fn a_passed_probe_is_followed_by_the_clone(
    sandbox: SandboxView,
    outcome: Result<ExecView, ErrorView>,
    retryable: bool,
    plan: RetryPlan,
)
    ensures
        ({
            let (after, next) = after_command(
                sandbox,
                InitView::Probing,
                outcome,
                retryable,
                plan,
            );
            match probe_verdict(outcome) {
                Ok(_) => (after, next) == after_probe(sandbox),
                Err(e) => after == sandbox && next == InitView::Done(Err(e)),
            }
        }),
{
}

/// A token that was minted is used, and the URL that carries it: for the same repository, branch
/// and pin as were waiting for it. Without a token, or a URL to carry it, there is no clone, and
/// the error says which was missing.
pub proof fn a_token_is_used_for_what_waited_for_it(
    job: JobView,
    pin: Option<PinView>,
    token: Result<Seq<char>, Seq<char>>,
    auth_url: Option<Seq<char>>,
)
    ensures
        ({
            let next = after_token(job, pin, token, auth_url);
            match token {
                Err(cause) => next == InitView::Done(
                    Err(
                        ErrorView::Context {
                            message: "Failed to get GitHub App credentials for clone"@,
                            source: Box::new(ErrorView::Outside(cause)),
                        },
                    ),
                ),
                Ok(token) => match auth_url {
                    None => next == InitView::Done(
                        Err(
                            ErrorView::Context {
                                message: "Failed to build authenticated GitHub clone URL"@,
                                source: Box::new(
                                    ErrorView::Message(
                                        "the clone origin cannot carry credentials"@,
                                    ),
                                ),
                            },
                        ),
                    ),
                    Some(url) => {
                        let used = JobView {
                            origin: job.origin,
                            branch: job.branch,
                            token: Some(token),
                            auth_url: Some(url),
                        };
                        next == match pin {
                            None => InitView::Cloning { job: used, attempt: 1 },
                            Some(pin) => InitView::Seeding { job: used, pin },
                        }
                    },
                },
            }
        }),
{
}

/// A start is given up with the error of the step that failed, and goes on otherwise: with a resume
/// where the sandbox is stopped, with the probe where it is not, and after a resume.
pub proof fn a_start_takes_its_course(
    found: Result<Option<crate::aca::client::SandboxResource>, Error>,
    reply: Result<(), Error>,
    outcome: Result<ExecView, ErrorView>,
)
    ensures
        match found {
            Err(e) => after_look(found) == StartView::Done(Err(e@)),
            Ok(Some(resource)) => after_look(found) == if resource.state
                == crate::aca::client::SandboxState::Stopped {
                StartView::Resuming
            } else {
                StartView::Probing
            },
            Ok(None) => after_look(found) == StartView::Probing,
        },
        match reply {
            Err(e) => after_start_resume(reply) == StartView::Done(Err(e@)),
            Ok(_) => after_start_resume(reply) == StartView::Probing,
        },
        after_start_probe(outcome) == StartView::Done(probe_verdict(outcome)),
{
}

/// The token goes into the origin under GitHub's own name for it.
pub proof fn tokens_go_under_the_name_github_expects(origin: Seq<char>, token: Seq<char>)
    ensures
        crate::aca::initialize::authenticated(origin, token)
            == crate::outside::url_with_credentials(origin, "x-access-token"@, token),
{
}

} // verus!
