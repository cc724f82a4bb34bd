//! The run's branch, and pushing it.

use vstd::prelude::*;

use crate::aca::git::{
    after_git, all_failed, bare_attempt, branching_names_one_branch_and_one_commit, printed_branch,
    push_command, push_names_one_ref, run_branch_name, PushAttempt, Pushing, RunInfoView, SetupView,
};
use crate::clone_source::git_words;
use crate::error::ErrorView;
use crate::exec::{CommandTermination, ExecView};
use crate::shell::{shell_words, spelled_words_read_back, two_spelled_words, word_joins_the_line};
use crate::text::trimmed;

verus! {

/// The words of the commands that a setup asks for: the branch and the commit that are checked out
/// are read first, and then the run's branch is put on that commit.
pub proof fn setups_ask_for_these_commands(
    run_branch: Seq<char>,
    base_branch: Option<Seq<char>>,
    info: RunInfoView,
    done: Result<RunInfoView, ErrorView>,
)
    ensures
        (SetupView::ReadingBranch { run_branch }).command() matches Some(branch) && shell_words(
            branch,
        ) == Some(seq!["git"@, "rev-parse"@, "--abbrev-ref"@, "HEAD"@]),
        (SetupView::ReadingBase { run_branch, base_branch }).command() matches Some(base)
            && shell_words(base) == Some(seq!["git"@, "rev-parse"@, "HEAD"@]),
        (SetupView::Branching { info }).command() matches Some(branching) && shell_words(branching)
            == Some(seq!["git"@, "checkout"@, "-B"@, info.run_branch, info.base_sha]),
        (SetupView::Done(done)).command() is None,
{
    branching_names_one_branch_and_one_commit(info);
    reveal_strlit(" ");
    reveal_strlit("git");
    reveal_strlit("rev-parse");
    reveal_strlit("--abbrev-ref");
    reveal_strlit("HEAD");
    reveal_strlit("git rev-parse HEAD");
    reveal_strlit("git rev-parse --abbrev-ref HEAD");
    two_spelled_words("git"@, "git"@, "rev-parse"@, "rev-parse"@);
    let two = seq!["git"@, "rev-parse"@];
    let text = "git"@ + " "@ + "rev-parse"@;
    word_joins_the_line(two, two, text, "HEAD"@, " "@ + "HEAD"@, "HEAD"@);
    spelled_words_read_back(two + seq!["HEAD"@], two + seq!["HEAD"@]);
    assert(text + (" "@ + "HEAD"@) =~= "git rev-parse HEAD"@);
    assert(two + seq!["HEAD"@] =~= seq!["git"@, "rev-parse"@, "HEAD"@]);
    let option = " "@ + "--abbrev-ref"@;
    word_joins_the_line(two, two, text, "--abbrev-ref"@, option, "--abbrev-ref"@);
    let three = two + seq!["--abbrev-ref"@];
    word_joins_the_line(three, three, text + option, "HEAD"@, " "@ + "HEAD"@, "HEAD"@);
    spelled_words_read_back(three + seq!["HEAD"@], three + seq!["HEAD"@]);
    assert(text + option + (" "@ + "HEAD"@) =~= "git rev-parse --abbrev-ref HEAD"@);
    assert(three + seq!["HEAD"@] =~= seq!["git"@, "rev-parse"@, "--abbrev-ref"@, "HEAD"@]);
}

/// The branch that a run starts from is the one that was printed, without the white space around
/// it; none where the command failed or printed nothing, or printed that no branch is checked out.
pub proof fn the_printed_branch_is_the_base(result: ExecView)
    ensures
        ({
            let name = trimmed(result.stdout);
            let read = result.termination == CommandTermination::Exited && result.exit_code == Some(
                0i32,
            ) && name.len() > 0 && name != "HEAD"@;
            &&& read ==> printed_branch(result) == Some(name)
            &&& !read ==> printed_branch(result) is None
        }),
{
}

/// A setup keeps the run's branch from its first step to its last, and takes what each command
/// printed: the branch it starts from, and the commit that its own branch is put on. A command
/// that could not be run, and one that failed where its result is needed, ends it with that.
pub proof fn a_setup_takes_its_course(
    run_branch: Seq<char>,
    base_branch: Option<Seq<char>>,
    info: RunInfoView,
    result: ExecView,
    cause: ErrorView,
    state: SetupView,
)
    ensures
        after_git(state, Err(cause)) == SetupView::Done(
            Err(
                ErrorView::Context {
                    message: "git setup command failed"@,
                    source: Box::new(cause),
                },
            ),
        ),
        after_git(SetupView::ReadingBranch { run_branch }, Ok(result)) == (SetupView::ReadingBase {
            run_branch,
            base_branch: printed_branch(result),
        }),
        ({
            let succeeded = result.termination == CommandTermination::Exited && result.exit_code
                == Some(0i32);
            let sha = trimmed(result.stdout);
            &&& after_git(SetupView::ReadingBase { run_branch, base_branch }, Ok(result)) == if succeeded
                && sha.len() > 0 {
                SetupView::Branching {
                    info: RunInfoView { base_sha: sha, run_branch, base_branch },
                }
            } else {
                SetupView::Done(Err(ErrorView::Exec { label: "git rev-parse HEAD"@, result }))
            }
            &&& after_git(SetupView::Branching { info }, Ok(result)) == if succeeded {
                SetupView::Done(Ok(info))
            } else {
                SetupView::Done(Err(ErrorView::Exec { label: "git checkout"@, result }))
            }
        }),
{
}

/// Every run has a branch of its own: its name is the run's id below one common start, and two runs
/// never share it.
pub proof fn runs_have_branches_of_their_own(a: Seq<char>, b: Seq<char>)
    ensures
        run_branch_name(a) == "fabro/run/"@ + a,
        run_branch_name(a) == run_branch_name(b) ==> a == b,
{
    let start = "fabro/run/"@;
    assert((start + a).skip(start.len() as int) =~= a);
    assert((start + b).skip(start.len() as int) =~= b);
}

/// An attempt to push that used what the remote carries has neither a token nor anything done about
/// credentials; the attempts of a push that goes on are such attempts, and all of them failed.
pub proof fn attempts_use_what_the_remote_carries(
    attempt: PushAttempt,
    success: bool,
    attempts: Seq<PushAttempt>,
    push: Pushing,
)
    ensures
        bare_attempt(attempt, success) <==> attempt.success == success && attempt.token is None
            && attempt.credential_action is None,
        all_failed(attempts) <==> forall|i: int|
            0 <= i < attempts.len() ==> !(#[trigger] attempts[i]).success && attempts[i].token is None
                && attempts[i].credential_action is None,
        push.wf() <==> all_failed(push.failed@),
{
}

/// A push sends the one ref that was asked for to `origin`.
pub proof fn the_ref_asked_for_is_pushed(refspec: Seq<char>)
    ensures
        shell_words(push_command(refspec)) == Some(
            seq![
                "git"@,
                "-c"@,
                "maintenance.auto=0"@,
                "-c"@,
                "gc.auto=0"@,
                "push"@,
                "origin"@,
                refspec,
            ],
        ),
{
    push_names_one_ref(refspec);
    assert(git_words() + seq!["push"@, "origin"@, refspec] =~= seq![
        "git"@,
        "-c"@,
        "maintenance.auto=0"@,
        "-c"@,
        "gc.auto=0"@,
        "push"@,
        "origin"@,
        refspec,
    ]);
}

} // verus!
