//! What the models of values show: each part of a value, in its place.

use vstd::prelude::*;

use crate::aca::command::{envs, EnvVar};
use crate::aca::git::{GitRunInfo, GitSetup, SetupView};
use crate::aca::initialize::{outcome_view, CloneJob, InitView, Initializing};
use crate::aca::sandbox::AcaSandbox;
use crate::aca::start::{StartView, Starting};
use crate::aca::{AcaConfig, AcaEgressPolicy};
use crate::clone_source::{opt_pin, opt_str, PinView, PinnedRevision};
use crate::error::{Error, ErrorView};
use crate::exec::ExecResult;
use crate::provider::SandboxInfo;
use crate::sandbox_spec::RunSandboxInstance;
use crate::text::{opt_text, texts};

verus! {

/// A text that may be absent is shown exactly where it is there; a list of texts is shown text by
/// text.
pub proof fn texts_show_their_characters(a: Option<String>, b: Option<&str>, list: Seq<String>)
    ensures
        match a {
            Some(s) => opt_text(a) == Some(s@),
            None => opt_text(a) is None,
        },
        match b {
            Some(s) => opt_str(b) == Some(s@),
            None => opt_str(b) is None,
        },
        texts(list).len() == list.len(),
        forall|i: int| 0 <= i < list.len() ==> #[trigger] texts(list)[i] == list[i]@,
{
}

/// A configuration shows each of its parts.
pub proof fn configurations_show_their_parts(config: AcaConfig, policy: AcaEgressPolicy)
    ensures
        config@.region == config.region@,
        config@.resource_group == config.resource_group@,
        config@.sandbox_group == config.sandbox_group@,
        config@.disk == config.disk@,
        config@.cpu == opt_text(config.cpu),
        config@.memory == opt_text(config.memory),
        config@.working_dir == config.working_dir@,
        config@.egress == config.egress@,
        config@.region_override == config.region_override,
        policy@.default_action == policy.default_action@,
        policy@.rules == texts(policy.rules@),
        policy@.traffic_inspection == policy.traffic_inspection@,
{
}

/// A sandbox shows each of its parts.
pub proof fn sandboxes_show_their_parts(sandbox: AcaSandbox)
    ensures
        sandbox@.client == sandbox.client,
        sandbox@.id == sandbox.sandbox_id@,
        sandbox@.config == sandbox.config@,
        sandbox@.origin == opt_text(sandbox.clone_origin_url),
        sandbox@.branch == opt_text(sandbox.clone_branch),
        sandbox@.tag == opt_text(sandbox.clone_tag),
        sandbox@.commit == opt_text(sandbox.clone_commit_sha),
        sandbox@.has_token_source == sandbox.has_token_source,
        sandbox@.embedded_token == opt_text(sandbox.embedded_token),
        sandbox@.repo_cloned == sandbox.repo_cloned,
        sandbox@.rg_available == sandbox.rg_available,
        sandbox@.cloned() <==> sandbox.repo_cloned == Some(true),
{
}

/// The outcome of a command shows each of its parts, and an error that stopped it.
pub proof fn outcomes_show_their_parts(result: ExecResult, outcome: Result<ExecResult, Error>)
    ensures
        result@.stdout == result.stdout@,
        result@.stderr == result.stderr@,
        result@.exit_code == result.exit_code,
        result@.termination == result.termination,
        result@.duration_ms == result.duration_ms,
        match outcome {
            Ok(r) => outcome_view(outcome) == Ok::<crate::exec::ExecView, ErrorView>(r@),
            Err(e) => outcome_view(outcome) == Err::<crate::exec::ExecView, ErrorView>(e@),
        },
{
}

/// An error is shown as what it is, with its causes.
pub proof fn errors_show_their_causes(error: Error)
    ensures
        match error {
            Error::Message(message) => error@ == ErrorView::Message(message@),
            Error::Context { message, source } => error@ == (ErrorView::Context {
                message: message@,
                source: Box::new((*source)@),
            }),
            Error::Api(e) => error@ == ErrorView::Api(e@),
            Error::Outside(text) => error@ == ErrorView::Outside(text@),
            Error::Exec { label, result } => error@ == (ErrorView::Exec {
                label: label@,
                result: result@,
            }),
        },
{
    reveal_with_fuel(crate::error::error_view, 2);
}

/// An environment shows its variables, each with its name and its value.
pub proof fn environments_show_their_variables(env: Seq<EnvVar>)
    ensures
        envs(env).len() == env.len(),
        forall|i: int|
            0 <= i < env.len() ==> (#[trigger] envs(env)[i]).key == env[i].key@ && envs(env)[i].value
                == env[i].value@,
{
}

/// A pin shows what it pins.
pub proof fn pins_show_what_they_pin(pin: PinnedRevision, wanted: Option<PinnedRevision>)
    ensures
        pin matches PinnedRevision::Tag(tag) ==> pin@ == PinView::Tag(tag@),
        pin matches PinnedRevision::Commit(sha) ==> pin@ == PinView::Commit(sha@),
        match wanted {
            Some(p) => opt_pin(wanted) == Some(p@),
            None => opt_pin(wanted) is None,
        },
{
}

/// An initialization shows where it is, and what it is about.
pub proof fn initializations_show_where_they_are(job: CloneJob, state: Initializing)
    ensures
        job@.origin == job.origin_url@,
        job@.branch == opt_text(job.branch),
        job@.token == opt_text(job.token),
        job@.auth_url == opt_text(job.auth_url),
        match state {
            Initializing::Probing => state@ == InitView::Probing,
            Initializing::Minting { job: j, wanted } => state@ == (InitView::Minting {
                job: j@,
                wanted: opt_pin(wanted),
            }),
            Initializing::Cloning { job: j, attempt } => state@ == (InitView::Cloning {
                job: j@,
                attempt,
            }),
            Initializing::Seeding { job: j, pin } => state@ == (InitView::Seeding {
                job: j@,
                pin: pin@,
            }),
            Initializing::Fetching { job: j, pin, branch, attempt } => state@ == (InitView::Fetching {
                job: j@,
                pin: pin@,
                branch: branch@,
                attempt,
            }),
            Initializing::CheckingOut { job: j, pin, branch } => state@ == (InitView::CheckingOut {
                job: j@,
                pin: pin@,
                branch: branch@,
            }),
            Initializing::Done(Ok(_)) => state@ == InitView::Done(Ok(())),
            Initializing::Done(Err(e)) => state@ == InitView::Done(Err(e@)),
        },
{
}

/// A setup and a start show where they are.
pub proof fn setups_and_starts_show_where_they_are(
    info: GitRunInfo,
    setup: GitSetup,
    start: Starting,
)
    ensures
        info@.base_sha == info.base_sha@,
        info@.run_branch == info.run_branch@,
        info@.base_branch == opt_text(info.base_branch),
        match setup {
            GitSetup::ReadingBranch { run_branch } => setup@ == (SetupView::ReadingBranch {
                run_branch: run_branch@,
            }),
            GitSetup::ReadingBase { run_branch, base_branch } => setup@ == (SetupView::ReadingBase {
                run_branch: run_branch@,
                base_branch: opt_text(base_branch),
            }),
            GitSetup::Branching { info: i } => setup@ == (SetupView::Branching { info: i@ }),
            GitSetup::Done(Ok(i)) => setup@ == SetupView::Done(Ok(i@)),
            GitSetup::Done(Err(e)) => setup@ == SetupView::Done(Err(e@)),
        },
        match start {
            Starting::Looking => start@ == StartView::Looking,
            Starting::Resuming => start@ == StartView::Resuming,
            Starting::Probing => start@ == StartView::Probing,
            Starting::Done(Ok(_)) => start@ == StartView::Done(Ok(())),
            Starting::Done(Err(e)) => start@ == StartView::Done(Err(e@)),
        },
{
}

/// What is told of a sandbox shows each of its parts.
pub proof fn infos_show_their_parts(info: SandboxInfo)
    ensures
        info@.provider == info.provider,
        info@.id == info.id@,
        info@.display_name == opt_text(info.display_name),
        info@.state == info.state,
        info@.native_state == opt_text(info.native_state),
        info@.image == opt_text(info.image),
        info@.snapshot == opt_text(info.snapshot),
        info@.region == opt_text(info.region),
        info@.web_url == opt_text(info.web_url),
        info@.working_directory == opt_text(info.working_directory),
        info@.millicpu == opt_text(info.resources.millicpu),
        info@.memory_bytes == info.resources.memory_bytes,
        info@.disk_bytes == info.resources.disk_bytes,
        info@.network == info.network,
        info@.labels == info.labels@,
        info@.created_at == info.created_at,
        info@.last_activity_at == info.last_activity_at,
{
}

/// A record shows each of its parts.
pub proof fn records_show_their_parts(record: RunSandboxInstance)
    ensures
        record@.provider == record.provider,
        record@.image == opt_text(record.image),
        record@.snapshot == opt_text(record.snapshot),
        record@.id == record.runtime.id@,
        record@.working_directory == record.runtime.working_directory@,
        record@.repo_cloned == record.runtime.repo_cloned,
        record@.clone_origin_url == opt_text(record.runtime.clone_origin_url),
        record@.clone_branch == opt_text(record.runtime.clone_branch),
        record@.workspace_root == opt_text(record.runtime.workspace_root),
        record@.repos_root == opt_text(record.runtime.repos_root),
        record@.primary_repo_path == opt_text(record.runtime.primary_repo_path),
        record@.primary_repo_link == opt_text(record.runtime.primary_repo_link),
{
}

} // verus!
