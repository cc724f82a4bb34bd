//! What a run's sandbox is to be, and what is recorded of it.

use vstd::prelude::*;

use crate::aca::sandbox::{borrowed, AcaSandbox, GitHubCredentials, SandboxView, token_source};
use crate::aca::AcaConfig;
use crate::clone_source::{
    check_selectors, clean_clone_origin_for_record, github_repo, github_repo_layout, opt_str,
    recorded_origin, repo_cloned_for_record, repo_link, repo_path, selector_error, GitHubRepoLayout,
};
use crate::error::{in_context, Error, ErrorView};
use crate::outside::parsed_url;
use crate::provider::aca::{scope, AcaAccount, AcaSandboxProvider, SandboxCreateSpec};
use crate::provider::SandboxInfo;
use crate::settings::{
    DaytonaConfig, DockerSandboxOptions, SandboxProviderKind, REPOS_ROOT, WORKING_DIRECTORY,
};
use crate::text::{clone_text, opt_text};

verus! {

/// What a run's sandbox is to be.
#[derive(Debug)]
pub enum SandboxSpec {
    Local { working_directory: String },
    Docker {
        config: DockerSandboxOptions,
        github_app: Option<GitHubCredentials>,
        run_id: Option<String>,
        clone_origin_url: Option<String>,
        clone_branch: Option<String>,
        clone_tag: Option<String>,
        clone_commit_sha: Option<String>,
    },
    Daytona {
        config: Box<DaytonaConfig>,
        github_app: Option<GitHubCredentials>,
        run_id: Option<String>,
        clone_origin_url: Option<String>,
        clone_branch: Option<String>,
        clone_tag: Option<String>,
        clone_commit_sha: Option<String>,
        api_key: Option<String>,
    },
    /// An exact revision cannot be asked for here.
    Aca {
        config: Box<AcaConfig>,
        github_app: Option<GitHubCredentials>,
        run_id: Option<String>,
        clone_origin_url: Option<String>,
        clone_branch: Option<String>,
    },
}

// ---------------------------------------------------------------------------
// The record
// ---------------------------------------------------------------------------

/// What a sandbox tells of itself.
#[derive(Debug)]
pub struct SandboxFacts {
    pub working_directory: String,
    /// What it is known by; empty where it is known by nothing.
    pub sandbox_info: String,
    pub snapshot_info: Option<String>,
}

/// The part of a record that a run works with.
#[derive(Debug)]
pub struct RunSandboxRuntime {
    pub id: String,
    pub working_directory: String,
    pub repo_cloned: Option<bool>,
    pub clone_origin_url: Option<String>,
    pub clone_branch: Option<String>,
    pub workspace_root: Option<String>,
    pub repos_root: Option<String>,
    pub primary_repo_path: Option<String>,
    pub primary_repo_link: Option<String>,
}

/// The record of a run's sandbox.
#[derive(Debug)]
pub struct RunSandboxInstance {
    pub provider: SandboxProviderKind,
    pub image: Option<String>,
    pub snapshot: Option<String>,
    pub runtime: RunSandboxRuntime,
}

/// The model of a [`RunSandboxInstance`].
#[verifier::ext_equal]
pub ghost struct InstanceView {
    pub provider: SandboxProviderKind,
    pub image: Option<Seq<char>>,
    pub snapshot: Option<Seq<char>>,
    pub id: Seq<char>,
    pub working_directory: Seq<char>,
    pub repo_cloned: Option<bool>,
    pub clone_origin_url: Option<Seq<char>>,
    pub clone_branch: Option<Seq<char>>,
    pub workspace_root: Option<Seq<char>>,
    pub repos_root: Option<Seq<char>>,
    pub primary_repo_path: Option<Seq<char>>,
    pub primary_repo_link: Option<Seq<char>>,
}

impl View for RunSandboxInstance {
    type V = InstanceView;

    open spec fn view(&self) -> InstanceView {
        InstanceView {
            provider: self.provider,
            image: opt_text(self.image),
            snapshot: opt_text(self.snapshot),
            id: self.runtime.id@,
            working_directory: self.runtime.working_directory@,
            repo_cloned: self.runtime.repo_cloned,
            clone_origin_url: opt_text(self.runtime.clone_origin_url),
            clone_branch: opt_text(self.runtime.clone_branch),
            workspace_root: opt_text(self.runtime.workspace_root),
            repos_root: opt_text(self.runtime.repos_root),
            primary_repo_path: opt_text(self.runtime.primary_repo_path),
            primary_repo_link: opt_text(self.runtime.primary_repo_link),
        }
    }
}

/// What a sandbox is recorded under: what it is known by, and the run's own id where it is
/// known by nothing.
pub open spec fn record_id(sandbox: SandboxFacts, run_id: Seq<char>) -> Seq<char> {
    if sandbox.sandbox_info@.len() == 0 {
        "local:"@ + run_id
    } else {
        sandbox.sandbox_info@
    }
}

/// The owner and repository that a record's layout is for: only of a repository that was cloned
/// from GitHub.
pub open spec fn laid_out(repo_cloned: Option<bool>, origin: Option<Seq<char>>) -> Option<
    (Seq<char>, Seq<char>),
> {
    match origin {
        Some(o) => if repo_cloned == Some(true) {
            github_repo(o)
        } else {
            None
        },
        None => None,
    }
}

/// The record of a sandbox that repositories are cloned into.
pub open spec fn clone_record(
    provider: SandboxProviderKind,
    image: Option<Seq<char>>,
    snapshot: Option<Seq<char>>,
    skip_clone: bool,
    origin: Option<Seq<char>>,
    branch: Option<Seq<char>>,
    sandbox: SandboxFacts,
    run_id: Seq<char>,
) -> InstanceView {
    let repo_cloned = Some(!skip_clone && origin is Some);
    let layout = laid_out(repo_cloned, origin);
    InstanceView {
        provider,
        image,
        snapshot,
        id: record_id(sandbox, run_id),
        working_directory: sandbox.working_directory@,
        repo_cloned,
        clone_origin_url: match origin {
            Some(o) => Some(recorded_origin(o)),
            None => None,
        },
        clone_branch: branch,
        workspace_root: Some(WORKING_DIRECTORY@),
        repos_root: Some(REPOS_ROOT@),
        primary_repo_path: match layout {
            Some((owner, repo)) => Some(repo_path(REPOS_ROOT@, owner, repo)),
            None => None,
        },
        primary_repo_link: match layout {
            Some((_, repo)) => Some(repo_link(WORKING_DIRECTORY@, repo)),
            None => None,
        },
    }
}

/// The record of any other sandbox.
pub open spec fn plain_record(
    provider: SandboxProviderKind,
    sandbox: SandboxFacts,
    run_id: Seq<char>,
) -> InstanceView {
    InstanceView {
        provider,
        image: None,
        snapshot: None,
        id: record_id(sandbox, run_id),
        working_directory: sandbox.working_directory@,
        repo_cloned: None,
        clone_origin_url: None,
        clone_branch: None,
        workspace_root: None,
        repos_root: None,
        primary_repo_path: None,
        primary_repo_link: None,
    }
}

/// The text, where it is not empty.
pub open spec fn if_any(text: Seq<char>) -> Option<Seq<char>> {
    if text.len() > 0 {
        Some(text)
    } else {
        None
    }
}

/// The record of the sandbox of a spec.
pub open spec fn record_of(spec: SandboxSpec, sandbox: SandboxFacts, run_id: Seq<char>) -> InstanceView {
    match spec {
        SandboxSpec::Docker { config, clone_origin_url, clone_branch, .. } => clone_record(
            SandboxProviderKind::Docker,
            if_any(config.image@),
            None,
            config.skip_clone,
            opt_text(clone_origin_url),
            opt_text(clone_branch),
            sandbox,
            run_id,
        ),
        SandboxSpec::Daytona { config, clone_origin_url, clone_branch, .. } => clone_record(
            SandboxProviderKind::Daytona,
            None,
            opt_text(sandbox.snapshot_info),
            config.skip_clone,
            opt_text(clone_origin_url),
            opt_text(clone_branch),
            sandbox,
            run_id,
        ),
        _ => plain_record(provider_of(spec), sandbox, run_id),
    }
}

/// The provider of a spec.
pub open spec fn provider_of(spec: SandboxSpec) -> SandboxProviderKind {
    match spec {
        SandboxSpec::Local { .. } => SandboxProviderKind::Local,
        SandboxSpec::Docker { .. } => SandboxProviderKind::Docker,
        SandboxSpec::Daytona { .. } => SandboxProviderKind::Daytona,
        SandboxSpec::Aca { .. } => SandboxProviderKind::Aca,
    }
}

/// The layout to record: only of a repository that was cloned from GitHub.
pub fn runtime_layout_metadata(
    repo_cloned: Option<bool>,
    clone_origin_url: Option<&str>,
    workspace_root: &str,
    repos_root: &str,
) -> (r: Option<GitHubRepoLayout>)
    ensures
        match laid_out(repo_cloned, opt_str(clone_origin_url)) {
            Some((owner, repo)) => {
                &&& r is Some
                &&& r->Some_0.primary_repo_path@ == repo_path(repos_root@, owner, repo)
                &&& r->Some_0.primary_repo_link@ == repo_link(workspace_root@, repo)
            },
            None => r is None,
        },
{
    let cloned = match repo_cloned {
        Some(cloned) => cloned,
        None => false,
    };
    if !cloned {
        return None;
    }
    match clone_origin_url {
        Some(origin) => match github_repo_layout(origin, workspace_root, repos_root) {
            Ok(layout) => Some(layout),
            Err(_) => None,
        },
        None => None,
    }
}

fn runtime_of_clone(
    skip_clone: bool,
    origin: &Option<String>,
    branch: &Option<String>,
    id: String,
    working_directory: String,
) -> (r: RunSandboxRuntime)
    ensures
        ({
            let repo_cloned = Some(!skip_clone && *origin is Some);
            let layout = laid_out(repo_cloned, opt_text(*origin));
            &&& r.id == id
            &&& r.working_directory == working_directory
            &&& r.repo_cloned == repo_cloned
            &&& opt_text(r.clone_origin_url) == match opt_text(*origin) {
                Some(o) => Some(recorded_origin(o)),
                None => None,
            }
            &&& r.clone_branch == *branch
            &&& opt_text(r.workspace_root) == Some(WORKING_DIRECTORY@)
            &&& opt_text(r.repos_root) == Some(REPOS_ROOT@)
            &&& opt_text(r.primary_repo_path) == match layout {
                Some((owner, repo)) => Some(repo_path(REPOS_ROOT@, owner, repo)),
                None => None,
            }
            &&& opt_text(r.primary_repo_link) == match layout {
                Some((_, repo)) => Some(repo_link(WORKING_DIRECTORY@, repo)),
                None => None,
            }
        }),
{
    let repo_cloned = repo_cloned_for_record(skip_clone, borrowed(origin));
    let layout = runtime_layout_metadata(
        repo_cloned,
        borrowed(origin),
        WORKING_DIRECTORY,
        REPOS_ROOT,
    );
    let (primary_repo_path, primary_repo_link) = match layout {
        Some(layout) => (Some(layout.primary_repo_path), Some(layout.primary_repo_link)),
        None => (None, None),
    };
    RunSandboxRuntime {
        id,
        working_directory,
        repo_cloned,
        clone_origin_url: clean_clone_origin_for_record(borrowed(origin)),
        clone_branch: clone_text(branch),
        workspace_root: Some(WORKING_DIRECTORY.to_owned()),
        repos_root: Some(REPOS_ROOT.to_owned()),
        primary_repo_path,
        primary_repo_link,
    }
}

// ---------------------------------------------------------------------------
// Building
// ---------------------------------------------------------------------------

/// How a sandbox is built.
pub enum BuildPlan {
    /// A local sandbox, in the spec's directory.
    Local,
    /// A Docker sandbox, of the spec's options.
    Docker,
    /// A Daytona sandbox, of the spec's configuration.
    Daytona,
    /// An ACA sandbox, which is created first: a handle needs a sandbox that exists.
    Aca { provider: AcaSandboxProvider, create: SandboxCreateSpec },
}

impl SandboxSpec {
    /// The provider of the sandbox.
    pub fn provider(&self) -> (r: SandboxProviderKind)
        ensures
            r == provider_of(*self),
    {
        match self {
            SandboxSpec::Local { .. } => SandboxProviderKind::Local,
            SandboxSpec::Docker { .. } => SandboxProviderKind::Docker,
            SandboxSpec::Daytona { .. } => SandboxProviderKind::Daytona,
            SandboxSpec::Aca { .. } => SandboxProviderKind::Aca,
        }
    }

    /// The provider's name.
    pub fn provider_name(&self) -> (r: &'static str)
        ensures
            r@ == match provider_of(*self) {
                SandboxProviderKind::Local => "local"@,
                SandboxProviderKind::Docker => "docker"@,
                SandboxProviderKind::Daytona => "daytona"@,
                SandboxProviderKind::Aca => "aca"@,
            },
    {
        match self.provider() {
            SandboxProviderKind::Local => "local",
            SandboxProviderKind::Docker => "docker",
            SandboxProviderKind::Daytona => "daytona",
            SandboxProviderKind::Aca => "aca",
        }
    }

    /// The record of the sandbox of this spec.
    pub fn to_run_sandbox_instance(&self, sandbox: &SandboxFacts, run_id: &str) -> (r:
        RunSandboxInstance)
        ensures
            r@ == record_of(*self, *sandbox, run_id@),
    {
        let working_directory = sandbox.working_directory.clone();
        let id = if sandbox.sandbox_info.as_str().is_empty() {
            let mut id = "local:".to_owned();
            id.append(run_id);
            id
        } else {
            sandbox.sandbox_info.clone()
        };
        match self {
            SandboxSpec::Docker { config, clone_origin_url, clone_branch, .. } => RunSandboxInstance {
                provider: SandboxProviderKind::Docker,
                image: if config.image.as_str().is_empty() {
                    None
                } else {
                    Some(config.image.clone())
                },
                snapshot: None,
                runtime: runtime_of_clone(
                    config.skip_clone,
                    clone_origin_url,
                    clone_branch,
                    id,
                    working_directory,
                ),
            },
            SandboxSpec::Daytona { config, clone_origin_url, clone_branch, .. } => RunSandboxInstance {
                provider: SandboxProviderKind::Daytona,
                image: None,
                snapshot: clone_text(&sandbox.snapshot_info),
                runtime: runtime_of_clone(
                    config.skip_clone,
                    clone_origin_url,
                    clone_branch,
                    id,
                    working_directory,
                ),
            },
            _ => RunSandboxInstance {
                provider: self.provider(),
                image: None,
                snapshot: None,
                runtime: RunSandboxRuntime {
                    id,
                    working_directory,
                    repo_cloned: None,
                    clone_origin_url: None,
                    clone_branch: None,
                    workspace_root: None,
                    repos_root: None,
                    primary_repo_path: None,
                    primary_repo_link: None,
                },
            },
        }
    }

    /// How the sandbox is built. An exact revision that a Docker sandbox could not check out is
    /// refused before anything is connected to; an ACA sandbox needs an account.
    pub fn build(&self, account: Option<AcaAccount>) -> (r: Result<BuildPlan, Error>)
        ensures
            match *self {
                SandboxSpec::Local { .. } => r == Ok::<BuildPlan, Error>(BuildPlan::Local),
                SandboxSpec::Docker { clone_branch, clone_tag, clone_commit_sha, .. } =>
                    match selector_error(
                    opt_text(clone_branch),
                    opt_text(clone_tag),
                    opt_text(clone_commit_sha),
                ) {
                    Some(e) => r is Err && r->Err_0@ == in_context(
                        "Failed to create Docker sandbox"@,
                        e,
                    ),
                    None => r == Ok::<BuildPlan, Error>(BuildPlan::Docker),
                },
                SandboxSpec::Daytona { .. } => r == Ok::<BuildPlan, Error>(BuildPlan::Daytona),
                SandboxSpec::Aca { config, github_app, run_id, clone_origin_url, clone_branch } =>
                    match account {
                    None => r is Err && r->Err_0@ == ErrorView::Message(
                        "ACA sandbox provider requires ACA_SUBSCRIPTION_ID, ACA_RESOURCE_GROUP, ACA_SANDBOX_GROUP, and ACA_REGION to be set"@,
                    ),
                    Some(account) => r matches Ok(BuildPlan::Aca { provider, create }) && {
                        &&& provider.account == account
                        &&& provider.base_override is None
                        &&& create matches SandboxCreateSpec::Aca {
                            config: c,
                            github_app: g,
                            run_id: i,
                            clone_origin_url: o,
                            clone_branch: b,
                        }
                        &&& c@ == config@
                        &&& g == github_app
                        &&& i == run_id
                        &&& o == clone_origin_url
                        &&& b == clone_branch
                    },
                },
            },
    {
        match self {
            SandboxSpec::Local { .. } => Ok(BuildPlan::Local),
            SandboxSpec::Docker { clone_branch, clone_tag, clone_commit_sha, .. } =>
                match check_selectors(
                borrowed(clone_branch),
                borrowed(clone_tag),
                borrowed(clone_commit_sha),
            ) {
                Ok(()) => Ok(BuildPlan::Docker),
                Err(e) => Err(Error::context("Failed to create Docker sandbox", e)),
            },
            SandboxSpec::Daytona { .. } => Ok(BuildPlan::Daytona),
            SandboxSpec::Aca { config, github_app, run_id, clone_origin_url, clone_branch } =>
                match account {
                None => Err(
                    Error::message(
                        "ACA sandbox provider requires ACA_SUBSCRIPTION_ID, ACA_RESOURCE_GROUP, ACA_SANDBOX_GROUP, and ACA_REGION to be set",
                    ),
                ),
                Some(account) => {
                    let config_copy: AcaConfig = (**config).clone();
                    let github_app = match github_app {
                        Some(credentials) => Some(credentials.clone()),
                        None => None,
                    };
                    Ok(
                        BuildPlan::Aca {
                            provider: AcaSandboxProvider::new(account),
                            create: SandboxCreateSpec::Aca {
                                config: Box::new(config_copy),
                                github_app,
                                run_id: clone_text(run_id),
                                clone_origin_url: clone_text(clone_origin_url),
                                clone_branch: clone_text(clone_branch),
                            },
                        },
                    )
                },
            },
        }
    }

    /// The error for a Docker sandbox that could not be built.
    pub fn docker_failure(cause: String) -> (r: Error)
        ensures
            r@ == in_context("Failed to create Docker sandbox"@, ErrorView::Outside(cause@)),
    {
        Error::outside("Failed to create Docker sandbox", cause)
    }

    /// The handle to an ACA sandbox that was created: its client works in the scope that the
    /// sandbox was created in.
    pub fn built_aca(&self, provider: &AcaSandboxProvider, info: SandboxInfo) -> (r: Result<
        AcaSandbox,
        Error,
    >)
        requires
            *self is Aca,
        ensures
            *self matches SandboxSpec::Aca {
                config,
                github_app,
                clone_origin_url,
                clone_branch,
                ..
            } ==> {
                let (region, resource_group, sandbox_group) = scope(config@, provider.account);
                match parsed_url(provider.base_for(region)) {
                    Err(cause) => r is Err && r->Err_0@ == provider.base_error(region, cause),
                    Ok(_) => match token_source(github_app is Some, opt_text(clone_origin_url)) {
                        Err(e) => r is Err && r->Err_0@ == e,
                        Ok(has_source) => r is Ok && {
                            let sandbox = r->Ok_0@;
                            &&& provider.serves(
                                sandbox.client,
                                region,
                                resource_group,
                                sandbox_group,
                            )
                            &&& sandbox == (SandboxView {
                                client: sandbox.client,
                                id: info.id@,
                                config: config@,
                                origin: opt_text(clone_origin_url),
                                branch: opt_text(clone_branch),
                                tag: None,
                                commit: None,
                                has_token_source: has_source,
                                embedded_token: None,
                                repo_cloned: None,
                                rg_available: None,
                            })
                        },
                    },
                }
            },
    {
        match self {
            SandboxSpec::Aca { config, github_app, clone_origin_url, clone_branch, .. } => {
                let config_copy: AcaConfig = (**config).clone();
                let client = match provider.config_client(config) {
                    Ok(client) => client,
                    Err(e) => return Err(e),
                };
                let credentials: Option<&GitHubCredentials> = match github_app {
                    Some(credentials) => Some(credentials),
                    None => None,
                };
                AcaSandbox::new(
                    client,
                    info.id,
                    config_copy,
                    credentials,
                    clone_text(clone_origin_url),
                    clone_text(clone_branch),
                    None,
                    None,
                )
            },
            _ => Err(Error::message("not an ACA sandbox")),
        }
    }
}

// ---------------------------------------------------------------------------
// Laws
// ---------------------------------------------------------------------------

/// A layout is recorded only of a repository that was cloned, and for one that was cloned from
/// GitHub it always is: both parts of it, or neither.
pub proof fn layout_goes_with_a_clone(spec: SandboxSpec, sandbox: SandboxFacts, run_id: Seq<char>)
    ensures
        ({
            let record = record_of(spec, sandbox, run_id);
            &&& record.primary_repo_path is Some <==> record.primary_repo_link is Some
            &&& record.primary_repo_path is Some ==> record.repo_cloned == Some(true)
            &&& record.repo_cloned == Some(true) ==> record.clone_origin_url is Some
        }),
{
}

/// No record carries credentials in its origin, whatever the spec's origin carried.
pub proof fn records_carry_no_credentials(
    spec: SandboxSpec,
    sandbox: SandboxFacts,
    run_id: Seq<char>,
)
    ensures
        record_of(spec, sandbox, run_id).clone_origin_url matches Some(origin)
            ==> !crate::clone_source::authority(origin).contains('@'),
{
    match spec {
        SandboxSpec::Docker { clone_origin_url, .. } => {
            if let Some(o) = clone_origin_url {
                crate::clone_source::recorded_origin_has_no_credentials(o@);
            }
        },
        SandboxSpec::Daytona { clone_origin_url, .. } => {
            if let Some(o) = clone_origin_url {
                crate::clone_source::recorded_origin_has_no_credentials(o@);
            }
        },
        _ => {},
    }
}

/// Every record has an id.
pub proof fn every_record_has_an_id(spec: SandboxSpec, sandbox: SandboxFacts, run_id: Seq<char>)
    ensures
        record_of(spec, sandbox, run_id).id.len() > 0,
{
    reveal_strlit("local:");
}

} // verus!
