//! What is recorded of a run's sandbox.

use vstd::prelude::*;

use crate::clone_source::{github_repo, without_userinfo};
use crate::sandbox_spec::{provider_of, record_of, InstanceView, SandboxFacts, SandboxSpec};
use crate::settings::SandboxProviderKind;

verus! {

/// What every record says: what the sandbox is known by, the run where it is known by nothing, and
/// the directory that it works in.
pub proof fn records_name_their_sandbox(spec: SandboxSpec, sandbox: SandboxFacts, run_id: Seq<char>)
    ensures
        ({
            let record = record_of(spec, sandbox, run_id);
            &&& record.provider == match spec {
                SandboxSpec::Local { .. } => SandboxProviderKind::Local,
                SandboxSpec::Docker { .. } => SandboxProviderKind::Docker,
                SandboxSpec::Daytona { .. } => SandboxProviderKind::Daytona,
                SandboxSpec::Aca { .. } => SandboxProviderKind::Aca,
            }
            &&& record.provider == provider_of(spec)
            &&& sandbox.sandbox_info@.len() > 0 ==> record.id == sandbox.sandbox_info@
            &&& sandbox.sandbox_info@.len() == 0 ==> record.id == "local:"@ + run_id
            &&& record.working_directory == sandbox.working_directory@
        }),
{
}

/// What is recorded of a clone: whether there was one, the origin in its normal form where it is
/// on GitHub, the branch as it was asked for, and where the repository lies.
pub open spec fn records_the_clone(
    record: InstanceView,
    skip_clone: bool,
    origin: Option<Seq<char>>,
    branch: Option<Seq<char>>,
) -> bool {
    &&& record.repo_cloned == Some(!skip_clone && origin is Some)
    &&& record.clone_branch == branch
    &&& record.workspace_root == Some("/workspace"@)
    &&& record.repos_root == Some("/repos"@)
    &&& origin is None ==> record.clone_origin_url is None && record.primary_repo_path is None
        && record.primary_repo_link is None
    &&& origin matches Some(url) ==> match github_repo(url) {
        Some((owner, repo)) => {
            &&& record.clone_origin_url == Some("https://github.com/"@ + owner + "/"@ + repo)
            &&& !skip_clone ==> record.primary_repo_path == Some(
                "/repos"@ + "/"@ + owner + "/"@ + repo,
            ) && record.primary_repo_link == Some("/workspace"@ + "/"@ + repo)
            &&& skip_clone ==> record.primary_repo_path is None && record.primary_repo_link is None
        },
        None => {
            &&& record.clone_origin_url == Some(without_userinfo(url))
            &&& !url.contains('@') ==> record.clone_origin_url == Some(url)
            &&& record.primary_repo_path is None && record.primary_repo_link is None
        },
    }
}

/// An origin without an at sign has no user information, and is recorded as it is.
pub proof fn origins_without_user_information_stay(origin: Seq<char>)
    requires
        !origin.contains('@'),
    ensures
        without_userinfo(origin) == origin,
{
    reveal_strlit("://");
    let n = crate::text::run_before(origin, ':');
    crate::text::run_before_stops_at_the_first(origin, ':');
    if "://"@.is_prefix_of(origin.skip(n as int)) {
        let rest = origin.skip(n as int + 3);
        let k = crate::text::run_before(rest, '/');
        crate::text::run_before_stops_at_the_first(rest, '/');
        let host = rest.take(k as int);
        assert(!host.contains('@')) by {
            assert forall|i: int| 0 <= i < host.len() implies host[i] != '@' by {
                assert(host[i] == origin[n + 3 + i]);
                assert(origin.contains(origin[n + 3 + i]));
            }
        }
        crate::clone_source::nothing_stands_before_a_missing_sign(host, '@');
        let start = origin.skip(n as int).subrange(0, 3);
        assert(start == "://"@);
        assert(origin.take(n as int) + "://"@ + host + rest.skip(k as int) =~= origin) by {
            assert forall|i: int| 0 <= i < 3 implies origin[n + i] == "://"@[i] by {
                assert(start[i] == origin[n + i]);
            }
        }
    }
}

/// The record of a Docker or Daytona sandbox says where its repository came from and where it
/// lies. An image is recorded of a Docker sandbox only, and where it has one; a snapshot of a
/// Daytona sandbox only. Nothing of this is recorded of any other sandbox.
pub proof fn records_say_what_was_cloned(
    spec: SandboxSpec,
    sandbox: SandboxFacts,
    run_id: Seq<char>,
)
    ensures
        ({
            let record = record_of(spec, sandbox, run_id);
            match spec {
                SandboxSpec::Docker { config, clone_origin_url, clone_branch, .. } => {
                    &&& config.image@.len() > 0 ==> record.image == Some(config.image@)
                    &&& config.image@.len() == 0 ==> record.image is None
                    &&& record.snapshot is None
                    &&& records_the_clone(
                        record,
                        config.skip_clone,
                        match clone_origin_url {
                            Some(url) => Some(url@),
                            None => None,
                        },
                        match clone_branch {
                            Some(branch) => Some(branch@),
                            None => None,
                        },
                    )
                },
                SandboxSpec::Daytona { config, clone_origin_url, clone_branch, .. } => {
                    &&& record.image is None
                    &&& sandbox.snapshot_info matches Some(snapshot) ==> record.snapshot == Some(
                        snapshot@,
                    )
                    &&& sandbox.snapshot_info is None ==> record.snapshot is None
                    &&& records_the_clone(
                        record,
                        config.skip_clone,
                        match clone_origin_url {
                            Some(url) => Some(url@),
                            None => None,
                        },
                        match clone_branch {
                            Some(branch) => Some(branch@),
                            None => None,
                        },
                    )
                },
                _ => {
                    &&& record.image is None && record.snapshot is None
                    &&& record.repo_cloned is None && record.clone_origin_url is None
                    &&& record.clone_branch is None
                    &&& record.workspace_root is None && record.repos_root is None
                    &&& record.primary_repo_path is None && record.primary_repo_link is None
                },
            }
        }),
{
    match spec {
        SandboxSpec::Docker { clone_origin_url, .. } => {
            if let Some(url) = clone_origin_url {
                if !url@.contains('@') {
                    origins_without_user_information_stay(url@);
                }
            }
        },
        SandboxSpec::Daytona { clone_origin_url, .. } => {
            if let Some(url) = clone_origin_url {
                if !url@.contains('@') {
                    origins_without_user_information_stay(url@);
                }
            }
        },
        _ => {},
    }
}

/// A layout is kept exactly of a repository that was cloned from GitHub, and is that repository's.
pub proof fn layouts_are_of_what_was_cloned(repo_cloned: Option<bool>, origin: Option<Seq<char>>)
    ensures
        crate::sandbox_spec::laid_out(repo_cloned, origin) == if repo_cloned == Some(true)
            && origin is Some {
            github_repo(origin->Some_0)
        } else {
            None
        },
{
}

} // verus!
