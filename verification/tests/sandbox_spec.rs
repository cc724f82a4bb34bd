use fabro_sandbox::aca::sandbox::GitHubCredentials;
use fabro_sandbox::aca::{AcaConfig, AcaEgressPolicy};
use fabro_sandbox::clone_source::{
    clean_clone_origin_for_record, decide_clone, exact_checkout_verify_command,
    exact_repository_init_command, github_repo_layout, parse_github_origin, pinned_fetch_command,
    repo_cloned_for_record, CloneDecision, EmptyWorkspaceReason, PinnedRevision, FETCH_HEAD_COMMIT,
};
use fabro_sandbox::provider::aca::{AcaAccount, SandboxCreateSpec};
use fabro_sandbox::provider::{InfoResources, SandboxInfo, SandboxNetwork, SandboxStatus};
use fabro_sandbox::sandbox_spec::{runtime_layout_metadata, BuildPlan, SandboxFacts, SandboxSpec};
use fabro_sandbox::settings::{
    DaytonaConfig, DockerSandboxOptions, RunCloneSettings, SandboxProviderKind,
};

const RUN_ID: &str = "01HY0000000000000000000000";

fn facts(working_dir: &str) -> SandboxFacts {
    SandboxFacts {
        working_directory: working_dir.to_string(),
        sandbox_info: String::new(),
        snapshot_info: Some("snap".to_string()),
    }
}

fn docker_spec(options: DockerSandboxOptions, origin: Option<&str>, branch: Option<&str>, commit: Option<&str>) -> SandboxSpec {
    SandboxSpec::Docker {
        config: options,
        github_app: None,
        run_id: None,
        clone_origin_url: origin.map(str::to_string),
        clone_branch: branch.map(str::to_string),
        clone_tag: None,
        clone_commit_sha: commit.map(str::to_string),
    }
}

fn aca_config() -> AcaConfig {
    AcaConfig {
        region: String::new(),
        resource_group: "rg-2".to_string(),
        sandbox_group: String::new(),
        disk: "ubuntu".to_string(),
        cpu: None,
        memory: None,
        working_dir: "/workspace".to_string(),
        egress: AcaEgressPolicy::default(),
        region_override: false,
    }
}

fn aca_spec(origin: Option<&str>) -> SandboxSpec {
    SandboxSpec::Aca {
        config: Box::new(aca_config()),
        github_app: Some(GitHubCredentials::Pat("t".to_string())),
        run_id: Some(RUN_ID.to_string()),
        clone_origin_url: origin.map(str::to_string),
        clone_branch: Some("main".to_string()),
    }
}

fn account() -> AcaAccount {
    AcaAccount {
        subscription: "sub-1".to_string(),
        resource_group: "rg-1".to_string(),
        sandbox_group: "sg-1".to_string(),
        region: "northeurope".to_string(),
    }
}

fn info(id: &str) -> SandboxInfo {
    SandboxInfo {
        provider: SandboxProviderKind::Aca,
        id: id.to_string(),
        display_name: None,
        state: SandboxStatus::Running,
        native_state: None,
        image: None,
        snapshot: None,
        region: None,
        web_url: None,
        working_directory: None,
        resources: InfoResources { millicpu: None, memory_bytes: None, disk_bytes: None },
        network: SandboxNetwork::Unknown,
        labels: Vec::new(),
        created_at: None,
        last_activity_at: None,
    }
}

#[test]
fn docker_run_sandbox_persists_layout_metadata_for_cloned_repo() {
    let spec = docker_spec(
        DockerSandboxOptions::default(),
        Some("git@github.com:brynary/rack-test.git"),
        Some("main"),
        None,
    );

    let record = spec.to_run_sandbox_instance(&facts("/workspace/rack-test"), RUN_ID);
    let runtime = record.runtime;

    assert_eq!(runtime.working_directory, "/workspace/rack-test");
    assert_eq!(runtime.repo_cloned, Some(true));
    assert_eq!(
        runtime.clone_origin_url.as_deref(),
        Some("https://github.com/brynary/rack-test")
    );
    assert_eq!(runtime.workspace_root.as_deref(), Some("/workspace"));
    assert_eq!(runtime.repos_root.as_deref(), Some("/repos"));
    assert_eq!(
        runtime.primary_repo_path.as_deref(),
        Some("/repos/brynary/rack-test")
    );
    assert_eq!(
        runtime.primary_repo_link.as_deref(),
        Some("/workspace/rack-test")
    );
    assert_eq!(runtime.clone_branch.as_deref(), Some("main"));
    assert_eq!(runtime.id, format!("local:{}", RUN_ID));
}

#[test]
fn invalid_exact_checkout_spec_fails_before_provider_connection() {
    let spec = docker_spec(
        DockerSandboxOptions::default(),
        Some("https://github.com/acme/widgets"),
        Some("main"),
        Some("not-a-sha"),
    );

    let error = match spec.build(None) {
        Ok(_) => panic!("spec validation should run before Docker connection"),
        Err(e) => e,
    };
    assert!(error.text().contains("Failed to create Docker sandbox"));
    assert!(error.source().unwrap().text().contains("40 ASCII hexadecimal"));
    assert!(!error.source().unwrap().text().contains("Docker daemon"));
}

#[test]
fn docker_run_sandbox_omits_primary_repo_metadata_for_empty_workspace() {
    let spec = docker_spec(
        DockerSandboxOptions { skip_clone: true, ..DockerSandboxOptions::default() },
        Some("https://gitlab.com/acme/widgets"),
        None,
        None,
    );

    let record = spec.to_run_sandbox_instance(&facts("/workspace"), RUN_ID);
    let runtime = record.runtime;

    assert_eq!(runtime.working_directory, "/workspace");
    assert_eq!(runtime.repo_cloned, Some(false));
    assert_eq!(runtime.workspace_root.as_deref(), Some("/workspace"));
    assert_eq!(runtime.repos_root.as_deref(), Some("/repos"));
    assert!(runtime.primary_repo_path.is_none());
    assert!(runtime.primary_repo_link.is_none());
}

#[test]
fn docker_records_name_the_image_and_daytona_records_the_snapshot() {
    let options =
        DockerSandboxOptions { image: "ubuntu:24.04".to_string(), ..DockerSandboxOptions::default() };
    let record = docker_spec(options, None, None, None).to_run_sandbox_instance(&facts("/w"), RUN_ID);
    assert_eq!(record.provider, SandboxProviderKind::Docker);
    assert_eq!(record.image.as_deref(), Some("ubuntu:24.04"));
    assert_eq!(record.snapshot, None);
    assert_eq!(record.runtime.repo_cloned, Some(false));

    let daytona = SandboxSpec::Daytona {
        config: Box::new(DaytonaConfig {
            auto_stop_interval: None,
            labels: None,
            snapshot: None,
            network: None,
            clone_depth: RunCloneSettings::default().depth_limit(),
            skip_clone: false,
        }),
        github_app: None,
        run_id: None,
        clone_origin_url: Some("https://tok@github.com/a/b.git/".to_string()),
        clone_branch: None,
        clone_tag: None,
        clone_commit_sha: None,
        api_key: None,
    };
    let record = daytona.to_run_sandbox_instance(&facts("/w"), RUN_ID);
    assert_eq!(record.provider, SandboxProviderKind::Daytona);
    assert_eq!(record.image, None);
    assert_eq!(record.snapshot.as_deref(), Some("snap"));
    assert_eq!(record.runtime.clone_origin_url.as_deref(), Some("https://github.com/a/b"));
    assert_eq!(record.runtime.primary_repo_path.as_deref(), Some("/repos/a/b"));
    assert!(matches!(daytona.build(None), Ok(BuildPlan::Daytona)));
}

#[test]
fn local_and_aca_records_are_plain() {
    let local = SandboxSpec::Local { working_directory: "/src".to_string() };
    let mut known = facts("/src");
    known.sandbox_info = "sbx-7".to_string();
    let record = local.to_run_sandbox_instance(&known, RUN_ID);
    assert_eq!(record.provider, SandboxProviderKind::Local);
    assert_eq!(record.runtime.id, "sbx-7");
    assert_eq!(record.runtime.repo_cloned, None);
    assert_eq!(record.snapshot, None);
    assert_eq!(record.runtime.workspace_root, None);
    let record = aca_spec(Some("https://github.com/a/b")).to_run_sandbox_instance(&known, RUN_ID);
    assert_eq!(record.provider, SandboxProviderKind::Aca);
    assert_eq!(record.runtime.clone_origin_url, None);
    assert_eq!(record.runtime.clone_branch, None);
}

#[test]
fn providers_have_names() {
    let local = SandboxSpec::Local { working_directory: "/src".to_string() };
    assert_eq!(local.provider_name(), "local");
    assert_eq!(local.provider(), SandboxProviderKind::Local);
    assert_eq!(
        docker_spec(DockerSandboxOptions::default(), None, None, None).provider_name(),
        "docker"
    );
    assert_eq!(aca_spec(None).provider_name(), "aca");
    assert!(matches!(local.build(None), Ok(BuildPlan::Local)));
}

#[test]
fn docker_specs_with_right_selectors_are_built() {
    let spec = docker_spec(
        DockerSandboxOptions::default(),
        Some("https://github.com/acme/widgets"),
        Some("main"),
        Some("0123456789abcdef0123456789ABCDEF01234567"),
    );
    assert!(matches!(spec.build(None), Ok(BuildPlan::Docker)));
    let failure = SandboxSpec::docker_failure("no daemon".to_string());
    assert_eq!(failure.text(), "Failed to create Docker sandbox");
    assert_eq!(failure.source().unwrap().text(), "no daemon");
}

#[test]
fn aca_specs_need_an_account() {
    match aca_spec(None).build(None) {
        Ok(_) => panic!("no account"),
        Err(e) => assert_eq!(
            e.text(),
            "ACA sandbox provider requires ACA_SUBSCRIPTION_ID, ACA_RESOURCE_GROUP, ACA_SANDBOX_GROUP, and ACA_REGION to be set"
        ),
    }
}

#[test]
fn aca_specs_are_built_in_the_scope_they_are_created_in() {
    let spec = aca_spec(Some("https://github.com/acme/widgets"));
    let (provider, create) = match spec.build(Some(account())) {
        Ok(BuildPlan::Aca { provider, create }) => (provider, create),
        _ => panic!("no ACA plan"),
    };
    match &create {
        SandboxCreateSpec::Aca { config, run_id, clone_branch, .. } => {
            assert_eq!(config.resource_group, "rg-2");
            assert_eq!(run_id.as_deref(), Some(RUN_ID));
            assert_eq!(clone_branch.as_deref(), Some("main"));
        }
        other => panic!("unexpected {:?}", other),
    }
    let created = match provider.create(create) {
        Ok(start) => start,
        Err(e) => panic!("{:?}", e),
    };
    let sandbox = match spec.built_aca(&provider, info("sbx-9")) {
        Ok(sandbox) => sandbox,
        Err(e) => panic!("{:?}", e),
    };
    assert_eq!(sandbox.sandbox_id, "sbx-9");
    assert_eq!(sandbox.clone_origin_url.as_deref(), Some("https://github.com/acme/widgets"));
    assert_eq!(sandbox.clone_tag, None);
    assert!(sandbox.has_token_source);
    assert_eq!(sandbox.cleanup().path, format!("{}/sbx-9", created.call().path));
    assert!(sandbox.cleanup().path.contains("/resourceGroups/rg-2/sandboxGroups/sg-1/"));
}

#[test]
fn github_origins_are_read_in_every_form() {
    for origin in [
        "https://github.com/acme/widgets",
        "https://github.com/acme/widgets.git",
        "https://github.com/acme/widgets/",
        "https://user:pw@github.com/acme/widgets.git/",
        "git@github.com:acme/widgets.git",
        "ssh://git@github.com/acme/widgets",
    ] {
        let found = parse_github_origin(origin).expect(origin);
        assert_eq!((found.owner.as_str(), found.repo.as_str()), ("acme", "widgets"));
        let cleaned = clean_clone_origin_for_record(Some(origin)).unwrap();
        assert_eq!(cleaned, "https://github.com/acme/widgets");
        assert_eq!(clean_clone_origin_for_record(Some(&cleaned)).unwrap(), cleaned);
    }
    for origin in [
        "https://gitlab.com/acme/widgets",
        "https://github.com/acme",
        "https://github.com/acme/widgets/tree",
        "https://github.com/../widgets",
        "https://github.com.evil.com/acme/widgets",
        "http://github.com/acme/widgets",
        "",
    ] {
        assert!(parse_github_origin(origin).is_none(), "{}", origin);
    }
}

#[test]
fn recorded_origins_carry_no_credentials() {
    assert_eq!(
        clean_clone_origin_for_record(Some("https://user:pw@gitlab.com/acme/w@1")).as_deref(),
        Some("https://gitlab.com/acme/w@1")
    );
    assert_eq!(
        clean_clone_origin_for_record(Some("https://tok@example.com")).as_deref(),
        Some("https://example.com")
    );
    assert_eq!(
        clean_clone_origin_for_record(Some("git@gitlab.com:acme/w")).as_deref(),
        Some("git@gitlab.com:acme/w")
    );
    assert_eq!(clean_clone_origin_for_record(None), None);
}

#[test]
fn clone_decisions() {
    match decide_clone(true, Some("nonsense"), None, None, Some("x")) {
        Ok(CloneDecision::EmptyWorkspace { reason }) => {
            assert_eq!(reason, EmptyWorkspaceReason::CloneDisabled);
            assert_eq!(reason.message(), "cloning is disabled");
        }
        other => panic!("unexpected {:?}", other),
    }
    match decide_clone(false, None, None, None, None) {
        Ok(CloneDecision::EmptyWorkspace { reason }) => {
            assert_eq!(reason.message(), "no clone origin is configured");
        }
        other => panic!("unexpected {:?}", other),
    }
    match decide_clone(false, Some("git@github.com:a/b.git"), Some("main"), Some("v1"), None) {
        Ok(CloneDecision::GitHub { origin_url, branch, tag, commit_sha }) => {
            assert_eq!(origin_url, "https://github.com/a/b");
            assert_eq!(branch.as_deref(), Some("main"));
            assert_eq!(tag.as_deref(), Some("v1"));
            assert_eq!(commit_sha, None);
        }
        other => panic!("unexpected {:?}", other),
    }
    assert!(decide_clone(false, Some("https://gitlab.com/a/b"), None, None, None).is_err());
    let bad = decide_clone(false, Some("git@github.com:a/b"), Some("main"), None, Some("123"));
    assert!(bad.unwrap_err().text().contains("40 ASCII hexadecimal"));
    let bare = decide_clone(false, Some("git@github.com:a/b"), None, Some("v1"), None);
    assert_eq!(bare.unwrap_err().text(), "pinned tag requires a repository branch");
}

#[test]
fn layouts_follow_clones() {
    let layout = github_repo_layout("git@github.com:a/b.git", "/workspace", "/repos").unwrap();
    assert_eq!(layout.primary_repo_path, "/repos/a/b");
    assert_eq!(layout.primary_repo_link, "/workspace/b");
    assert!(github_repo_layout("https://gitlab.com/a/b", "/workspace", "/repos").is_err());
    assert!(runtime_layout_metadata(Some(false), Some("git@github.com:a/b"), "/w", "/r").is_none());
    assert!(runtime_layout_metadata(None, Some("git@github.com:a/b"), "/w", "/r").is_none());
    assert!(runtime_layout_metadata(Some(true), None, "/w", "/r").is_none());
    assert!(runtime_layout_metadata(Some(true), Some("git@github.com:a/b"), "/w", "/r").is_some());
    assert_eq!(repo_cloned_for_record(false, Some("x")), Some(true));
    assert_eq!(repo_cloned_for_record(true, Some("x")), Some(false));
    assert_eq!(repo_cloned_for_record(false, None), Some(false));
}

#[test]
fn pins_are_fetched_by_name_and_verified() {
    let sha = "0123456789abcdef0123456789abcdef01234567";
    let commit = PinnedRevision::from_selectors(Some("v1"), Some(sha)).unwrap();
    assert_eq!(commit.fetch_refspec(), sha);
    assert_eq!(commit.label(), "pinned commit");
    assert!(commit.verify_head(&format!("{}\n", sha.to_uppercase())).is_ok());
    assert!(commit.verify_head("short").is_err());
    let tag = PinnedRevision::from_selectors(Some("v1"), None).unwrap();
    assert_eq!(tag.fetch_refspec(), "refs/tags/v1");
    assert!(tag.verify_head(sha).is_ok());
    assert_eq!(tag.verify_head("x\n").unwrap_err().text(), "pinned tag was checked out at 'x'");
    assert!(PinnedRevision::from_selectors(None, None).is_none());
}

#[test]
fn pin_commands_are_built_to_the_letter() {
    assert_eq!(
        exact_repository_init_command("https://github.com/a/b", "/workspace"),
        "git -c maintenance.auto=0 -c gc.auto=0 init /workspace && git -c maintenance.auto=0 -c gc.auto=0 -C /workspace remote add origin https://github.com/a/b"
    );
    assert_eq!(
        pinned_fetch_command("/workspace", "origin", "refs/tags/v1", None),
        "git -c maintenance.auto=0 -c gc.auto=0 -C /workspace fetch --no-tags -- origin refs/tags/v1"
    );
    assert_eq!(
        pinned_fetch_command("/workspace", "origin", "refs/tags/v1", Some(1)),
        "git -c maintenance.auto=0 -c gc.auto=0 -C /workspace fetch --depth 1 --no-tags -- origin refs/tags/v1"
    );
    assert_eq!(
        exact_checkout_verify_command("/workspace", "main", FETCH_HEAD_COMMIT),
        "git -c maintenance.auto=0 -c gc.auto=0 -C /workspace checkout -B main 'FETCH_HEAD^{commit}' && git -c maintenance.auto=0 -c gc.auto=0 -C /workspace rev-parse HEAD"
    );
}
