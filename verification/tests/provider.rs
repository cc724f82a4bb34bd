use fabro_sandbox::aca::client::{
    AcaApiError, AutoSuspendPolicy, Body, DiskImageRef, Lifecycle, Method, SandboxResource,
    SandboxResources, SandboxState, SourcesRef,
};
use fabro_sandbox::aca::{AcaConfig, AcaEgressPolicy};
use fabro_sandbox::error::Error;
use fabro_sandbox::from_environment::aca_memory_string;
use fabro_sandbox::provider::aca::{
    aca_account_from_env_values, can_count, can_describe, found, listed, millicpu_text, non_empty,
    parse_mebibytes, sandbox_info_from_resource, AcaAccount, AcaSandboxProvider, ApplyingEgress,
    EgressOutcome, SandboxCreateSpec,
};
use fabro_sandbox::provider::{parse_rfc3339, SandboxStatus, Timestamp};
use fabro_sandbox::settings::{DockerSandboxOptions, SandboxProviderKind};

const REGION: &str = "northeurope";

fn test_account() -> AcaAccount {
    AcaAccount {
        subscription: "sub-1".to_string(),
        resource_group: "rg-1".to_string(),
        sandbox_group: "sg-1".to_string(),
        region: REGION.to_string(),
    }
}

fn test_provider() -> AcaSandboxProvider {
    AcaSandboxProvider::new(test_account()).with_base_override("http://127.0.0.1:5000".to_string())
}

fn test_config() -> AcaConfig {
    AcaConfig {
        region: String::new(),
        resource_group: String::new(),
        sandbox_group: String::new(),
        disk: "ubuntu".to_string(),
        cpu: None,
        memory: None,
        working_dir: "/workspace".to_string(),
        egress: AcaEgressPolicy {
            default_action: "Deny".to_string(),
            rules: vec!["github.com:Allow".to_string()],
            traffic_inspection: String::new(),
        },
        region_override: false,
    }
}

fn aca_spec(config: AcaConfig) -> SandboxCreateSpec {
    SandboxCreateSpec::Aca {
        config: Box::new(config),
        github_app: None,
        run_id: None,
        clone_origin_url: None,
        clone_branch: None,
    }
}

fn resource(id: &str, state: &str) -> SandboxResource {
    SandboxResource {
        id: id.to_string(),
        state: SandboxState::from_wire(state),
        created_at: "2026-08-01T00:00:00Z".to_string(),
        lifecycle: Lifecycle {
            auto_suspend_policy: AutoSuspendPolicy {
                enabled: true,
                interval: 600,
                mode: "Memory".to_string(),
            },
        },
        resources: SandboxResources {
            cpu: "1000m".to_string(),
            memory: "2048Mi".to_string(),
            disk: "20480Mi".to_string(),
        },
        sources_ref: SourcesRef {
            disk_image: DiskImageRef { id: "img-1".to_string(), is_public: false },
        },
        region: Some(REGION.to_string()),
        management_url: Some("https://management.northeurope.azuredevcompute.io".to_string()),
        vmm_type: Some("cloudhypervisor".to_string()),
        outbound_ip_addresses: vec!["10.0.0.1".to_string()],
        state_details: None,
        snapshot_id: None,
    }
}

fn sandboxes_path() -> String {
    "/subscriptions/sub-1/resourceGroups/rg-1/sandboxGroups/sg-1/sandboxes".to_string()
}

fn creating(config: AcaConfig) -> fabro_sandbox::provider::aca::Creating {
    match test_provider().create(aca_spec(config)) {
        Ok(creating) => creating,
        Err(e) => panic!("create: {:?}", e),
    }
}

fn applying(config: AcaConfig) -> ApplyingEgress {
    match creating(config).created(Ok(resource("sbx-new", "Running"))) {
        Ok(step) => step,
        Err(e) => panic!("created: {:?}", e),
    }
}

#[test]
fn create_calls_create_then_set_egress_with_full_inspection_when_deny_default() {
    let start = creating(test_config());
    let call = start.call();
    assert_eq!(call.method, Method::Put);
    assert_eq!(call.path, sandboxes_path());
    match &call.body {
        Body::Create(body) => {
            assert!(body.lifecycle.auto_suspend_policy.enabled);
            assert_eq!(body.lifecycle.auto_suspend_policy.interval, 600);
            assert_eq!(body.lifecycle.auto_suspend_policy.mode, "Memory");
            assert_eq!(body.resources.cpu, "1000m");
            assert_eq!(body.resources.memory, "2048Mi");
            assert!(body.sources_ref.disk_image.is_public);
            assert_eq!(body.sources_ref.disk_image.name, "ubuntu");
        }
        other => panic!("unexpected {:?}", other),
    }
    let egress = applying(test_config());
    let call = egress.call();
    assert_eq!(call.method, Method::Post);
    assert_eq!(call.path, format!("{}/sbx-new/egresspolicy", sandboxes_path()));
    match &call.body {
        Body::Egress(body) => {
            assert_eq!(body.default_action, "Deny");
            assert_eq!(body.host_rules.len(), 1);
            assert_eq!(body.host_rules[0].action, "Allow");
            assert_eq!(body.host_rules[0].pattern, "github.com");
            assert_eq!(body.traffic_inspection, "Full");
        }
        other => panic!("unexpected {:?}", other),
    }
    match egress.applied(Ok(())) {
        EgressOutcome::Ready(info) => {
            assert_eq!(info.provider, SandboxProviderKind::Aca);
            assert_eq!(info.id, "sbx-new");
            assert_eq!(info.state, SandboxStatus::Running);
            assert_eq!(info.region.as_deref(), Some(REGION));
            assert_eq!(info.working_directory.as_deref(), Some("/workspace"));
        }
        EgressOutcome::CleanUp(_) => panic!("nothing to clean up"),
    }
}

#[test]
fn create_deletes_sandbox_when_egress_apply_fails() {
    for deletion_works in [true, false] {
        let failure = Error::Context {
            message: "ACA set egress policy request failed".to_string(),
            source: Box::new(Error::Api(AcaApiError::Other {
                status: 500,
                message: "InternalError: Internal error applying egress policy.".to_string(),
            })),
        };
        let cleaning = match applying(test_config()).applied(Err(failure)) {
            EgressOutcome::CleanUp(cleaning) => cleaning,
            EgressOutcome::Ready(_) => panic!("egress failed"),
        };
        let call = cleaning.call();
        assert_eq!(call.method, Method::Delete);
        assert_eq!(call.path, format!("{}/sbx-new", sandboxes_path()));
        let reply = if deletion_works { Ok(()) } else { Err(Error::Message("gone".to_string())) };
        let error = cleaning.deleted(reply);
        assert!(error.text().contains("sbx-new"));
        assert_eq!(
            error.text(),
            "sandbox 'sbx-new' was created but egress policy failed to apply; attempted cleanup"
        );
        assert_eq!(error.source().unwrap().text(), "ACA set egress policy request failed");
    }
}

#[test]
fn create_that_fails_leaves_nothing_to_do() {
    let step = creating(test_config()).created(Err(Error::Message("no quota".to_string())));
    match step {
        Ok(_) => panic!("nothing was created"),
        Err(e) => assert_eq!(e.text(), "no quota"),
    }
}

#[test]
fn create_falls_back_to_account_defaults_when_config_scope_is_empty() {
    assert_eq!(creating(test_config()).call().path, sandboxes_path());
}

#[test]
fn create_prefers_the_configured_scope() {
    let mut config = test_config();
    config.resource_group = "rg-2".to_string();
    config.sandbox_group = "sg-2".to_string();
    config.cpu = Some("500m".to_string());
    config.memory = Some("1024Mi".to_string());
    let call = creating(config).call();
    assert_eq!(
        call.path,
        "/subscriptions/sub-1/resourceGroups/rg-2/sandboxGroups/sg-2/sandboxes"
    );
    match call.body {
        Body::Create(body) => {
            assert_eq!(body.resources.cpu, "500m");
            assert_eq!(body.resources.memory, "1024Mi");
        }
        other => panic!("unexpected {:?}", other),
    }
}

#[test]
fn create_addresses_the_configured_region() {
    let provider = AcaSandboxProvider::new(test_account());
    let mut config = test_config();
    config.region = "westus2".to_string();
    let start = match provider.create(aca_spec(config)) {
        Ok(start) => start,
        Err(e) => panic!("{:?}", e),
    };
    let call = start.call();
    let request = start.client.send(call, "t");
    assert!(request.url.starts_with("https://management.westus2.azuredevcompute.io/subscriptions/sub-1/"));
}

#[test]
fn create_rejects_a_region_that_makes_no_url() {
    let provider = AcaSandboxProvider::new(test_account());
    let mut config = test_config();
    config.region = "north europe".to_string();
    match provider.create(aca_spec(config)) {
        Ok(_) => panic!("region was accepted"),
        Err(e) => {
            assert_eq!(e.text(), "Invalid ACA region 'north europe'");
            assert_eq!(e.source().unwrap().text(), "invalid international domain name");
        }
    }
}

#[test]
fn create_takes_aca_specs_only() {
    let spec = SandboxCreateSpec::Docker { config: DockerSandboxOptions::default() };
    match test_provider().create(spec) {
        Ok(_) => panic!("a Docker spec was accepted"),
        Err(e) => assert_eq!(e.text(), "ACA sandbox provider can only create ACA sandboxes"),
    }
}

#[test]
fn create_preserves_non_full_inspection_when_default_action_is_allow() {
    let mut config = test_config();
    config.egress = AcaEgressPolicy {
        default_action: "Allow".to_string(),
        rules: Vec::new(),
        traffic_inspection: "None".to_string(),
    };
    match applying(config).call().body {
        Body::Egress(body) => {
            assert_eq!(body.default_action, "Allow");
            assert!(body.host_rules.is_empty());
            assert_eq!(body.traffic_inspection, "None");
        }
        other => panic!("unexpected {:?}", other),
    }
}

#[test]
fn denied_traffic_is_always_inspected_in_full() {
    for action in ["", "deny", "DENY", "Deny"] {
        let mut config = test_config();
        config.egress.default_action = action.to_string();
        config.egress.traffic_inspection = "None".to_string();
        match applying(config).call().body {
            Body::Egress(body) => assert_eq!(body.traffic_inspection, "Full"),
            other => panic!("unexpected {:?}", other),
        }
    }
}

#[test]
fn get_maps_sandbox_resource_to_sandbox_info() {
    let (_, call) = match test_provider().get("sbx-1") {
        Ok(pair) => pair,
        Err(e) => panic!("{:?}", e),
    };
    assert_eq!(call.method, Method::Get);
    assert_eq!(call.path, format!("{}/sbx-1", sandboxes_path()));
    let resource = resource("sbx-1", "Stopped");
    assert!(can_describe(&resource));
    let info = found(&Some(resource)).expect("sandbox should be present");
    assert_eq!(info.provider, SandboxProviderKind::Aca);
    assert_eq!(info.id, "sbx-1");
    assert_eq!(info.state, SandboxStatus::Stopped);
    assert_eq!(info.native_state.as_deref(), Some("Stopped"));
    assert_eq!(info.image.as_deref(), Some("img-1"));
    assert_eq!(info.region.as_deref(), Some(REGION));
    assert!(info.working_directory.is_none());
    assert!(info.labels.is_empty());
    assert_eq!(info.resources.millicpu.as_deref(), Some("1000"));
    assert_eq!(info.resources.memory_bytes, Some(2048 * 1024 * 1024));
    assert_eq!(info.resources.disk_bytes, Some(20480 * 1024 * 1024));
    assert_eq!(info.created_at, Some(Timestamp { seconds: 1_785_542_400, nanos: 0 }));
}

#[test]
fn get_returns_none_on_404() {
    assert!(found(&None).is_none());
}

#[test]
fn list_maps_every_sandbox_resource() {
    let (_, call) = match test_provider().list() {
        Ok(pair) => pair,
        Err(e) => panic!("{:?}", e),
    };
    assert_eq!(call.path, sandboxes_path());
    let infos = listed(&vec![resource("sbx-1", "Running"), resource("sbx-2", "Stopped")]);
    assert_eq!(infos.len(), 2);
    assert_eq!(infos[0].id, "sbx-1");
    assert_eq!(infos[0].state, SandboxStatus::Running);
    assert_eq!(infos[1].id, "sbx-2");
    assert_eq!(infos[1].state, SandboxStatus::Stopped);
}

#[test]
fn delete_calls_delete_sandbox() {
    let (client, call) = match test_provider().delete("sbx-1") {
        Ok(pair) => pair,
        Err(e) => panic!("{:?}", e),
    };
    assert_eq!(call.method, Method::Delete);
    let request = client.send(call, "test-token");
    assert_eq!(request.url, format!("http://127.0.0.1:5000{}/sbx-1", sandboxes_path()));
}

#[test]
fn kind_is_aca() {
    let provider = AcaSandboxProvider::new(test_account());
    assert_eq!(provider.kind(), SandboxProviderKind::Aca);
}

#[test]
fn unknown_states_are_told_as_unknown() {
    let info = sandbox_info_from_resource(&resource("sbx-1", "Melting"), None);
    assert_eq!(info.state, SandboxStatus::Unknown);
    assert_eq!(info.native_state.as_deref(), Some("Unknown"));
}

#[test]
fn mebibytes_are_parsed_strictly() {
    assert_eq!(parse_mebibytes("2048Mi"), Some(2_147_483_648));
    assert_eq!(parse_mebibytes("+1Mi"), Some(1_048_576));
    assert_eq!(parse_mebibytes("2Gi"), None);
    assert_eq!(parse_mebibytes("Mi"), None);
    assert_eq!(parse_mebibytes("-1Mi"), None);
    assert_eq!(parse_mebibytes("18446744073709551616Mi"), None);
    assert!(can_count("17592186044415Mi"));
    assert!(!can_count("17592186044416Mi"));
    assert!(can_count(&aca_memory_string(0xffff_ffff_fff7_fbff)));
    assert!(!can_count(&aca_memory_string(0xffff_ffff_fff7_fc00)));
    assert_eq!(parse_mebibytes("17592186044415Mi"), Some(17592186044415 * 1024 * 1024));
}

#[test]
fn millicpu_is_what_stands_before_the_unit() {
    assert_eq!(millicpu_text("1000m").as_deref(), Some("1000"));
    assert_eq!(millicpu_text("1000"), None);
    assert_eq!(millicpu_text("m"), None);
    assert_eq!(millicpu_text(""), None);
    let cores: f64 = millicpu_text("1500m").unwrap().parse::<f64>().unwrap() / 1000.0;
    assert_eq!(cores, 1.5);
}

#[test]
fn moments_are_read_in_any_offset() {
    assert_eq!(
        parse_rfc3339("1996-12-19T16:39:57.250-08:00"),
        Some(Timestamp { seconds: 851_042_397, nanos: 250_000_000 })
    );
    assert_eq!(parse_rfc3339("yesterday"), None);
}

#[test]
fn empty_texts_are_none() {
    assert_eq!(non_empty(""), None);
    assert_eq!(non_empty("x"), Some("x"));
}

#[test]
fn an_account_needs_all_four_values() {
    let some = |s: &str| Some(s.to_string());
    let account = aca_account_from_env_values(some("s"), some("r"), some("g"), some("w")).unwrap();
    assert_eq!(account.subscription, "s");
    assert_eq!(account.region, "w");
    assert!(aca_account_from_env_values(None, some("r"), some("g"), some("w")).is_none());
    assert!(aca_account_from_env_values(some("s"), some("r"), some("g"), None).is_none());
}

#[test]
fn listed_domains_are_let_out_of_a_denying_sandbox() {
    let settings = fabro_sandbox::settings::RunEnvironmentSettings {
        id: "cloud".to_string(),
        provider: SandboxProviderKind::Aca,
        cwd: None,
        image: fabro_sandbox::settings::EnvironmentImageSettings { docker: None, dockerfile: None },
        resources: fabro_sandbox::settings::EnvironmentResourcesSettings {
            cpu: None,
            memory: None,
            disk: None,
        },
        network: fabro_sandbox::settings::EnvironmentNetworkSettings {
            mode: fabro_sandbox::settings::EnvironmentNetworkMode::AllowAll,
            allow: Vec::new(),
        },
        lifecycle: fabro_sandbox::settings::EnvironmentLifecycleSettings { auto_stop: None },
        labels: Vec::new(),
        env: Vec::new(),
        aca: fabro_sandbox::settings::AcaEnvironmentSettings {
            egress: fabro_sandbox::settings::AcaEgressSettings {
                allow: vec![
                    "github.com:Allow".to_string(),
                    "*.github.com".to_string(),
                    "api.anthropic.com".to_string(),
                ],
                traffic_inspection: Some("None".to_string()),
            },
            ..fabro_sandbox::settings::AcaEnvironmentSettings::default()
        },
    };
    let config = fabro_sandbox::from_environment::aca_config_from_environment(&settings);
    match applying(config).call().body {
        Body::Egress(body) => {
            assert_eq!(body.default_action, "Deny");
            assert_eq!(body.traffic_inspection, "Full");
            assert_eq!(body.host_rules[0].pattern, "github.com");
            assert_eq!(body.host_rules[0].action, "Allow");
            assert_eq!(body.host_rules[1].pattern, "*.github.com");
            assert_eq!(body.host_rules[1].action, "Allow");
            assert_eq!(body.host_rules[2].pattern, "api.anthropic.com");
            assert_eq!(body.host_rules[2].action, "Allow");
            assert_eq!(body.host_rules.len(), 3);
        }
        other => panic!("unexpected {:?}", other),
    }
}

#[test]
fn details_of_the_last_stop_do_not_matter() {
    let mut resumed = resource("sbx-1", "Running");
    resumed.state_details = Some(fabro_sandbox::aca::client::StateDetails {
        stopped_at: Some("2026-08-01T00:00:00Z".to_string()),
        stopped_reason: Some("UserStopped".to_string()),
    });
    resumed.snapshot_id = Some("snap-1".to_string());
    let info = sandbox_info_from_resource(&resumed, None);
    assert_eq!(info.state, SandboxStatus::Running);
    assert_eq!(info.snapshot.as_deref(), Some("snap-1"));
}

#[test]
fn rules_with_an_action_and_rules_under_another_default_stay() {
    let actions = |default_action: &str| -> Vec<String> {
        let mut config = test_config();
        config.egress.default_action = default_action.to_string();
        config.egress.rules =
            vec!["a.com".to_string(), "b.com:Deny".to_string(), "c.com:".to_string()];
        match applying(config).call().body {
            Body::Egress(body) => body.host_rules.into_iter().map(|rule| rule.action).collect(),
            other => panic!("unexpected {:?}", other),
        }
    };
    assert_eq!(actions("Deny"), vec!["Allow", "Deny", ""]);
    assert_eq!(actions(""), vec!["Allow", "Deny", ""]);
    assert_eq!(actions("dENY"), vec!["Allow", "Deny", ""]);
    assert_eq!(actions("Allow"), vec!["Allow", "Deny", ""]);
    assert_eq!(actions("Audit"), vec!["Audit", "Deny", ""]);
}
