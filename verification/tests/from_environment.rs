use fabro_sandbox::aca::{aca_data_plane_regions, is_known_aca_region, validate_aca_region};
use fabro_sandbox::from_environment::{
    aca_config_from_environment, aca_cpu_string, aca_memory_string, daytona_config_from_environment,
    docker_config_from_environment, docker_config_from_environment_with_secrets,
    duration_to_minutes_i32, local_working_directory_from_environment, size_to_gb_i32, SecretValue,
    SourceDirectory,
};
use fabro_sandbox::provider::aca::parse_mebibytes;
use fabro_sandbox::settings::{
    AcaEgressSettings, AcaEnvironmentSettings, DaytonaNetwork, DaytonaSnapshotSource, DockerSandboxOptions,
    DockerfileSource, EnvSetting, EnvironmentImageSettings, EnvironmentLifecycleSettings,
    EnvironmentNetworkMode, EnvironmentNetworkSettings, EnvironmentResourcesSettings, Label,
    RunCloneSettings, RunEnvironmentSettings, SandboxProviderKind, ValuePiece,
};

fn run_environment(provider: SandboxProviderKind) -> RunEnvironmentSettings {
    RunEnvironmentSettings {
        id: "host".to_string(),
        provider,
        cwd: None,
        image: EnvironmentImageSettings { docker: None, dockerfile: None },
        resources: EnvironmentResourcesSettings { cpu: None, memory: None, disk: None },
        network: EnvironmentNetworkSettings {
            mode: EnvironmentNetworkMode::AllowAll,
            allow: Vec::new(),
        },
        lifecycle: EnvironmentLifecycleSettings { auto_stop: None },
        labels: Vec::new(),
        env: Vec::new(),
        aca: AcaEnvironmentSettings::default(),
    }
}

fn text(s: &str) -> ValuePiece {
    ValuePiece::Text(s.to_string())
}

fn secret(name: &str) -> ValuePiece {
    ValuePiece::Secret { name: name.to_string(), source: format!("{{{{ secrets.{} }}}}", name) }
}

#[test]
fn local_working_directory_prefers_environment_cwd() {
    let mut settings = run_environment(SandboxProviderKind::Local);
    settings.cwd = Some("/srv/fabro/workspaces/team-a".to_string());
    let missing_source =
        SourceDirectory { path: "/path/that/should/not/exist".to_string(), is_dir: false };

    let resolved = local_working_directory_from_environment(&settings, Some(&missing_source))
        .expect("configured cwd should be accepted");

    assert_eq!(resolved, "/srv/fabro/workspaces/team-a");
}

#[test]
fn local_working_directory_uses_existing_source_directory_without_cwd() {
    let settings = run_environment(SandboxProviderKind::Local);
    let dir = SourceDirectory { path: "/tmp/sources".to_string(), is_dir: true };

    let resolved = local_working_directory_from_environment(&settings, Some(&dir))
        .expect("existing source directory should be accepted");

    assert_eq!(resolved, "/tmp/sources");
}

#[test]
fn local_working_directory_rejects_missing_source_directory_without_cwd() {
    let settings = run_environment(SandboxProviderKind::Local);
    let missing = SourceDirectory { path: "/tmp/client-only".to_string(), is_dir: false };

    let err = local_working_directory_from_environment(&settings, Some(&missing))
        .expect_err("missing source directory without cwd should fail");

    let message = err.text();
    assert!(message.contains("environment.cwd") && message.contains("does not exist"));
    assert!(message.contains("/tmp/client-only"));
}

#[test]
fn local_working_directory_needs_a_directory() {
    let settings = run_environment(SandboxProviderKind::Local);
    let err = local_working_directory_from_environment(&settings, None).unwrap_err();
    assert!(err.text().contains("requires a server-side working directory"));
}

#[test]
fn daytona_config_maps_docker_image_to_snapshot() {
    let mut settings = run_environment(SandboxProviderKind::Daytona);
    settings.image.docker = Some("ubuntu:24.04".to_string());
    settings.resources.cpu = Some(2);

    let config = daytona_config_from_environment(&settings, &RunCloneSettings::default());
    let snapshot = config.snapshot.expect("image should configure a snapshot");

    match snapshot.source {
        DaytonaSnapshotSource::Image(image) => assert_eq!(image, "ubuntu:24.04"),
        other => panic!("unexpected {:?}", other),
    }
    assert_eq!(snapshot.cpu, Some(2));
}

#[test]
fn daytona_config_maps_everything_else() {
    let mut settings = run_environment(SandboxProviderKind::Daytona);
    settings.image.dockerfile = Some(DockerfileSource::Inline("FROM scratch".to_string()));
    settings.resources.memory = Some(4_999_999_999);
    settings.resources.disk = Some(20_000_000_000);
    settings.lifecycle.auto_stop = Some(3_599);
    settings.labels = vec![Label { key: "team".to_string(), value: "a".to_string() }];
    settings.network = EnvironmentNetworkSettings {
        mode: EnvironmentNetworkMode::CidrAllowList,
        allow: vec!["10.0.0.0/8".to_string()],
    };
    let clone = RunCloneSettings { enabled: false, depth: Some(3) };

    let config = daytona_config_from_environment(&settings, &clone);

    let snapshot = config.snapshot.unwrap();
    assert!(matches!(
        snapshot.source,
        DaytonaSnapshotSource::Dockerfile(DockerfileSource::Inline(_))
    ));
    assert_eq!(snapshot.memory, Some(4));
    assert_eq!(snapshot.disk, Some(20));
    assert_eq!(config.auto_stop_interval, Some(59));
    assert_eq!(config.labels.unwrap()[0].key, "team");
    match config.network {
        Some(DaytonaNetwork::AllowList(list)) => assert_eq!(list, vec!["10.0.0.0/8".to_string()]),
        other => panic!("unexpected {:?}", other),
    }
    assert_eq!(config.clone_depth, Some(3));
    assert!(config.skip_clone);
}

#[test]
fn daytona_config_without_an_image_has_no_snapshot() {
    let settings = run_environment(SandboxProviderKind::Daytona);
    let config = daytona_config_from_environment(&settings, &RunCloneSettings::default());
    assert!(config.snapshot.is_none());
    assert!(config.labels.is_none());
    assert!(matches!(config.network, Some(DaytonaNetwork::AllowAll)));
    assert!(!config.skip_clone);
}

#[test]
fn an_image_wins_over_a_dockerfile() {
    let mut settings = run_environment(SandboxProviderKind::Daytona);
    settings.image.docker = Some("ubuntu:24.04".to_string());
    settings.image.dockerfile = Some(DockerfileSource::Path { path: "Dockerfile".to_string() });
    settings.network.mode = EnvironmentNetworkMode::Block;
    let config = daytona_config_from_environment(&settings, &RunCloneSettings::default());
    assert!(matches!(config.snapshot.unwrap().source, DaytonaSnapshotSource::Image(_)));
    assert!(matches!(config.network, Some(DaytonaNetwork::Block)));
}

#[test]
fn conversions_saturate() {
    assert_eq!(duration_to_minutes_i32(0), 0);
    assert_eq!(duration_to_minutes_i32(59), 0);
    assert_eq!(duration_to_minutes_i32(600), 10);
    assert_eq!(duration_to_minutes_i32(u64::MAX), i32::MAX);
    assert_eq!(size_to_gb_i32(999_999_999), 0);
    assert_eq!(size_to_gb_i32(4_000_000_000), 4);
    assert_eq!(size_to_gb_i32(2_147_483_648_000_000_000), i32::MAX);
}

#[test]
fn docker_config_sorts_variables_and_keeps_secrets_in_source_form() {
    let mut settings = run_environment(SandboxProviderKind::Docker);
    settings.env = vec![
        EnvSetting { key: "ZED".to_string(), value: vec![text("1")] },
        EnvSetting { key: "ALPHA".to_string(), value: vec![text("x-"), secret("KEY")] },
    ];
    settings.resources.cpu = Some(2);
    settings.resources.memory = Some(4_000_000_000);
    settings.network.mode = EnvironmentNetworkMode::Block;
    let mut defaults = DockerSandboxOptions::default();
    defaults.image = "base".to_string();
    let clone = RunCloneSettings { enabled: true, depth: Some(1) };

    let options = docker_config_from_environment(&settings, &clone, &defaults);

    assert_eq!(
        options.env_vars,
        vec!["ALPHA=x-{{ secrets.KEY }}".to_string(), "ZED=1".to_string()]
    );
    assert_eq!(options.image, "base");
    assert_eq!(options.network_mode.as_deref(), Some("none"));
    assert_eq!(options.memory_limit, Some(4_000_000_000));
    assert_eq!(options.cpu_quota, Some(200_000));
    assert_eq!(options.clone_depth, Some(1));
    assert!(!options.skip_clone);
}

#[test]
fn docker_config_fills_secrets_in() {
    let mut settings = run_environment(SandboxProviderKind::Docker);
    settings.image.docker = Some("ubuntu:24.04".to_string());
    settings.env = vec![
        EnvSetting { key: "A".to_string(), value: vec![text("x-"), secret("KEY"), text("-y")] },
        EnvSetting { key: "B".to_string(), value: vec![secret("NONE")] },
    ];
    settings.resources.memory = Some(u64::MAX);
    let defaults = DockerSandboxOptions::default();
    let clone = RunCloneSettings { enabled: false, depth: Some(-1) };
    let known = vec![SecretValue { name: "KEY".to_string(), value: "s3cret".to_string() }];

    let missing = docker_config_from_environment_with_secrets(&settings, &clone, &defaults, &known)
        .expect_err("a secret is not known");
    assert_eq!(missing.name, "NONE");

    settings.env.pop();
    let options = docker_config_from_environment_with_secrets(&settings, &clone, &defaults, &known)
        .expect("all secrets are known");
    assert_eq!(options.env_vars, vec!["A=x-s3cret-y".to_string()]);
    assert_eq!(options.image, "ubuntu:24.04");
    assert_eq!(options.network_mode, None);
    assert_eq!(options.memory_limit, None);
    assert_eq!(options.clone_depth, None);
    assert!(options.skip_clone);
}

#[test]
fn aca_config_maps_region_resources_and_egress() {
    let mut settings = run_environment(SandboxProviderKind::Aca);
    settings.resources.cpu = Some(2);
    settings.resources.memory = Some(4_000_000_000);
    settings.aca = AcaEnvironmentSettings {
        region: Some("northeurope".to_string()),
        resource_group: Some("rg-fabro-sandboxes".to_string()),
        sandbox_group: Some("sbg-fabro".to_string()),
        disk: Some("ubuntu".to_string()),
        region_override: false,
        egress: AcaEgressSettings {
            allow: vec!["*.github.com".to_string(), "api.anthropic.com".to_string()],
            traffic_inspection: Some("Full".to_string()),
        },
        auto_suspend: None,
    };

    let config = aca_config_from_environment(&settings);

    assert_eq!(config.region, "northeurope");
    assert_eq!(config.resource_group, "rg-fabro-sandboxes");
    assert_eq!(config.sandbox_group, "sbg-fabro");
    assert_eq!(config.disk, "ubuntu");
    assert_eq!(config.cpu.as_deref(), Some("2000m"));
    assert_eq!(config.memory.as_deref(), Some("3815Mi"));
    assert_eq!(
        config.egress.rules,
        vec!["*.github.com".to_string(), "api.anthropic.com".to_string()]
    );
    assert_eq!(config.egress.traffic_inspection, "Full");
    assert_eq!(config.egress.default_action, "Deny");
    assert!(!config.region_override);
}

#[test]
fn aca_config_resources_are_k8s_units_that_round_trip_through_provider_parsers() {
    let mut settings = run_environment(SandboxProviderKind::Aca);
    settings.resources.cpu = Some(2);
    settings.resources.memory = Some(4 * 1024 * 1024 * 1024);

    let config = aca_config_from_environment(&settings);

    let cpu = config.cpu.expect("cpu should be set");
    let memory = config.memory.expect("memory should be set");

    assert_eq!(cpu, "2000m");
    assert_eq!(memory, "4096Mi");

    let millicpu: f64 = cpu
        .strip_suffix('m')
        .expect("cpu string should have the 'm' suffix parse_millicpu requires")
        .parse()
        .expect("millicpu portion should be numeric");
    assert_eq!(millicpu / 1000.0, 2.0);

    let mebibytes: u64 = memory
        .strip_suffix("Mi")
        .expect("memory string should have the 'Mi' suffix parse_mebibytes requires")
        .parse()
        .expect("mebibyte portion should be numeric");
    assert_eq!(mebibytes * 1024 * 1024, 4 * 1024 * 1024 * 1024);
    assert_eq!(parse_mebibytes(&memory), Some(4 * 1024 * 1024 * 1024));
}

#[test]
fn aca_config_defaults_disk_and_working_dir_when_unset() {
    let settings = run_environment(SandboxProviderKind::Aca);

    let config = aca_config_from_environment(&settings);

    assert_eq!(config.disk, "ubuntu");
    assert_eq!(config.working_dir, "/workspace");
    assert_eq!(config.egress.traffic_inspection, "Full");
    assert_eq!(config.cpu, None);
    assert_eq!(config.memory, None);
}

#[test]
fn aca_config_accepts_unknown_region_without_erroring() {
    let mut settings = run_environment(SandboxProviderKind::Aca);
    settings.aca = AcaEnvironmentSettings {
        region: Some("not-a-real-region".to_string()),
        ..AcaEnvironmentSettings::default()
    };

    let config = aca_config_from_environment(&settings);

    assert_eq!(config.region, "not-a-real-region");
}

#[test]
fn aca_config_honors_region_override() {
    let mut settings = run_environment(SandboxProviderKind::Aca);
    settings.aca = AcaEnvironmentSettings {
        region: Some("not-a-real-region".to_string()),
        region_override: true,
        ..AcaEnvironmentSettings::default()
    };

    let config = aca_config_from_environment(&settings);

    assert_eq!(config.region, "not-a-real-region");
    assert!(config.region_override);
}

#[test]
fn aca_region_helpers_classify_known_and_unknown_regions() {
    assert!(is_known_aca_region("northeurope"));
    assert!(is_known_aca_region("WESTUS2"));
    assert!(!is_known_aca_region("not-a-real-region"));

    validate_aca_region("not-a-real-region", false);
    validate_aca_region("not-a-real-region", true);
}

#[test]
fn region_warnings_are_due_for_unknown_regions_without_an_override() {
    assert!(validate_aca_region("not-a-real-region", false));
    assert!(!validate_aca_region("not-a-real-region", true));
    assert!(!validate_aca_region("SwedenCentral", false));
    assert!(validate_aca_region("", false));
    assert_eq!(aca_data_plane_regions().len(), 25);
}

#[test]
fn cpu_strings_are_millicpu() {
    assert_eq!(aca_cpu_string(2), "2000m");
    assert_eq!(aca_cpu_string(0), "0m");
    assert_eq!(aca_cpu_string(-1), "-1000m");
    assert_eq!(aca_cpu_string(i32::MAX), "2147483647000m");
}

#[test]
fn memory_strings_round_as_double_precision_does() {
    const MIB: f64 = (1024 * 1024) as f64;
    let mut samples: Vec<u64> = vec![
        0,
        1,
        524_287,
        524_288,
        524_289,
        1_048_576,
        4_000_000_000,
        4_294_967_296,
        u64::MAX,
        u64::MAX - 1024,
        (1u64 << 63) + (1 << 19) - 1,
    ];
    for shift in 52..64u32 {
        let base: u64 = 1 << shift;
        for d in [0u64, 1, 2, 3, 524_285, 524_286, 524_287, 524_288, 524_289, 1_048_575] {
            samples.push(base + d);
            samples.push(base + (base >> 1) + d);
            samples.push(base - d);
        }
    }
    for bytes in samples {
        let mib = (bytes as f64 / MIB).round() as u64;
        assert_eq!(aca_memory_string(bytes), format!("{}Mi", mib), "{}", bytes);
    }
}

#[test]
fn docker_variables_may_come_in_any_order() {
    let mut settings = run_environment(SandboxProviderKind::Docker);
    let one = |key: &str, value: &str| EnvSetting { key: key.to_string(), value: vec![text(value)] };
    let defaults = DockerSandboxOptions::default();
    let clone = RunCloneSettings::default();
    settings.env = vec![one("B", "2"), one("A", "1"), one("AA", "3")];
    let first = docker_config_from_environment(&settings, &clone, &defaults);
    settings.env = vec![one("AA", "3"), one("B", "2"), one("A", "1")];
    let second = docker_config_from_environment(&settings, &clone, &defaults);
    assert_eq!(first.env_vars, second.env_vars);
    assert_eq!(first.env_vars, vec!["A=1".to_string(), "AA=3".to_string(), "B=2".to_string()]);
}
