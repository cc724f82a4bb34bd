//! From the settings of a run's environment to the configuration of its sandbox.

use vstd::prelude::*;

use crate::aca::client::{host_rule, HostRuleView};
use crate::aca::command::{envs, EnvVar, EnvView};
use crate::aca::{AcaConfig, AcaEgressPolicy, ConfigView, EgressPolicyView};
use crate::decimal::{decimal, push_i64, push_u64, signed_decimal};
use crate::error::{Error, ErrorView};
use crate::provider::aca::{
    bytes_in, countable, effective_action, effective_inspection, egress_request, mebibytes, millicpu,
    written_rule,
};
use crate::settings::{
    DaytonaConfig, DaytonaNetwork, DaytonaSnapshotSettings, DaytonaSnapshotSource, DockerSandboxOptions,
    EnvSetting, EnvironmentNetworkMode, Label, RunCloneSettings, RunEnvironmentSettings, ValuePiece,
};
use crate::text::{
    clone_strings, clone_text, in_order, opt_text, run_before, run_before_is, same_but_for_case, same_text,
    sorted_strings, texts,
};

verus! {

/// The disk image of an ACA sandbox where none is set.
pub const DEFAULT_ACA_DISK: &'static str = "ubuntu";

/// The working directory of an ACA sandbox where none is set.
pub const DEFAULT_ACA_WORKING_DIR: &'static str = "/workspace";

/// How an ACA sandbox's traffic is inspected where nothing is set.
pub const DEFAULT_ACA_TRAFFIC_INSPECTION: &'static str = "Full";

// ---------------------------------------------------------------------------
// ACA
// ---------------------------------------------------------------------------

/// A number of cores as the data plane takes it.
pub open spec fn cpu_text(cpu: int) -> Seq<char> {
    signed_decimal(cpu * 1000) + "m"@
}

/// [`cpu_text`].
pub fn aca_cpu_string(cpu: i32) -> (r: String)
    ensures
        r@ == cpu_text(cpu as int),
{
    let mut out = String::new();
    push_i64(&mut out, (cpu as i64) * 1000);
    proof {
        assert(out@ =~= signed_decimal(cpu * 1000));
    }
    out.append("m");
    out
}

/// The distance between two neighbouring double-precision numbers, at a whole number: they hold
/// fifty-three binary digits, and every further one doubles the distance.
pub open spec fn double_spacing(n: nat) -> nat
    decreases n,
{
    if n < 0x20_0000_0000_0000 {
        1
    } else {
        2 * double_spacing(n / 2)
    }
}

/// The double-precision number next to a whole number; the one with an even significand where
/// two are equally near.
pub open spec fn nearest_double(n: nat) -> nat {
    let unit = double_spacing(n);
    let below = n / unit;
    let rest = n % unit;
    if 2 * rest < unit || (2 * rest == unit && below % 2 == 0) {
        below * unit
    } else {
        (below + 1) * unit
    }
}

/// The number of mebibytes next to a number of bytes; the greater one where two are equally
/// near.
pub open spec fn nearest_mebibytes(bytes: nat) -> nat {
    (bytes + 0x8_0000) / 0x10_0000
}

/// A number of bytes as the data plane takes it: the nearest number of mebibytes, found in
/// double precision.
pub open spec fn memory_text(bytes: nat) -> Seq<char> {
    decimal(nearest_mebibytes(nearest_double(bytes))) + "Mi"@
}

fn spacing(n: u64) -> (r: u64)
    ensures
        r == double_spacing(n as nat),
        0 < r <= 2048,
{
    proof {
        lemma_spacing(n as nat);
    }
    let mut rest: u64 = n;
    let mut unit: u64 = 1;
    while rest >= 0x20_0000_0000_0000
        invariant
            double_spacing(n as nat) == unit * double_spacing(rest as nat),
            double_spacing(n as nat) <= 2048,
            double_spacing(rest as nat) >= 1,
            unit >= 1,
        decreases rest,
    {
        proof {
            let half = double_spacing(rest as nat / 2);
            assert(double_spacing(rest as nat) == 2 * half);
            assert(unit * (2 * half) == (unit * 2) * half) by (nonlinear_arith);
            assert(unit * 2 <= (unit * 2) * half) by (nonlinear_arith)
                requires
                    half >= 1,
                    unit >= 1,
            ;
        }
        rest = rest / 2;
        unit = unit * 2;
    }
    proof {
        assert(double_spacing(rest as nat) == 1);
        assert(unit * 1 == unit);
    }
    unit
}

/// The distances below two to the sixty-fourth.
pub(crate) proof fn lemma_spacing(n: nat)
    requires
        n <= u64::MAX,
    ensures
        double_spacing(n) >= 1,
        n < 0x20_0000_0000_0000 ==> double_spacing(n) == 1,
        0x20_0000_0000_0000 <= n < 0x40_0000_0000_0000 ==> double_spacing(n) == 2,
        0x40_0000_0000_0000 <= n < 0x80_0000_0000_0000 ==> double_spacing(n) == 4,
        0x80_0000_0000_0000 <= n < 0x100_0000_0000_0000 ==> double_spacing(n) == 8,
        0x100_0000_0000_0000 <= n < 0x200_0000_0000_0000 ==> double_spacing(n) == 16,
        0x200_0000_0000_0000 <= n < 0x400_0000_0000_0000 ==> double_spacing(n) == 32,
        0x400_0000_0000_0000 <= n < 0x800_0000_0000_0000 ==> double_spacing(n) == 64,
        0x800_0000_0000_0000 <= n < 0x1000_0000_0000_0000 ==> double_spacing(n) == 128,
        0x1000_0000_0000_0000 <= n < 0x2000_0000_0000_0000 ==> double_spacing(n) == 256,
        0x2000_0000_0000_0000 <= n < 0x4000_0000_0000_0000 ==> double_spacing(n) == 512,
        0x4000_0000_0000_0000 <= n < 0x8000_0000_0000_0000 ==> double_spacing(n) == 1024,
        0x8000_0000_0000_0000 <= n ==> double_spacing(n) == 2048,
    decreases n,
{
    if n >= 0x20_0000_0000_0000 {
        lemma_spacing(n / 2);
    }
}

proof fn lemma_doubles_stay_near(n: nat)
    requires
        n <= u64::MAX,
    ensures
        n <= nearest_double(n) + 2048,
        nearest_double(n) <= n + 2048,
        nearest_double(n) <= 0x1_0000_0000_0000_0000,
{
    lemma_spacing(n);
    let unit = double_spacing(n);
    let below = n / unit;
    let rest = n % unit;
    vstd::arithmetic::div_mod::lemma_fundamental_div_mod(n as int, unit as int);
    assert((below + 1) * unit == below * unit + unit) by (nonlinear_arith);
    assert(unit * below == below * unit) by (nonlinear_arith);
    if unit == 2048 {
        assert(below <= 0x1f_ffff_ffff_ffff);
    } else {
        assert(n < 0x8000_0000_0000_0000);
    }
}

/// [`memory_text`].
pub fn aca_memory_string(bytes: u64) -> (r: String)
    ensures
        r@ == memory_text(bytes as nat),
{
    let unit: u64 = spacing(bytes);
    let below: u64 = bytes / unit;
    let rest: u64 = bytes % unit;
    proof {
        lemma_doubles_stay_near(bytes as nat);
        assert(below <= bytes);
        assert((below + 1) * unit == below * unit + unit) by (nonlinear_arith);
        vstd::arithmetic::div_mod::lemma_fundamental_div_mod(bytes as int, unit as int);
        assert(unit * below == below * unit) by (nonlinear_arith);
    }
    let low: u128 = (bytes - rest) as u128;
    let double: u128 = if 2 * rest < unit || (2 * rest == unit && below % 2 == 0) {
        low
    } else {
        low + (unit as u128)
    };
    proof {
        assert(double == nearest_double(bytes as nat));
    }
    let mib: u64 = ((double + 0x8_0000) / 0x10_0000) as u64;
    let mut out = String::new();
    push_u64(&mut out, mib);
    proof {
        assert(out@ =~= decimal(mib as nat));
    }
    out.append("Mi");
    out
}

/// The text that a setting gives, or the default where it gives none.
pub open spec fn set_or(value: Option<String>, default: Seq<char>) -> Seq<char> {
    match value {
        Some(v) => v@,
        None => default,
    }
}

fn value_or(value: &Option<String>, default: &str) -> (r: String)
    ensures
        r@ == set_or(*value, default@),
{
    match value {
        Some(v) => v.clone(),
        None => default.to_owned(),
    }
}

/// The ACA configuration of an environment. Traffic is denied by default, and the environment's
/// own list of domains is the only way out: see [`listed_domains_are_allowed`]. A region is taken as it is set, known or not.
pub open spec fn aca_config_of(settings: RunEnvironmentSettings) -> ConfigView {
    ConfigView {
        region: set_or(settings.aca.region, ""@),
        resource_group: set_or(settings.aca.resource_group, ""@),
        sandbox_group: set_or(settings.aca.sandbox_group, ""@),
        disk: set_or(settings.aca.disk, DEFAULT_ACA_DISK@),
        cpu: match settings.resources.cpu {
            Some(cpu) => Some(cpu_text(cpu as int)),
            None => None,
        },
        memory: match settings.resources.memory {
            Some(bytes) => Some(memory_text(bytes as nat)),
            None => None,
        },
        working_dir: set_or(settings.cwd, DEFAULT_ACA_WORKING_DIR@),
        egress: EgressPolicyView {
            default_action: "Deny"@,
            rules: texts(settings.aca.egress.allow@),
            traffic_inspection: set_or(
                settings.aca.egress.traffic_inspection,
                DEFAULT_ACA_TRAFFIC_INSPECTION@,
            ),
        },
        region_override: settings.aca.region_override,
    }
}

/// [`aca_config_of`]. The region may deserve a warning: see
/// [`crate::aca::validate_aca_region`].
pub fn aca_config_from_environment(settings: &RunEnvironmentSettings) -> (r: AcaConfig)
    ensures
        r@ == aca_config_of(*settings),
{
    let cpu = match settings.resources.cpu {
        Some(cpu) => Some(aca_cpu_string(cpu)),
        None => None,
    };
    let memory = match settings.resources.memory {
        Some(bytes) => Some(aca_memory_string(bytes)),
        None => None,
    };
    let r = AcaConfig {
        region: value_or(&settings.aca.region, ""),
        resource_group: value_or(&settings.aca.resource_group, ""),
        sandbox_group: value_or(&settings.aca.sandbox_group, ""),
        disk: value_or(&settings.aca.disk, DEFAULT_ACA_DISK),
        cpu,
        memory,
        working_dir: value_or(&settings.cwd, DEFAULT_ACA_WORKING_DIR),
        egress: AcaEgressPolicy {
            default_action: "Deny".to_owned(),
            rules: clone_strings(&settings.aca.egress.allow),
            traffic_inspection: value_or(
                &settings.aca.egress.traffic_inspection,
                DEFAULT_ACA_TRAFFIC_INSPECTION,
            ),
        },
        region_override: settings.aca.region_override,
    };
    proof {
        assert(r@ =~= aca_config_of(*settings));
    }
    r
}

// ---------------------------------------------------------------------------
// Daytona
// ---------------------------------------------------------------------------

/// A number, as far as 32 bits hold it.
pub open spec fn held_i32(n: nat) -> i32 {
    if n <= i32::MAX {
        n as i32
    } else {
        i32::MAX
    }
}

/// The whole minutes of a number of seconds.
pub fn duration_to_minutes_i32(seconds: u64) -> (r: i32)
    ensures
        r == held_i32(seconds as nat / 60),
{
    let minutes: u64 = seconds / 60;
    if minutes <= 0x7fff_ffff {
        minutes as i32
    } else {
        i32::MAX
    }
}

/// The whole gigabytes of a number of bytes.
pub fn size_to_gb_i32(bytes: u64) -> (r: i32)
    ensures
        r == held_i32(bytes as nat / 1_000_000_000),
{
    let gb: u64 = bytes / 1_000_000_000;
    if gb <= 0x7fff_ffff {
        gb as i32
    } else {
        i32::MAX
    }
}

/// The gigabytes of a size, where it is set.
pub open spec fn gigabytes(size: Option<u64>) -> Option<i32> {
    match size {
        Some(bytes) => Some(held_i32(bytes as nat / 1_000_000_000)),
        None => None,
    }
}

fn size_in_gb(size: Option<u64>) -> (r: Option<i32>)
    ensures
        r == gigabytes(size),
{
    match size {
        Some(bytes) => Some(size_to_gb_i32(bytes)),
        None => None,
    }
}

/// What an environment's snapshot is made from: an image where it names one, and a Dockerfile
/// otherwise.
pub open spec fn snapshot_source(settings: RunEnvironmentSettings) -> Option<DaytonaSnapshotSource> {
    match settings.image.docker {
        Some(image) => Some(DaytonaSnapshotSource::Image(image)),
        None => match settings.image.dockerfile {
            Some(dockerfile) => Some(DaytonaSnapshotSource::Dockerfile(dockerfile)),
            None => None,
        },
    }
}

fn clone_labels(v: &Vec<Label>) -> (r: Vec<Label>)
    ensures
        r@ == v@,
{
    let mut r: Vec<Label> = Vec::new();
    let mut i: usize = 0;
    while i < v.len()
        invariant
            i <= v@.len(),
            r@ == v@.take(i as int),
        decreases v@.len() - i,
    {
        r.push(v[i].clone());
        proof {
            assert(v@.take(i + 1) =~= v@.take(i as int).push(v@[i as int]));
        }
        i = i + 1;
    }
    proof {
        assert(v@.take(i as int) =~= v@);
    }
    r
}

/// The Daytona configuration of an environment.
pub fn daytona_config_from_environment(settings: &RunEnvironmentSettings, clone: &RunCloneSettings) -> (r:
    DaytonaConfig)
    ensures
        r.auto_stop_interval == match settings.lifecycle.auto_stop {
            Some(seconds) => Some(held_i32(seconds as nat / 60)),
            None => None,
        },
        match r.labels {
            Some(labels) => settings.labels@.len() > 0 && labels@ == settings.labels@,
            None => settings.labels@.len() == 0,
        },
        r.snapshot == match snapshot_source(*settings) {
            Some(source) => Some(
                DaytonaSnapshotSettings {
                    cpu: settings.resources.cpu,
                    memory: gigabytes(settings.resources.memory),
                    disk: gigabytes(settings.resources.disk),
                    source,
                },
            ),
            None => None,
        },
        match settings.network.mode {
            EnvironmentNetworkMode::Block => r.network == Some(DaytonaNetwork::Block),
            EnvironmentNetworkMode::AllowAll => r.network == Some(DaytonaNetwork::AllowAll),
            EnvironmentNetworkMode::CidrAllowList => r.network matches Some(
                DaytonaNetwork::AllowList(list),
            ) && list@ == settings.network.allow@,
        },
        r.clone_depth == clone.depth,
        r.skip_clone == !clone.enabled,
{
    let source = match &settings.image.docker {
        Some(image) => Some(DaytonaSnapshotSource::Image(image.clone())),
        None => match &settings.image.dockerfile {
            Some(dockerfile) => Some(DaytonaSnapshotSource::Dockerfile(dockerfile.clone())),
            None => None,
        },
    };
    let snapshot = match source {
        Some(source) => Some(
            DaytonaSnapshotSettings {
                cpu: settings.resources.cpu,
                memory: size_in_gb(settings.resources.memory),
                disk: size_in_gb(settings.resources.disk),
                source,
            },
        ),
        None => None,
    };
    DaytonaConfig {
        auto_stop_interval: match settings.lifecycle.auto_stop {
            Some(seconds) => Some(duration_to_minutes_i32(seconds)),
            None => None,
        },
        labels: if settings.labels.len() > 0 {
            Some(clone_labels(&settings.labels))
        } else {
            None
        },
        snapshot,
        network: Some(
            match settings.network.mode {
                EnvironmentNetworkMode::Block => DaytonaNetwork::Block,
                EnvironmentNetworkMode::AllowAll => DaytonaNetwork::AllowAll,
                EnvironmentNetworkMode::CidrAllowList => DaytonaNetwork::AllowList(
                    clone_strings(&settings.network.allow),
                ),
            },
        ),
        clone_depth: clone.depth_limit(),
        skip_clone: !clone.enabled,
    }
}

// ---------------------------------------------------------------------------
// Docker
// ---------------------------------------------------------------------------

/// A value in the form it was written in: references to secrets stay references.
pub open spec fn source_form(value: Seq<ValuePiece>) -> Seq<char>
    decreases value.len(),
{
    if value.len() == 0 {
        seq![]
    } else {
        source_form(value.drop_last()) + match value.last() {
            ValuePiece::Text(text) => text@,
            ValuePiece::Secret { source, .. } => source@,
        }
    }
}

/// A secret and its value.
#[derive(Debug)]
pub struct SecretValue {
    pub name: String,
    pub value: String,
}

/// The value of a secret, where it is known.
pub open spec fn secret_value(secrets: Seq<SecretValue>, name: Seq<char>) -> Option<Seq<char>>
    decreases secrets.len(),
{
    if secrets.len() == 0 {
        None
    } else if secrets[0].name@ == name {
        Some(secrets[0].value@)
    } else {
        secret_value(secrets.drop_first(), name)
    }
}

/// A value with its secrets filled in, or the first secret that is not known.
pub open spec fn resolved_form(value: Seq<ValuePiece>, secrets: Seq<SecretValue>) -> Result<
    Seq<char>,
    Seq<char>,
>
    decreases value.len(),
{
    if value.len() == 0 {
        Ok(seq![])
    } else {
        match resolved_form(value.drop_last(), secrets) {
            Err(name) => Err(name),
            Ok(front) => match value.last() {
                ValuePiece::Text(text) => Ok(front + text@),
                ValuePiece::Secret { name, .. } => match secret_value(secrets, name@) {
                    Some(secret) => Ok(front + secret),
                    None => Err(name@),
                },
            },
        }
    }
}

/// A reference to a secret that is not known.
#[derive(Debug)]
pub struct ResolveError {
    pub name: String,
}

fn as_source(value: &Vec<ValuePiece>) -> (r: String)
    ensures
        r@ == source_form(value@),
{
    let mut out = String::new();
    let mut i: usize = 0;
    proof {
        assert(value@.take(0) =~= seq![]);
        assert(out@ =~= seq![]);
    }
    while i < value.len()
        invariant
            i <= value@.len(),
            out@ == source_form(value@.take(i as int)),
        decreases value@.len() - i,
    {
        match &value[i] {
            ValuePiece::Text(text) => out.append(text.as_str()),
            ValuePiece::Secret { source, .. } => out.append(source.as_str()),
        }
        proof {
            assert(value@.take(i + 1).drop_last() =~= value@.take(i as int));
        }
        i = i + 1;
    }
    proof {
        assert(value@.take(i as int) =~= value@);
    }
    out
}

fn find_secret<'a>(secrets: &'a Vec<SecretValue>, name: &str) -> (r: Option<&'a str>)
    ensures
        match r {
            Some(value) => secret_value(secrets@, name@) == Some(value@),
            None => secret_value(secrets@, name@) is None,
        },
{
    let mut i: usize = 0;
    proof {
        assert(secrets@.skip(0) =~= secrets@);
    }
    while i < secrets.len()
        invariant
            i <= secrets@.len(),
            secret_value(secrets@.skip(i as int), name@) == secret_value(secrets@, name@),
        decreases secrets@.len() - i,
    {
        if same_text(secrets[i].name.as_str(), name) {
            return Some(secrets[i].value.as_str());
        }
        proof {
            assert(secrets@.skip(i as int).drop_first() =~= secrets@.skip(i + 1));
        }
        i = i + 1;
    }
    None
}

fn resolve_value(value: &Vec<ValuePiece>, secrets: &Vec<SecretValue>) -> (r: Result<
    String,
    ResolveError,
>)
    ensures
        match resolved_form(value@, secrets@) {
            Ok(text) => r is Ok && r->Ok_0@ == text,
            Err(name) => r is Err && r->Err_0.name@ == name,
        },
{
    let mut out = String::new();
    let mut i: usize = 0;
    proof {
        assert(value@.take(0) =~= seq![]);
        assert(out@ =~= seq![]);
    }
    while i < value.len()
        invariant
            i <= value@.len(),
            resolved_form(value@.take(i as int), secrets@) == Ok::<Seq<char>, Seq<char>>(out@),
        decreases value@.len() - i,
    {
        proof {
            assert(value@.take(i + 1).drop_last() =~= value@.take(i as int));
        }
        match &value[i] {
            ValuePiece::Text(text) => out.append(text.as_str()),
            ValuePiece::Secret { name, .. } => match find_secret(secrets, name.as_str()) {
                Some(secret) => out.append(secret),
                None => {
                    proof {
                        lemma_first_error_stays(value@, secrets@, i + 1, name@);
                    }
                    return Err(ResolveError { name: name.clone() });
                },
            },
        }
        i = i + 1;
    }
    proof {
        assert(value@.take(i as int) =~= value@);
    }
    Ok(out)
}

proof fn lemma_first_error_stays(
    value: Seq<ValuePiece>,
    secrets: Seq<SecretValue>,
    i: int,
    name: Seq<char>,
)
    requires
        0 <= i <= value.len(),
        resolved_form(value.take(i), secrets) == Err::<Seq<char>, Seq<char>>(name),
    ensures
        resolved_form(value, secrets) == Err::<Seq<char>, Seq<char>>(name),
    decreases value.len() - i,
{
    if i < value.len() {
        assert(value.take(i + 1).drop_last() =~= value.take(i));
        lemma_first_error_stays(value, secrets, i + 1, name);
    } else {
        assert(value.take(i) =~= value);
    }
}

/// The lines that set an environment's variables.
pub open spec fn env_lines(env: Seq<EnvView>) -> Seq<Seq<char>> {
    env.map_values(|e: EnvView| e.key + "="@ + e.value)
}

/// An environment with every value in the form it was written in.
pub open spec fn source_env(env: Seq<EnvSetting>) -> Seq<EnvView> {
    env.map_values(|e: EnvSetting| EnvView { key: e.key@, value: source_form(e.value@) })
}

/// Whether `options` are those of an environment whose variables are `env`, with `defaults` for
/// what the environment does not speak of. The variables are in order.
pub open spec fn docker_options_of(
    options: DockerSandboxOptions,
    settings: RunEnvironmentSettings,
    clone: RunCloneSettings,
    defaults: DockerSandboxOptions,
    env: Seq<EnvView>,
) -> bool {
    &&& options.image@ == set_or(settings.image.docker, defaults.image@)
    &&& opt_text(options.network_mode) == if settings.network.mode == EnvironmentNetworkMode::Block {
        Some("none"@)
    } else {
        opt_text(defaults.network_mode)
    }
    &&& options.memory_limit == match settings.resources.memory {
        Some(bytes) => if bytes <= i64::MAX {
            Some(bytes as i64)
        } else {
            None
        },
        None => None,
    }
    &&& options.cpu_quota == match settings.resources.cpu {
        Some(cpu) => Some((cpu * 100_000) as i64),
        None => None,
    }
    &&& in_order(texts(options.env_vars@))
    &&& texts(options.env_vars@).to_multiset() == env_lines(env).to_multiset()
    &&& options.clone_depth == match clone.depth {
        Some(depth) => if 0 <= depth <= usize::MAX {
            Some(depth as usize)
        } else {
            None
        },
        None => None,
    }
    &&& options.skip_clone == !clone.enabled
}

fn lines_of_env(env: &Vec<EnvVar>) -> (r: Vec<String>)
    ensures
        texts(r@) == env_lines(envs(env@)),
{
    let mut r: Vec<String> = Vec::new();
    let mut i: usize = 0;
    while i < env.len()
        invariant
            i <= env@.len(),
            r@.len() == i,
            forall|j: int|
                0 <= j < i ==> (#[trigger] r@[j])@ == env@[j].key@ + "="@ + env@[j].value@,
        decreases env@.len() - i,
    {
        let mut line = env[i].key.clone();
        line.append("=");
        line.append(env[i].value.as_str());
        r.push(line);
        i = i + 1;
    }
    proof {
        assert(texts(r@) =~= env_lines(envs(env@)));
    }
    r
}

fn docker_config_from_environment_env(
    settings: &RunEnvironmentSettings,
    clone: &RunCloneSettings,
    defaults: &DockerSandboxOptions,
    env: &Vec<EnvVar>,
) -> (r: DockerSandboxOptions)
    ensures
        docker_options_of(r, *settings, *clone, *defaults, envs(env@)),
{
    let lines = lines_of_env(env);
    DockerSandboxOptions {
        image: value_or(&settings.image.docker, defaults.image.as_str()),
        network_mode: match settings.network.mode {
            EnvironmentNetworkMode::Block => Some("none".to_owned()),
            _ => clone_text(&defaults.network_mode),
        },
        memory_limit: match settings.resources.memory {
            Some(bytes) => if bytes <= 0x7fff_ffff_ffff_ffff {
                Some(bytes as i64)
            } else {
                None
            },
            None => None,
        },
        cpu_quota: match settings.resources.cpu {
            Some(cpu) => Some((cpu as i64) * 100_000),
            None => None,
        },
        env_vars: sorted_strings(&lines),
        clone_depth: match clone.depth_limit() {
            Some(depth) => if depth >= 0 && (depth as u64) <= (usize::MAX as u64) {
                Some(depth as usize)
            } else {
                None
            },
            None => None,
        },
        skip_clone: !clone.enabled,
    }
}

/// The Docker options of an environment where no secrets can be looked up: references to them
/// stay in the form they were written in.
pub fn docker_config_from_environment(
    settings: &RunEnvironmentSettings,
    clone: &RunCloneSettings,
    defaults: &DockerSandboxOptions,
) -> (r: DockerSandboxOptions)
    ensures
        docker_options_of(r, *settings, *clone, *defaults, source_env(settings.env@)),
{
    let mut env: Vec<EnvVar> = Vec::new();
    let mut i: usize = 0;
    while i < settings.env.len()
        invariant
            i <= settings.env@.len(),
            env@.len() == i,
            forall|j: int|
                0 <= j < i ==> (#[trigger] env@[j])@ == (EnvView {
                    key: settings.env@[j].key@,
                    value: source_form(settings.env@[j].value@),
                }),
        decreases settings.env@.len() - i,
    {
        env.push(
            EnvVar {
                key: settings.env[i].key.clone(),
                value: as_source(&settings.env[i].value),
            },
        );
        i = i + 1;
    }
    proof {
        assert(envs(env@) =~= source_env(settings.env@));
    }
    docker_config_from_environment_env(settings, clone, defaults, &env)
}

/// Whether `env` is the environment with every secret filled in.
pub open spec fn is_resolved_env(
    env: Seq<EnvView>,
    settings: Seq<EnvSetting>,
    secrets: Seq<SecretValue>,
) -> bool {
    &&& env.len() == settings.len()
    &&& forall|i: int|
        0 <= i < env.len() ==> (#[trigger] env[i]).key == settings[i].key@ && resolved_form(
            settings[i].value@,
            secrets,
        ) == Ok::<Seq<char>, Seq<char>>(env[i].value)
}

/// The Docker options of an environment with its secrets filled in; fails exactly where one of
/// them is not known, with the first that is not.
pub fn docker_config_from_environment_with_secrets(
    settings: &RunEnvironmentSettings,
    clone: &RunCloneSettings,
    defaults: &DockerSandboxOptions,
    secrets: &Vec<SecretValue>,
) -> (r: Result<DockerSandboxOptions, ResolveError>)
    ensures
        match r {
            Ok(options) => exists|env: Seq<EnvView>|
                #![trigger is_resolved_env(env, settings.env@, secrets@)]
                is_resolved_env(env, settings.env@, secrets@) && docker_options_of(
                    options,
                    *settings,
                    *clone,
                    *defaults,
                    env,
                ),
            Err(e) => exists|i: int|
                #![trigger settings.env@[i]]
                {
                    &&& 0 <= i < settings.env@.len()
                    &&& resolved_form(settings.env@[i].value@, secrets@) == Err::<
                        Seq<char>,
                        Seq<char>,
                    >(e.name@)
                    &&& forall|j: int|
                        0 <= j < i ==> resolved_form(
                            (#[trigger] settings.env@[j]).value@,
                            secrets@,
                        ) is Ok
                },
        },
{
    let mut env: Vec<EnvVar> = Vec::new();
    let mut i: usize = 0;
    while i < settings.env.len()
        invariant
            i <= settings.env@.len(),
            env@.len() == i,
            forall|j: int|
                0 <= j < i ==> (#[trigger] env@[j]).key@ == settings.env@[j].key@ && resolved_form(
                    settings.env@[j].value@,
                    secrets@,
                ) == Ok::<Seq<char>, Seq<char>>(env@[j].value@),
        decreases settings.env@.len() - i,
    {
        match resolve_value(&settings.env[i].value, secrets) {
            Ok(value) => env.push(EnvVar { key: settings.env[i].key.clone(), value }),
            Err(e) => {
                proof {
                    assert forall|j: int| 0 <= j < i implies resolved_form(
                        (#[trigger] settings.env@[j]).value@,
                        secrets@,
                    ) is Ok by {
                        assert(env@[j].key@ == settings.env@[j].key@);
                    }
                }
                return Err(e);
            },
        }
        i = i + 1;
    }
    proof {
        assert forall|j: int| 0 <= j < envs(env@).len() implies (#[trigger] envs(env@)[j]).key
            == settings.env@[j].key@ && resolved_form(settings.env@[j].value@, secrets@) == Ok::<
            Seq<char>,
            Seq<char>,
        >(envs(env@)[j].value) by {
            assert(envs(env@)[j] == env@[j]@);
        }
        assert(is_resolved_env(envs(env@), settings.env@, secrets@));
    }
    Ok(docker_config_from_environment_env(settings, clone, defaults, &env))
}

// ---------------------------------------------------------------------------
// Local
// ---------------------------------------------------------------------------

/// A directory that a run's sources are said to be in, and whether there is a directory.
#[derive(Debug)]
pub struct SourceDirectory {
    pub path: String,
    pub is_dir: bool,
}

/// The directory of a local run: the configured one, as it is, and otherwise the one that the
/// sources are in, where it is there.
pub fn local_working_directory_from_environment(
    settings: &RunEnvironmentSettings,
    source_directory: Option<&SourceDirectory>,
) -> (r: Result<String, Error>)
    ensures
        match settings.cwd {
            Some(cwd) => r == Ok::<String, Error>(cwd),
            None => match source_directory {
                None => r is Err && r->Err_0@ == ErrorView::Message(
                    "local environment requires a server-side working directory; configure `environment.cwd = \"/absolute/path\"` on the selected local environment"@,
                ),
                Some(source) => if source.is_dir {
                    r == Ok::<String, Error>(source.path)
                } else {
                    r is Err && r->Err_0@ == ErrorView::Message(
                        "local environment source_directory does not exist or is not a directory on this server: "@
                            + source.path@
                            + ". Configure `environment.cwd = \"/absolute/path\"` on the selected local environment for remote client/server deployments."@,
                    )
                },
            },
        },
{
    if let Some(cwd) = &settings.cwd {
        return Ok(cwd.clone());
    }
    match source_directory {
        None => Err(
            Error::message(
                "local environment requires a server-side working directory; configure `environment.cwd = \"/absolute/path\"` on the selected local environment",
            ),
        ),
        Some(source) => if source.is_dir {
            Ok(source.path.clone())
        } else {
            let mut message =
                "local environment source_directory does not exist or is not a directory on this server: ".to_owned();
            message.append(source.path.as_str());
            message.append(
                ". Configure `environment.cwd = \"/absolute/path\"` on the selected local environment for remote client/server deployments.",
            );
            Err(Error::Message(message))
        },
    }
}

// ---------------------------------------------------------------------------
// Laws
// ---------------------------------------------------------------------------

proof fn lemma_spacing_divides_mebibytes(bytes: nat, unit: nat)
    requires
        bytes <= u64::MAX,
        bytes % 0x10_0000 == 0,
        unit == double_spacing(bytes),
    ensures
        unit > 0,
        bytes % unit == 0,
{
    lemma_spacing(bytes);
    let q = bytes / 0x10_0000;
    let k = 0x10_0000nat / unit;
    assert(k * unit == 0x10_0000);
    assert(bytes == (q * k) * unit) by (nonlinear_arith)
        requires
            bytes == q * 0x10_0000,
            k * unit == 0x10_0000,
    ;
    vstd::arithmetic::div_mod::lemma_mod_multiples_basic((q * k) as int, unit as int);
}

proof fn lemma_whole_mebibytes_are_doubles(bytes: nat)
    requires
        bytes <= u64::MAX,
        bytes % 0x10_0000 == 0,
    ensures
        nearest_double(bytes) == bytes,
{
    let unit = double_spacing(bytes);
    lemma_spacing_divides_mebibytes(bytes, unit);
    vstd::arithmetic::div_mod::lemma_fundamental_div_mod(bytes as int, unit as int);
    let below = bytes / unit;
    assert(unit * below == below * unit) by (nonlinear_arith);
}

proof fn lemma_greatest_countable(bytes: nat)
    requires
        bytes <= u64::MAX,
    ensures
        nearest_mebibytes(nearest_double(bytes)) * 0x10_0000 <= u64::MAX <==> bytes
            < 0xffff_ffff_fff7_fc00,
{
    lemma_doubles_stay_near(bytes);
    lemma_spacing(bytes);
    if bytes >= 0x8000_0000_0000_0000 {
        let unit = double_spacing(bytes);
        assert(unit == 2048);
        assert(bytes / unit == bytes / 2048 && bytes % unit == bytes % 2048);
        let below = bytes / 2048;
        assert(below * unit == below * 2048);
        assert((below + 1) * unit == (below + 1) * 2048);
    }
}

/// The provider's own reader of memory sizes reads back what is written for it, whatever the
/// number of bytes; a whole number of mebibytes comes back exactly. Only a number within about
/// half a mebibyte of two to the sixty-fourth is rounded to more bytes than can be counted.
pub proof fn memory_text_reads_back(bytes: nat)
    requires
        bytes <= u64::MAX,
    ensures
        mebibytes(memory_text(bytes)) == Some(nearest_mebibytes(nearest_double(bytes))),
        countable(memory_text(bytes)) <==> bytes < 0xffff_ffff_fff7_fc00,
        countable(memory_text(bytes)) ==> bytes_in(memory_text(bytes)) == Some(
            (nearest_mebibytes(nearest_double(bytes)) * 0x10_0000) as u64,
        ),
        bytes % 0x10_0000 == 0 ==> bytes_in(memory_text(bytes)) == Some(bytes as u64),
{
    reveal_strlit("Mi");
    let n = nearest_mebibytes(nearest_double(bytes));
    let text = memory_text(bytes);
    lemma_doubles_stay_near(bytes);
    crate::decimal::numeral_reads_back(n);
    assert(text.subrange(text.len() - 2, text.len() as int) =~= "Mi"@);
    assert(text.take(text.len() - 2) =~= decimal(n));
    lemma_greatest_countable(bytes);
    if bytes % 0x10_0000 == 0 {
        lemma_whole_mebibytes_are_doubles(bytes);
        assert(n == bytes / 0x10_0000);
        assert(n * 0x10_0000 == bytes);
    }
}

/// What is written is near what was asked for: within half a mebibyte, and the rounding of
/// large numbers to double precision.
pub proof fn memory_text_is_near(bytes: nat)
    requires
        bytes <= u64::MAX,
    ensures
        ({
            let written = nearest_mebibytes(nearest_double(bytes)) * 0x10_0000;
            &&& written <= bytes + 0x8_0000 + 2048
            &&& bytes <= written + 0x8_0000 + 2048
        }),
        bytes < 0x20_0000_0000_0000 ==> nearest_double(bytes) == bytes,
{
    lemma_doubles_stay_near(bytes);
    if bytes < 0x20_0000_0000_0000 {
        assert(double_spacing(bytes) == 1);
        assert(bytes % 1 == 0);
        assert(bytes / 1 == bytes);
    }
}

/// The provider's own reader of processor shares, too, reads back what is written for it.
pub proof fn cpu_text_reads_back(cpu: int)
    ensures
        millicpu(cpu_text(cpu)) == Some(signed_decimal(cpu * 1000)),
{
    reveal_strlit("m");
    let text = cpu_text(cpu);
    crate::decimal::numeral_reads_back(
        if cpu < 0 {
            (-(cpu * 1000)) as nat
        } else {
            (cpu * 1000) as nat
        },
    );
    assert(text.subrange(text.len() - 1, text.len() as int) =~= "m"@);
    assert(text.take(text.len() - 1) =~= signed_decimal(cpu * 1000));
}

/// Every ACA sandbox of an environment denies traffic by default, and the environment's domains
/// are the only rules.
pub proof fn environments_deny_by_default(settings: RunEnvironmentSettings)
    ensures
        aca_config_of(settings).egress.default_action == "Deny"@,
        aca_config_of(settings).egress.rules == texts(settings.aca.egress.allow@),
        effective_inspection(aca_config_of(settings).egress) == "Full"@,
{
    reveal_strlit("Deny");
    reveal_strlit("deny");
    let action = "Deny"@;
    assert(same_but_for_case(action, "deny"@));
}

proof fn lemma_same_variables_same_lines(a: Seq<EnvView>, b: Seq<EnvView>)
    requires
        a.to_multiset() == b.to_multiset(),
    ensures
        env_lines(a).to_multiset() == env_lines(b).to_multiset(),
    decreases a.len(),
{
    broadcast use vstd::seq_lib::group_to_multiset_ensures;

    assert(a.len() == a.to_multiset().len());
    assert(b.len() == b.to_multiset().len());
    if a.len() == 0 {
        assert(env_lines(a) =~= env_lines(b));
    } else {
        let n = a.len() - 1;
        let e = a[n];
        assert(a.contains(e));
        assert(b.to_multiset().count(e) > 0);
        assert(b.contains(e));
        let i = choose|i: int| 0 <= i < b.len() && b[i] == e;
        let x = a.remove(n);
        let y = b.remove(i);
        assert(x.to_multiset() == a.to_multiset().remove(e));
        assert(y.to_multiset() == b.to_multiset().remove(e));
        lemma_same_variables_same_lines(x, y);
        assert(env_lines(a).remove(n) =~= env_lines(x));
        assert(env_lines(b).remove(i) =~= env_lines(y));
        let line = env_lines(a)[n];
        assert(env_lines(b)[i] == line);
        assert(env_lines(a).contains(line));
        assert(env_lines(b).contains(line));
        assert(env_lines(a).to_multiset() =~= env_lines(x).to_multiset().insert(line));
        assert(env_lines(b).to_multiset() =~= env_lines(y).to_multiset().insert(line));
    }
}

/// The order in which an environment's variables are handed over does not matter: the same
/// variables give the same Docker options.
pub proof fn docker_env_order_is_immaterial(
    a: DockerSandboxOptions,
    b: DockerSandboxOptions,
    settings: RunEnvironmentSettings,
    clone: RunCloneSettings,
    defaults: DockerSandboxOptions,
    env_a: Seq<EnvView>,
    env_b: Seq<EnvView>,
)
    requires
        docker_options_of(a, settings, clone, defaults, env_a),
        docker_options_of(b, settings, clone, defaults, env_b),
        env_a.to_multiset() == env_b.to_multiset(),
    ensures
        a.image@ == b.image@,
        opt_text(a.network_mode) == opt_text(b.network_mode),
        a.memory_limit == b.memory_limit,
        a.cpu_quota == b.cpu_quota,
        texts(a.env_vars@) == texts(b.env_vars@),
        a.clone_depth == b.clone_depth,
        a.skip_clone == b.skip_clone,
{
    lemma_same_variables_same_lines(env_a, env_b);
    crate::text::one_order(texts(a.env_vars@), texts(b.env_vars@));
}

proof fn lemma_allowed_rule(domain: Seq<char>, action: Seq<char>)
    requires
        !domain.contains(':'),
    ensures
        run_before(domain, ':') == domain.len(),
        run_before(domain + ":Allow"@, ':') < (domain + ":Allow"@).len(),
        host_rule(domain + ":Allow"@, action) == (HostRuleView {
            action: "Allow"@,
            pattern: domain,
        }),
{
    reveal_strlit(":Allow");
    reveal_strlit("Allow");
    let rule = domain + ":Allow"@;
    assert forall|j: int| 0 <= j < domain.len() implies #[trigger] domain[j] != ':' by {
        assert(domain.contains(domain[j]));
    }
    run_before_is(domain, ':', domain.len());
    assert forall|j: int| 0 <= j < domain.len() implies #[trigger] rule[j] != ':' by {
        assert(rule[j] == domain[j]);
    }
    assert(rule[domain.len() as int] == ':');
    run_before_is(rule, ':', domain.len());
    assert(rule.take(domain.len() as int) =~= domain);
    assert(rule.skip(domain.len() as int + 1) =~= "Allow"@);
}

/// A domain on an environment's list is let out of the sandbox, which denies everything else:
/// the sandbox's policy allows it, whether it is listed as a bare domain or with `:Allow` behind
/// it. There is one rule for each entry, and no other.
pub proof fn listed_domains_are_allowed(
    settings: RunEnvironmentSettings,
    i: int,
    domain: Seq<char>,
)
    requires
        0 <= i < settings.aca.egress.allow@.len(),
        settings.aca.egress.allow@[i]@ == domain || settings.aca.egress.allow@[i]@ == domain
            + ":Allow"@,
        !domain.contains(':'),
    ensures
        ({
            let request = egress_request(aca_config_of(settings).egress);
            &&& request.default_action == "Deny"@
            &&& request.host_rules.len() == settings.aca.egress.allow@.len()
            &&& request.host_rules[i] == (HostRuleView { action: "Allow"@, pattern: domain })
        }),
{
    reveal_strlit("Deny");
    reveal_strlit("deny");
    let policy = aca_config_of(settings).egress;
    let action = effective_action(policy);
    let rule = settings.aca.egress.allow@[i]@;
    assert(same_but_for_case(action, "deny"@));
    lemma_allowed_rule(domain, action);
    assert(policy.rules[i] == rule);
    assert(written_rule(rule, action) == domain + ":Allow"@);
    assert(egress_request(policy).host_rules[i] == host_rule(written_rule(rule, action), action));
}

} // verus!
