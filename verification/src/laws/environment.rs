//! From the settings of an environment to the configuration of its sandbox.

use vstd::prelude::*;

use crate::aca::command::EnvView;
use crate::decimal::decimal;
use crate::from_environment::{
    aca_config_of, cpu_text, docker_options_of, double_spacing, env_lines, gigabytes, held_i32,
    is_resolved_env, lemma_spacing, memory_text, nearest_double, nearest_mebibytes, resolved_form,
    secret_value, snapshot_source, source_env, source_form, SecretValue,
};
use crate::settings::{
    DaytonaSnapshotSource, DockerSandboxOptions, EnvSetting, EnvironmentNetworkMode, RunCloneSettings,
    RunEnvironmentSettings, ValuePiece,
};
use crate::text::{texts, text_at_most};

verus! {

// ---------------------------------------------------------------------------
// ACA
// ---------------------------------------------------------------------------

/// Whatever is set for an ACA sandbox is taken over as it is set: the directory, the region, the
/// groups, the disk, the inspection of traffic, and whether an unknown region is meant. Where
/// nothing is set, the region and the groups are empty, the directory is `/workspace`, the disk is
/// `ubuntu`, and traffic is inspected in full.
pub proof fn settings_are_taken_over(settings: RunEnvironmentSettings)
    ensures
        ({
            let config = aca_config_of(settings);
            &&& settings.cwd matches Some(dir) ==> config.working_dir == dir@
            &&& settings.cwd is None ==> config.working_dir == "/workspace"@
            &&& settings.aca.region matches Some(region) ==> config.region == region@
            &&& settings.aca.region is None ==> config.region == ""@
            &&& settings.aca.resource_group matches Some(group) ==> config.resource_group == group@
            &&& settings.aca.resource_group is None ==> config.resource_group == ""@
            &&& settings.aca.sandbox_group matches Some(group) ==> config.sandbox_group == group@
            &&& settings.aca.sandbox_group is None ==> config.sandbox_group == ""@
            &&& settings.aca.disk matches Some(disk) ==> config.disk == disk@
            &&& settings.aca.disk is None ==> config.disk == "ubuntu"@
            &&& settings.aca.egress.traffic_inspection matches Some(inspection)
                ==> config.egress.traffic_inspection == inspection@
            &&& settings.aca.egress.traffic_inspection is None ==> config.egress.traffic_inspection
                == "Full"@
            &&& config.region_override == settings.aca.region_override
            &&& config.egress.default_action == "Deny"@
            &&& config.egress.rules.len() == settings.aca.egress.allow@.len()
            &&& forall|i: int|
                0 <= i < settings.aca.egress.allow@.len() ==> #[trigger] config.egress.rules[i]
                    == settings.aca.egress.allow@[i]@
        }),
{
}

/// Resources are configured exactly where they are set. Cores are written in thousandths; memory
/// is written in mebibytes, rounded to the nearest, and up where two are equally near: exactly so
/// below two to the fifty-third bytes, and above that as near as double precision holds the number.
pub proof fn set_resources_are_taken_over(settings: RunEnvironmentSettings)
    ensures
        ({
            let config = aca_config_of(settings);
            &&& settings.resources.cpu is None ==> config.cpu is None
            &&& settings.resources.cpu matches Some(cpu) ==> config.cpu == Some(
                if cpu >= 0 {
                    decimal((cpu * 1000) as nat) + "m"@
                } else {
                    "-"@ + decimal((-cpu * 1000) as nat) + "m"@
                },
            )
            &&& settings.resources.memory is None ==> config.memory is None
            &&& settings.resources.memory matches Some(bytes) ==> {
                &&& config.memory == Some(
                    decimal(nearest_mebibytes(nearest_double(bytes as nat))) + "Mi"@,
                )
                &&& bytes < 0x20_0000_0000_0000 ==> exists|mib: nat|
                    config.memory == Some(#[trigger] decimal(mib) + "Mi"@) && mib * 1048576
                        <= bytes + 524288 < (mib + 1) * 1048576
            }
        }),
{
    reveal_strlit("-");
    if let Some(cpu) = settings.resources.cpu {
        if cpu < 0 {
            assert(cpu_text(cpu as int) =~= "-"@ + decimal((-cpu * 1000) as nat) + "m"@) by {
                assert(seq!['-'] =~= "-"@);
                assert(-(cpu * 1000) == -cpu * 1000);
            }
        }
    }
    if let Some(bytes) = settings.resources.memory {
        if bytes < 0x20_0000_0000_0000 {
            crate::from_environment::memory_text_is_near(bytes as nat);
            let mib = nearest_mebibytes(bytes as nat);
            assert(memory_text(bytes as nat) == decimal(mib) + "Mi"@);
            assert(mib * 1048576 <= bytes + 524288 < (mib + 1) * 1048576);
        }
    }
}

/// The double-precision number that stands for a whole number is a multiple of the distance
/// between such numbers there, no further than half that distance away, and even where two are
/// equally near.
pub proof fn doubles_are_the_nearest(n: nat)
    requires
        n <= u64::MAX,
    ensures
        ({
            let unit = double_spacing(n);
            let double = nearest_double(n);
            &&& unit > 0
            &&& double % unit == 0
            &&& 2 * (double - n) <= unit
            &&& 2 * (n - double) <= unit
            &&& 2 * (double - n) == unit || 2 * (n - double) == unit ==> (double / unit) % 2 == 0
        }),
{
    lemma_spacing(n);
    let unit = double_spacing(n);
    let below = n / unit;
    let rest = n % unit;
    vstd::arithmetic::div_mod::lemma_fundamental_div_mod(n as int, unit as int);
    assert(unit * below == below * unit) by (nonlinear_arith);
    assert((below + 1) * unit == below * unit + unit) by (nonlinear_arith);
    vstd::arithmetic::div_mod::lemma_mod_multiples_basic(below as int, unit as int);
    vstd::arithmetic::div_mod::lemma_mod_multiples_basic((below + 1) as int, unit as int);
    vstd::arithmetic::div_mod::lemma_div_by_multiple(below as int, unit as int);
    vstd::arithmetic::div_mod::lemma_div_by_multiple((below + 1) as int, unit as int);
}

/// The distance between double-precision numbers: one where fifty-three binary digits are enough,
/// and twice as much for every further digit.
pub proof fn doubles_hold_fifty_three_digits(n: nat)
    requires
        n <= u64::MAX,
    ensures
        n < 0x20_0000_0000_0000 ==> double_spacing(n) == 1,
        0x20_0000_0000_0000 <= n < 0x40_0000_0000_0000 ==> double_spacing(n) == 2,
        0x40_0000_0000_0000 <= n < 0x80_0000_0000_0000 ==> double_spacing(n) == 4,
        0x80_0000_0000_0000 <= n < 0x100_0000_0000_0000 ==> double_spacing(n) == 8,
        0x100_0000_0000_0000 <= n < 0x200_0000_0000_0000 ==> double_spacing(n) == 16,
        0x200_0000_0000_0000 <= n < 0x400_0000_0000_0000 ==> double_spacing(n) == 32,
        0x400_0000_0000_0000 <= n < 0x800_0000_0000_0000 ==> double_spacing(n) == 64,
        0x800_0000_0000_0000 <= n < 0x1000_0000_0000_0000 ==> double_spacing(n) == 128,
        0x1000_0000_0000_0000 <= n < 0x2000_0000_0000_0000 ==> double_spacing(n) == 256,
        0x2000_0000_0000_0000 <= n < 0x4000_0000_0000_0000 ==> double_spacing(n) == 512,
        0x4000_0000_0000_0000 <= n < 0x8000_0000_0000_0000 ==> double_spacing(n) == 1024,
        0x8000_0000_0000_0000 <= n ==> double_spacing(n) == 2048,
{
    lemma_spacing(n);
}

/// The number of mebibytes next to a number of bytes is no further than half a mebibyte away, and
/// the greater one where two are equally near.
pub proof fn mebibytes_are_the_nearest(bytes: nat)
    ensures
        nearest_mebibytes(bytes) * 1048576 <= bytes + 524288,
        bytes + 524288 < (nearest_mebibytes(bytes) + 1) * 1048576,
{
}

// ---------------------------------------------------------------------------
// Daytona
// ---------------------------------------------------------------------------

/// A number stays what it is as far as 32 bits hold it, and is the greatest such number beyond.
pub proof fn numbers_are_held_as_far_as_they_can_be(n: nat)
    ensures
        n <= 0x7fff_ffff ==> held_i32(n) == n,
        n > 0x7fff_ffff ==> held_i32(n) == 0x7fff_ffff,
{
}

/// A size in gigabytes is the whole ones of its bytes, where it is set.
pub proof fn sizes_are_whole_gigabytes(size: Option<u64>)
    ensures
        size is None ==> gigabytes(size) is None,
        size matches Some(bytes) ==> (gigabytes(size) matches Some(gb) && if bytes
            < 0x8000_0000 * 1_000_000_000 {
            gb * 1_000_000_000 <= bytes < (gb + 1) * 1_000_000_000
        } else {
            gb == 0x7fff_ffff
        }),
{
}

/// A snapshot is made from the image where the environment names one, from the Dockerfile where it
/// names only that, and from nothing where it names neither.
pub proof fn snapshots_are_made_from_what_is_named(settings: RunEnvironmentSettings)
    ensures
        settings.image.docker matches Some(image) ==> snapshot_source(settings) == Some(
            DaytonaSnapshotSource::Image(image),
        ),
        settings.image.docker is None ==> match settings.image.dockerfile {
            Some(dockerfile) => snapshot_source(settings) == Some(
                DaytonaSnapshotSource::Dockerfile(dockerfile),
            ),
            None => snapshot_source(settings) is None,
        },
{
}

// ---------------------------------------------------------------------------
// Docker
// ---------------------------------------------------------------------------

/// A value as it was written is its pieces as they were written, one after the other.
pub proof fn values_are_written_piece_by_piece(
    front: Seq<ValuePiece>,
    piece: ValuePiece,
    back: Seq<ValuePiece>,
)
    ensures
        source_form(Seq::<ValuePiece>::empty()).len() == 0,
        source_form(seq![piece]) == match piece {
            ValuePiece::Text(text) => text@,
            ValuePiece::Secret { source, .. } => source@,
        },
        source_form(front + back) == source_form(front) + source_form(back),
    decreases back.len(),
{
    reveal_with_fuel(source_form, 2);
    assert(seq![piece].drop_last() =~= seq![]);
    assert(source_form(seq![piece]) =~= match piece {
        ValuePiece::Text(text) => text@,
        ValuePiece::Secret { source, .. } => source@,
    });
    if back.len() == 0 {
        assert(front + back =~= front);
        assert(source_form(front) + source_form(back) =~= source_form(front));
    } else {
        assert((front + back).drop_last() =~= front + back.drop_last());
        assert((front + back).last() == back.last());
        values_are_written_piece_by_piece(front, piece, back.drop_last());
        assert(source_form(front + back) =~= source_form(front) + source_form(back));
    }
}

/// A value with its secrets filled in is its pieces, one after the other: a text as it is, and the
/// value of a secret in place of its name. The first secret that is not known is told.
pub proof fn values_are_filled_in_piece_by_piece(
    front: Seq<ValuePiece>,
    piece: ValuePiece,
    back: Seq<ValuePiece>,
    secrets: Seq<SecretValue>,
)
    ensures
        resolved_form(Seq::<ValuePiece>::empty(), secrets) == Ok::<Seq<char>, Seq<char>>(seq![]),
        match piece {
            ValuePiece::Text(text) => resolved_form(seq![piece], secrets) == Ok::<
                Seq<char>,
                Seq<char>,
            >(text@),
            ValuePiece::Secret { name, .. } => resolved_form(seq![piece], secrets)
                == match secret_value(secrets, name@) {
                Some(value) => Ok::<Seq<char>, Seq<char>>(value),
                None => Err::<Seq<char>, Seq<char>>(name@),
            },
        },
        match resolved_form(front, secrets) {
            Err(name) => resolved_form(front + back, secrets) == Err::<Seq<char>, Seq<char>>(name),
            Ok(text) => match resolved_form(back, secrets) {
                Err(name) => resolved_form(front + back, secrets) == Err::<Seq<char>, Seq<char>>(
                    name,
                ),
                Ok(more) => resolved_form(front + back, secrets) == Ok::<Seq<char>, Seq<char>>(
                    text + more,
                ),
            },
        },
    decreases back.len(),
{
    assert(seq![piece].drop_last() =~= seq![]);
    match piece {
        ValuePiece::Text(text) => {
            assert(Seq::<char>::empty() + text@ =~= text@);
        },
        ValuePiece::Secret { name, .. } => {
            if let Some(value) = secret_value(secrets, name@) {
                assert(Seq::<char>::empty() + value =~= value);
            }
        },
    }
    if back.len() == 0 {
        assert(front + back =~= front);
        if let Ok(text) = resolved_form(front, secrets) {
            assert(text + Seq::<char>::empty() =~= text);
        }
    } else {
        assert((front + back).drop_last() =~= front + back.drop_last());
        assert((front + back).last() == back.last());
        values_are_filled_in_piece_by_piece(front, piece, back.drop_last(), secrets);
        if let Ok(text) = resolved_form(front, secrets) {
            if let Ok(more) = resolved_form(back.drop_last(), secrets) {
                match back.last() {
                    ValuePiece::Text(t) => {
                        assert(text + more + t@ =~= text + (more + t@));
                    },
                    ValuePiece::Secret { name, .. } => {
                        if let Some(value) = secret_value(secrets, name@) {
                            assert(text + more + value =~= text + (more + value));
                        }
                    },
                }
            }
        }
    }
}

/// The value of a secret is the first one that is known under its name.
pub proof fn secrets_are_found_by_name(secrets: Seq<SecretValue>, name: Seq<char>, i: int)
    requires
        0 <= i < secrets.len(),
        secrets[i].name@ == name,
        forall|j: int| 0 <= j < i ==> (#[trigger] secrets[j]).name@ != name,
    ensures
        secret_value(secrets, name) == Some(secrets[i].value@),
    decreases secrets.len(),
{
    if i > 0 {
        let rest = secrets.drop_first();
        assert(secrets[0].name@ != name);
        assert forall|j: int| 0 <= j < i - 1 implies (#[trigger] rest[j]).name@ != name by {
            assert(rest[j] == secrets[j + 1]);
        }
        secrets_are_found_by_name(rest, name, i - 1);
    }
}

/// A secret under whose name nothing is known has no value.
pub proof fn unknown_secrets_are_not_found(secrets: Seq<SecretValue>, name: Seq<char>)
    requires
        forall|j: int| 0 <= j < secrets.len() ==> (#[trigger] secrets[j]).name@ != name,
    ensures
        secret_value(secrets, name) is None,
    decreases secrets.len(),
{
    if secrets.len() > 0 {
        let rest = secrets.drop_first();
        assert forall|j: int| 0 <= j < rest.len() implies (#[trigger] rest[j]).name@ != name by {
            assert(rest[j] == secrets[j + 1]);
        }
        unknown_secrets_are_not_found(rest, name);
    }
}

/// Every variable is written as its name, an equals sign and its value; and its value is the one
/// that was set for it, as it was written or with its secrets filled in.
pub proof fn variables_are_passed_on_as_they_are_set(
    env: Seq<EnvView>,
    settings: Seq<EnvSetting>,
    secrets: Seq<SecretValue>,
)
    ensures
        env_lines(env).len() == env.len(),
        forall|i: int|
            0 <= i < env.len() ==> #[trigger] env_lines(env)[i] == env[i].key + "="@ + env[i].value,
        source_env(settings).len() == settings.len(),
        forall|i: int|
            0 <= i < settings.len() ==> (#[trigger] source_env(settings)[i]).key == settings[i].key@
                && source_env(settings)[i].value == source_form(settings[i].value@),
        is_resolved_env(env, settings, secrets) ==> env.len() == settings.len() && forall|i: int|
            0 <= i < env.len() ==> (#[trigger] env[i]).key == settings[i].key@ && resolved_form(
                settings[i].value@,
                secrets,
            ) == Ok::<Seq<char>, Seq<char>>(env[i].value),
{
}

/// The options of a Docker sandbox are those that are set, and the defaults where nothing is: the
/// image; no network where it is blocked, and the default one otherwise; the memory as far as it
/// can be limited; a tenth of a second of processor time for each core; the variables, each of them
/// once and in order; how much history is cloned; and whether anything is.
pub proof fn docker_options_are_as_set(
    options: DockerSandboxOptions,
    settings: RunEnvironmentSettings,
    clone: RunCloneSettings,
    defaults: DockerSandboxOptions,
    env: Seq<EnvView>,
)
    requires
        docker_options_of(options, settings, clone, defaults, env),
    ensures
        settings.image.docker matches Some(image) ==> options.image@ == image@,
        settings.image.docker is None ==> options.image@ == defaults.image@,
        settings.network.mode == EnvironmentNetworkMode::Block ==> (options.network_mode matches Some(
            mode,
        ) && mode@ == "none"@),
        settings.network.mode != EnvironmentNetworkMode::Block ==> match defaults.network_mode {
            Some(default) => options.network_mode matches Some(mode) && mode@ == default@,
            None => options.network_mode is None,
        },
        match settings.resources.memory {
            Some(bytes) if bytes <= 0x7fff_ffff_ffff_ffff => options.memory_limit matches Some(limit)
                && limit == bytes,
            _ => options.memory_limit is None,
        },
        match settings.resources.cpu {
            Some(cpu) => options.cpu_quota matches Some(quota) && quota == cpu * 100_000,
            None => options.cpu_quota is None,
        },
        match clone.depth {
            Some(depth) if 0 <= depth <= usize::MAX => options.clone_depth matches Some(kept) && kept
                == depth,
            _ => options.clone_depth is None,
        },
        options.skip_clone == !clone.enabled,
        forall|i: int, j: int|
            0 <= i < j < options.env_vars@.len() ==> text_at_most(
                (#[trigger] options.env_vars@[i])@,
                (#[trigger] options.env_vars@[j])@,
            ),
        texts(options.env_vars@).to_multiset() == env.map_values(
            |e: EnvView| e.key + "="@ + e.value,
        ).to_multiset(),
        options.env_vars@.len() == env.len(),
{
    broadcast use vstd::seq_lib::group_to_multiset_ensures;

    let lines = texts(options.env_vars@);
    assert(lines.len() == lines.to_multiset().len());
    assert(env_lines(env).len() == env_lines(env).to_multiset().len());
    assert(env.map_values(|e: EnvView| e.key + "="@ + e.value) =~= env_lines(env));
    assert forall|i: int, j: int| 0 <= i < j < options.env_vars@.len() implies text_at_most(
        (#[trigger] options.env_vars@[i])@,
        (#[trigger] options.env_vars@[j])@,
    ) by {
        assert(lines[i] == options.env_vars@[i]@);
        assert(lines[j] == options.env_vars@[j]@);
    }
}

} // verus!
