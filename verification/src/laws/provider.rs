//! Creating sandboxes, and telling of them.

use vstd::prelude::*;

use crate::aca::client::{AcaClient, HostRuleView, SandboxResource, SandboxState};
use crate::aca::{ConfigView, EgressPolicyView};
use crate::decimal::{decimal, numeral_reads_back, unsigned_value};
use crate::error::ErrorView;
use crate::outside::rfc3339_instant;
use crate::provider::aca::{
    bytes_in, countable, create_request, creation_end, describable, egress_request, info_of, mebibytes,
    millicpu, AcaSandboxProvider,
};
use crate::provider::{SandboxNetwork, SandboxStatus};
use crate::settings::SandboxProviderKind;
use crate::text::{run_before_is, run_before_stops_at_the_first, same_but_for_case};

verus! {

/// A sandbox is asked for as it is configured: made from the configured disk, with the configured
/// share of a processor and the configured memory. One core and two gibibytes are the defaults,
/// each where it is not configured. It is suspended to memory after ten minutes.
pub proof fn sandboxes_are_created_as_configured(config: ConfigView)
    ensures
        ({
            let request = create_request(config);
            &&& request.image == config.disk
            &&& config.cpu matches Some(cpu) ==> request.cpu == cpu
            &&& config.cpu is None ==> request.cpu == "1000m"@
            &&& config.memory matches Some(memory) ==> request.memory == memory
            &&& config.memory is None ==> request.memory == "2048Mi"@
            &&& request.public_image
            &&& request.auto_suspend
            &&& request.interval == 600
            &&& request.mode == "Memory"@
        }),
{
}

/// Two configurations are asked for alike exactly where they agree on what the data plane is told:
/// nothing that is configured gets lost, and nothing else has a say.
pub proof fn create_requests_tell_configurations_apart(a: ConfigView, b: ConfigView)
    requires
        a.cpu is Some,
        b.cpu is Some,
        a.memory is Some,
        b.memory is Some,
    ensures
        create_request(a) == create_request(b) <==> a.disk == b.disk && a.cpu == b.cpu && a.memory
            == b.memory,
{
    if create_request(a) == create_request(b) {
        assert(create_request(a).cpu == a.cpu->Some_0);
        assert(create_request(b).cpu == b.cpu->Some_0);
        assert(create_request(a).memory == a.memory->Some_0);
        assert(create_request(b).memory == b.memory->Some_0);
    }
}

/// The policy that is set is the one that is configured. What no rule speaks of is treated as the
/// policy says, and denied where it says nothing. There is one host rule for each configured one,
/// in order. A rule with a colon is a pattern and its own action, at the first colon; a bare
/// domain is allowed where the default is to deny, and takes the default otherwise.
pub proof fn egress_is_set_as_configured(policy: EgressPolicyView, i: int)
    requires
        0 <= i < policy.rules.len(),
    ensures
        ({
            let request = egress_request(policy);
            let action = if policy.default_action.len() > 0 {
                policy.default_action
            } else {
                "Deny"@
            };
            let rule = policy.rules[i];
            let set = request.host_rules[i];
            &&& request.default_action == action
            &&& request.host_rules.len() == policy.rules.len()
            &&& rule.contains(':') ==> rule == set.pattern + ":"@ + set.action
                && !set.pattern.contains(':')
            &&& !rule.contains(':') && same_but_for_case(action, "deny"@) ==> set == (HostRuleView {
                action: "Allow"@,
                pattern: rule,
            })
            &&& !rule.contains(':') && !same_but_for_case(action, "deny"@) ==> set == (HostRuleView {
                action,
                pattern: rule,
            })
        }),
{
    let request = egress_request(policy);
    let action = if policy.default_action.len() > 0 {
        policy.default_action
    } else {
        "Deny"@
    };
    let rule = policy.rules[i];
    run_before_stops_at_the_first(rule, ':');
    reveal_strlit(":");
    reveal_strlit("Deny");
    reveal_strlit("deny");
    if rule.contains(':') {
        let k = choose|k: int| 0 <= k < rule.len() && rule[k] == ':';
        let n = crate::text::run_before(rule, ':');
        assert(rule[n as int] == ':');
        let set = request.host_rules[i];
        assert(rule =~= set.pattern + ":"@ + set.action);
    } else {
        assert forall|k: int| 0 <= k < rule.len() implies #[trigger] rule[k] != ':' by {
            assert(rule.contains(rule[k]));
        }
        run_before_is(rule, ':', rule.len());
        if same_but_for_case(action, "deny"@) {
            let written = rule + ":Allow"@;
            reveal_strlit(":Allow");
            reveal_strlit("Allow");
            assert forall|k: int| 0 <= k < rule.len() implies #[trigger] written[k] != ':' by {
                assert(written[k] == rule[k]);
            }
            assert(written[rule.len() as int] == ':');
            run_before_is(written, ':', rule.len());
            assert(written.take(rule.len() as int) =~= rule);
            assert(written.skip(rule.len() as int + 1) =~= "Allow"@);
        }
    }
}

/// What no rule speaks of is denied unless the policy says otherwise. Traffic is inspected in full
/// wherever it is denied by default, and where a policy asks for nothing else; a policy that does
/// not deny has the inspection it asks for.
pub proof fn traffic_is_inspected_as_configured(policy: EgressPolicyView)
    ensures
        ({
            let request = egress_request(policy);
            let inspection = request.traffic_inspection;
            let denied = policy.default_action.len() == 0 || same_but_for_case(
                policy.default_action,
                "deny"@,
            );
            &&& policy.default_action.len() > 0 ==> request.default_action == policy.default_action
            &&& policy.default_action.len() == 0 ==> request.default_action == "Deny"@
            &&& request.host_rules.len() == policy.rules.len()
            &&& denied || policy.traffic_inspection.len() == 0 ==> inspection == "Full"@
            &&& !denied && policy.traffic_inspection.len() > 0 ==> inspection
                == policy.traffic_inspection
        }),
{
    reveal_strlit("Deny");
    reveal_strlit("deny");
}

/// A size is read from a number of mebibytes with `Mi` behind it, and from nothing else.
pub proof fn sizes_are_read_in_mebibytes(digits: Seq<char>, value: Seq<char>)
    ensures
        ({
            let text = digits + "Mi"@;
            match unsigned_value(digits) {
                Some(n) => {
                    &&& n <= u64::MAX ==> mebibytes(text) == Some(n)
                    &&& n > u64::MAX ==> mebibytes(text) is None && bytes_in(text) is None
                    &&& countable(text) <==> n * 1048576 <= u64::MAX || n > u64::MAX
                    &&& n * 1048576 <= u64::MAX ==> bytes_in(text) == Some((n * 1048576) as u64)
                },
                None => mebibytes(text) is None && bytes_in(text) is None && countable(text),
            }
        }),
        !"Mi"@.is_suffix_of(value) ==> mebibytes(value) is None && bytes_in(value) is None
            && countable(value),
{
    reveal_strlit("Mi");
    let text = digits + "Mi"@;
    assert(text.subrange(text.len() - 2, text.len() as int) =~= "Mi"@);
    assert(text.take(text.len() - 2) =~= digits);
}

/// The size that a number of mebibytes is written as is that many bytes.
pub proof fn written_sizes_are_read_back(n: nat)
    requires
        n * 1048576 <= u64::MAX,
    ensures
        bytes_in(decimal(n) + "Mi"@) == Some((n * 1048576) as u64),
{
    numeral_reads_back(n);
    sizes_are_read_in_mebibytes(decimal(n), seq![]);
}

/// A share of a processor is what stands before the `m` at the end, where anything does.
pub proof fn shares_are_read_in_millicpu(number: Seq<char>, value: Seq<char>)
    ensures
        number.len() > 0 ==> millicpu(number + "m"@) == Some(number),
        millicpu("m"@) is None,
        !"m"@.is_suffix_of(value) ==> millicpu(value) is None,
{
    reveal_strlit("m");
    let text = number + "m"@;
    assert(text.subrange(text.len() - 1, text.len() as int) =~= "m"@);
    assert(text.take(text.len() - 1) =~= number);
}

/// What is told of a sandbox is what the data plane says of it, each part in its place; what the
/// data plane does not say is not made up.
pub proof fn a_sandbox_is_told_of_as_it_is(
    resource: SandboxResource,
    working_directory: Option<Seq<char>>,
)
    ensures
        ({
            let info = info_of(resource, working_directory);
            &&& info.provider == SandboxProviderKind::Aca
            &&& info.id == resource.id@
            &&& info.working_directory == working_directory
            &&& resource.state == SandboxState::Running ==> info.state == SandboxStatus::Running
                && info.native_state == Some("Running"@)
            &&& resource.state == SandboxState::Stopped ==> info.state == SandboxStatus::Stopped
                && info.native_state == Some("Stopped"@)
            &&& resource.state == SandboxState::Unknown ==> info.state == SandboxStatus::Unknown
                && info.native_state == Some("Unknown"@)
            &&& info.image == Some(resource.sources_ref.disk_image.id@)
            &&& resource.snapshot_id matches Some(snapshot) ==> info.snapshot == Some(snapshot@)
            &&& resource.snapshot_id is None ==> info.snapshot is None
            &&& resource.region matches Some(region) ==> info.region == Some(region@)
            &&& resource.region is None ==> info.region is None
            &&& resource.management_url matches Some(url) ==> info.web_url == Some(url@)
            &&& resource.management_url is None ==> info.web_url is None
            &&& info.memory_bytes == bytes_in(resource.resources.memory@)
            &&& info.disk_bytes == bytes_in(resource.resources.disk@)
            &&& info.millicpu == millicpu(resource.resources.cpu@)
            &&& info.display_name is None
            &&& info.network == SandboxNetwork::Unknown
            &&& info.labels.len() == 0
            &&& info.last_activity_at is None
            &&& match rfc3339_instant(resource.created_at@) {
                Some((seconds, nanos)) => info.created_at matches Some(moment) && moment.seconds
                    == seconds && moment.nanos == nanos,
                None => info.created_at is None,
            }
        }),
        describable(resource) <==> countable(resource.resources.memory@) && countable(
            resource.resources.disk@,
        ),
{
}

/// The resources that are told are those of the sandbox: its memory, its disk and its share of a
/// processor are each read from the text of its own.
pub proof fn resources_are_told_as_they_are(
    resource: SandboxResource,
    memory: nat,
    disk: nat,
    cpu: Seq<char>,
    working_directory: Option<Seq<char>>,
)
    requires
        memory * 1048576 <= u64::MAX,
        disk * 1048576 <= u64::MAX,
        cpu.len() > 0,
        resource.resources.memory@ == decimal(memory) + "Mi"@,
        resource.resources.disk@ == decimal(disk) + "Mi"@,
        resource.resources.cpu@ == cpu + "m"@,
    ensures
        describable(resource),
        ({
            let info = info_of(resource, working_directory);
            &&& info.memory_bytes == Some((memory * 1048576) as u64)
            &&& info.disk_bytes == Some((disk * 1048576) as u64)
            &&& info.millicpu == Some(cpu)
        }),
{
    numeral_reads_back(memory);
    numeral_reads_back(disk);
    sizes_are_read_in_mebibytes(decimal(memory), seq![]);
    sizes_are_read_in_mebibytes(decimal(disk), seq![]);
    shares_are_read_in_millicpu(cpu, seq![]);
}

/// A creation ends with what is told of the sandbox, its configured directory among it, or with
/// the sandbox deleted and an error that names it and keeps the cause.
pub proof fn a_creation_ends_one_way_or_the_other(
    resource: SandboxResource,
    config: ConfigView,
    egress: Result<(), ErrorView>,
)
    ensures
        ({
            let (deleted, told) = creation_end(resource, config, egress);
            match egress {
                Ok(_) => deleted is None && told is Ok && told->Ok_0.working_directory == Some(
                    config.working_dir,
                ) && told->Ok_0 == info_of(resource, Some(config.working_dir)),
                Err(cause) => deleted == Some(resource.id@) && (told matches Err(e) && e
                    == (ErrorView::Context {
                    message: "sandbox '"@ + resource.id@
                        + "' was created but egress policy failed to apply; attempted cleanup"@,
                    source: Box::new(cause),
                })),
            }
        }),
{
}

/// A client for a scope talks to the host of the scope's region, or to the given one where the
/// provider has one, about the account's subscription and the scope's groups: that is what its
/// paths are made of.
pub proof fn clients_serve_their_scope(
    provider: AcaSandboxProvider,
    client: AcaClient,
    region: Seq<char>,
    resource_group: Seq<char>,
    sandbox_group: Seq<char>,
)
    requires
        provider.serves(client, region, resource_group, sandbox_group),
    ensures
        provider.base_override matches Some(base) ==> client.base() == base@,
        provider.base_override is None ==> client.base() == "https://management."@ + region
            + ".azuredevcompute.io"@,
        client.path() == "/subscriptions/"@ + provider.account.subscription@
            + "/resourceGroups/"@ + resource_group + "/sandboxGroups/"@ + sandbox_group
            + "/sandboxes"@,
{
}

/// A base that is no URL is told with its cause, and with the region where the base was the
/// region's own.
pub proof fn a_base_that_is_no_url_is_told(
    provider: AcaSandboxProvider,
    region: Seq<char>,
    cause: Seq<char>,
)
    ensures
        provider.base_for(region) == match provider.base_override {
            Some(base) => base@,
            None => "https://management."@ + region + ".azuredevcompute.io"@,
        },
        provider.base_error(region, cause) == match provider.base_override {
            Some(_) => ErrorView::Outside(cause),
            None => ErrorView::Context {
                message: "Invalid ACA region '"@ + region + "'"@,
                source: Box::new(ErrorView::Outside(cause)),
            },
        },
{
}

} // verus!
