//! Azure Container Apps (ACA) sandboxes: regions, configuration, and the data-plane client.

use vstd::prelude::*;

use crate::text::{clone_strings, clone_text, eq_ignore_ascii_case, opt_text, same_but_for_case, texts};

pub mod auth;
pub mod client;
pub mod command;
pub mod git;
pub mod initialize;
pub mod running;
pub mod sandbox;
pub mod start;

verus! {

/// The audience of every data-plane token. It is the same for all regions, and is not the
/// host that the client talks to.
pub const ACA_TOKEN_AUDIENCE: &'static str = "https://management.azuredevcompute.io";

/// What an ACA sandbox is created from.
#[derive(Debug)]
pub struct AcaConfig {
    pub region: String,
    pub resource_group: String,
    pub sandbox_group: String,
    pub disk: String,
    pub cpu: Option<String>,
    pub memory: Option<String>,
    pub working_dir: String,
    pub egress: AcaEgressPolicy,
    pub region_override: bool,
}

/// What a sandbox may reach on the network.
#[derive(Debug)]
pub struct AcaEgressPolicy {
    pub default_action: String,
    pub rules: Vec<String>,
    pub traffic_inspection: String,
}

/// The model of an [`AcaEgressPolicy`].
#[verifier::ext_equal]
pub ghost struct EgressPolicyView {
    pub default_action: Seq<char>,
    pub rules: Seq<Seq<char>>,
    pub traffic_inspection: Seq<char>,
}

impl View for AcaEgressPolicy {
    type V = EgressPolicyView;

    open spec fn view(&self) -> EgressPolicyView {
        EgressPolicyView {
            default_action: self.default_action@,
            rules: texts(self.rules@),
            traffic_inspection: self.traffic_inspection@,
        }
    }
}

impl Clone for AcaEgressPolicy {
    fn clone(&self) -> (r: AcaEgressPolicy)
        ensures
            r@ == self@,
    {
        AcaEgressPolicy {
            default_action: self.default_action.clone(),
            rules: clone_strings(&self.rules),
            traffic_inspection: self.traffic_inspection.clone(),
        }
    }
}

/// The model of an [`AcaConfig`].
#[verifier::ext_equal]
pub ghost struct ConfigView {
    pub region: Seq<char>,
    pub resource_group: Seq<char>,
    pub sandbox_group: Seq<char>,
    pub disk: Seq<char>,
    pub cpu: Option<Seq<char>>,
    pub memory: Option<Seq<char>>,
    pub working_dir: Seq<char>,
    pub egress: EgressPolicyView,
    pub region_override: bool,
}

impl View for AcaConfig {
    type V = ConfigView;

    open spec fn view(&self) -> ConfigView {
        ConfigView {
            region: self.region@,
            resource_group: self.resource_group@,
            sandbox_group: self.sandbox_group@,
            disk: self.disk@,
            cpu: opt_text(self.cpu),
            memory: opt_text(self.memory),
            working_dir: self.working_dir@,
            egress: self.egress@,
            region_override: self.region_override,
        }
    }
}

impl Clone for AcaConfig {
    fn clone(&self) -> (r: AcaConfig)
        ensures
            r@ == self@,
    {
        AcaConfig {
            region: self.region.clone(),
            resource_group: self.resource_group.clone(),
            sandbox_group: self.sandbox_group.clone(),
            disk: self.disk.clone(),
            cpu: clone_text(&self.cpu),
            memory: clone_text(&self.memory),
            working_dir: self.working_dir.clone(),
            egress: self.egress.clone(),
            region_override: self.region_override,
        }
    }
}

impl Default for AcaEgressPolicy {
    fn default() -> (r: AcaEgressPolicy)
        ensures
            r.default_action@ == Seq::<char>::empty(),
            r.rules@ == Seq::<String>::empty(),
            r.traffic_inspection@ == Seq::<char>::empty(),
    {
        AcaEgressPolicy {
            default_action: String::new(),
            rules: Vec::new(),
            traffic_inspection: String::new(),
        }
    }
}

/// The regions known to serve the sandbox data plane. Regions are added over time, so a
/// region that is not here may still work.
pub open spec fn known_regions() -> Seq<Seq<char>> {
    seq![
        "australiaeast"@,
        "brazilsouth"@,
        "canadacentral"@,
        "centralus"@,
        "eastasia"@,
        "eastus2"@,
        "francecentral"@,
        "japaneast"@,
        "koreacentral"@,
        "mexicocentral"@,
        "northcentralus"@,
        "northeurope"@,
        "norwayeast"@,
        "polandcentral"@,
        "southafricanorth"@,
        "southeastasia"@,
        "southindia"@,
        "spaincentral"@,
        "swedencentral"@,
        "switzerlandnorth"@,
        "uksouth"@,
        "westcentralus"@,
        "westus"@,
        "westus2"@,
        "westus3"@,
    ]
}

/// Whether a region is a known one, in whatever case it is written.
pub open spec fn region_known(region: Seq<char>) -> bool {
    exists|i: int|
        0 <= i < known_regions().len() && same_but_for_case(#[trigger] known_regions()[i], region)
}

/// The known data-plane regions.
pub fn aca_data_plane_regions() -> (r: Vec<&'static str>)
    ensures
        r@.map_values(|s: &'static str| s@) == known_regions(),
{
    let r = vec![
        "australiaeast",
        "brazilsouth",
        "canadacentral",
        "centralus",
        "eastasia",
        "eastus2",
        "francecentral",
        "japaneast",
        "koreacentral",
        "mexicocentral",
        "northcentralus",
        "northeurope",
        "norwayeast",
        "polandcentral",
        "southafricanorth",
        "southeastasia",
        "southindia",
        "spaincentral",
        "swedencentral",
        "switzerlandnorth",
        "uksouth",
        "westcentralus",
        "westus",
        "westus2",
        "westus3",
    ];
    proof {
        assert(r@.map_values(|s: &'static str| s@) =~= known_regions());
    }
    r
}

/// Whether `region` is a known data-plane region, in whatever case it is written.
pub fn is_known_aca_region(region: &str) -> (r: bool)
    ensures
        r == region_known(region@),
{
    let known = aca_data_plane_regions();
    let ghost names = known@.map_values(|s: &'static str| s@);
    let mut i: usize = 0;
    while i < known.len()
        invariant
            i <= known@.len(),
            names == known@.map_values(|s: &'static str| s@),
            names == known_regions(),
            forall|j: int| 0 <= j < i ==> !same_but_for_case(#[trigger] known_regions()[j], region@),
        decreases known@.len() - i,
    {
        proof {
            assert(names[i as int] == known@[i as int]@);
        }
        if eq_ignore_ascii_case(known[i], region) {
            proof {
                assert(same_but_for_case(known_regions()[i as int], region@));
            }
            return true;
        }
        i = i + 1;
    }
    false
}

/// Checks a configured region. The check is advice: `true` asks for a warning, and the
/// region is used as configured either way.
pub fn validate_aca_region(region: &str, region_override: bool) -> (warn: bool)
    ensures
        warn == (!region_override && !region_known(region@)),
{
    !(region_override || is_known_aca_region(region))
}

/// How a region is written does not matter to the check.
pub proof fn region_case_is_immaterial(a: Seq<char>, b: Seq<char>)
    requires
        same_but_for_case(a, b),
    ensures
        region_known(a) == region_known(b),
{
    assert forall|i: int| 0 <= i < known_regions().len() implies same_but_for_case(
        #[trigger] known_regions()[i],
        a,
    ) == same_but_for_case(known_regions()[i], b) by {
        let k = known_regions()[i];
        if same_but_for_case(k, a) {
            assert forall|j: int| 0 <= j < k.len() implies crate::text::ascii_lower(#[trigger] k[j])
                == crate::text::ascii_lower(b[j]) by {
                assert(crate::text::ascii_lower(a[j]) == crate::text::ascii_lower(b[j]));
            }
        }
        if same_but_for_case(k, b) {
            assert forall|j: int| 0 <= j < k.len() implies crate::text::ascii_lower(#[trigger] k[j])
                == crate::text::ascii_lower(a[j]) by {
                assert(crate::text::ascii_lower(a[j]) == crate::text::ascii_lower(b[j]));
            }
        }
    }
    if region_known(a) {
        let i = choose|i: int|
            0 <= i < known_regions().len() && same_but_for_case(#[trigger] known_regions()[i], a);
        assert(same_but_for_case(known_regions()[i], b));
    }
    if region_known(b) {
        let i = choose|i: int|
            0 <= i < known_regions().len() && same_but_for_case(#[trigger] known_regions()[i], b);
        assert(same_but_for_case(known_regions()[i], a));
    }
}

} // verus!
