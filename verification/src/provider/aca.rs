//! The provider of ACA sandboxes: creating, finding, listing and deleting them.

use vstd::prelude::*;

use crate::aca::client::{
    host_rule, AcaClient, ApiCall, AutoSuspendPolicy, BodyView, CallView, CreateDiskImage, CreateResources,
    CreateSandboxRequest, CreateSourcesRef, CreateView, EgressView, Lifecycle, Method, Operation,
    SandboxResource, SandboxState,
};
use crate::aca::sandbox::{needs_resume, GitHubCredentials};
use crate::aca::{AcaConfig, ConfigView, EgressPolicyView};
use crate::decimal::{parse_u64, unsigned_value};
use crate::error::{error_text, in_context, Error, ErrorView};
use crate::outside::{parsed_url, rfc3339_instant};
use crate::provider::{moment, parse_rfc3339, InfoResources, InfoView, SandboxInfo, SandboxNetwork, SandboxStatus};
use crate::settings::{DaytonaConfig, DockerSandboxOptions, SandboxProviderKind};
use crate::text::{
    clone_text, eq_ignore_ascii_case, occurs, opt_text, run_before, same_but_for_case, split_once,
    strip_suffix, texts,
};

verus! {

/// The share of a processor that a sandbox gets where none is configured.
pub const DEFAULT_ACA_CPU: &'static str = "1000m";

/// The memory that a sandbox gets where none is configured.
pub const DEFAULT_ACA_MEMORY: &'static str = "2048Mi";

/// The seconds after which an idle sandbox is suspended.
pub const DEFAULT_AUTO_SUSPEND_INTERVAL_SECS: u64 = 600;

/// Where sandboxes are, unless a configuration says otherwise.
#[derive(Debug)]
pub struct AcaAccount {
    pub subscription: String,
    pub resource_group: String,
    pub sandbox_group: String,
    pub region: String,
}

impl Clone for AcaAccount {
    fn clone(&self) -> (r: AcaAccount)
        ensures
            r == *self,
    {
        AcaAccount {
            subscription: self.subscription.clone(),
            resource_group: self.resource_group.clone(),
            sandbox_group: self.sandbox_group.clone(),
            region: self.region.clone(),
        }
    }
}

/// The account that four variables of the process name: all of them are needed.
pub fn aca_account_from_env_values(
    subscription: Option<String>,
    resource_group: Option<String>,
    sandbox_group: Option<String>,
    region: Option<String>,
) -> (r: Option<AcaAccount>)
    ensures
        match r {
            Some(account) => {
                &&& subscription == Some(account.subscription)
                &&& resource_group == Some(account.resource_group)
                &&& sandbox_group == Some(account.sandbox_group)
                &&& region == Some(account.region)
            },
            None => subscription is None || resource_group is None || sandbox_group is None
                || region is None,
        },
{
    match (subscription, resource_group, sandbox_group, region) {
        (Some(subscription), Some(resource_group), Some(sandbox_group), Some(region)) => Some(
            AcaAccount { subscription, resource_group, sandbox_group, region },
        ),
        _ => None,
    }
}

/// What a sandbox is to be created from.
#[derive(Debug)]
pub enum SandboxCreateSpec {
    Docker { config: DockerSandboxOptions },
    Daytona { config: Box<DaytonaConfig> },
    Aca {
        config: Box<AcaConfig>,
        github_app: Option<GitHubCredentials>,
        run_id: Option<String>,
        clone_origin_url: Option<String>,
        clone_branch: Option<String>,
    },
}

/// Creates and finds ACA sandboxes.
pub struct AcaSandboxProvider {
    pub account: AcaAccount,
    /// A base to use in place of a region's own.
    pub base_override: Option<String>,
}

/// The text, where it is not empty.
pub fn non_empty(value: &str) -> (r: Option<&str>)
    ensures
        match r {
            Some(v) => v@ == value@ && value@.len() > 0,
            None => value@.len() == 0,
        },
{
    if value.is_empty() {
        None
    } else {
        Some(value)
    }
}

/// The first text, or the second where the first is empty.
pub open spec fn or_else(first: Seq<char>, second: Seq<char>) -> Seq<char> {
    if first.len() > 0 {
        first
    } else {
        second
    }
}

fn nonempty_or(first: &str, second: &str) -> (r: String)
    ensures
        r@ == or_else(first@, second@),
{
    match non_empty(first) {
        Some(v) => v.to_owned(),
        None => second.to_owned(),
    }
}

/// The base of a region.
pub open spec fn region_base(region: Seq<char>) -> Seq<char> {
    "https://management."@ + region + ".azuredevcompute.io"@
}

fn aca_region_base(region: &str) -> (r: String)
    ensures
        r@ == region_base(region@),
{
    let mut base = "https://management.".to_owned();
    base.append(region);
    base.append(".azuredevcompute.io");
    base
}

/// The request for a sandbox of a configuration.
pub open spec fn create_request(config: ConfigView) -> CreateView {
    CreateView {
        auto_suspend: true,
        interval: DEFAULT_AUTO_SUSPEND_INTERVAL_SECS,
        mode: "Memory"@,
        cpu: match config.cpu {
            Some(cpu) => cpu,
            None => DEFAULT_ACA_CPU@,
        },
        memory: match config.memory {
            Some(memory) => memory,
            None => DEFAULT_ACA_MEMORY@,
        },
        public_image: true,
        image: config.disk,
    }
}

/// What is done with traffic that no rule speaks of: denied, unless the policy says otherwise.
pub open spec fn effective_action(policy: EgressPolicyView) -> Seq<char> {
    or_else(policy.default_action, "Deny"@)
}

/// How traffic is inspected: in full where it is denied by default, since host rules could be
/// got around otherwise, and as the policy says where it is not.
pub open spec fn effective_inspection(policy: EgressPolicyView) -> Seq<char> {
    if same_but_for_case(effective_action(policy), "deny"@) {
        "Full"@
    } else {
        or_else(policy.traffic_inspection, "Full"@)
    }
}

/// A rule as it is sent under a default action. A bare domain is on a list of exceptions: where
/// the default is to deny, it stands for the domain being allowed. A rule with an action of its
/// own stays as it is, and so does every rule under any other default.
pub open spec fn written_rule(rule: Seq<char>, action: Seq<char>) -> Seq<char> {
    if run_before(rule, ':') < rule.len() || !same_but_for_case(action, "deny"@) {
        rule
    } else {
        rule + ":Allow"@
    }
}

fn written_rules(rules: &Vec<String>, action: &str) -> (r: Vec<String>)
    ensures
        texts(r@) == texts(rules@).map_values(|rule: Seq<char>| written_rule(rule, action@)),
{
    let denying = eq_ignore_ascii_case(action, "deny");
    let mut r: Vec<String> = Vec::new();
    let mut i: usize = 0;
    while i < rules.len()
        invariant
            i <= rules@.len(),
            r@.len() == i,
            denying == same_but_for_case(action@, "deny"@),
            forall|j: int| 0 <= j < i ==> (#[trigger] r@[j])@ == written_rule(rules@[j]@, action@),
        decreases rules@.len() - i,
    {
        let mut rule = rules[i].clone();
        if denying && split_once(rule.as_str(), ':').is_none() {
            rule.append(":Allow");
        }
        r.push(rule);
        i = i + 1;
    }
    proof {
        assert(texts(r@) =~= texts(rules@).map_values(
            |rule: Seq<char>| written_rule(rule, action@),
        ));
    }
    r
}

/// The egress request for a policy.
pub open spec fn egress_request(policy: EgressPolicyView) -> EgressView {
    EgressView {
        default_action: effective_action(policy),
        host_rules: policy.rules.map_values(
            |rule: Seq<char>|
                host_rule(written_rule(rule, effective_action(policy)), effective_action(policy)),
        ),
        traffic_inspection: effective_inspection(policy),
    }
}

// ---------------------------------------------------------------------------
// What is told of a sandbox
// ---------------------------------------------------------------------------

/// The number in a text of mebibytes, such as `2048Mi`, where it is one.
pub open spec fn mebibytes(value: Seq<char>) -> Option<nat> {
    if "Mi"@.is_suffix_of(value) {
        match unsigned_value(value.take(value.len() - 2)) {
            Some(n) => if n <= u64::MAX {
                Some(n)
            } else {
                None
            },
            None => None,
        }
    } else {
        None
    }
}

/// Whether the bytes of a text of mebibytes can be counted.
pub open spec fn countable(value: Seq<char>) -> bool {
    mebibytes(value) matches Some(n) ==> n * 0x10_0000 <= u64::MAX
}

/// The bytes of a text of mebibytes, where it is one.
pub open spec fn bytes_in(value: Seq<char>) -> Option<u64> {
    match mebibytes(value) {
        Some(n) => Some((n * 0x10_0000) as u64),
        None => None,
    }
}

fn mebibyte_count(value: &str) -> (r: Option<u64>)
    ensures
        match mebibytes(value@) {
            Some(n) => r == Some(n as u64),
            None => r is None,
        },
{
    proof {
        reveal_strlit("Mi");
    }
    match strip_suffix(value, "Mi") {
        Some(digits) => {
            proof {
                assert(value@.subrange(value@.len() - 2, value@.len() as int) =~= "Mi"@);
                assert(digits@ =~= value@.take(value@.len() - 2));
            }
            parse_u64(digits.as_str())
        },
        None => None,
    }
}

/// Whether [`parse_mebibytes`] can count the bytes of a text.
pub fn can_count(value: &str) -> (r: bool)
    ensures
        r == countable(value@),
{
    match mebibyte_count(value) {
        Some(n) => n <= 0xfff_ffff_ffff,
        None => true,
    }
}

/// The bytes of a text of mebibytes; `None` for a text of any other shape.
pub fn parse_mebibytes(value: &str) -> (r: Option<u64>)
    requires
        countable(value@),
    ensures
        r == bytes_in(value@),
{
    match mebibyte_count(value) {
        Some(n) => Some(n * 0x10_0000),
        None => None,
    }
}

/// What stands before the unit in a text of millicpu, such as `1000m`: `None` where the unit is
/// missing or nothing stands before it. The text is not checked to be a number.
pub open spec fn millicpu(value: Seq<char>) -> Option<Seq<char>> {
    if "m"@.is_suffix_of(value) && value.len() > 1 {
        Some(value.take(value.len() - 1))
    } else {
        None
    }
}

/// [`millicpu`].
pub fn millicpu_text(value: &str) -> (r: Option<String>)
    ensures
        opt_text(r) == millicpu(value@),
{
    proof {
        reveal_strlit("m");
    }
    match strip_suffix(value, "m") {
        Some(number) => {
            proof {
                assert(value@.subrange(value@.len() - 1, value@.len() as int) =~= "m"@);
                assert(number@ =~= value@.take(value@.len() - 1));
            }
            if number.as_str().is_empty() {
                None
            } else {
                Some(number)
            }
        },
        None => None,
    }
}

/// Whether everything that is told of a sandbox can be.
pub open spec fn describable(resource: SandboxResource) -> bool {
    countable(resource.resources.memory@) && countable(resource.resources.disk@)
}

/// [`describable`].
pub fn can_describe(resource: &SandboxResource) -> (r: bool)
    ensures
        r == describable(*resource),
{
    can_count(resource.resources.memory.as_str()) && can_count(resource.resources.disk.as_str())
}

/// A state as it is told: its name, and what it is to every provider.
pub open spec fn told_state(state: SandboxState) -> (SandboxStatus, Seq<char>) {
    match state {
        SandboxState::Running => (SandboxStatus::Running, "Running"@),
        SandboxState::Stopped => (SandboxStatus::Stopped, "Stopped"@),
        SandboxState::Unknown => (SandboxStatus::Unknown, "Unknown"@),
    }
}

/// What is told of a sandbox. Its working directory is known only where it was just created.
pub open spec fn info_of(resource: SandboxResource, working_directory: Option<Seq<char>>) -> InfoView {
    InfoView {
        provider: SandboxProviderKind::Aca,
        id: resource.id@,
        display_name: None,
        state: told_state(resource.state).0,
        native_state: Some(told_state(resource.state).1),
        image: Some(resource.sources_ref.disk_image.id@),
        snapshot: opt_text(resource.snapshot_id),
        region: opt_text(resource.region),
        web_url: opt_text(resource.management_url),
        working_directory,
        millicpu: millicpu(resource.resources.cpu@),
        memory_bytes: bytes_in(resource.resources.memory@),
        disk_bytes: bytes_in(resource.resources.disk@),
        network: SandboxNetwork::Unknown,
        labels: seq![],
        created_at: moment(rfc3339_instant(resource.created_at@)),
        last_activity_at: None,
    }
}

/// [`info_of`].
pub fn sandbox_info_from_resource(resource: &SandboxResource, working_directory: Option<String>) -> (r:
    SandboxInfo)
    requires
        describable(*resource),
    ensures
        r@ == info_of(*resource, opt_text(working_directory)),
{
    let state = match resource.state {
        SandboxState::Running => SandboxStatus::Running,
        SandboxState::Stopped => SandboxStatus::Stopped,
        SandboxState::Unknown => SandboxStatus::Unknown,
    };
    let native_state = match resource.state {
        SandboxState::Running => "Running",
        SandboxState::Stopped => "Stopped",
        SandboxState::Unknown => "Unknown",
    };
    SandboxInfo {
        provider: SandboxProviderKind::Aca,
        id: resource.id.clone(),
        display_name: None,
        state,
        native_state: Some(native_state.to_owned()),
        image: Some(resource.sources_ref.disk_image.id.clone()),
        snapshot: clone_text(&resource.snapshot_id),
        region: clone_text(&resource.region),
        web_url: clone_text(&resource.management_url),
        working_directory,
        resources: InfoResources {
            millicpu: millicpu_text(resource.resources.cpu.as_str()),
            memory_bytes: parse_mebibytes(resource.resources.memory.as_str()),
            disk_bytes: parse_mebibytes(resource.resources.disk.as_str()),
        },
        network: SandboxNetwork::Unknown,
        labels: Vec::new(),
        created_at: parse_rfc3339(resource.created_at.as_str()),
        last_activity_at: None,
    }
}

/// What is told of a list of sandboxes.
pub fn listed(resources: &Vec<SandboxResource>) -> (r: Vec<SandboxInfo>)
    requires
        forall|i: int| 0 <= i < resources@.len() ==> describable(#[trigger] resources@[i]),
    ensures
        r@.len() == resources@.len(),
        forall|i: int| 0 <= i < r@.len() ==> (#[trigger] r@[i])@ == info_of(resources@[i], None),
{
    let mut r: Vec<SandboxInfo> = Vec::new();
    let mut i: usize = 0;
    while i < resources.len()
        invariant
            i <= resources@.len(),
            r@.len() == i,
            forall|j: int| 0 <= j < resources@.len() ==> describable(#[trigger] resources@[j]),
            forall|j: int| 0 <= j < i ==> (#[trigger] r@[j])@ == info_of(resources@[j], None),
        decreases resources@.len() - i,
    {
        r.push(sandbox_info_from_resource(&resources[i], None));
        i = i + 1;
    }
    r
}

/// What is told of a sandbox that was looked for.
pub fn found(resource: &Option<SandboxResource>) -> (r: Option<SandboxInfo>)
    requires
        resource matches Some(res) ==> describable(*res),
    ensures
        match *resource {
            Some(res) => r is Some && r->Some_0@ == info_of(res, None),
            None => r is None,
        },
{
    match resource {
        Some(res) => Some(sandbox_info_from_resource(res, None)),
        None => None,
    }
}

// ---------------------------------------------------------------------------
// The provider
// ---------------------------------------------------------------------------

/// The scope that a sandbox of a configuration is created in: the configuration's own region
/// and groups, and the account's where it leaves them empty.
pub open spec fn scope(config: ConfigView, account: AcaAccount) -> (Seq<char>, Seq<char>, Seq<char>) {
    (
        or_else(config.region, account.region@),
        or_else(config.resource_group, account.resource_group@),
        or_else(config.sandbox_group, account.sandbox_group@),
    )
}

impl AcaSandboxProvider {
    /// The base of the clients for a region.
    pub open spec fn base_for(self, region: Seq<char>) -> Seq<char> {
        match self.base_override {
            Some(base) => base@,
            None => region_base(region),
        }
    }

    /// Whether a client is the one for a scope.
    pub open spec fn serves(
        self,
        client: AcaClient,
        region: Seq<char>,
        resource_group: Seq<char>,
        sandbox_group: Seq<char>,
    ) -> bool {
        &&& client.base() == self.base_for(region)
        &&& client.subscription() == self.account.subscription@
        &&& client.resource_group() == resource_group
        &&& client.sandbox_group() == sandbox_group
    }

    /// The error for a region whose base is no URL.
    pub open spec fn base_error(self, region: Seq<char>, cause: Seq<char>) -> ErrorView {
        match self.base_override {
            Some(_) => ErrorView::Outside(cause),
            None => in_context("Invalid ACA region '"@ + region + "'"@, ErrorView::Outside(cause)),
        }
    }

    /// A provider for an account.
    pub fn new(account: AcaAccount) -> (r: AcaSandboxProvider)
        ensures
            r.account == account,
            r.base_override is None,
    {
        AcaSandboxProvider { account, base_override: None }
    }

    /// The provider, with another base for every client.
    pub fn with_base_override(self, base: String) -> (r: AcaSandboxProvider)
        ensures
            r.account == self.account,
            r.base_override == Some(base),
    {
        AcaSandboxProvider { account: self.account, base_override: Some(base) }
    }

    /// The kind of this provider.
    pub fn kind(&self) -> (r: SandboxProviderKind)
        ensures
            r == SandboxProviderKind::Aca,
    {
        SandboxProviderKind::Aca
    }

    /// A client for a scope. The subscription is always the account's.
    pub fn client_for(&self, region: &str, resource_group: &str, sandbox_group: &str) -> (r: Result<
        AcaClient,
        Error,
    >)
        ensures
            match parsed_url(self.base_for(region@)) {
                Ok(_) => r is Ok && self.serves(
                    r->Ok_0,
                    region@,
                    resource_group@,
                    sandbox_group@,
                ),
                Err(cause) => r is Err && r->Err_0@ == self.base_error(region@, cause),
            },
    {
        let subscription = self.account.subscription.clone();
        match &self.base_override {
            Some(base) => AcaClient::new(
                base.as_str(),
                subscription,
                resource_group.to_owned(),
                sandbox_group.to_owned(),
            ),
            None => {
                let base = aca_region_base(region);
                match AcaClient::new(
                    base.as_str(),
                    subscription,
                    resource_group.to_owned(),
                    sandbox_group.to_owned(),
                ) {
                    Ok(client) => Ok(client),
                    Err(cause) => {
                        let mut message = "Invalid ACA region '".to_owned();
                        message.append(region);
                        message.append("'");
                        Err(Error::context(message.as_str(), cause))
                    },
                }
            },
        }
    }

    /// A client for the account's own scope.
    pub fn account_client(&self) -> (r: Result<AcaClient, Error>)
        ensures
            match parsed_url(self.base_for(self.account.region@)) {
                Ok(_) => r is Ok && self.serves(
                    r->Ok_0,
                    self.account.region@,
                    self.account.resource_group@,
                    self.account.sandbox_group@,
                ),
                Err(cause) => r is Err && r->Err_0@ == self.base_error(self.account.region@, cause),
            },
    {
        self.client_for(
            self.account.region.as_str(),
            self.account.resource_group.as_str(),
            self.account.sandbox_group.as_str(),
        )
    }

    /// A client for the scope of a configuration.
    pub fn config_client(&self, config: &AcaConfig) -> (r: Result<AcaClient, Error>)
        ensures
            ({
                let (region, resource_group, sandbox_group) = scope(config@, self.account);
                match parsed_url(self.base_for(region)) {
                    Ok(_) => r is Ok && self.serves(r->Ok_0, region, resource_group, sandbox_group),
                    Err(cause) => r is Err && r->Err_0@ == self.base_error(region, cause),
                }
            }),
    {
        let region = nonempty_or(config.region.as_str(), self.account.region.as_str());
        let resource_group = nonempty_or(
            config.resource_group.as_str(),
            self.account.resource_group.as_str(),
        );
        let sandbox_group = nonempty_or(
            config.sandbox_group.as_str(),
            self.account.sandbox_group.as_str(),
        );
        self.client_for(region.as_str(), resource_group.as_str(), sandbox_group.as_str())
    }

    /// The first step of creating a sandbox: the create call. Only ACA sandboxes can be created.
    pub fn create(&self, spec: SandboxCreateSpec) -> (r: Result<Creating, Error>)
        ensures
            match spec {
                SandboxCreateSpec::Aca { config, .. } => {
                    let (region, resource_group, sandbox_group) = scope(config@, self.account);
                    match parsed_url(self.base_for(region)) {
                        Ok(_) => {
                            &&& r is Ok
                            &&& self.serves(r->Ok_0.client, region, resource_group, sandbox_group)
                            &&& r->Ok_0.config == *config
                        },
                        Err(cause) => r is Err && r->Err_0@ == self.base_error(region, cause),
                    }
                },
                _ => r is Err && r->Err_0@ == ErrorView::Message(
                    "ACA sandbox provider can only create ACA sandboxes"@,
                ),
            },
    {
        match spec {
            SandboxCreateSpec::Aca { config, .. } => match self.config_client(&config) {
                Ok(client) => Ok(Creating { client, config: *config }),
                Err(e) => Err(e),
            },
            _ => Err(Error::message("ACA sandbox provider can only create ACA sandboxes")),
        }
    }

    /// The call that lists the account's sandboxes, with the client that makes it.
    pub fn list(&self) -> (r: Result<(AcaClient, ApiCall), Error>)
        ensures
            match parsed_url(self.base_for(self.account.region@)) {
                Ok(_) => r matches Ok((client, call)) && self.serves(
                    client,
                    self.account.region@,
                    self.account.resource_group@,
                    self.account.sandbox_group@,
                ) && call@ == (CallView {
                    op: Operation::ListSandboxes,
                    method: Method::Get,
                    path: client.path(),
                    query: seq![],
                    body: BodyView::Nothing,
                }),
                Err(cause) => r is Err && r->Err_0@ == self.base_error(self.account.region@, cause),
            },
    {
        match self.account_client() {
            Ok(client) => {
                let call = client.list_sandboxes();
                Ok((client, call))
            },
            Err(e) => Err(e),
        }
    }

    /// The call that looks for one of the account's sandboxes, with the client that makes it.
    pub fn get(&self, id: &str) -> (r: Result<(AcaClient, ApiCall), Error>)
        ensures
            match parsed_url(self.base_for(self.account.region@)) {
                Ok(_) => r matches Ok((client, call)) && self.serves(
                    client,
                    self.account.region@,
                    self.account.resource_group@,
                    self.account.sandbox_group@,
                ) && call@ == (CallView {
                    op: Operation::GetSandbox,
                    method: Method::Get,
                    path: client.path_of(id@),
                    query: seq![],
                    body: BodyView::Nothing,
                }),
                Err(cause) => r is Err && r->Err_0@ == self.base_error(self.account.region@, cause),
            },
    {
        match self.account_client() {
            Ok(client) => {
                let call = client.get_sandbox(id);
                Ok((client, call))
            },
            Err(e) => Err(e),
        }
    }

    /// The call that deletes one of the account's sandboxes, with the client that makes it.
    pub fn delete(&self, id: &str) -> (r: Result<(AcaClient, ApiCall), Error>)
        ensures
            match parsed_url(self.base_for(self.account.region@)) {
                Ok(_) => r matches Ok((client, call)) && self.serves(
                    client,
                    self.account.region@,
                    self.account.resource_group@,
                    self.account.sandbox_group@,
                ) && call@ == (CallView {
                    op: Operation::DeleteSandbox,
                    method: Method::Delete,
                    path: client.path_of(id@),
                    query: seq![],
                    body: BodyView::Nothing,
                }),
                Err(cause) => r is Err && r->Err_0@ == self.base_error(self.account.region@, cause),
            },
    {
        match self.account_client() {
            Ok(client) => {
                let call = client.delete_sandbox(id);
                Ok((client, call))
            },
            Err(e) => Err(e),
        }
    }
}

// ---------------------------------------------------------------------------
// Creating a sandbox
// ---------------------------------------------------------------------------

/// A sandbox that is asked for.
pub struct Creating {
    pub client: AcaClient,
    pub config: AcaConfig,
}

/// A sandbox that was created, and whose egress policy is to be set.
pub struct ApplyingEgress {
    pub client: AcaClient,
    pub config: AcaConfig,
    pub resource: SandboxResource,
}

/// A sandbox that was created, and that is deleted because its egress policy could not be set.
pub struct CleaningUp {
    pub client: AcaClient,
    pub id: String,
    pub cause: Error,
}

/// What follows the answer to the egress policy.
pub enum EgressOutcome {
    Ready(SandboxInfo),
    CleanUp(CleaningUp),
}

/// The error for a sandbox whose egress policy could not be set.
pub open spec fn egress_failure(id: Seq<char>, cause: ErrorView) -> ErrorView {
    in_context(
        "sandbox '"@ + id + "' was created but egress policy failed to apply; attempted cleanup"@,
        cause,
    )
}

/// How the creation of a sandbox ends once the sandbox is there: with the sandbox that is
/// deleted again, if it is, and with what is told.
pub open spec fn creation_end(
    resource: SandboxResource,
    config: ConfigView,
    egress: Result<(), ErrorView>,
) -> (Option<Seq<char>>, Result<InfoView, ErrorView>) {
    match egress {
        Ok(_) => (None, Ok(info_of(resource, Some(config.working_dir)))),
        Err(cause) => (Some(resource.id@), Err(egress_failure(resource.id@, cause))),
    }
}

impl Creating {
    /// The create call.
    pub fn call(&self) -> (r: ApiCall)
        ensures
            r@ == (CallView {
                op: Operation::CreateSandbox,
                method: Method::Put,
                path: self.client.path(),
                query: seq![],
                body: BodyView::Create(create_request(self.config@)),
            }),
    {
        let cpu = match &self.config.cpu {
            Some(cpu) => cpu.clone(),
            None => DEFAULT_ACA_CPU.to_owned(),
        };
        let memory = match &self.config.memory {
            Some(memory) => memory.clone(),
            None => DEFAULT_ACA_MEMORY.to_owned(),
        };
        let request = CreateSandboxRequest {
            lifecycle: Lifecycle {
                auto_suspend_policy: AutoSuspendPolicy {
                    enabled: true,
                    interval: DEFAULT_AUTO_SUSPEND_INTERVAL_SECS,
                    mode: "Memory".to_owned(),
                },
            },
            resources: CreateResources { cpu, memory },
            sources_ref: CreateSourcesRef {
                disk_image: CreateDiskImage { is_public: true, name: self.config.disk.clone() },
            },
        };
        proof {
            assert(request@ =~= create_request(self.config@));
        }
        self.client.create_sandbox(request)
    }

    /// Takes the answer to the create call: the egress policy comes next, and nothing where
    /// there is no sandbox.
    pub fn created(self, reply: Result<SandboxResource, Error>) -> (r: Result<ApplyingEgress, Error>)
        ensures
            match reply {
                Ok(resource) => r == Ok::<ApplyingEgress, Error>(
                    ApplyingEgress { client: self.client, config: self.config, resource },
                ),
                Err(e) => r == Err::<ApplyingEgress, Error>(e),
            },
    {
        match reply {
            Ok(resource) => Ok(
                ApplyingEgress { client: self.client, config: self.config, resource },
            ),
            Err(e) => Err(e),
        }
    }
}

impl ApplyingEgress {
    /// The egress call, for the sandbox that was created.
    pub fn call(&self) -> (r: ApiCall)
        ensures
            r@ == (CallView {
                op: Operation::SetEgress,
                method: Method::Post,
                path: self.client.action_path_of(self.resource.id@, "egresspolicy"@),
                query: seq![],
                body: BodyView::Egress(egress_request(self.config.egress@)),
            }),
    {
        let policy = &self.config.egress;
        let default_action = nonempty_or(policy.default_action.as_str(), "Deny");
        let inspection = if eq_ignore_ascii_case(default_action.as_str(), "deny") {
            "Full".to_owned()
        } else {
            nonempty_or(policy.traffic_inspection.as_str(), "Full")
        };
        let rules = written_rules(&policy.rules, default_action.as_str());
        let r = self.client.set_egress(
            self.resource.id.as_str(),
            default_action.as_str(),
            &rules,
            inspection.as_str(),
        );
        proof {
            assert(texts(rules@).map_values(|rule: Seq<char>| host_rule(rule, default_action@))
                =~= egress_request(policy@).host_rules);
        }
        r
    }

    /// Takes the answer to the egress call: the sandbox is ready, or it is deleted.
    pub fn applied(self, reply: Result<(), Error>) -> (r: EgressOutcome)
        requires
            reply is Ok ==> describable(self.resource),
        ensures
            match reply {
                Ok(_) => r matches EgressOutcome::Ready(info) && creation_end(
                    self.resource,
                    self.config@,
                    Ok(()),
                ) == (None::<Seq<char>>, Ok::<InfoView, ErrorView>(info@)),
                Err(cause) => r matches EgressOutcome::CleanUp(cleaning) && cleaning == (
                CleaningUp { client: self.client, id: self.resource.id, cause }) && creation_end(
                    self.resource,
                    self.config@,
                    Err(cause@),
                ) == (
                    Some(cleaning.id@),
                    Err::<InfoView, ErrorView>(egress_failure(cleaning.id@, cleaning.cause@)),
                ),
            },
    {
        match reply {
            Ok(()) => EgressOutcome::Ready(
                sandbox_info_from_resource(
                    &self.resource,
                    Some(self.config.working_dir.clone()),
                ),
            ),
            Err(cause) => EgressOutcome::CleanUp(
                CleaningUp { client: self.client, id: self.resource.id, cause },
            ),
        }
    }
}

impl CleaningUp {
    /// The call that deletes the sandbox.
    pub fn call(&self) -> (r: ApiCall)
        ensures
            r@ == (CallView {
                op: Operation::DeleteSandbox,
                method: Method::Delete,
                path: self.client.path_of(self.id@),
                query: seq![],
                body: BodyView::Nothing,
            }),
    {
        self.client.delete_sandbox(self.id.as_str())
    }

    /// Takes the answer to the delete call. Whatever it is, the error of the egress policy is
    /// the one that is told.
    pub fn deleted(self, reply: Result<(), Error>) -> (r: Error)
        ensures
            r@ == egress_failure(self.id@, self.cause@),
    {
        let mut message = "sandbox '".to_owned();
        message.append(self.id.as_str());
        message.append("' was created but egress policy failed to apply; attempted cleanup");
        Error::context(message.as_str(), self.cause)
    }
}

// ---------------------------------------------------------------------------
// Laws
// ---------------------------------------------------------------------------

/// Traffic that is denied by default is always inspected in full, whatever the policy asks for,
/// and so is traffic of a policy that says nothing.
pub proof fn denied_traffic_is_inspected_in_full(policy: EgressPolicyView)
    ensures
        same_but_for_case(egress_request(policy).default_action, "deny"@)
            ==> egress_request(policy).traffic_inspection == "Full"@,
        policy.default_action.len() == 0 ==> egress_request(policy).traffic_inspection == "Full"@
            && egress_request(policy).default_action == "Deny"@,
{
    if policy.default_action.len() == 0 {
        reveal_strlit("Deny");
        reveal_strlit("deny");
    }
}

/// No sandbox is left behind: one whose egress policy could not be set is deleted, and the error
/// names it; one whose policy was set is told of and kept. What becomes of the deletion does not
/// change what is told.
pub proof fn no_sandbox_is_left_behind(
    resource: SandboxResource,
    config: ConfigView,
    egress: Result<(), ErrorView>,
)
    ensures
        ({
            let (deleted, told) = creation_end(resource, config, egress);
            match egress {
                Ok(_) => deleted is None && told is Ok && told->Ok_0.id == resource.id@,
                Err(cause) => {
                    &&& deleted == Some(resource.id@)
                    &&& told == Err::<InfoView, ErrorView>(egress_failure(resource.id@, cause))
                    &&& occurs(resource.id@, error_text(told->Err_0))
                },
            }
        }),
{
    if let Err(cause) = egress {
        let id = resource.id@;
        let start = "sandbox '"@;
        let text = error_text(egress_failure(id, cause));
        assert(text.skip(start.len() as int).subrange(0, id.len() as int) =~= id);
        assert(id.is_prefix_of(text.skip(start.len() as int)));
    }
}

/// A policy that allows by default keeps the inspection that it asks for.
pub proof fn allowed_traffic_is_inspected_as_asked(policy: EgressPolicyView)
    requires
        policy.default_action.len() > 0,
        !same_but_for_case(policy.default_action, "deny"@),
        policy.traffic_inspection.len() > 0,
    ensures
        egress_request(policy).default_action == policy.default_action,
        egress_request(policy).traffic_inspection == policy.traffic_inspection,
{
}

/// A configuration that says where its sandbox goes is heeded; the account fills in the rest.
pub proof fn configured_scope_wins(config: ConfigView, account: AcaAccount)
    ensures
        ({
            let (region, resource_group, sandbox_group) = scope(config, account);
            &&& config.region.len() > 0 ==> region == config.region
            &&& config.region.len() == 0 ==> region == account.region@
            &&& config.resource_group.len() > 0 ==> resource_group == config.resource_group
            &&& config.resource_group.len() == 0 ==> resource_group == account.resource_group@
            &&& config.sandbox_group.len() > 0 ==> sandbox_group == config.sandbox_group
            &&& config.sandbox_group.len() == 0 ==> sandbox_group == account.sandbox_group@
        }),
{
}

/// Two clients of one provider for one scope make the same calls: a sandbox is found again by
/// whichever client looks for it.
pub proof fn clients_of_one_scope_agree(
    provider: AcaSandboxProvider,
    a: AcaClient,
    b: AcaClient,
    region: Seq<char>,
    resource_group: Seq<char>,
    sandbox_group: Seq<char>,
    id: Seq<char>,
    action: Seq<char>,
)
    requires
        provider.serves(a, region, resource_group, sandbox_group),
        provider.serves(b, region, resource_group, sandbox_group),
    ensures
        a.base() == b.base(),
        a.path() == b.path(),
        a.path_of(id) == b.path_of(id),
        a.action_path_of(id, action) == b.action_path_of(id, action),
{
}

/// The state alone tells whether a sandbox runs: what is known of its last stop, which stays
/// after a resume, changes neither what is told nor whether it is resumed.
pub proof fn state_alone_is_believed(
    a: SandboxResource,
    b: SandboxResource,
    working_directory: Option<Seq<char>>,
)
    requires
        a.state == b.state,
    ensures
        needs_resume(Some(a)) == needs_resume(Some(b)),
        info_of(a, working_directory).state == info_of(b, working_directory).state,
        info_of(a, working_directory).native_state == info_of(b, working_directory).native_state,
{
}

} // verus!
