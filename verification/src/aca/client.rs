//! The data-plane client: what each call sends, and what each answer means.

use vstd::prelude::*;

use crate::decimal::{decimal, push_u64};
use crate::error::{in_context, Error, ErrorView};
use crate::outside::{
    is_random_uuid, json_string_members, parse_json, parse_url, parsed_url, random_uuid, set_url_path,
    string_member, url_sized, url_with_path,
};
use crate::text::{opt_text, run_before, same_text, split_once, texts};

verus! {

/// The version of the data-plane surface, sent with every request.
pub const API_VERSION: &'static str = "2026-02-01-preview";

/// How this client names itself.
pub const USER_AGENT: &'static str = "fabro-aca/0.1.0";

// ---------------------------------------------------------------------------
// Shapes
// ---------------------------------------------------------------------------

/// When an idle sandbox is suspended.
#[derive(Clone, Debug)]
pub struct AutoSuspendPolicy {
    pub enabled: bool,
    /// Seconds.
    pub interval: u64,
    pub mode: String,
}

/// The lifecycle of a sandbox.
#[derive(Clone, Debug)]
pub struct Lifecycle {
    pub auto_suspend_policy: AutoSuspendPolicy,
}

/// The resources asked for. The disk is assigned by the server.
#[derive(Clone, Debug)]
pub struct CreateResources {
    /// Millicpu, such as `1000m`.
    pub cpu: String,
    /// Mebibytes, such as `2048Mi`.
    pub memory: String,
}

/// The resources a sandbox has.
#[derive(Clone, Debug)]
pub struct SandboxResources {
    pub cpu: String,
    pub memory: String,
    pub disk: String,
}

/// The disk image asked for.
#[derive(Clone, Debug)]
pub struct CreateDiskImage {
    pub is_public: bool,
    pub name: String,
}

/// What a sandbox is made from.
#[derive(Clone, Debug)]
pub struct CreateSourcesRef {
    pub disk_image: CreateDiskImage,
}

/// The body of a create request.
#[derive(Clone, Debug)]
pub struct CreateSandboxRequest {
    pub lifecycle: Lifecycle,
    pub resources: CreateResources,
    pub sources_ref: CreateSourcesRef,
}

/// The disk image a sandbox has, as the server resolved it.
#[derive(Clone, Debug)]
pub struct DiskImageRef {
    pub id: String,
    pub is_public: bool,
}

/// What a sandbox was made from.
#[derive(Clone, Debug)]
pub struct SourcesRef {
    pub disk_image: DiskImageRef,
}

/// How a sandbox was last stopped.
#[derive(Clone, Debug)]
pub struct StateDetails {
    pub stopped_at: Option<String>,
    pub stopped_reason: Option<String>,
}

/// The state of a sandbox.
#[derive(Clone, Copy, Debug, PartialEq, Eq, Structural)]
pub enum SandboxState {
    Running,
    Stopped,
    /// A state that this client does not know.
    Unknown,
}

impl SandboxState {
    /// Reads the `state` member of a sandbox. A value that is not known is no error.
    pub fn from_wire(value: &str) -> (r: SandboxState)
        ensures
            r == SandboxState::Running <==> value@ == "Running"@,
            r == SandboxState::Stopped <==> value@ == "Stopped"@,
            r == SandboxState::Unknown <==> value@ != "Running"@ && value@ != "Stopped"@,
    {
        proof {
            reveal_strlit("Running");
            reveal_strlit("Stopped");
            assert("Running"@[0] != "Stopped"@[0]);
        }
        if same_text(value, "Running") {
            SandboxState::Running
        } else if same_text(value, "Stopped") {
            SandboxState::Stopped
        } else {
            SandboxState::Unknown
        }
    }
}

/// A sandbox, as the data plane describes it. A stopped sandbox comes without its region,
/// management URL and machine monitor; a new one without its outbound addresses.
#[derive(Clone, Debug)]
pub struct SandboxResource {
    pub id: String,
    pub state: SandboxState,
    pub created_at: String,
    pub lifecycle: Lifecycle,
    pub resources: SandboxResources,
    pub sources_ref: SourcesRef,
    pub region: Option<String>,
    pub management_url: Option<String>,
    pub vmm_type: Option<String>,
    pub outbound_ip_addresses: Vec<String>,
    pub state_details: Option<StateDetails>,
    pub snapshot_id: Option<String>,
}

/// The answer to a command.
#[derive(Clone, Debug)]
pub struct AcaExecResponse {
    pub stdout: String,
    pub stderr: String,
    pub exit_code: i32,
    pub execution_time_ms: u64,
}

/// A file or directory.
#[derive(Clone, Debug)]
pub struct AcaFileStat {
    pub name: String,
    pub path: String,
    pub is_dir: bool,
    pub is_symlink: bool,
    /// POSIX mode bits.
    pub mode: u32,
    /// Seconds since the Unix epoch.
    pub modified_time: i64,
    pub size: u64,
}

/// What to do with traffic to the hosts that match a pattern.
#[derive(Clone, Debug)]
pub struct EgressHostRule {
    pub action: String,
    pub pattern: String,
}

/// The body of an egress request.
#[derive(Clone, Debug)]
pub struct EgressSetRequest {
    pub default_action: String,
    pub host_rules: Vec<EgressHostRule>,
    pub traffic_inspection: String,
}

/// The model of a [`CreateSandboxRequest`].
#[verifier::ext_equal]
pub ghost struct CreateView {
    pub auto_suspend: bool,
    pub interval: u64,
    pub mode: Seq<char>,
    pub cpu: Seq<char>,
    pub memory: Seq<char>,
    pub public_image: bool,
    pub image: Seq<char>,
}

impl View for CreateSandboxRequest {
    type V = CreateView;

    open spec fn view(&self) -> CreateView {
        CreateView {
            auto_suspend: self.lifecycle.auto_suspend_policy.enabled,
            interval: self.lifecycle.auto_suspend_policy.interval,
            mode: self.lifecycle.auto_suspend_policy.mode@,
            cpu: self.resources.cpu@,
            memory: self.resources.memory@,
            public_image: self.sources_ref.disk_image.is_public,
            image: self.sources_ref.disk_image.name@,
        }
    }
}

/// The model of an [`EgressHostRule`].
#[verifier::ext_equal]
pub ghost struct HostRuleView {
    pub action: Seq<char>,
    pub pattern: Seq<char>,
}

impl View for EgressHostRule {
    type V = HostRuleView;

    open spec fn view(&self) -> HostRuleView {
        HostRuleView { action: self.action@, pattern: self.pattern@ }
    }
}

/// The model of an [`EgressSetRequest`].
#[verifier::ext_equal]
pub ghost struct EgressView {
    pub default_action: Seq<char>,
    pub host_rules: Seq<HostRuleView>,
    pub traffic_inspection: Seq<char>,
}

impl View for EgressSetRequest {
    type V = EgressView;

    open spec fn view(&self) -> EgressView {
        EgressView {
            default_action: self.default_action@,
            host_rules: self.host_rules@.map_values(|r: EgressHostRule| r@),
            traffic_inspection: self.traffic_inspection@,
        }
    }
}

// ---------------------------------------------------------------------------
// Errors
// ---------------------------------------------------------------------------

/// An error answer of the data plane, by what it means to the caller.
#[derive(Debug)]
pub enum AcaApiError {
    /// The caller's identity lacks the role it needs.
    Auth,
    /// There is no such sandbox.
    NotFound,
    /// The sandbox is there but not running.
    NotRunning,
    /// Any other status.
    Other { status: u16, message: String },
}

/// The model of an [`AcaApiError`].
#[verifier::ext_equal]
pub ghost enum ApiErrorView {
    Auth,
    NotFound,
    NotRunning,
    Other { status: u16, message: Seq<char> },
}

impl View for AcaApiError {
    type V = ApiErrorView;

    open spec fn view(&self) -> ApiErrorView {
        match *self {
            AcaApiError::Auth => ApiErrorView::Auth,
            AcaApiError::NotFound => ApiErrorView::NotFound,
            AcaApiError::NotRunning => ApiErrorView::NotRunning,
            AcaApiError::Other { status, message } => ApiErrorView::Other {
                status,
                message: message@,
            },
        }
    }
}

impl ApiErrorView {
    /// What the error says.
    pub open spec fn text(self) -> Seq<char> {
        match self {
            ApiErrorView::Auth =>
                "ACA data-plane request was denied (403) — the caller's identity is missing the 'Container Apps SandboxGroup Data Owner' role assignment on the sandbox group"@,
            ApiErrorView::NotFound => "ACA sandbox not found"@,
            ApiErrorView::NotRunning => "ACA sandbox is not running (GlobalSandboxNotRunning)"@,
            ApiErrorView::Other { status, message } => "ACA data-plane request failed with HTTP "@
                + decimal(status as nat) + ": "@ + message,
        }
    }
}

impl AcaApiError {
    /// The error's text.
    pub fn message(&self) -> (r: String)
        ensures
            r@ == self@.text(),
    {
        match self {
            AcaApiError::Auth =>
                "ACA data-plane request was denied (403) — the caller's identity is missing the 'Container Apps SandboxGroup Data Owner' role assignment on the sandbox group".to_owned(),
            AcaApiError::NotFound => "ACA sandbox not found".to_owned(),
            AcaApiError::NotRunning =>
                "ACA sandbox is not running (GlobalSandboxNotRunning)".to_owned(),
            AcaApiError::Other { status, message } => {
                let mut out = "ACA data-plane request failed with HTTP ".to_owned();
                push_u64(&mut out, *status as u64);
                out.append(": ");
                out.append(message.as_str());
                out
            },
        }
    }
}

/// What a problem body says: its title and its detail, as far as it has them; nothing where it
/// is no JSON or has neither.
pub open spec fn problem_message(members: Option<Map<Seq<char>, Seq<char>>>) -> Option<Seq<char>> {
    match members {
        Some(m) => if m.contains_key("title"@) && m.contains_key("detail"@) {
            Some(m["title"@] + ": "@ + m["detail"@])
        } else if m.contains_key("title"@) {
            Some(m["title"@])
        } else if m.contains_key("detail"@) {
            Some(m["detail"@])
        } else {
            None
        },
        None => None,
    }
}

/// Joins the title and the detail of a problem body.
pub fn joined_problem(title: Option<String>, detail: Option<String>) -> (r: Option<String>)
    ensures
        match (opt_text(title), opt_text(detail)) {
            (Some(t), Some(d)) => opt_text(r) == Some(t + ": "@ + d),
            (Some(t), None) => opt_text(r) == Some(t),
            (None, Some(d)) => opt_text(r) == Some(d),
            (None, None) => r is None,
        },
{
    match (title, detail) {
        (Some(title), Some(detail)) => {
            let mut out = title;
            out.append(": ");
            out.append(detail.as_str());
            Some(out)
        },
        (Some(title), None) => Some(title),
        (None, Some(detail)) => Some(detail),
        (None, None) => None,
    }
}

/// Takes the message out of a problem body, where it holds one.
pub fn extract_problem_message(body: &str) -> (r: Option<String>)
    ensures
        opt_text(r) == problem_message(json_string_members(body@)),
{
    match parse_json(body) {
        Some(value) => joined_problem(
            string_member(&value, "title"),
            string_member(&value, "detail"),
        ),
        None => None,
    }
}

/// What a status that is no success means. The message of the body, where it has one, speaks
/// for a status with no meaning of its own; the body itself otherwise.
pub open spec fn status_error(status: u16, body: Seq<char>, problem: Option<Seq<char>>) -> ApiErrorView {
    if status == 403 {
        ApiErrorView::Auth
    } else if status == 404 {
        ApiErrorView::NotFound
    } else if status == 409 {
        ApiErrorView::NotRunning
    } else {
        ApiErrorView::Other {
            status,
            message: match problem {
                Some(message) => message,
                None => body,
            },
        }
    }
}

/// [`map_status`] with what the body says given.
pub fn classify_status(status: u16, body: &str, problem: Option<String>) -> (r: AcaApiError)
    ensures
        r@ == status_error(status, body@, opt_text(problem)),
{
    if status == 403 {
        AcaApiError::Auth
    } else if status == 404 {
        AcaApiError::NotFound
    } else if status == 409 {
        AcaApiError::NotRunning
    } else {
        AcaApiError::Other {
            status,
            message: match problem {
                Some(message) => message,
                None => body.to_owned(),
            },
        }
    }
}

/// Classifies the status of an answer that is no success.
pub fn map_status(status: u16, body: &str) -> (r: AcaApiError)
    ensures
        r@ == status_error(status, body@, problem_message(json_string_members(body@))),
{
    classify_status(status, body, extract_problem_message(body))
}

// ---------------------------------------------------------------------------
// Calls
// ---------------------------------------------------------------------------

/// The operations of the data plane.
#[derive(Clone, Copy, Debug, PartialEq, Eq, Structural)]
pub enum Operation {
    CreateSandbox,
    GetSandbox,
    ListSandboxes,
    DeleteSandbox,
    Exec,
    FsWrite,
    FsCat,
    FsStat,
    FsLs,
    SetEgress,
    Suspend,
    Resume,
}

/// What an operation is called in messages.
pub open spec fn operation_name(op: Operation) -> Seq<char> {
    match op {
        Operation::CreateSandbox => "create sandbox"@,
        Operation::GetSandbox => "get sandbox"@,
        Operation::ListSandboxes => "list sandboxes"@,
        Operation::DeleteSandbox => "delete sandbox"@,
        Operation::Exec => "exec"@,
        Operation::FsWrite => "fs write"@,
        Operation::FsCat => "fs cat"@,
        Operation::FsStat => "fs stat"@,
        Operation::FsLs => "fs ls"@,
        Operation::SetEgress => "set egress policy"@,
        Operation::Suspend => "suspend sandbox"@,
        Operation::Resume => "resume sandbox"@,
    }
}

impl Operation {
    /// What the operation is called in messages.
    pub fn name(&self) -> (r: &'static str)
        ensures
            r@ == operation_name(*self),
    {
        match self {
            Operation::CreateSandbox => "create sandbox",
            Operation::GetSandbox => "get sandbox",
            Operation::ListSandboxes => "list sandboxes",
            Operation::DeleteSandbox => "delete sandbox",
            Operation::Exec => "exec",
            Operation::FsWrite => "fs write",
            Operation::FsCat => "fs cat",
            Operation::FsStat => "fs stat",
            Operation::FsLs => "fs ls",
            Operation::SetEgress => "set egress policy",
            Operation::Suspend => "suspend sandbox",
            Operation::Resume => "resume sandbox",
        }
    }
}

/// The methods of HTTP that the data plane uses.
#[derive(Clone, Copy, Debug, PartialEq, Eq, Structural)]
pub enum Method {
    Get,
    Put,
    Post,
    Delete,
}

/// What a request carries.
#[derive(Clone, Debug)]
pub enum Body {
    /// Nothing.
    Nothing,
    /// An empty JSON object.
    EmptyObject,
    /// A create request, as JSON.
    Create(CreateSandboxRequest),
    /// A command line, as the `command` member of a JSON object.
    Command(String),
    /// An egress policy, as JSON.
    Egress(EgressSetRequest),
    /// Raw bytes.
    Bytes(Vec<u8>),
}

/// The model of a [`Body`].
#[verifier::ext_equal]
pub ghost enum BodyView {
    Nothing,
    EmptyObject,
    Create(CreateView),
    Command(Seq<char>),
    Egress(EgressView),
    Bytes(Seq<u8>),
}

impl View for Body {
    type V = BodyView;

    open spec fn view(&self) -> BodyView {
        match *self {
            Body::Nothing => BodyView::Nothing,
            Body::EmptyObject => BodyView::EmptyObject,
            Body::Create(request) => BodyView::Create(request@),
            Body::Command(command) => BodyView::Command(command@),
            Body::Egress(request) => BodyView::Egress(request@),
            Body::Bytes(bytes) => BodyView::Bytes(bytes@),
        }
    }
}

/// A name and a value: a query parameter or a header.
#[derive(Clone, Debug)]
pub struct Pair {
    pub name: String,
    pub value: String,
}

/// The model of a [`Pair`].
#[verifier::ext_equal]
pub ghost struct PairView {
    pub name: Seq<char>,
    pub value: Seq<char>,
}

impl View for Pair {
    type V = PairView;

    open spec fn view(&self) -> PairView {
        PairView { name: self.name@, value: self.value@ }
    }
}

/// The model of a list of pairs.
pub open spec fn pairs(v: Seq<Pair>) -> Seq<PairView> {
    v.map_values(|p: Pair| p@)
}

/// A pair of texts.
pub open spec fn pair_of(name: Seq<char>, value: Seq<char>) -> PairView {
    PairView { name, value }
}

fn pair(name: &str, value: &str) -> (r: Pair)
    ensures
        r@ == pair_of(name@, value@),
{
    Pair { name: name.to_owned(), value: value.to_owned() }
}

fn push_pair(list: &mut Vec<Pair>, name: &str, value: &str)
    ensures
        pairs(final(list)@) == pairs(old(list)@).push(pair_of(name@, value@)),
{
    let p = pair(name, value);
    list.push(p);
    proof {
        assert(pairs(list@) =~= pairs(old(list)@).push(p@));
    }
}

/// One call of the data plane, before it is addressed and authenticated.
#[derive(Clone, Debug)]
pub struct ApiCall {
    pub op: Operation,
    pub method: Method,
    /// The path below the client's base.
    pub path: String,
    /// The query parameters of this call, not encoded.
    pub query: Vec<Pair>,
    pub body: Body,
}

/// The model of an [`ApiCall`].
#[verifier::ext_equal]
pub ghost struct CallView {
    pub op: Operation,
    pub method: Method,
    pub path: Seq<char>,
    pub query: Seq<PairView>,
    pub body: BodyView,
}

impl View for ApiCall {
    type V = CallView;

    open spec fn view(&self) -> CallView {
        CallView {
            op: self.op,
            method: self.method,
            path: self.path@,
            query: pairs(self.query@),
            body: self.body@,
        }
    }
}

/// A request, ready to be sent.
#[derive(Clone, Debug)]
pub struct HttpRequest {
    pub method: Method,
    pub url: String,
    /// All query parameters, not encoded.
    pub query: Vec<Pair>,
    pub headers: Vec<Pair>,
    pub body: Body,
}

/// The model of an [`HttpRequest`].
#[verifier::ext_equal]
pub ghost struct RequestView {
    pub method: Method,
    pub url: Seq<char>,
    pub query: Seq<PairView>,
    pub headers: Seq<PairView>,
    pub body: BodyView,
}

impl View for HttpRequest {
    type V = RequestView;

    open spec fn view(&self) -> RequestView {
        RequestView {
            method: self.method,
            url: self.url@,
            query: pairs(self.query@),
            headers: pairs(self.headers@),
            body: self.body@,
        }
    }
}

/// The header that names the form of a body, where there is one.
pub open spec fn content_type(body: BodyView) -> Seq<PairView> {
    match body {
        BodyView::Nothing => seq![],
        BodyView::Bytes(_) => seq![pair_of("content-type"@, "application/octet-stream"@)],
        _ => seq![pair_of("content-type"@, "application/json"@)],
    }
}

/// The headers of a request, but for the form of its body: the token, the request's id and the
/// client's name, and for a `GET` the form that an answer is expected in.
pub open spec fn common_headers(method: Method, token: Seq<char>, request_id: Seq<char>) -> Seq<
    PairView,
> {
    let common = seq![
        pair_of("authorization"@, "Bearer "@ + token),
        pair_of("x-ms-client-request-id"@, request_id),
        pair_of("user-agent"@, USER_AGENT@),
    ];
    if method == Method::Get {
        common.push(pair_of("accept"@, "application/json"@))
    } else {
        common
    }
}

/// The query parameters of a request: the version, and then those of the call.
pub open spec fn full_query(extra: Seq<PairView>) -> Seq<PairView> {
    seq![pair_of("api-version"@, API_VERSION@)] + extra
}

// ---------------------------------------------------------------------------
// The client
// ---------------------------------------------------------------------------

/// Builds the calls of one sandbox group and reads their answers.
pub struct AcaClient {
    base: String,
    subscription: String,
    resource_group: String,
    sandbox_group: String,
}

/// The path of the sandboxes of a group.
pub open spec fn group_path(
    subscription: Seq<char>,
    resource_group: Seq<char>,
    sandbox_group: Seq<char>,
) -> Seq<char> {
    "/subscriptions/"@ + subscription + "/resourceGroups/"@ + resource_group + "/sandboxGroups/"@
        + sandbox_group + "/sandboxes"@
}

/// The host rule that a rule text stands for: `pattern:Action`, or a pattern alone, which takes
/// the default action. The first colon is the one that counts.
pub open spec fn host_rule(rule: Seq<char>, default_action: Seq<char>) -> HostRuleView {
    let n = run_before(rule, ':');
    if n < rule.len() {
        HostRuleView { action: rule.skip(n as int + 1), pattern: rule.take(n as int) }
    } else {
        HostRuleView { action: default_action, pattern: rule }
    }
}

fn parse_host_rule(rule: &str, default_action: &str) -> (r: EgressHostRule)
    ensures
        r@ == host_rule(rule@, default_action@),
{
    match split_once(rule, ':') {
        Some((pattern, action)) => EgressHostRule { action, pattern },
        None => EgressHostRule { action: default_action.to_owned(), pattern: rule.to_owned() },
    }
}

/// The host rules that a list of rule texts stands for.
pub fn parse_host_rules(rules: &Vec<String>, default_action: &str) -> (r: Vec<EgressHostRule>)
    ensures
        r@.map_values(|r: EgressHostRule| r@) == texts(rules@).map_values(
            |rule: Seq<char>| host_rule(rule, default_action@),
        ),
{
    let mut r: Vec<EgressHostRule> = Vec::new();
    let mut i: usize = 0;
    while i < rules.len()
        invariant
            i <= rules@.len(),
            r@.len() == i,
            forall|j: int|
                0 <= j < i ==> (#[trigger] r@[j])@ == host_rule(rules@[j]@, default_action@),
        decreases rules@.len() - i,
    {
        r.push(parse_host_rule(rules[i].as_str(), default_action));
        i = i + 1;
    }
    proof {
        assert(r@.map_values(|r: EgressHostRule| r@) =~= texts(rules@).map_values(
            |rule: Seq<char>| host_rule(rule, default_action@),
        ));
    }
    r
}

impl Clone for AcaClient {
    fn clone(&self) -> (r: AcaClient)
        ensures
            r.base() == self.base(),
            r.subscription() == self.subscription(),
            r.resource_group() == self.resource_group(),
            r.sandbox_group() == self.sandbox_group(),
    {
        proof {
            use_type_invariant(self);
        }
        AcaClient {
            base: self.base.clone(),
            subscription: self.subscription.clone(),
            resource_group: self.resource_group.clone(),
            sandbox_group: self.sandbox_group.clone(),
        }
    }
}

impl AcaClient {
    /// The text of the URL that every request is addressed below.
    pub closed spec fn base(self) -> Seq<char> {
        self.base@
    }

    /// The subscription that this client works in.
    pub closed spec fn subscription(self) -> Seq<char> {
        self.subscription@
    }

    /// The resource group that this client works in.
    pub closed spec fn resource_group(self) -> Seq<char> {
        self.resource_group@
    }

    /// The sandbox group that this client works in.
    pub closed spec fn sandbox_group(self) -> Seq<char> {
        self.sandbox_group@
    }

    /// A client is always addressed below a URL.
    #[verifier::type_invariant]
    spec fn has_url(self) -> bool {
        parsed_url(self.base@) is Ok
    }

    /// The path of this client's sandboxes.
    pub open spec fn path(self) -> Seq<char> {
        group_path(self.subscription(), self.resource_group(), self.sandbox_group())
    }

    /// The path of one sandbox.
    pub open spec fn path_of(self, id: Seq<char>) -> Seq<char> {
        self.path() + "/"@ + id
    }

    /// The path of an action on one sandbox.
    pub open spec fn action_path_of(self, id: Seq<char>, action: Seq<char>) -> Seq<char> {
        self.path() + "/"@ + id + "/"@ + action
    }

    /// A client for one sandbox group, addressed below `base`: fails exactly where `base` is
    /// no URL, with the reason.
    pub fn new(
        base: &str,
        subscription: String,
        resource_group: String,
        sandbox_group: String,
    ) -> (r: Result<AcaClient, Error>)
        ensures
            match r {
                Ok(client) => {
                    &&& parsed_url(base@) is Ok
                    &&& client.base() == base@
                    &&& client.subscription() == subscription@
                    &&& client.resource_group() == resource_group@
                    &&& client.sandbox_group() == sandbox_group@
                },
                Err(e) => parsed_url(base@) is Err && e@ == ErrorView::Outside(
                    parsed_url(base@)->Err_0,
                ),
            },
    {
        match parse_url(base) {
            Ok(_) => Ok(
                AcaClient { base: base.to_owned(), subscription, resource_group, sandbox_group },
            ),
            Err(cause) => Err(Error::Outside(cause)),
        }
    }

    fn sandboxes_path(&self) -> (r: String)
        ensures
            r@ == self.path(),
    {
        let mut path = "/subscriptions/".to_owned();
        path.append(self.subscription.as_str());
        path.append("/resourceGroups/");
        path.append(self.resource_group.as_str());
        path.append("/sandboxGroups/");
        path.append(self.sandbox_group.as_str());
        path.append("/sandboxes");
        path
    }

    fn sandbox_path(&self, id: &str) -> (r: String)
        ensures
            r@ == self.path_of(id@),
    {
        let mut path = self.sandboxes_path();
        path.append("/");
        path.append(id);
        path
    }

    fn sandbox_action_path(&self, id: &str, action: &str) -> (r: String)
        ensures
            r@ == self.action_path_of(id@, action@),
    {
        let mut path = self.sandbox_path(id);
        path.append("/");
        path.append(action);
        path
    }

    /// `PUT .../sandboxes`: create a sandbox.
    pub fn create_sandbox(&self, request: CreateSandboxRequest) -> (r: ApiCall)
        ensures
            r@ == (CallView {
                op: Operation::CreateSandbox,
                method: Method::Put,
                path: self.path(),
                query: seq![],
                body: BodyView::Create(request@),
            }),
    {
        let r = ApiCall {
            op: Operation::CreateSandbox,
            method: Method::Put,
            path: self.sandboxes_path(),
            query: Vec::new(),
            body: Body::Create(request),
        };
        proof {
            assert(pairs(r.query@) =~= seq![]);
        }
        r
    }

    /// `GET .../sandboxes/{id}`: one sandbox.
    pub fn get_sandbox(&self, id: &str) -> (r: ApiCall)
        ensures
            r@ == (CallView {
                op: Operation::GetSandbox,
                method: Method::Get,
                path: self.path_of(id@),
                query: seq![],
                body: BodyView::Nothing,
            }),
    {
        let r = ApiCall {
            op: Operation::GetSandbox,
            method: Method::Get,
            path: self.sandbox_path(id),
            query: Vec::new(),
            body: Body::Nothing,
        };
        proof {
            assert(pairs(r.query@) =~= seq![]);
        }
        r
    }

    /// `GET .../sandboxes`: all sandboxes of the group.
    pub fn list_sandboxes(&self) -> (r: ApiCall)
        ensures
            r@ == (CallView {
                op: Operation::ListSandboxes,
                method: Method::Get,
                path: self.path(),
                query: seq![],
                body: BodyView::Nothing,
            }),
    {
        let r = ApiCall {
            op: Operation::ListSandboxes,
            method: Method::Get,
            path: self.sandboxes_path(),
            query: Vec::new(),
            body: Body::Nothing,
        };
        proof {
            assert(pairs(r.query@) =~= seq![]);
        }
        r
    }

    /// `DELETE .../sandboxes/{id}`: delete a sandbox. The server deletes later: an answer only
    /// says that it will.
    pub fn delete_sandbox(&self, id: &str) -> (r: ApiCall)
        ensures
            r@ == (CallView {
                op: Operation::DeleteSandbox,
                method: Method::Delete,
                path: self.path_of(id@),
                query: seq![],
                body: BodyView::Nothing,
            }),
    {
        let r = ApiCall {
            op: Operation::DeleteSandbox,
            method: Method::Delete,
            path: self.sandbox_path(id),
            query: Vec::new(),
            body: Body::Nothing,
        };
        proof {
            assert(pairs(r.query@) =~= seq![]);
        }
        r
    }

    /// `POST .../executeShellCommand`: run a command line, exactly as given.
    pub fn exec(&self, sandbox_id: &str, command: &str) -> (r: ApiCall)
        ensures
            r@ == (CallView {
                op: Operation::Exec,
                method: Method::Post,
                path: self.action_path_of(sandbox_id@, "executeShellCommand"@),
                query: seq![],
                body: BodyView::Command(command@),
            }),
    {
        let r = ApiCall {
            op: Operation::Exec,
            method: Method::Post,
            path: self.sandbox_action_path(sandbox_id, "executeShellCommand"),
            query: Vec::new(),
            body: Body::Command(command.to_owned()),
        };
        proof {
            assert(pairs(r.query@) =~= seq![]);
        }
        r
    }

    /// `PUT .../files`: write a file. The bytes are sent raw.
    pub fn fs_write(&self, sandbox_id: &str, path: &str, bytes: Vec<u8>, create_dirs: bool) -> (r:
        ApiCall)
        ensures
            r@ == (CallView {
                op: Operation::FsWrite,
                method: Method::Put,
                path: self.action_path_of(sandbox_id@, "files"@),
                query: seq![
                    pair_of("path"@, path@),
                    pair_of(
                        "createDirs"@,
                        if create_dirs {
                            "true"@
                        } else {
                            "false"@
                        },
                    ),
                ],
                body: BodyView::Bytes(bytes@),
            }),
    {
        let mut query: Vec<Pair> = Vec::new();
        push_pair(&mut query, "path", path);
        push_pair(
            &mut query,
            "createDirs",
            if create_dirs {
                "true"
            } else {
                "false"
            },
        );
        let r = ApiCall {
            op: Operation::FsWrite,
            method: Method::Put,
            path: self.sandbox_action_path(sandbox_id, "files"),
            query,
            body: Body::Bytes(bytes),
        };
        r
    }

    fn file_call(&self, op: Operation, sandbox_id: &str, action: &str, path: &str) -> (r: ApiCall)
        ensures
            r@ == (CallView {
                op,
                method: Method::Get,
                path: self.action_path_of(sandbox_id@, action@),
                query: seq![pair_of("path"@, path@)],
                body: BodyView::Nothing,
            }),
    {
        let mut query: Vec<Pair> = Vec::new();
        push_pair(&mut query, "path", path);
        ApiCall {
            op,
            method: Method::Get,
            path: self.sandbox_action_path(sandbox_id, action),
            query,
            body: Body::Nothing,
        }
    }

    /// `GET .../files`: the bytes of a file.
    pub fn fs_cat(&self, sandbox_id: &str, path: &str) -> (r: ApiCall)
        ensures
            r@ == (CallView {
                op: Operation::FsCat,
                method: Method::Get,
                path: self.action_path_of(sandbox_id@, "files"@),
                query: seq![pair_of("path"@, path@)],
                body: BodyView::Nothing,
            }),
    {
        self.file_call(Operation::FsCat, sandbox_id, "files", path)
    }

    /// `GET .../files/stat`: what is at a path.
    pub fn fs_stat(&self, sandbox_id: &str, path: &str) -> (r: ApiCall)
        ensures
            r@ == (CallView {
                op: Operation::FsStat,
                method: Method::Get,
                path: self.action_path_of(sandbox_id@, "files/stat"@),
                query: seq![pair_of("path"@, path@)],
                body: BodyView::Nothing,
            }),
    {
        self.file_call(Operation::FsStat, sandbox_id, "files/stat", path)
    }

    /// `GET .../files/list`: the entries of a directory.
    pub fn fs_ls(&self, sandbox_id: &str, path: &str) -> (r: ApiCall)
        ensures
            r@ == (CallView {
                op: Operation::FsLs,
                method: Method::Get,
                path: self.action_path_of(sandbox_id@, "files/list"@),
                query: seq![pair_of("path"@, path@)],
                body: BodyView::Nothing,
            }),
    {
        self.file_call(Operation::FsLs, sandbox_id, "files/list", path)
    }

    /// `POST .../egresspolicy`: set what the sandbox may reach.
    pub fn set_egress(
        &self,
        sandbox_id: &str,
        default_action: &str,
        rules: &Vec<String>,
        inspection: &str,
    ) -> (r: ApiCall)
        ensures
            r@ == (CallView {
                op: Operation::SetEgress,
                method: Method::Post,
                path: self.action_path_of(sandbox_id@, "egresspolicy"@),
                query: seq![],
                body: BodyView::Egress(
                    EgressView {
                        default_action: default_action@,
                        host_rules: texts(rules@).map_values(
                            |rule: Seq<char>| host_rule(rule, default_action@),
                        ),
                        traffic_inspection: inspection@,
                    },
                ),
            }),
    {
        let request = EgressSetRequest {
            default_action: default_action.to_owned(),
            host_rules: parse_host_rules(rules, default_action),
            traffic_inspection: inspection.to_owned(),
        };
        let r = ApiCall {
            op: Operation::SetEgress,
            method: Method::Post,
            path: self.sandbox_action_path(sandbox_id, "egresspolicy"),
            query: Vec::new(),
            body: Body::Egress(request),
        };
        proof {
            assert(pairs(r.query@) =~= seq![]);
        }
        r
    }

    fn bare_action(&self, op: Operation, sandbox_id: &str, action: &str) -> (r: ApiCall)
        ensures
            r@ == (CallView {
                op,
                method: Method::Post,
                path: self.action_path_of(sandbox_id@, action@),
                query: seq![],
                body: BodyView::EmptyObject,
            }),
    {
        let r = ApiCall {
            op,
            method: Method::Post,
            path: self.sandbox_action_path(sandbox_id, action),
            query: Vec::new(),
            body: Body::EmptyObject,
        };
        proof {
            assert(pairs(r.query@) =~= seq![]);
        }
        r
    }

    /// `POST .../stop`: suspend the sandbox.
    pub fn suspend(&self, sandbox_id: &str) -> (r: ApiCall)
        ensures
            r@ == (CallView {
                op: Operation::Suspend,
                method: Method::Post,
                path: self.action_path_of(sandbox_id@, "stop"@),
                query: seq![],
                body: BodyView::EmptyObject,
            }),
    {
        self.bare_action(Operation::Suspend, sandbox_id, "stop")
    }

    /// `POST .../resume`: resume a suspended sandbox.
    pub fn resume(&self, sandbox_id: &str) -> (r: ApiCall)
        ensures
            r@ == (CallView {
                op: Operation::Resume,
                method: Method::Post,
                path: self.action_path_of(sandbox_id@, "resume"@),
                query: seq![],
                body: BodyView::EmptyObject,
            }),
    {
        self.bare_action(Operation::Resume, sandbox_id, "resume")
    }

    /// Whether a path is short enough to address a request with it.
    pub open spec fn can_address(self, path: Seq<char>) -> bool {
        url_sized(self.base().len() + path.len())
    }

    /// Whether a call is short enough to be addressed.
    pub fn addressable(&self, call: &ApiCall) -> (r: bool)
        ensures
            r == self.can_address(call.path@),
    {
        let base: usize = crate::text::chars_of(self.base.as_str()).len();
        let path: usize = crate::text::chars_of(call.path.as_str()).len();
        base <= 0x100_0000 && path <= 0x100_0000 - base
    }

    /// [`AcaClient::authenticated_request`] with the request's id given.
    pub fn request_with_id(&self, call: ApiCall, token: &str, request_id: &str) -> (r: HttpRequest)
        requires
            self.can_address(call.path@),
        ensures
            r@ == (RequestView {
                method: call.method,
                url: url_with_path(self.base(), call.path@),
                query: full_query(call@.query),
                headers: common_headers(call.method, token@, request_id@),
                body: call@.body,
            }),
    {
        proof {
            use_type_invariant(self);
        }
        let url = set_url_path(self.base.as_str(), call.path.as_str());
        let mut query: Vec<Pair> = Vec::new();
        push_pair(&mut query, "api-version", API_VERSION);
        let mut i: usize = 0;
        while i < call.query.len()
            invariant
                i <= call.query@.len(),
                pairs(query@) == full_query(pairs(call.query@).take(i as int)),
            decreases call.query@.len() - i,
        {
            push_pair(
                &mut query,
                call.query[i].name.as_str(),
                call.query[i].value.as_str(),
            );
            proof {
                assert(pairs(call.query@).take(i + 1) =~= pairs(call.query@).take(i as int).push(
                    call.query@[i as int]@,
                ));
                assert(pairs(query@) =~= full_query(pairs(call.query@).take(i + 1)));
            }
            i = i + 1;
        }
        proof {
            assert(pairs(call.query@).take(i as int) =~= pairs(call.query@));
        }
        let mut bearer = "Bearer ".to_owned();
        bearer.append(token);
        let mut headers: Vec<Pair> = Vec::new();
        push_pair(&mut headers, "authorization", bearer.as_str());
        push_pair(&mut headers, "x-ms-client-request-id", request_id);
        push_pair(&mut headers, "user-agent", USER_AGENT);
        if call.method == Method::Get {
            push_pair(&mut headers, "accept", "application/json");
        }
        let r = HttpRequest { method: call.method, url, query, headers, body: call.body };
        proof {
            assert(r@.headers =~= common_headers(call.method, token@, request_id@));
        }
        r
    }

    /// Addresses and authenticates a call, under a request id of its own.
    pub fn authenticated_request(&self, call: ApiCall, token: &str) -> (r: HttpRequest)
        requires
            self.can_address(call.path@),
        ensures
            exists|request_id: Seq<char>|
                #![trigger common_headers(call.method, token@, request_id)]
                is_random_uuid(request_id) && r@ == (RequestView {
                    method: call.method,
                    url: url_with_path(self.base(), call.path@),
                    query: full_query(call@.query),
                    headers: common_headers(call.method, token@, request_id),
                    body: call@.body,
                }),
    {
        let request_id = random_uuid();
        let r = self.request_with_id(call, token, request_id.as_str());
        proof {
            assert(is_random_uuid(request_id@) && r@.headers == common_headers(
                call.method,
                token@,
                request_id@,
            ));
        }
        r
    }

    /// The request that sends a call: addressed and authenticated, with the form of its body
    /// named.
    pub fn send(&self, call: ApiCall, token: &str) -> (r: HttpRequest)
        requires
            self.can_address(call.path@),
        ensures
            exists|request_id: Seq<char>|
                #![trigger common_headers(call.method, token@, request_id)]
                is_random_uuid(request_id) && r@ == (RequestView {
                    method: call.method,
                    url: url_with_path(self.base(), call.path@),
                    query: full_query(call@.query),
                    headers: common_headers(call.method, token@, request_id) + content_type(
                        call@.body,
                    ),
                    body: call@.body,
                }),
    {
        let mut r = self.authenticated_request(call, token);
        let ghost before = r@;
        let form: Option<&'static str> = match &r.body {
            Body::Nothing => None,
            Body::Bytes(_) => Some("application/octet-stream"),
            _ => Some("application/json"),
        };
        if let Some(form) = form {
            push_pair(&mut r.headers, "content-type", form);
        }
        proof {
            let request_id = choose|request_id: Seq<char>|
                #![trigger common_headers(call.method, token@, request_id)]
                is_random_uuid(request_id) && before == (RequestView {
                    method: call.method,
                    url: url_with_path(self.base(), call.path@),
                    query: full_query(call@.query),
                    headers: common_headers(call.method, token@, request_id),
                    body: call@.body,
                });
            assert(r@.headers =~= common_headers(call.method, token@, request_id) + content_type(
                call@.body,
            ));
        }
        r
    }
}

// ---------------------------------------------------------------------------
// Answers
// ---------------------------------------------------------------------------

/// Whether a status reports success.
pub open spec fn is_success_status(status: u16) -> bool {
    200 <= status <= 299
}

/// Whether an answer of this status is read as success.
pub fn succeeds(status: u16) -> (r: bool)
    ensures
        r == is_success_status(status),
{
    200 <= status && status <= 299
}

/// The error for a request that did not get an answer.
pub fn send_failure(cause: String) -> (r: Error)
    ensures
        r@ == in_context("ACA data-plane request failed"@, ErrorView::Outside(cause@)),
{
    Error::outside("ACA data-plane request failed", cause)
}

/// The error for an answer whose body could not be read.
pub open spec fn unreadable(op: Operation, cause: Seq<char>) -> ErrorView {
    in_context(
        "Failed to read ACA "@ + operation_name(op) + " response body"@,
        ErrorView::Outside(cause),
    )
}

/// The error for an answer that is no success.
pub open spec fn refused(op: Operation, status: u16, body: Seq<char>) -> ErrorView {
    in_context(
        "ACA "@ + operation_name(op) + " request failed"@,
        ErrorView::Api(status_error(status, body, problem_message(json_string_members(body)))),
    )
}

/// The error for a body that is not what it should be.
pub open spec fn undecodable(op: Operation, cause: Seq<char>) -> ErrorView {
    in_context(
        "Failed to decode ACA "@ + operation_name(op) + " response"@,
        ErrorView::Outside(cause),
    )
}

fn read_failure(op: Operation, cause: String) -> (r: Error)
    ensures
        r@ == unreadable(op, cause@),
{
    let mut message = "Failed to read ACA ".to_owned();
    message.append(op.name());
    message.append(" response body");
    Error::outside(message.as_str(), cause)
}

fn refusal(op: Operation, status: u16, body: &str) -> (r: Error)
    ensures
        r@ == refused(op, status, body@),
{
    let mut message = "ACA ".to_owned();
    message.append(op.name());
    message.append(" request failed");
    Error::context(message.as_str(), Error::Api(map_status(status, body)))
}

/// The error for a body that could not be decoded.
pub fn decode_failure(op: Operation, cause: String) -> (r: Error)
    ensures
        r@ == undecodable(op, cause@),
{
    let mut message = "Failed to decode ACA ".to_owned();
    message.append(op.name());
    message.append(" response");
    Error::outside(message.as_str(), cause)
}

/// The text of an answer: its body where the status is a success, and the classified error
/// where it is not. A body that could not be read is an error whatever the status.
pub fn ok_body(op: Operation, status: u16, body: Result<String, String>) -> (r: Result<String, Error>)
    ensures
        match body {
            Err(cause) => r is Err && r->Err_0@ == unreadable(op, cause@),
            Ok(text) => if is_success_status(status) {
                r == Ok::<String, Error>(text)
            } else {
                r is Err && r->Err_0@ == refused(op, status, text@)
            },
        },
{
    match body {
        Err(cause) => Err(read_failure(op, cause)),
        Ok(text) => if succeeds(status) {
            Ok(text)
        } else {
            Err(refusal(op, status, text.as_str()))
        },
    }
}

/// The text of an answer about one thing that may not be there: a 404 is no error, and its
/// body is not looked at.
pub fn found_body(op: Operation, status: u16, body: Result<String, String>) -> (r: Result<
    Option<String>,
    Error,
>)
    ensures
        if status == 404 {
            r == Ok::<Option<String>, Error>(None)
        } else {
            match body {
                Err(cause) => r is Err && r->Err_0@ == unreadable(op, cause@),
                Ok(text) => if is_success_status(status) {
                    r == Ok::<Option<String>, Error>(Some(text))
                } else {
                    r is Err && r->Err_0@ == refused(op, status, text@)
                },
            }
        },
{
    if status == 404 {
        return Ok(None);
    }
    match ok_body(op, status, body) {
        Ok(text) => Ok(Some(text)),
        Err(e) => Err(e),
    }
}

/// What was read of an answer whose success is raw bytes: bytes where the status is a success,
/// text where it is not, or why neither could be read.
#[derive(Debug)]
pub enum RawReply {
    Bytes(Vec<u8>),
    Text(String),
    Unread(String),
}

/// The bytes of an answer, or the classified error.
pub fn ok_bytes(op: Operation, status: u16, reply: RawReply) -> (r: Result<Vec<u8>, Error>)
    requires
        reply is Bytes ==> is_success_status(status),
        reply is Text ==> !is_success_status(status),
    ensures
        match reply {
            RawReply::Bytes(bytes) => r == Ok::<Vec<u8>, Error>(bytes),
            RawReply::Text(text) => r is Err && r->Err_0@ == refused(op, status, text@),
            RawReply::Unread(cause) => r is Err && r->Err_0@ == unreadable(op, cause@),
        },
{
    match reply {
        RawReply::Bytes(bytes) => Ok(bytes),
        RawReply::Text(text) => Err(refusal(op, status, text.as_str())),
        RawReply::Unread(cause) => Err(read_failure(op, cause)),
    }
}

// ---------------------------------------------------------------------------
// Laws
// ---------------------------------------------------------------------------

/// A refused call is answered with an error whose cause tells the four kinds of refusal apart
/// by the status alone, whatever the body says.
pub proof fn refusals_are_classified_by_status(op: Operation, status: u16, body: Seq<char>)
    ensures
        refused(op, status, body) matches ErrorView::Context { source, .. } && {
            &&& (*source == ErrorView::Api(ApiErrorView::Auth) <==> status == 403)
            &&& (*source == ErrorView::Api(ApiErrorView::NotFound) <==> status == 404)
            &&& (*source == ErrorView::Api(ApiErrorView::NotRunning) <==> status == 409)
            &&& (*source matches ErrorView::Api(ApiErrorView::Other { status: s, .. }) && s == status
                <==> status != 403 && status != 404 && status != 409)
        },
{
}

/// Every request carries the version, the token and a request id, whatever the call.
pub proof fn every_request_is_versioned_and_authenticated(
    method: Method,
    token: Seq<char>,
    request_id: Seq<char>,
    extra: Seq<PairView>,
)
    ensures
        full_query(extra).contains(pair_of("api-version"@, API_VERSION@)),
        common_headers(method, token, request_id).contains(
            pair_of("authorization"@, "Bearer "@ + token),
        ),
        common_headers(method, token, request_id).contains(
            pair_of("x-ms-client-request-id"@, request_id),
        ),
        common_headers(method, token, request_id).contains(
            pair_of("accept"@, "application/json"@),
        ) <==> method == Method::Get,
{
    let headers = common_headers(method, token, request_id);
    assert(full_query(extra)[0] == pair_of("api-version"@, API_VERSION@));
    assert(headers[0] == pair_of("authorization"@, "Bearer "@ + token));
    assert(headers[1] == pair_of("x-ms-client-request-id"@, request_id));
    if method == Method::Get {
        assert(headers[3] == pair_of("accept"@, "application/json"@));
    } else {
        reveal_strlit("accept");
        reveal_strlit("authorization");
        reveal_strlit("x-ms-client-request-id");
        reveal_strlit("user-agent");
        assert forall|i: int| 0 <= i < headers.len() implies headers[i] != pair_of(
            "accept"@,
            "application/json"@,
        ) by {
            assert(headers[i].name.len() != "accept"@.len());
        }
    }
}

/// A rule with no colon takes the default action; one with a colon keeps its own, and is put
/// together again from its pattern and its action.
pub proof fn host_rule_reads_back(rule: Seq<char>, default_action: Seq<char>)
    ensures
        ({
            let r = host_rule(rule, default_action);
            if rule.contains(':') {
                r.pattern + ":"@ + r.action == rule && !r.pattern.contains(':')
            } else {
                r.pattern == rule && r.action == default_action
            }
        }),
{
    crate::text::run_before_stops_at_the_first(rule, ':');
    reveal_strlit(":");
    let n = run_before(rule, ':');
    let r = host_rule(rule, default_action);
    if n < rule.len() {
        assert(rule[n as int] == ':');
        assert(r.pattern + ":"@ + r.action =~= rule);
    } else {
        assert(!rule.contains(':'));
    }
}

} // verus!
