//! Requests to the data plane, and what their answers mean.

use vstd::prelude::*;

use crate::aca::client::{
    common_headers, content_type, full_query, host_rule, is_success_status, operation_name,
    problem_message, refused, status_error, undecodable, unreadable, AcaApiError, AcaClient, ApiCall,
    ApiErrorView, Body, BodyView, CreateSandboxRequest, EgressHostRule, EgressSetRequest, HostRuleView,
    HttpRequest, Method, Operation, PairView,
};
use crate::decimal::decimal;
use crate::error::ErrorView;
use crate::outside::json_string_members;

verus! {

/// The path of a group's sandboxes names the subscription, the resource group and the sandbox
/// group, in that order; the path of one sandbox adds its id, and that of an action the action.
pub proof fn paths_name_what_they_lead_to(client: AcaClient, id: Seq<char>, action: Seq<char>)
    ensures
        client.path() == "/subscriptions/"@ + client.subscription() + "/resourceGroups/"@
            + client.resource_group() + "/sandboxGroups/"@ + client.sandbox_group()
            + "/sandboxes"@,
        client.path_of(id) == client.path() + "/"@ + id,
        client.action_path_of(id, action) == client.path() + "/"@ + id + "/"@ + action,
        client.can_address(id) <==> client.base().len() + id.len() <= 0x100_0000,
{
}

/// Two sandboxes of a client never share a path.
pub proof fn sandboxes_have_paths_of_their_own(client: AcaClient, a: Seq<char>, b: Seq<char>)
    requires
        client.path_of(a) == client.path_of(b),
    ensures
        a == b,
{
    let base = client.path() + "/"@;
    assert((base + a).skip(base.len() as int) =~= a);
    assert((base + b).skip(base.len() as int) =~= b);
}

/// A request carries the version first, and after it the parameters of the call as they are.
pub proof fn queries_are_versioned_and_complete(extra: Seq<PairView>)
    ensures
        full_query(extra).len() == extra.len() + 1,
        full_query(extra)[0] == (PairView { name: "api-version"@, value: "2026-02-01-preview"@ }),
        forall|i: int| 0 <= i < extra.len() ==> full_query(extra)[i + 1] == #[trigger] extra[i],
{
}

/// The headers of a request are the token's, the request's id and the client's name, and for a
/// `GET` the form that the answer is expected in; no others.
pub proof fn requests_carry_these_headers(
    method: Method,
    token: Seq<char>,
    request_id: Seq<char>,
)
    ensures
        ({
            let headers = common_headers(method, token, request_id);
            &&& headers.len() == if method == Method::Get {
                4nat
            } else {
                3nat
            }
            &&& headers[0] == (PairView { name: "authorization"@, value: "Bearer "@ + token })
            &&& headers[1] == (PairView { name: "x-ms-client-request-id"@, value: request_id })
            &&& headers[2] == (PairView { name: "user-agent"@, value: "fabro-aca/0.1.0"@ })
            &&& method == Method::Get ==> headers[3] == (PairView {
                name: "accept"@,
                value: "application/json"@,
            })
        }),
{
}

/// The form of a body is named exactly where there is one: bytes are bytes, and everything else is
/// JSON.
pub proof fn bodies_are_sent_in_their_form(body: BodyView)
    ensures
        body is Nothing ==> content_type(body).len() == 0,
        !(body is Nothing) ==> content_type(body).len() == 1 && content_type(body)[0].name
            == "content-type"@,
        body is Bytes ==> content_type(body)[0].value == "application/octet-stream"@,
        body is EmptyObject || body is Create || body is Command || body is Egress ==> content_type(
            body,
        )[0].value == "application/json"@,
{
}

/// An answer is a success exactly where its status begins with a two.
pub proof fn success_begins_with_a_two(status: u16)
    ensures
        is_success_status(status) <==> status / 100 == 2,
{
}

/// A refusal is told apart by its status; where the status has no meaning of its own, it is kept,
/// with what the body says: its problem message, and the body itself where it has none.
pub proof fn refusals_keep_what_was_said(
    status: u16,
    body: Seq<char>,
    problem: Option<Seq<char>>,
)
    ensures
        status == 403 ==> status_error(status, body, problem) == ApiErrorView::Auth,
        status == 404 ==> status_error(status, body, problem) == ApiErrorView::NotFound,
        status == 409 ==> status_error(status, body, problem) == ApiErrorView::NotRunning,
        status != 403 && status != 404 && status != 409 ==> (status_error(
            status,
            body,
            problem,
        ) matches ApiErrorView::Other { status: s, message } && s == status && message
            == match problem {
            Some(said) => said,
            None => body,
        }),
{
}

/// A problem is told by its title and its detail, both where both are there; a body without
/// either, or that is no JSON, tells none.
pub proof fn problems_are_told_in_full(members: Option<Map<Seq<char>, Seq<char>>>)
    ensures
        members is None ==> problem_message(members) is None,
        members matches Some(m) ==> {
            let title = m.contains_key("title"@);
            let detail = m.contains_key("detail"@);
            &&& title && detail ==> problem_message(members) == Some(
                m["title"@] + ": "@ + m["detail"@],
            )
            &&& title && !detail ==> problem_message(members) == Some(m["title"@])
            &&& !title && detail ==> problem_message(members) == Some(m["detail"@])
            &&& !title && !detail ==> problem_message(members) is None
        },
{
}

/// What the errors of the data plane say.
pub proof fn api_errors_say_what_happened(status: u16, message: Seq<char>)
    ensures
        ApiErrorView::Auth.text()
            == "ACA data-plane request was denied (403) — the caller's identity is missing the 'Container Apps SandboxGroup Data Owner' role assignment on the sandbox group"@,
        ApiErrorView::NotFound.text() == "ACA sandbox not found"@,
        ApiErrorView::NotRunning.text()
            == "ACA sandbox is not running (GlobalSandboxNotRunning)"@,
        (ApiErrorView::Other { status, message }).text()
            == "ACA data-plane request failed with HTTP "@ + decimal(status as nat) + ": "@
            + message,
{
}

/// A failed call is told by the name of its operation, and with what stopped it: a body that could
/// not be read, an answer that is no success, or a body that could not be decoded.
pub proof fn failures_name_their_operation(
    op: Operation,
    cause: Seq<char>,
    status: u16,
    body: Seq<char>,
)
    ensures
        ({
            let name = match op {
                Operation::CreateSandbox => "create sandbox"@,
                Operation::GetSandbox => "get sandbox"@,
                Operation::ListSandboxes => "list sandboxes"@,
                Operation::DeleteSandbox => "delete sandbox"@,
                Operation::Exec => "exec"@,
                Operation::FsWrite => "fs write"@,
                Operation::FsCat => "fs cat"@,
                Operation::FsStat => "fs stat"@,
                Operation::FsLs => "fs ls"@,
                Operation::SetEgress => "set egress policy"@,
                Operation::Suspend => "suspend sandbox"@,
                Operation::Resume => "resume sandbox"@,
            };
            &&& operation_name(op) == name
            &&& unreadable(op, cause) == (ErrorView::Context {
                message: "Failed to read ACA "@ + name + " response body"@,
                source: Box::new(ErrorView::Outside(cause)),
            })
            &&& undecodable(op, cause) == (ErrorView::Context {
                message: "Failed to decode ACA "@ + name + " response"@,
                source: Box::new(ErrorView::Outside(cause)),
            })
            &&& refused(op, status, body) == (ErrorView::Context {
                message: "ACA "@ + name + " request failed"@,
                source: Box::new(
                    ErrorView::Api(
                        status_error(status, body, problem_message(json_string_members(body))),
                    ),
                ),
            })
        }),
{
}

/// A pattern and an action with a colon between them are read as just these.
pub proof fn rules_are_read_as_they_are_written(
    pattern: Seq<char>,
    action: Seq<char>,
    default_action: Seq<char>,
)
    requires
        !pattern.contains(':'),
    ensures
        host_rule(pattern + ":"@ + action, default_action) == (HostRuleView { action, pattern }),
        host_rule(pattern, default_action) == (HostRuleView { action: default_action, pattern }),
{
    reveal_strlit(":");
    let rule = pattern + ":"@ + action;
    assert forall|k: int| 0 <= k < pattern.len() implies #[trigger] pattern[k] != ':' by {
        assert(pattern.contains(pattern[k]));
    }
    assert forall|k: int| 0 <= k < pattern.len() implies #[trigger] rule[k] != ':' by {
        assert(rule[k] == pattern[k]);
    }
    assert(rule[pattern.len() as int] == ':');
    crate::text::run_before_is(rule, ':', pattern.len());
    crate::text::run_before_is(pattern, ':', pattern.len());
    assert(rule.take(pattern.len() as int) =~= pattern);
    assert(rule.skip(pattern.len() as int + 1) =~= action);
}

// ---------------------------------------------------------------------------
// Models
// ---------------------------------------------------------------------------

/// The model of a create request shows each of its parts.
pub proof fn create_requests_show_their_parts(request: CreateSandboxRequest)
    ensures
        request@.image == request.sources_ref.disk_image.name@,
        request@.public_image == request.sources_ref.disk_image.is_public,
        request@.cpu == request.resources.cpu@,
        request@.memory == request.resources.memory@,
        request@.auto_suspend == request.lifecycle.auto_suspend_policy.enabled,
        request@.interval == request.lifecycle.auto_suspend_policy.interval,
        request@.mode == request.lifecycle.auto_suspend_policy.mode@,
{
}

/// The model of an egress request shows each of its parts, and of its rules each in its place.
pub proof fn egress_requests_show_their_parts(request: EgressSetRequest, rule: EgressHostRule)
    ensures
        request@.default_action == request.default_action@,
        request@.traffic_inspection == request.traffic_inspection@,
        request@.host_rules.len() == request.host_rules@.len(),
        forall|i: int|
            0 <= i < request.host_rules@.len() ==> #[trigger] request@.host_rules[i]
                == request.host_rules@[i]@,
        rule@.action == rule.action@,
        rule@.pattern == rule.pattern@,
{
}

/// The model of a body is of the body's kind, and shows what it holds.
pub proof fn bodies_show_what_they_hold(body: Body)
    ensures
        match body {
            Body::Nothing => body@ == BodyView::Nothing,
            Body::EmptyObject => body@ == BodyView::EmptyObject,
            Body::Create(request) => body@ == BodyView::Create(request@),
            Body::Command(command) => body@ == BodyView::Command(command@),
            Body::Egress(request) => body@ == BodyView::Egress(request@),
            Body::Bytes(bytes) => body@ == BodyView::Bytes(bytes@),
        },
{
}

/// The models of a call and of a request show each of their parts.
pub proof fn calls_show_their_parts(call: ApiCall, request: HttpRequest)
    ensures
        call@.op == call.op && call@.method == call.method && call@.path == call.path@,
        call@.body == call.body@,
        call@.query.len() == call.query@.len(),
        forall|i: int|
            0 <= i < call.query@.len() ==> (#[trigger] call@.query[i]).name == call.query@[i].name@
                && call@.query[i].value == call.query@[i].value@,
        request@.method == request.method && request@.url == request.url@,
        request@.body == request.body@,
        request@.query.len() == request.query@.len(),
        forall|i: int|
            0 <= i < request.query@.len() ==> (#[trigger] request@.query[i]).name
                == request.query@[i].name@ && request@.query[i].value == request.query@[i].value@,
        request@.headers.len() == request.headers@.len(),
        forall|i: int|
            0 <= i < request.headers@.len() ==> (#[trigger] request@.headers[i]).name
                == request.headers@[i].name@ && request@.headers[i].value
                == request.headers@[i].value@,
{
}

/// The model of an error answer is of its kind, and shows its status and its message.
pub proof fn api_errors_show_their_parts(error: AcaApiError)
    ensures
        match error {
            AcaApiError::Auth => error@ == ApiErrorView::Auth,
            AcaApiError::NotFound => error@ == ApiErrorView::NotFound,
            AcaApiError::NotRunning => error@ == ApiErrorView::NotRunning,
            AcaApiError::Other { status, message } => error@ == (ApiErrorView::Other {
                status,
                message: message@,
            }),
        },
{
}

} // verus!
