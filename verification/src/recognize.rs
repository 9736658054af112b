//! Which requests are gated, and on which protocol's terms.

use crate::json;
use crate::json::Json;
use crate::text;
use serde_json::Value;
use vstd::prelude::*;

verus! {

/// The A2A protocol version of a request on the JSON-RPC binding. The method name tells it.
#[derive(Clone, Copy, PartialEq, Eq, Debug, Structural)]
pub enum A2aVersion {
    V0_3,
    V1_0,
}

/// The A2A transport binding that a gated A2A request arrived on.
#[derive(Clone, Copy, PartialEq, Eq, Debug, Structural)]
pub enum A2aBinding {
    /// JSON-RPC over POST.
    JsonRpc(A2aVersion),
    /// The HTTP+JSON message-send binding.
    Rest,
}

/// The wire protocol that a gated request arrived on; it selects the shape of a rejection.
#[derive(Clone, Copy, PartialEq, Eq, Debug, Structural)]
pub enum GateProtocol {
    Mcp,
    A2a(A2aBinding),
}

/// Gate a request on the given protocol's terms, or let it pass.
#[derive(Clone, Copy, PartialEq, Eq, Debug, Structural)]
pub enum RequestClass {
    Gated(GateProtocol),
    Exempt,
}

/// What the policy reads of an HTTP request. An absent header reads as the empty text, and an
/// absent body as no bytes.
pub struct Request {
    /// The `:method` header.
    pub method: String,
    /// The `content-type` header.
    pub content_type: String,
    /// The `:path` header.
    pub path: String,
    pub body: Vec<u8>,
}

/// The outcome of looking at a request.
#[derive(Debug)]
pub enum Recognition {
    /// Passes through ungated.
    Skipped,
    /// Gated; `rpc_id` is the JSON-RPC id to echo in a rejection.
    Gated { protocol: GateProtocol, rpc_id: Option<Value> },
}

/// The methods that send a message to an A2A v0.3.0 agent.
pub open spec fn a2a_v03_send(method: Seq<char>) -> bool {
    ||| method == "message/send"@
    ||| method == "message/stream"@
}

/// The methods that send a message to an A2A v1.0 agent.
pub open spec fn a2a_v1_send(method: Seq<char>) -> bool {
    ||| method == "SendMessage"@
    ||| method == "SendStreamingMessage"@
}

/// The A2A methods, of both versions, that manage tasks and delivery or fetch the agent card.
pub open spec fn a2a_housekeeping(method: Seq<char>) -> bool {
    ||| method == "tasks/get"@
    ||| method == "tasks/list"@
    ||| method == "tasks/cancel"@
    ||| method == "tasks/resubscribe"@
    ||| method == "tasks/pushNotificationConfig/set"@
    ||| method == "tasks/pushNotificationConfig/get"@
    ||| method == "tasks/pushNotificationConfig/list"@
    ||| method == "tasks/pushNotificationConfig/delete"@
    ||| method == "agent/getAuthenticatedExtendedCard"@
    ||| method == "agent/card"@
    ||| method == "agent/capabilities"@
    ||| method == "GetTask"@
    ||| method == "ListTasks"@
    ||| method == "CancelTask"@
    ||| method == "SubscribeToTask"@
    ||| method == "CreateTaskPushNotificationConfig"@
    ||| method == "GetTaskPushNotificationConfig"@
    ||| method == "ListTaskPushNotificationConfigs"@
    ||| method == "DeleteTaskPushNotificationConfig"@
    ||| method == "GetExtendedAgentCard"@
    ||| method == "GetAgentCard"@
}

/// The MCP handshake, discovery and administrative methods.
pub open spec fn mcp_exempt(method: Seq<char>) -> bool {
    ||| method == "initialize"@
    ||| method == "tools/list"@
    ||| method == "resources/list"@
    ||| method == "resources/templates/list"@
    ||| method == "prompts/list"@
    ||| method == "ping"@
    ||| method == "logging/setLevel"@
    ||| method == "completion/complete"@
}

/// The class of a JSON-RPC method.
pub open spec fn method_class(method: Seq<char>) -> RequestClass {
    if a2a_v03_send(method) {
        RequestClass::Gated(GateProtocol::A2a(A2aBinding::JsonRpc(A2aVersion::V0_3)))
    } else if a2a_v1_send(method) {
        RequestClass::Gated(GateProtocol::A2a(A2aBinding::JsonRpc(A2aVersion::V1_0)))
    } else if a2a_housekeeping(method) || mcp_exempt(method) {
        RequestClass::Exempt
    } else {
        RequestClass::Gated(GateProtocol::Mcp)
    }
}

/// A method name that denotes an MCP notification.
pub open spec fn notification_method(method: Seq<char>) -> bool {
    "notifications/"@.is_prefix_of(method)
}

/// A path whose last segment, the query left out, is an A2A send action.
pub open spec fn rest_send_path(path: Seq<char>) -> bool {
    let action = text::after_last(text::before_first(path, '?'), '/');
    ||| action == "message:send"@
    ||| action == "message:stream"@
    ||| action == "message:sendStream"@
}

/// The member of an object, where it has one of that name.
pub open spec fn member_of(members: Map<Seq<char>, Json>, key: Seq<char>) -> Option<Json> {
    if members.dom().contains(key) {
        Some(members[key])
    } else {
        None
    }
}

/// The method and the id of a document that is a single JSON-RPC 2.0 call.
pub open spec fn jsonrpc_call(document: Json) -> Option<(Seq<char>, Option<Json>)> {
    match document {
        Json::Object(members) => match member_of(members, "method"@) {
            Some(Json::Text(method)) if member_of(members, "jsonrpc"@) == Some(
                Json::Text("2.0"@),
            ) => Some((method, member_of(members, "id"@))),
            _ => None,
        },
        _ => None,
    }
}

/// What an id holds, where there is one.
pub open spec fn id_tree(id: Option<Value>) -> Option<Json> {
    match id {
        Some(value) => Some(json::json_tree(value)),
        None => None,
    }
}

/// A POST of JSON.
pub open spec fn json_post(method: Seq<char>, content_type: Seq<char>) -> bool {
    &&& text::all_ascii_lower(method) == text::all_ascii_lower("POST"@)
    &&& text::occurs_in("application/json"@, text::all_ascii_lower(content_type))
}

/// The protocol on whose terms a request is gated, with the id to echo, or nothing where it
/// passes through. `document` is what its body holds, where the body is JSON.
pub open spec fn gated_as(
    method: Seq<char>,
    content_type: Seq<char>,
    path: Seq<char>,
    document: Option<Json>,
) -> Option<(GateProtocol, Option<Json>)> {
    if !json_post(method, content_type) {
        None
    } else {
        match call_in(document) {
            Some((rpc_method, id)) => if notification_method(rpc_method) || id is None {
                None
            } else {
                match method_class(rpc_method) {
                    RequestClass::Gated(protocol) => Some((protocol, id)),
                    RequestClass::Exempt => None,
                }
            },
            None => if rest_send_path(path) {
                Some((GateProtocol::A2a(A2aBinding::Rest), None))
            } else {
                None
            },
        }
    }
}

/// The call that a body holds, where the body is JSON at all.
pub open spec fn call_in(document: Option<Json>) -> Option<(Seq<char>, Option<Json>)> {
    match document {
        Some(tree) => jsonrpc_call(tree),
        None => None,
    }
}

impl Recognition {
    /// The recognition, with what the id holds in place of the id.
    pub open spec fn view(self) -> Option<(GateProtocol, Option<Json>)> {
        match self {
            Recognition::Skipped => None,
            Recognition::Gated { protocol, rpc_id } => Some((protocol, id_tree(rpc_id))),
        }
    }
}

/// A notification carries no id and may never be answered, so it can never be blocked. All MCP
/// notifications use the `notifications/` prefix.
pub fn is_notification_method(method: &str) -> (r: bool)
    ensures
        r == notification_method(method@),
{
    text::starts_with(method, "notifications/")
}

fn is_a2a_housekeeping(method: &str) -> (r: bool)
    ensures
        r == a2a_housekeeping(method@),
{
    text::same_text(method, "tasks/get")
        || text::same_text(method, "tasks/list")
        || text::same_text(method, "tasks/cancel")
        || text::same_text(method, "tasks/resubscribe")
        || text::same_text(method, "tasks/pushNotificationConfig/set")
        || text::same_text(method, "tasks/pushNotificationConfig/get")
        || text::same_text(method, "tasks/pushNotificationConfig/list")
        || text::same_text(method, "tasks/pushNotificationConfig/delete")
        || text::same_text(method, "agent/getAuthenticatedExtendedCard")
        || text::same_text(method, "agent/card")
        || text::same_text(method, "agent/capabilities")
        || text::same_text(method, "GetTask")
        || text::same_text(method, "ListTasks")
        || text::same_text(method, "CancelTask")
        || text::same_text(method, "SubscribeToTask")
        || text::same_text(method, "CreateTaskPushNotificationConfig")
        || text::same_text(method, "GetTaskPushNotificationConfig")
        || text::same_text(method, "ListTaskPushNotificationConfigs")
        || text::same_text(method, "DeleteTaskPushNotificationConfig")
        || text::same_text(method, "GetExtendedAgentCard")
        || text::same_text(method, "GetAgentCard")
}

fn is_mcp_exempt(method: &str) -> (r: bool)
    ensures
        r == mcp_exempt(method@),
{
    text::same_text(method, "initialize")
        || text::same_text(method, "tools/list")
        || text::same_text(method, "resources/list")
        || text::same_text(method, "resources/templates/list")
        || text::same_text(method, "prompts/list")
        || text::same_text(method, "ping")
        || text::same_text(method, "logging/setLevel")
        || text::same_text(method, "completion/complete")
}

/// Classifies a JSON-RPC method: the A2A sends are gated on A2A terms, A2A housekeeping and the
/// MCP handshake pass, and anything else is gated as MCP.
pub fn classify_jsonrpc_method(method: &str) -> (r: RequestClass)
    ensures
        r == method_class(method@),
{
    if text::same_text(method, "message/send") || text::same_text(method, "message/stream") {
        RequestClass::Gated(GateProtocol::A2a(A2aBinding::JsonRpc(A2aVersion::V0_3)))
    } else if text::same_text(method, "SendMessage")
        || text::same_text(method, "SendStreamingMessage") {
        RequestClass::Gated(GateProtocol::A2a(A2aBinding::JsonRpc(A2aVersion::V1_0)))
    } else if is_a2a_housekeeping(method) || is_mcp_exempt(method) {
        RequestClass::Exempt
    } else {
        RequestClass::Gated(GateProtocol::Mcp)
    }
}

/// Recognizes the A2A HTTP+JSON message-send binding from the request path: the last segment
/// alone tells it, whatever routing prefix stands before it and whatever query behind it.
pub fn a2a_rest_send_path(path: &str) -> (r: bool)
    ensures
        r == rest_send_path(path@),
{
    let bare = text::cut_before_first(path, '?');
    let action = text::cut_after_last(bare.as_str(), '/');
    text::same_text(action.as_str(), "message:send")
        || text::same_text(action.as_str(), "message:stream")
        || text::same_text(action.as_str(), "message:sendStream")
}

/// The method and the id of a single JSON-RPC 2.0 call. Anything else, a batch among it, is none.
pub fn jsonrpc_call_of(document: &Value) -> (r: Option<(String, Option<Value>)>)
    ensures
        r is Some <==> jsonrpc_call(json::json_tree(*document)) is Some,
        r matches Some((method, id)) ==> jsonrpc_call(json::json_tree(*document)) == Some(
            (method@, id_tree(id)),
        ),
        json::json_tree(*document) matches Json::Object(members) ==> {
            &&& r is Some <==> members.dom().contains("jsonrpc"@) && members["jsonrpc"@]
                == Json::Text("2.0"@) && members.dom().contains("method"@)
                && members["method"@] is Text
            &&& r matches Some((method, id)) ==> {
                &&& members["method"@] == Json::Text(method@)
                &&& id is Some <==> members.dom().contains("id"@)
                &&& id matches Some(value) ==> json::json_tree(value) == members["id"@]
            }
        },
        json::json_tree(*document) !is Object ==> r is None,
{
    let members = match json::object_members(document) {
        Some(members) => members,
        None => {
            return None;
        },
    };
    let tagged = match json::member(members, "jsonrpc") {
        Some(value) => match json::text_value(value) {
            Some(version) => text::same_text(version, "2.0"),
            None => false,
        },
        None => false,
    };
    if !tagged {
        return None;
    }
    let method = match json::member(members, "method") {
        Some(value) => match json::text_value(value) {
            Some(method) => method.to_string(),
            None => {
                return None;
            },
        },
        None => {
            return None;
        },
    };
    let id = match json::member(members, "id") {
        Some(value) => Some(json::copy_value(value)),
        None => None,
    };
    Some((method, id))
}

/// Parses a request body as a single JSON-RPC 2.0 call and returns its method and id. Whatever is
/// no such call, text that is not JSON included, is none.
pub fn parse_jsonrpc_call(body: &[u8]) -> (r: Option<(String, Option<Value>)>)
    ensures
        r is Some <==> call_in(json::json_read(body@)) is Some,
        r matches Some((method, id)) ==> call_in(json::json_read(body@)) == Some(
            (method@, id_tree(id)),
        ),
{
    match json::read_value(body) {
        Ok(document) => jsonrpc_call_of(&document),
        Err(_) => None,
    }
}

/// Decides over a request that is a POST of JSON, given the call in its body.
pub fn recognize_call(call: Option<(String, Option<Value>)>, path: &str) -> (r: Recognition)
    ensures
        r@ == (match call {
            Some((method, id)) => if notification_method(method@) || id is None {
                None
            } else {
                match method_class(method@) {
                    RequestClass::Gated(protocol) => Some((protocol, id_tree(id))),
                    RequestClass::Exempt => None,
                }
            },
            None => if rest_send_path(path@) {
                Some((GateProtocol::A2a(A2aBinding::Rest), None))
            } else {
                None
            },
        }),
{
    match call {
        Some((method, rpc_id)) => {
            if is_notification_method(method.as_str()) || rpc_id.is_none() {
                return Recognition::Skipped;
            }
            match classify_jsonrpc_method(method.as_str()) {
                RequestClass::Exempt => Recognition::Skipped,
                RequestClass::Gated(protocol) => Recognition::Gated { protocol, rpc_id },
            }
        },
        None => {
            if a2a_rest_send_path(path) {
                Recognition::Gated { protocol: GateProtocol::A2a(A2aBinding::Rest), rpc_id: None }
            } else {
                Recognition::Skipped
            }
        },
    }
}

/// Looks at a request: only a POST of JSON that holds a gated JSON-RPC call, or that goes to an
/// A2A send path, is gated. Everything else passes through.
pub fn recognize(request: &Request) -> (r: Recognition)
    ensures
        r@ == gated_as(
            request.method@,
            request.content_type@,
            request.path@,
            json::json_read(request.body@),
        ),
{
    if !text::same_ignoring_ascii_case(request.method.as_str(), "POST") {
        return Recognition::Skipped;
    }
    if !text::lower_contains(request.content_type.as_str(), "application/json") {
        return Recognition::Skipped;
    }
    recognize_call(parse_jsonrpc_call(request.body.as_slice()), request.path.as_str())
}

/// The method names of A2A v0.3.0 sends, of A2A v1.0 sends, of A2A housekeeping and of the MCP
/// handshake have nothing in common, and none of them names a notification: a name alone tells
/// protocol, version and class.
pub proof fn law_vocabularies_are_disjoint(method: Seq<char>)
    ensures
        a2a_v03_send(method) ==> !a2a_v1_send(method) && !a2a_housekeeping(method) && !mcp_exempt(
            method,
        ),
        a2a_v1_send(method) ==> !a2a_housekeeping(method) && !mcp_exempt(method),
        a2a_housekeeping(method) ==> !mcp_exempt(method),
        notification_method(method) ==> !a2a_v03_send(method) && !a2a_v1_send(method)
            && !a2a_housekeeping(method) && !mcp_exempt(method),
{
    reveal_strlit("message/send");
    reveal_strlit("message/stream");
    reveal_strlit("SendMessage");
    reveal_strlit("SendStreamingMessage");
    reveal_strlit("tasks/get");
    reveal_strlit("tasks/list");
    reveal_strlit("tasks/cancel");
    reveal_strlit("tasks/resubscribe");
    reveal_strlit("tasks/pushNotificationConfig/set");
    reveal_strlit("tasks/pushNotificationConfig/get");
    reveal_strlit("tasks/pushNotificationConfig/list");
    reveal_strlit("tasks/pushNotificationConfig/delete");
    reveal_strlit("agent/getAuthenticatedExtendedCard");
    reveal_strlit("agent/card");
    reveal_strlit("agent/capabilities");
    reveal_strlit("GetTask");
    reveal_strlit("ListTasks");
    reveal_strlit("CancelTask");
    reveal_strlit("SubscribeToTask");
    reveal_strlit("CreateTaskPushNotificationConfig");
    reveal_strlit("GetTaskPushNotificationConfig");
    reveal_strlit("ListTaskPushNotificationConfigs");
    reveal_strlit("DeleteTaskPushNotificationConfig");
    reveal_strlit("GetExtendedAgentCard");
    reveal_strlit("GetAgentCard");
    reveal_strlit("initialize");
    reveal_strlit("tools/list");
    reveal_strlit("resources/list");
    reveal_strlit("resources/templates/list");
    reveal_strlit("prompts/list");
    reveal_strlit("ping");
    reveal_strlit("logging/setLevel");
    reveal_strlit("completion/complete");
    reveal_strlit("notifications/");
    if a2a_v03_send(method) {
        assert(method[0] == 'm');
    }
    if a2a_v1_send(method) {
        assert(method[0] == 'S' && method.len() != 15);
    }
    if a2a_housekeeping(method) {
        assert(method[0] == 't' || method[0] == 'a' || method[0] == 'G' || method[0] == 'L'
            || method[0] == 'C' || method[0] == 'D' || (method[0] == 'S' && method.len() == 15));
        assert(method[0] == 't' ==> method[1] == 'a');
    }
    if mcp_exempt(method) {
        assert(method[0] == 'i' || method[0] == 't' || method[0] == 'r' || method[0] == 'p'
            || method[0] == 'l' || method[0] == 'c');
        assert(method[0] == 't' ==> method[1] == 'o');
    }
    if notification_method(method) {
        assert("notifications/"@[0] == method[0]);
    }
}

/// A gated request can be answered in the shape of its protocol: one on JSON-RPC has an id to
/// echo, one on the HTTP+JSON binding needs none.
pub proof fn law_gated_requests_can_be_answered(
    method: Seq<char>,
    content_type: Seq<char>,
    path: Seq<char>,
    document: Option<Json>,
)
    ensures
        gated_as(method, content_type, path, document) matches Some((protocol, id)) ==> (id is None
            <==> protocol == GateProtocol::A2a(A2aBinding::Rest)),
{
}

/// What may not be answered passes: a notification, and any call without an id.
pub proof fn law_notifications_pass(
    method: Seq<char>,
    content_type: Seq<char>,
    path: Seq<char>,
    document: Option<Json>,
)
    ensures
        call_in(document) matches Some((rpc_method, id)) && (notification_method(rpc_method) || id
            is None) ==> gated_as(method, content_type, path, document) is None,
{
}

/// Whatever is neither a single JSON-RPC call nor sent to an A2A send path passes: a body that is
/// not JSON, a batch, a response, a document of another kind.
pub proof fn law_unrecognized_requests_pass(
    method: Seq<char>,
    content_type: Seq<char>,
    path: Seq<char>,
    document: Option<Json>,
)
    requires
        !json_post(method, content_type) || (call_in(document) is None && !rest_send_path(path)),
    ensures
        gated_as(method, content_type, path, document) is None,
{
}

/// A batch holds no single call.
pub proof fn law_a_batch_is_no_call(items: Seq<Json>)
    ensures
        call_in(Some(Json::List(items))) is None,
{
}

/// A method that is neither exempt nor housekeeping is gated, known or not.
pub proof fn law_unknown_methods_are_gated(method: Seq<char>)
    ensures
        method_class(method) == RequestClass::Exempt <==> a2a_housekeeping(method) || mcp_exempt(
            method,
        ),
{
    law_vocabularies_are_disjoint(method);
}

/// A document is a call exactly where it is an object whose member `jsonrpc` is the text `2.0` and
/// whose member `method` is a text. The call is that method, with the member `id` where there is
/// one.
pub proof fn law_a_call_has_a_version_and_a_method(document: Json)
    ensures
        document !is Object ==> jsonrpc_call(document) is None,
        document matches Json::Object(members) ==> {
            &&& jsonrpc_call(document) is Some <==> members.dom().contains("jsonrpc"@)
                && members["jsonrpc"@] == Json::Text("2.0"@) && members.dom().contains("method"@)
                && members["method"@] is Text
            &&& jsonrpc_call(document) matches Some((method, id)) ==> {
                &&& members["method"@] == Json::Text(method)
                &&& id == (if members.dom().contains("id"@) {
                    Some(members["id"@])
                } else {
                    None
                })
            }
        },
{
}

/// Whatever else a call carries, parameters among it, has no say.
pub proof fn law_other_members_of_a_call_have_no_say(
    members: Map<Seq<char>, Json>,
    key: Seq<char>,
    value: Json,
)
    requires
        key != "jsonrpc"@,
        key != "method"@,
        key != "id"@,
    ensures
        jsonrpc_call(Json::Object(members.insert(key, value))) == jsonrpc_call(
            Json::Object(members),
        ),
        jsonrpc_call(Json::Object(members.remove(key))) == jsonrpc_call(Json::Object(members)),
{
}

/// The methods that pass, by their names.
pub proof fn law_methods_that_pass(method: Seq<char>)
    ensures
        method_class(method) == RequestClass::Exempt <==> {
            ||| method == "tasks/get"@
            ||| method == "tasks/list"@
            ||| method == "tasks/cancel"@
            ||| method == "tasks/resubscribe"@
            ||| method == "tasks/pushNotificationConfig/set"@
            ||| method == "tasks/pushNotificationConfig/get"@
            ||| method == "tasks/pushNotificationConfig/list"@
            ||| method == "tasks/pushNotificationConfig/delete"@
            ||| method == "agent/getAuthenticatedExtendedCard"@
            ||| method == "agent/card"@
            ||| method == "agent/capabilities"@
            ||| method == "GetTask"@
            ||| method == "ListTasks"@
            ||| method == "CancelTask"@
            ||| method == "SubscribeToTask"@
            ||| method == "CreateTaskPushNotificationConfig"@
            ||| method == "GetTaskPushNotificationConfig"@
            ||| method == "ListTaskPushNotificationConfigs"@
            ||| method == "DeleteTaskPushNotificationConfig"@
            ||| method == "GetExtendedAgentCard"@
            ||| method == "GetAgentCard"@
            ||| method == "initialize"@
            ||| method == "tools/list"@
            ||| method == "resources/list"@
            ||| method == "resources/templates/list"@
            ||| method == "prompts/list"@
            ||| method == "ping"@
            ||| method == "logging/setLevel"@
            ||| method == "completion/complete"@
        },
{
    law_vocabularies_are_disjoint(method);
}

/// The methods that are gated, by their protocols: two of A2A v0.3.0, two of A2A v1.0, and as MCP
/// whatever else does not pass.
pub proof fn law_protocols_of_gated_methods(method: Seq<char>)
    ensures
        method == "message/send"@ || method == "message/stream"@ <==> method_class(method)
            == RequestClass::Gated(GateProtocol::A2a(A2aBinding::JsonRpc(A2aVersion::V0_3))),
        method == "SendMessage"@ || method == "SendStreamingMessage"@ <==> method_class(method)
            == RequestClass::Gated(GateProtocol::A2a(A2aBinding::JsonRpc(A2aVersion::V1_0))),
        method_class(method) != RequestClass::Gated(GateProtocol::A2a(A2aBinding::Rest)),
{
    law_vocabularies_are_disjoint(method);
}

/// Every name under `notifications/` is that of a notification, and no other name is.
pub proof fn law_notifications_have_their_prefix(method: Seq<char>, rest: Seq<char>)
    ensures
        notification_method("notifications/"@ + rest),
        notification_method(method) ==> exists|tail: Seq<char>|
            method == #[trigger] ("notifications/"@ + tail),
{
    let prefix = "notifications/"@;
    assert((prefix + rest).subrange(0, prefix.len() as int) =~= prefix);
    if notification_method(method) {
        let tail = method.skip(prefix.len() as int);
        assert(method =~= prefix + tail);
    }
}

/// What follows a question mark has no say in whether a path is a send path.
pub proof fn law_the_query_has_no_say(path: Seq<char>, query: Seq<char>)
    requires
        !path.contains('?'),
    ensures
        rest_send_path(path + seq!['?'] + query) == rest_send_path(path),
{
    let whole = path + seq!['?'] + query;
    let n = path.len() as int;
    assert forall|j: int| 0 <= j < n implies whole[j] != '?' && path[j] != '?' by {
        assert(whole[j] == path[j]);
        assert(path.contains(path[j]));
    }
    assert(whole[n] == '?');
    text::lemma_before_first(whole, '?', n);
    text::lemma_before_first(path, '?', n);
    assert(whole.take(n) =~= path.take(n));
}

/// A path without a query is a send path exactly where it is the name of a send action or ends in
/// a slash and such a name.
pub proof fn law_send_paths_end_in_a_send_action(path: Seq<char>)
    requires
        !path.contains('?'),
    ensures
        rest_send_path(path) <==> {
            ||| path == "message:send"@
            ||| path == "message:stream"@
            ||| path == "message:sendStream"@
            ||| "/message:send"@.is_suffix_of(path)
            ||| "/message:stream"@.is_suffix_of(path)
            ||| "/message:sendStream"@.is_suffix_of(path)
        },
{
    reveal_strlit("message:send");
    reveal_strlit("message:stream");
    reveal_strlit("message:sendStream");
    reveal_strlit("/message:send");
    reveal_strlit("/message:stream");
    reveal_strlit("/message:sendStream");
    assert("/message:send"@ =~= seq!['/'] + "message:send"@);
    assert("/message:stream"@ =~= seq!['/'] + "message:stream"@);
    assert("/message:sendStream"@ =~= seq!['/'] + "message:sendStream"@);
    assert forall|j: int| 0 <= j < path.len() implies path[j] != '?' by {
        assert(path.contains(path[j]));
    }
    text::lemma_before_first(path, '?', path.len() as int);
    assert(path.take(path.len() as int) =~= path);
    lemma_ends_in_action(path, "message:send"@);
    lemma_ends_in_action(path, "message:stream"@);
    lemma_ends_in_action(path, "message:sendStream"@);
}

proof fn lemma_ends_in_action(path: Seq<char>, action: Seq<char>)
    requires
        !action.contains('/'),
    ensures
        text::after_last(path, '/') == action <==> path == action || (seq!['/']
            + action).is_suffix_of(path),
{
    let tail = seq!['/'] + action;
    text::law_after_last_begins_at_the_last_mark(path, '/');
    let last = text::after_last(path, '/');
    if last == action {
        if last.len() == path.len() {
            assert(path.subrange(0, path.len() as int) =~= path);
        } else {
            let from = path.len() - tail.len();
            assert(path.subrange(from, path.len() as int) =~= tail) by {
                assert(path.subrange(path.len() - last.len(), path.len() as int) =~= last);
                assert forall|j: int| 0 <= j < tail.len() implies path.subrange(
                    from,
                    path.len() as int,
                )[j] == tail[j] by {
                    if j > 0 {
                        assert(path.subrange(path.len() - last.len(), path.len() as int)[j - 1]
                            == last[j - 1]);
                    }
                }
            }
        }
    }
    if path == action {
        assert forall|j: int| 0 <= j < path.len() implies path[j] != '/' by {
            assert(action.contains(action[j]));
        }
        text::lemma_after_last(path, '/', 0);
        assert(path.skip(0) =~= path);
    }
    if tail.is_suffix_of(path) {
        let n = path.len() - action.len();
        let seen = path.subrange(path.len() - tail.len(), path.len() as int);
        assert(seen == tail);
        assert(path[n - 1] == seen[0]);
        assert forall|j: int| n <= j < path.len() implies path[j] != '/' by {
            assert(path[j] == seen[j - n + 1]);
            assert(action.contains(action[j - n]));
        }
        text::lemma_after_last(path, '/', n);
        assert forall|j: int| 0 <= j < action.len() implies path.skip(n)[j] == action[j] by {
            assert(path[n + j] == seen[j + 1]);
        }
        assert(path.skip(n) =~= action);
    }
}

/// A request is a POST of JSON exactly where its method is `POST` in any case and its content type
/// holds `application/json` in any case, whatever stands around it.
pub proof fn law_json_posts_are_told_in_any_case(method: Seq<char>, content_type: Seq<char>)
    ensures
        json_post(method, content_type) ==> {
            &&& method.len() == 4
            &&& method[0] == 'P' || method[0] == 'p'
            &&& method[1] == 'O' || method[1] == 'o'
            &&& method[2] == 'S' || method[2] == 's'
            &&& method[3] == 'T' || method[3] == 't'
            &&& exists|before: Seq<char>, behind: Seq<char>|
                text::all_ascii_lower(content_type) == #[trigger] (before + "application/json"@
                    + behind)
        },
        method.len() == 4 && (method[0] == 'P' || method[0] == 'p') && (method[1] == 'O'
            || method[1] == 'o') && (method[2] == 'S' || method[2] == 's') && (method[3] == 'T'
            || method[3] == 't') ==> forall|before: Seq<char>, behind: Seq<char>|
            text::all_ascii_lower(content_type) == #[trigger] (before + "application/json"@
                + behind) ==> json_post(method, content_type),
{
    reveal_strlit("POST");
    let post = text::all_ascii_lower("POST"@);
    let lower = text::all_ascii_lower(method);
    text::law_lower_case_changes_ascii_letters_only("POST"@);
    text::law_lower_case_changes_ascii_letters_only(method);
    text::law_a_part_occurs_between_the_rest(
        "application/json"@,
        text::all_ascii_lower(content_type),
    );
    assert("POST"@[0] == 'P' && "POST"@[1] == 'O' && "POST"@[2] == 'S' && "POST"@[3] == 'T');
    assert(post[0] == 'p' && post[1] == 'o' && post[2] == 's' && post[3] == 't');
    if lower == post {
        assert(lower[0] == 'p' && lower[1] == 'o' && lower[2] == 's' && lower[3] == 't');
        assert(method[0] as u32 == 'P' as u32 || method[0] as u32 == 'p' as u32);
        assert(method[1] as u32 == 'O' as u32 || method[1] as u32 == 'o' as u32);
        assert(method[2] as u32 == 'S' as u32 || method[2] as u32 == 's' as u32);
        assert(method[3] as u32 == 'T' as u32 || method[3] as u32 == 't' as u32);
    }
    if method.len() == 4 && (method[0] == 'P' || method[0] == 'p') && (method[1] == 'O'
        || method[1] == 'o') && (method[2] == 'S' || method[2] == 's') && (method[3] == 'T'
        || method[3] == 't') {
        assert(lower =~= post);
    }
}

/// A POST of an object with version `2.0`, a method and an id is gated on the terms of its method
/// unless it is a notification or its method passes. Neither the path nor any other member has a
/// say in that.
pub proof fn law_calls_are_gated_by_their_method(
    http_method: Seq<char>,
    content_type: Seq<char>,
    path: Seq<char>,
    members: Map<Seq<char>, Json>,
    method: Seq<char>,
)
    requires
        json_post(http_method, content_type),
        members.dom().contains("jsonrpc"@),
        members["jsonrpc"@] == Json::Text("2.0"@),
        members.dom().contains("method"@),
        members["method"@] == Json::Text(method),
    ensures
        ({
            let gated = gated_as(http_method, content_type, path, Some(Json::Object(members)));
            &&& members.dom().contains("id"@) && !"notifications/"@.is_prefix_of(method) ==> match
                method_class(method) {
                RequestClass::Gated(protocol) => gated == Some((protocol, Some(members["id"@]))),
                RequestClass::Exempt => gated is None,
            }
            &&& !members.dom().contains("id"@) || "notifications/"@.is_prefix_of(method) ==> gated
                is None
        }),
{
}

/// A POST of anything else is gated exactly where it goes to a send path, and then without an id.
pub proof fn law_other_posts_are_gated_by_their_path(
    http_method: Seq<char>,
    content_type: Seq<char>,
    path: Seq<char>,
    document: Option<Json>,
)
    requires
        json_post(http_method, content_type),
        document matches Some(Json::Object(members)) ==> !(members.dom().contains("jsonrpc"@)
            && members["jsonrpc"@] == Json::Text("2.0"@) && members.dom().contains("method"@)
            && members["method"@] is Text),
    ensures
        gated_as(http_method, content_type, path, document) == (if rest_send_path(path) {
            Some((GateProtocol::A2a(A2aBinding::Rest), None::<Json>))
        } else {
            None
        }),
{
    if let Some(tree) = document {
        law_a_call_has_a_version_and_a_method(tree);
    }
}

/// A recognition tells protocol and id: nothing of a gated request is left out of its view.
pub proof fn law_recognition_shows_protocol_and_id(protocol: GateProtocol, id: Value)
    ensures
        Recognition::Skipped@ is None,
        (Recognition::Gated { protocol, rpc_id: Some(id) })@ == Some(
            (protocol, Some(json::json_tree(id))),
        ),
        (Recognition::Gated { protocol, rpc_id: None })@ == Some((protocol, None::<Json>)),
        id_tree(Some(id)) == Some(json::json_tree(id)),
        id_tree(None) is None,
{
}

} // verus!
