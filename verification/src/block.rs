//! The answers to blocked requests, each in the shape of the request's own protocol.

use crate::config;
use crate::config::Config;
use crate::json;
use crate::json::Json;
use crate::recognize;
use crate::recognize::{A2aBinding, A2aVersion, GateProtocol};
use crate::score::Score;
use serde_json::Value;
use vstd::prelude::*;
use vstd::string::*;

verus! {

/// The JSON-RPC error code of a blocked MCP request.
pub const JSONRPC_BLOCK_ERROR_CODE: i64 = -32008;

/// The JSON-RPC error code of a blocked A2A request: the first one above the codes that A2A
/// assigns itself.
pub const A2A_BLOCK_ERROR_CODE: i64 = -32010;

/// The HTTP status of a blocked request on the A2A HTTP+JSON binding.
pub const A2A_REST_BLOCK_HTTP_STATUS: u32 = 403;

pub const A2A_ERROR_REASON: &'static str = "DATA_QUALITY_BELOW_THRESHOLD";

pub const A2A_ERROR_DOMAIN: &'static str = "dq-gate.mulesoft.com";

pub const HEADER_DQ_SCORE: &'static str = "x-dq-gate-score";

pub const HEADER_DQ_STATUS: &'static str = "x-dq-gate-status";

/// The answer to a blocked request.
#[derive(Debug)]
pub struct BlockResponse {
    pub status: u32,
    pub headers: Vec<(String, String)>,
    pub body: Vec<u8>,
}

/// Headers by their texts.
pub open spec fn header_texts(headers: Seq<(String, String)>) -> Seq<(Seq<char>, Seq<char>)> {
    headers.map_values(|header: (String, String)| (header.0@, header.1@))
}

/// The message of a block: details only where they are disclosed.
pub open spec fn message_text(disclose: bool, score: Option<Score>, config: Config) -> Seq<char> {
    if !disclose {
        "Blocked by DQ Gate: data quality for the requested source did not meet the required standard"@
    } else {
        match score {
            Some(score) => "Blocked by DQ Gate: asset '"@ + config.cdgc_asset_id@ + "' DQ score "@
                + score.text@ + " is below blockThreshold "@ + config.block_threshold.text@,
            None => "Blocked by DQ Gate: no DQ score is available yet for asset '"@
                + config.cdgc_asset_id@ + "'"@,
        }
    }
}

/// The headers of a block: the score only where it is disclosed.
pub open spec fn header_list(disclose: bool, score: Option<Score>) -> Seq<(Seq<char>, Seq<char>)> {
    let content = seq![("content-type"@, "application/json"@)];
    let status = (HEADER_DQ_STATUS@, "blocked"@);
    match score {
        Some(score) if disclose => content.push((HEADER_DQ_SCORE@, score.text@)).push(status),
        _ => content.push(status),
    }
}

/// The metadata of an error info: empty unless details are disclosed.
pub open spec fn metadata(disclose: bool, score: Option<Score>, config: Config) -> Map<
    Seq<char>,
    Json,
> {
    if disclose {
        let shown = match score {
            Some(score) => json::empty_object().insert("score"@, Json::Text(score.text@)),
            None => json::empty_object(),
        };
        shown.insert("blockThreshold"@, Json::Text(config.block_threshold.text@)).insert(
            "assetId"@,
            Json::Text(config.cdgc_asset_id@),
        )
    } else {
        json::empty_object()
    }
}

/// The `google.rpc.ErrorInfo` of an A2A v1.0 block.
pub open spec fn error_info(disclose: bool, score: Option<Score>, config: Config) -> Json {
    Json::Object(
        json::empty_object().insert(
            "@type"@,
            Json::Text("type.googleapis.com/google.rpc.ErrorInfo"@),
        ).insert("reason"@, Json::Text(A2A_ERROR_REASON@)).insert(
            "domain"@,
            Json::Text(A2A_ERROR_DOMAIN@),
        ).insert("metadata"@, Json::Object(metadata(disclose, score, config))),
    )
}

/// A code and a message.
pub open spec fn coded_message(code: int, message: Seq<char>) -> Map<Seq<char>, Json> {
    json::empty_object().insert("code"@, Json::Int(code)).insert("message"@, Json::Text(message))
}

/// The error object of a block on each protocol.
pub open spec fn error_members(
    protocol: GateProtocol,
    disclose: bool,
    score: Option<Score>,
    config: Config,
) -> Map<Seq<char>, Json> {
    let message = message_text(disclose, score, config);
    let info = Json::List(seq![error_info(disclose, score, config)]);
    match protocol {
        GateProtocol::Mcp => coded_message(JSONRPC_BLOCK_ERROR_CODE as int, message),
        GateProtocol::A2a(A2aBinding::JsonRpc(A2aVersion::V1_0)) => coded_message(
            A2A_BLOCK_ERROR_CODE as int,
            message,
        ).insert("data"@, info),
        GateProtocol::A2a(A2aBinding::JsonRpc(A2aVersion::V0_3)) => {
            let plain = coded_message(A2A_BLOCK_ERROR_CODE as int, message);
            if disclose {
                plain.insert("data"@, Json::Text(A2A_ERROR_REASON@))
            } else {
                plain
            }
        },
        GateProtocol::A2a(A2aBinding::Rest) => coded_message(
            A2A_REST_BLOCK_HTTP_STATUS as int,
            message,
        ).insert("details"@, info),
    }
}

/// A JSON-RPC 2.0 response that carries an error.
pub open spec fn jsonrpc_error(id: Option<Json>, error: Map<Seq<char>, Json>) -> Json {
    Json::Object(
        json::empty_object().insert("jsonrpc"@, Json::Text("2.0"@)).insert(
            "id"@,
            config::or_default(id, Json::Null),
        ).insert("error"@, Json::Object(error)),
    )
}

/// The document that answers a blocked request: a JSON-RPC error with the request's id, or, on
/// the HTTP+JSON binding, a `google.rpc.Status` without any envelope.
pub open spec fn block_document(
    protocol: GateProtocol,
    id: Option<Json>,
    score: Option<Score>,
    config: Config,
) -> Json {
    let disclose = config::or_default(config.disclose_score_details, false);
    let error = error_members(protocol, disclose, score, config);
    match protocol {
        GateProtocol::A2a(A2aBinding::Rest) => Json::Object(
            json::empty_object().insert("error"@, Json::Object(error)),
        ),
        _ => jsonrpc_error(id, error),
    }
}

/// The HTTP status that answers a blocked request: JSON-RPC carries errors on success.
pub open spec fn block_status(protocol: GateProtocol) -> u32 {
    match protocol {
        GateProtocol::A2a(A2aBinding::Rest) => A2A_REST_BLOCK_HTTP_STATUS,
        _ => 200,
    }
}

/// The headers that answer a blocked request.
pub open spec fn block_header_list(score: Option<Score>, config: Config) -> Seq<
    (Seq<char>, Seq<char>),
> {
    header_list(config::or_default(config.disclose_score_details, false), score)
}

/// The response is the answer to a blocked request. Its body is the document as it is written,
/// and a client that reads it finds that document, wherever the request's id is one that survives
/// being written and read.
pub open spec fn answers(
    response: BlockResponse,
    protocol: GateProtocol,
    id: Option<Json>,
    score: Option<Score>,
    config: Config,
) -> bool {
    let document = block_document(protocol, id, score, config);
    &&& response.status == block_status(protocol)
    &&& header_texts(response.headers@) == block_header_list(score, config)
    &&& response.body@ == json::json_written(document)
    &&& id_reads_back(id) ==> json::json_read(response.body@) == Some(document)
}

/// An id that survives being written into an answer and read from it.
pub open spec fn id_reads_back(id: Option<Json>) -> bool {
    match id {
        Some(tree) => json::reads_back(tree, (json::MAX_DEPTH - 1) as nat),
        None => true,
    }
}

/// Every member reads back.
pub open spec fn members_read_back(members: Map<Seq<char>, Json>, depth: nat) -> bool {
    forall|key: Seq<char>|
        members.dom().contains(key) ==> json::reads_back(#[trigger] members[key], depth)
}

proof fn lemma_insert_reads_back(
    members: Map<Seq<char>, Json>,
    key: Seq<char>,
    value: Json,
    depth: nat,
)
    requires
        members_read_back(members, depth),
        json::reads_back(value, depth),
    ensures
        members_read_back(members.insert(key, value), depth),
{
    let grown = members.insert(key, value);
    assert forall|k: Seq<char>| grown.dom().contains(k) implies json::reads_back(
        #[trigger] grown[k],
        depth,
    ) by {
        if k != key {
            assert(grown[k] == members[k]);
        }
    }
}

proof fn lemma_error_info_reads_back(
    disclose: bool,
    score: Option<Score>,
    config: Config,
    depth: nat,
)
    requires
        depth >= 3,
    ensures
        json::reads_back(Json::List(seq![error_info(disclose, score, config)]), depth),
{
    let low = (depth - 3) as nat;
    let mid = (depth - 2) as nat;
    let empty = json::empty_object();
    assert(members_read_back(empty, low));
    assert(members_read_back(empty, mid));
    if disclose {
        let shown = match score {
            Some(score) => {
                lemma_insert_reads_back(empty, "score"@, Json::Text(score.text@), low);
                empty.insert("score"@, Json::Text(score.text@))
            },
            None => empty,
        };
        let threshold = Json::Text(config.block_threshold.text@);
        lemma_insert_reads_back(shown, "blockThreshold"@, threshold, low);
        lemma_insert_reads_back(
            shown.insert("blockThreshold"@, threshold),
            "assetId"@,
            Json::Text(config.cdgc_asset_id@),
            low,
        );
    }
    let data = metadata(disclose, score, config);
    assert(members_read_back(data, low));
    assert(json::reads_back(Json::Object(data), mid));
    let kind = Json::Text("type.googleapis.com/google.rpc.ErrorInfo"@);
    lemma_insert_reads_back(empty, "@type"@, kind, mid);
    let one = empty.insert("@type"@, kind);
    lemma_insert_reads_back(one, "reason"@, Json::Text(A2A_ERROR_REASON@), mid);
    let two = one.insert("reason"@, Json::Text(A2A_ERROR_REASON@));
    lemma_insert_reads_back(two, "domain"@, Json::Text(A2A_ERROR_DOMAIN@), mid);
    let three = two.insert("domain"@, Json::Text(A2A_ERROR_DOMAIN@));
    lemma_insert_reads_back(three, "metadata"@, Json::Object(data), mid);
    assert(json::reads_back(error_info(disclose, score, config), (depth - 1) as nat));
}

proof fn lemma_error_reads_back(
    protocol: GateProtocol,
    disclose: bool,
    score: Option<Score>,
    config: Config,
    depth: nat,
)
    requires
        depth >= 4,
    ensures
        json::reads_back(Json::Object(error_members(protocol, disclose, score, config)), depth),
{
    let low = (depth - 1) as nat;
    let empty = json::empty_object();
    let message = Json::Text(message_text(disclose, score, config));
    let code = match protocol {
        GateProtocol::Mcp => Json::Int(JSONRPC_BLOCK_ERROR_CODE as int),
        GateProtocol::A2a(A2aBinding::JsonRpc(_)) => Json::Int(A2A_BLOCK_ERROR_CODE as int),
        GateProtocol::A2a(A2aBinding::Rest) => Json::Int(A2A_REST_BLOCK_HTTP_STATUS as int),
    };
    let info = Json::List(seq![error_info(disclose, score, config)]);
    lemma_error_info_reads_back(disclose, score, config, low);
    assert(members_read_back(empty, low));
    lemma_insert_reads_back(empty, "code"@, code, low);
    let coded = empty.insert("code"@, code);
    lemma_insert_reads_back(coded, "message"@, message, low);
    let plain = coded.insert("message"@, message);
    lemma_insert_reads_back(plain, "data"@, info, low);
    lemma_insert_reads_back(plain, "data"@, Json::Text(A2A_ERROR_REASON@), low);
    lemma_insert_reads_back(plain, "details"@, info, low);
}

/// The answer to a blocked request survives being written and read where the id does.
pub proof fn law_block_document_reads_back(
    protocol: GateProtocol,
    id: Option<Json>,
    score: Option<Score>,
    config: Config,
)
    requires
        id_reads_back(id),
    ensures
        json::reads_back(block_document(protocol, id, score, config), json::MAX_DEPTH as nat),
{
    let disclose = config::or_default(config.disclose_score_details, false);
    let low = (json::MAX_DEPTH - 1) as nat;
    let empty = json::empty_object();
    let error = Json::Object(error_members(protocol, disclose, score, config));
    lemma_error_reads_back(protocol, disclose, score, config, low);
    assert(members_read_back(empty, low));
    lemma_insert_reads_back(empty, "error"@, error, low);
    let version = Json::Text("2.0"@);
    lemma_insert_reads_back(empty, "jsonrpc"@, version, low);
    let tagged = empty.insert("jsonrpc"@, version);
    let echoed = config::or_default(id, Json::Null);
    lemma_insert_reads_back(tagged, "id"@, echoed, low);
    lemma_insert_reads_back(tagged.insert("id"@, echoed), "error"@, error, low);
}

/// The error code of a block on each protocol.
pub open spec fn block_code(protocol: GateProtocol) -> int {
    match protocol {
        GateProtocol::Mcp => JSONRPC_BLOCK_ERROR_CODE as int,
        GateProtocol::A2a(A2aBinding::JsonRpc(_)) => A2A_BLOCK_ERROR_CODE as int,
        GateProtocol::A2a(A2aBinding::Rest) => A2A_REST_BLOCK_HTTP_STATUS as int,
    }
}

/// On JSON-RPC a block is an error in an envelope that echoes the request's id, on HTTP success.
/// On the HTTP+JSON binding it has no envelope, and its code is the HTTP status. The message is the
/// same everywhere.
pub proof fn law_block_has_the_shape_of_its_protocol(
    protocol: GateProtocol,
    id: Option<Json>,
    score: Option<Score>,
    config: Config,
)
    ensures
        ({
            let disclose = config::or_default(config.disclose_score_details, false);
            let members = block_document(protocol, id, score, config)->Object_0;
            let error = members["error"@]->Object_0;
            &&& block_document(protocol, id, score, config) is Object
            &&& members.dom().contains("error"@) && members["error"@] is Object
            &&& recognize::member_of(error, "code"@) == Some(Json::Int(block_code(protocol)))
            &&& recognize::member_of(error, "message"@) == Some(
                Json::Text(message_text(disclose, score, config)),
            )
            &&& if protocol == GateProtocol::A2a(A2aBinding::Rest) {
                &&& !members.dom().contains("jsonrpc"@)
                &&& !members.dom().contains("id"@)
                &&& block_status(protocol) == block_code(protocol)
            } else {
                &&& recognize::member_of(members, "jsonrpc"@) == Some(Json::Text("2.0"@))
                &&& recognize::member_of(members, "id"@) == Some(
                    config::or_default(id, Json::Null),
                )
                &&& block_status(protocol) == 200
            }
        }),
{
    reveal_strlit("jsonrpc");
    reveal_strlit("id");
    reveal_strlit("error");
    reveal_strlit("code");
    reveal_strlit("message");
    reveal_strlit("data");
    reveal_strlit("details");
    assert("jsonrpc"@.len() == 7 && "id"@.len() == 2 && "error"@.len() == 5);
    assert("code"@[0] == 'c' && "message"@.len() == 7 && "data"@[0] == 'd');
    assert("details"@.len() == 7 && "details"@[0] == 'd' && "message"@[0] == 'm');
}

/// The error info of a block is the same on both bindings of A2A v1.0.
pub proof fn law_error_info_is_the_same_on_both_bindings(
    score: Option<Score>,
    config: Config,
)
    ensures
        ({
            let disclose = config::or_default(config.disclose_score_details, false);
            let v1 = GateProtocol::A2a(A2aBinding::JsonRpc(A2aVersion::V1_0));
            let rest = GateProtocol::A2a(A2aBinding::Rest);
            let info = Json::List(seq![error_info(disclose, score, config)]);
            &&& recognize::member_of(error_members(v1, disclose, score, config), "data"@) == Some(
                info,
            )
            &&& recognize::member_of(error_members(rest, disclose, score, config), "details"@)
                == Some(info)
        }),
{
}

/// Unless details are disclosed, a block shows nothing of the score, of the thresholds or of the
/// asset: whatever they are, the answer is the same.
pub proof fn law_undisclosed_blocks_are_alike(
    protocol: GateProtocol,
    id: Option<Json>,
    score1: Option<Score>,
    config1: Config,
    score2: Option<Score>,
    config2: Config,
)
    requires
        !config::or_default(config1.disclose_score_details, false),
        !config::or_default(config2.disclose_score_details, false),
    ensures
        block_document(protocol, id, score1, config1) == block_document(
            protocol,
            id,
            score2,
            config2,
        ),
        block_header_list(score1, config1) == block_header_list(score2, config2),
{
}

/// The message of a block, the same on every protocol. Score, threshold and asset id are in it
/// only where they are disclosed.
pub fn block_message(disclose: bool, score: Option<&Score>, config: &Config) -> (r: String)
    ensures
        r@ == message_text(disclose, score_of(score), *config),
{
    if disclose {
        match score {
            Some(score) => "Blocked by DQ Gate: asset '".to_string().concat(
                config.cdgc_asset_id.as_str(),
            ).concat("' DQ score ").concat(score.text.as_str()).concat(
                " is below blockThreshold ",
            ).concat(config.block_threshold.text.as_str()),
            None =>
            "Blocked by DQ Gate: no DQ score is available yet for asset '".to_string().concat(
                config.cdgc_asset_id.as_str(),
            ).concat("'"),
        }
    } else {
        "Blocked by DQ Gate: data quality for the requested source did not meet the required standard".to_string()
    }
}

/// The score behind a reference.
pub open spec fn score_of(score: Option<&Score>) -> Option<Score> {
    match score {
        Some(score) => Some(*score),
        None => None,
    }
}

/// The headers of a block, the same on every protocol: the content type, the score where it is
/// disclosed, and the status.
pub fn block_headers(disclose: bool, score: Option<&Score>) -> (r: Vec<(String, String)>)
    ensures
        header_texts(r@) == header_list(disclose, score_of(score)),
{
    let mut headers: Vec<(String, String)> = Vec::new();
    headers.push(("content-type".to_string(), "application/json".to_string()));
    if disclose {
        if let Some(score) = score {
            headers.push((HEADER_DQ_SCORE.to_string(), score.text.clone()));
        }
    }
    headers.push((HEADER_DQ_STATUS.to_string(), "blocked".to_string()));
    assert(header_texts(headers@) =~= header_list(disclose, score_of(score)));
    headers
}

/// The `google.rpc.ErrorInfo` of an A2A v1.0 block: reason and domain always, metadata only where
/// details are disclosed.
pub fn a2a_error_info(disclose: bool, score: Option<&Score>, config: &Config) -> (r: Value)
    ensures
        json::json_tree(r) == error_info(disclose, score_of(score), *config),
{
    let mut data = json::no_members();
    if disclose {
        if let Some(score) = score {
            json::put_member(
                &mut data,
                "score".to_string(),
                json::string_value(score.text.clone()),
            );
        }
        json::put_member(
            &mut data,
            "blockThreshold".to_string(),
            json::string_value(config.block_threshold.text.clone()),
        );
        json::put_member(
            &mut data,
            "assetId".to_string(),
            json::string_value(config.cdgc_asset_id.clone()),
        );
    }
    let mut info = json::no_members();
    json::put_member(
        &mut info,
        "@type".to_string(),
        json::string_value("type.googleapis.com/google.rpc.ErrorInfo".to_string()),
    );
    json::put_member(
        &mut info,
        "reason".to_string(),
        json::string_value(A2A_ERROR_REASON.to_string()),
    );
    json::put_member(
        &mut info,
        "domain".to_string(),
        json::string_value(A2A_ERROR_DOMAIN.to_string()),
    );
    json::put_member(&mut info, "metadata".to_string(), json::object_value(data));
    json::object_value(info)
}

fn coded(code: i64, message: String) -> (r: serde_json::Map<String, Value>)
    ensures
        json::json_members(r) == coded_message(code as int, message@),
{
    let mut error = json::no_members();
    json::put_member(&mut error, "code".to_string(), json::int_value(code));
    json::put_member(&mut error, "message".to_string(), json::string_value(message));
    error
}

fn envelope(rpc_id: Option<Value>, error: serde_json::Map<String, Value>) -> (r: Value)
    ensures
        json::json_tree(r) == jsonrpc_error(
            recognize::id_tree(rpc_id),
            json::json_members(error),
        ),
{
    let mut body = json::no_members();
    json::put_member(&mut body, "jsonrpc".to_string(), json::string_value("2.0".to_string()));
    let id = match rpc_id {
        Some(id) => id,
        None => json::null_value(),
    };
    json::put_member(&mut body, "id".to_string(), id);
    json::put_member(&mut body, "error".to_string(), json::object_value(error));
    json::object_value(body)
}

/// The answer to a blocked MCP request: a JSON-RPC error on HTTP success, because MCP carries
/// errors in the protocol and not in the transport.
pub fn block_response(rpc_id: Option<Value>, score: Option<&Score>, config: &Config) -> (r:
    BlockResponse)
    ensures
        answers(
            r,
            GateProtocol::Mcp,
            recognize::id_tree(rpc_id),
            score_of(score),
            *config,
        ),
{
    proof {
        if id_reads_back(recognize::id_tree(rpc_id)) {
            law_block_document_reads_back(
                GateProtocol::Mcp,
                recognize::id_tree(rpc_id),
                score_of(score),
                *config,
            );
        }
    }
    let disclose = config::discloses(config);
    let message = block_message(disclose, score, config);
    let body = envelope(rpc_id, coded(JSONRPC_BLOCK_ERROR_CODE, message));
    BlockResponse {
        status: 200,
        headers: block_headers(disclose, score),
        body: json::written(&body),
    }
}

/// The answer to a blocked A2A request on the JSON-RPC binding: the error again on HTTP success.
/// Its data is an array of one `google.rpc.ErrorInfo` on v1.0; on v0.3.0 it is the reason, and
/// only where details are disclosed.
pub fn a2a_jsonrpc_block_response(
    version: A2aVersion,
    rpc_id: Option<Value>,
    score: Option<&Score>,
    config: &Config,
) -> (r: BlockResponse)
    ensures
        answers(
            r,
            GateProtocol::A2a(A2aBinding::JsonRpc(version)),
            recognize::id_tree(rpc_id),
            score_of(score),
            *config,
        ),
{
    proof {
        if id_reads_back(recognize::id_tree(rpc_id)) {
            law_block_document_reads_back(
                GateProtocol::A2a(A2aBinding::JsonRpc(version)),
                recognize::id_tree(rpc_id),
                score_of(score),
                *config,
            );
        }
    }
    let disclose = config::discloses(config);
    let message = block_message(disclose, score, config);
    let mut error = coded(A2A_BLOCK_ERROR_CODE, message);
    match version {
        A2aVersion::V1_0 => {
            let info = a2a_error_info(disclose, score, config);
            json::put_member(&mut error, "data".to_string(), json::single_value(info));
        },
        A2aVersion::V0_3 => {
            if disclose {
                json::put_member(
                    &mut error,
                    "data".to_string(),
                    json::string_value(A2A_ERROR_REASON.to_string()),
                );
            }
        },
    }
    let body = envelope(rpc_id, error);
    BlockResponse {
        status: 200,
        headers: block_headers(disclose, score),
        body: json::written(&body),
    }
}

/// The answer to a blocked request on the A2A HTTP+JSON binding: a native HTTP status and a
/// `google.rpc.Status` that mirrors it, with no JSON-RPC envelope.
pub fn a2a_rest_block_response(score: Option<&Score>, config: &Config) -> (r: BlockResponse)
    ensures
        answers(r, GateProtocol::A2a(A2aBinding::Rest), None, score_of(score), *config),
{
    proof {
        law_block_document_reads_back(
            GateProtocol::A2a(A2aBinding::Rest),
            None,
            score_of(score),
            *config,
        );
    }
    let disclose = config::discloses(config);
    let message = block_message(disclose, score, config);
    let mut error = coded(A2A_REST_BLOCK_HTTP_STATUS as i64, message);
    let info = a2a_error_info(disclose, score, config);
    json::put_member(&mut error, "details".to_string(), json::single_value(info));
    let mut status = json::no_members();
    json::put_member(&mut status, "error".to_string(), json::object_value(error));
    let body = json::object_value(status);
    BlockResponse {
        status: A2A_REST_BLOCK_HTTP_STATUS,
        headers: block_headers(disclose, score),
        body: json::written(&body),
    }
}

/// The id that an answer on a protocol can carry: the HTTP+JSON binding carries none.
pub open spec fn carried_id(protocol: GateProtocol, id: Option<Json>) -> Option<Json> {
    match protocol {
        GateProtocol::A2a(A2aBinding::Rest) => None,
        _ => id,
    }
}

/// The answer to a blocked request in the shape of its protocol.
pub fn build_block_response(
    protocol: GateProtocol,
    rpc_id: Option<Value>,
    score: Option<&Score>,
    config: &Config,
) -> (r: BlockResponse)
    ensures
        answers(
            r,
            protocol,
            carried_id(protocol, recognize::id_tree(rpc_id)),
            score_of(score),
            *config,
        ),
{
    match protocol {
        GateProtocol::Mcp => block_response(rpc_id, score, config),
        GateProtocol::A2a(A2aBinding::JsonRpc(version)) => a2a_jsonrpc_block_response(
            version,
            rpc_id,
            score,
            config,
        ),
        GateProtocol::A2a(A2aBinding::Rest) => a2a_rest_block_response(score, config),
    }
}

/// Headers are told by their names and values, in their order.
pub proof fn law_header_texts_are_complete(headers: Seq<(String, String)>)
    ensures
        header_texts(headers).len() == headers.len(),
        forall|i: int|
            0 <= i < headers.len() ==> #[trigger] header_texts(headers)[i] == (
                headers[i].0@,
                headers[i].1@,
            ),
{
}

/// The message names asset, score and threshold where they are disclosed and there is a score, the
/// asset where there is none, and nothing of them otherwise.
pub proof fn law_message_names_what_is_disclosed(
    score: Score,
    absent: Option<Score>,
    config: Config,
)
    ensures
        message_text(true, Some(score), config) == "Blocked by DQ Gate: asset '"@
            + config.cdgc_asset_id@ + "' DQ score "@ + score.text@ + " is below blockThreshold "@
            + config.block_threshold.text@,
        message_text(true, None, config)
            == "Blocked by DQ Gate: no DQ score is available yet for asset '"@
            + config.cdgc_asset_id@ + "'"@,
        message_text(false, absent, config)
            == "Blocked by DQ Gate: data quality for the requested source did not meet the required standard"@,
{
}

/// A block is JSON with the status `blocked`; the score stands between where it is disclosed and
/// there is one.
pub proof fn law_block_headers_show_what_is_disclosed(score: Score, any: Option<Score>)
    ensures
        header_list(true, Some(score)) == seq![
            ("content-type"@, "application/json"@),
            ("x-dq-gate-score"@, score.text@),
            ("x-dq-gate-status"@, "blocked"@),
        ],
        header_list(true, None) == seq![
            ("content-type"@, "application/json"@),
            ("x-dq-gate-status"@, "blocked"@),
        ],
        header_list(false, any) == seq![
            ("content-type"@, "application/json"@),
            ("x-dq-gate-status"@, "blocked"@),
        ],
{
}

/// The metadata holds threshold and asset, and the score where there is one, if they are
/// disclosed; nothing if they are not.
pub proof fn law_metadata_holds_what_is_disclosed(score: Score, any: Option<Score>, config: Config)
    ensures
        ({
            let full = metadata(true, Some(score), config);
            &&& full.dom() == set!["score"@, "blockThreshold"@, "assetId"@]
            &&& full["score"@] == Json::Text(score.text@)
            &&& full["blockThreshold"@] == Json::Text(config.block_threshold.text@)
            &&& full["assetId"@] == Json::Text(config.cdgc_asset_id@)
        }),
        ({
            let unknown = metadata(true, None, config);
            &&& unknown.dom() == set!["blockThreshold"@, "assetId"@]
            &&& unknown["blockThreshold"@] == Json::Text(config.block_threshold.text@)
            &&& unknown["assetId"@] == Json::Text(config.cdgc_asset_id@)
        }),
        metadata(false, any, config).dom() == Set::<Seq<char>>::empty(),
{
    reveal_strlit("score");
    reveal_strlit("blockThreshold");
    reveal_strlit("assetId");
    assert("score"@.len() == 5 && "blockThreshold"@.len() == 14 && "assetId"@.len() == 7);
    assert(metadata(true, Some(score), config).dom() =~= set![
        "score"@,
        "blockThreshold"@,
        "assetId"@,
    ]);
    assert(metadata(true, None, config).dom() =~= set!["blockThreshold"@, "assetId"@]);
}

/// An error info holds its type, reason and domain, always the same, and the metadata.
pub proof fn law_error_info_holds_reason_and_domain(
    disclose: bool,
    score: Option<Score>,
    config: Config,
)
    ensures
        error_info(disclose, score, config) matches Json::Object(members) && members.dom() == set![
            "@type"@,
            "reason"@,
            "domain"@,
            "metadata"@,
        ] && members["@type"@] == Json::Text("type.googleapis.com/google.rpc.ErrorInfo"@)
            && members["reason"@] == Json::Text("DATA_QUALITY_BELOW_THRESHOLD"@)
            && members["domain"@] == Json::Text("dq-gate.mulesoft.com"@) && members["metadata"@]
            == Json::Object(metadata(disclose, score, config)),
{
    reveal_strlit("@type");
    reveal_strlit("reason");
    reveal_strlit("domain");
    reveal_strlit("metadata");
    assert("@type"@.len() == 5 && "reason"@[0] == 'r' && "domain"@[0] == 'd');
    assert("reason"@.len() == 6 && "domain"@.len() == 6 && "metadata"@.len() == 8);
    let members = error_info(disclose, score, config)->Object_0;
    assert(members.dom() =~= set!["@type"@, "reason"@, "domain"@, "metadata"@]);
}

/// The error of a block holds code and message, and besides them: on MCP nothing, on A2A v0.3.0
/// the reason where details are disclosed, on A2A v1.0 and on the HTTP+JSON binding one error info.
pub proof fn law_errors_of_each_protocol(disclose: bool, score: Option<Score>, config: Config)
    ensures
        ({
            let message = Json::Text(message_text(disclose, score, config));
            let info = Json::List(seq![error_info(disclose, score, config)]);
            let mcp = error_members(GateProtocol::Mcp, disclose, score, config);
            let v03 = error_members(
                GateProtocol::A2a(A2aBinding::JsonRpc(A2aVersion::V0_3)),
                disclose,
                score,
                config,
            );
            let v1 = error_members(
                GateProtocol::A2a(A2aBinding::JsonRpc(A2aVersion::V1_0)),
                disclose,
                score,
                config,
            );
            let rest = error_members(GateProtocol::A2a(A2aBinding::Rest), disclose, score, config);
            &&& mcp.dom() == set!["code"@, "message"@]
            &&& mcp["code"@] == Json::Int(-32008) && mcp["message"@] == message
            &&& disclose ==> v03.dom() == set!["code"@, "message"@, "data"@] && v03["data"@]
                == Json::Text("DATA_QUALITY_BELOW_THRESHOLD"@)
            &&& !disclose ==> v03.dom() == set!["code"@, "message"@]
            &&& v03["code"@] == Json::Int(-32010) && v03["message"@] == message
            &&& v1.dom() == set!["code"@, "message"@, "data"@]
            &&& v1["code"@] == Json::Int(-32010) && v1["message"@] == message && v1["data"@] == info
            &&& rest.dom() == set!["code"@, "message"@, "details"@]
            &&& rest["code"@] == Json::Int(403) && rest["message"@] == message && rest["details"@]
                == info
        }),
{
    reveal_strlit("code");
    reveal_strlit("message");
    reveal_strlit("data");
    reveal_strlit("details");
    assert("code"@[0] == 'c' && "message"@[0] == 'm' && "data"@[0] == 'd' && "details"@[0] == 'd');
    let v03 = GateProtocol::A2a(A2aBinding::JsonRpc(A2aVersion::V0_3));
    let v1 = GateProtocol::A2a(A2aBinding::JsonRpc(A2aVersion::V1_0));
    let rest = GateProtocol::A2a(A2aBinding::Rest);
    let plain = set!["code"@, "message"@];
    assert(error_members(GateProtocol::Mcp, disclose, score, config).dom() =~= plain);
    if disclose {
        assert(error_members(v03, disclose, score, config).dom() =~= plain.insert("data"@));
    } else {
        assert(error_members(v03, disclose, score, config).dom() =~= plain);
    }
    assert(error_members(v1, disclose, score, config).dom() =~= plain.insert("data"@));
    assert(error_members(rest, disclose, score, config).dom() =~= plain.insert("details"@));
}

/// A block is its protocol's error: in an envelope of version, id and error on JSON-RPC, where an
/// absent id is null, and alone on the HTTP+JSON binding. Details are disclosed exactly where the
/// configuration says so.
pub proof fn law_documents_of_each_protocol(
    protocol: GateProtocol,
    id: Option<Json>,
    score: Option<Score>,
    config: Config,
)
    ensures
        ({
            let disclose = config.disclose_score_details == Some(true);
            let error = Json::Object(error_members(protocol, disclose, score, config));
            &&& block_document(protocol, id, score, config) matches Json::Object(members)
            &&& members["error"@] == error
            &&& protocol == GateProtocol::A2a(A2aBinding::Rest) ==> members.dom() == set!["error"@]
            &&& protocol != GateProtocol::A2a(A2aBinding::Rest) ==> {
                &&& members.dom() == set!["jsonrpc"@, "id"@, "error"@]
                &&& members["jsonrpc"@] == Json::Text("2.0"@)
                &&& id matches Some(tree) ==> members["id"@] == tree
                &&& id is None ==> members["id"@] == Json::Null
            }
        }),
{
    reveal_strlit("jsonrpc");
    reveal_strlit("id");
    reveal_strlit("error");
    assert("jsonrpc"@.len() == 7 && "id"@.len() == 2 && "error"@.len() == 5);
    let members = block_document(protocol, id, score, config)->Object_0;
    if protocol == GateProtocol::A2a(A2aBinding::Rest) {
        assert(members.dom() =~= set!["error"@]);
    } else {
        assert(members.dom() =~= set!["jsonrpc"@, "id"@, "error"@]);
    }
}

/// An answer has the status of its protocol, the headers of a block, and the document as its body;
/// and a client that reads the body finds the document, for every id that is absent, null, a
/// boolean, an integer or a text.
pub proof fn law_an_answer_is_status_headers_and_document(
    response: BlockResponse,
    protocol: GateProtocol,
    id: Option<Json>,
    score: Option<Score>,
    config: Config,
)
    requires
        answers(response, protocol, id, score, config),
    ensures
        response.status == (if protocol == GateProtocol::A2a(A2aBinding::Rest) {
            403u32
        } else {
            200u32
        }),
        header_texts(response.headers@) == header_list(
            config.disclose_score_details == Some(true),
            score,
        ),
        response.body@ == json::json_written(block_document(protocol, id, score, config)),
        (id matches Some(tree) ==> tree is Null || tree is Bool || tree is Int || tree is Text)
            ==> json::json_read(response.body@) == Some(
            block_document(protocol, id, score, config),
        ),
        (id matches Some(tree) ==> json::reads_back(tree, 126)) ==> json::json_read(response.body@)
            == Some(block_document(protocol, id, score, config)),
{
}

/// Every protocol but the HTTP+JSON binding carries the id; a score behind a reference is that
/// score.
pub proof fn law_ids_and_scores_are_handed_on(
    protocol: GateProtocol,
    id: Option<Json>,
    score: Score,
)
    ensures
        protocol != GateProtocol::A2a(A2aBinding::Rest) ==> carried_id(protocol, id) == id,
        carried_id(GateProtocol::A2a(A2aBinding::Rest), id) is None,
        score_of(Some(&score)) == Some(score),
        score_of(None) is None,
{
}

} // verus!
