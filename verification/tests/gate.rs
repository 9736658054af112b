//! Whole requests through the policy, with a store, a clock and a catalog of the tests' own.

use std::cell::RefCell;
use std::collections::HashMap;
use std::rc::Rc;

use dq_gate::block::BlockResponse;
use dq_gate::cdgc::{
    fetch_after_detail, fetch_after_jwt, fetch_after_login, fetch_start, AssetDetailResponse,
    CdgcJwtResponse, CdgcLoginResponse, CdgcService, FetchStep, HttpCall, RefreshError, Reply, Stage,
    Verb,
};
use dq_gate::clock::ClockReading;
use dq_gate::config::{storage_plan, Config, StoragePlan};
use dq_gate::filter::{annotations, decide, skipped, Flow, GateOutcome};
use dq_gate::recognize::{recognize, Recognition, Request};
use dq_gate::resolve::{
    resolve_after_fetch, resolve_after_lock, resolve_after_read, resolve_after_store,
    resolve_start, ResolveStep,
};
use dq_gate::score::{DqDimensionResult, Score};
use dq_gate::storage::{
    lock_after_claim, lock_after_inspect, lock_after_last, lock_start, read_cached_score,
    write_after_read, write_after_store, write_start, CachedScore, LockStep, RefreshLock,
    StorageError, StoreMode, WriteOutcome, WriteStep,
};
use serde_json::Value;

fn score(value: f64) -> Score {
    Score { bits: value.to_bits(), text: format!("{:.2}", value) }
}

fn config() -> Config {
    Config {
        block_on_unknown_score: None,
        block_threshold: score(80.0),
        cdgc_asset_id: "asset-1".to_string(),
        cdgc_org_password: "test-pass".to_string(),
        cdgc_org_username: "test-user".to_string(),
        disclose_score_details: None,
        distributed: None,
        fail_open_on_cdgc_error: None,
        refresh_interval_seconds: Some(86400),
        score_aggregation: None,
        timeout: None,
        warn_threshold: score(90.0),
    }
}

/// A request to a double of an HTTP service: the path and the headers of the call.
struct Called {
    path: String,
    headers: Vec<(String, String)>,
}

impl Called {
    fn header(&self, name: &str) -> Option<String> {
        self.headers.iter().find(|(key, _)| key == name).map(|(_, value)| value.clone())
    }
}

type Service = Box<dyn Fn(&Called) -> (u32, String)>;

struct Store<T: Clone> {
    data: HashMap<String, (T, u64)>,
}

impl<T: Clone> Store<T> {
    fn new() -> Self {
        Store { data: HashMap::new() }
    }

    fn get(&self, key: &str) -> Result<Option<(T, String)>, StorageError> {
        Ok(self.data.get(key).map(|(item, version)| (item.clone(), version.to_string())))
    }

    fn store(&mut self, key: &str, mode: &StoreMode, item: &T) -> Result<(), StorageError> {
        let current = self.data.get(key).map(|(_, version)| *version);
        let next = match (mode, current) {
            (StoreMode::Absent, None) => 1,
            (StoreMode::Cas(expected), Some(version)) if *expected == version.to_string() => {
                version + 1
            }
            _ => return Err(StorageError::CasMismatch),
        };
        self.data.insert(key.to_string(), (item.clone(), next));
        Ok(())
    }
}

/// What a client sees of a request, and what happened to the request.
struct Answer {
    status: u32,
    headers: Vec<(String, String)>,
    body: Vec<u8>,
    reached_backend: bool,
    violation: bool,
    bypass_warning: bool,
}

impl Answer {
    fn header(&self, name: &str) -> Option<&str> {
        self.headers.iter().find(|(key, _)| key == name).map(|(_, value)| value.as_str())
    }

    fn json(&self) -> Value {
        serde_json::from_slice(&self.body).unwrap()
    }
}

struct Gate {
    config: Config,
    scores: Store<CachedScore>,
    locks: Store<RefreshLock>,
    now: u64,
    login: Option<Service>,
    api: Option<Service>,
    bypass_logged: bool,
    last_error: Option<RefreshError>,
}

fn text_member(body: &str, key: &str) -> Result<String, String> {
    let value: Value = serde_json::from_str(body).map_err(|err| err.to_string())?;
    match value.get(key).and_then(Value::as_str) {
        Some(text) => Ok(text.to_string()),
        None => Err(format!("missing field `{}`", key)),
    }
}

fn parse_detail(body: &str) -> Result<AssetDetailResponse, String> {
    let value: Value = serde_json::from_str(body).map_err(|err| err.to_string())?;
    let mut scores: Vec<f64> = Vec::new();
    if let Some(items) = value.get("dataQuality").and_then(Value::as_array) {
        for item in items {
            scores.push(item["core.score"].as_f64().ok_or("missing field `core.score`")?);
        }
    }
    let average = score(scores.iter().sum::<f64>() / scores.len() as f64);
    let data_quality = scores.iter().map(|s| DqDimensionResult { score: score(*s) }).collect();
    Ok(AssetDetailResponse { data_quality, average })
}

impl Gate {
    fn new(config: Config, login: Option<Service>, api: Option<Service>) -> Self {
        Gate {
            config,
            scores: Store::new(),
            locks: Store::new(),
            now: 1_700_000_000,
            login,
            api,
            bypass_logged: false,
            last_error: None,
        }
    }

    fn sleep(&mut self, seconds: u64) {
        self.now += seconds;
    }

    fn time(&self) -> ClockReading {
        ClockReading { before_epoch: false, seconds: self.now, nanos: 123 }
    }

    fn call(&self, call: HttpCall) -> Option<(u32, String)> {
        let service = match call.service {
            CdgcService::Login => self.login.as_ref(),
            CdgcService::Api => self.api.as_ref(),
        };
        service.map(|service| service(&Called { path: call.path, headers: call.headers }))
    }

    fn fetch(&self) -> Result<Score, RefreshError> {
        let config = &self.config;
        let start = self.time();
        let call = match fetch_start(config, start, self.time()) {
            FetchStep::Login(call) => call,
            FetchStep::Done(result) => return result,
            _ => unreachable!(),
        };
        let reply = match self.call(call) {
            None => Reply::Failed("no upstream".to_string()),
            Some((status, body)) => Reply::Answered {
                status,
                payload: text_member(&body, "sessionId").and_then(|session_id| {
                    text_member(&body, "orgId")
                        .map(|org_id| CdgcLoginResponse { session_id, org_id })
                }),
            },
        };
        let (call, org_id) = match fetch_after_login(config, start, reply, self.time(), self.time()) {
            FetchStep::Jwt { call, org_id } => (call, org_id),
            FetchStep::Done(result) => return result,
            _ => unreachable!(),
        };
        let reply = match self.call(call) {
            None => Reply::Failed("no upstream".to_string()),
            Some((status, body)) => Reply::Answered {
                status,
                payload: text_member(&body, "jwt_token")
                    .map(|jwt_token| CdgcJwtResponse { jwt_token }),
            },
        };
        let call = match fetch_after_jwt(config, start, org_id, reply, self.time()) {
            FetchStep::Detail(call) => call,
            FetchStep::Done(result) => return result,
            _ => unreachable!(),
        };
        let reply = match self.call(call) {
            None => Reply::Failed("no upstream".to_string()),
            Some((status, body)) => Reply::Answered { status, payload: parse_detail(&body) },
        };
        fetch_after_detail(config, reply)
    }

    fn acquire(&mut self, key: &str, now: i64) -> Result<bool, StorageError> {
        let mut step = lock_start(now);
        loop {
            step = match step {
                LockStep::Claim { entry } => {
                    lock_after_claim(self.locks.store(key, &StoreMode::Absent, &entry))
                }
                LockStep::Inspect => lock_after_inspect(self.locks.get(key), now),
                LockStep::TakeOver { entry, version } => {
                    let mode = StoreMode::Cas(version);
                    return lock_after_last(self.locks.store(key, &mode, &entry));
                }
                LockStep::Reclaim { entry } => {
                    return lock_after_last(self.locks.store(key, &StoreMode::Absent, &entry));
                }
                LockStep::Done(result) => return result,
            };
        }
    }

    fn write(&mut self, key: &str, entry: &CachedScore) -> WriteOutcome {
        let mut step = write_start();
        loop {
            step = match step {
                WriteStep::Read { attempt } => write_after_read(attempt, self.scores.get(key)),
                WriteStep::Store { attempt, mode } => {
                    write_after_store(attempt, self.scores.store(key, &mode, entry))
                }
                WriteStep::Done(outcome) => return outcome,
            };
        }
    }

    fn resolve(&mut self) -> Option<Score> {
        let mut step = resolve_start(&self.config);
        loop {
            step = match step {
                ResolveStep::ReadScore { key } => resolve_after_read(
                    &self.config,
                    read_cached_score(self.scores.get(&key)),
                    self.time(),
                ),
                ResolveStep::AcquireLock { key, cached, now } => {
                    resolve_after_lock(self.acquire(&key, now), cached, now)
                }
                ResolveStep::Fetch { cached, now } => {
                    let fetched = self.fetch();
                    let (fetched, error) = match fetched {
                        Ok(score) => (Ok(score), None),
                        Err(error) => {
                            let stage_error = match &error {
                                RefreshError::Refused(stage, status) => {
                                    Some(RefreshError::Refused(*stage, *status))
                                }
                                _ => None,
                            };
                            (Err(error), stage_error)
                        }
                    };
                    self.last_error = error;
                    resolve_after_fetch(&self.config, fetched, cached, now)
                }
                ResolveStep::Store { key, entry, score } => {
                    let outcome = self.write(&key, &entry);
                    resolve_after_store(score, &outcome)
                }
                ResolveStep::Done(score) => return score,
            };
        }
    }

    fn request(&mut self, request: Request) -> Answer {
        let outcome: GateOutcome = match recognize(&request) {
            Recognition::Skipped => skipped(),
            Recognition::Gated { protocol, rpc_id } => {
                let score = self.resolve();
                decide(protocol, rpc_id, score, &self.config, &mut self.bypass_logged)
            }
        };
        match outcome.flow {
            Flow::Continue(data) => Answer {
                status: 200,
                headers: annotations(&data),
                body: Vec::new(),
                reached_backend: true,
                violation: outcome.violation,
                bypass_warning: outcome.bypass_warning,
            },
            Flow::Break(BlockResponse { status, headers, body }) => Answer {
                status,
                headers,
                body,
                reached_backend: false,
                violation: outcome.violation,
                bypass_warning: outcome.bypass_warning,
            },
        }
    }
}

fn post(path: &str, content_type: &str, body: &str) -> Request {
    Request {
        method: "POST".to_string(),
        content_type: content_type.to_string(),
        path: path.to_string(),
        body: body.as_bytes().to_vec(),
    }
}

fn mcp_request(id: i64) -> Request {
    mcp_request_with_method(id, "tools/call")
}

fn mcp_request_with_method(id: i64, method: &str) -> Request {
    let body = format!(r#"{{"jsonrpc":"2.0","id":{},"method":"{}"}}"#, id, method);
    post("/mcp", "application/json", &body)
}

fn a2a_request(id: i64, method: &str) -> Request {
    let body = format!(r#"{{"jsonrpc":"2.0","id":{},"method":"{}"}}"#, id, method);
    post("/a2a", "application/json", &body)
}

fn a2a_rest_send(path: &str) -> Request {
    post(path, "application/json", r#"{"message":{"role":"user","parts":[]}}"#)
}

fn cdgc_login_backend(calls: Rc<RefCell<u32>>) -> Option<Service> {
    Some(Box::new(move |called: &Called| {
        if called.path.starts_with("/identity-service/api/v1/Login") {
            *calls.borrow_mut() += 1;
            (200, r#"{"sessionId":"session-1","orgId":"org-1"}"#.to_string())
        } else if called.path.starts_with("/identity-service/api/v1/jwt/Token") {
            (200, r#"{"jwt_token":"test-jwt"}"#.to_string())
        } else {
            (404, String::new())
        }
    }))
}

fn cdgc_score_backend(score: f64) -> Option<Service> {
    Some(Box::new(move |_called: &Called| {
        (200, format!(r#"{{"dataQuality":[{{"core.score":{:.1}}}]}}"#, score))
    }))
}

fn cdgc_score_once_then_error(score: f64, calls: Rc<RefCell<u32>>) -> Option<Service> {
    Some(Box::new(move |_called: &Called| {
        *calls.borrow_mut() += 1;
        if *calls.borrow() == 1 {
            (200, format!(r#"{{"dataQuality":[{{"core.score":{:.1}}}]}}"#, score))
        } else {
            (500, String::new())
        }
    }))
}

fn counter() -> Rc<RefCell<u32>> {
    Rc::new(RefCell::new(0))
}

#[test]
fn healthy_score_passes_through_and_tags_the_response() {
    let mut gate = Gate::new(config(), cdgc_login_backend(counter()), cdgc_score_backend(95.0));
    let response = gate.request(mcp_request(1));
    assert_eq!(response.status, 200);
    assert_eq!(response.header("x-dq-gate-status"), Some("ok"));
    assert_eq!(response.header("x-dq-gate-score"), None);
    assert!(response.reached_backend);
}

#[test]
fn score_below_block_threshold_rejects_with_jsonrpc_error_and_never_calls_backend() {
    let mut gate = Gate::new(config(), cdgc_login_backend(counter()), cdgc_score_backend(50.0));
    let response = gate.request(mcp_request(42));
    assert_eq!(response.status, 200);
    assert_eq!(response.header("x-dq-gate-status"), Some("blocked"));
    assert_eq!(response.header("content-type"), Some("application/json"));
    assert_eq!(response.header("x-dq-gate-score"), None);
    let body = response.json();
    assert_eq!(body["jsonrpc"], "2.0");
    assert_eq!(body["id"], 42);
    assert_eq!(body["error"]["code"], -32008);
    let msg = body["error"]["message"].as_str().unwrap();
    assert!(msg.contains("did not meet the required standard"), "got: {}", msg);
    assert!(!msg.contains("blockThreshold"), "must not leak threshold: {}", msg);
    assert!(!msg.contains("asset-1"), "must not leak asset id: {}", msg);
    assert!(!msg.contains("50"), "must not leak score: {}", msg);
    assert!(!response.reached_backend);
}

#[test]
fn disclose_true_emits_score_header_on_allowed_response() {
    let config = Config { disclose_score_details: Some(true), ..config() };
    let mut gate = Gate::new(config, cdgc_login_backend(counter()), cdgc_score_backend(95.0));
    let response = gate.request(mcp_request(1));
    assert_eq!(response.header("x-dq-gate-status"), Some("ok"));
    assert_eq!(response.header("x-dq-gate-score"), Some("95.00"));
}

#[test]
fn disclose_true_block_message_includes_score_and_threshold() {
    let config = Config { disclose_score_details: Some(true), ..config() };
    let mut gate = Gate::new(config, cdgc_login_backend(counter()), cdgc_score_backend(50.0));
    let response = gate.request(mcp_request(3));
    assert_eq!(response.header("x-dq-gate-status"), Some("blocked"));
    assert_eq!(response.header("x-dq-gate-score"), Some("50.00"));
    let body = response.json();
    let msg = body["error"]["message"].as_str().unwrap();
    assert!(msg.contains("blockThreshold"), "got: {}", msg);
    assert!(msg.contains("asset-1"), "got: {}", msg);
    assert_eq!(
        msg,
        "Blocked by DQ Gate: asset 'asset-1' DQ score 50.00 is below blockThreshold 80.00"
    );
    assert!(!response.reached_backend);
}

#[test]
fn exempt_handshake_methods_pass_through_even_below_block_threshold() {
    let login_calls = counter();
    let mut gate = Gate::new(config(), cdgc_login_backend(Rc::clone(&login_calls)), None);
    for method in ["initialize", "tools/list", "notifications/initialized", "ping"] {
        let response = gate.request(mcp_request_with_method(1, method));
        assert_eq!(response.status, 200, "method {method} should pass through");
        assert_eq!(response.header("x-dq-gate-status"), Some("skipped"));
        assert!(response.reached_backend);
    }
    assert_eq!(*login_calls.borrow(), 0);
}

#[test]
fn score_below_warn_threshold_passes_through_with_a_warning() {
    let mut gate = Gate::new(config(), cdgc_login_backend(counter()), cdgc_score_backend(85.0));
    let response = gate.request(mcp_request(2));
    assert_eq!(response.status, 200);
    assert_eq!(response.header("x-dq-gate-status"), Some("warn"));
    assert!(response.reached_backend);
}

#[test]
fn cached_score_within_ttl_skips_cdgc_entirely() {
    let login_calls = counter();
    let login = cdgc_login_backend(Rc::clone(&login_calls));
    let mut gate = Gate::new(config(), login, cdgc_score_backend(95.0));
    let first = gate.request(mcp_request(1));
    assert_eq!(first.status, 200);
    assert_eq!(*login_calls.borrow(), 1);
    let second = gate.request(mcp_request(2));
    assert_eq!(second.status, 200);
    assert_eq!(second.header("x-dq-gate-status"), Some("ok"));
    assert_eq!(*login_calls.borrow(), 1);
}

#[test]
fn no_score_and_block_on_unknown_true_rejects() {
    let config = Config { block_on_unknown_score: Some(true), ..config() };
    let mut gate = Gate::new(config, cdgc_login_backend(counter()), None);
    let response = gate.request(mcp_request(7));
    assert_eq!(response.json()["error"]["code"], -32008);
    assert!(!response.reached_backend);
}

#[test]
fn no_score_defaults_to_fail_closed_and_emits_violation() {
    let mut gate = Gate::new(config(), cdgc_login_backend(counter()), None);
    let response = gate.request(mcp_request(11));
    assert_eq!(response.json()["error"]["code"], -32008, "unset flag must fail closed");
    assert!(!response.reached_backend, "blocked request must never reach the MCP backend");
    assert!(response.violation, "fail-closed block must emit a PolicyViolation");
}

#[test]
fn soft_launch_passes_ungated_when_block_on_unknown_false() {
    let config = Config { block_on_unknown_score: Some(false), ..config() };
    let mut gate = Gate::new(config, cdgc_login_backend(counter()), None);
    let response = gate.request(mcp_request(12));
    assert_eq!(response.status, 200);
    assert_eq!(response.header("x-dq-gate-status"), Some("unknown"));
    assert!(response.body.is_empty(), "a soft-launch pass-through must not carry an error body");
    assert!(response.reached_backend, "soft-launch traffic must reach the MCP backend");
    assert!(!response.violation, "an ungated pass-through must not emit a violation");
}

#[test]
fn below_block_threshold_emits_policy_violation() {
    let mut gate = Gate::new(config(), cdgc_login_backend(counter()), cdgc_score_backend(50.0));
    let response = gate.request(mcp_request(13));
    assert_eq!(response.header("x-dq-gate-status"), Some("blocked"));
    assert!(response.violation, "below-threshold block must emit a PolicyViolation");
}

#[test]
fn score_exactly_at_warn_threshold_is_ok() {
    let mut gate = Gate::new(config(), cdgc_login_backend(counter()), cdgc_score_backend(90.0));
    let response = gate.request(mcp_request(1));
    assert_eq!(response.status, 200);
    assert_eq!(response.header("x-dq-gate-status"), Some("ok"));
    assert!(response.reached_backend);
}

#[test]
fn score_exactly_at_block_threshold_warns_not_blocks() {
    let mut gate = Gate::new(config(), cdgc_login_backend(counter()), cdgc_score_backend(80.0));
    let response = gate.request(mcp_request(1));
    assert_eq!(response.status, 200);
    assert_eq!(response.header("x-dq-gate-status"), Some("warn"));
    assert!(
        response.reached_backend,
        "a score at the block threshold must still reach the backend"
    );
}

#[test]
fn jwt_fetch_sends_session_cookie_ids_header_and_nonce_query() {
    let seen: Rc<RefCell<Vec<(String, String, String)>>> = Rc::new(RefCell::new(Vec::new()));
    let kept = Rc::clone(&seen);
    let capturing_login: Service = Box::new(move |called: &Called| {
        if called.path.starts_with("/identity-service/api/v1/Login") {
            (200, r#"{"sessionId":"session-1","orgId":"org-1"}"#.to_string())
        } else if called.path.starts_with("/identity-service/api/v1/jwt/Token") {
            kept.borrow_mut().push((
                called.path.clone(),
                called.header("cookie").unwrap_or_default(),
                called.header("IDS-SESSION-ID").unwrap_or_default(),
            ));
            (200, r#"{"jwt_token":"test-jwt"}"#.to_string())
        } else {
            (404, String::new())
        }
    });
    let mut gate = Gate::new(config(), Some(capturing_login), cdgc_score_backend(95.0));
    let response = gate.request(mcp_request(1));
    assert_eq!(response.status, 200);
    let (path, cookie, ids) = seen.borrow()[0].clone();
    assert_eq!(cookie, "USER_SESSION=session-1");
    assert_eq!(ids, "session-1");
    assert!(path.contains("client_id=idmc_api"), "jwt path missing client_id: {path}");
    assert!(path.contains("nonce="), "jwt path missing nonce: {path}");
    assert_eq!(
        path,
        "/identity-service/api/v1/jwt/Token?client_id=idmc_api&nonce=1700000000000000123"
    );
}

#[test]
fn stale_cache_is_served_when_fail_open_true_and_refresh_fails() {
    let score_calls = counter();
    let config = Config { fail_open_on_cdgc_error: Some(true), ..config() };
    let api = cdgc_score_once_then_error(95.0, Rc::clone(&score_calls));
    let mut gate = Gate::new(config, cdgc_login_backend(counter()), api);
    let first = gate.request(mcp_request(1));
    assert_eq!(first.header("x-dq-gate-status"), Some("ok"));
    assert!(first.reached_backend);

    gate.sleep(86_401);

    let second = gate.request(mcp_request(2));
    assert_eq!(second.status, 200);
    assert_eq!(
        second.header("x-dq-gate-status"),
        Some("ok"),
        "stale score must be served on fail-open"
    );
    assert!(second.body.is_empty(), "a served-stale pass-through must not carry an error body");
    assert!(second.reached_backend, "fail-open must forward the request to the MCP backend");
    assert!(*score_calls.borrow() >= 2, "the refresh must actually have been attempted");
}

#[test]
fn stale_cache_is_treated_as_unknown_when_fail_open_false() {
    let config = Config { fail_open_on_cdgc_error: Some(false), ..config() };
    let api = cdgc_score_once_then_error(95.0, counter());
    let mut gate = Gate::new(config, cdgc_login_backend(counter()), api);
    let first = gate.request(mcp_request(1));
    assert_eq!(first.header("x-dq-gate-status"), Some("ok"));
    assert!(first.reached_backend);

    gate.sleep(86_401);

    let second = gate.request(mcp_request(2));
    assert_eq!(
        second.json()["error"]["code"], -32008,
        "fail-open=false must not serve the stale score"
    );
    assert!(!second.reached_backend, "a blocked request must never reach the MCP backend");
}

fn recognition_gate(login_calls: &Rc<RefCell<u32>>) -> Gate {
    Gate::new(config(), cdgc_login_backend(Rc::clone(login_calls)), cdgc_score_backend(50.0))
}

#[test]
fn non_post_request_passes_through_ungated() {
    let login_calls = counter();
    let mut gate = recognition_gate(&login_calls);
    let response = gate.request(Request {
        method: "GET".to_string(),
        content_type: String::new(),
        path: "/mcp".to_string(),
        body: Vec::new(),
    });
    assert_eq!(response.status, 200);
    assert_eq!(response.header("x-dq-gate-status"), Some("skipped"));
    assert!(response.body.is_empty(), "a passed-through GET must not receive an error body");
    assert!(response.reached_backend);
    assert_eq!(*login_calls.borrow(), 0, "no score is looked for on a non-POST request");
}

#[test]
fn non_json_content_type_passes_through_ungated() {
    let login_calls = counter();
    let mut gate = recognition_gate(&login_calls);
    let body = r#"{"jsonrpc":"2.0","id":1,"method":"tools/call"}"#;
    let response = gate.request(post("/mcp", "text/plain", body));
    assert_eq!(response.header("x-dq-gate-status"), Some("skipped"));
    assert!(response.reached_backend);
    assert_eq!(*login_calls.borrow(), 0);
}

#[test]
fn grpc_transport_passes_through_ungated() {
    let login_calls = counter();
    let mut gate = recognition_gate(&login_calls);
    let response = gate.request(post("/message:send", "application/grpc", "{}"));
    assert_eq!(response.header("x-dq-gate-status"), Some("skipped"));
    assert!(response.reached_backend);
    assert_eq!(*login_calls.borrow(), 0);
}

#[test]
fn post_and_content_type_are_recognized_in_any_case() {
    let mut gate = recognition_gate(&counter());
    let mut request = mcp_request(1);
    request.method = "post".to_string();
    request.content_type = "Application/JSON; charset=utf-8".to_string();
    let response = gate.request(request);
    assert_eq!(response.header("x-dq-gate-status"), Some("blocked"));
}

#[test]
fn non_jsonrpc_body_passes_through_ungated() {
    let login_calls = counter();
    let mut gate = recognition_gate(&login_calls);
    let response = gate.request(post("/mcp", "application/json", r#"{"hello":"world"}"#));
    assert_eq!(response.header("x-dq-gate-status"), Some("skipped"));
    assert!(response.reached_backend);
    assert_eq!(*login_calls.borrow(), 0);
}

#[test]
fn batch_array_body_fails_open() {
    let login_calls = counter();
    let mut gate = recognition_gate(&login_calls);
    let body = r#"[{"jsonrpc":"2.0","id":1,"method":"tools/call"}]"#;
    let response = gate.request(post("/mcp", "application/json", body));
    assert_eq!(response.header("x-dq-gate-status"), Some("skipped"));
    assert!(response.body.is_empty(), "a batch must not receive a single error object");
    assert!(response.reached_backend);
    assert_eq!(*login_calls.borrow(), 0);
}

#[test]
fn notifications_pass_through_ungated_and_never_block() {
    let login_calls = counter();
    let mut gate = recognition_gate(&login_calls);
    for method in [
        "notifications/cancelled",
        "notifications/progress",
        "notifications/roots/list_changed",
    ] {
        let body = format!(r#"{{"jsonrpc":"2.0","method":"{}"}}"#, method);
        let response = gate.request(post("/mcp", "application/json", &body));
        assert_eq!(response.status, 200, "{method} must pass through");
        assert_eq!(response.header("x-dq-gate-status"), Some("skipped"), "{method}");
        assert!(response.body.is_empty(), "{} must not receive an error body", method);
        assert!(response.reached_backend, "{} must reach the backend", method);
    }
    assert_eq!(*login_calls.borrow(), 0);
}

#[test]
fn call_without_id_is_treated_as_notification_and_passes_through() {
    let login_calls = counter();
    let mut gate = recognition_gate(&login_calls);
    let body = r#"{"jsonrpc":"2.0","method":"tools/call"}"#;
    let response = gate.request(post("/mcp", "application/json", body));
    assert_eq!(response.header("x-dq-gate-status"), Some("skipped"));
    assert!(response.body.is_empty());
    assert!(response.reached_backend);
    assert_eq!(*login_calls.borrow(), 0);
}

#[test]
fn logging_setlevel_is_exempt_from_gating() {
    let login_calls = counter();
    let mut gate = recognition_gate(&login_calls);
    let response = gate.request(mcp_request_with_method(9, "logging/setLevel"));
    assert_eq!(response.status, 200);
    assert_eq!(response.header("x-dq-gate-status"), Some("skipped"));
    assert!(response.reached_backend);
    assert_eq!(*login_calls.borrow(), 0);
}

#[test]
fn a2a_v1_send_below_block_threshold_blocks_in_band_200_with_error_info() {
    let mut gate = Gate::new(config(), cdgc_login_backend(counter()), cdgc_score_backend(50.0));
    let response = gate.request(a2a_request(7, "SendMessage"));
    assert_eq!(response.status, 200);
    assert_eq!(response.header("x-dq-gate-status"), Some("blocked"));
    assert_eq!(response.header("content-type"), Some("application/json"));
    assert_eq!(response.header("x-dq-gate-score"), None);
    let body = response.json();
    assert_eq!(body["jsonrpc"], "2.0");
    assert_eq!(body["id"], 7);
    assert_eq!(body["error"]["code"], -32010);
    let info = &body["error"]["data"][0];
    assert_eq!(info["@type"], "type.googleapis.com/google.rpc.ErrorInfo");
    assert_eq!(info["reason"], "DATA_QUALITY_BELOW_THRESHOLD");
    assert_eq!(info["domain"], "dq-gate.mulesoft.com");
    assert!(
        info["metadata"].as_object().unwrap().is_empty(),
        "metadata must be empty when not disclosing: {info}"
    );
    assert!(!response.reached_backend, "a blocked A2A send must never reach the agent backend");
}

#[test]
fn a2a_v03_send_below_block_threshold_blocks_in_band_200_free_form() {
    let mut gate = Gate::new(config(), cdgc_login_backend(counter()), cdgc_score_backend(50.0));
    let response = gate.request(a2a_request(11, "message/send"));
    assert_eq!(response.status, 200);
    assert_eq!(response.header("x-dq-gate-status"), Some("blocked"));
    let body = response.json();
    assert_eq!(body["jsonrpc"], "2.0");
    assert_eq!(body["id"], 11);
    assert_eq!(body["error"]["code"], -32010);
    assert!(
        body["error"].get("data").is_none(),
        "v0.3 must omit data when not disclosing: {body}"
    );
    let msg = body["error"]["message"].as_str().unwrap();
    assert!(msg.contains("did not meet the required standard"), "got: {msg}");
    assert!(!msg.contains("asset-1"), "must not leak asset id: {msg}");
    assert!(!response.reached_backend);
}

#[test]
fn a2a_send_healthy_score_passes_through_and_tags_response() {
    let mut gate = Gate::new(config(), cdgc_login_backend(counter()), cdgc_score_backend(95.0));
    let response = gate.request(a2a_request(1, "SendMessage"));
    assert_eq!(response.status, 200);
    assert_eq!(response.header("x-dq-gate-status"), Some("ok"));
    assert!(response.reached_backend, "a healthy A2A send must reach the agent backend");
}

#[test]
fn a2a_housekeeping_methods_pass_through_ungated() {
    let login_calls = counter();
    let mut gate = recognition_gate(&login_calls);
    for method in [
        "tasks/get",
        "tasks/pushNotificationConfig/get",
        "agent/getAuthenticatedExtendedCard",
        "GetTask",
        "GetExtendedAgentCard",
        "CancelTask",
    ] {
        let response = gate.request(a2a_request(5, method));
        assert_eq!(response.status, 200, "{method} must pass through");
        assert_eq!(response.header("x-dq-gate-status"), Some("skipped"), "{method}");
        assert!(response.body.is_empty(), "{method} must not receive an error body");
        assert!(response.reached_backend, "{method} must reach the backend");
    }
    assert_eq!(*login_calls.borrow(), 0, "A2A housekeeping must not trigger a CDGC fetch");
}

#[test]
fn a2a_rest_send_binding_below_block_threshold_uses_google_rpc_status_403() {
    let login_calls = counter();
    let login = cdgc_login_backend(Rc::clone(&login_calls));
    let mut gate = Gate::new(config(), login, cdgc_score_backend(50.0));

    let v03 = gate.request(a2a_rest_send("/v1/message:send"));
    assert_eq!(v03.status, 403);
    assert_eq!(v03.header("x-dq-gate-status"), Some("blocked"));
    let v03_body = v03.json();
    assert!(v03_body.get("jsonrpc").is_none(), "REST block must not carry a JSON-RPC envelope");
    assert!(v03_body.get("id").is_none(), "REST block must not carry a JSON-RPC id");
    assert_eq!(v03_body["error"]["code"], 403);
    assert_eq!(
        v03_body["error"]["details"][0]["@type"],
        "type.googleapis.com/google.rpc.ErrorInfo"
    );
    assert_eq!(v03_body["error"]["details"][0]["domain"], "dq-gate.mulesoft.com");

    let v1 = gate.request(a2a_rest_send("/message:send"));
    assert_eq!(v1.status, 403);
    let v1_body = v1.json();
    assert!(v1_body.get("jsonrpc").is_none());
    assert_eq!(v1_body["error"]["code"], 403);
    assert_eq!(
        v1_body["error"]["details"][0]["@type"],
        "type.googleapis.com/google.rpc.ErrorInfo"
    );
    assert_eq!(v1_body["error"]["details"][0]["domain"], "dq-gate.mulesoft.com");
    assert_eq!(*login_calls.borrow(), 1);

    assert!(!v03.reached_backend && !v1.reached_backend);
}

#[test]
fn stale_cache_served_without_cdgc_when_refresh_lock_still_fresh() {
    let login_calls = counter();
    let config = Config { refresh_interval_seconds: Some(1), ..config() };
    let login = cdgc_login_backend(Rc::clone(&login_calls));
    let mut gate = Gate::new(config, login, cdgc_score_backend(95.0));

    let first = gate.request(mcp_request(1));
    assert_eq!(first.header("x-dq-gate-status"), Some("ok"));
    assert_eq!(*login_calls.borrow(), 1, "the first request must perform the CDGC login");
    assert!(first.reached_backend);

    gate.sleep(5);

    let second = gate.request(mcp_request(2));
    assert_eq!(second.status, 200);
    assert_eq!(
        second.header("x-dq-gate-status"),
        Some("ok"),
        "the still-cached score must be served during refresh contention"
    );
    assert!(second.body.is_empty(), "a served-cached pass-through carries no error body");
    assert!(second.reached_backend, "the contended request must still be forwarded");
    assert_eq!(
        *login_calls.borrow(),
        1,
        "serving the cached score during contention must NOT trigger a second CDGC fetch"
    );
}

#[test]
fn fetch_login_http_error_blocks_as_unknown_score() {
    let login_500: Service = Box::new(|called: &Called| {
        if called.path.starts_with("/identity-service/api/v1/Login") {
            (500, r#"{"sessionId":"session-1","orgId":"org-1"}"#.to_string())
        } else if called.path.starts_with("/identity-service/api/v1/jwt/Token") {
            (200, r#"{"jwt_token":"test-jwt"}"#.to_string())
        } else {
            (404, String::new())
        }
    });
    let mut gate = Gate::new(config(), Some(login_500), cdgc_score_backend(95.0));
    let response = gate.request(mcp_request(21));
    assert_eq!(response.status, 200);
    assert_eq!(
        response.header("x-dq-gate-status"),
        Some("blocked"),
        "a login HTTP error must abort the refresh and (no cache) fail closed"
    );
    let body = response.json();
    assert_eq!(body["jsonrpc"], "2.0");
    assert_eq!(body["id"], 21);
    assert_eq!(body["error"]["code"], -32008);
    let msg = body["error"]["message"].as_str().unwrap();
    assert!(msg.contains("did not meet the required standard"), "got: {}", msg);
    let raw = String::from_utf8_lossy(&response.body).to_string();
    assert!(!raw.contains("session-1"), "must not leak login sessionId: {}", raw);
    assert!(!raw.contains("500"), "must not leak upstream status code: {}", raw);
    assert!(!response.reached_backend);
    assert!(matches!(gate.last_error, Some(RefreshError::Refused(Stage::Login, 500))));
}

#[test]
fn fetch_jwt_http_error_blocks_as_unknown_score() {
    let jwt_500: Service = Box::new(|called: &Called| {
        if called.path.starts_with("/identity-service/api/v1/Login") {
            (200, r#"{"sessionId":"session-1","orgId":"org-1"}"#.to_string())
        } else if called.path.starts_with("/identity-service/api/v1/jwt/Token") {
            (500, r#"{"jwt_token":"test-jwt"}"#.to_string())
        } else {
            (404, String::new())
        }
    });
    let mut gate = Gate::new(config(), Some(jwt_500), cdgc_score_backend(95.0));
    let response = gate.request(mcp_request(22));
    assert_eq!(response.status, 200);
    assert_eq!(
        response.header("x-dq-gate-status"),
        Some("blocked"),
        "a JWT HTTP error must abort the refresh and (no cache) fail closed"
    );
    let body = response.json();
    assert_eq!(body["id"], 22);
    assert_eq!(body["error"]["code"], -32008);
    let raw = String::from_utf8_lossy(&response.body).to_string();
    assert!(!raw.contains("test-jwt"), "must not leak JWT token: {}", raw);
    assert!(!raw.contains("session-1"), "must not leak sessionId: {}", raw);
    assert!(!raw.contains("500"), "must not leak upstream status code: {}", raw);
    assert!(!response.reached_backend);
    assert!(matches!(gate.last_error, Some(RefreshError::Refused(Stage::Jwt, 500))));
}

#[test]
fn fetch_detail_http_error_blocks_as_unknown_score() {
    let login_calls = counter();
    let detail_500: Service = Box::new(|_called: &Called| {
        (500, r#"{"dataQuality":[{"core.score":95.0}]}"#.to_string())
    });
    let login = cdgc_login_backend(Rc::clone(&login_calls));
    let mut gate = Gate::new(config(), login, Some(detail_500));
    let response = gate.request(mcp_request(23));
    assert_eq!(response.status, 200);
    assert_eq!(
        response.header("x-dq-gate-status"),
        Some("blocked"),
        "a Detail HTTP error must abort the refresh and (no cache) fail closed"
    );
    let body = response.json();
    assert_eq!(body["id"], 23);
    assert_eq!(body["error"]["code"], -32008);
    let raw = String::from_utf8_lossy(&response.body).to_string();
    assert!(!raw.contains("95"), "the discarded detail score must not leak: {}", raw);
    assert_eq!(*login_calls.borrow(), 1);
    assert!(!response.reached_backend);
    assert!(matches!(gate.last_error, Some(RefreshError::Refused(Stage::Detail, 500))));
}

#[test]
fn distributed_true_uses_remote_backend_and_still_gates() {
    let login_calls = counter();
    let config = Config { distributed: Some(true), ..config() };
    match storage_plan(&config) {
        StoragePlan::Remote { score_namespace, score_ttl_ms, lock_namespace, lock_ttl_ms } => {
            assert_eq!(score_namespace, "dq-gate-score");
            assert_eq!(score_ttl_ms, 2_592_000_000);
            assert_eq!(lock_namespace, "dq-gate-refresh-lock");
            assert_eq!(lock_ttl_ms, 30_000);
        }
        StoragePlan::Local { .. } => panic!("distributed=true selects the remote backend"),
    }
    let login = cdgc_login_backend(Rc::clone(&login_calls));
    let mut gate = Gate::new(config, login, cdgc_score_backend(95.0));
    let response = gate.request(mcp_request(1));
    assert_eq!(response.status, 200);
    assert_eq!(response.header("x-dq-gate-status"), Some("ok"));
    assert!(response.reached_backend, "distributed-mode traffic must still reach the backend");
    assert_eq!(*login_calls.borrow(), 1, "the remote-backed path must still resolve the score");
}

#[test]
fn distributed_defaults_to_the_local_backend() {
    for distributed in [None, Some(false)] {
        let config = Config { distributed, ..config() };
        assert!(matches!(
            storage_plan(&config),
            StoragePlan::Local {
                score_namespace: "dq-gate-score",
                lock_namespace: "dq-gate-refresh-lock"
            }
        ));
    }
}

#[test]
fn empty_body_post_passes_through_ungated() {
    let login_calls = counter();
    let mut gate = recognition_gate(&login_calls);
    let response = gate.request(post("/mcp", "application/json", ""));
    assert_eq!(response.status, 200);
    assert_eq!(response.header("x-dq-gate-status"), Some("skipped"));
    assert!(response.body.is_empty(), "a bodyless POST must not receive an error body");
    assert!(response.reached_backend);
    assert_eq!(*login_calls.borrow(), 0, "no score is looked for on an empty-body request");
}

#[test]
fn soft_launch_bypass_warns_once_then_suppresses_on_repeat() {
    let config = Config { block_on_unknown_score: Some(false), ..config() };
    let mut gate = Gate::new(config, cdgc_login_backend(counter()), None);

    let first = gate.request(mcp_request(1));
    assert_eq!(first.status, 200);
    assert_eq!(first.header("x-dq-gate-status"), Some("unknown"));
    assert!(first.reached_backend, "first soft-launch request must reach the backend");
    assert!(first.bypass_warning);

    let second = gate.request(mcp_request(2));
    assert_eq!(second.status, 200);
    assert_eq!(second.header("x-dq-gate-status"), Some("unknown"));
    assert!(second.body.is_empty(), "a soft-launch pass-through must not carry an error body");
    assert!(second.reached_backend, "second soft-launch request must also reach the backend");
    assert!(!second.violation, "an ungated pass-through must not emit a violation");
    assert!(!second.bypass_warning);
}

#[test]
fn a_score_is_fetched_again_once_the_interval_is_over() {
    let login_calls = counter();
    let login = cdgc_login_backend(Rc::clone(&login_calls));
    let mut gate = Gate::new(config(), login, cdgc_score_backend(95.0));
    gate.request(mcp_request(1));
    gate.sleep(86_400);
    gate.request(mcp_request(2));
    assert_eq!(*login_calls.borrow(), 1, "a score as old as the interval is still fresh");
    gate.sleep(1);
    gate.request(mcp_request(3));
    assert_eq!(*login_calls.borrow(), 2);
}

#[test]
fn a_negative_interval_counts_as_zero() {
    let login_calls = counter();
    let config = Config { refresh_interval_seconds: Some(-5), ..config() };
    let login = cdgc_login_backend(Rc::clone(&login_calls));
    let mut gate = Gate::new(config, login, cdgc_score_backend(95.0));
    gate.request(mcp_request(1));
    gate.request(mcp_request(2));
    assert_eq!(*login_calls.borrow(), 1);
}

#[test]
fn the_calls_of_a_refresh_have_their_shapes() {
    let config = Config {
        cdgc_asset_id: "a/b?c".to_string(),
        timeout: Some(700),
        ..config()
    };
    let at = |millis: u32| ClockReading {
        before_epoch: false,
        seconds: 1_000,
        nanos: millis * 1_000_000,
    };
    let login = match fetch_start(&config, at(0), at(10)) {
        FetchStep::Login(call) => call,
        _ => unreachable!(),
    };
    assert_eq!(login.service, CdgcService::Login);
    assert_eq!(login.verb, Verb::Post);
    assert_eq!(login.path, "/identity-service/api/v1/Login");
    assert_eq!(
        login.headers,
        vec![("Content-Type".to_string(), "application/json".to_string())]
    );
    assert_eq!(login.timeout_ms, 700);
    let credentials: Value = serde_json::from_slice(&login.body.unwrap()).unwrap();
    assert_eq!(credentials["username"], "test-user");
    assert_eq!(credentials["password"], "test-pass");
    assert_eq!(credentials.as_object().unwrap().len(), 2);

    let reply = Reply::Answered {
        status: 299,
        payload: Ok(CdgcLoginResponse {
            session_id: "s".to_string(),
            org_id: "o".to_string(),
        }),
    };
    let (jwt, org_id) = match fetch_after_login(&config, at(0), reply, at(1), at(20)) {
        FetchStep::Jwt { call, org_id } => (call, org_id),
        _ => unreachable!(),
    };
    assert_eq!(org_id, "o");
    assert_eq!(jwt.service, CdgcService::Login);
    assert_eq!(jwt.verb, Verb::Get);
    assert!(jwt.body.is_none());
    assert_eq!(
        jwt.path,
        "/identity-service/api/v1/jwt/Token?client_id=idmc_api&nonce=1000001000000"
    );

    let reply = Reply::Answered {
        status: 200,
        payload: Ok(CdgcJwtResponse { jwt_token: "t".to_string() }),
    };
    let detail = match fetch_after_jwt(&config, at(0), org_id, reply, at(30)) {
        FetchStep::Detail(call) => call,
        _ => unreachable!(),
    };
    assert_eq!(detail.service, CdgcService::Api);
    assert_eq!(detail.verb, Verb::Get);
    assert!(detail.body.is_none());
    assert_eq!(
        detail.path,
        "/data360/search/v1/assets/a%2Fb%3Fc?scheme=internal&segments=dataQuality"
    );
    assert_eq!(
        detail.headers,
        vec![
            ("Authorization".to_string(), "Bearer t".to_string()),
            ("X-INFA-ORG-ID".to_string(), "o".to_string()),
            ("Content-Type".to_string(), "application/json".to_string()),
        ]
    );
}

#[test]
fn the_calls_of_a_refresh_fit_the_budget() {
    let config = config();
    let at = |millis: u64| ClockReading {
        before_epoch: false,
        seconds: millis / 1000,
        nanos: (millis % 1000) as u32 * 1_000_000,
    };
    let login = match fetch_start(&config, at(0), at(0)) {
        FetchStep::Login(call) => call.timeout_ms,
        _ => unreachable!(),
    };
    assert_eq!(login, 5_000);
    let reply = Reply::Answered {
        status: 200,
        payload: Ok(CdgcLoginResponse { session_id: "s".to_string(), org_id: "o".to_string() }),
    };
    let jwt = match fetch_after_login(&config, at(0), reply, at(login), at(login)) {
        FetchStep::Jwt { call, .. } => call.timeout_ms,
        _ => unreachable!(),
    };
    assert_eq!(jwt, 5_000);
    let reply = || Reply::Answered {
        status: 200,
        payload: Ok(CdgcJwtResponse { jwt_token: "t".to_string() }),
    };
    let late = at(login + jwt - 1);
    let detail = match fetch_after_jwt(&config, at(0), "o".to_string(), reply(), late) {
        FetchStep::Detail(call) => call.timeout_ms,
        _ => unreachable!(),
    };
    assert_eq!(detail, 1);
    let over = at(login + jwt);
    assert!(matches!(
        fetch_after_jwt(&config, at(0), "o".to_string(), reply(), over),
        FetchStep::Done(Err(RefreshError::BudgetExhausted(Stage::Detail)))
    ));
}

fn failed(step: FetchStep) -> String {
    match step {
        FetchStep::Done(Err(error)) => error.message(),
        _ => unreachable!(),
    }
}

#[test]
fn every_refresh_error_has_its_words() {
    let at = |seconds: u64| ClockReading { before_epoch: false, seconds, nanos: 0 };
    let config = config();
    let login = || CdgcLoginResponse { session_id: "s".to_string(), org_id: "o".to_string() };
    let jwt = || CdgcJwtResponse { jwt_token: "t".to_string() };

    assert_eq!(
        failed(fetch_start(&config, at(0), at(10))),
        "CDGC refresh exceeded 10000ms latency budget before Login"
    );
    let answered = Reply::Answered { status: 200, payload: Ok(login()) };
    assert_eq!(
        failed(fetch_after_login(&config, at(0), answered, at(0), at(10))),
        "CDGC refresh exceeded 10000ms latency budget before JWT fetch"
    );
    let answered = Reply::Answered { status: 200, payload: Ok(jwt()) };
    assert_eq!(
        failed(fetch_after_jwt(&config, at(0), "o".to_string(), answered, at(10))),
        "CDGC refresh exceeded 10000ms latency budget before Detail fetch"
    );

    let unanswered = Reply::Failed("down".to_string());
    assert_eq!(
        failed(fetch_after_login(&config, at(0), unanswered, at(0), at(0))),
        "CDGC login failed: down"
    );
    let unanswered = Reply::Failed("down".to_string());
    assert_eq!(
        failed(fetch_after_jwt(&config, at(0), "o".to_string(), unanswered, at(0))),
        "CDGC JWT fetch failed: down"
    );
    let unanswered = Reply::Failed("down".to_string());
    assert_eq!(
        fetch_after_detail(&config, unanswered).unwrap_err().message(),
        "CDGC DQ score fetch failed: down"
    );

    let refused = Reply::Answered { status: 300, payload: Ok(login()) };
    assert_eq!(
        failed(fetch_after_login(&config, at(0), refused, at(0), at(0))),
        "CDGC login returned status 300"
    );
    let refused = Reply::Answered { status: 429, payload: Ok(jwt()) };
    assert_eq!(
        failed(fetch_after_jwt(&config, at(0), "o".to_string(), refused, at(0))),
        "CDGC JWT fetch returned status 429"
    );
    let refused = Reply::Answered { status: 500, payload: Err("no body".to_string()) };
    assert_eq!(
        fetch_after_detail(&config, refused).unwrap_err().message(),
        "CDGC DQ score fetch returned status 500"
    );

    let garbled = Reply::Answered { status: 200, payload: Err("expected value".to_string()) };
    assert_eq!(
        failed(fetch_after_login(&config, at(0), garbled, at(0), at(0))),
        "Failed to parse CDGC login response: expected value"
    );
    let garbled = Reply::Answered { status: 200, payload: Err("expected value".to_string()) };
    assert_eq!(
        failed(fetch_after_jwt(&config, at(0), "o".to_string(), garbled, at(0))),
        "Failed to parse CDGC JWT response: expected value"
    );
    let garbled = Reply::Answered { status: 200, payload: Err("expected value".to_string()) };
    assert_eq!(
        fetch_after_detail(&config, garbled).unwrap_err().message(),
        "Failed to parse CDGC asset detail response: expected value"
    );

    let empty = Reply::Answered {
        status: 200,
        payload: Ok(AssetDetailResponse { data_quality: Vec::new(), average: score(f64::NAN) }),
    };
    assert_eq!(
        fetch_after_detail(&config, empty).unwrap_err().message(),
        "CDGC returned no dataQuality dimensions for asset 'asset-1'"
    );
}

#[test]
fn the_aggregation_of_the_configuration_is_used() {
    let detail = || Reply::Answered {
        status: 200,
        payload: parse_detail(
            r#"{"dataQuality":[{"core.score":90.0},{"core.score":60.0},{"core.score":75.0}]}"#,
        ),
    };
    let average = Config { score_aggregation: Some("average".to_string()), ..config() };
    assert_eq!(fetch_after_detail(&average, detail()).unwrap().text, "75.00");
    let min = Config { score_aggregation: Some("min".to_string()), ..config() };
    assert_eq!(fetch_after_detail(&min, detail()).unwrap().text, "60.00");
    assert_eq!(fetch_after_detail(&config(), detail()).unwrap().text, "60.00");
}

#[test]
fn a_failing_lock_store_does_not_stop_a_refresh() {
    let broken: Result<bool, StorageError> = Err(StorageError::Unexpected("down".to_string()));
    assert!(matches!(
        resolve_after_lock(broken, None, 5),
        ResolveStep::Fetch { cached: None, now: 5 }
    ));
    assert!(matches!(resolve_after_lock(Ok(true), None, 5), ResolveStep::Fetch { .. }));
    assert!(matches!(resolve_after_lock(Ok(false), None, 5), ResolveStep::Done(None)));
}

#[test]
fn a_live_score_is_used_whatever_becomes_of_its_writing() {
    for outcome in [WriteOutcome::Stored, WriteOutcome::Exhausted] {
        match resolve_after_store(score(70.0), &outcome) {
            ResolveStep::Done(Some(live)) => assert_eq!(live.text, "70.00"),
            _ => unreachable!(),
        }
    }
}

#[test]
fn a_fetched_score_is_stored_under_the_time_it_was_missed_at() {
    match resolve_after_fetch(&config(), Ok(score(70.0)), None, 1234) {
        ResolveStep::Store { key, entry, score } => {
            assert_eq!(key, "dq-score-asset-1");
            assert_eq!(entry.timestamp, 1234);
            assert_eq!(entry.score.text, "70.00");
            assert_eq!(score.text, "70.00");
        }
        _ => unreachable!(),
    }
}
