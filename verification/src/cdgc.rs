//! The calls that fetch a live score: login, token, asset detail.
//!
//! The calls are made from outside this library. Each function below takes what a call was
//! answered with and says which call comes next, or how the refresh ended.

use crate::block;
use crate::clock;
use crate::clock::{ClockReading, CDGC_REFRESH_BUDGET_MS, DEFAULT_TIMEOUT_MS};
use crate::config;
use crate::config::Config;
use crate::json;
use crate::json::Json;
use crate::percent;
use crate::score;
use crate::score::{DqDimensionResult, Score};
use crate::text;
use vstd::prelude::*;
use vstd::string::*;
use vstd::utf8::*;

verus! {

/// The status from which on an answer is a refusal.
pub const FIRST_REFUSAL_STATUS: u32 = 300;

/// Where a call goes.
#[derive(Clone, Copy, PartialEq, Eq, Debug, Structural)]
pub enum CdgcService {
    /// The identity service.
    Login,
    /// The catalog service.
    Api,
}

#[derive(Clone, Copy, PartialEq, Eq, Debug, Structural)]
pub enum Verb {
    Get,
    Post,
}

/// The calls of a refresh, in their order.
#[derive(Clone, Copy, PartialEq, Eq, Debug, Structural)]
pub enum Stage {
    Login,
    Jwt,
    Detail,
}

/// A call to make.
pub struct HttpCall {
    pub service: CdgcService,
    pub verb: Verb,
    pub path: String,
    pub headers: Vec<(String, String)>,
    pub body: Option<Vec<u8>>,
    pub timeout_ms: u64,
}

/// What a call holds.
pub struct CallText {
    pub service: CdgcService,
    pub verb: Verb,
    pub path: Seq<char>,
    pub headers: Seq<(Seq<char>, Seq<char>)>,
    pub body: Option<Seq<u8>>,
    pub timeout_ms: u64,
}

/// What a call came to. The payload of an answer is what its body was parsed as, or why it was
/// not.
pub enum Reply<T> {
    /// There was no answer.
    Failed(String),
    Answered { status: u32, payload: Result<T, String> },
}

pub struct CdgcLoginResponse {
    pub session_id: String,
    pub org_id: String,
}

pub struct CdgcJwtResponse {
    pub jwt_token: String,
}

/// The dimensions of an asset's data quality.
pub struct AssetDetailResponse {
    pub data_quality: Vec<DqDimensionResult>,
    /// The mean of the dimensions; anything at all where there are none.
    pub average: Score,
}

/// Why a refresh gave no score.
#[derive(Debug)]
pub enum RefreshError {
    /// The budget was used up before the call.
    BudgetExhausted(Stage),
    /// The call was not answered.
    Unanswered(Stage, String),
    /// The call was refused. The status is all that is kept of the answer: the body can hold
    /// session and token material, and errors are logged.
    Refused(Stage, u32),
    /// The answer was not understood.
    Unparsable(Stage, String),
    /// The asset with this id has no dimensions.
    NoDimensions(String),
}

/// What to do next in a refresh.
pub enum FetchStep {
    Login(HttpCall),
    /// The organisation is needed for the call after this one.
    Jwt { call: HttpCall, org_id: String },
    Detail(HttpCall),
    Done(Result<Score, RefreshError>),
}

impl HttpCall {
    pub open spec fn view(self) -> CallText {
        CallText {
            service: self.service,
            verb: self.verb,
            path: self.path@,
            headers: block::header_texts(self.headers@),
            body: match self.body {
                Some(body) => Some(body@),
                None => None,
            },
            timeout_ms: self.timeout_ms,
        }
    }
}

/// A step of a refresh, by what it holds.
pub enum FetchText {
    Login(CallText),
    Jwt { call: CallText, org_id: Seq<char> },
    Detail(CallText),
    Done(Result<Score, RefreshError>),
}

impl FetchStep {
    pub open spec fn view(self) -> FetchText {
        match self {
            FetchStep::Login(call) => FetchText::Login(call@),
            FetchStep::Jwt { call, org_id } => FetchText::Jwt { call: call@, org_id: org_id@ },
            FetchStep::Detail(call) => FetchText::Detail(call@),
            FetchStep::Done(result) => FetchText::Done(result),
        }
    }
}

/// What one call may take, in milliseconds.
pub open spec fn per_call_ms(config: Config) -> int {
    config::or_default(config.timeout, DEFAULT_TIMEOUT_MS) as int
}

/// The timeout of the call at a stage, or that there is none because the budget is used up.
pub open spec fn granted(
    stage: Stage,
    config: Config,
    start: ClockReading,
    now: ClockReading,
) -> Result<u64, RefreshError> {
    match clock::call_timeout(
        per_call_ms(config),
        (clock::millis_between(start, now) as i64) as int,
    ) {
        Some(timeout) => Ok(timeout as u64),
        None => Err(RefreshError::BudgetExhausted(stage)),
    }
}

/// What an answer brings, or how the call failed. A refusal counts before a payload does.
pub open spec fn accepted<T>(stage: Stage, reply: Reply<T>) -> Result<T, RefreshError> {
    match reply {
        Reply::Failed(reason) => Err(RefreshError::Unanswered(stage, reason)),
        Reply::Answered { status, payload } => if status >= FIRST_REFUSAL_STATUS {
            Err(RefreshError::Refused(stage, status))
        } else {
            match payload {
                Ok(value) => Ok(value),
                Err(reason) => Err(RefreshError::Unparsable(stage, reason)),
            }
        },
    }
}

/// The credentials as a document.
pub open spec fn credentials(config: Config) -> Json {
    Json::Object(
        json::empty_object().insert("username"@, Json::Text(config.cdgc_org_username@)).insert(
            "password"@,
            Json::Text(config.cdgc_org_password@),
        ),
    )
}

/// The call that logs in.
pub open spec fn login_call(config: Config, timeout_ms: u64) -> CallText {
    CallText {
        service: CdgcService::Login,
        verb: Verb::Post,
        path: "/identity-service/api/v1/Login"@,
        headers: seq![("Content-Type"@, "application/json"@)],
        body: Some(json::json_written(credentials(config))),
        timeout_ms,
    }
}

/// The path of the token request with a nonce.
pub open spec fn jwt_path(nonce: Seq<char>) -> Seq<char> {
    "/identity-service/api/v1/jwt/Token?client_id=idmc_api&nonce="@ + percent::percent_encoded(
        encode_utf8(nonce),
    )
}

/// The call that gets a token for a session.
pub open spec fn jwt_call(
    session: Seq<char>,
    nonce_time: ClockReading,
    timeout_ms: u64,
) -> CallText {
    CallText {
        service: CdgcService::Login,
        verb: Verb::Get,
        path: jwt_path(clock::nonce(nonce_time)),
        headers: seq![("cookie"@, "USER_SESSION="@ + session), ("IDS-SESSION-ID"@, session)],
        body: None,
        timeout_ms,
    }
}

/// The path of the detail request for an asset.
pub open spec fn detail_path(asset: Seq<char>) -> Seq<char> {
    "/data360/search/v1/assets/"@ + percent::percent_encoded(encode_utf8(asset))
        + "?scheme=internal&segments=dataQuality"@
}

/// The call that gets the dimensions of an asset.
pub open spec fn detail_call(
    config: Config,
    token: Seq<char>,
    org_id: Seq<char>,
    timeout_ms: u64,
) -> CallText {
    CallText {
        service: CdgcService::Api,
        verb: Verb::Get,
        path: detail_path(config.cdgc_asset_id@),
        headers: seq![
            ("Authorization"@, "Bearer "@ + token),
            ("X-INFA-ORG-ID"@, org_id),
            ("Content-Type"@, "application/json"@),
        ],
        body: None,
        timeout_ms,
    }
}

/// How dimensions are combined.
pub open spec fn aggregation_mode(config: Config) -> Seq<char> {
    match config.score_aggregation {
        Some(mode) => mode@,
        None => "min"@,
    }
}

/// The score of an asset, or that it has no dimensions.
pub open spec fn combined(config: Config, detail: AssetDetailResponse) -> Result<
    Score,
    RefreshError,
> {
    match score::aggregated(detail.data_quality@, detail.average, aggregation_mode(config)) {
        Some(score) => Ok(score),
        None => Err(RefreshError::NoDimensions(config.cdgc_asset_id)),
    }
}

/// The first step of a refresh.
pub open spec fn at_start(config: Config, start: ClockReading, now: ClockReading) -> FetchText {
    match granted(Stage::Login, config, start, now) {
        Ok(timeout) => FetchText::Login(login_call(config, timeout)),
        Err(error) => FetchText::Done(Err(error)),
    }
}

/// The step that follows the login.
pub open spec fn after_login(
    config: Config,
    start: ClockReading,
    reply: Reply<CdgcLoginResponse>,
    nonce_time: ClockReading,
    now: ClockReading,
) -> FetchText {
    match accepted(Stage::Login, reply) {
        Ok(login) => match granted(Stage::Jwt, config, start, now) {
            Ok(timeout) => FetchText::Jwt {
                call: jwt_call(login.session_id@, nonce_time, timeout),
                org_id: login.org_id@,
            },
            Err(error) => FetchText::Done(Err(error)),
        },
        Err(error) => FetchText::Done(Err(error)),
    }
}

/// The step that follows the token.
pub open spec fn after_jwt(
    config: Config,
    start: ClockReading,
    org_id: Seq<char>,
    reply: Reply<CdgcJwtResponse>,
    now: ClockReading,
) -> FetchText {
    match accepted(Stage::Jwt, reply) {
        Ok(jwt) => match granted(Stage::Detail, config, start, now) {
            Ok(timeout) => FetchText::Detail(detail_call(config, jwt.jwt_token@, org_id, timeout)),
            Err(error) => FetchText::Done(Err(error)),
        },
        Err(error) => FetchText::Done(Err(error)),
    }
}

/// How a refresh ends after the detail.
pub open spec fn after_detail(config: Config, reply: Reply<AssetDetailResponse>) -> Result<
    Score,
    RefreshError,
> {
    match accepted(Stage::Detail, reply) {
        Ok(detail) => combined(config, detail),
        Err(error) => Err(error),
    }
}

fn timeout_for(stage: Stage, config: &Config, start: ClockReading, now: ClockReading) -> (r: Result<
    u64,
    RefreshError,
>)
    requires
        clock::countable(start, now),
    ensures
        r == granted(stage, *config, start, now),
{
    let per_call: i64 = match config.timeout {
        Some(timeout) => timeout,
        None => DEFAULT_TIMEOUT_MS,
    };
    match clock::next_call_timeout(per_call, clock::elapsed_ms(start, now)) {
        Some(timeout) => Ok(timeout),
        None => Err(RefreshError::BudgetExhausted(stage)),
    }
}

fn accept<T>(stage: Stage, reply: Reply<T>) -> (r: Result<T, RefreshError>)
    ensures
        r == accepted(stage, reply),
{
    match reply {
        Reply::Failed(reason) => Err(RefreshError::Unanswered(stage, reason)),
        Reply::Answered { status, payload } => {
            if status >= FIRST_REFUSAL_STATUS {
                return Err(RefreshError::Refused(stage, status));
            }
            match payload {
                Ok(value) => Ok(value),
                Err(reason) => Err(RefreshError::Unparsable(stage, reason)),
            }
        },
    }
}

/// The name of a stage where the budget ran out before it.
pub open spec fn stage_ahead(stage: Stage) -> Seq<char> {
    match stage {
        Stage::Login => "Login"@,
        Stage::Jwt => "JWT fetch"@,
        Stage::Detail => "Detail fetch"@,
    }
}

/// The name of the call of a stage.
pub open spec fn stage_call(stage: Stage) -> Seq<char> {
    match stage {
        Stage::Login => "CDGC login"@,
        Stage::Jwt => "CDGC JWT fetch"@,
        Stage::Detail => "CDGC DQ score fetch"@,
    }
}

/// The name of the answer at a stage.
pub open spec fn stage_answer(stage: Stage) -> Seq<char> {
    match stage {
        Stage::Login => "CDGC login response"@,
        Stage::Jwt => "CDGC JWT response"@,
        Stage::Detail => "CDGC asset detail response"@,
    }
}

impl RefreshError {
    /// The error in words.
    pub open spec fn words(self) -> Seq<char> {
        match self {
            RefreshError::BudgetExhausted(stage) => "CDGC refresh exceeded "@ + text::decimal(
                CDGC_REFRESH_BUDGET_MS as nat,
            ) + "ms latency budget before "@ + stage_ahead(stage),
            RefreshError::Unanswered(stage, reason) => stage_call(stage) + " failed: "@ + reason@,
            RefreshError::Refused(stage, status) => stage_call(stage) + " returned status "@
                + text::decimal(status as nat),
            RefreshError::Unparsable(stage, reason) => "Failed to parse "@ + stage_answer(stage)
                + ": "@ + reason@,
            RefreshError::NoDimensions(asset) =>
            "CDGC returned no dataQuality dimensions for asset '"@ + asset@ + "'"@,
        }
    }

    /// The error in words, for the log.
    pub fn message(&self) -> (r: String)
        ensures
            r@ == self.words(),
    {
        match self {
            RefreshError::BudgetExhausted(stage) => {
                let ahead = match stage {
                    Stage::Login => "Login",
                    Stage::Jwt => "JWT fetch",
                    Stage::Detail => "Detail fetch",
                };
                "CDGC refresh exceeded ".to_string().concat(
                    text::decimal_text(CDGC_REFRESH_BUDGET_MS as u128).as_str(),
                ).concat("ms latency budget before ").concat(ahead)
            },
            RefreshError::Unanswered(stage, reason) => call_name(*stage).to_string().concat(
                " failed: ",
            ).concat(reason.as_str()),
            RefreshError::Refused(stage, status) => call_name(*stage).to_string().concat(
                " returned status ",
            ).concat(text::decimal_text(*status as u128).as_str()),
            RefreshError::Unparsable(stage, reason) => {
                let answer = match stage {
                    Stage::Login => "CDGC login response",
                    Stage::Jwt => "CDGC JWT response",
                    Stage::Detail => "CDGC asset detail response",
                };
                "Failed to parse ".to_string().concat(answer).concat(": ").concat(reason.as_str())
            },
            RefreshError::NoDimensions(asset) =>
            "CDGC returned no dataQuality dimensions for asset '".to_string().concat(
                asset.as_str(),
            ).concat("'"),
        }
    }
}

fn call_name(stage: Stage) -> (r: &'static str)
    ensures
        r@ == stage_call(stage),
{
    match stage {
        Stage::Login => "CDGC login",
        Stage::Jwt => "CDGC JWT fetch",
        Stage::Detail => "CDGC DQ score fetch",
    }
}

/// The first step of a refresh that began at `start`: the login with the service account.
pub fn fetch_start(config: &Config, start: ClockReading, now: ClockReading) -> (r: FetchStep)
    requires
        clock::countable(start, now),
    ensures
        match granted(Stage::Login, *config, start, now) {
            Ok(timeout) => r matches FetchStep::Login(call) && call@ == login_call(
                *config,
                timeout,
            ) && json::json_read(call@.body->0) == Some(credentials(*config)),
            Err(error) => r == FetchStep::Done(Err(error)),
        },
        r@ == at_start(*config, start, now),
        r matches FetchStep::Login(call) ==> {
            &&& call.body is Some
            &&& json::json_read(call.body->0@) matches Some(Json::Object(members))
            &&& members.dom() == set!["username"@, "password"@]
            &&& members["username"@] == Json::Text(config.cdgc_org_username@)
            &&& members["password"@] == Json::Text(config.cdgc_org_password@)
        },
{
    proof {
        law_credentials_are_sent_as_they_are(*config);
    }
    let mut members = json::no_members();
    json::put_member(
        &mut members,
        "username".to_string(),
        json::string_value(config.cdgc_org_username.clone()),
    );
    json::put_member(
        &mut members,
        "password".to_string(),
        json::string_value(config.cdgc_org_password.clone()),
    );
    assert(json::reads_back(credentials(*config), json::MAX_DEPTH as nat)) by {
        reveal_with_fuel(json::reads_back, 2);
    }
    let body = json::written(&json::object_value(members));
    let timeout_ms: u64 = match timeout_for(Stage::Login, config, start, now) {
        Ok(timeout) => timeout,
        Err(error) => {
            return FetchStep::Done(Err(error));
        },
    };
    let mut headers: Vec<(String, String)> = Vec::new();
    headers.push(("Content-Type".to_string(), "application/json".to_string()));
    let call = HttpCall {
        service: CdgcService::Login,
        verb: Verb::Post,
        path: "/identity-service/api/v1/Login".to_string(),
        headers,
        body: Some(body),
        timeout_ms,
    };
    assert(call@.headers =~= login_call(*config, timeout_ms).headers);
    FetchStep::Login(call)
}

/// After the login: the request for a token of the session, with a nonce made of the reading
/// `nonce_time`.
pub fn fetch_after_login(
    config: &Config,
    start: ClockReading,
    reply: Reply<CdgcLoginResponse>,
    nonce_time: ClockReading,
    now: ClockReading,
) -> (r: FetchStep)
    requires
        clock::countable(start, now),
    ensures
        match accepted(Stage::Login, reply) {
            Ok(login) => match granted(Stage::Jwt, *config, start, now) {
                Ok(timeout) => r matches FetchStep::Jwt { call, org_id } && call@ == jwt_call(
                    login.session_id@,
                    nonce_time,
                    timeout,
                ) && org_id == login.org_id,
                Err(error) => r == FetchStep::Done(Err(error)),
            },
            Err(error) => r == FetchStep::Done(Err(error)),
        },
        r@ == after_login(*config, start, reply, nonce_time, now),
{
    let login = match accept(Stage::Login, reply) {
        Ok(login) => login,
        Err(error) => {
            return FetchStep::Done(Err(error));
        },
    };
    let nonce = clock::nonce_from_time(nonce_time);
    let path =
        "/identity-service/api/v1/jwt/Token?client_id=idmc_api&nonce=".to_string().concat(
        percent::percent_encode(nonce.as_str()).as_str(),
    );
    let cookie = "USER_SESSION=".to_string().concat(login.session_id.as_str());
    let timeout_ms: u64 = match timeout_for(Stage::Jwt, config, start, now) {
        Ok(timeout) => timeout,
        Err(error) => {
            return FetchStep::Done(Err(error));
        },
    };
    let ghost session = login.session_id@;
    let mut headers: Vec<(String, String)> = Vec::new();
    headers.push(("cookie".to_string(), cookie));
    headers.push(("IDS-SESSION-ID".to_string(), login.session_id));
    let call = HttpCall {
        service: CdgcService::Login,
        verb: Verb::Get,
        path,
        headers,
        body: None,
        timeout_ms,
    };
    assert(call@.headers =~= jwt_call(session, nonce_time, timeout_ms).headers);
    FetchStep::Jwt { call, org_id: login.org_id }
}

/// After the token: the request for the asset's data quality.
pub fn fetch_after_jwt(
    config: &Config,
    start: ClockReading,
    org_id: String,
    reply: Reply<CdgcJwtResponse>,
    now: ClockReading,
) -> (r: FetchStep)
    requires
        clock::countable(start, now),
    ensures
        match accepted(Stage::Jwt, reply) {
            Ok(jwt) => match granted(Stage::Detail, *config, start, now) {
                Ok(timeout) => r matches FetchStep::Detail(call) && call@ == detail_call(
                    *config,
                    jwt.jwt_token@,
                    org_id@,
                    timeout,
                ),
                Err(error) => r == FetchStep::Done(Err(error)),
            },
            Err(error) => r == FetchStep::Done(Err(error)),
        },
        r@ == after_jwt(*config, start, org_id@, reply, now),
{
    let jwt = match accept(Stage::Jwt, reply) {
        Ok(jwt) => jwt,
        Err(error) => {
            return FetchStep::Done(Err(error));
        },
    };
    let path = "/data360/search/v1/assets/".to_string().concat(
        percent::percent_encode(config.cdgc_asset_id.as_str()).as_str(),
    ).concat("?scheme=internal&segments=dataQuality");
    let authorization = "Bearer ".to_string().concat(jwt.jwt_token.as_str());
    let timeout_ms: u64 = match timeout_for(Stage::Detail, config, start, now) {
        Ok(timeout) => timeout,
        Err(error) => {
            return FetchStep::Done(Err(error));
        },
    };
    let ghost org = org_id@;
    let mut headers: Vec<(String, String)> = Vec::new();
    headers.push(("Authorization".to_string(), authorization));
    headers.push(("X-INFA-ORG-ID".to_string(), org_id));
    headers.push(("Content-Type".to_string(), "application/json".to_string()));
    let call = HttpCall {
        service: CdgcService::Api,
        verb: Verb::Get,
        path,
        headers,
        body: None,
        timeout_ms,
    };
    assert(call@.headers =~= detail_call(*config, jwt.jwt_token@, org, timeout_ms).headers);
    FetchStep::Detail(call)
}

/// After the detail: the score that the dimensions combine into.
pub fn fetch_after_detail(config: &Config, reply: Reply<AssetDetailResponse>) -> (r: Result<
    Score,
    RefreshError,
>)
    ensures
        match accepted(Stage::Detail, reply) {
            Ok(detail) => r == combined(*config, detail),
            Err(error) => r == Err::<Score, RefreshError>(error),
        },
        r == after_detail(*config, reply),
{
    let detail = match accept(Stage::Detail, reply) {
        Ok(detail) => detail,
        Err(error) => {
            return Err(error);
        },
    };
    let mode = match &config.score_aggregation {
        Some(mode) => mode.as_str(),
        None => "min",
    };
    match score::aggregate_score(&detail.data_quality, detail.average, mode) {
        Some(score) => Ok(score),
        None => Err(RefreshError::NoDimensions(config.cdgc_asset_id.clone())),
    }
}

/// What the readings of the clock were in one refresh.
pub struct FetchReadings {
    pub start: ClockReading,
    pub before_login: ClockReading,
    pub before_jwt: ClockReading,
    pub before_detail: ClockReading,
}

/// How a refresh ends that makes its calls in a row, given what each would be answered with.
pub open spec fn fetched(
    config: Config,
    readings: FetchReadings,
    login: Reply<CdgcLoginResponse>,
    jwt: Reply<CdgcJwtResponse>,
    detail: Reply<AssetDetailResponse>,
) -> Result<Score, RefreshError> {
    match granted(Stage::Login, config, readings.start, readings.before_login) {
        Err(error) => Err(error),
        Ok(_) => match accepted(Stage::Login, login) {
            Err(error) => Err(error),
            Ok(_) => match granted(Stage::Jwt, config, readings.start, readings.before_jwt) {
                Err(error) => Err(error),
                Ok(_) => match accepted(Stage::Jwt, jwt) {
                    Err(error) => Err(error),
                    Ok(_) => match granted(
                        Stage::Detail,
                        config,
                        readings.start,
                        readings.before_detail,
                    ) {
                        Err(error) => Err(error),
                        Ok(_) => match accepted(Stage::Detail, detail) {
                            Err(error) => Err(error),
                            Ok(found) => combined(config, found),
                        },
                    },
                },
            },
        },
    }
}

/// An answer that is no refusal and was understood.
pub open spec fn understood<T>(reply: Reply<T>) -> bool {
    reply matches Reply::Answered { status, payload } && status < FIRST_REFUSAL_STATUS
        && payload is Ok
}

/// A refresh gives a score exactly where the budget lasts up to the last call, every call is
/// answered, not refused and understood, and the asset has a dimension.
pub proof fn law_refresh_gives_a_score_iff(
    config: Config,
    readings: FetchReadings,
    login: Reply<CdgcLoginResponse>,
    jwt: Reply<CdgcJwtResponse>,
    detail: Reply<AssetDetailResponse>,
)
    requires
        clock::millis_between(readings.start, readings.before_login) <= i64::MAX,
        clock::millis_between(readings.start, readings.before_jwt) <= i64::MAX,
        clock::millis_between(readings.start, readings.before_detail) <= i64::MAX,
    ensures
        fetched(config, readings, login, jwt, detail) is Ok <==> {
            &&& clock::millis_between(readings.start, readings.before_login)
                < CDGC_REFRESH_BUDGET_MS
            &&& understood(login)
            &&& clock::millis_between(readings.start, readings.before_jwt) < CDGC_REFRESH_BUDGET_MS
            &&& understood(jwt)
            &&& clock::millis_between(readings.start, readings.before_detail)
                < CDGC_REFRESH_BUDGET_MS
            &&& understood(detail)
            &&& detail->Answered_payload->Ok_0.data_quality@.len() > 0
        },
{
}

/// A refresh blocks its request for no longer than the budget: this holds of any three calls that
/// are made one after the other, none of which takes longer than its timeout. Times are in
/// milliseconds since the start of the refresh.
pub proof fn law_refresh_blocks_within_the_budget(
    config: Config,
    readings: FetchReadings,
    timeouts: (u64, u64, u64),
    durations: (int, int, int),
)
    requires
        clock::millis_between(readings.start, readings.before_login) <= i64::MAX,
        clock::millis_between(readings.start, readings.before_jwt) <= i64::MAX,
        clock::millis_between(readings.start, readings.before_detail) <= i64::MAX,
        granted(Stage::Login, config, readings.start, readings.before_login) == Ok::<
            u64,
            RefreshError,
        >(timeouts.0),
        granted(Stage::Jwt, config, readings.start, readings.before_jwt) == Ok::<u64, RefreshError>(
            timeouts.1,
        ),
        granted(Stage::Detail, config, readings.start, readings.before_detail) == Ok::<
            u64,
            RefreshError,
        >(timeouts.2),
        0 <= durations.0 <= timeouts.0,
        0 <= durations.1 <= timeouts.1,
        0 <= durations.2 <= timeouts.2,
        clock::millis_between(readings.start, readings.before_login) + durations.0
            <= clock::millis_between(readings.start, readings.before_jwt),
        clock::millis_between(readings.start, readings.before_jwt) + durations.1
            <= clock::millis_between(readings.start, readings.before_detail),
    ensures
        durations.0 + durations.1 + durations.2 <= CDGC_REFRESH_BUDGET_MS,
        clock::millis_between(readings.start, readings.before_detail) + durations.2
            <= CDGC_REFRESH_BUDGET_MS,
{
}

/// Of a refused call nothing but the status is kept: whatever else the answer held, the refresh
/// ends in the same error.
pub proof fn law_refusal_tells_status_only<T>(
    stage: Stage,
    status: u32,
    payload1: Result<T, String>,
    payload2: Result<T, String>,
)
    requires
        status >= FIRST_REFUSAL_STATUS,
    ensures
        accepted(stage, Reply::Answered { status, payload: payload1 }) == Err::<T, RefreshError>(
            RefreshError::Refused(stage, status),
        ),
        accepted(stage, Reply::Answered { status, payload: payload1 }) == accepted(
            stage,
            Reply::Answered { status, payload: payload2 },
        ),
{
}

/// Whatever the asset's id holds, it stays one segment of the detail path: it ends neither the
/// segment nor the path, and it can be read back from it.
pub proof fn law_asset_id_stays_in_its_segment(asset: Seq<char>)
    ensures
        text::before_first(detail_path(asset), '?') == "/data360/search/v1/assets/"@
            + percent::percent_encoded(encode_utf8(asset)),
        text::after_last(text::before_first(detail_path(asset), '?'), '/')
            == percent::percent_encoded(encode_utf8(asset)),
        percent::percent_decoded(
            text::after_last(text::before_first(detail_path(asset), '?'), '/'),
        ) == encode_utf8(asset),
{
    let prefix = "/data360/search/v1/assets/"@;
    let query = "?scheme=internal&segments=dataQuality"@;
    let id = percent::percent_encoded(encode_utf8(asset));
    let path = detail_path(asset);
    reveal_strlit("/data360/search/v1/assets/");
    reveal_strlit("?scheme=internal&segments=dataQuality");
    percent::law_encoded_text_is_inert(encode_utf8(asset));
    percent::law_encoding_reads_back(encode_utf8(asset));
    let target = prefix + id;
    let n = target.len() as int;
    assert forall|j: int| 0 <= j < n implies path[j] != '?' by {
        if j >= prefix.len() {
            assert(path[j] == id[j - prefix.len()]);
        }
    }
    assert(path[n] == '?');
    text::lemma_before_first(path, '?', n);
    assert(path.take(n) =~= target);
    assert forall|j: int| prefix.len() <= j < target.len() implies target[j] != '/' by {
        assert(target[j] == id[j - prefix.len()]);
    }
    text::lemma_after_last(target, '/', prefix.len() as int);
    assert(target.skip(prefix.len() as int) =~= id);
}

/// A nonce needs no encoding: it stands in the token request as it is.
pub proof fn law_nonce_is_sent_as_it_is(time: ClockReading)
    ensures
        percent::percent_encoded(encode_utf8(clock::nonce(time))) == clock::nonce(time),
{
    let nonce = clock::nonce(time);
    if time.since_epoch() >= 0 {
        text::law_decimal_reads_back(time.since_epoch() as nat);
    } else {
        text::law_decimal_reads_back(0);
    }
    let bytes = encode_utf8(nonce);
    assert(is_ascii_chars(nonce));
    is_ascii_chars_encode_utf8(nonce);
    assert forall|i: int| 0 <= i < bytes.len() implies percent::unreserved(#[trigger] bytes[i]) by {
        assert('0' <= nonce[i] <= '9');
    }
    percent::law_unreserved_text_is_kept(bytes);
    assert(percent::percent_encoded(bytes) =~= nonce);
}

/// The login carries the user name and the password, each character for character, and nothing
/// else.
pub proof fn law_credentials_are_sent_as_they_are(config: Config)
    ensures
        credentials(config) matches Json::Object(members) && members.dom() == set![
            "username"@,
            "password"@,
        ] && members["username"@] == Json::Text(config.cdgc_org_username@) && members["password"@]
            == Json::Text(config.cdgc_org_password@),
{
    reveal_strlit("username");
    reveal_strlit("password");
    assert("username"@[0] == 'u' && "password"@[0] == 'p');
    let members = credentials(config)->Object_0;
    assert(members.dom() =~= set!["username"@, "password"@]);
}

/// Two configurations log in with the same document only where user name and password are the same.
pub proof fn law_credentials_tell_accounts_apart(one: Config, other: Config)
    requires
        credentials(one) == credentials(other),
    ensures
        one.cdgc_org_username@ == other.cdgc_org_username@,
        one.cdgc_org_password@ == other.cdgc_org_password@,
{
    law_credentials_are_sent_as_they_are(one);
    law_credentials_are_sent_as_they_are(other);
}

/// The view of a call leaves nothing of it out.
pub proof fn law_call_view_is_complete(call: HttpCall)
    ensures
        call@.service == call.service,
        call@.verb == call.verb,
        call@.path == call.path@,
        call@.headers.len() == call.headers@.len(),
        forall|i: int|
            0 <= i < call.headers@.len() ==> #[trigger] call@.headers[i] == (
                call.headers@[i].0@,
                call.headers@[i].1@,
            ),
        call@.body is Some <==> call.body is Some,
        call.body matches Some(body) ==> call@.body == Some(body@),
        call@.timeout_ms == call.timeout_ms,
{
}

/// The login: a POST of the credentials as JSON to the identity service.
pub proof fn law_login_posts_the_credentials(config: Config, timeout_ms: u64)
    ensures
        ({
            let call = login_call(config, timeout_ms);
            &&& call.service == CdgcService::Login
            &&& call.verb == Verb::Post
            &&& call.path == "/identity-service/api/v1/Login"@
            &&& call.headers == seq![("Content-Type"@, "application/json"@)]
            &&& call.body == Some(json::json_written(credentials(config)))
            &&& call.timeout_ms == timeout_ms
        }),
{
}

/// The token request: a GET from the identity service without a body. Its query ends in the
/// nanoseconds of the reading in decimal, and the session stands in the cookie and in a header of
/// its own as it was given.
pub proof fn law_token_request_carries_session_and_nonce(
    session: Seq<char>,
    time: ClockReading,
    timeout_ms: u64,
)
    ensures
        ({
            let call = jwt_call(session, time, timeout_ms);
            &&& call.service == CdgcService::Login
            &&& call.verb == Verb::Get
            &&& call.path == "/identity-service/api/v1/jwt/Token?client_id=idmc_api&nonce="@
                + text::decimal(
                if time.since_epoch() >= 0 {
                    time.since_epoch() as nat
                } else {
                    0
                },
            )
            &&& call.headers == seq![
                ("cookie"@, "USER_SESSION="@ + session),
                ("IDS-SESSION-ID"@, session),
            ]
            &&& call.body is None
            &&& call.timeout_ms == timeout_ms
        }),
{
    law_nonce_is_sent_as_it_is(time);
}

/// The detail request: a GET from the catalog without a body, for the asset of the configuration,
/// with the token and the organisation as they were given.
pub proof fn law_detail_request_carries_token_and_organisation(
    config: Config,
    token: Seq<char>,
    org_id: Seq<char>,
    timeout_ms: u64,
)
    ensures
        ({
            let call = detail_call(config, token, org_id, timeout_ms);
            &&& call.service == CdgcService::Api
            &&& call.verb == Verb::Get
            &&& call.path == "/data360/search/v1/assets/"@ + percent::percent_encoded(
                encode_utf8(config.cdgc_asset_id@),
            ) + "?scheme=internal&segments=dataQuality"@
            &&& call.headers == seq![
                ("Authorization"@, "Bearer "@ + token),
                ("X-INFA-ORG-ID"@, org_id),
                ("Content-Type"@, "application/json"@),
            ]
            &&& call.body is None
            &&& call.timeout_ms == timeout_ms
        }),
{
}

/// A call is granted the configured timeout, or five seconds where none is configured, or less
/// where less is left of ten seconds since the start; none is granted once they are over.
pub proof fn law_calls_are_granted_what_is_left(
    stage: Stage,
    config: Config,
    start: ClockReading,
    now: ClockReading,
)
    ensures
        ({
            let elapsed = (clock::millis_between(start, now) as i64) as int;
            let wanted = match config.timeout {
                Some(timeout) => timeout as int,
                None => 5_000,
            };
            &&& elapsed >= 10_000 ==> granted(stage, config, start, now) == Err::<u64, RefreshError>(
                RefreshError::BudgetExhausted(stage),
            )
            &&& elapsed < 10_000 && 0 <= wanted <= 10_000 - elapsed ==> granted(
                stage,
                config,
                start,
                now,
            ) == Ok::<u64, RefreshError>(wanted as u64)
            &&& elapsed < 10_000 && wanted > 10_000 - elapsed ==> granted(stage, config, start, now)
                == Ok::<u64, RefreshError>((10_000 - elapsed) as u64)
            &&& elapsed < 10_000 && wanted < 0 ==> granted(stage, config, start, now) == Ok::<
                u64,
                RefreshError,
            >(0u64)
        }),
{
}

/// An answer is accepted exactly where its status is below 300 and it was understood, and then for
/// what it holds. Each failure names its stage and its own cause.
pub proof fn law_answers_are_accepted_below_300<T>(
    stage: Stage,
    status: u32,
    value: T,
    reason: String,
)
    ensures
        status < 300 ==> accepted(stage, Reply::Answered { status, payload: Ok(value) }) == Ok::<
            T,
            RefreshError,
        >(value),
        status < 300 ==> accepted::<T>(stage, Reply::Answered { status, payload: Err(reason) })
            == Err::<T, RefreshError>(RefreshError::Unparsable(stage, reason)),
        status >= 300 ==> accepted(stage, Reply::Answered { status, payload: Ok(value) }) == Err::<
            T,
            RefreshError,
        >(RefreshError::Refused(stage, status)),
        accepted::<T>(stage, Reply::Failed(reason)) == Err::<T, RefreshError>(
            RefreshError::Unanswered(stage, reason),
        ),
{
}

/// The score of an asset is the mean of its dimensions where the configuration says `average`, and
/// its worst dimension under any other setting and without one; an asset without dimensions is an
/// error that names it.
pub proof fn law_asset_score_is_mean_or_worst_dimension(config: Config, detail: AssetDetailResponse)
    ensures
        ({
            let results = detail.data_quality@;
            let asked_for_mean = config.score_aggregation matches Some(mode) && mode@
                == "average"@;
            &&& results.len() == 0 ==> combined(config, detail) == Err::<Score, RefreshError>(
                RefreshError::NoDimensions(config.cdgc_asset_id),
            )
            &&& results.len() > 0 && asked_for_mean ==> combined(config, detail) == Ok::<
                Score,
                RefreshError,
            >(detail.average)
            &&& results.len() > 0 && !asked_for_mean ==> combined(config, detail) is Ok && (exists|
                i: int,
            |
                0 <= i < results.len() && combined(config, detail) == Ok::<Score, RefreshError>(
                    #[trigger] results[i].score,
                )) && (forall|i: int|
                0 <= i < results.len() ==> !score::less(
                    #[trigger] results[i].score.bits,
                    combined(config, detail)->Ok_0.bits,
                ))
        }),
{
    reveal_strlit("min");
    reveal_strlit("average");
    assert("min"@.len() != "average"@.len());
    score::law_aggregation_counts_every_dimension(
        detail.data_quality@,
        detail.average,
        aggregation_mode(config),
    );
    let results = detail.data_quality@;
    if results.len() > 0 && aggregation_mode(config) != "average"@ {
        let found = score::aggregated(results, detail.average, aggregation_mode(config));
        let i = choose|i: int| 0 <= i < results.len() && found == Some(#[trigger] results[i].score);
        assert(combined(config, detail) == Ok::<Score, RefreshError>(results[i].score));
    }
}

/// The first thing that goes wrong in a refresh is what it ends in, and where nothing does, the
/// score of the asset is.
pub proof fn law_first_failure_ends_the_refresh(
    config: Config,
    readings: FetchReadings,
    login: Reply<CdgcLoginResponse>,
    jwt: Reply<CdgcJwtResponse>,
    detail: Reply<AssetDetailResponse>,
)
    ensures
        ({
            let first = granted(Stage::Login, config, readings.start, readings.before_login);
            let second = granted(Stage::Jwt, config, readings.start, readings.before_jwt);
            let third = granted(Stage::Detail, config, readings.start, readings.before_detail);
            let end = fetched(config, readings, login, jwt, detail);
            &&& first matches Err(error) ==> end == Err::<Score, RefreshError>(error)
            &&& first is Ok ==> (accepted(Stage::Login, login) matches Err(error) ==> end == Err::<
                Score,
                RefreshError,
            >(error))
            &&& first is Ok && accepted(Stage::Login, login) is Ok ==> (second matches Err(error)
                ==> end == Err::<Score, RefreshError>(error))
            &&& first is Ok && accepted(Stage::Login, login) is Ok && second is Ok ==> (accepted(
                Stage::Jwt,
                jwt,
            ) matches Err(error) ==> end == Err::<Score, RefreshError>(error))
            &&& first is Ok && accepted(Stage::Login, login) is Ok && second is Ok && accepted(
                Stage::Jwt,
                jwt,
            ) is Ok ==> (third matches Err(error) ==> end == Err::<Score, RefreshError>(error))
            &&& first is Ok && accepted(Stage::Login, login) is Ok && second is Ok && accepted(
                Stage::Jwt,
                jwt,
            ) is Ok && third is Ok ==> match accepted(Stage::Detail, detail) {
                Err(error) => end == Err::<Score, RefreshError>(error),
                Ok(found) => end == combined(config, found),
            }
        }),
{
}

/// The words of an error name the call and, of a refusal, the status and nothing else.
pub proof fn law_words_name_call_and_cause(status: u32, reason: String, asset: String)
    ensures
        RefreshError::BudgetExhausted(Stage::Login).words() == "CDGC refresh exceeded "@
            + text::decimal(10_000) + "ms latency budget before "@ + "Login"@,
        RefreshError::BudgetExhausted(Stage::Jwt).words() == "CDGC refresh exceeded "@
            + text::decimal(10_000) + "ms latency budget before "@ + "JWT fetch"@,
        RefreshError::BudgetExhausted(Stage::Detail).words() == "CDGC refresh exceeded "@
            + text::decimal(10_000) + "ms latency budget before "@ + "Detail fetch"@,
        RefreshError::Unanswered(Stage::Login, reason).words() == "CDGC login"@ + " failed: "@
            + reason@,
        RefreshError::Unanswered(Stage::Jwt, reason).words() == "CDGC JWT fetch"@ + " failed: "@
            + reason@,
        RefreshError::Unanswered(Stage::Detail, reason).words() == "CDGC DQ score fetch"@
            + " failed: "@ + reason@,
        RefreshError::Refused(Stage::Login, status).words() == "CDGC login"@ + " returned status "@
            + text::decimal(status as nat),
        RefreshError::Refused(Stage::Jwt, status).words() == "CDGC JWT fetch"@
            + " returned status "@ + text::decimal(status as nat),
        RefreshError::Refused(Stage::Detail, status).words() == "CDGC DQ score fetch"@
            + " returned status "@ + text::decimal(status as nat),
        RefreshError::Unparsable(Stage::Login, reason).words() == "Failed to parse "@
            + "CDGC login response"@ + ": "@ + reason@,
        RefreshError::Unparsable(Stage::Jwt, reason).words() == "Failed to parse "@
            + "CDGC JWT response"@ + ": "@ + reason@,
        RefreshError::Unparsable(Stage::Detail, reason).words() == "Failed to parse "@
            + "CDGC asset detail response"@ + ": "@ + reason@,
        RefreshError::NoDimensions(asset).words()
            == "CDGC returned no dataQuality dimensions for asset '"@ + asset@ + "'"@,
{
}

/// A refresh begins with the login within its first ten seconds, and is over after them.
pub proof fn law_refresh_begins_with_the_login(config: Config, start: ClockReading, now: ClockReading)
    ensures
        clock::millis_between(start, now) < 10_000 ==> (at_start(config, start, now) matches
            FetchText::Login(call) && call.path == "/identity-service/api/v1/Login"@ && call.body
            == Some(json::json_written(credentials(config))) && call.timeout_ms + clock::millis_between(
            start,
            now,
        ) <= 10_000),
        10_000 <= clock::millis_between(start, now) <= i64::MAX ==> at_start(config, start, now)
            == FetchText::Done(Err(RefreshError::BudgetExhausted(Stage::Login))),
{
}

/// The session that the login gave is the one that the token is asked for with, and the
/// organisation that it gave is kept.
pub proof fn law_token_is_asked_for_with_the_session(
    config: Config,
    start: ClockReading,
    status: u32,
    login: CdgcLoginResponse,
    nonce_time: ClockReading,
    now: ClockReading,
)
    requires
        status < 300,
    ensures
        ({
            let reply = Reply::Answered { status, payload: Ok(login) };
            let step = after_login(config, start, reply, nonce_time, now);
            &&& clock::millis_between(start, now) < 10_000 ==> {
                &&& step matches FetchText::Jwt { call, org_id }
                &&& call.headers == seq![
                    ("cookie"@, "USER_SESSION="@ + login.session_id@),
                    ("IDS-SESSION-ID"@, login.session_id@),
                ]
                &&& call.path == "/identity-service/api/v1/jwt/Token?client_id=idmc_api&nonce="@
                    + clock::nonce(nonce_time)
                &&& call.timeout_ms + clock::millis_between(start, now) <= 10_000
                &&& org_id == login.org_id@
            }
            &&& 10_000 <= clock::millis_between(start, now) <= i64::MAX ==> step == FetchText::Done(
                Err(RefreshError::BudgetExhausted(Stage::Jwt)),
            )
        }),
{
    law_nonce_is_sent_as_it_is(nonce_time);
}

/// The token is the one that the asset is asked for with, for the organisation of the login.
pub proof fn law_asset_is_asked_for_with_the_token(
    config: Config,
    start: ClockReading,
    org_id: Seq<char>,
    status: u32,
    jwt: CdgcJwtResponse,
    now: ClockReading,
)
    requires
        status < 300,
    ensures
        ({
            let reply = Reply::Answered { status, payload: Ok(jwt) };
            let step = after_jwt(config, start, org_id, reply, now);
            &&& clock::millis_between(start, now) < 10_000 ==> {
                &&& step matches FetchText::Detail(call)
                &&& call.headers == seq![
                    ("Authorization"@, "Bearer "@ + jwt.jwt_token@),
                    ("X-INFA-ORG-ID"@, org_id),
                    ("Content-Type"@, "application/json"@),
                ]
                &&& call.path == detail_path(config.cdgc_asset_id@)
                &&& call.timeout_ms + clock::millis_between(start, now) <= 10_000
            }
            &&& 10_000 <= clock::millis_between(start, now) <= i64::MAX ==> step == FetchText::Done(
                Err(RefreshError::BudgetExhausted(Stage::Detail)),
            )
        }),
{
}

/// A call that fails ends the refresh at its stage, whatever the clock says.
pub proof fn law_failed_calls_end_the_refresh(
    config: Config,
    start: ClockReading,
    nonce_time: ClockReading,
    now: ClockReading,
    org_id: Seq<char>,
    status: u32,
    reason: String,
)
    ensures
        after_login(config, start, Reply::Failed(reason), nonce_time, now) == FetchText::Done(
            Err(RefreshError::Unanswered(Stage::Login, reason)),
        ),
        after_jwt(config, start, org_id, Reply::Failed(reason), now) == FetchText::Done(
            Err(RefreshError::Unanswered(Stage::Jwt, reason)),
        ),
        after_detail(config, Reply::Failed(reason)) == Err::<Score, RefreshError>(
            RefreshError::Unanswered(Stage::Detail, reason),
        ),
        status >= 300 ==> {
            &&& forall|payload: Result<CdgcLoginResponse, String>|
                #[trigger] after_login(
                    config,
                    start,
                    Reply::Answered { status, payload },
                    nonce_time,
                    now,
                ) == FetchText::Done(Err(RefreshError::Refused(Stage::Login, status)))
            &&& forall|payload: Result<CdgcJwtResponse, String>|
                #[trigger] after_jwt(
                    config,
                    start,
                    org_id,
                    Reply::Answered { status, payload },
                    now,
                ) == FetchText::Done(Err(RefreshError::Refused(Stage::Jwt, status)))
            &&& forall|payload: Result<AssetDetailResponse, String>|
                #[trigger] after_detail(config, Reply::Answered { status, payload }) == Err::<
                    Score,
                    RefreshError,
                >(RefreshError::Refused(Stage::Detail, status))
        },
        status < 300 ==> {
            &&& after_login(
                config,
                start,
                Reply::Answered { status, payload: Err(reason) },
                nonce_time,
                now,
            ) == FetchText::Done(Err(RefreshError::Unparsable(Stage::Login, reason)))
            &&& after_jwt(
                config,
                start,
                org_id,
                Reply::Answered { status, payload: Err(reason) },
                now,
            ) == FetchText::Done(Err(RefreshError::Unparsable(Stage::Jwt, reason)))
            &&& after_detail(config, Reply::Answered { status, payload: Err(reason) }) == Err::<
                Score,
                RefreshError,
            >(RefreshError::Unparsable(Stage::Detail, reason))
        },
{
}

/// An asset whose detail is understood has the score that its dimensions combine into.
pub proof fn law_understood_detail_gives_the_score(
    config: Config,
    status: u32,
    detail: AssetDetailResponse,
)
    requires
        status < 300,
    ensures
        after_detail(config, Reply::Answered { status, payload: Ok(detail) }) == combined(
            config,
            detail,
        ),
{
}

/// The steps, taken one after the other, end as a whole refresh does.
pub proof fn law_steps_end_as_the_refresh_does(
    config: Config,
    readings: FetchReadings,
    nonce_time: ClockReading,
    login: Reply<CdgcLoginResponse>,
    jwt: Reply<CdgcJwtResponse>,
    detail: Reply<AssetDetailResponse>,
)
    ensures
        fetched(config, readings, login, jwt, detail) == (match at_start(
            config,
            readings.start,
            readings.before_login,
        ) {
            FetchText::Login(_) => match after_login(
                config,
                readings.start,
                login,
                nonce_time,
                readings.before_jwt,
            ) {
                FetchText::Jwt { org_id, .. } => match after_jwt(
                    config,
                    readings.start,
                    org_id,
                    jwt,
                    readings.before_detail,
                ) {
                    FetchText::Detail(_) => after_detail(config, detail),
                    FetchText::Done(result) => result,
                    _ => Err(RefreshError::BudgetExhausted(Stage::Detail)),
                },
                FetchText::Done(result) => result,
                _ => Err(RefreshError::BudgetExhausted(Stage::Jwt)),
            },
            FetchText::Done(result) => result,
            _ => Err(RefreshError::BudgetExhausted(Stage::Login)),
        }),
{
}

/// The view of a step leaves nothing of it out.
pub proof fn law_fetch_step_view_is_complete(step: FetchStep)
    ensures
        step matches FetchStep::Login(call) ==> step@ == FetchText::Login(call@),
        step matches FetchStep::Jwt { call, org_id } ==> step@ == (FetchText::Jwt {
            call: call@,
            org_id: org_id@,
        }),
        step matches FetchStep::Detail(call) ==> step@ == FetchText::Detail(call@),
        step matches FetchStep::Done(result) ==> step@ == FetchText::Done(result),
{
}

} // verus!
