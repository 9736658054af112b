//! The decision over a request, and the headers of an answer that passes.

use crate::block;
use crate::block::{BlockResponse, HEADER_DQ_SCORE, HEADER_DQ_STATUS};
use crate::cdgc::RefreshError;
use crate::config;
use crate::config::Config;
use crate::recognize;
use crate::recognize::GateProtocol;
use crate::resolve;
use crate::score;
use crate::score::Score;
use crate::storage::{CachedScore, StorageError, WriteOutcome};
use serde_json::Value;
use vstd::prelude::*;
use vstd::string::*;

verus! {

/// What is remembered of a request that passed, for the headers of its answer.
#[derive(Debug)]
pub enum DqGateData {
    Evaluated { score: Option<Score>, status: &'static str },
}

/// Whether a request goes on.
#[derive(Debug)]
pub enum Flow {
    Continue(DqGateData),
    /// The request ends here, with this answer.
    Break(BlockResponse),
}

/// The decision over a request.
#[derive(Debug)]
pub struct GateOutcome {
    pub flow: Flow,
    /// Report a policy violation.
    pub violation: bool,
    /// Warn that requests pass ungated.
    pub bypass_warning: bool,
}

/// How a score fares against the thresholds.
pub enum Verdict {
    Blocked,
    /// Passes although there is no score.
    Unknown,
    Warned,
    Passed,
}

/// How a score, or the lack of one, fares.
pub open spec fn verdict(score: Option<Score>, config: Config) -> Verdict {
    match score {
        None => if config::or_default(config.block_on_unknown_score, true) {
            Verdict::Blocked
        } else {
            Verdict::Unknown
        },
        Some(score) => if score::less(score.bits, config.block_threshold.bits) {
            Verdict::Blocked
        } else if score::less(score.bits, config.warn_threshold.bits) {
            Verdict::Warned
        } else {
            Verdict::Passed
        },
    }
}

/// The status of a request that is not blocked.
pub open spec fn status_text(verdict: Verdict) -> Seq<char> {
    match verdict {
        Verdict::Blocked => "blocked"@,
        Verdict::Unknown => "unknown"@,
        Verdict::Warned => "warn"@,
        Verdict::Passed => "ok"@,
    }
}

/// The score as far as the client may see it.
pub open spec fn shown_score(score: Option<Score>, config: Config) -> Option<Score> {
    if config::or_default(config.disclose_score_details, false) {
        score
    } else {
        None
    }
}

/// The request goes on, and this is remembered of it.
pub open spec fn continues_with(flow: Flow, score: Option<Score>, status: Seq<char>) -> bool {
    flow matches Flow::Continue(DqGateData::Evaluated { score: kept, status: text }) && kept
        == score && text@ == status
}

/// The headers that what is remembered of a request adds to its answer.
pub open spec fn annotation_list(score: Option<Score>, status: Seq<char>) -> Seq<
    (Seq<char>, Seq<char>),
> {
    match score {
        Some(score) => seq![(HEADER_DQ_SCORE@, score.text@), (HEADER_DQ_STATUS@, status)],
        None => seq![(HEADER_DQ_STATUS@, status)],
    }
}

fn passes(score: Option<Score>, status: &'static str) -> (r: GateOutcome)
    ensures
        continues_with(r.flow, score, status@),
        !r.violation,
        !r.bypass_warning,
{
    GateOutcome {
        flow: Flow::Continue(DqGateData::Evaluated { score, status }),
        violation: false,
        bypass_warning: false,
    }
}

fn blocks(
    protocol: GateProtocol,
    rpc_id: Option<Value>,
    score: Option<&Score>,
    config: &Config,
) -> (r: GateOutcome)
    ensures
        r.flow matches Flow::Break(response) && block::answers(
            response,
            protocol,
            block::carried_id(protocol, recognize::id_tree(rpc_id)),
            block::score_of(score),
            *config,
        ),
        r.violation,
        !r.bypass_warning,
{
    GateOutcome {
        flow: Flow::Break(block::build_block_response(protocol, rpc_id, score, config)),
        violation: true,
        bypass_warning: false,
    }
}

/// The outcome for a request that is not gated.
pub fn skipped() -> (r: GateOutcome)
    ensures
        continues_with(r.flow, None, "skipped"@),
        !r.violation,
        !r.bypass_warning,
{
    passes(None, "skipped")
}

/// Decides over a gated request by its score. The protocol has a say only in the shape of a
/// rejection. `bypass_logged` remembers whether it was said already that requests pass ungated,
/// so that it is said once.
pub fn decide(
    protocol: GateProtocol,
    rpc_id: Option<Value>,
    score: Option<Score>,
    config: &Config,
    bypass_logged: &mut bool,
) -> (r: GateOutcome)
    ensures
        verdict(score, *config) is Blocked ==> (r.flow matches Flow::Break(response)
            && block::answers(
            response,
            protocol,
            block::carried_id(protocol, recognize::id_tree(rpc_id)),
            score,
            *config,
        )),
        verdict(score, *config) !is Blocked ==> continues_with(
            r.flow,
            shown_score(score, *config),
            status_text(verdict(score, *config)),
        ),
        r.violation == verdict(score, *config) is Blocked,
        r.bypass_warning == (verdict(score, *config) is Unknown && !*old(bypass_logged)),
        *final(bypass_logged) == (*old(bypass_logged) || verdict(score, *config) is Unknown),
        score matches Some(found) ==> {
            let blocked = score::less(found.bits, config.block_threshold.bits);
            let warned = score::less(found.bits, config.warn_threshold.bits);
            &&& r.flow is Break <==> blocked
            &&& r.violation == blocked
            &&& !r.bypass_warning && *final(bypass_logged) == *old(bypass_logged)
            &&& r.flow matches Flow::Continue(DqGateData::Evaluated { score: kept, status }) ==> {
                &&& warned ==> status@ == "warn"@
                &&& !warned ==> status@ == "ok"@
                &&& kept == (if config.disclose_score_details == Some(true) {
                    score
                } else {
                    None
                })
            }
        },
        score is None ==> {
            let passes = config.block_on_unknown_score == Some(false);
            &&& r.flow is Break <==> !passes
            &&& r.violation == !passes
            &&& r.bypass_warning == (passes && !*old(bypass_logged))
            &&& r.flow matches Flow::Continue(DqGateData::Evaluated { score: kept, status }) ==> kept
                is None && status@ == "unknown"@
        },
{
    let score = match score {
        Some(score) => score,
        None => {
            let block_on_unknown = match config.block_on_unknown_score {
                Some(block_on_unknown) => block_on_unknown,
                None => true,
            };
            if block_on_unknown {
                return blocks(protocol, rpc_id, None, config);
            }
            let first_bypass = !*bypass_logged;
            *bypass_logged = true;
            let mut outcome = passes(None, "unknown");
            outcome.bypass_warning = first_bypass;
            return outcome;
        },
    };
    if score.less_than(&config.block_threshold) {
        return blocks(protocol, rpc_id, Some(&score), config);
    }
    let status: &'static str = if score.less_than(&config.warn_threshold) {
        "warn"
    } else {
        "ok"
    };
    if config::discloses(config) {
        passes(Some(score), status)
    } else {
        passes(None, status)
    }
}

/// The headers that are set on the answer to a request that passed: the score where it was
/// remembered, and the status.
pub fn annotations(data: &DqGateData) -> (r: Vec<(String, String)>)
    ensures
        *data matches DqGateData::Evaluated { score, status } && block::header_texts(r@)
            == annotation_list(score, status@),
{
    let mut headers: Vec<(String, String)> = Vec::new();
    match data {
        DqGateData::Evaluated { score, status } => {
            if let Some(score) = score {
                headers.push((HEADER_DQ_SCORE.to_string(), score.text.clone()));
            }
            headers.push((HEADER_DQ_STATUS.to_string(), (*status).to_string()));
            assert(block::header_texts(headers@) =~= annotation_list(*score, status@));
        },
    }
    headers
}

/// How well a verdict treats a request that has a score.
pub open spec fn favour(verdict: Verdict) -> int {
    match verdict {
        Verdict::Blocked => 0,
        Verdict::Unknown => 0,
        Verdict::Warned => 1,
        Verdict::Passed => 2,
    }
}

/// A better score never fares worse.
pub proof fn law_better_scores_never_fare_worse(low: Score, high: Score, config: Config)
    requires
        score::less(low.bits, high.bits),
    ensures
        favour(verdict(Some(low), config)) <= favour(verdict(Some(high), config)),
{
}

/// A score that equals a threshold is not below it.
pub proof fn law_a_score_at_a_threshold_is_not_below_it(score: Score, config: Config)
    ensures
        score.bits == config.block_threshold.bits ==> verdict(Some(score), config) !is Blocked,
        score.bits == config.warn_threshold.bits ==> verdict(Some(score), config) !is Warned,
{
}

/// Without a score the policy blocks, unless the configuration says otherwise.
pub proof fn law_unknown_score_blocks_unless_told_otherwise(config: Config)
    ensures
        verdict(None, config) is Blocked <==> config.block_on_unknown_score != Some(false),
        verdict(None, config) is Unknown <==> config.block_on_unknown_score == Some(false),
{
}

/// With an empty cache and a catalog that cannot be asked, every gated request is blocked, unless
/// the configuration says otherwise.
pub proof fn law_outage_with_an_empty_cache_blocks(
    config: Config,
    now: i64,
    lock: Result<bool, StorageError>,
    fetched: Result<Score, RefreshError>,
    written: WriteOutcome,
)
    requires
        fetched is Err,
        config.block_on_unknown_score != Some(false),
    ensures
        verdict(resolve::resolved(config, None, now, lock, fetched, written), config) is Blocked,
{
}

/// With a cached score and a catalog that cannot be asked, every gated request fares as that score
/// does, however old it is; unless the configuration says not to serve it, in which case an old
/// score counts as none.
pub proof fn law_outage_with_a_cached_score(
    config: Config,
    entry: CachedScore,
    now: i64,
    lock: Result<bool, StorageError>,
    fetched: Result<Score, RefreshError>,
    written: WriteOutcome,
)
    requires
        fetched is Err,
    ensures
        config.fail_open_on_cdgc_error != Some(false) ==> verdict(
            resolve::resolved(config, Some(entry), now, lock, fetched, written),
            config,
        ) == verdict(Some(entry.score), config),
        config.fail_open_on_cdgc_error == Some(false) && resolve::stale(config, Some(entry), now)
            && lock != Ok::<bool, StorageError>(false) ==> verdict(
            resolve::resolved(config, Some(entry), now, lock, fetched, written),
            config,
        ) == verdict(None, config),
{
}

/// Unless details are disclosed, the headers of an answer that passes depend on the verdict alone.
pub proof fn law_undisclosed_answers_show_the_status_only(
    score: Option<Score>,
    config: Config,
    status: Seq<char>,
)
    requires
        !config::or_default(config.disclose_score_details, false),
    ensures
        annotation_list(shown_score(score, config), status) == seq![(HEADER_DQ_STATUS@, status)],
{
}

/// How many warnings a row of decisions gives rise to; an element says whether the request passed
/// without a score.
pub open spec fn warnings(bypasses: Seq<bool>, logged: bool) -> nat
    decreases bypasses.len(),
{
    if bypasses.len() == 0 {
        0
    } else {
        let first: nat = if bypasses[0] && !logged {
            1
        } else {
            0
        };
        first + warnings(bypasses.skip(1), logged || bypasses[0])
    }
}

/// However many requests pass without a score, that is said exactly once.
pub proof fn law_bypass_is_warned_about_once(bypasses: Seq<bool>, logged: bool)
    ensures
        warnings(bypasses, logged) == (if !logged && bypasses.contains(true) {
            1nat
        } else {
            0nat
        }),
    decreases bypasses.len(),
{
    if bypasses.len() > 0 {
        let rest = bypasses.skip(1);
        law_bypass_is_warned_about_once(rest, logged || bypasses[0]);
        if bypasses.contains(true) && !bypasses[0] {
            let i = choose|i: int| 0 <= i < bypasses.len() && bypasses[i] == true;
            assert(rest[i - 1] == true);
        }
        if rest.contains(true) {
            let i = choose|i: int| 0 <= i < rest.len() && rest[i] == true;
            assert(bypasses[i + 1] == true);
        }
    }
}

/// A score is blocked exactly where it is below the block threshold, and otherwise warned about
/// exactly where it is below the warn threshold, whatever the thresholds are.
pub proof fn law_thresholds_decide(score: Score, config: Config)
    ensures
        verdict(Some(score), config) is Blocked <==> score::less(
            score.bits,
            config.block_threshold.bits,
        ),
        verdict(Some(score), config) is Warned <==> !score::less(
            score.bits,
            config.block_threshold.bits,
        ) && score::less(score.bits, config.warn_threshold.bits),
        verdict(Some(score), config) is Passed <==> !score::less(
            score.bits,
            config.block_threshold.bits,
        ) && !score::less(score.bits, config.warn_threshold.bits),
{
}

/// Nothing of a configuration but its thresholds has a say in how a score fares, and nothing of a
/// score but its number.
pub proof fn law_nothing_else_decides(
    score1: Score,
    config1: Config,
    score2: Score,
    config2: Config,
)
    requires
        score1.bits == score2.bits,
        config1.block_threshold.bits == config2.block_threshold.bits,
        config1.warn_threshold.bits == config2.warn_threshold.bits,
    ensures
        verdict(Some(score1), config1) == verdict(Some(score2), config2),
{
}

/// A higher block threshold never lets a score pass that a lower one blocks.
pub proof fn law_higher_block_thresholds_block_more(score: Score, low: Config, high: Config)
    requires
        score::less(low.block_threshold.bits, high.block_threshold.bits),
        verdict(Some(score), low) is Blocked,
    ensures
        verdict(Some(score), high) is Blocked,
{
}

/// Each verdict on a request that passes has its status.
pub proof fn law_statuses_tell_the_verdict(verdict: Verdict)
    ensures
        verdict is Passed ==> status_text(verdict) == "ok"@,
        verdict is Warned ==> status_text(verdict) == "warn"@,
        verdict is Unknown ==> status_text(verdict) == "unknown"@,
{
}

/// The client sees the score exactly where details are disclosed.
pub proof fn law_score_is_shown_iff_disclosed(score: Score, config: Config)
    ensures
        config.disclose_score_details == Some(true) ==> shown_score(Some(score), config) == Some(
            score,
        ),
        config.disclose_score_details != Some(true) ==> shown_score(Some(score), config) is None,
        shown_score(None, config) is None,
{
}

/// A request that goes on carries the score and the status that it is said to carry.
pub proof fn law_a_request_goes_on_with_score_and_status(
    flow: Flow,
    score: Option<Score>,
    status: Seq<char>,
)
    ensures
        continues_with(flow, score, status) <==> (flow matches Flow::Continue(
            DqGateData::Evaluated { score: kept, status: text },
        ) && kept == score && text@ == status),
{
}

/// The answer to a request that went on gets the status, and before it the text of the score where
/// there is one to show.
pub proof fn law_annotations_are_score_and_status(score: Score, status: Seq<char>)
    ensures
        annotation_list(None, status) == seq![("x-dq-gate-status"@, status)],
        annotation_list(Some(score), status) == seq![
            ("x-dq-gate-score"@, score.text@),
            ("x-dq-gate-status"@, status),
        ],
{
}

} // verus!
