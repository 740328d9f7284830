//! The status poll: query, and wait a fixed interval after each empty answer,
//! until a playback URL appears or the elapsed time reaches the maximum.

use vstd::prelude::*;
use crate::error::ProcessError;
use crate::json::{json_document, json_strings, parse_json, string_at};

verus! {

/// The wait between two status queries, in seconds.
pub const SLEEP_INTERVAL: u64 = 20;

/// The elapsed time after which polling gives up, in seconds.
pub const MAX_TIMEOUT: u64 = 600;

/// How long to wait between queries, and the elapsed time at which to stop.
#[derive(Debug, Clone, Copy, PartialEq, Eq, Structural)]
pub struct PollConfig {
    pub interval: u64,
    pub max_elapsed: u64,
}

impl PollConfig {
    /// A usable configuration: a positive interval, and room to add it to the
    /// maximum without overflow.
    pub open spec fn wf(&self) -> bool {
        self.interval > 0 && self.max_elapsed + self.interval <= u64::MAX
    }

    /// A configuration with the given interval and maximum, where it is usable.
    pub fn new(interval: u64, max_elapsed: u64) -> (r: Option<PollConfig>)
        ensures
            r is Some <==> (PollConfig { interval, max_elapsed }).wf(),
            r is Some ==> r->0 == (PollConfig { interval, max_elapsed }),
    {
        if interval > 0 && max_elapsed <= u64::MAX - interval {
            Some(PollConfig { interval, max_elapsed })
        } else {
            None
        }
    }

    /// The usual configuration: every 20 seconds, for at most 600 seconds.
    pub fn standard() -> (r: PollConfig)
        ensures
            r.wf(),
            r.interval == SLEEP_INTERVAL,
            r.max_elapsed == MAX_TIMEOUT,
    {
        PollConfig { interval: SLEEP_INTERVAL, max_elapsed: MAX_TIMEOUT }
    }
}

/// Where the poll stands.
#[derive(Debug, Clone, Copy, PartialEq, Eq, Structural)]
pub enum PollPhase {
    /// A status query is out; its answer is awaited.
    AwaitingStatus,
    /// The last answer held no playback URL; the interval is being waited out.
    Waiting,
    /// A playback URL was found.
    Found,
    /// The elapsed time reached the maximum without a playback URL.
    TimedOut,
}

/// The poll's progress: time waited so far, queries answered, and phase.
pub struct PollState {
    pub elapsed: nat,
    pub queries: nat,
    pub phase: PollPhase,
}

/// The state before anything is done: a first query goes out unless the
/// maximum is zero.
pub open spec fn start_state(cfg: PollConfig) -> PollState {
    PollState {
        elapsed: 0,
        queries: 0,
        phase: if 0 < cfg.max_elapsed { PollPhase::AwaitingStatus } else { PollPhase::TimedOut },
    }
}

/// The state after a query is answered, with or without a playback URL.
pub open spec fn after_status(s: PollState, found: bool) -> PollState {
    PollState {
        elapsed: s.elapsed,
        queries: s.queries + 1,
        phase: if found { PollPhase::Found } else { PollPhase::Waiting },
    }
}

/// The state after one interval is waited out: query again while the elapsed
/// time stays below the maximum, else give up.
pub open spec fn after_wait(cfg: PollConfig, s: PollState) -> PollState {
    PollState {
        elapsed: s.elapsed + cfg.interval as nat,
        queries: s.queries,
        phase: if s.elapsed + cfg.interval < cfg.max_elapsed {
            PollPhase::AwaitingStatus
        } else {
            PollPhase::TimedOut
        },
    }
}

/// The answer to query number `i` (from 0) of a status endpoint that answers
/// in turn with `answers` and with no playback URL once they run out.
pub open spec fn answer(answers: Seq<Option<Seq<char>>>, i: nat) -> Option<Seq<char>> {
    if i < answers.len() {
        answers[i as int]
    } else {
        None
    }
}

/// The state in which the poll ends when, from `s`, each query is answered
/// from `answers` and each wait is waited out.
pub open spec fn run_from(cfg: PollConfig, s: PollState, answers: Seq<Option<Seq<char>>>) -> PollState
    decreases (if s.elapsed < cfg.max_elapsed { cfg.max_elapsed - s.elapsed } else { 0 }),
{
    if s.phase != PollPhase::AwaitingStatus || s.elapsed >= cfg.max_elapsed || cfg.interval == 0 {
        s
    } else {
        let a = answer(answers, s.queries);
        if a is Some {
            after_status(s, true)
        } else {
            run_from(cfg, after_wait(cfg, after_status(s, false)), answers)
        }
    }
}

/// The state in which a whole poll ends against such an endpoint.
pub open spec fn run(cfg: PollConfig, answers: Seq<Option<Seq<char>>>) -> PollState {
    run_from(cfg, start_state(cfg), answers)
}

proof fn lemma_found_from(cfg: PollConfig, answers: Seq<Option<Seq<char>>>, k: nat, j: nat)
    requires
        cfg.wf(),
        j <= k,
        k * (cfg.interval as nat) < cfg.max_elapsed,
        forall|i: nat| j <= i < k ==> answer(answers, i) is None,
        answer(answers, k) is Some,
    ensures
        run_from(cfg, PollState { elapsed: j * (cfg.interval as nat), queries: j, phase: PollPhase::AwaitingStatus }, answers)
            == (PollState { elapsed: k * (cfg.interval as nat), queries: k + 1, phase: PollPhase::Found }),
    decreases k - j,
{
    let iv = cfg.interval as nat;
    assert(j * iv <= k * iv) by (nonlinear_arith)
        requires j <= k;
    if j < k {
        assert(answer(answers, j) is None);
        assert(j * iv + iv == (j + 1) * iv) by (nonlinear_arith);
        assert((j + 1) * iv <= k * iv) by (nonlinear_arith)
            requires j + 1 <= k;
        lemma_found_from(cfg, answers, k, j + 1);
    }
}

proof fn lemma_timeout_from(cfg: PollConfig, answers: Seq<Option<Seq<char>>>, j: nat)
    requires
        cfg.wf(),
        j * (cfg.interval as nat) < cfg.max_elapsed,
        forall|i: nat| answer(answers, i) is None,
    ensures
        ({
            let r = run_from(cfg, PollState { elapsed: j * (cfg.interval as nat), queries: j, phase: PollPhase::AwaitingStatus }, answers);
            &&& r.phase == PollPhase::TimedOut
            &&& r.elapsed == r.queries * (cfg.interval as nat)
            &&& cfg.max_elapsed <= r.elapsed < cfg.max_elapsed + cfg.interval
        }),
    decreases cfg.max_elapsed - j * (cfg.interval as nat),
{
    let iv = cfg.interval as nat;
    assert(answer(answers, j) is None);
    assert(j * iv + iv == (j + 1) * iv) by (nonlinear_arith);
    let s = PollState { elapsed: j * iv, queries: j, phase: PollPhase::AwaitingStatus };
    let next = after_wait(cfg, after_status(s, false));
    assert(run_from(cfg, s, answers) == run_from(cfg, next, answers));
    if (j + 1) * iv < cfg.max_elapsed {
        lemma_timeout_from(cfg, answers, j + 1);
    } else {
        assert(next.phase == PollPhase::TimedOut);
        assert(run_from(cfg, next, answers) == next);
    }
}

/// Against an asset that is already processed, the poll ends at its first
/// query: one query, and no time spent waiting.
pub proof fn processed_asset_needs_one_query(cfg: PollConfig, answers: Seq<Option<Seq<char>>>)
    requires
        cfg.wf(),
        0 < cfg.max_elapsed,
        answer(answers, 0) is Some,
    ensures
        run(cfg, answers) == (PollState { elapsed: 0, queries: 1, phase: PollPhase::Found }),
{
}

/// Where the first `k` queries find no playback URL and the next one does,
/// and `k` intervals stay below the maximum, the poll ends found after
/// exactly `k + 1` queries and `k` intervals of waiting.
pub proof fn found_after_empty_answers(cfg: PollConfig, answers: Seq<Option<Seq<char>>>, k: nat)
    requires
        cfg.wf(),
        k * (cfg.interval as nat) < cfg.max_elapsed,
        forall|i: nat| i < k ==> answer(answers, i) is None,
        answer(answers, k) is Some,
    ensures
        run(cfg, answers) == (PollState { elapsed: k * (cfg.interval as nat), queries: k + 1, phase: PollPhase::Found }),
{
    assert(0 * (cfg.interval as nat) == 0) by (nonlinear_arith);
    assert(0 * (cfg.interval as nat) <= k * (cfg.interval as nat)) by (nonlinear_arith);
    lemma_found_from(cfg, answers, k, 0);
}

/// Where no query ever finds a playback URL, the poll stops timed out: each
/// query but the last is followed by one interval, and it stops once the
/// elapsed time reaches the maximum, before it passes it by a whole interval.
/// So it makes the least number of queries whose intervals cover the maximum.
pub proof fn empty_answers_time_out(cfg: PollConfig, answers: Seq<Option<Seq<char>>>)
    requires
        cfg.wf(),
        forall|i: int| 0 <= i < answers.len() ==> answers[i] is None,
    ensures
        ({
            let r = run(cfg, answers);
            &&& r.phase == PollPhase::TimedOut
            &&& r.elapsed == r.queries * (cfg.interval as nat)
            &&& cfg.max_elapsed <= r.elapsed < cfg.max_elapsed + cfg.interval
        }),
{
    assert forall|i: nat| answer(answers, i) is None by {
        if i < answers.len() {
            assert(answers[i as int] is None);
        }
    }
    assert(0 * (cfg.interval as nat) == 0) by (nonlinear_arith);
    if 0 < cfg.max_elapsed {
        lemma_timeout_from(cfg, answers, 0);
    }
}

/// What the caller does next, as the poll sees it.
pub enum PollStep {
    Query(Seq<char>),
    Wait(nat),
    Found(Seq<char>),
    TimedOut(Seq<char>),
}

/// What the caller is to do next.
#[derive(Debug, Clone, PartialEq, Eq)]
pub enum PollAction {
    /// Query the status of the asset.
    Query { asset_id: String },
    /// Wait this many seconds, then report back.
    Wait { seconds: u64 },
    /// Done: the asset plays at this URL.
    Found { playback_url: String },
    /// Done: the time ran out for this asset.
    TimedOut { asset_id: String },
}

impl View for PollAction {
    type V = PollStep;

    open spec fn view(&self) -> PollStep {
        match self {
            PollAction::Query { asset_id } => PollStep::Query(asset_id@),
            PollAction::Wait { seconds } => PollStep::Wait(*seconds as nat),
            PollAction::Found { playback_url } => PollStep::Found(playback_url@),
            PollAction::TimedOut { asset_id } => PollStep::TimedOut(asset_id@),
        }
    }
}

/// The poll of one asset's status.
pub struct Poller {
    asset_id: String,
    config: PollConfig,
    elapsed: u64,
    queries: u64,
    phase: PollPhase,
}

impl Poller {
    /// The poll's progress.
    pub closed spec fn state(&self) -> PollState {
        PollState { elapsed: self.elapsed as nat, queries: self.queries as nat, phase: self.phase }
    }

    /// The asset whose status is polled.
    pub closed spec fn asset(&self) -> Seq<char> {
        self.asset_id@
    }

    /// The interval and maximum in force.
    pub closed spec fn config(&self) -> PollConfig {
        self.config
    }

    /// The configuration is usable; a query goes out only below the maximum,
    /// and the elapsed time never passes the maximum by a whole interval.
    pub closed spec fn wf(&self) -> bool {
        &&& self.config.wf()
        &&& self.elapsed < self.config.max_elapsed + self.config.interval
        &&& (self.phase == PollPhase::AwaitingStatus || self.phase == PollPhase::Waiting)
            ==> self.elapsed < self.config.max_elapsed
        &&& self.queries <= self.elapsed + 1
        &&& (self.phase == PollPhase::AwaitingStatus || self.phase == PollPhase::TimedOut)
            ==> self.queries <= self.elapsed
    }

    /// The action on entering a phase that a query or the timeout follows:
    /// query the asset while awaiting its status, else report the timeout.
    pub open spec fn next_step(&self) -> PollStep {
        if self.state().phase == PollPhase::AwaitingStatus {
            PollStep::Query(self.asset())
        } else {
            PollStep::TimedOut(self.asset())
        }
    }

    fn query_or_timeout(&self) -> (r: PollAction)
        ensures
            r@ == self.next_step(),
    {
        if self.phase == PollPhase::AwaitingStatus {
            PollAction::Query { asset_id: self.asset_id.clone() }
        } else {
            PollAction::TimedOut { asset_id: self.asset_id.clone() }
        }
    }

    /// Starts polling the asset `asset_id`, and gives the first action: a
    /// query, or the timeout where the maximum is zero.
    pub fn start(asset_id: String, config: PollConfig) -> (r: (Poller, PollAction))
        requires
            config.wf(),
        ensures
            r.0.wf(),
            r.0.state() == start_state(config),
            r.0.asset() == asset_id@,
            r.0.config() == config,
            r.1@ == r.0.next_step(),
    {
        let phase = if 0 < config.max_elapsed { PollPhase::AwaitingStatus } else { PollPhase::TimedOut };
        let p = Poller { asset_id, config, elapsed: 0, queries: 0, phase };
        let a = p.query_or_timeout();
        (p, a)
    }

    /// Takes the answer to the outstanding query: a playback URL ends the
    /// poll, its absence calls for a wait of one interval.
    pub fn on_status(&mut self, playback_url: Option<String>) -> (r: PollAction)
        requires
            old(self).wf(),
            old(self).state().phase == PollPhase::AwaitingStatus,
        ensures
            final(self).wf(),
            final(self).state() == after_status(old(self).state(), playback_url is Some),
            final(self).asset() == old(self).asset(),
            final(self).config() == old(self).config(),
            match playback_url {
                Some(u) => r@ == PollStep::Found(u@),
                None => r@ == PollStep::Wait(old(self).config().interval as nat),
            },
    {
        self.queries = self.queries + 1;
        match playback_url {
            Some(u) => {
                self.phase = PollPhase::Found;
                PollAction::Found { playback_url: u }
            },
            None => {
                self.phase = PollPhase::Waiting;
                PollAction::Wait { seconds: self.config.interval }
            },
        }
    }

    /// Takes the news that one interval has been waited out: query again
    /// while the elapsed time stays below the maximum, else give up.
    pub fn on_waited(&mut self) -> (r: PollAction)
        requires
            old(self).wf(),
            old(self).state().phase == PollPhase::Waiting,
        ensures
            final(self).wf(),
            final(self).state() == after_wait(old(self).config(), old(self).state()),
            final(self).asset() == old(self).asset(),
            final(self).config() == old(self).config(),
            r@ == final(self).next_step(),
    {
        self.elapsed = self.elapsed + self.config.interval;
        if self.elapsed < self.config.max_elapsed {
            self.phase = PollPhase::AwaitingStatus;
        } else {
            self.phase = PollPhase::TimedOut;
        }
        self.query_or_timeout()
    }

    /// The seconds waited so far.
    pub fn elapsed(&self) -> (r: u64)
        ensures
            r as nat == self.state().elapsed,
    {
        self.elapsed
    }

    /// The number of queries answered so far.
    pub fn queries(&self) -> (r: u64)
        ensures
            r as nat == self.state().queries,
    {
        self.queries
    }

    /// Where the poll stands.
    pub fn phase(&self) -> (r: PollPhase)
        ensures
            r == self.state().phase,
    {
        self.phase
    }
}

/// The playback URL in a parsed status document: the string at member
/// `playbackUrl`, absent where it is null, missing or not a string.
pub fn playback_url_from(doc: &serde_json::Value) -> (r: Option<String>)
    ensures
        match r {
            Some(u) => json_strings(*doc).contains_key("/playbackUrl"@)
                && json_strings(*doc)["/playbackUrl"@] == u@,
            None => !json_strings(*doc).contains_key("/playbackUrl"@),
        },
{
    string_at(doc, "/playbackUrl")
}

/// The playback URL in the body of a status response, or the deserialization
/// error where the body is not JSON.
pub fn playback_url_in(body: &str) -> (r: Result<Option<String>, ProcessError>)
    ensures
        match json_document(body@) {
            None => r == Err::<Option<String>, ProcessError>(ProcessError::Deserialization),
            Some(doc) => r is Ok && match r->Ok_0 {
                Some(u) => doc.contains_key("/playbackUrl"@) && doc["/playbackUrl"@] == u@,
                None => !doc.contains_key("/playbackUrl"@),
            },
        },
{
    match parse_json(body) {
        Some(doc) => Ok(playback_url_from(&doc)),
        None => Err(ProcessError::Deserialization),
    }
}

} // verus!
