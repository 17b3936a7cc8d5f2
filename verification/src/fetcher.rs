//! The structured-API adapter's decision logic, the retry controller, and the
//! aggregator.  The unverified edge performs the HTTP requests and hands back
//! plain values: a status code and a parsed body for an API source, an
//! attempt outcome for the scraped source.  Everything decided about those
//! values — success classification, decode, backoff, failure tagging, and the
//! assembly of one outcome per configured source — is verified here.

use vstd::prelude::*;
use crate::json::JsonValue;
use crate::json::decode_summary;
use crate::json::summary_decodes_to;
use crate::json::summary_ok;
use crate::models::StatusPageSummary;
use crate::text::chars_eq;
use crate::text::chars_of;
use crate::text::dec_digits;
use crate::text::lower;
use crate::text::lower_vec;
use crate::text::u64_to_string;
use vstd::string::StringExecFns;

verus! {

/// How many attempts the retry controller makes for one source and poll.
pub const MAX_RETRIES: u32 = 3;

/// Bound on establishing one HTTP connection.
pub const CONNECT_TIMEOUT_SECS: u64 = 10;

/// Bound on one whole HTTP request.
pub const TOTAL_TIMEOUT_SECS: u64 = 30;

/// How long an idle pooled connection is kept.
pub const POOL_IDLE_TIMEOUT_SECS: u64 = 90;

/// How many idle pooled connections are kept per host.
pub const POOL_MAX_IDLE_PER_HOST: usize = 10;

/// The user agent the API requests carry.
pub fn http_user_agent() -> (r: &'static str)
    ensures
        r@ == "LLM-Status-Monitor/1.0 (Rust/1.80.0)"@,
{
    "LLM-Status-Monitor/1.0 (Rust/1.80.0)"
}

/// The supported upstream sources.
#[derive(Debug, Clone, Copy, PartialEq, Eq, Hash, Structural)]
pub enum LlmProvider {
    OpenAI,
    Anthropic,
    DeepSeek,
    Google,
}

impl LlmProvider {
    /// The status endpoint of this source; for the scraped source it is the
    /// page the browser session navigates to.
    pub open spec fn spec_api_url(self) -> Seq<char> {
        match self {
            LlmProvider::OpenAI => "https://status.openai.com/api/v2/summary.json"@,
            LlmProvider::Anthropic => "https://status.anthropic.com/api/v2/summary.json"@,
            LlmProvider::DeepSeek => "https://status.deepseek.com/api/v2/summary.json"@,
            LlmProvider::Google => "https://aistudio.google.com/status"@,
        }
    }

    /// The status endpoint URL of this source.
    pub fn api_url(&self) -> (r: &'static str)
        ensures
            r@ == self.spec_api_url(),
    {
        match self {
            LlmProvider::OpenAI => "https://status.openai.com/api/v2/summary.json",
            LlmProvider::Anthropic => "https://status.anthropic.com/api/v2/summary.json",
            LlmProvider::DeepSeek => "https://status.deepseek.com/api/v2/summary.json",
            LlmProvider::Google => "https://aistudio.google.com/status",
        }
    }

    /// The display name of this source, which also keys the poll results.
    pub open spec fn spec_name(self) -> Seq<char> {
        match self {
            LlmProvider::OpenAI => "OpenAI"@,
            LlmProvider::Anthropic => "Anthropic"@,
            LlmProvider::DeepSeek => "DeepSeek"@,
            LlmProvider::Google => "Google"@,
        }
    }

    /// The display name of this source.
    pub fn name(&self) -> (r: &'static str)
        ensures
            r@ == self.spec_name(),
    {
        match self {
            LlmProvider::OpenAI => "OpenAI",
            LlmProvider::Anthropic => "Anthropic",
            LlmProvider::DeepSeek => "DeepSeek",
            LlmProvider::Google => "Google",
        }
    }

    /// The source an identifier denotes, compared ASCII-case-insensitively;
    /// an unknown identifier denotes no source.
    pub open spec fn spec_from_str(s: Seq<char>) -> Option<LlmProvider> {
        let t = lower(s);
        if t == "openai"@ {
            Option::Some(LlmProvider::OpenAI)
        } else if t == "anthropic"@ {
            Option::Some(LlmProvider::Anthropic)
        } else if t == "deepseek"@ {
            Option::Some(LlmProvider::DeepSeek)
        } else if t == "google"@ {
            Option::Some(LlmProvider::Google)
        } else {
            Option::None
        }
    }

    /// Parses a source identifier, ignoring ASCII case.
    pub fn from_str(s: &str) -> (r: Option<LlmProvider>)
        ensures
            r == Self::spec_from_str(s@),
    {
        let t = lower_vec(&chars_of(s));
        if chars_eq(&t, &chars_of("openai")) {
            Option::Some(LlmProvider::OpenAI)
        } else if chars_eq(&t, &chars_of("anthropic")) {
            Option::Some(LlmProvider::Anthropic)
        } else if chars_eq(&t, &chars_of("deepseek")) {
            Option::Some(LlmProvider::DeepSeek)
        } else if chars_eq(&t, &chars_of("google")) {
            Option::Some(LlmProvider::Google)
        } else {
            Option::None
        }
    }

    /// Whether this source is acquired by scraping rather than an API call.
    pub fn requires_scraping(&self) -> (r: bool)
        ensures
            r == (self is Google),
    {
        match self {
            LlmProvider::Google => true,
            _ => false,
        }
    }
}

/// The configured sources, in polling order.
pub open spec fn spec_default_providers() -> Seq<LlmProvider> {
    seq![LlmProvider::OpenAI, LlmProvider::Anthropic, LlmProvider::DeepSeek, LlmProvider::Google]
}

/// The configured sources, in polling order.
pub fn all_providers() -> (r: Vec<LlmProvider>)
    ensures
        r@ == spec_default_providers(),
{
    let mut v: Vec<LlmProvider> = Vec::new();
    v.push(LlmProvider::OpenAI);
    v.push(LlmProvider::Anthropic);
    v.push(LlmProvider::DeepSeek);
    v.push(LlmProvider::Google);
    assert(v@ =~= spec_default_providers());
    v
}

/// Why a source failed for one poll cycle.
#[derive(Debug, Clone, Copy, PartialEq, Eq, Structural)]
pub enum FailureKind {
    /// Connection, DNS, or timeout failure before any response arrived.
    Network,
    /// A response arrived with the given non-2xx status code.
    HttpStatus(u16),
    /// The response body could not be decoded into the summary shape.
    Decode,
    /// Browser-session or DOM-extraction failure after the in-adapter retries.
    Scrape,
    /// No remote browser session could be opened at all.
    SessionUnavailable,
}

/// A typed per-source failure, stamped with the clock time it was recorded.
#[derive(Debug, Clone)]
pub struct FetchFailure {
    pub kind: FailureKind,
    pub message: String,
    pub timestamp: String,
}

/// What one source yielded for one poll cycle: a full canonical snapshot or a
/// typed failure, never anything partial.
#[derive(Debug, Clone)]
pub enum FetchOutcome {
    Success(StatusPageSummary),
    Failure(FetchFailure),
}

/// Relies on `chrono::Utc::now` and `chrono::DateTime::to_rfc3339`: the
/// current UTC time rendered in RFC 3339 form.  The result depends on the
/// clock, so nothing is promised of it.
#[verifier::external_body]
fn now_rfc3339() -> String {
    chrono::Utc::now().to_rfc3339()
}

/// Builds a failure outcome of the given kind, stamped with the clock time.
pub fn failure_outcome(kind: FailureKind, message: String) -> (r: FetchOutcome)
    ensures
        r matches FetchOutcome::Failure(f) && f.kind == kind && f.message == message,
{
    FetchOutcome::Failure(FetchFailure { kind, message, timestamp: now_rfc3339() })
}

/// Whether an HTTP status code counts as success.
pub open spec fn spec_is_success_status(code: u16) -> bool {
    200 <= code < 300
}

/// Whether an HTTP status code counts as success.
pub fn is_success_status(code: u16) -> (r: bool)
    ensures
        r == spec_is_success_status(code),
{
    200 <= code && code < 300
}

/// The failure message recorded for a non-2xx response.
pub open spec fn spec_http_status_message(code: u16) -> Seq<char> {
    "HTTP status "@ + dec_digits(code as int)
}

/// Renders the failure message for a non-2xx response.
pub fn http_status_message(code: u16) -> (r: String)
    ensures
        r@ == spec_http_status_message(code),
{
    let mut s = String::from_str("HTTP status ");
    let digits = u64_to_string(code as u64);
    s.append(digits.as_str());
    s
}

/// Classifies one structured-API response.  `status` is the HTTP status code;
/// `body` is the response body parsed into a JSON tree, or `None` when the
/// body was not valid JSON.  A non-2xx status fails with that code whatever
/// the body holds; a 2xx response succeeds exactly when the body is a
/// well-formed summary document, and the snapshot is its decode.
pub fn outcome_from_api_response(status: u16, body: Option<&JsonValue>) -> (r: FetchOutcome)
    ensures
        !spec_is_success_status(status) ==> (r matches FetchOutcome::Failure(f) && f.kind
            == FailureKind::HttpStatus(status) && f.message@ == spec_http_status_message(status)),
        spec_is_success_status(status) && body is None ==> (r matches FetchOutcome::Failure(f)
            && f.kind == FailureKind::Decode && f.message@ == "response body is not valid JSON"@),
        spec_is_success_status(status) ==> (body matches Option::Some(v) ==> {
            &&& (r is Success <==> summary_ok(*v))
            &&& (r matches FetchOutcome::Success(s) ==> summary_decodes_to(*v, s))
            &&& (!summary_ok(*v) ==> (r matches FetchOutcome::Failure(f) && f.kind
                == FailureKind::Decode && f.message@
                == "response body does not match the summary shape"@))
        }),
{
    if !is_success_status(status) {
        return failure_outcome(FailureKind::HttpStatus(status), http_status_message(status));
    }
    match body {
        Option::None => failure_outcome(
            FailureKind::Decode,
            String::from_str("response body is not valid JSON"),
        ),
        Option::Some(v) => {
            match decode_summary(v) {
                Option::Some(s) => FetchOutcome::Success(s),
                Option::None => failure_outcome(
                    FailureKind::Decode,
                    String::from_str("response body does not match the summary shape"),
                ),
            }
        },
    }
}

/// The backoff delay before attempt `attempt + 1`: superlinear on purpose, to
/// shed load from a degraded upstream.
pub open spec fn spec_backoff_delay_ms(attempt: u32) -> int {
    1000 * attempt * attempt
}

/// The backoff delay in milliseconds after `attempt` failed attempts.
pub fn backoff_delay_ms(attempt: u32) -> (d: u64)
    requires
        attempt <= MAX_RETRIES,
    ensures
        d == spec_backoff_delay_ms(attempt),
{
    let a = attempt as u64;
    assert(1000 * a * a <= 9000) by (nonlinear_arith)
        requires
            a <= 3,
    ;
    1000 * a * a
}

/// Law: the backoff is monotonic — the delay before a later attempt is never
/// shorter than the delay before an earlier one.
pub proof fn lemma_backoff_monotonic(a: u32, b: u32)
    requires
        a <= b,
    ensures
        spec_backoff_delay_ms(a) <= spec_backoff_delay_ms(b),
{
    assert(1000 * a * a <= 1000 * b * b) by (nonlinear_arith)
        requires
            a <= b,
    ;
}

/// Law: the backoff schedule waits one second after the first failed attempt
/// and four seconds after the second; a run of failures therefore makes
/// `MAX_RETRIES` attempts with non-decreasing delays between them.
pub proof fn lemma_retry_schedule()
    ensures
        spec_backoff_delay_ms(1) == 1000,
        spec_backoff_delay_ms(2) == 4000,
{
}

/// The retry controller's state for one source and poll cycle: how many
/// attempts have failed so far.
#[derive(Debug, Clone, Copy, PartialEq, Eq, Structural)]
pub struct RetryState {
    pub attempts: u32,
}

/// What the retry controller decides after a failed attempt.
#[derive(Debug, Clone, Copy, PartialEq, Eq, Structural)]
pub enum RetryDecision {
    /// Try again after the given backoff delay.
    RetryAfter { delay_ms: u64 },
    /// The attempt budget is spent; surface the last observed failure, tagged
    /// with the number of attempts made.
    GiveUp { attempts_made: u32 },
}

impl RetryState {
    /// A fresh controller: no attempt made yet.
    pub fn new() -> (r: RetryState)
        ensures
            r.attempts == 0,
    {
        RetryState { attempts: 0 }
    }

    /// Whether another attempt may be made.
    pub fn can_attempt(&self) -> (r: bool)
        ensures
            r == (self.attempts < MAX_RETRIES),
    {
        self.attempts < MAX_RETRIES
    }

    /// Records one failed attempt.  While the budget lasts the decision is a
    /// retry, delayed by the square-law backoff on the number of failures so
    /// far; once `MAX_RETRIES` attempts have failed it is to give up.
    pub fn on_failure(&mut self) -> (d: RetryDecision)
        requires
            old(self).attempts < MAX_RETRIES,
        ensures
            final(self).attempts == old(self).attempts + 1,
            final(self).attempts < MAX_RETRIES ==> d == (RetryDecision::RetryAfter {
                delay_ms: spec_backoff_delay_ms(final(self).attempts) as u64,
            }),
            final(self).attempts == MAX_RETRIES ==> d == (RetryDecision::GiveUp {
                attempts_made: MAX_RETRIES,
            }),
    {
        self.attempts = self.attempts + 1;
        if self.attempts < MAX_RETRIES {
            RetryDecision::RetryAfter { delay_ms: backoff_delay_ms(self.attempts) }
        } else {
            RetryDecision::GiveUp { attempts_made: self.attempts }
        }
    }
}

/// One keyed entry of a poll cycle's result set.
#[derive(Debug, Clone)]
pub struct PollEntry {
    pub source: String,
    pub outcome: FetchOutcome,
}

/// How many entries of the sequence are successes.
pub open spec fn spec_success_count(s: Seq<PollEntry>) -> int
    decreases s.len()
{
    if s.len() == 0 {
        0
    } else {
        (if s[0].outcome is Success {
            1int
        } else {
            0int
        }) + spec_success_count(s.drop_first())
    }
}

proof fn lemma_success_count_step(s: Seq<PollEntry>, i: int)
    requires
        0 <= i < s.len(),
    ensures
        spec_success_count(s.skip(i)) == (if s[i].outcome is Success {
            1int
        } else {
            0int
        }) + spec_success_count(s.skip(i + 1)),
        spec_success_count(s.skip(i)) >= 0,
        spec_success_count(s.skip(s.len() as int)) == 0,
    decreases s.len() - i,
{
    assert(s.skip(i)[0] == s[i]);
    assert(s.skip(i).drop_first() =~= s.skip(i + 1));
    if i + 1 < s.len() {
        lemma_success_count_step(s, i + 1);
    } else {
        assert(s.skip(i + 1) =~= Seq::<PollEntry>::empty());
        assert(s.skip(s.len() as int) =~= Seq::<PollEntry>::empty());
    }
}

/// The keyed result set of one poll cycle, one entry per configured source.
#[derive(Debug, Clone)]
pub struct PollResults {
    pub entries: Vec<PollEntry>,
}

/// The outcome recorded under `name`, if any: the first entry with that key.
pub open spec fn spec_results_lookup(entries: Seq<PollEntry>, name: Seq<char>) -> Option<
    FetchOutcome,
>
    decreases entries.len()
{
    if entries.len() == 0 {
        Option::None
    } else if entries[0].source@ == name {
        Option::Some(entries[0].outcome)
    } else {
        spec_results_lookup(entries.drop_first(), name)
    }
}

proof fn lemma_results_lookup_step(entries: Seq<PollEntry>, name: Seq<char>, i: int)
    requires
        0 <= i <= entries.len(),
        forall|k: int| 0 <= k < i ==> (#[trigger] entries[k]).source@ != name,
    ensures
        spec_results_lookup(entries, name) == spec_results_lookup(entries.skip(i), name),
    decreases i,
{
    if i > 0 {
        lemma_results_lookup_step(entries, name, i - 1);
        assert(entries.skip(i - 1).drop_first() =~= entries.skip(i));
        assert(entries.skip(i - 1)[0] == entries[i - 1]);
    } else {
        assert(entries.skip(0) =~= entries);
    }
}

impl PollResults {
    /// Looks up the outcome recorded for `name`.
    pub fn get<'a>(&'a self, name: &str) -> (r: Option<&'a FetchOutcome>)
        ensures
            match r {
                Option::Some(o) => spec_results_lookup(self.entries@, name@) == Option::Some(*o),
                Option::None => spec_results_lookup(self.entries@, name@) is None,
            },
    {
        let mut i: usize = 0;
        while i < self.entries.len()
            invariant
                i <= self.entries@.len(),
                forall|k: int| 0 <= k < i ==> (#[trigger] self.entries@[k]).source@ != name@,
            decreases self.entries@.len() - i,
        {
            if crate::text::str_eq(self.entries[i].source.as_str(), name) {
                proof {
                    lemma_results_lookup_step(self.entries@, name@, i as int);
                    assert(self.entries@.skip(i as int)[0] == self.entries@[i as int]);
                }
                return Option::Some(&self.entries[i].outcome);
            }
            i = i + 1;
        }
        proof {
            lemma_results_lookup_step(self.entries@, name@, self.entries@.len() as int);
            assert(self.entries@.skip(self.entries@.len() as int) =~= Seq::<PollEntry>::empty());
        }
        Option::None
    }

    /// How many sources succeeded this cycle.
    pub fn success_count(&self) -> (n: usize)
        ensures
            n == spec_success_count(self.entries@),
    {
        let mut n: usize = 0;
        let mut i: usize = 0;
        proof {
            assert(self.entries@.skip(0) =~= self.entries@);
        }
        while i < self.entries.len()
            invariant
                i <= self.entries@.len(),
                n <= i,
                spec_success_count(self.entries@) == n + spec_success_count(
                    self.entries@.skip(i as int),
                ),
            decreases self.entries@.len() - i,
        {
            proof {
                lemma_success_count_step(self.entries@, i as int);
            }
            match &self.entries[i].outcome {
                FetchOutcome::Success(_) => {
                    n = n + 1;
                },
                FetchOutcome::Failure(_) => {},
            }
            i = i + 1;
        }
        proof {
            assert(self.entries@.skip(self.entries@.len() as int) =~= Seq::<PollEntry>::empty());
        }
        n
    }

    /// How many sources failed this cycle.
    pub fn failure_count(&self) -> (n: usize)
        ensures
            n == self.entries@.len() - spec_success_count(self.entries@),
    {
        let total = self.entries.len();
        let ok = self.success_count();
        proof {
            lemma_success_count_bounds(self.entries@);
        }
        total - ok
    }
}

proof fn lemma_success_count_bounds(s: Seq<PollEntry>)
    ensures
        0 <= spec_success_count(s) <= s.len(),
    decreases s.len(),
{
    if s.len() > 0 {
        lemma_success_count_bounds(s.drop_first());
    }
}

/// One poll cycle in progress: the configured sources and the outcomes
/// recorded so far, one per source, in order.  Each cycle owns a fresh
/// aggregator; nothing is shared across cycles.
#[derive(Debug)]
pub struct Aggregator {
    pub providers: Vec<LlmProvider>,
    pub entries: Vec<PollEntry>,
}

impl Aggregator {
    /// The aggregator's invariant: the recorded entries key the leading
    /// providers, in polling order.
    pub open spec fn wf(self) -> bool {
        &&& self.entries@.len() <= self.providers@.len()
        &&& forall|i: int|
            0 <= i < self.entries@.len() ==> (#[trigger] self.entries@[i]).source@
                == self.providers@[i].spec_name()
    }

    /// A fresh cycle over the configured sources, with nothing recorded:
    /// every poll starts from this one fully determined state.
    pub fn new() -> (r: Aggregator)
        ensures
            r.wf(),
            r.providers@ == spec_default_providers(),
            r.entries@.len() == 0,
    {
        Aggregator { providers: all_providers(), entries: Vec::new() }
    }

    /// The source to fetch next, or `None` when every source has an outcome.
    pub fn next_source(&self) -> (r: Option<LlmProvider>)
        ensures
            match r {
                Option::Some(p) => self.entries@.len() < self.providers@.len() && p
                    == self.providers@[self.entries@.len() as int],
                Option::None => self.entries@.len() >= self.providers@.len(),
            },
    {
        if self.entries.len() < self.providers.len() {
            Option::Some(self.providers[self.entries.len()])
        } else {
            Option::None
        }
    }

    /// Records the outcome of the source being fetched, keyed by its name.
    /// One source's failure is recorded like any other outcome; it never
    /// stops the cycle.
    pub fn record(&mut self, outcome: FetchOutcome)
        requires
            old(self).wf(),
            old(self).entries@.len() < old(self).providers@.len(),
        ensures
            final(self).wf(),
            final(self).providers@ == old(self).providers@,
            final(self).entries@.len() == old(self).entries@.len() + 1,
            final(self).entries@.subrange(0, old(self).entries@.len() as int) == old(
                self,
            ).entries@,
            final(self).entries@.last().source@ == old(self).providers@[old(
                self,
            ).entries@.len() as int].spec_name(),
            final(self).entries@.last().outcome == outcome,
    {
        let provider = self.providers[self.entries.len()];
        let source = String::from_str(provider.name());
        self.entries.push(PollEntry { source, outcome });
        assert(final(self).entries@.subrange(0, old(self).entries@.len() as int) =~= old(
            self,
        ).entries@);
    }

    /// Whether every configured source has an outcome.
    pub fn is_complete(&self) -> (r: bool)
        ensures
            r == (self.entries@.len() == self.providers@.len()),
    {
        self.entries.len() == self.providers.len()
    }

    /// Hands the finished cycle's result set over, one entry per source.
    pub fn into_results(self) -> (r: PollResults)
        requires
            self.wf(),
            self.entries@.len() == self.providers@.len(),
        ensures
            r.entries@ == self.entries@,
            r.entries@.len() == self.providers@.len(),
            forall|i: int|
                0 <= i < r.entries@.len() ==> (#[trigger] r.entries@[i]).source@
                    == self.providers@[i].spec_name(),
    {
        PollResults { entries: self.entries }
    }
}

/// Law: a completed poll cycle over the configured sources holds exactly one
/// outcome per source — one entry per configured source, in polling order,
/// under pairwise distinct keys — however many sources failed.
pub proof fn lemma_one_outcome_per_source(agg: Aggregator)
    requires
        agg.wf(),
        agg.providers@ == spec_default_providers(),
        agg.entries@.len() == agg.providers@.len(),
    ensures
        agg.entries@.len() == spec_default_providers().len(),
        forall|i: int|
            0 <= i < agg.entries@.len() ==> (#[trigger] agg.entries@[i]).source@
                == spec_default_providers()[i].spec_name(),
        forall|i: int, j: int|
            0 <= i < j < agg.entries@.len() ==> (#[trigger] agg.entries@[i]).source@ != (
            #[trigger] agg.entries@[j]).source@,
{
    broadcast use vstd::string::group_string_axioms;

    reveal_strlit("OpenAI");
    reveal_strlit("Anthropic");
    reveal_strlit("DeepSeek");
    reveal_strlit("Google");
    assert("OpenAI"@.len() == 6);
    assert("Anthropic"@.len() == 9);
    assert("DeepSeek"@.len() == 8);
    assert("Google"@.len() == 6);
    assert("OpenAI"@[0] == 'O' && "Google"@[0] == 'G');
    assert(LlmProvider::OpenAI.spec_name() != LlmProvider::Anthropic.spec_name());
    assert(LlmProvider::OpenAI.spec_name() != LlmProvider::DeepSeek.spec_name());
    assert(LlmProvider::OpenAI.spec_name() != LlmProvider::Google.spec_name());
    assert(LlmProvider::Anthropic.spec_name() != LlmProvider::DeepSeek.spec_name());
    assert(LlmProvider::Anthropic.spec_name() != LlmProvider::Google.spec_name());
    assert(LlmProvider::DeepSeek.spec_name() != LlmProvider::Google.spec_name());
}

} // verus!
