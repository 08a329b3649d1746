//! The retry policy of the request engine.
//!
//! One call of the client is a sequence of HTTP attempts, numbered from 0
//! up to the retry budget. After each attempt the policy looks at what the
//! transport reported and decides what happens next: decode the body, read
//! it as an error text, wait and send again, or give up. The policy itself
//! performs no I/O. The caller sends, sleeps and reads, and tells the
//! policy what it saw.
//!
//! Only two conditions are taken to be transient: no response at all, and
//! status 429. Every other status outside 2xx ends the call at once, and so
//! does a 2xx body that does not decode.

use vstd::arithmetic::power2::{lemma2_to64, lemma2_to64_rest, lemma_pow2_unfold, pow2};
use vstd::prelude::*;

use crate::text::{decimal_digits, optional_text, u64_to_decimal};

verus! {

/// Base of the backoff after an attempt that got no response, in milliseconds.
pub const TRANSPORT_BACKOFF_MS: u64 = 500;

/// Base of the backoff after an attempt answered with status 429, in milliseconds.
pub const RATE_LIMIT_BACKOFF_MS: u64 = 1000;

/// The status by which a server says that the caller is rate limited.
pub const TOO_MANY_REQUESTS: u16 = 429;

/// The delay before the attempt that follows attempt number `attempt`:
/// the base doubled once per attempt already made.
pub open spec fn backoff_millis(base_ms: nat, attempt: nat) -> nat {
    base_ms * pow2(attempt)
}

/// A status in the range 200 to 299.
pub open spec fn is_success(status: u16) -> bool {
    200 <= status < 300
}

/// A status that is taken to be transient. Only 429 is. The statuses 500,
/// 502 and 503 are often transient as well, yet they are not retried: they
/// end the call like any other error status.
pub open spec fn is_transient_status(status: u16) -> bool {
    status == TOO_MANY_REQUESTS
}

/// The text that stands in for a response body that could not be read.
pub open spec fn unreadable_body() -> Seq<char> {
    "Unknown error"@
}

/// The words that `http::StatusCode` prints after the number of the status
/// `code`: its canonical reason phrase, or the crate's stand-in where it has
/// none.
pub uninterp spec fn status_reason(code: u16) -> Seq<char>;

/// How a status is written in an error message: the number and the reason
/// phrase for a status of three digits, the bare number for any other value.
pub open spec fn status_text(code: u16) -> Seq<char> {
    if 100 <= code <= 999 {
        decimal_digits(code as nat) + seq![' '] + status_reason(code)
    } else {
        decimal_digits(code as nat)
    }
}

/// Calls `reqwest::StatusCode::from_u16` and formats the status with its
/// `Display` impl. The conversion succeeds exactly for 100 to 999. The
/// formatted text is the number in decimal, one space, and the reason phrase
/// that the crate's table gives for that number.
#[verifier::external_body]
fn status_line(code: u16) -> (line: Option<String>)
    ensures
        line is Some <==> 100 <= code <= 999,
        line is Some ==> line->0@ == decimal_digits(code as nat) + seq![' '] + status_reason(
            code,
        ),
{
    match reqwest::StatusCode::from_u16(code) {
        Ok(status) => Some(status.to_string()),
        Err(_) => None,
    }
}

/// The status `code` as error messages show it, given the line that
/// `StatusCode` formats for it, if it formats one.
pub fn status_or_number(code: u16, line: Option<String>) -> (text: String)
    ensures
        text@ == match line {
            Some(formatted) => formatted@,
            None => decimal_digits(code as nat),
        },
{
    match line {
        Some(formatted) => formatted,
        None => u64_to_decimal(code as u64),
    }
}

/// Writes a status the way error messages show it.
pub fn render_status(code: u16) -> (text: String)
    ensures
        text@ == status_text(code),
{
    status_or_number(code, status_line(code))
}

/// The message of an API error, given the status as it is shown and the
/// body text.
pub fn api_error_text(status_shown: &str, body: &str) -> (text: String)
    ensures
        text@ == "API error: "@ + status_shown@ + " - "@ + body@,
{
    let mut text = String::from_str("API error: ");
    text.append(status_shown);
    text.append(" - ");
    text.append(body);
    text
}

/// Why a call of the engine failed.
#[derive(Debug)]
pub enum RequestError {
    /// The last attempt that the budget allows got no response; `detail`
    /// is what the transport said of it.
    Transport { retries: u32, detail: String },
    /// The last attempt that the budget allows was answered with status 429.
    RateLimited { retries: u32 },
    /// A response carried a status other than 2xx and 429.
    Api { status: u16, body: String },
    /// A 2xx response whose body is not JSON of the expected shape.
    Decode { detail: String },
}

/// A `RequestError` with its texts as character sequences.
pub enum RequestErrorView {
    Transport { retries: u32, detail: Seq<char> },
    RateLimited { retries: u32 },
    Api { status: u16, body: Seq<char> },
    Decode { detail: Seq<char> },
}

impl View for RequestError {
    type V = RequestErrorView;

    open spec fn view(&self) -> RequestErrorView {
        match self {
            RequestError::Transport { retries, detail } => RequestErrorView::Transport {
                retries: *retries,
                detail: detail@,
            },
            RequestError::RateLimited { retries } => RequestErrorView::RateLimited {
                retries: *retries,
            },
            RequestError::Api { status, body } => RequestErrorView::Api {
                status: *status,
                body: body@,
            },
            RequestError::Decode { detail } => RequestErrorView::Decode { detail: detail@ },
        }
    }
}

impl RequestErrorView {
    /// The message shown to the caller.
    pub open spec fn message(self) -> Seq<char> {
        match self {
            RequestErrorView::Transport { retries, detail } => "Request failed after "@
                + decimal_digits(retries as nat) + " retries: "@ + detail,
            RequestErrorView::RateLimited { retries } => "Rate limit exceeded after "@
                + decimal_digits(retries as nat) + " retries"@,
            RequestErrorView::Api { status, body } => "API error: "@ + status_text(status)
                + " - "@ + body,
            RequestErrorView::Decode { detail } => "Failed to parse response: "@ + detail,
        }
    }
}

impl RequestError {
    /// The message shown to the caller.
    pub fn message(&self) -> (text: String)
        ensures
            text@ == self@.message(),
    {
        match self {
            RequestError::Transport { retries, detail } => {
                let mut text = String::from_str("Request failed after ");
                let count = u64_to_decimal(*retries as u64);
                text.append(count.as_str());
                text.append(" retries: ");
                text.append(detail.as_str());
                text
            },
            RequestError::RateLimited { retries } => {
                let mut text = String::from_str("Rate limit exceeded after ");
                let count = u64_to_decimal(*retries as u64);
                text.append(count.as_str());
                text.append(" retries");
                text
            },
            RequestError::Api { status, body } => {
                let shown = render_status(*status);
                api_error_text(shown.as_str(), body.as_str())
            },
            RequestError::Decode { detail } => {
                let mut text = String::from_str("Failed to parse response: ");
                text.append(detail.as_str());
                text
            },
        }
    }
}

/// The failure for a 2xx response whose body did not decode; `detail` is
/// the decoder's complaint.
pub fn decode_failure(detail: String) -> (error: RequestError)
    ensures
        error@ == (RequestErrorView::Decode { detail: detail@ }),
{
    RequestError::Decode { detail }
}

/// The body text that an API error carries: the text read, or the
/// stand-in where reading failed.
pub open spec fn error_body(text: Option<Seq<char>>) -> Seq<char> {
    match text {
        Some(body) => body,
        None => unreadable_body(),
    }
}

/// The failure for a response with a status other than 2xx and 429; `text`
/// is the body as far as it could be read.
pub fn api_failure(status: u16, text: Option<String>) -> (error: RequestError)
    ensures
        error@ == (RequestErrorView::Api { status, body: error_body(optional_text(text)) }),
{
    match text {
        Some(body) => RequestError::Api { status, body },
        None => RequestError::Api { status, body: String::from_str("Unknown error") },
    }
}

/// What sending one attempt gave.
#[derive(Debug)]
pub enum SendOutcome {
    /// No response: connection refused, name not resolved, timeout.
    Failed { detail: String },
    /// A response with this status.
    Answered { status: u16 },
}

/// A `SendOutcome` with its text as a character sequence.
pub enum SendOutcomeView {
    Failed { detail: Seq<char> },
    Answered { status: u16 },
}

impl View for SendOutcome {
    type V = SendOutcomeView;

    open spec fn view(&self) -> SendOutcomeView {
        match self {
            SendOutcome::Failed { detail } => SendOutcomeView::Failed { detail: detail@ },
            SendOutcome::Answered { status } => SendOutcomeView::Answered { status: *status },
        }
    }
}

/// What the caller does after an attempt.
#[derive(Debug)]
pub enum NextStep {
    /// Decode the body into the expected shape; the call ends with the
    /// value, or with `decode_failure`.
    Decode,
    /// Read the body as text; the call ends with `api_failure`.
    ReadError,
    /// Sleep for `delay_ms` milliseconds, then send the same request again
    /// as the next attempt.
    Retry { delay_ms: u64 },
    /// The call ends with this failure.
    Fail(RequestError),
}

/// A `NextStep` over unbounded numbers and character sequences.
pub enum NextStepView {
    Decode,
    ReadError,
    Retry { delay_ms: nat },
    Fail(RequestErrorView),
}

impl View for NextStep {
    type V = NextStepView;

    open spec fn view(&self) -> NextStepView {
        match self {
            NextStep::Decode => NextStepView::Decode,
            NextStep::ReadError => NextStepView::ReadError,
            NextStep::Retry { delay_ms } => NextStepView::Retry { delay_ms: *delay_ms as nat },
            NextStep::Fail(error) => NextStepView::Fail(error@),
        }
    }
}

/// Doubles `base_ms` once per attempt already made, as long as the result
/// fits in 64 bits.
pub fn backoff_delay(base_ms: u64, attempt: u32) -> (delay: Option<u64>)
    ensures
        match delay {
            Some(ms) => ms == backoff_millis(base_ms as nat, attempt as nat),
            None => backoff_millis(base_ms as nat, attempt as nat) > u64::MAX,
        },
{
    proof {
        lemma2_to64();
    }
    if base_ms == 0 {
        assert(backoff_millis(0, attempt as nat) == 0) by (nonlinear_arith)
            requires
                backoff_millis(0, attempt as nat) == 0 * pow2(attempt as nat),
        ;
        return Some(0);
    }
    let mut delay: u64 = base_ms;
    let mut doubled: u32 = 0;
    while doubled < attempt
        invariant
            doubled <= attempt,
            base_ms > 0,
            delay == backoff_millis(base_ms as nat, doubled as nat),
        decreases attempt - doubled,
    {
        proof {
            lemma_pow2_unfold((doubled + 1) as nat);
            assert(backoff_millis(base_ms as nat, (doubled + 1) as nat) == 2 * backoff_millis(
                base_ms as nat,
                doubled as nat,
            )) by (nonlinear_arith)
                requires
                    pow2((doubled + 1) as nat) == 2 * pow2(doubled as nat),
            ;
        }
        match delay.checked_mul(2) {
            Some(next) => {
                delay = next;
                doubled = doubled + 1;
            },
            None => {
                proof {
                    lemma_backoff_grows(base_ms as nat, (doubled + 1) as nat, attempt as nat);
                }
                return None;
            },
        }
    }
    Some(delay)
}

/// A later attempt never has a shorter backoff.
pub proof fn lemma_backoff_grows(base_ms: nat, earlier: nat, later: nat)
    requires
        earlier <= later,
    ensures
        backoff_millis(base_ms, earlier) <= backoff_millis(base_ms, later),
    decreases later - earlier,
{
    if earlier < later {
        lemma_backoff_grows(base_ms, earlier, (later - 1) as nat);
        lemma_pow2_unfold(later);
        assert(base_ms * pow2((later - 1) as nat) <= base_ms * pow2(later)) by (nonlinear_arith)
            requires
                pow2(later) == 2 * pow2((later - 1) as nat),
        ;
    }
}

/// How far the backoff reaches in 64 bits: the delay after a transport
/// failure fits up to attempt 55, the delay after a rate limit up to
/// attempt 54, and neither fits after that.
pub proof fn law_reach_of_the_backoff(attempt: nat)
    ensures
        backoff_millis(TRANSPORT_BACKOFF_MS as nat, attempt) <= u64::MAX <==> attempt <= 55,
        backoff_millis(RATE_LIMIT_BACKOFF_MS as nat, attempt) <= u64::MAX <==> attempt <= 54,
{
    lemma2_to64_rest();
    if attempt <= 55 {
        lemma_backoff_grows(TRANSPORT_BACKOFF_MS as nat, attempt, 55);
    } else {
        lemma_backoff_grows(TRANSPORT_BACKOFF_MS as nat, 56, attempt);
    }
    if attempt <= 54 {
        lemma_backoff_grows(RATE_LIMIT_BACKOFF_MS as nat, attempt, 54);
    } else {
        lemma_backoff_grows(RATE_LIMIT_BACKOFF_MS as nat, 55, attempt);
    }
}

/// How the outcome of one attempt counts, whatever the number of the attempt.
#[derive(Debug, Clone, Copy, PartialEq, Eq, Structural)]
pub enum OutcomeClass {
    /// A 2xx response: the body is to be decoded.
    Success,
    /// No response, or a transient status: worth another attempt while the
    /// budget lasts.
    Retryable,
    /// Any other status: the call ends at once.
    Terminal,
}

/// The class of an outcome.
pub open spec fn class_of(outcome: SendOutcomeView) -> OutcomeClass {
    match outcome {
        SendOutcomeView::Failed { .. } => OutcomeClass::Retryable,
        SendOutcomeView::Answered { status } => if is_success(status) {
            OutcomeClass::Success
        } else if is_transient_status(status) {
            OutcomeClass::Retryable
        } else {
            OutcomeClass::Terminal
        },
    }
}

/// The base of the backoff after an outcome that is worth another attempt:
/// 500 ms where there was no response, 1000 ms where the server answered.
pub open spec fn backoff_base(outcome: SendOutcomeView) -> nat {
    match outcome {
        SendOutcomeView::Failed { .. } => TRANSPORT_BACKOFF_MS as nat,
        SendOutcomeView::Answered { .. } => RATE_LIMIT_BACKOFF_MS as nat,
    }
}

/// The failure of a call whose last allowed attempt gave `outcome` and is
/// not sent again: the transport's message where there was no response,
/// the rate limit where the server answered; both carry the budget.
pub open spec fn exhaustion(retries: u32, outcome: SendOutcomeView) -> RequestErrorView {
    match outcome {
        SendOutcomeView::Failed { detail } => RequestErrorView::Transport { retries, detail },
        SendOutcomeView::Answered { .. } => RequestErrorView::RateLimited { retries },
    }
}

/// Tells how an outcome counts.
pub fn classify(outcome: &SendOutcome) -> (class: OutcomeClass)
    ensures
        class == class_of(outcome@),
{
    match outcome {
        SendOutcome::Failed { .. } => OutcomeClass::Retryable,
        SendOutcome::Answered { status } => {
            if 200 <= *status && *status < 300 {
                OutcomeClass::Success
            } else if *status == TOO_MANY_REQUESTS {
                OutcomeClass::Retryable
            } else {
                OutcomeClass::Terminal
            }
        },
    }
}

/// The retry budget of a client: how many times a call may send again
/// after its first attempt.
#[derive(Clone, Copy, Debug)]
pub struct RetryPolicy {
    pub max_retries: u32,
}

impl RetryPolicy {
    /// A policy that allows `max_retries` further attempts after the first.
    pub fn new(max_retries: u32) -> (policy: RetryPolicy)
        ensures
            policy.max_retries == max_retries,
    {
        RetryPolicy { max_retries }
    }

    /// Attempt number `attempt` is the last one that the budget allows.
    pub open spec fn is_last_attempt(self, attempt: nat) -> bool {
        attempt >= self.max_retries
    }

    /// The decision after attempt number `attempt` gave `outcome`: decode a
    /// success, read the body of a terminal failure, and for a retryable
    /// failure back off and send again, unless the attempt was the last.
    pub open spec fn next_step(self, attempt: nat, outcome: SendOutcomeView) -> NextStepView {
        match class_of(outcome) {
            OutcomeClass::Success => NextStepView::Decode,
            OutcomeClass::Terminal => NextStepView::ReadError,
            OutcomeClass::Retryable => if self.is_last_attempt(attempt) {
                NextStepView::Fail(exhaustion(self.max_retries, outcome))
            } else {
                NextStepView::Retry { delay_ms: backoff_millis(backoff_base(outcome), attempt) }
            },
        }
    }

    /// Where the decision is to retry, the delay fits in 64 bits.
    pub open spec fn delay_fits(self, attempt: nat, outcome: SendOutcomeView) -> bool {
        match self.next_step(attempt, outcome) {
            NextStepView::Retry { delay_ms } => delay_ms <= u64::MAX,
            _ => true,
        }
    }

    /// Decides what follows attempt number `attempt`, which gave `outcome`;
    /// `None` where the decision is to retry after a delay of more
    /// milliseconds than 64 bits hold.
    pub fn checked_after_send(&self, attempt: u32, outcome: SendOutcome) -> (next: Option<
        NextStep,
    >)
        ensures
            match next {
                Some(step) => self.delay_fits(attempt as nat, outcome@) && step@
                    == self.next_step(attempt as nat, outcome@),
                None => !self.delay_fits(attempt as nat, outcome@),
            },
    {
        match classify(&outcome) {
            OutcomeClass::Success => Some(NextStep::Decode),
            OutcomeClass::Terminal => Some(NextStep::ReadError),
            OutcomeClass::Retryable => {
                if attempt >= self.max_retries {
                    let error = match outcome {
                        SendOutcome::Failed { detail } => RequestError::Transport {
                            retries: self.max_retries,
                            detail,
                        },
                        SendOutcome::Answered { .. } => RequestError::RateLimited {
                            retries: self.max_retries,
                        },
                    };
                    Some(NextStep::Fail(error))
                } else {
                    let base_ms = match outcome {
                        SendOutcome::Failed { .. } => TRANSPORT_BACKOFF_MS,
                        SendOutcome::Answered { .. } => RATE_LIMIT_BACKOFF_MS,
                    };
                    match backoff_delay(base_ms, attempt) {
                        Some(delay_ms) => Some(NextStep::Retry { delay_ms }),
                        None => None,
                    }
                }
            },
        }
    }

    /// Decides what follows attempt number `attempt`, which gave `outcome`.
    pub fn after_send(&self, attempt: u32, outcome: SendOutcome) -> (next: NextStep)
        requires
            self.delay_fits(attempt as nat, outcome@),
        ensures
            next@ == self.next_step(attempt as nat, outcome@),
    {
        match self.checked_after_send(attempt, outcome) {
            Some(step) => step,
            None => unreached(),
        }
    }
}

/// The decision follows the class of the outcome: a success is decoded and
/// a terminal failure is read at any attempt, with any budget; a retryable
/// failure is sent again exactly while the attempt is not the last, and
/// then with the backoff of that attempt.
pub proof fn law_steps_follow_the_class(
    policy: RetryPolicy,
    attempt: nat,
    outcome: SendOutcomeView,
)
    ensures
        class_of(outcome) is Success <==> policy.next_step(attempt, outcome) is Decode,
        class_of(outcome) is Terminal <==> policy.next_step(attempt, outcome) is ReadError,
        class_of(outcome) is Retryable && attempt < policy.max_retries <==> policy.next_step(
            attempt,
            outcome,
        ) is Retry,
        class_of(outcome) is Retryable && attempt >= policy.max_retries <==> policy.next_step(
            attempt,
            outcome,
        ) is Fail,
        policy.next_step(attempt, outcome) is Retry ==> policy.next_step(
            attempt,
            outcome,
        )->delay_ms == backoff_base(outcome) * pow2(attempt),
        outcome is Answered ==> (class_of(outcome) is Retryable <==> outcome->status == 429),
{
}

} // verus!
