//! A whole call of the request engine, played against a script.
//!
//! A script lists, attempt by attempt, what the transport would answer. A
//! run walks the script under a retry policy exactly as a live call walks
//! the network: it asks the policy after every attempt, collects the
//! backoff delays instead of sleeping, and stops at the first attempt that
//! settles the call. The laws at the end of this file say what every run
//! looks like for the transports that matter.

use vstd::arithmetic::power2::{lemma2_to64, lemma_pow2_unfold, pow2};
use vstd::prelude::*;

use crate::retry::{
    api_failure, backoff_base, backoff_millis, class_of, decode_failure, error_body, is_success,
    NextStep, NextStepView, RequestError, RequestErrorView, RetryPolicy, SendOutcome,
    SendOutcomeView, RATE_LIMIT_BACKOFF_MS, TOO_MANY_REQUESTS, TRANSPORT_BACKOFF_MS,
};
use crate::text::{contains_text, decimal_digits, lemma_contains_middle, optional_text};

verus! {

/// A scripted response.
#[derive(Debug)]
pub struct Reply {
    /// The status of the response.
    pub status: u16,
    /// The decoder's complaint if the body is not JSON of the expected
    /// shape; `None` if it decodes. Consulted for 2xx only.
    pub decode_error: Option<String>,
    /// The body as text; `None` if it cannot be read. Consulted for
    /// statuses other than 2xx and 429.
    pub text: Option<String>,
}

/// What the scripted transport does on one attempt.
#[derive(Debug)]
pub enum Exchange {
    /// No response; `detail` is the transport's message.
    Unreachable { detail: String },
    /// A response.
    Replied(Reply),
}

/// A `Reply` with its texts as character sequences.
pub struct ReplyView {
    pub status: u16,
    pub decode_error: Option<Seq<char>>,
    pub text: Option<Seq<char>>,
}

/// An `Exchange` with its texts as character sequences.
pub enum ExchangeView {
    Unreachable { detail: Seq<char> },
    Replied(ReplyView),
}

impl View for Reply {
    type V = ReplyView;

    open spec fn view(&self) -> ReplyView {
        ReplyView {
            status: self.status,
            decode_error: optional_text(self.decode_error),
            text: optional_text(self.text),
        }
    }
}

impl View for Exchange {
    type V = ExchangeView;

    open spec fn view(&self) -> ExchangeView {
        match self {
            Exchange::Unreachable { detail } => ExchangeView::Unreachable { detail: detail@ },
            Exchange::Replied(reply) => ExchangeView::Replied(reply@),
        }
    }
}

impl ExchangeView {
    /// What sending reports of this exchange.
    pub open spec fn outcome(self) -> SendOutcomeView {
        match self {
            ExchangeView::Unreachable { detail } => SendOutcomeView::Failed { detail },
            ExchangeView::Replied(reply) => SendOutcomeView::Answered { status: reply.status },
        }
    }
}

impl ReplyView {
    /// How the call ends if the body of this response is decoded.
    pub open spec fn decoded(self) -> VerdictView {
        match self.decode_error {
            Some(detail) => VerdictView::Failed(RequestErrorView::Decode { detail }),
            None => VerdictView::Succeeded,
        }
    }

    /// How the call ends if the body of this response is read as an error text.
    pub open spec fn rejected(self) -> VerdictView {
        VerdictView::Failed(
            RequestErrorView::Api { status: self.status, body: error_body(self.text) },
        )
    }
}

/// The views of the exchanges of a script, in order.
pub open spec fn script_view(script: Seq<Exchange>) -> Seq<ExchangeView> {
    Seq::new(script.len(), |i: int| script[i]@)
}

/// How a run ended.
#[derive(Debug)]
pub enum Verdict {
    /// A 2xx response whose body decoded.
    Succeeded,
    /// The call failed.
    Failed(RequestError),
    /// The script ended before the call was settled.
    Unfinished,
}

/// A `Verdict` over character sequences.
pub enum VerdictView {
    Succeeded,
    Failed(RequestErrorView),
    Unfinished,
}

impl View for Verdict {
    type V = VerdictView;

    open spec fn view(&self) -> VerdictView {
        match self {
            Verdict::Succeeded => VerdictView::Succeeded,
            Verdict::Failed(error) => VerdictView::Failed(error@),
            Verdict::Unfinished => VerdictView::Unfinished,
        }
    }
}

/// The record of a run.
#[derive(Debug)]
pub struct Run {
    /// How many attempts were sent.
    pub attempts: u64,
    /// The backoff before each further attempt, in milliseconds and in order.
    pub delays: Vec<u64>,
    /// How the run ended.
    pub verdict: Verdict,
}

/// A `Run` over unbounded numbers and character sequences.
pub struct RunView {
    pub attempts: nat,
    pub delays: Seq<nat>,
    pub verdict: VerdictView,
}

/// A sequence of delays as unbounded numbers.
pub open spec fn delays_view(delays: Seq<u64>) -> Seq<nat> {
    Seq::new(delays.len(), |i: int| delays[i] as nat)
}

impl View for Run {
    type V = RunView;

    open spec fn view(&self) -> RunView {
        RunView {
            attempts: self.attempts as nat,
            delays: delays_view(self.delays@),
            verdict: self.verdict@,
        }
    }
}

impl RunView {
    /// This run with `delay_ms` slept before it began.
    pub open spec fn after_delay(self, delay_ms: nat) -> RunView {
        RunView {
            attempts: self.attempts,
            delays: seq![delay_ms] + self.delays,
            verdict: self.verdict,
        }
    }

    /// This run with all of `delays` slept before it began.
    pub open spec fn after_delays(self, delays: Seq<nat>) -> RunView {
        RunView { attempts: self.attempts, delays: delays + self.delays, verdict: self.verdict }
    }

    /// Every delay of the run fits in 64 bits.
    pub open spec fn delays_fit(self) -> bool {
        forall|i: int| 0 <= i < self.delays.len() ==> self.delays[i] <= u64::MAX
    }

    /// The time the run spends in backoff, in milliseconds.
    pub open spec fn total_delay(self) -> nat {
        sum_of(self.delays)
    }
}

/// The sum of a sequence of delays.
pub open spec fn sum_of(delays: Seq<nat>) -> nat
    decreases delays.len(),
{
    if delays.len() == 0 {
        0
    } else {
        sum_of(delays.drop_last()) + delays.last()
    }
}

/// The first `count` backoff delays for the base `base_ms`.
pub open spec fn backoff_schedule(base_ms: nat, count: nat) -> Seq<nat> {
    Seq::new(count, |i: int| backoff_millis(base_ms, i as nat))
}

impl RetryPolicy {
    /// The run that starts with attempt number `attempt` of `script`.
    pub open spec fn run_from(self, script: Seq<ExchangeView>, attempt: nat) -> RunView
        decreases script.len() - attempt,
    {
        if attempt >= script.len() {
            RunView { attempts: attempt, delays: Seq::empty(), verdict: VerdictView::Unfinished }
        } else {
            let exchange = script[attempt as int];
            match self.next_step(attempt, exchange.outcome()) {
                NextStepView::Retry { delay_ms } => self.run_from(script, attempt + 1).after_delay(
                    delay_ms,
                ),
                NextStepView::Decode => RunView {
                    attempts: attempt + 1,
                    delays: Seq::empty(),
                    verdict: exchange->Replied_0.decoded(),
                },
                NextStepView::ReadError => RunView {
                    attempts: attempt + 1,
                    delays: Seq::empty(),
                    verdict: exchange->Replied_0.rejected(),
                },
                NextStepView::Fail(error) => RunView {
                    attempts: attempt + 1,
                    delays: Seq::empty(),
                    verdict: VerdictView::Failed(error),
                },
            }
        }
    }

    /// The run of a whole call against `script`.
    pub open spec fn run(self, script: Seq<ExchangeView>) -> RunView {
        self.run_from(script, 0)
    }

    /// Plays a whole call against `script` and records what the engine does.
    pub fn replay(&self, script: &Vec<Exchange>) -> (run: Run)
        requires
            self.run(script_view(script@)).delays_fit(),
        ensures
            run@ == self.run(script_view(script@)),
    {
        let ghost model = script_view(script@);
        let mut attempt: u32 = 0;
        let mut delays: Vec<u64> = Vec::new();
        assert(self.run_from(model, 0).after_delays(delays_view(delays@)) == self.run(model)) by {
            assert(delays_view(delays@) + self.run(model).delays =~= self.run(model).delays);
        }
        loop
            invariant
                model == script_view(script@),
                self.run_from(model, attempt as nat).after_delays(delays_view(delays@))
                    == self.run(model),
                self.run_from(model, attempt as nat).delays_fit(),
            decreases script@.len() - attempt,
        {
            if attempt as usize >= script.len() {
                return Run { attempts: attempt as u64, delays, verdict: Verdict::Unfinished };
            }
            let exchange = &script[attempt as usize];
            assert(model[attempt as int] == exchange@);
            let outcome = match exchange {
                Exchange::Unreachable { detail } => SendOutcome::Failed { detail: detail.clone() },
                Exchange::Replied(reply) => SendOutcome::Answered { status: reply.status },
            };
            assert(outcome@ == exchange@.outcome());
            let ghost rest = self.run_from(model, (attempt + 1) as nat);
            proof {
                if let NextStepView::Retry { delay_ms } = self.next_step(
                    attempt as nat,
                    outcome@,
                ) {
                    let here = self.run_from(model, attempt as nat);
                    assert(here == rest.after_delay(delay_ms));
                    assert(here.delays[0] == delay_ms);
                    assert forall|i: int| 0 <= i < rest.delays.len() implies rest.delays[i]
                        <= u64::MAX by {
                        assert(here.delays[i + 1] == rest.delays[i]);
                    }
                }
            }
            let verdict = match self.after_send(attempt, outcome) {
                NextStep::Retry { delay_ms } => {
                    let ghost before = delays_view(delays@);
                    delays.push(delay_ms);
                    proof {
                        let slept = delays_view(delays@);
                        assert(slept =~= before.push(delay_ms as nat));
                        assert(slept + rest.delays =~= before + (seq![delay_ms as nat]
                            + rest.delays));
                    }
                    attempt = attempt + 1;
                    continue ;
                },
                NextStep::Decode => match exchange {
                    Exchange::Replied(reply) => match &reply.decode_error {
                        Some(detail) => Verdict::Failed(decode_failure(detail.clone())),
                        None => Verdict::Succeeded,
                    },
                    Exchange::Unreachable { .. } => unreached(),
                },
                NextStep::ReadError => match exchange {
                    Exchange::Replied(reply) => Verdict::Failed(
                        api_failure(reply.status, reply.text.clone()),
                    ),
                    Exchange::Unreachable { .. } => unreached(),
                },
                NextStep::Fail(error) => Verdict::Failed(error),
            };
            assert(delays_view(delays@) + Seq::<nat>::empty() =~= delays_view(delays@));
            return Run { attempts: attempt as u64 + 1, delays, verdict };
        }
    }
}

impl ExchangeView {
    /// The exchange is one that is worth another attempt.
    pub open spec fn is_retryable(self) -> bool {
        class_of(self.outcome()) is Retryable
    }

    /// The response is a 2xx whose body decodes.
    pub open spec fn is_good_reply(self) -> bool {
        self matches ExchangeView::Replied(reply) && is_success(reply.status)
            && reply.decode_error is None
    }
}

/// The delays slept while attempts `from` up to `upto` of `script` all ask
/// for a retry.
pub open spec fn delays_between(script: Seq<ExchangeView>, from: nat, upto: nat) -> Seq<nat> {
    Seq::new(
        (upto - from) as nat,
        |i: int| backoff_millis(backoff_base(script[from + i].outcome()), (from + i) as nat),
    )
}

/// While the budget lasts, attempts that got no response or status 429 put
/// their backoff in front of the rest of the run and change nothing else.
proof fn lemma_run_through_retries(
    policy: RetryPolicy,
    script: Seq<ExchangeView>,
    from: nat,
    upto: nat,
)
    requires
        from <= upto <= policy.max_retries,
        upto <= script.len(),
        forall|i: int| from <= i < upto ==> (#[trigger] script[i]).is_retryable(),
    ensures
        policy.run_from(script, from) == policy.run_from(script, upto).after_delays(
            delays_between(script, from, upto),
        ),
    decreases upto - from,
{
    let tail = policy.run_from(script, upto);
    if from == upto {
        assert(delays_between(script, from, upto) + tail.delays =~= tail.delays);
    } else {
        lemma_run_through_retries(policy, script, from + 1, upto);
        let first = script[from as int];
        assert(first.is_retryable());
        let delay = backoff_millis(backoff_base(first.outcome()), from);
        assert(policy.next_step(from, first.outcome()) == NextStepView::Retry { delay_ms: delay });
        assert(seq![delay] + (delays_between(script, from + 1, upto) + tail.delays)
            =~= delays_between(script, from, upto) + tail.delays);
    }
}

/// The backoff delays for one base add up to the base times one less than
/// the next power of two.
pub proof fn lemma_schedule_total(base_ms: nat, count: nat)
    ensures
        sum_of(backoff_schedule(base_ms, count)) == base_ms * (pow2(count) - 1),
    decreases count,
{
    if count == 0 {
        lemma2_to64();
        assert(base_ms * (1 - 1) == 0) by (nonlinear_arith);
    } else {
        let shorter = (count - 1) as nat;
        lemma_schedule_total(base_ms, shorter);
        assert(backoff_schedule(base_ms, count).drop_last() =~= backoff_schedule(
            base_ms,
            shorter,
        ));
        lemma_pow2_unfold(count);
        assert(base_ms * (pow2(shorter) - 1) + base_ms * pow2(shorter) == base_ms * (2 * pow2(
            shorter,
        ) - 1)) by (nonlinear_arith);
    }
}

/// A run never sends more attempts than the budget allows or the script
/// holds, it sleeps once before every attempt but the first, and each
/// sleep is the backoff that the attempt before it asked for.
pub proof fn law_run_stays_within_budget(policy: RetryPolicy, script: Seq<ExchangeView>)
    ensures
        policy.run(script).attempts <= policy.max_retries + 1,
        policy.run(script).attempts <= script.len(),
        policy.run(script).verdict is Unfinished <==> policy.run(script).delays.len()
            == policy.run(script).attempts,
        !(policy.run(script).verdict is Unfinished) ==> policy.run(script).delays.len() + 1
            == policy.run(script).attempts,
        policy.max_retries == 0 && script.len() > 0 ==> policy.run(script).attempts == 1
            && policy.run(script).delays.len() == 0,
{
    lemma_run_shape(policy, script, 0);
}

/// The shape of the run that starts at attempt `from`.
proof fn lemma_run_shape(policy: RetryPolicy, script: Seq<ExchangeView>, from: nat)
    requires
        from <= policy.max_retries,
    ensures
        from <= policy.run_from(script, from).attempts <= policy.max_retries + 1,
        policy.run_from(script, from).attempts <= script.len() || policy.run_from(
            script,
            from,
        ).attempts == from,
        policy.run_from(script, from).verdict is Unfinished ==> policy.run_from(
            script,
            from,
        ).delays.len() + from == policy.run_from(script, from).attempts,
        !(policy.run_from(script, from).verdict is Unfinished) ==> policy.run_from(
            script,
            from,
        ).delays.len() + from + 1 == policy.run_from(script, from).attempts,
        from < script.len() ==> policy.run_from(script, from).attempts > from,
    decreases script.len() - from,
{
    if from < script.len() {
        if let NextStepView::Retry { delay_ms } = policy.next_step(
            from,
            script[from as int].outcome(),
        ) {
            lemma_run_shape(policy, script, from + 1);
        }
    }
}

/// A transport that fails `failures` times, no more than the budget allows,
/// and then answers with a 2xx that decodes: the call succeeds on the next
/// attempt, and before each retry it has slept 500 ms doubled once per
/// earlier failure.
pub proof fn law_recovery_after_transport_failures(
    policy: RetryPolicy,
    script: Seq<ExchangeView>,
    failures: nat,
)
    requires
        failures <= policy.max_retries,
        failures < script.len(),
        forall|i: int| 0 <= i < failures ==> #[trigger] script[i] is Unreachable,
        script[failures as int].is_good_reply(),
    ensures
        policy.run(script).verdict is Succeeded,
        policy.run(script).attempts == failures + 1,
        policy.run(script).delays == backoff_schedule(TRANSPORT_BACKOFF_MS as nat, failures),
        policy.run(script).total_delay() == 500 * (pow2(failures) - 1),
{
    lemma_run_through_retries(policy, script, 0, failures);
    let tail = policy.run_from(script, failures);
    assert(tail.delays =~= Seq::<nat>::empty());
    assert(delays_between(script, 0, failures) + tail.delays =~= backoff_schedule(
        TRANSPORT_BACKOFF_MS as nat,
        failures,
    ));
    lemma_schedule_total(TRANSPORT_BACKOFF_MS as nat, failures);
}

/// The same for a server that answers 429 `refusals` times before the good
/// reply: the sleeps start at 1000 ms.
pub proof fn law_recovery_after_rate_limits(
    policy: RetryPolicy,
    script: Seq<ExchangeView>,
    refusals: nat,
)
    requires
        refusals <= policy.max_retries,
        refusals < script.len(),
        forall|i: int|
            0 <= i < refusals ==> (#[trigger] script[i]).outcome() == (SendOutcomeView::Answered {
                status: TOO_MANY_REQUESTS,
            }),
        script[refusals as int].is_good_reply(),
    ensures
        policy.run(script).verdict is Succeeded,
        policy.run(script).attempts == refusals + 1,
        policy.run(script).delays == backoff_schedule(RATE_LIMIT_BACKOFF_MS as nat, refusals),
        policy.run(script).total_delay() == 1000 * (pow2(refusals) - 1),
{
    assert forall|i: int| 0 <= i < refusals implies (#[trigger] script[i]).is_retryable()
        && backoff_base(script[i].outcome()) == RATE_LIMIT_BACKOFF_MS by {
        assert(script[i].outcome() == (SendOutcomeView::Answered { status: TOO_MANY_REQUESTS }));
    }
    lemma_run_through_retries(policy, script, 0, refusals);
    let tail = policy.run_from(script, refusals);
    assert(tail.delays =~= Seq::<nat>::empty());
    assert(delays_between(script, 0, refusals) + tail.delays =~= backoff_schedule(
        RATE_LIMIT_BACKOFF_MS as nat,
        refusals,
    ));
    lemma_schedule_total(RATE_LIMIT_BACKOFF_MS as nat, refusals);
}

/// A transport that never gets a response: with a budget of N retries the
/// call sends exactly N + 1 attempts, sleeps the N transport backoffs, and
/// fails with the last transport message in an error whose text holds N.
pub proof fn law_exhaustion_after_transport_failures(
    policy: RetryPolicy,
    script: Seq<ExchangeView>,
)
    requires
        policy.max_retries < script.len(),
        forall|i: int| 0 <= i <= policy.max_retries ==> #[trigger] script[i] is Unreachable,
    ensures
        policy.run(script).attempts == policy.max_retries + 1,
        policy.run(script).delays == backoff_schedule(
            TRANSPORT_BACKOFF_MS as nat,
            policy.max_retries as nat,
        ),
        policy.run(script).verdict == VerdictView::Failed(
            RequestErrorView::Transport {
                retries: policy.max_retries,
                detail: script[policy.max_retries as int]->detail,
            },
        ),
        contains_text(
            policy.run(script).verdict->Failed_0.message(),
            decimal_digits(policy.max_retries as nat),
        ),
{
    let budget = policy.max_retries as nat;
    lemma_run_through_retries(policy, script, 0, budget);
    let tail = policy.run_from(script, budget);
    assert(script[budget as int] is Unreachable);
    assert(tail.delays =~= Seq::<nat>::empty());
    assert(delays_between(script, 0, budget) + tail.delays =~= backoff_schedule(
        TRANSPORT_BACKOFF_MS as nat,
        budget,
    ));
    lemma_contains_middle(
        "Request failed after "@,
        decimal_digits(budget),
        " retries: "@ + script[budget as int]->detail,
    );
    assert("Request failed after "@ + decimal_digits(budget) + (" retries: "@
        + script[budget as int]->detail) =~= "Request failed after "@ + decimal_digits(budget)
        + " retries: "@ + script[budget as int]->detail);
}

/// A server that answers every attempt with 429: with a budget of N
/// retries the call sends exactly N + 1 attempts, sleeps the N rate-limit
/// backoffs, and fails with an error whose text holds N.
pub proof fn law_exhaustion_when_rate_limited(policy: RetryPolicy, script: Seq<ExchangeView>)
    requires
        policy.max_retries < script.len(),
        forall|i: int|
            0 <= i <= policy.max_retries ==> (#[trigger] script[i]).outcome() == (
            SendOutcomeView::Answered { status: TOO_MANY_REQUESTS }),
    ensures
        policy.run(script).attempts == policy.max_retries + 1,
        policy.run(script).delays == backoff_schedule(
            RATE_LIMIT_BACKOFF_MS as nat,
            policy.max_retries as nat,
        ),
        policy.run(script).verdict == VerdictView::Failed(
            RequestErrorView::RateLimited { retries: policy.max_retries },
        ),
        contains_text(
            policy.run(script).verdict->Failed_0.message(),
            decimal_digits(policy.max_retries as nat),
        ),
{
    let budget = policy.max_retries as nat;
    assert forall|i: int| 0 <= i <= budget implies (#[trigger] script[i]).is_retryable()
        && backoff_base(script[i].outcome()) == RATE_LIMIT_BACKOFF_MS by {
        assert(script[i].outcome() == (SendOutcomeView::Answered { status: TOO_MANY_REQUESTS }));
    }
    lemma_run_through_retries(policy, script, 0, budget);
    let tail = policy.run_from(script, budget);
    assert(script[budget as int].outcome() == (SendOutcomeView::Answered {
        status: TOO_MANY_REQUESTS,
    }));
    assert(tail.delays =~= Seq::<nat>::empty());
    assert(delays_between(script, 0, budget) + tail.delays =~= backoff_schedule(
        RATE_LIMIT_BACKOFF_MS as nat,
        budget,
    ));
    lemma_contains_middle("Rate limit exceeded after "@, decimal_digits(budget), " retries"@);
}

/// A first response with a status other than 2xx and 429 ends the call at
/// once: one attempt, no sleep, and an error that carries the status and
/// the body text.
pub proof fn law_rejected_status_is_terminal(policy: RetryPolicy, script: Seq<ExchangeView>)
    requires
        script.len() > 0,
        script[0] is Replied,
        !is_success(script[0]->Replied_0.status),
        script[0]->Replied_0.status != TOO_MANY_REQUESTS,
    ensures
        policy.run(script).attempts == 1,
        policy.run(script).delays.len() == 0,
        policy.run(script).verdict == VerdictView::Failed(
            RequestErrorView::Api {
                status: script[0]->Replied_0.status,
                body: error_body(script[0]->Replied_0.text),
            },
        ),
{
}

/// A first response with a 2xx status whose body does not decode ends the
/// call at once: one attempt, no sleep, and a decode error that carries the
/// decoder's complaint.
pub proof fn law_undecodable_body_is_terminal(policy: RetryPolicy, script: Seq<ExchangeView>)
    requires
        script.len() > 0,
        script[0] is Replied,
        is_success(script[0]->Replied_0.status),
        script[0]->Replied_0.decode_error is Some,
    ensures
        policy.run(script).attempts == 1,
        policy.run(script).delays.len() == 0,
        policy.run(script).verdict == VerdictView::Failed(
            RequestErrorView::Decode { detail: script[0]->Replied_0.decode_error->0 },
        ),
{
}

} // verus!
