//! When a failed attempt is tried again, and after how long.
//!
//! A failure is classed by its message alone. Cancellation goes before
//! everything else; status codes that tell of overload and words that tell
//! of a failing transport make a failure retryable. A retryable failure is
//! tried again while retries are left, after a delay that doubles with
//! every retry and carries a jitter that depends on nothing but the number
//! of the retry.

use vstd::arithmetic::power2::*;
use vstd::prelude::*;
use vstd::string::*;

use crate::llm_api::{status_failure_text, LlmError, STATUS_FAILURE_HEAD};
use crate::text::{
    contains_str, decimal, has_substring, lemma_substring_of_concat, lowercase_of, occurs_at,
    to_chars, to_lowercase,
};

verus! {

/// How a failure bears on trying again.
#[derive(Debug, Clone, Copy, PartialEq, Eq, Structural)]
pub enum FailureClass {
    /// The call was cancelled: never tried again.
    Cancelled,
    /// The failure may pass: tried again while retries are left.
    Retryable,
    /// Trying again would not help.
    Fatal,
}

/// The message names one of the status codes 429, 500, 502, 503, 504.
pub open spec fn names_retryable_status(message: Seq<char>) -> bool {
    ||| has_substring(message, "status 429"@)
    ||| has_substring(message, "status 500"@)
    ||| has_substring(message, "status 502"@)
    ||| has_substring(message, "status 503"@)
    ||| has_substring(message, "status 504"@)
}

/// The message speaks of a failure of the transport; `lowered` is the
/// message in lowercase.
pub open spec fn names_transport_failure(message: Seq<char>, lowered: Seq<char>) -> bool {
    ||| has_substring(message, "Failed to send request"@)
    ||| has_substring(lowered, "timeout"@)
    ||| has_substring(lowered, "timed out"@)
    ||| has_substring(lowered, "connection reset"@)
    ||| has_substring(lowered, "temporarily unavailable"@)
}

/// The message speaks of a cancelled call; `lowered` is the message in
/// lowercase.
pub open spec fn names_cancellation(message: Seq<char>, lowered: Seq<char>) -> bool {
    ||| has_substring(lowered, "context canceled"@)
    ||| has_substring(message, "status 499"@)
}

/// The class of a failure, read off its message alone. Cancellation goes
/// before everything else.
pub open spec fn failure_class(message: Seq<char>, lowered: Seq<char>) -> FailureClass {
    if names_cancellation(message, lowered) {
        FailureClass::Cancelled
    } else if names_retryable_status(message) || names_transport_failure(message, lowered) {
        FailureClass::Retryable
    } else {
        FailureClass::Fatal
    }
}

/// The class of a failure with the given message; `lowered` is what the
/// message is in lowercase.
pub fn classify_message(message: &str, lowered: &str) -> (class: FailureClass)
    ensures
        class == failure_class(message@, lowered@),
{
    let m = to_chars(message);
    let l = to_chars(lowered);
    if contains_str(&l, "context canceled") || contains_str(&m, "status 499") {
        return FailureClass::Cancelled;
    }
    let status = contains_str(&m, "status 429") || contains_str(&m, "status 500") || contains_str(
        &m,
        "status 502",
    ) || contains_str(&m, "status 503") || contains_str(&m, "status 504");
    let transport = contains_str(&m, "Failed to send request") || contains_str(&l, "timeout")
        || contains_str(&l, "timed out") || contains_str(&l, "connection reset") || contains_str(
        &l,
        "temporarily unavailable",
    );
    if status || transport {
        FailureClass::Retryable
    } else {
        FailureClass::Fatal
    }
}

/// The class of an error: that of its message.
pub fn classify(error: &LlmError) -> (class: FailureClass)
    ensures
        class == failure_class(error@.text(), lowercase_of(error@.text())),
{
    let message = error.message();
    let lowered = to_lowercase(message.as_str());
    classify_message(message.as_str(), lowered.as_str())
}

/// How long to wait before an attempt: whole seconds and milliseconds.
#[derive(Debug, Clone, Copy, PartialEq, Eq, Structural)]
pub struct BackoffDelay {
    pub secs: u64,
    pub millis: u32,
}

/// The delay before retry `attempt`, counted from 1: two to the power of
/// `attempt` seconds, and `attempt * 137 mod 1000` milliseconds on top.
pub open spec fn backoff(attempt: nat) -> BackoffDelay {
    BackoffDelay { secs: pow2(attempt) as u64, millis: ((attempt * 137) % 1000) as u32 }
}

/// The greatest attempt whose delay in seconds fits 64 bits.
pub const MAX_BACKOFF_ATTEMPT: u32 = 63;

/// The delay before retry `attempt`.
pub fn backoff_delay(attempt: u32) -> (delay: BackoffDelay)
    requires
        attempt <= MAX_BACKOFF_ATTEMPT,
    ensures
        delay == backoff(attempt as nat),
        delay.secs == pow2(attempt as nat),
        delay.millis == (attempt * 137) % 1000,
        delay.millis < 1000,
{
    let mut secs: u64 = 1;
    let mut i: u32 = 0;
    proof {
        lemma2_to64();
    }
    while i < attempt
        invariant
            i <= attempt <= 63,
            secs == pow2(i as nat),
        decreases attempt - i,
    {
        proof {
            lemma_pow2_unfold((i + 1) as nat);
            lemma2_to64_rest();
            if i + 1 < 63 {
                lemma_pow2_strictly_increases((i + 1) as nat, 63);
            }
        }
        secs = secs * 2;
        i = i + 1;
    }
    let millis: u32 = ((attempt as u64 * 137) % 1000) as u32;
    BackoffDelay { secs, millis }
}

/// What to do after a failed attempt.
#[derive(Debug, Clone, Copy, PartialEq, Eq, Structural)]
pub enum RetryDecision {
    /// Wait for the delay, then send the request again.
    Retry { delay: BackoffDelay },
    /// Return the error as it is.
    GiveUp,
}

/// What to do after a failure of the given class when `attempts` retries
/// were made already: retry while the failure is retryable and retries are
/// left.
pub open spec fn retry_decision(attempts: nat, max_retries: nat, class: FailureClass)
    -> RetryDecision {
    if class == FailureClass::Retryable && attempts < max_retries {
        RetryDecision::Retry { delay: backoff(attempts + 1) }
    } else {
        RetryDecision::GiveUp
    }
}

/// The retries made for one request, and the most that may be made.
#[derive(Debug, Clone, Copy)]
pub struct RetryState {
    pub attempts: u32,
    pub max_retries: u32,
}

impl RetryState {
    /// No more retries were made than are allowed.
    pub open spec fn well_formed(&self) -> bool {
        self.attempts <= self.max_retries
    }

    /// The delay of the next retry, were one granted, fits 64 bits.
    pub open spec fn can_back_off(&self) -> bool {
        self.attempts < self.max_retries ==> self.attempts < MAX_BACKOFF_ATTEMPT
    }

    /// The state before the first attempt.
    pub fn new(max_retries: u32) -> (r: RetryState)
        ensures
            r.attempts == 0,
            r.max_retries == max_retries,
            r.well_formed(),
    {
        RetryState { attempts: 0, max_retries }
    }

    /// Whether the delay of the next retry, were one granted, fits 64 bits.
    pub fn may_back_off(&self) -> (r: bool)
        ensures
            r == self.can_back_off(),
    {
        !(self.attempts < self.max_retries) || self.attempts < MAX_BACKOFF_ATTEMPT
    }

    /// Decides what follows a failure of the given class, and counts the
    /// retry where one is granted.
    pub fn on_failure_class(&mut self, class: FailureClass) -> (decision: RetryDecision)
        requires
            old(self).well_formed(),
            old(self).can_back_off(),
        ensures
            decision == retry_decision(
                old(self).attempts as nat,
                old(self).max_retries as nat,
                class,
            ),
            final(self).max_retries == old(self).max_retries,
            final(self).attempts == if decision is Retry {
                old(self).attempts + 1
            } else {
                old(self).attempts as int
            },
            final(self).well_formed(),
    {
        match class {
            FailureClass::Retryable => {
                if self.attempts < self.max_retries {
                    self.attempts = self.attempts + 1;
                    RetryDecision::Retry { delay: backoff_delay(self.attempts) }
                } else {
                    RetryDecision::GiveUp
                }
            },
            _ => RetryDecision::GiveUp,
        }
    }

    /// Decides what follows a failed attempt, and counts the retry where one
    /// is granted.
    pub fn on_failure(&mut self, error: &LlmError) -> (decision: RetryDecision)
        requires
            old(self).well_formed(),
            old(self).can_back_off(),
        ensures
            decision == retry_decision(
                old(self).attempts as nat,
                old(self).max_retries as nat,
                failure_class(error@.text(), lowercase_of(error@.text())),
            ),
            final(self).max_retries == old(self).max_retries,
            final(self).attempts == if decision is Retry {
                old(self).attempts + 1
            } else {
                old(self).attempts as int
            },
            final(self).well_formed(),
    {
        let class = classify(error);
        self.on_failure_class(class)
    }
}

/// What follows one attempt.
#[derive(Debug)]
pub enum AttemptStep {
    /// The request is done: this is its result.
    Done { result: Result<String, LlmError> },
    /// The request is to be sent again after the delay.
    Wait { delay: BackoffDelay },
}

impl RetryState {
    /// Takes the outcome of one attempt and says what follows. A success
    /// ends the request with the text it gave. A failure is answered as
    /// `retry_decision` says: with a wait before the next attempt, which is
    /// counted, or with the end of the request, whose result is then this
    /// last error, unchanged.
    pub fn after_attempt(&mut self, outcome: Result<String, LlmError>) -> (step: AttemptStep)
        requires
            old(self).well_formed(),
            old(self).can_back_off(),
        ensures
            final(self).max_retries == old(self).max_retries,
            final(self).well_formed(),
            match outcome {
                Ok(text) => {
                    &&& step == (AttemptStep::Done { result: Ok(text) })
                    &&& final(self).attempts == old(self).attempts
                },
                Err(error) => match retry_decision(
                    old(self).attempts as nat,
                    old(self).max_retries as nat,
                    failure_class(error@.text(), lowercase_of(error@.text())),
                ) {
                    RetryDecision::Retry { delay } => {
                        &&& step == (AttemptStep::Wait { delay })
                        &&& final(self).attempts == old(self).attempts + 1
                    },
                    RetryDecision::GiveUp => {
                        &&& step == (AttemptStep::Done { result: Err(error) })
                        &&& final(self).attempts == old(self).attempts
                    },
                },
            },
    {
        match outcome {
            Ok(text) => AttemptStep::Done { result: Ok(text) },
            Err(error) => match self.on_failure(&error) {
                RetryDecision::Retry { delay } => AttemptStep::Wait { delay },
                RetryDecision::GiveUp => AttemptStep::Done { result: Err(error) },
            },
        }
    }
}

// ---------------------------------------------------------------------
// What holds of retrying
// ---------------------------------------------------------------------

/// The message on a status of three digits names that status behind the
/// word `status`.
proof fn lemma_status_named(status: u16, reason: Seq<char>, body: Seq<char>)
    requires
        100 <= status <= 999,
    ensures
        has_substring(
            status_failure_text(status, reason, body),
            "status "@ + decimal(status as nat),
        ),
{
    reveal_strlit("API request failed with status ");
    reveal_strlit("status ");
    let head = STATUS_FAILURE_HEAD@;
    let word = "status "@;
    let digits = decimal(status as nat);
    let pattern = word + digits;
    let before = head.subrange(0, 24);
    let after = " "@ + reason + ": "@ + body;
    assert(head =~= before + word);
    assert(status_failure_text(status, reason, body) =~= before + pattern + after);
    assert(occurs_at(pattern, pattern, 0)) by {
        assert(pattern.subrange(0, pattern.len() as int) =~= pattern);
    }
    lemma_substring_of_concat(before, pattern, after, pattern);
}

/// A reply with status 429, 500, 502, 503 or 504 is a retryable failure,
/// whatever its reason phrase and body, unless its message speaks of
/// cancellation.
pub proof fn lemma_retryable_status(
    status: u16,
    reason: Seq<char>,
    body: Seq<char>,
    lowered: Seq<char>,
)
    requires
        status == 429 || status == 500 || status == 502 || status == 503 || status == 504,
        !names_cancellation(status_failure_text(status, reason, body), lowered),
    ensures
        failure_class(status_failure_text(status, reason, body), lowered)
            == FailureClass::Retryable,
{
    lemma_status_named(status, reason, body);
    reveal_with_fuel(decimal, 3);
    reveal_strlit("status ");
    reveal_strlit("status 429");
    reveal_strlit("status 500");
    reveal_strlit("status 502");
    reveal_strlit("status 503");
    reveal_strlit("status 504");
    let named = "status "@ + decimal(status as nat);
    if status == 429 {
        assert(named =~= "status 429"@);
    } else if status == 500 {
        assert(named =~= "status 500"@);
    } else if status == 502 {
        assert(named =~= "status 502"@);
    } else if status == 503 {
        assert(named =~= "status 503"@);
    } else {
        assert(named =~= "status 504"@);
    }
}

/// A reply with status 499 is a cancellation, whatever else its message holds.
pub proof fn lemma_status_499_is_cancellation(
    reason: Seq<char>,
    body: Seq<char>,
    lowered: Seq<char>,
)
    ensures
        failure_class(status_failure_text(499, reason, body), lowered) == FailureClass::Cancelled,
{
    lemma_status_named(499, reason, body);
    reveal_with_fuel(decimal, 3);
    reveal_strlit("status ");
    reveal_strlit("status 499");
    assert("status "@ + decimal(499) =~= "status 499"@);
}

/// A failure whose message speaks of cancellation is never tried again,
/// whatever else the message holds and however many retries are left.
pub proof fn lemma_cancellation_is_never_retried(
    message: Seq<char>,
    lowered: Seq<char>,
    attempts: nat,
    max_retries: nat,
)
    requires
        names_cancellation(message, lowered),
    ensures
        failure_class(message, lowered) == FailureClass::Cancelled,
        retry_decision(attempts, max_retries, failure_class(message, lowered))
            == RetryDecision::GiveUp,
{
}

/// The retries made in all when the attempts of one request fail with the
/// given classes in order, `attempts` retries having been made before.
pub open spec fn retries_made(attempts: nat, max_retries: nat, failures: Seq<FailureClass>) -> nat
    decreases failures.len(),
{
    if failures.len() == 0 {
        attempts
    } else if retry_decision(attempts, max_retries, failures[0]) is Retry {
        retries_made(attempts + 1, max_retries, failures.drop_first())
    } else {
        attempts
    }
}

/// However the attempts fail, no more retries are made than are allowed.
pub proof fn lemma_retries_within_limit(
    attempts: nat,
    max_retries: nat,
    failures: Seq<FailureClass>,
)
    requires
        attempts <= max_retries,
    ensures
        attempts <= retries_made(attempts, max_retries, failures) <= max_retries,
    decreases failures.len(),
{
    if failures.len() > 0 && retry_decision(attempts, max_retries, failures[0]) is Retry {
        lemma_retries_within_limit(attempts + 1, max_retries, failures.drop_first());
    }
}

/// While every attempt fails with a retryable failure, the request is tried
/// again until the allowed retries are used up: `max_retries` retries where
/// at least so many attempts fail.
pub proof fn lemma_retryable_failures_use_up_retries(
    attempts: nat,
    max_retries: nat,
    failures: Seq<FailureClass>,
)
    requires
        attempts <= max_retries,
        forall|i: int| 0 <= i < failures.len() ==> failures[i] == FailureClass::Retryable,
    ensures
        retries_made(attempts, max_retries, failures) == if attempts + failures.len()
            <= max_retries {
            attempts + failures.len()
        } else {
            max_retries
        },
    decreases failures.len(),
{
    if failures.len() > 0 && attempts < max_retries {
        let rest = failures.drop_first();
        assert forall|i: int| 0 <= i < rest.len() implies rest[i] == FailureClass::Retryable by {
            assert(rest[i] == failures[i + 1]);
        }
        lemma_retryable_failures_use_up_retries(attempts + 1, max_retries, rest);
    }
}

} // verus!
