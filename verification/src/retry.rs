//! Retry budgets and the pauses between attempts, shared by every radio
//! operation that is tried more than once.

use vstd::arithmetic::power2::{lemma2_to64, lemma_pow2_strictly_increases, lemma_pow2_unfold, pow2};
use vstd::prelude::*;

verus! {

/// How the pause after a failed attempt is chosen.
#[derive(Clone, Copy, Debug, PartialEq, Eq, Structural)]
pub enum Backoff {
    /// `2^attempt` seconds after the attempt of that number.
    Exponential,
    /// The same pause after every attempt.
    Fixed { millis: u64 },
}

/// What follows a failed attempt.
#[derive(Clone, Copy, Debug, PartialEq, Eq, Structural)]
pub enum Verdict {
    /// Pause, then try again.
    RetryAfter { millis: u64 },
    /// Pause, then report that the budget is spent.
    GiveUpAfter { millis: u64 },
    /// Report at once that the budget is spent.
    GiveUp,
}

/// An attempt budget with its backoff. Attempts are numbered from 1.
#[derive(Clone, Copy, Debug, PartialEq, Eq, Structural)]
pub struct RetryPolicy {
    pub max_attempts: u32,
    pub backoff: Backoff,
    /// Whether the pause is also taken after the last attempt has failed.
    pub pause_after_last: bool,
}

/// `1000 * 2^attempt` milliseconds, or the largest `u64` where that does not fit.
pub open spec fn exponential_millis(attempt: u32) -> u64 {
    if 1000 * pow2(attempt as nat) <= u64::MAX {
        (1000 * pow2(attempt as nat)) as u64
    } else {
        u64::MAX
    }
}

/// Computes `exponential_millis` by doubling.
pub fn exponential_delay(attempt: u32) -> (millis: u64)
    ensures
        millis == exponential_millis(attempt),
{
    if attempt > 64 {
        proof {
            lemma2_to64();
            lemma_pow2_strictly_increases(64, attempt as nat);
        }
        return u64::MAX;
    }
    let mut millis: u64 = 1000;
    let mut done: u32 = 0;
    proof {
        lemma2_to64();
    }
    while done < attempt
        invariant
            done <= attempt,
            millis == exponential_millis(done),
        decreases attempt - done,
    {
        proof {
            lemma_pow2_unfold((done + 1) as nat);
        }
        millis = if millis > u64::MAX / 2 {
            u64::MAX
        } else {
            millis * 2
        };
        done = done + 1;
    }
    millis
}

impl RetryPolicy {
    pub open spec fn spec_connect() -> RetryPolicy {
        RetryPolicy { max_attempts: 3, backoff: Backoff::Exponential, pause_after_last: true }
    }

    pub open spec fn spec_read() -> RetryPolicy {
        RetryPolicy { max_attempts: 3, backoff: Backoff::Exponential, pause_after_last: false }
    }

    pub open spec fn spec_subscribe() -> RetryPolicy {
        RetryPolicy {
            max_attempts: 3,
            backoff: Backoff::Fixed { millis: 2000 },
            pause_after_last: false,
        }
    }

    pub open spec fn spec_once() -> RetryPolicy {
        RetryPolicy { max_attempts: 1, backoff: Backoff::Fixed { millis: 0 }, pause_after_last: false }
    }

    /// Connecting: three attempts, exponential backoff, and the pause is
    /// taken after the third failure too.
    #[verifier::when_used_as_spec(spec_connect)]
    pub fn connect() -> (policy: Self)
        ensures
            policy == Self::spec_connect(),
    {
        RetryPolicy { max_attempts: 3, backoff: Backoff::Exponential, pause_after_last: true }
    }

    /// Reading: three attempts with exponential backoff between them.
    #[verifier::when_used_as_spec(spec_read)]
    pub fn read() -> (policy: Self)
        ensures
            policy == Self::spec_read(),
    {
        RetryPolicy { max_attempts: 3, backoff: Backoff::Exponential, pause_after_last: false }
    }

    /// Subscribing: three attempts, two seconds apart.
    #[verifier::when_used_as_spec(spec_subscribe)]
    pub fn subscribe() -> (policy: Self)
        ensures
            policy == Self::spec_subscribe(),
    {
        RetryPolicy {
            max_attempts: 3,
            backoff: Backoff::Fixed { millis: 2000 },
            pause_after_last: false,
        }
    }

    /// One attempt and no pause.
    #[verifier::when_used_as_spec(spec_once)]
    pub fn once() -> (policy: Self)
        ensures
            policy == Self::spec_once(),
    {
        RetryPolicy { max_attempts: 1, backoff: Backoff::Fixed { millis: 0 }, pause_after_last: false }
    }

    /// The pause that follows the failure of attempt number `attempt`.
    pub open spec fn spec_delay_millis(self, attempt: u32) -> u64 {
        match self.backoff {
            Backoff::Exponential => exponential_millis(attempt),
            Backoff::Fixed { millis } => millis,
        }
    }

    pub fn delay_millis(&self, attempt: u32) -> (millis: u64)
        ensures
            millis == self.spec_delay_millis(attempt),
    {
        match self.backoff {
            Backoff::Exponential => exponential_delay(attempt),
            Backoff::Fixed { millis } => millis,
        }
    }

    /// What follows the failure of attempt number `attempt`: another attempt
    /// while the budget lasts, the end of the operation after it.
    pub open spec fn spec_after_failure(self, attempt: u32) -> Verdict {
        if attempt < self.max_attempts {
            Verdict::RetryAfter { millis: self.spec_delay_millis(attempt) }
        } else if self.pause_after_last {
            Verdict::GiveUpAfter { millis: self.spec_delay_millis(attempt) }
        } else {
            Verdict::GiveUp
        }
    }

    pub fn after_failure(&self, attempt: u32) -> (verdict: Verdict)
        ensures
            verdict == self.spec_after_failure(attempt),
    {
        if attempt < self.max_attempts {
            Verdict::RetryAfter { millis: self.delay_millis(attempt) }
        } else if self.pause_after_last {
            Verdict::GiveUpAfter { millis: self.delay_millis(attempt) }
        } else {
            Verdict::GiveUp
        }
    }
}

/// Exponential backoff pauses two, four and eight seconds after the first,
/// second and third attempt.
pub proof fn lemma_exponential_delays()
    ensures
        exponential_millis(1) == 2000,
        exponential_millis(2) == 4000,
        exponential_millis(3) == 8000,
{
    lemma2_to64();
}

/// A policy allows another attempt exactly while fewer than `max_attempts`
/// have been made.
pub proof fn lemma_budget(policy: RetryPolicy, attempt: u32)
    ensures
        policy.spec_after_failure(attempt) is RetryAfter <==> attempt < policy.max_attempts,
{
}

} // verus!
