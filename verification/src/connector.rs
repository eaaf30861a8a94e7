//! Bounded exponential-backoff schedule for outbound connections.
//!
//! An outbound connection is tried up to a fixed number of times; after each
//! failed attempt the caller sleeps `2^attempt` seconds before the next one.
//! The schedule here decides everything about the retry loop — whether to
//! try again and how long to wait — while the socket calls and the sleep
//! stay with the caller, which drives one `ConnectPlan` per connect call.

use crate::errors::AppError;
use vstd::prelude::*;

verus! {

/// The fixed ceiling on connection attempts.
pub const MAX_CONNECTION_ATTEMPTS: usize = 5;

/// The backoff after a given failed attempt, in seconds: `2^attempt`.
pub open spec fn backoff_secs(attempt: nat) -> nat
    decreases attempt,
{
    if attempt == 0 {
        1
    } else {
        2 * backoff_secs((attempt - 1) as nat)
    }
}

/// The seconds slept over a whole budget of failed attempts.
pub open spec fn total_backoff_secs(attempts: nat) -> nat
    decreases attempts,
{
    if attempts == 0 {
        0
    } else {
        total_backoff_secs((attempts - 1) as nat) + backoff_secs((attempts - 1) as nat)
    }
}

/// The backoff doubles from one second: 1, 2, 4, 8, 16.
proof fn lemma_backoff_table()
    ensures
        backoff_secs(0) == 1,
        backoff_secs(1) == 2,
        backoff_secs(2) == 4,
        backoff_secs(3) == 8,
        backoff_secs(4) == 16,
{
    reveal_with_fuel(backoff_secs, 6);
}

/// A connect call that exhausts its attempt budget has slept
/// 1 + 2 + 4 + 8 + 16 = 31 seconds in backoff before it fails.
pub proof fn lemma_backoff_budget()
    ensures
        total_backoff_secs(MAX_CONNECTION_ATTEMPTS as nat) == 31,
{
    reveal_with_fuel(backoff_secs, 6);
    reveal_with_fuel(total_backoff_secs, 6);
}

/// The backoff to sleep after the given failed attempt, in seconds.
pub fn backoff_delay_secs(attempt: usize) -> (r: u64)
    requires
        attempt < MAX_CONNECTION_ATTEMPTS,
    ensures
        r == backoff_secs(attempt as nat),
{
    proof {
        lemma_backoff_table();
    }
    if attempt == 0 {
        1
    } else if attempt == 1 {
        2
    } else if attempt == 2 {
        4
    } else if attempt == 3 {
        8
    } else {
        16
    }
}

/// The seconds a connect call sleeps in all when every attempt fails.
pub fn total_delay_secs() -> (r: u64)
    ensures
        r == total_backoff_secs(MAX_CONNECTION_ATTEMPTS as nat),
        r == 31,
{
    proof {
        lemma_backoff_budget();
    }
    let mut total: u64 = 0;
    let mut attempt: usize = 0;
    while attempt < MAX_CONNECTION_ATTEMPTS
        invariant
            0 <= attempt <= MAX_CONNECTION_ATTEMPTS,
            total == total_backoff_secs(attempt as nat),
            total <= 31,
        decreases MAX_CONNECTION_ATTEMPTS - attempt,
    {
        proof {
            lemma_backoff_table();
            reveal_with_fuel(backoff_secs, 6);
            reveal_with_fuel(total_backoff_secs, 6);
        }
        total = total + backoff_delay_secs(attempt);
        attempt += 1;
    }
    total
}

/// The retry state of one outbound connect call.
pub struct ConnectPlan {
    failures: usize,
}

impl ConnectPlan {
    /// How many attempts have failed so far.
    pub closed spec fn failures_spec(&self) -> int {
        self.failures as int
    }

    /// The failure count never passes the attempt ceiling.
    pub open spec fn wf(&self) -> bool {
        self.failures_spec() <= MAX_CONNECTION_ATTEMPTS
    }

    /// A fresh plan: no attempt made yet.
    pub fn new() -> (r: ConnectPlan)
        ensures
            r.wf(),
            r.failures_spec() == 0,
    {
        ConnectPlan { failures: 0 }
    }

    /// Whether another attempt may be made.
    pub fn should_try(&self) -> (r: bool)
        requires
            self.wf(),
        ensures
            r <==> self.failures_spec() < MAX_CONNECTION_ATTEMPTS,
    {
        self.failures < MAX_CONNECTION_ATTEMPTS
    }

    /// Record one failed attempt and say how many seconds to sleep before
    /// the next one.
    pub fn on_failure(&mut self) -> (delay: u64)
        requires
            old(self).wf(),
            old(self).failures_spec() < MAX_CONNECTION_ATTEMPTS,
        ensures
            final(self).wf(),
            final(self).failures_spec() == old(self).failures_spec() + 1,
            delay == backoff_secs(old(self).failures_spec() as nat),
    {
        let delay = backoff_delay_secs(self.failures);
        self.failures = self.failures + 1;
        delay
    }

    /// Whether the whole attempt budget has been spent; the connect call
    /// must then fail with a connection error.
    pub fn exhausted(&self) -> (r: bool)
        requires
            self.wf(),
        ensures
            r <==> self.failures_spec() == MAX_CONNECTION_ATTEMPTS,
    {
        self.failures == MAX_CONNECTION_ATTEMPTS
    }

    /// The connection error a spent plan fails with, carrying the text of
    /// the last underlying error.
    pub fn failure_error(&self, last_error: String) -> (r: AppError)
        requires
            self.wf(),
            self.failures_spec() == MAX_CONNECTION_ATTEMPTS,
        ensures
            r is Connection,
            r.text_spec() == last_error@,
    {
        AppError::Connection(last_error)
    }
}

} // verus!
