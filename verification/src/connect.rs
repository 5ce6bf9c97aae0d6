//! Bounded-retry connection policy with exponential backoff.
//!
//! One connect cycle makes at most [`MAX_CONNECTION_ATTEMPTS`] attempts.
//! After the failed attempt with zero-based index `i` the caller waits
//! `2^i` seconds before the next one; when the budget is spent the cycle
//! reports exhaustion carrying the last observed error. An outer loop may
//! then wait [`RECONNECT_DELAY_SECS`] seconds and start a fresh cycle.

use vstd::prelude::*;
use vstd::arithmetic::power2::{pow2, lemma2_to64, lemma_pow2_unfold};

verus! {

/// Greatest number of connect attempts in one bounded cycle.
pub const MAX_CONNECTION_ATTEMPTS: usize = 5;

/// Delay before a fresh bounded cycle once one has been exhausted.
pub const RECONNECT_DELAY_SECS: u64 = 1;

/// Seconds waited after the failed attempt with zero-based index `i`:
/// pure exponential backoff, starting at one second and doubling.
pub open spec fn backoff_secs(i: nat) -> nat {
    pow2(i)
}

/// Seconds waited in total across the first `k` failed attempts.
pub open spec fn total_backoff_secs(k: nat) -> nat
    decreases k,
{
    if k == 0 {
        0
    } else {
        total_backoff_secs((k - 1) as nat) + backoff_secs((k - 1) as nat)
    }
}

/// Backoff monotonicity: across `k` failed attempts the total waited time
/// equals `2^0 + 2^1 + ... + 2^(k-1)`, that is `2^k - 1`, seconds.
pub proof fn lemma_total_backoff_closed_form(k: nat)
    ensures
        total_backoff_secs(k) == pow2(k) - 1,
    decreases k,
{
    if k == 0 {
        lemma2_to64();
    } else {
        lemma_total_backoff_closed_form((k - 1) as nat);
        lemma_pow2_unfold(k);
    }
}

/// One bounded connect cycle: counts failed attempts, remembers the last
/// error observed, and hands out the delay to wait after each failure.
pub struct ConnectManager {
    pub attempts_failed: usize,
    pub waited_secs: u64,
    pub last_error: Option<String>,
}

impl ConnectManager {
    /// The cycle never exceeds its attempt budget, its waited total is
    /// exactly the exponential series, and an error is held as soon as
    /// an attempt has failed.
    pub open spec fn wf(self) -> bool {
        &&& self.attempts_failed <= MAX_CONNECTION_ATTEMPTS
        &&& self.waited_secs == total_backoff_secs(self.attempts_failed as nat)
        &&& (self.last_error is Some <==> self.attempts_failed > 0)
    }

    /// A fresh cycle: no attempt made, nothing waited, no error seen.
    pub fn new() -> (m: ConnectManager)
        ensures
            m.wf(),
            m.attempts_failed == 0,
            m.waited_secs == 0,
            m.last_error is None,
    {
        ConnectManager { attempts_failed: 0, waited_secs: 0, last_error: None }
    }

    /// Whether the attempt budget still allows another connect attempt.
    pub fn can_attempt(&self) -> (r: bool)
        ensures
            r == (self.attempts_failed < MAX_CONNECTION_ATTEMPTS),
    {
        self.attempts_failed < MAX_CONNECTION_ATTEMPTS
    }

    /// Record one failed attempt (socket creation or connect alike) and
    /// return the backoff delay, in seconds, to wait before the next.
    pub fn fail_attempt(&mut self, error: String) -> (delay: u64)
        requires
            old(self).wf(),
            old(self).attempts_failed < MAX_CONNECTION_ATTEMPTS,
        ensures
            final(self).wf(),
            final(self).attempts_failed == old(self).attempts_failed + 1,
            delay == backoff_secs(old(self).attempts_failed as nat),
            final(self).waited_secs == old(self).waited_secs + delay,
            final(self).last_error matches Some(m) && m@ == error@,
    {
        let delay: u64 = backoff_delay(self.attempts_failed);
        proof {
            lemma_total_backoff_closed_form((self.attempts_failed + 1) as nat);
            lemma_total_backoff_closed_form(self.attempts_failed as nat);
            lemma2_to64();
        }
        self.waited_secs = self.waited_secs + delay;
        self.attempts_failed = self.attempts_failed + 1;
        self.last_error = Some(error);
        delay
    }

    /// The cause carried by the exhaustion report: the last error observed.
    pub fn into_error(self) -> (r: String)
        requires
            self.wf(),
            self.attempts_failed >= MAX_CONNECTION_ATTEMPTS,
        ensures
            self.last_error matches Some(m) && r@ == m@,
    {
        self.last_error.unwrap()
    }
}

/// The backoff delay after the failed attempt with zero-based index
/// `attempt`: `2^attempt` seconds.
pub fn backoff_delay(attempt: usize) -> (d: u64)
    requires
        attempt < MAX_CONNECTION_ATTEMPTS,
    ensures
        d == backoff_secs(attempt as nat),
{
    proof {
        lemma2_to64();
    }
    if attempt == 0 {
        1
    } else if attempt == 1 {
        2
    } else if attempt == 2 {
        4
    } else if attempt == 3 {
        8
    } else {
        16
    }
}

} // verus!
