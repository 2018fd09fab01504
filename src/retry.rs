use vstd::prelude::*;
use vstd::arithmetic::power2::{pow2, lemma_pow2_unfold, lemma2_to64, lemma_pow2_strictly_increases};
use crate::error::ArcaneVaultError;

verus! {

/// How many times a statement is attempted before its last error is returned.
pub const MAX_RETRIES: u32 = 3;

/// The wait after the first failed attempt, in milliseconds.
pub const BASE_DELAY_MS: u64 = 100;

/// The longest wait between two attempts, in milliseconds.
pub const MAX_DELAY_MS: u64 = 1000;

/// The wait after failed attempt number `attempt` (counted from 1):
/// `min(BASE_DELAY_MS * 2^(attempt - 1), MAX_DELAY_MS)`.
pub open spec fn backoff_spec(attempt: nat) -> nat
    recommends
        attempt >= 1,
{
    let d = (BASE_DELAY_MS * pow2((attempt - 1) as nat)) as nat;
    if d <= MAX_DELAY_MS {
        d
    } else {
        MAX_DELAY_MS as nat
    }
}

/// Computes the capped exponential wait after failed attempt `attempt`.
pub fn backoff_delay_ms(attempt: u32) -> (r: u64)
    requires
        attempt >= 1,
    ensures
        r == backoff_spec(attempt as nat),
{
    let mut delay: u64 = BASE_DELAY_MS;
    let mut i: u32 = 1;
    proof {
        lemma2_to64();
    }
    while i < attempt && delay < MAX_DELAY_MS
        invariant
            1 <= i <= attempt,
            delay == backoff_spec(i as nat),
            delay <= MAX_DELAY_MS,
        decreases attempt - i,
    {
        proof {
            lemma_pow2_unfold(i as nat);
            let p = pow2((i - 1) as nat);
            assert(BASE_DELAY_MS * pow2(i as nat) == 2 * (BASE_DELAY_MS * p)) by (nonlinear_arith)
                requires
                    pow2(i as nat) == 2 * p,
            ;
        }
        if delay > MAX_DELAY_MS / 2 {
            delay = MAX_DELAY_MS;
        } else {
            delay = delay * 2;
        }
        i = i + 1;
    }
    proof {
        if i < attempt {
            // The cap was reached at attempt `i`; later waits stay there.
            lemma_pow2_strictly_increases((i - 1) as nat, (attempt - 1) as nat);
            let p = pow2((i - 1) as nat);
            let q = pow2((attempt - 1) as nat);
            assert(BASE_DELAY_MS * p <= BASE_DELAY_MS * q) by (nonlinear_arith)
                requires
                    p < q,
            ;
        }
    }
    delay
}

/// What the caller of a retried statement does next.
pub enum RetryStep<T> {
    /// Stop and hand this result to the caller.
    Finished(Result<T, ArcaneVaultError>),
    /// Wait this many milliseconds, then make the next attempt.
    RetryAfter(u64),
}

/// The attempts made so far on one statement.
pub struct RetryState {
    pub attempts: u32,
}

/// The decision taken after attempt number `done + 1` ended with `outcome`.
pub open spec fn step_spec<T>(done: nat, outcome: Result<T, ArcaneVaultError>) -> RetryStep<T> {
    match outcome {
        Ok(v) => RetryStep::Finished(Ok(v)),
        Err(e) => if done + 1 < MAX_RETRIES {
            RetryStep::RetryAfter(backoff_spec(done + 1) as u64)
        } else {
            RetryStep::Finished(Err(e))
        },
    }
}

/// The course of a retried statement whose attempts, from attempt `done + 1`
/// on, end with `outcomes` in turn: its result, the number of attempts made
/// in all, and the waits between them.
pub open spec fn retry_run_from<T>(done: nat, outcomes: Seq<Result<T, ArcaneVaultError>>) -> (
    Result<T, ArcaneVaultError>,
    nat,
    Seq<nat>,
)
    decreases outcomes.len(),
{
    if outcomes.len() == 0 || done >= MAX_RETRIES {
        (arbitrary(), done, Seq::empty())
    } else {
        match step_spec(done, outcomes[0]) {
            RetryStep::Finished(r) => (r, done + 1, Seq::empty()),
            RetryStep::RetryAfter(d) => {
                let rest = retry_run_from(done + 1, outcomes.drop_first());
                (rest.0, rest.1, seq![d as nat] + rest.2)
            },
        }
    }
}

/// The course of a retried statement whose attempts end with `outcomes`.
pub open spec fn retry_run<T>(outcomes: Seq<Result<T, ArcaneVaultError>>) -> (
    Result<T, ArcaneVaultError>,
    nat,
    Seq<nat>,
) {
    retry_run_from(0, outcomes)
}

impl RetryState {
    pub fn new() -> (r: Self)
        ensures
            r.attempts == 0,
    {
        RetryState { attempts: 0 }
    }

    /// Records how one attempt ended and decides what comes next: the value
    /// on success, a wait while attempts remain, else the error of this
    /// last attempt.
    pub fn record<T>(&mut self, outcome: Result<T, ArcaneVaultError>) -> (step: RetryStep<T>)
        ensures
            final(self).attempts == if old(self).attempts < MAX_RETRIES {
                old(self).attempts + 1
            } else {
                old(self).attempts as int
            },
            step == step_spec(old(self).attempts as nat, outcome),
    {
        if self.attempts < MAX_RETRIES {
            self.attempts = self.attempts + 1;
        }
        match outcome {
            Ok(v) => RetryStep::Finished(Ok(v)),
            Err(e) => {
                if self.attempts < MAX_RETRIES {
                    RetryStep::RetryAfter(backoff_delay_ms(self.attempts))
                } else {
                    RetryStep::Finished(Err(e))
                }
            },
        }
    }
}


/// The wait grows no larger than `MAX_DELAY_MS`, and from the fifth failed
/// attempt on it is exactly `MAX_DELAY_MS`.
pub proof fn lemma_backoff_capped(attempt: nat)
    requires
        attempt >= 1,
    ensures
        backoff_spec(attempt) <= MAX_DELAY_MS,
        attempt >= 5 ==> backoff_spec(attempt) == MAX_DELAY_MS,
{
    if attempt >= 5 {
        lemma2_to64();
        if attempt > 5 {
            lemma_pow2_strictly_increases(4, (attempt - 1) as nat);
        }
        let p = pow2((attempt - 1) as nat);
        assert(BASE_DELAY_MS * p >= 1600) by (nonlinear_arith)
            requires
                p >= 16,
        ;
    }
}

/// A statement that fails on every attempt before attempt `n` (for `n` up to
/// `MAX_RETRIES`) and succeeds on attempt `n` yields the value of attempt `n`
/// after exactly `n` attempts, with waits of 100 ms and then 200 ms between
/// them.
pub proof fn lemma_success_on_attempt<T>(outcomes: Seq<Result<T, ArcaneVaultError>>, n: nat)
    requires
        1 <= n <= MAX_RETRIES,
        n <= outcomes.len(),
        forall|i: int| 0 <= i < n - 1 ==> outcomes[i] is Err,
        outcomes[n - 1] is Ok,
    ensures
        retry_run(outcomes).0 == outcomes[n - 1],
        retry_run(outcomes).1 == n,
        retry_run(outcomes).2 == seq![100nat, 200nat].take(n - 1),
{
    lemma2_to64();
    assert(backoff_spec(1) == 100);
    assert(backoff_spec(2) == 200);
    reveal_with_fuel(retry_run_from, 4);
    let o1 = outcomes.drop_first();
    let o2 = o1.drop_first();
    if n == 1 {
        assert(seq![100nat, 200nat].take(0) =~= Seq::<nat>::empty());
    } else if n == 2 {
        assert(o1[0] == outcomes[1]);
        assert(seq![100nat, 200nat].take(1) =~= seq![100nat] + Seq::<nat>::empty());
    } else {
        assert(o1[0] == outcomes[1]);
        assert(o2[0] == outcomes[2]);
        assert(seq![100nat, 200nat].take(2) =~= seq![100nat] + (seq![200nat] + Seq::<nat>::empty()));
    }
}

/// A statement that fails on all `MAX_RETRIES` attempts yields the error of
/// the last attempt, not of the first, after waits of 100 ms and 200 ms.
pub proof fn lemma_all_attempts_fail<T>(outcomes: Seq<Result<T, ArcaneVaultError>>)
    requires
        outcomes.len() >= MAX_RETRIES,
        forall|i: int| 0 <= i < MAX_RETRIES ==> outcomes[i] is Err,
    ensures
        retry_run(outcomes).0 == outcomes[MAX_RETRIES - 1],
        retry_run(outcomes).1 == MAX_RETRIES,
        retry_run(outcomes).2 == seq![100nat, 200nat],
{
    lemma2_to64();
    assert(backoff_spec(1) == 100);
    assert(backoff_spec(2) == 200);
    reveal_with_fuel(retry_run_from, 4);
    let o1 = outcomes.drop_first();
    let o2 = o1.drop_first();
    assert(o1[0] == outcomes[1]);
    assert(o2[0] == outcomes[2]);
    assert(seq![100nat, 200nat] =~= seq![100nat] + (seq![200nat] + Seq::<nat>::empty()));
}


/// The check made before each attempt and before each wait: an operation
/// that its caller cancelled stops there with a cancellation error, and one
/// that was not cancelled goes on.
pub fn cancel_check(cancelled: bool) -> (r: Option<ArcaneVaultError>)
    ensures
        r is Some <==> cancelled,
        r matches Some(e) ==> e.message@ == "operation cancelled"@ && e.code is None,
{
    if cancelled {
        Some(ArcaneVaultError::cancelled())
    } else {
        None
    }
}

} // verus!
