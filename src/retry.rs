use vstd::prelude::*;

verus! {

/// How often a fallible operation is attempted, and how long to wait between attempts.
#[derive(Debug, Clone, Copy, PartialEq, Eq, Structural)]
pub struct RetryPolicy {
    pub max_attempts: u32,
    pub delay_ms: u32,
}

/// What to do after an attempt.
#[derive(Debug)]
pub enum RetryStep<T, E> {
    /// Wait `delay_ms` milliseconds, then attempt again.
    Again { delay_ms: u32 },
    /// Stop with this result.
    Done(Result<T, E>),
}

/// The step after the attempt numbered `made` (counting from 1) ended with `outcome`.
pub open spec fn next_step<T, E>(policy: RetryPolicy, made: int, outcome: Result<T, E>) -> RetryStep<T, E> {
    match outcome {
        Ok(v) => RetryStep::Done(Ok(v)),
        Err(e) => if made >= policy.max_attempts {
            RetryStep::Done(Err(e))
        } else {
            RetryStep::Again { delay_ms: policy.delay_ms }
        },
    }
}

/// The result of attempting while the outcomes `outcomes[i..]` come in, attempt
/// `i + 1` first; `None` when the outcomes run out before the policy stops.
pub open spec fn run_from<T, E>(policy: RetryPolicy, outcomes: Seq<Result<T, E>>, i: nat) -> Option<
    Result<T, E>,
>
    decreases outcomes.len() - i,
{
    if i >= outcomes.len() {
        None
    } else {
        match next_step(policy, i + 1 as int, outcomes[i as int]) {
            RetryStep::Done(r) => Some(r),
            RetryStep::Again { .. } => run_from(policy, outcomes, i + 1),
        }
    }
}

impl RetryPolicy {
    /// Number of attempts of every retried operation.
    pub const ATTEMPTS: u32 = 3;

    /// Discovery of a device at start-up: three attempts, one second apart.
    pub fn device_discovery() -> (r: Self)
        ensures
            r.max_attempts == 3,
            r.delay_ms == 1000,
    {
        RetryPolicy { max_attempts: Self::ATTEMPTS, delay_ms: 1000 }
    }

    /// A read within a sampling cycle: three attempts, back to back.
    pub fn cycle_read() -> (r: Self)
        ensures
            r.max_attempts == 3,
            r.delay_ms == 0,
    {
        RetryPolicy { max_attempts: Self::ATTEMPTS, delay_ms: 0 }
    }

    /// Decides what follows attempt number `made` (counting from 1), which ended
    /// with `outcome`: a success stops with its value, a failure is retried after
    /// the delay until the last attempt, whose failure is returned.
    pub fn step<T, E>(&self, made: u32, outcome: Result<T, E>) -> (r: RetryStep<T, E>)
        requires
            1 <= made <= self.max_attempts,
        ensures
            r == next_step(*self, made as int, outcome),
    {
        match outcome {
            Ok(v) => RetryStep::Done(Ok(v)),
            Err(e) => if made >= self.max_attempts {
                RetryStep::Done(Err(e))
            } else {
                RetryStep::Again { delay_ms: self.delay_ms }
            },
        }
    }
}

proof fn lemma_run_first_success<T, E>(
    policy: RetryPolicy,
    outcomes: Seq<Result<T, E>>,
    i: nat,
    k: nat,
)
    requires
        i <= k < policy.max_attempts,
        k < outcomes.len(),
        outcomes[k as int] is Ok,
        forall|j: int| i <= j < k ==> outcomes[j] is Err,
    ensures
        run_from(policy, outcomes, i) == Some(outcomes[k as int]),
    decreases k - i,
{
    if i < k {
        lemma_run_first_success(policy, outcomes, i + 1, k);
    }
}

proof fn lemma_run_all_failed<T, E>(policy: RetryPolicy, outcomes: Seq<Result<T, E>>, i: nat)
    requires
        1 <= policy.max_attempts <= outcomes.len(),
        i < policy.max_attempts,
        forall|j: int| i <= j < policy.max_attempts ==> outcomes[j] is Err,
    ensures
        run_from(policy, outcomes, i) == Some(outcomes[policy.max_attempts - 1]),
    decreases policy.max_attempts - i,
{
    if i + 1 < policy.max_attempts {
        lemma_run_all_failed(policy, outcomes, i + 1);
    }
}

/// Driving a policy of `n >= 1` attempts over the outcomes of successive attempts
/// yields the first success among the first `n` attempts, and when all `n` failed,
/// the failure of the last one.
pub proof fn lemma_retry_outcome<T, E>(policy: RetryPolicy, outcomes: Seq<Result<T, E>>)
    requires
        1 <= policy.max_attempts <= outcomes.len(),
    ensures
        forall|k: int|
            0 <= k < policy.max_attempts && outcomes[k] is Ok && (forall|j: int|
                0 <= j < k ==> outcomes[j] is Err) ==> run_from(policy, outcomes, 0) == Some(
                outcomes[k],
            ),
        (forall|j: int| 0 <= j < policy.max_attempts ==> outcomes[j] is Err) ==> run_from(
            policy,
            outcomes,
            0,
        ) == Some(outcomes[policy.max_attempts - 1]),
{
    assert forall|k: int|
        0 <= k < policy.max_attempts && outcomes[k] is Ok && (forall|j: int|
            0 <= j < k ==> outcomes[j] is Err) implies run_from(policy, outcomes, 0) == Some(
        outcomes[k],
    ) by {
        lemma_run_first_success(policy, outcomes, 0, k as nat);
    }
    if forall|j: int| 0 <= j < policy.max_attempts ==> outcomes[j] is Err {
        lemma_run_all_failed(policy, outcomes, 0);
    }
}

} // verus!
