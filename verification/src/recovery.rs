//! Retrying after a lost device.
//!
//! A device that was just lost may take a moment to come back, so recovery is
//! tried a few times with a growing pause in between. The first success ends it;
//! without one, the last failure is reported.

use itertools::Itertools;
use vstd::prelude::*;

verus! {

/// How often recovery is tried at most.
pub const MAX_ATTEMPTS: usize = 5;

/// The first success among `outcomes`, or else the last of them.
pub open spec fn first_ok_or_last<T, E>(outcomes: Seq<Result<T, E>>) -> Option<Result<T, E>>
    decreases outcomes.len(),
{
    if outcomes.len() == 0 {
        None
    } else if outcomes[0] is Ok || outcomes.len() == 1 {
        Some(outcomes[0])
    } else {
        first_ok_or_last(outcomes.drop_first())
    }
}

/// `itertools::Itertools::find_or_last`, asked for a success: the first one, or
/// the last outcome where there is none, or nothing where there is no outcome.
#[verifier::external_body]
fn find_or_last_ok<T, E>(outcomes: Vec<Result<T, E>>) -> (found: Option<Result<T, E>>)
    ensures
        found == first_ok_or_last(outcomes@),
{
    outcomes.into_iter().find_or_last(Result::is_ok)
}

/// Recovery failed every time; `last` is what it failed with in the end.
#[derive(Debug)]
pub struct RecoveryError<E> {
    pub last: E,
}

impl<E> RecoveryError<E> {
    /// The words of the error, to which `last` is the cause.
    pub fn message(&self) -> (message: String)
        ensures
            message@
                == "DirectXRenderer failed to recover from lost device after multiple attempts"@,
    {
        "DirectXRenderer failed to recover from lost device after multiple attempts".to_owned()
    }
}

/// A recovery under way: it was tried and failed some times, and is due again.
pub struct Recovery<T, E> {
    failures: Vec<Result<T, E>>,
}

/// What follows an attempt.
pub enum RecoveryStep<T, E> {
    /// Try again after a pause of `delay_ms` milliseconds.
    Retry { delay_ms: u64, recovery: Recovery<T, E> },
    /// It is over.
    Finished(Result<T, RecoveryError<E>>),
}

/// The result of a recovery whose attempts had these outcomes.
pub open spec fn recovery_result<T, E>(outcomes: Seq<Result<T, E>>) -> Result<
    T,
    RecoveryError<E>,
>
    recommends
        outcomes.len() > 0,
{
    match first_ok_or_last(outcomes)->0 {
        Ok(value) => Ok(value),
        Err(last) => Err(RecoveryError { last }),
    }
}

/// Whether recovery is over after attempts with these outcomes.
pub open spec fn is_finished<T, E>(outcomes: Seq<Result<T, E>>) -> bool {
    outcomes.len() >= MAX_ATTEMPTS || (outcomes.len() > 0 && outcomes.last() is Ok)
}

/// The pause before the attempt that follows `attempts` others, in milliseconds.
pub open spec fn pause_after(attempts: nat) -> nat {
    if attempts == 0 {
        0
    } else {
        100 + attempts * 10
    }
}

impl<T, E> View for Recovery<T, E> {
    type V = Seq<Result<T, E>>;

    /// The outcomes of the attempts so far, all of them failures.
    closed spec fn view(&self) -> Seq<Result<T, E>> {
        self.failures@
    }
}

impl<T, E> Recovery<T, E> {
    #[verifier::type_invariant]
    spec fn is_due(self) -> bool {
        &&& self.failures@.len() < MAX_ATTEMPTS
        &&& forall|i: int| 0 <= i < self.failures@.len() ==> self.failures@[i] is Err
    }

    /// A recovery that was not tried yet. Its first attempt is due at once.
    pub fn new() -> (recovery: Self)
        ensures
            recovery@ == Seq::<Result<T, E>>::empty(),
    {
        Recovery { failures: Vec::new() }
    }

    /// Takes the outcome of the attempt that was due and says what follows.
    pub fn attempted(self, outcome: Result<T, E>) -> (step: RecoveryStep<T, E>)
        ensures
            match step {
                RecoveryStep::Finished(result) => {
                    &&& is_finished(self@.push(outcome))
                    &&& result == recovery_result(self@.push(outcome))
                },
                RecoveryStep::Retry { delay_ms, recovery } => {
                    &&& !is_finished(self@.push(outcome))
                    &&& recovery@ == self@.push(outcome)
                    &&& delay_ms == pause_after(self@.len() + 1)
                },
            },
            self@.len() < MAX_ATTEMPTS,
            outcome is Ok || self@.len() + 1 == MAX_ATTEMPTS <==> step is Finished,
            match (step, outcome) {
                (RecoveryStep::Finished(result), Ok(value)) => result == Ok::<T, RecoveryError<E>>(
                    value,
                ),
                (RecoveryStep::Finished(result), Err(last)) => result == Err::<
                    T,
                    RecoveryError<E>,
                >(RecoveryError { last }),
                (RecoveryStep::Retry { delay_ms, recovery }, _) => {
                    &&& delay_ms == 100 + 10 * (self@.len() + 1)
                    &&& recovery@ == self@.push(outcome)
                },
            },
    {
        proof {
            use_type_invariant(&self);
        }
        let finished = self.failures.len() + 1 >= MAX_ATTEMPTS || outcome.is_ok();
        let mut outcomes = self.failures;
        outcomes.push(outcome);
        proof {
            first_ok_or_last_is_at(outcomes@, outcomes@.len() - 1);
        }
        if !finished {
            let delay_ms: u64 = 100 + outcomes.len() as u64 * 10;
            return RecoveryStep::Retry { delay_ms, recovery: Recovery { failures: outcomes } };
        }
        match find_or_last_ok(outcomes) {
            Some(Ok(value)) => RecoveryStep::Finished(Ok(value)),
            Some(Err(last)) => RecoveryStep::Finished(Err(RecoveryError { last })),
            None => vstd::pervasive::unreached(),
        }
    }
}

/// Where everything before position `at` failed, and `at` is a success or the
/// last position, the outcome at `at` is the one that counts.
proof fn first_ok_or_last_is_at<T, E>(outcomes: Seq<Result<T, E>>, at: int)
    requires
        0 <= at < outcomes.len(),
        outcomes[at] is Ok || at == outcomes.len() - 1,
        forall|i: int| 0 <= i < at ==> outcomes[i] is Err,
    ensures
        first_ok_or_last(outcomes) == Some(outcomes[at]),
    decreases outcomes.len(),
{
    if at > 0 {
        first_ok_or_last_is_at(outcomes.drop_first(), at - 1);
    }
}

/// How many attempts are made in all when attempts would have these outcomes and
/// `made` of them are made already.
pub open spec fn attempts_made<T, E>(outcomes: Seq<Result<T, E>>, made: nat) -> nat
    decreases outcomes.len() - made,
{
    if made >= outcomes.len() || is_finished(outcomes.take(made as int)) {
        made
    } else {
        attempts_made(outcomes, made + 1)
    }
}

/// Whether attempts have at least `n` outcomes, and the first `n` are failures.
pub open spec fn all_failed<T, E>(outcomes: Seq<Result<T, E>>, n: int) -> bool {
    &&& n <= outcomes.len()
    &&& forall|i: int| 0 <= i < n ==> outcomes[i] is Err
}

/// Whether the outcome at position `k` is the first success, and comes in time.
pub open spec fn is_first_success<T, E>(outcomes: Seq<Result<T, E>>, k: int) -> bool {
    &&& 0 <= k < MAX_ATTEMPTS
    &&& k < outcomes.len()
    &&& outcomes[k] is Ok
    &&& all_failed(outcomes, k)
}

/// Replays a recovery whose attempts have these outcomes, in order. There is no
/// result where they run out before it is over.
pub fn replay_recovery<T, E>(outcomes: Vec<Result<T, E>>) -> (result: Option<
    Result<T, RecoveryError<E>>,
>)
    ensures
        ({
            let used = outcomes@.take(attempts_made(outcomes@, 0) as int);
            result == if is_finished(used) {
                Some(recovery_result(used))
            } else {
                None
            }
        }),
        forall|k: int|
            is_first_success(outcomes@, k) ==> result == Some(
                Ok::<T, RecoveryError<E>>((#[trigger] outcomes@[k])->Ok_0),
            ),
        all_failed(outcomes@, MAX_ATTEMPTS as int) ==> result == Some(
            Err::<T, RecoveryError<E>>(
                (RecoveryError { last: outcomes@[MAX_ATTEMPTS - 1]->Err_0 }),
            ),
        ),
        outcomes@.len() < MAX_ATTEMPTS && all_failed(outcomes@, outcomes@.len() as int)
            ==> result is None,
{
    let ghost all = outcomes@;
    let ghost mut made: nat = 0;
    let mut left = outcomes;
    let mut recovery: Recovery<T, E> = Recovery::new();
    loop
        invariant
            all == outcomes@,
            made <= all.len(),
            recovery@ == all.take(made as int),
            left@ == all.skip(made as int),
            !is_finished(all.take(made as int)),
            all_failed(all, made as int),
            attempts_made(all, 0) == attempts_made(all, made),
        decreases left.len(),
    {
        if left.len() == 0 {
            return None;
        }
        let outcome = left.remove(0);
        assert(recovery@.push(outcome) =~= all.take(made as int + 1));
        assert(left@ =~= all.skip(made as int + 1));
        assert(outcome == all[made as int]);
        proof {
            made = made + 1;
        }
        match recovery.attempted(outcome) {
            RecoveryStep::Retry { delay_ms: _, recovery: next } => {
                recovery = next;
            },
            RecoveryStep::Finished(result) => {
                assert(attempts_made(all, made) == made);
                assert(forall|k: int| is_first_success(all, k) ==> k == made - 1);
                return Some(result);
            },
        }
    }
}

/// The attempts from `made` on, when those before all failed.
proof fn attempts_made_from<T, E>(outcomes: Seq<Result<T, E>>, made: nat)
    requires
        outcomes.len() >= MAX_ATTEMPTS,
        made < MAX_ATTEMPTS,
        forall|i: int| 0 <= i < made ==> outcomes[i] is Err,
    ensures
        ({
            let total = attempts_made(outcomes, made);
            &&& made < total <= MAX_ATTEMPTS
            &&& is_finished(outcomes.take(total as int))
            &&& forall|i: int| 0 <= i < total - 1 ==> outcomes[i] is Err
            &&& outcomes[total - 1] is Ok || total == MAX_ATTEMPTS
        }),
    decreases MAX_ATTEMPTS - made,
{
    assert(!is_finished(outcomes.take(made as int)));
    let next = outcomes.take(made as int + 1);
    assert(next.last() == outcomes[made as int]);
    if outcomes[made as int] is Err && made + 1 < MAX_ATTEMPTS {
        attempts_made_from(outcomes, made + 1);
    } else {
        assert(attempts_made(outcomes, made + 1) == made + 1);
    }
}

/// However the attempts would turn out, recovery makes them until the first
/// success and never more than the limit; it fails only when all of them failed,
/// with what the last one failed with; and the attempts that it spares would not
/// have changed the result.
pub proof fn recovery_stops_at_the_first_success<T, E>(outcomes: Seq<Result<T, E>>)
    requires
        outcomes.len() >= MAX_ATTEMPTS,
    ensures
        ({
            let made = attempts_made(outcomes, 0);
            let within_limit = outcomes.take(MAX_ATTEMPTS as int);
            &&& 1 <= made <= MAX_ATTEMPTS
            &&& is_finished(outcomes.take(made as int))
            &&& forall|n: int| 0 <= n < made ==> !is_finished(#[trigger] outcomes.take(n))
            &&& recovery_result(outcomes.take(made as int)) == recovery_result(within_limit)
            &&& match recovery_result(within_limit) {
                Ok(value) => {
                    &&& outcomes[made - 1] == Ok::<T, E>(value)
                    &&& forall|i: int| 0 <= i < made - 1 ==> outcomes[i] is Err
                },
                Err(error) => {
                    &&& made == MAX_ATTEMPTS
                    &&& forall|i: int| 0 <= i < MAX_ATTEMPTS ==> outcomes[i] is Err
                    &&& outcomes[MAX_ATTEMPTS - 1] == Err::<T, E>(error.last)
                },
            }
        }),
{
    attempts_made_from(outcomes, 0);
    let made = attempts_made(outcomes, 0);
    first_ok_or_last_is_at(outcomes.take(MAX_ATTEMPTS as int), made - 1);
    first_ok_or_last_is_at(outcomes.take(made as int), made - 1);
    assert forall|n: int| 0 <= n < made implies !is_finished(#[trigger] outcomes.take(n)) by {
        if n > 0 {
            assert(outcomes.take(n).last() == outcomes[n - 1]);
        }
    }
}

/// A recovery makes attempts up to the first success and no more: with one at
/// position `k`, within the limit, `k + 1` attempts are made, however many outcomes
/// there would be, and its value is the result.
pub proof fn the_first_success_is_the_result<T, E>(
    outcomes: Vec<Result<T, E>>,
    k: int,
    result: Option<Result<T, RecoveryError<E>>>,
)
    requires
        0 <= k < outcomes@.len(),
        k < MAX_ATTEMPTS,
        outcomes@[k] is Ok,
        forall|i: int| 0 <= i < k ==> outcomes@[i] is Err,
        call_ensures(replay_recovery::<T, E>, (outcomes,), result),
    ensures
        result == Some(Ok::<T, RecoveryError<E>>(outcomes@[k]->Ok_0)),
        attempts_made(outcomes@, 0) == k + 1,
{
    assert(is_first_success(outcomes@, k));
    attempts_go_on(outcomes@, 0, k as nat);
    assert(outcomes@.take(k + 1).last() == outcomes@[k]);
    assert(attempts_made(outcomes@, k as nat + 1) == k + 1);
}

/// Without a success in time a recovery is given up at the limit, with what the
/// attempt at the limit failed with; where there are fewer outcomes than that, it
/// is not over, and all of them are used.
pub proof fn failures_alone_end_at_the_limit<T, E>(
    outcomes: Vec<Result<T, E>>,
    result: Option<Result<T, RecoveryError<E>>>,
)
    requires
        forall|i: int| 0 <= i < outcomes@.len() && i < MAX_ATTEMPTS ==> outcomes@[i] is Err,
        call_ensures(replay_recovery::<T, E>, (outcomes,), result),
    ensures
        outcomes@.len() >= MAX_ATTEMPTS ==> {
            &&& result matches Some(Err(error)) && outcomes@[MAX_ATTEMPTS - 1] == Err::<T, E>(
                error.last,
            )
            &&& attempts_made(outcomes@, 0) == MAX_ATTEMPTS
        },
        outcomes@.len() < MAX_ATTEMPTS ==> {
            &&& result is None
            &&& attempts_made(outcomes@, 0) == outcomes@.len()
        },
{
    if outcomes@.len() >= MAX_ATTEMPTS {
        attempts_go_on(outcomes@, 0, (MAX_ATTEMPTS - 1) as nat);
        assert(attempts_made(outcomes@, MAX_ATTEMPTS as nat) == MAX_ATTEMPTS);
    } else if outcomes@.len() > 0 {
        attempts_go_on(outcomes@, 0, (outcomes@.len() - 1) as nat);
    }
}

/// After failures alone, fewer than the limit, the next attempt is made.
proof fn attempts_go_on<T, E>(outcomes: Seq<Result<T, E>>, made: nat, up_to: nat)
    requires
        made <= up_to < outcomes.len(),
        up_to < MAX_ATTEMPTS,
        forall|i: int| 0 <= i < up_to ==> outcomes[i] is Err,
    ensures
        attempts_made(outcomes, made) == attempts_made(outcomes, up_to + 1),
    decreases up_to - made,
{
    if made > 0 {
        assert(outcomes.take(made as int).last() == outcomes[made - 1]);
    }
    if made < up_to {
        attempts_go_on(outcomes, made + 1, up_to);
    }
}

/// One attempt after the other: a success ends the recovery with its value, the
/// last failure in time ends it with that failure, and any other failure calls for
/// a pause that is ten milliseconds longer than the one before.
pub proof fn an_attempt_ends_or_goes_on<T, E>(
    recovery: Recovery<T, E>,
    outcome: Result<T, E>,
    step: RecoveryStep<T, E>,
)
    requires
        call_ensures(Recovery::<T, E>::attempted, (recovery, outcome), step),
    ensures
        outcome matches Ok(value) ==> step == RecoveryStep::<T, E>::Finished(Ok(value)),
        outcome matches Err(last) ==> {
            let failures = recovery@.len() + 1;
            match step {
                RecoveryStep::Finished(result) => {
                    &&& failures == 5
                    &&& result == Err::<T, RecoveryError<E>>(RecoveryError { last })
                },
                RecoveryStep::Retry { delay_ms, recovery: next } => {
                    &&& failures < 5
                    &&& delay_ms == 100 + 10 * failures
                    &&& next@ == recovery@.push(outcome)
                },
            }
        },
{
}

/// Every pause is longer than the one before it.
pub proof fn pauses_grow(attempts: nat)
    ensures
        pause_after(attempts) < pause_after(attempts + 1),
{
}

} // verus!
