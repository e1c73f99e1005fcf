//! How often a layer download is tried.
use vstd::prelude::*;

verus! {

/// The number of attempts made at each layer.
pub const MAX_RETRIES: u32 = 3;

/// What follows an attempt at a layer.
#[derive(Debug, Clone, Copy, PartialEq, Eq, Structural)]
pub enum LayerStep {
    /// The layer is in place.
    Finished,
    /// Try again; this is the number of the next attempt.
    Retry(u32),
    /// Report the last failure.
    GiveUp,
}

/// What follows attempt number `attempt` (counted from 1).
pub open spec fn spec_after_attempt(attempt: int, succeeded: bool) -> LayerStep {
    if succeeded {
        LayerStep::Finished
    } else if attempt < MAX_RETRIES {
        LayerStep::Retry((attempt + 1) as u32)
    } else {
        LayerStep::GiveUp
    }
}

/// Decides what follows attempt number `attempt` at a layer.
pub fn after_attempt(attempt: u32, succeeded: bool) -> (r: LayerStep)
    requires
        1 <= attempt <= MAX_RETRIES,
    ensures
        r == spec_after_attempt(attempt as int, succeeded),
        succeeded ==> r == LayerStep::Finished,
        !succeeded && attempt < MAX_RETRIES ==> r == LayerStep::Retry((attempt + 1) as u32),
        !succeeded && attempt == MAX_RETRIES ==> r == LayerStep::GiveUp,
{
    if succeeded {
        LayerStep::Finished
    } else if attempt < MAX_RETRIES {
        LayerStep::Retry(attempt + 1)
    } else {
        LayerStep::GiveUp
    }
}

/// A successful attempt ends the work on its layer, whichever attempt it
/// was; a failed one is followed by the next attempt while attempts are
/// left, and by giving up after the last.
pub proof fn lemma_after_attempt(attempt: int, succeeded: bool)
    requires
        1 <= attempt <= MAX_RETRIES,
    ensures
        succeeded ==> spec_after_attempt(attempt, succeeded) == LayerStep::Finished,
        !succeeded && attempt < MAX_RETRIES ==> spec_after_attempt(attempt, succeeded)
            == LayerStep::Retry((attempt + 1) as u32),
        !succeeded && attempt == MAX_RETRIES ==> spec_after_attempt(attempt, succeeded)
            == LayerStep::GiveUp,
        spec_after_attempt(attempt, succeeded) is Finished <==> succeeded,
{
}

/// Of a layer whose downloads fail before attempt `k` and succeed at it,
/// exactly `k` attempts are made.
pub proof fn lemma_first_success_stops(k: int)
    requires
        1 <= k <= MAX_RETRIES,
    ensures
        attempts_made(Seq::new((MAX_RETRIES) as nat, |i: int| i + 1 >= k), 1) == k,
{
    let outcomes = Seq::new((MAX_RETRIES) as nat, |i: int| i + 1 >= k);
    assert(outcomes.drop_first() =~= Seq::new(2, |i: int| i + 2 >= k));
    assert(outcomes.drop_first().drop_first() =~= Seq::new(1, |i: int| i + 3 >= k));
    assert(outcomes.drop_first().drop_first().drop_first() =~= Seq::<bool>::empty());
    reveal_with_fuel(attempts_made, 4);
}

/// Of a layer whose downloads all fail, every one of the `MAX_RETRIES`
/// attempts is made, and the last gives up.
pub proof fn lemma_failing_layer_gives_up(outcomes: Seq<bool>)
    requires
        outcomes.len() >= MAX_RETRIES,
        forall|i: int| 0 <= i < outcomes.len() ==> !outcomes[i],
    ensures
        attempts_made(outcomes, 1) == MAX_RETRIES,
        spec_after_attempt(MAX_RETRIES as int, outcomes[MAX_RETRIES - 1]) == LayerStep::GiveUp,
{
    let o1 = outcomes.drop_first();
    let o2 = o1.drop_first();
    assert(o1[0] == outcomes[1]);
    assert(o2[0] == outcomes[2]);
    reveal_with_fuel(attempts_made, 4);
}

/// How many attempts are made when the attempts from number `attempt` on
/// succeed or fail as `outcomes` says.
pub open spec fn attempts_made(outcomes: Seq<bool>, attempt: int) -> nat
    decreases outcomes.len(),
{
    if outcomes.len() == 0 {
        0
    } else {
        match spec_after_attempt(attempt, outcomes[0]) {
            LayerStep::Retry(next) => 1 + attempts_made(outcomes.drop_first(), next as int),
            _ => 1,
        }
    }
}

/// Whatever the downloads do, a layer is attempted at most `MAX_RETRIES` times.
pub proof fn lemma_attempts_bounded(outcomes: Seq<bool>, attempt: int)
    requires
        1 <= attempt <= MAX_RETRIES,
    ensures
        attempts_made(outcomes, attempt) <= MAX_RETRIES - attempt + 1,
    decreases outcomes.len(),
{
    if outcomes.len() > 0 {
        match spec_after_attempt(attempt, outcomes[0]) {
            LayerStep::Retry(next) => lemma_attempts_bounded(outcomes.drop_first(), next as int),
            _ => {},
        }
    }
}

} // verus!
