//! Trusted inputs and the frame lock that decides which of them count.
//!
//! A player's inputs arrive in batches over an unreliable channel. Per player
//! one number is kept, the lock: the frame of the last input that was
//! accepted. An input older than the lock is dropped; any other input is
//! accepted and moves the lock to its frame.

use crate::shared::units::Vec3;
use vstd::prelude::*;

verus! {

/// What a client reports of one of its frames: the frame's number and where
/// the player stood.
#[derive(Clone, Copy, Debug, PartialEq, Eq, Structural)]
pub struct TrustedInput {
    pub frame: u32,
    pub translation: Vec3,
}

/// The lock after `inputs` were processed in order, starting from `lock`.
pub open spec fn lock_after(lock: u32, inputs: Seq<TrustedInput>) -> u32
    decreases inputs.len(),
{
    if inputs.len() == 0 {
        lock
    } else {
        let before = lock_after(lock, inputs.drop_last());
        if inputs.last().frame < before {
            before
        } else {
            inputs.last().frame
        }
    }
}

/// Whether the input at `index` is accepted when `inputs` are processed in
/// order, starting from `lock`.
pub open spec fn is_accepted(lock: u32, inputs: Seq<TrustedInput>, index: int) -> bool {
    inputs[index].frame >= lock_after(lock, inputs.take(index))
}

/// The inputs that are accepted when `inputs` are processed in order,
/// starting from `lock`; they keep their order.
pub open spec fn accepted(lock: u32, inputs: Seq<TrustedInput>) -> Seq<TrustedInput>
    decreases inputs.len(),
{
    if inputs.len() == 0 {
        Seq::empty()
    } else {
        let earlier = accepted(lock, inputs.drop_last());
        if is_accepted(lock, inputs, inputs.len() - 1) {
            earlier.push(inputs.last())
        } else {
            earlier
        }
    }
}

/// The translations of a sequence of inputs.
pub open spec fn translations(inputs: Seq<TrustedInput>) -> Seq<Vec3> {
    inputs.map_values(|input: TrustedInput| input.translation)
}

/// The lock never moves back, and no processed frame lies beyond it: it is the
/// largest of the starting lock and all frames seen.
pub proof fn lemma_lock_is_maximum(lock: u32, inputs: Seq<TrustedInput>)
    ensures
        lock <= lock_after(lock, inputs),
        forall|i: int| 0 <= i < inputs.len() ==> (#[trigger] inputs[i]).frame <= lock_after(
            lock,
            inputs,
        ),
        lock_after(lock, inputs) == lock || exists|i: int|
            0 <= i < inputs.len() && (#[trigger] inputs[i]).frame == lock_after(lock, inputs),
    decreases inputs.len(),
{
    if inputs.len() > 0 {
        let front = inputs.drop_last();
        lemma_lock_is_maximum(lock, front);
        assert forall|i: int| 0 <= i < inputs.len() implies (#[trigger] inputs[i]).frame
            <= lock_after(lock, inputs) by {
            if i < front.len() {
                assert(inputs[i] == front[i]);
            }
        }
        if lock_after(lock, inputs) != lock {
            if inputs.last().frame < lock_after(lock, front) {
                let i = choose|i: int|
                    0 <= i < front.len() && (#[trigger] front[i]).frame == lock_after(lock, front);
                assert(inputs[i] == front[i]);
            } else {
                assert(inputs[inputs.len() - 1].frame == lock_after(lock, inputs));
            }
        }
    }
}

/// Every accepted input is one of the inputs, its frame lies between the
/// starting lock and the final lock, and the frames of the accepted inputs
/// never decrease.
pub proof fn lemma_accepted_frames_never_decrease(lock: u32, inputs: Seq<TrustedInput>)
    ensures
        accepted(lock, inputs).len() <= inputs.len(),
        forall|i: int|
            0 <= i < accepted(lock, inputs).len() ==> lock <= (#[trigger] accepted(
                lock,
                inputs,
            )[i]).frame <= lock_after(lock, inputs),
        forall|i: int, j: int|
            0 <= i <= j < accepted(lock, inputs).len() ==> (#[trigger] accepted(
                lock,
                inputs,
            )[i]).frame <= (#[trigger] accepted(lock, inputs)[j]).frame,
        accepted(lock, inputs).len() > 0 ==> accepted(lock, inputs).last().frame == lock_after(
            lock,
            inputs,
        ),
        accepted(lock, inputs).len() == 0 ==> lock_after(lock, inputs) == lock,
    decreases inputs.len(),
{
    if inputs.len() > 0 {
        let front = inputs.drop_last();
        lemma_accepted_frames_never_decrease(lock, front);
        lemma_lock_is_maximum(lock, front);
        assert(inputs.take(inputs.len() - 1) == front);
    }
}

/// Processing two batches one after the other is processing their
/// concatenation: the lock carries everything that the second batch needs to
/// know of the first.
pub proof fn lemma_batches_compose(lock: u32, first: Seq<TrustedInput>, second: Seq<TrustedInput>)
    ensures
        lock_after(lock, first + second) == lock_after(lock_after(lock, first), second),
        accepted(lock, first + second) == accepted(lock, first) + accepted(
            lock_after(lock, first),
            second,
        ),
    decreases second.len(),
{
    let middle = lock_after(lock, first);
    if second.len() == 0 {
        assert(first + second == first);
        assert(accepted(lock, first) + Seq::<TrustedInput>::empty() == accepted(lock, first));
    } else {
        let all = first + second;
        assert(all.drop_last() == first + second.drop_last());
        assert(all.last() == second.last());
        lemma_batches_compose(lock, first, second.drop_last());
        assert(all.take(all.len() - 1) == all.drop_last());
        assert(second.take(second.len() - 1) == second.drop_last());
        assert(accepted(lock, first + second) == accepted(lock, first) + accepted(middle, second));
    }
}

/// Processes one batch in order: returns the new lock and the translations of
/// the accepted inputs, oldest first.
pub fn accept_batch(lock: u32, inputs: &Vec<TrustedInput>) -> (outcome: (u32, Vec<Vec3>))
    ensures
        outcome.0 == lock_after(lock, inputs@),
        outcome.1@ == translations(accepted(lock, inputs@)),
{
    let mut current: u32 = lock;
    let mut kept: Vec<Vec3> = Vec::new();
    let mut i: usize = 0;
    while i < inputs.len()
        invariant
            i <= inputs.len(),
            current == lock_after(lock, inputs@.take(i as int)),
            kept@ == translations(accepted(lock, inputs@.take(i as int))),
        decreases inputs.len() - i,
    {
        let input = inputs[i];
        proof {
            let next = inputs@.take(i + 1);
            assert(next.drop_last() == inputs@.take(i as int));
            assert(next.take(next.len() - 1) == inputs@.take(i as int));
            assert(next.last() == input);
        }
        if input.frame >= current {
            current = input.frame;
            kept.push(input.translation);
        }
        i += 1;
    }
    proof {
        assert(inputs@.take(inputs.len() as int) == inputs@);
    }
    (current, kept)
}

} // verus!
