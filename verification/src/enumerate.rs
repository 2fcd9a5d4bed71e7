//! Growth of the identifier buffer during process enumeration.
//!
//! The host is asked to fill a buffer with the identifiers of every live
//! process and to report how many identifier slots it used. A report that
//! exactly fills the buffer may mean the buffer was too small, so the plan
//! doubles the capacity and retries, a bounded number of times; a non-full
//! report succeeds once the unused zero-valued slots are discarded. The
//! driver that performs the host call feeds each reply back into
//! [`EnumPlan::step`].

use vstd::prelude::*;

verus! {

/// Identifier slots the buffer holds on the first attempt.
pub const INITIAL_CAPACITY: usize = 1024;

/// How many attempts the plan makes before giving up.
pub const ENUM_ATTEMPTS: u32 = 3;

/// The capacity to request next and the attempts that remain.
#[derive(Clone, Copy, Debug, PartialEq, Eq, Structural)]
pub struct EnumPlan {
    /// Identifier slots the next request asks for.
    pub capacity: usize,
    /// Attempts left, this one included.
    pub attempts_left: u32,
}

/// What one enumeration attempt decided.
#[derive(Debug)]
pub enum EnumStep {
    /// The buffer was large enough: the live identifiers, zero slots discarded.
    Done(Vec<u32>),
    /// The buffer may have been too small: retry with the doubled capacity.
    Retry(EnumPlan),
    /// Every attempt saw a full buffer: systemic enumeration failure.
    Failed,
}

/// How many identifier slots a host with `live` processes fills into a
/// buffer of `capacity` slots: every live process, as far as the buffer
/// holds them.
pub open spec fn host_reply(live: nat, capacity: nat) -> nat {
    if live < capacity {
        live
    } else {
        capacity
    }
}

/// The capacity at which the growth protocol, doubling on every full reply,
/// first observes a non-full buffer, if an attempt is left for it.
pub open spec fn run_capacity(live: nat, capacity: nat, attempts: nat) -> Option<nat>
    decreases attempts,
{
    if attempts == 0 {
        None
    } else if host_reply(live, capacity) != capacity {
        Some(capacity)
    } else {
        run_capacity(live, capacity * 2, (attempts - 1) as nat)
    }
}

impl EnumPlan {
    /// The plan of the first attempt.
    pub fn new() -> (r: EnumPlan)
        ensures
            r == (EnumPlan { capacity: INITIAL_CAPACITY, attempts_left: ENUM_ATTEMPTS }),
    {
        EnumPlan { capacity: INITIAL_CAPACITY, attempts_left: ENUM_ATTEMPTS }
    }

    /// Decides what one host reply means: `filled` is the buffer the host
    /// filled and `reported` how many of its slots the host says it used.
    ///
    /// A non-full report succeeds with the zero-valued slots discarded; a
    /// full report doubles the capacity while an attempt is left and fails
    /// the enumeration otherwise.
    pub fn step(self, filled: &Vec<u32>, reported: usize) -> (r: EnumStep)
        requires
            self.attempts_left >= 1,
            filled@.len() == self.capacity,
            self.capacity <= usize::MAX / 2,
        ensures
            reported != self.capacity ==> (r matches EnumStep::Done(ids) && ids@
                == filled@.filter(|p: u32| p != 0)),
            reported == self.capacity && self.attempts_left > 1 ==> (r matches EnumStep::Retry(p)
                && p == (EnumPlan {
                capacity: (self.capacity * 2) as usize,
                attempts_left: (self.attempts_left - 1) as u32,
            })),
            reported == self.capacity && self.attempts_left == 1 ==> (r matches EnumStep::Failed),
    {
        if reported != self.capacity {
            EnumStep::Done(discard_zero_slots(filled))
        } else if self.attempts_left > 1 {
            EnumStep::Retry(
                EnumPlan { capacity: self.capacity * 2, attempts_left: self.attempts_left - 1 },
            )
        } else {
            EnumStep::Failed
        }
    }
}

/// Keeps the nonzero identifiers of a filled buffer, in order: the zero
/// slots are the unused tail, not live processes.
pub fn discard_zero_slots(filled: &Vec<u32>) -> (r: Vec<u32>)
    ensures
        r@ == filled@.filter(|p: u32| p != 0),
{
    let mut out: Vec<u32> = Vec::new();
    let n = filled.len();
    let mut i: usize = 0;
    while i < n
        invariant
            n == filled@.len(),
            i <= n,
            out@ == filled@.take(i as int).filter(|p: u32| p != 0),
        decreases n - i,
    {
        let ghost pre = filled@.take(i as int);
        if filled[i] != 0u32 {
            out.push(filled[i]);
        }
        proof {
            reveal_with_fuel(Seq::<u32>::filter, 2);
            let post = filled@.take(i + 1 as int);
            assert(post.drop_last() =~= pre);
            assert(post.last() == filled@[i as int]);
            assert(post.filter(|p: u32| p != 0) == if filled@[i as int] != 0 {
                pre.filter(|p: u32| p != 0).push(filled@[i as int])
            } else {
                pre.filter(|p: u32| p != 0)
            });
        }
        i += 1;
    }
    proof {
        assert(filled@.take(n as int) =~= filled@);
    }
    out
}

/// The buffer-growth law: against a host with `live` processes the protocol,
/// started at the initial capacity, keeps doubling while the buffer comes
/// back full, succeeds at the first capacity that exceeds the process count,
/// and fails once the attempt bound is hit — which happens exactly when even
/// the final, largest capacity cannot exceed the process count.
pub proof fn lemma_enumeration_growth(live: nat)
    ensures
        run_capacity(live, INITIAL_CAPACITY as nat, ENUM_ATTEMPTS as nat) is Some <==> live < 4096,
        run_capacity(live, INITIAL_CAPACITY as nat, ENUM_ATTEMPTS as nat) matches Some(c) ==> (
        live < c && (c == INITIAL_CAPACITY || c / 2 <= live) && (c == 1024 || c == 2048 || c
            == 4096)),
{
    reveal_with_fuel(run_capacity, 4);
}

} // verus!
