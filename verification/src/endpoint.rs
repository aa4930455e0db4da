//! Badge minting on one endpoint.

use vstd::prelude::*;
use crate::capability::EpCap;
use crate::capability::Capability;
use crate::capability::Syscall;
use crate::capability::SyscallOp;
use crate::server::SysError;

verus! {

/// The first badge that an endpoint hands out. Smaller values are left to
/// other addressing schemes, such as the notification bits.
pub const FIRST_BADGE: usize = 100;

/// The kernel refused to mint: its error, and the slot that was allocated
/// for the capability and now has to be released.
#[derive(Clone, Copy, Debug, PartialEq, Eq, Structural)]
pub struct MintFailure {
    pub error: SysError,
    pub release: usize,
}

/// An endpoint's root capability together with the counter from which its
/// badges are taken.
pub struct Ep {
    ep: EpCap,
    cur_badge: usize,
}

impl Ep {
    #[verifier::type_invariant]
    spec fn counter_above_reserved(&self) -> bool {
        self.cur_badge >= FIRST_BADGE
    }

    /// The badge that the next successful derivation hands out.
    pub closed spec fn next_badge(&self) -> usize {
        self.cur_badge
    }

    /// The slot of the unbadged root capability.
    pub closed spec fn root_slot(&self) -> usize {
        self.ep.slot
    }

    /// The endpoint after one derivation that was given `slot`, and the badge
    /// and slot that the derivation hands out. Nothing is handed out, and the
    /// endpoint stays as it is, when no slot was given or the counter has
    /// reached the largest integer.
    pub closed spec fn derived(self, slot: Option<usize>) -> (Ep, Option<(usize, usize)>) {
        if slot is Some && self.cur_badge < usize::MAX {
            (Ep { ep: self.ep, cur_badge: (self.cur_badge + 1) as usize }, Some((self.cur_badge, slot->0)))
        } else {
            (self, None)
        }
    }

    /// Wraps the unbadged root capability. The counter starts at
    /// [`FIRST_BADGE`].
    pub fn from_unbadged(ep: EpCap) -> (this: Ep)
        ensures
            this.next_badge() == FIRST_BADGE,
            this.root_slot() == ep.slot,
    {
        Ep { ep, cur_badge: FIRST_BADGE }
    }

    /// The badge that the next successful derivation hands out.
    pub fn peek_badge(&self) -> (badge: usize)
        ensures
            badge == self.next_badge(),
            badge >= FIRST_BADGE,
    {
        proof {
            use_type_invariant(&*self);
        }
        self.cur_badge
    }

    /// The slot of the unbadged root capability.
    pub fn root(&self) -> (slot: usize)
        ensures
            slot == self.root_slot(),
    {
        self.ep.slot
    }

    /// Takes the next badge for a capability in `slot`, a slot that the caller
    /// has just obtained from the slot allocator (`None` when the allocator
    /// had none left). On success the counter moves on by one and the badge,
    /// at least [`FIRST_BADGE`], is handed out with the capability that is to
    /// carry it. Without a slot, or with the counter exhausted, nothing is
    /// handed out and the endpoint is unchanged.
    pub fn derive_badged_cap(&mut self, slot: Option<usize>) -> (out: Option<(usize, EpCap)>)
        ensures
            out is Some <==> (slot is Some && old(self).next_badge() < usize::MAX),
            out is Some ==> {
                &&& (out->0).0 == old(self).next_badge()
                &&& (out->0).0 >= FIRST_BADGE
                &&& Some((out->0).1.slot) == slot
                &&& final(self).next_badge() == old(self).next_badge() + 1
            },
            out is None ==> *final(self) == *old(self),
            final(self).root_slot() == old(self).root_slot(),
            old(self).derived(slot) == (*final(self), match out {
                Some((badge, cap)) => Some((badge, cap.slot)),
                None => None,
            }),
    {
        proof {
            use_type_invariant(&*self);
        }
        match slot {
            Some(s) => {
                if self.cur_badge == usize::MAX {
                    return None;
                }
                let badge: usize = self.cur_badge;
                self.cur_badge = badge + 1;
                Some((badge, Capability::new(s)))
            },
            None => None,
        }
    }

    /// Concludes a derivation once the kernel has answered the mint request.
    /// When the kernel minted the capability, the badge and the capability
    /// are the caller's. When it refused, nothing was derived, and the slot
    /// named in the error is to go back to the slot allocator.
    pub fn conclude(derived: (usize, EpCap), mint: Result<(), SysError>) -> (out: Result<(usize, EpCap), MintFailure>)
        ensures
            out == (match mint {
                Ok(_) => Ok::<(usize, EpCap), MintFailure>(derived),
                Err(error) => Err::<(usize, EpCap), MintFailure>(MintFailure { error, release: derived.1.slot }),
            }),
    {
        match mint {
            Ok(_) => Ok(derived),
            Err(error) => Err(MintFailure { error, release: derived.1.slot }),
        }
    }

    /// The kernel request that stamps `badge` on a copy of the root
    /// capability and puts the copy into `dest_slot`.
    pub fn mint_request(&self, dest_slot: usize, badge: usize) -> (req: Syscall)
        ensures
            req.is_request(SyscallOp::EndpointMint, 2, self.root_slot(), dest_slot, badge, 0),
    {
        self.ep.mint(dest_slot, badge)
    }
}

/// What a derivation yields, over the counter: a badge is handed out exactly
/// when a slot was given and the counter can still grow; the badge is the
/// counter's value, and the counter then moves on by one.
pub proof fn lemma_derived(ep: Ep, slot: Option<usize>)
    ensures
        ep.derived(slot).1 is Some <==> (slot is Some && ep.next_badge() < usize::MAX),
        ep.derived(slot).1 is Some ==> ep.derived(slot).1 == Some((ep.next_badge(), slot->0)),
        ep.derived(slot).1 is Some ==> ep.derived(slot).0.next_badge() == ep.next_badge() + 1,
        ep.derived(slot).1 is None ==> ep.derived(slot).0 == ep,
        ep.derived(slot).0.root_slot() == ep.root_slot(),
{
}

/// What a run of derivations on `ep` hands out, one entry for each slot that
/// was given, in the order of the calls.
pub open spec fn derive_all(ep: Ep, slots: Seq<Option<usize>>) -> Seq<Option<(usize, usize)>>
    decreases slots.len(),
{
    if slots.len() == 0 {
        Seq::empty()
    } else {
        seq![ep.derived(slots[0]).1] + derive_all(ep.derived(slots[0]).0, slots.drop_first())
    }
}

/// A run of derivations answers every call.
pub proof fn lemma_derive_all_len(ep: Ep, slots: Seq<Option<usize>>)
    ensures
        derive_all(ep, slots).len() == slots.len(),
    decreases slots.len(),
{
    if slots.len() > 0 {
        lemma_derive_all_len(ep.derived(slots[0]).0, slots.drop_first());
    }
}

proof fn lemma_derive_all_from_counter(ep: Ep, slots: Seq<Option<usize>>, j: int)
    requires
        0 <= j < slots.len(),
        derive_all(ep, slots)[j] is Some,
    ensures
        (derive_all(ep, slots)[j]->0).0 >= ep.next_badge(),
    decreases slots.len(),
{
    let next = ep.derived(slots[0]).0;
    lemma_derive_all_len(next, slots.drop_first());
    if j > 0 {
        lemma_derive_all_from_counter(next, slots.drop_first(), j - 1);
    }
}

/// The badges that any run of derivations on one endpoint hands out grow
/// from call to call, so no two of them are equal.
pub proof fn law_badges_distinct(ep: Ep, slots: Seq<Option<usize>>, i: int, j: int)
    requires
        0 <= i < j < slots.len(),
        derive_all(ep, slots)[i] is Some,
        derive_all(ep, slots)[j] is Some,
    ensures
        (derive_all(ep, slots)[i]->0).0 < (derive_all(ep, slots)[j]->0).0,
        (derive_all(ep, slots)[i]->0).0 != (derive_all(ep, slots)[j]->0).0,
    decreases slots.len(),
{
    let next = ep.derived(slots[0]).0;
    lemma_derive_all_len(next, slots.drop_first());
    if i == 0 {
        lemma_derive_all_from_counter(next, slots.drop_first(), j - 1);
    } else {
        law_badges_distinct(next, slots.drop_first(), i - 1, j - 1);
    }
}

} // verus!
