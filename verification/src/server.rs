//! The handler registry and the routing decision of the dispatch loop.
//!
//! A handler is known to the registry by an integer that its owner chose.
//! The loop that blocks on the endpoint hands every receive result to
//! [`EpServer::dispatch`], runs the handlers that the answer names, and goes
//! back to receive. The registry is never borrowed while a handler runs, so a
//! handler may register and deregister badges, its own among them.

use vstd::prelude::*;
use crate::badge_table::BadgeTable;
use crate::badge_table::table_contents;
use crate::badge_table::table_get;
use crate::badge_table::table_insert;
use crate::badge_table::table_new;
use crate::badge_table::table_remove;
use crate::capability::EpCap;
use crate::capability::Syscall;
use crate::capability::SyscallOp;
use crate::endpoint::Ep;
use crate::endpoint::FIRST_BADGE;
use vstd::std_specs::bits::axiom_u64_trailing_zeros;

verus! {

/// How many notification bits one receive can report.
pub const NTF_BITS: usize = 64;

/// A failure that the kernel reported, by its code.
#[derive(Clone, Copy, Debug, PartialEq, Eq, Structural)]
pub struct SysError {
    pub code: usize,
}

/// What one receive on the endpoint brought.
#[derive(Debug, PartialEq, Eq)]
pub enum IpcMessage {
    /// A message: its payload, whether it moved a capability into the receive
    /// slot, and the badge of the capability it was sent through, if that
    /// capability had one.
    Message { payload: Vec<u8>, need_reply: bool, cap_transfer: bool, badge: Option<usize> },
    /// The notification bits that were raised since the last receive.
    Notification(u64),
}

/// What the loop is to do with one receive result.
#[derive(Debug, PartialEq, Eq)]
pub enum Action {
    /// Run the message handler `handler`. It is given the message, and with
    /// `cap_transfer_slot` the slot that holds the capability that came with
    /// it, which from now on is the handler's to keep or to release.
    Deliver { handler: usize, cap_transfer_slot: Option<usize> },
    /// Run these notification handlers, in this order. Each pair is a bit
    /// and the handler registered for it.
    Notify { calls: Vec<(usize, usize)> },
    /// No handler is registered for the badge: warn and drop the message.
    UnknownBadge { badge: usize },
    /// The message carried no badge: warn and drop it.
    Unbadged,
    /// The receive failed: log the error and receive again.
    Failed { error: SysError },
}

/// [`Action`] as a mathematical value.
pub ghost enum Routed {
    Deliver { handler: usize, cap_transfer_slot: Option<usize> },
    Notify { calls: Seq<(usize, usize)> },
    UnknownBadge { badge: usize },
    Unbadged,
    Failed { error: SysError },
}

impl View for Action {
    type V = Routed;

    open spec fn view(&self) -> Routed {
        match *self {
            Action::Deliver { handler, cap_transfer_slot } => Routed::Deliver { handler, cap_transfer_slot },
            Action::Notify { calls } => Routed::Notify { calls: calls@ },
            Action::UnknownBadge { badge } => Routed::UnknownBadge { badge },
            Action::Unbadged => Routed::Unbadged,
            Action::Failed { error } => Routed::Failed { error },
        }
    }
}

/// The answer to one receive result: the action, the slot that the loop
/// itself must release, and whether the receive slot has been used up.
#[derive(Debug, PartialEq, Eq)]
pub struct Dispatch {
    pub action: Action,
    /// The receive slot, when a capability arrived in it and no handler takes
    /// it over.
    pub release: Option<usize>,
    /// True when a capability arrived in the receive slot: the next receive
    /// needs a slot that was newly allocated.
    pub slot_consumed: bool,
}

/// Whether bit `bit` of `mask` is set.
pub open spec fn bit_set(mask: u64, bit: int) -> bool {
    0 <= bit < 64 && (mask >> (bit as u64)) & 1 == 1
}

/// Takes the lowest set bit out of `mask`: the bit's index, and the mask
/// with that bit cleared. `None` when no bit is set.
pub fn take_lowest_bit(mask: u64) -> (out: Option<(usize, u64)>)
    ensures
        out is None <==> mask == 0,
        out is Some ==> {
            let (bit, rest) = out->0;
            &&& bit < 64
            &&& bit_set(mask, bit as int)
            &&& forall|k: int| 0 <= k < bit ==> !bit_set(mask, k)
            &&& rest == mask & !(1u64 << (bit as u64))
            &&& rest < mask
        },
{
    if mask == 0 {
        return None;
    }
    let zeros: u32 = mask.trailing_zeros();
    proof {
        axiom_u64_trailing_zeros(mask);
    }
    let shift: u64 = zeros as u64;
    let rest: u64 = mask & !(1u64 << shift);
    proof {
        assert(rest < mask) by (bit_vector)
            requires
                rest == mask & !(1u64 << shift),
                shift < 64,
                (mask >> shift) & 1 == 1,
        ;
        assert forall|k: int| 0 <= k < zeros implies !bit_set(mask, k) by {
            let j = k as u64;
            assert((mask >> j) & 1 == 0);
        }
    }
    Some((zeros as usize, rest))
}

/// The notification handlers that a mask calls among the bits below `upto`:
/// for each set bit with a registered handler the pair of bit and handler,
/// by ascending bit.
pub open spec fn ntf_calls(mask: u64, table: Seq<Option<usize>>, upto: int) -> Seq<(usize, usize)>
    decreases upto,
{
    if upto <= 0 {
        Seq::empty()
    } else {
        let bit = upto - 1;
        let below = ntf_calls(mask, table, bit);
        if bit_set(mask, bit) && bit < table.len() && table[bit] is Some {
            below.push((bit as usize, table[bit]->0))
        } else {
            below
        }
    }
}

/// Whether a receive result reports that a capability arrived in the receive
/// slot.
pub open spec fn transfers(ret: Result<IpcMessage, SysError>) -> bool {
    match ret {
        Ok(IpcMessage::Message { cap_transfer, .. }) => cap_transfer,
        _ => false,
    }
}

/// The action for a receive result, given the registered message handlers,
/// the notification table and the slot that the receive was made with.
pub open spec fn route(
    events: Map<usize, usize>,
    table: Seq<Option<usize>>,
    recv_slot: usize,
    ret: Result<IpcMessage, SysError>,
) -> Routed {
    match ret {
        Ok(IpcMessage::Message { cap_transfer, badge: Some(b), .. }) => {
            if events.contains_key(b) {
                Routed::Deliver {
                    handler: events[b],
                    cap_transfer_slot: if cap_transfer { Some(recv_slot) } else { None },
                }
            } else {
                Routed::UnknownBadge { badge: b }
            }
        },
        Ok(IpcMessage::Message { badge: None, .. }) => Routed::Unbadged,
        Ok(IpcMessage::Notification(mask)) => Routed::Notify { calls: ntf_calls(mask, table, 64) },
        Err(error) => Routed::Failed { error },
    }
}

/// The slot that the loop must release after a receive result: the receive
/// slot, when a capability arrived in it and the message is dropped.
pub open spec fn released(events: Map<usize, usize>, recv_slot: usize, ret: Result<IpcMessage, SysError>) -> Option<usize> {
    match ret {
        Ok(IpcMessage::Message { cap_transfer, badge, .. }) => {
            if cap_transfer && !(badge is Some && events.contains_key(badge->0)) {
                Some(recv_slot)
            } else {
                None
            }
        },
        _ => None,
    }
}

/// The registry of one endpoint: a message handler per badge, a notification
/// handler per bit, and the endpoint's badge counter.
pub struct EpServer {
    event_handlers: BadgeTable,
    ntf_handler: [Option<usize>; 64],
    ep: Ep,
}

impl EpServer {
    /// The registered message handlers, by badge.
    pub closed spec fn events(&self) -> Map<usize, usize> {
        table_contents(self.event_handlers)
    }

    /// The notification table: entry `bit` is the handler registered for
    /// that bit.
    pub closed spec fn notifications(&self) -> Seq<Option<usize>> {
        self.ntf_handler@
    }

    /// The endpoint whose badges this server hands out.
    pub closed spec fn endpoint(&self) -> Ep {
        self.ep
    }

    /// The notification table has one entry for each of the 64 bits.
    pub proof fn lemma_notifications_len(&self)
        ensures
            self.notifications().len() == NTF_BITS,
    {
    }

    /// A server on the unbadged endpoint capability `ep`, with nothing
    /// registered.
    pub fn new(ep: EpCap) -> (server: EpServer)
        ensures
            server.events() == Map::<usize, usize>::empty(),
            server.notifications() == Seq::new(64, |i: int| None::<usize>),
            server.endpoint().next_badge() == FIRST_BADGE,
            server.endpoint().root_slot() == ep.slot,
    {
        let ntf_handler: [Option<usize>; 64] = [None; 64];
        assert(ntf_handler@ =~= Seq::new(64, |i: int| None::<usize>));
        EpServer { ep: Ep::from_unbadged(ep), event_handlers: table_new(), ntf_handler }
    }

    /// Takes the next badge of the endpoint for a capability in `slot`, as
    /// [`Ep::derive_badged_cap`] does.
    pub fn derive_badged_cap(&mut self, slot: Option<usize>) -> (out: Option<(usize, EpCap)>)
        ensures
            out is Some <==> (slot is Some && old(self).endpoint().next_badge() < usize::MAX),
            out is Some ==> {
                &&& (out->0).0 == old(self).endpoint().next_badge()
                &&& (out->0).0 >= FIRST_BADGE
                &&& Some((out->0).1.slot) == slot
                &&& final(self).endpoint().next_badge() == old(self).endpoint().next_badge() + 1
            },
            out is None ==> final(self).endpoint() == old(self).endpoint(),
            final(self).endpoint().root_slot() == old(self).endpoint().root_slot(),
            old(self).endpoint().derived(slot) == (final(self).endpoint(), match out {
                Some((badge, cap)) => Some((badge, cap.slot)),
                None => None,
            }),
            final(self).events() == old(self).events(),
            final(self).notifications() == old(self).notifications(),
    {
        self.ep.derive_badged_cap(slot)
    }

    /// The kernel request that stamps `badge` on a copy of the endpoint's
    /// root capability and puts the copy into `dest_slot`.
    pub fn mint_request(&self, dest_slot: usize, badge: usize) -> (req: Syscall)
        ensures
            req.is_request(SyscallOp::EndpointMint, 2, self.endpoint().root_slot(), dest_slot, badge, 0),
    {
        self.ep.mint_request(dest_slot, badge)
    }

    /// Registers `cb` as the message handler of `badge`, in place of the one
    /// that was registered for it, if any.
    pub fn insert_event(&mut self, badge: usize, cb: usize)
        ensures
            final(self).events() == old(self).events().insert(badge, cb),
            final(self).notifications() == old(self).notifications(),
            final(self).endpoint() == old(self).endpoint(),
    {
        let _ = table_insert(&mut self.event_handlers, badge, cb);
    }

    /// Deregisters the message handler of `badge`.
    pub fn remove_event(&mut self, badge: usize)
        ensures
            final(self).events() == old(self).events().remove(badge),
            final(self).notifications() == old(self).notifications(),
            final(self).endpoint() == old(self).endpoint(),
    {
        let _ = table_remove(&mut self.event_handlers, badge);
    }

    /// Registers `cb` as the handler of notification bit `ntf`.
    pub fn insert_notification(&mut self, ntf: usize, cb: usize)
        requires
            ntf < NTF_BITS,
        ensures
            final(self).notifications() == old(self).notifications().update(ntf as int, Some(cb)),
            final(self).events() == old(self).events(),
            final(self).endpoint() == old(self).endpoint(),
    {
        self.ntf_handler[ntf] = Some(cb);
    }

    /// The handler registered for `badge`, if there is one.
    pub fn event_handler(&self, badge: usize) -> (found: Option<usize>)
        ensures
            found == (if self.events().contains_key(badge) {
                Some(self.events()[badge])
            } else {
                None
            }),
    {
        table_get(&self.event_handlers, badge)
    }

    /// The handlers that the notification mask `mask` calls: for each set
    /// bit that has a handler, the bit and the handler, by ascending bit.
    /// Set bits without a handler are passed over. The mask is worked off
    /// from its lowest set bit, each bit being cleared once it has been
    /// looked at, until no bit is left.
    pub fn notified(&self, mask: u64) -> (calls: Vec<(usize, usize)>)
        ensures
            calls@ == ntf_calls(mask, self.notifications(), 64),
    {
        let mut calls: Vec<(usize, usize)> = Vec::new();
        let mut rest: u64 = mask;
        let ghost mut done: int = 0;
        while rest != 0
            invariant
                0 <= done <= 64,
                calls@ == ntf_calls(mask, self.notifications(), done),
                forall|j: u64|
                    j < 64 ==> #[trigger] ((rest >> j) & 1) == (if j < done {
                        0
                    } else {
                        (mask >> j) & 1
                    }),
            decreases rest,
        {
            let ghost before = rest;
            let (ntf, cleared) = take_lowest_bit(rest).unwrap();
            let ghost shift = ntf as u64;
            proof {
                assert((rest >> shift) & 1 == 1);
                assert(done <= ntf);
                assert forall|k: int| done <= k < ntf implies !bit_set(mask, k) by {
                    let j = k as u64;
                    assert(!bit_set(rest, k));
                    assert((rest >> j) & 1 != 1);
                    assert((rest >> j) & 1 == 0 || (rest >> j) & 1 == 1) by (bit_vector);
                }
                lemma_no_calls_between(mask, self.notifications(), done, ntf as int);
                assert(bit_set(mask, ntf as int));
            }
            if let Some(cb) = self.ntf_handler[ntf] {
                calls.push((ntf, cb));
            }
            rest = cleared;
            proof {
                assert forall|j: u64| j < 64 implies #[trigger] ((rest >> j) & 1) == (if j < ntf + 1 {
                    0
                } else {
                    (mask >> j) & 1
                }) by {
                    assert(((before & !(1u64 << shift)) >> j) & 1 == (if j == shift {
                        0
                    } else {
                        (before >> j) & 1
                    })) by (bit_vector)
                        requires
                            j < 64,
                            shift < 64,
                    ;
                    assert((before >> j) & 1 == (if j < done {
                        0
                    } else {
                        (mask >> j) & 1
                    }));
                    if j < shift {
                        assert(!bit_set(before, j as int));
                        assert((before >> j) & 1 == 0 || (before >> j) & 1 == 1) by (bit_vector);
                    }
                }
                done = ntf + 1;
            }
        }
        proof {
            assert forall|k: int| done <= k < 64 implies !bit_set(mask, k) by {
                let j = k as u64;
                assert((0u64 >> j) & 1 == 0) by (bit_vector)
                    requires
                        j < 64,
                ;
                assert((rest >> j) & 1 == 0);
            }
            lemma_no_calls_between(mask, self.notifications(), done, 64);
        }
        calls
    }

    /// Decides what the loop does with the result `ret` of a receive that
    /// was made with the receive slot `recv_slot`.
    pub fn dispatch(&self, recv_slot: usize, ret: &Result<IpcMessage, SysError>) -> (out: Dispatch)
        ensures
            out.action@ == route(self.events(), self.notifications(), recv_slot, *ret),
            out.release == released(self.events(), recv_slot, *ret),
            out.slot_consumed == transfers(*ret),
    {
        match ret {
            Ok(IpcMessage::Message { payload: _, need_reply: _, cap_transfer, badge }) => {
                let cap_transfer: bool = *cap_transfer;
                let held: Option<usize> = if cap_transfer { Some(recv_slot) } else { None };
                match badge {
                    Some(b) => {
                        match table_get(&self.event_handlers, *b) {
                            Some(handler) => Dispatch {
                                action: Action::Deliver { handler, cap_transfer_slot: held },
                                release: None,
                                slot_consumed: cap_transfer,
                            },
                            None => Dispatch {
                                action: Action::UnknownBadge { badge: *b },
                                release: held,
                                slot_consumed: cap_transfer,
                            },
                        }
                    },
                    None => Dispatch { action: Action::Unbadged, release: held, slot_consumed: cap_transfer },
                }
            },
            Ok(IpcMessage::Notification(mask)) => Dispatch {
                action: Action::Notify { calls: self.notified(*mask) },
                release: None,
                slot_consumed: false,
            },
            Err(error) => Dispatch { action: Action::Failed { error: *error }, release: None, slot_consumed: false },
        }
    }
}

/// The slot that the loop hands to the kernel with each receive, so that a
/// message may bring a capability. The slot is used again while nothing
/// arrives in it. Once something has arrived it belongs to whoever takes the
/// capability, and the loop cannot receive again before it has been given
/// another slot.
#[derive(Debug)]
pub struct ReceiveSlot {
    slot: usize,
    consumed: bool,
}

impl ReceiveSlot {
    /// The slot that was last given to the loop.
    pub closed spec fn slot(&self) -> usize {
        self.slot
    }

    /// Whether a capability has arrived in that slot.
    pub closed spec fn consumed(&self) -> bool {
        self.consumed
    }

    /// Starts with the empty slot `slot`.
    pub fn new(slot: usize) -> (this: ReceiveSlot)
        ensures
            this.slot() == slot,
            !this.consumed(),
    {
        ReceiveSlot { slot, consumed: false }
    }

    /// The slot for the next receive, or `None` while the last one is used
    /// up and has not been replaced.
    pub fn ready(&self) -> (slot: Option<usize>)
        ensures
            slot == (if self.consumed() { None } else { Some(self.slot()) }),
    {
        if self.consumed { None } else { Some(self.slot) }
    }

    /// Records the result of a receive made with this slot: the slot is used
    /// up when the result reports a capability transfer.
    pub fn after_receive(&mut self, ret: &Result<IpcMessage, SysError>)
        ensures
            final(self).slot() == old(self).slot(),
            final(self).consumed() == (old(self).consumed() || transfers(*ret)),
    {
        match ret {
            Ok(IpcMessage::Message { payload: _, need_reply: _, cap_transfer, badge: _ }) => {
                if *cap_transfer {
                    self.consumed = true;
                }
            },
            _ => {},
        }
    }

    /// Records that the slot was handed on, to carry a capability of its
    /// new owner: for the loop it is used up.
    pub fn consume(&mut self)
        ensures
            final(self).slot() == old(self).slot(),
            final(self).consumed(),
    {
        self.consumed = true;
    }

    /// Gives the loop the newly allocated slot `fresh` in place of one that
    /// was used up. The slot is refused, and nothing changes, when the
    /// current slot is still empty or when `fresh` is the very slot that was
    /// used up: the next receive never runs on a slot that a capability has
    /// arrived in.
    pub fn replace(&mut self, fresh: usize) -> (accepted: bool)
        ensures
            accepted <==> (old(self).consumed() && fresh != old(self).slot()),
            accepted ==> final(self).slot() == fresh && !final(self).consumed(),
            !accepted ==> *final(self) == *old(self),
    {
        if self.consumed && fresh != self.slot {
            self.slot = fresh;
            self.consumed = false;
            true
        } else {
            false
        }
    }
}

/// Whether a receive result is a message that carries the badge `badge`.
pub open spec fn is_message_on(ret: Result<IpcMessage, SysError>, badge: usize) -> bool {
    match ret {
        Ok(IpcMessage::Message { badge: Some(b), .. }) => b == badge,
        _ => false,
    }
}

/// A message on a badge goes to the handler that was last registered for
/// that badge, whatever else is registered.
pub proof fn law_registered_badge_is_delivered(
    events: Map<usize, usize>,
    table: Seq<Option<usize>>,
    badge: usize,
    handler: usize,
    recv_slot: usize,
    ret: Result<IpcMessage, SysError>,
)
    requires
        is_message_on(ret, badge),
    ensures
        route(events.insert(badge, handler), table, recv_slot, ret) == (Routed::Deliver {
            handler,
            cap_transfer_slot: if transfers(ret) { Some(recv_slot) } else { None },
        }),
        released(events.insert(badge, handler), recv_slot, ret) is None,
{
}

/// A message on a badge whose handler was removed goes to no handler: it is
/// dropped, and a capability that came with it is released.
pub proof fn law_removed_badge_is_dropped(
    events: Map<usize, usize>,
    table: Seq<Option<usize>>,
    badge: usize,
    recv_slot: usize,
    ret: Result<IpcMessage, SysError>,
)
    requires
        is_message_on(ret, badge),
    ensures
        route(events.remove(badge), table, recv_slot, ret) == (Routed::UnknownBadge { badge }),
        released(events.remove(badge), recv_slot, ret) == (if transfers(ret) { Some(recv_slot) } else { None }),
{
}

/// Within one mask the calls are ordered by strictly ascending bit, so no
/// bit is called twice.
pub proof fn law_calls_ascend(mask: u64, table: Seq<Option<usize>>, upto: int, i: int, j: int)
    requires
        0 <= upto <= 64,
        0 <= i < j < ntf_calls(mask, table, upto).len(),
    ensures
        ntf_calls(mask, table, upto)[i].0 < ntf_calls(mask, table, upto)[j].0 < upto,
    decreases upto,
{
    let calls = ntf_calls(mask, table, upto);
    let below = ntf_calls(mask, table, upto - 1);
    if upto > 0 {
        if j < below.len() {
            law_calls_ascend(mask, table, upto - 1, i, j);
        } else if i >= 1 {
            law_calls_ascend(mask, table, upto - 1, i - 1, i);
        } else if below.len() >= 2 {
            law_calls_ascend(mask, table, upto - 1, 0, 1);
        } else {
            lemma_calls_below(mask, table, upto - 1, 0);
        }
    }
}

proof fn lemma_no_calls_between(mask: u64, table: Seq<Option<usize>>, from: int, to: int)
    requires
        0 <= from <= to <= 64,
        forall|k: int| from <= k < to ==> !bit_set(mask, k),
    ensures
        ntf_calls(mask, table, to) == ntf_calls(mask, table, from),
    decreases to - from,
{
    if from < to {
        lemma_no_calls_between(mask, table, from, to - 1);
    }
}

proof fn lemma_calls_below(mask: u64, table: Seq<Option<usize>>, upto: int, i: int)
    requires
        0 <= upto <= 64,
    ensures
        0 <= i < ntf_calls(mask, table, upto).len() ==> ntf_calls(mask, table, upto)[i].0 < upto,
    decreases upto,
{
    if upto > 0 {
        lemma_calls_below(mask, table, upto - 1, i);
    }
}

/// A handler is called for a bit exactly when the bit is set in the mask and
/// the handler is the one registered for it, whatever the other bits of the
/// mask are.
pub proof fn law_call_iff_set_and_registered(mask: u64, table: Seq<Option<usize>>, upto: int, bit: usize, handler: usize)
    requires
        0 <= upto <= 64,
    ensures
        ntf_calls(mask, table, upto).contains((bit, handler)) <==> (bit < upto && bit < table.len() && bit_set(
            mask,
            bit as int,
        ) && table[bit as int] == Some(handler)),
    decreases upto,
{
    let calls = ntf_calls(mask, table, upto);
    if upto > 0 {
        let last = upto - 1;
        let below = ntf_calls(mask, table, last);
        law_call_iff_set_and_registered(mask, table, last, bit, handler);
        if bit_set(mask, last) && last < table.len() && table[last] is Some {
            let pair = (last as usize, table[last]->0);
            assert(calls == below.push(pair));
            if below.contains((bit, handler)) {
                let i = choose|i: int| 0 <= i < below.len() && below[i] == (bit, handler);
                assert(calls[i] == (bit, handler));
            }
            if pair == (bit, handler) {
                assert(calls[below.len() as int] == (bit, handler));
            }
            if calls.contains((bit, handler)) {
                let i = choose|i: int| 0 <= i < calls.len() && calls[i] == (bit, handler);
                if i < below.len() {
                    assert(below[i] == (bit, handler));
                }
            }
        }
    }
}

} // verus!
