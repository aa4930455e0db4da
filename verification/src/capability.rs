//! Capability handles and the kernel requests that are made on them.
//!
//! A capability names a kernel object by the slot it occupies in the
//! process-local slot table. The functions here only build requests: the
//! trap into the kernel is made by whoever owns the request.

use vstd::prelude::*;
use core::marker::PhantomData;

verus! {

/// Marker for a thread control block.
#[derive(Debug)]
pub struct TcbObj {}

/// Marker for a rendezvous endpoint.
#[derive(Debug)]
pub struct EndpointObj {}

/// A handle on the kernel object of kind `T` that lives in `slot`.
#[derive(Debug)]
pub struct Capability<T> {
    pub slot: usize,
    pub obj: PhantomData<T>,
}

/// A capability on an endpoint.
pub type EpCap = Capability<EndpointObj>;

/// The kernel operations that this library asks for.
#[derive(Clone, Copy, Debug, PartialEq, Eq, Structural)]
pub enum SyscallOp {
    EndpointMint,
    TcbConfigure,
    TcbSetRegisters,
    TcbResume,
}

/// The first word of a request: the operation and how many arguments follow
/// the capability's own slot.
#[derive(Clone, Copy, Debug, PartialEq, Eq, Structural)]
pub struct MsgInfo {
    pub op: SyscallOp,
    pub length: usize,
}

impl MsgInfo {
    pub fn new(op: SyscallOp, length: usize) -> (info: MsgInfo)
        ensures
            info == (MsgInfo { op, length }),
    {
        MsgInfo { op, length }
    }
}

/// One request to the kernel, ready to be made: six argument registers, the
/// first of which names the capability that is invoked.
#[derive(Clone, Copy, Debug, PartialEq, Eq)]
pub struct Syscall {
    pub info: MsgInfo,
    pub args: [usize; 6],
}

impl Syscall {
    /// True when this is the request for `op` on the capability in `slot`
    /// with the arguments `a`, `b`, `c`, of which `length` are meaningful.
    pub open spec fn is_request(self, op: SyscallOp, length: usize, slot: usize, a: usize, b: usize, c: usize) -> bool {
        &&& self.info == (MsgInfo { op, length })
        &&& self.args@ == seq![slot, a, b, c, 0usize, 0usize]
    }
}

impl<T> Capability<T> {
    /// The capability in `slot`.
    pub fn new(slot: usize) -> (cap: Capability<T>)
        ensures
            cap.slot == slot,
    {
        Capability { slot, obj: PhantomData }
    }
}

impl Capability<TcbObj> {
    /// The request that binds an address space and a capability space to
    /// this thread.
    pub fn configure(&self, vspace_cap: usize, cspace_cap: usize) -> (req: Syscall)
        ensures
            req.is_request(SyscallOp::TcbConfigure, 2, self.slot, vspace_cap, cspace_cap, 0),
    {
        let info = MsgInfo::new(SyscallOp::TcbConfigure, 2);
        let args: [usize; 6] = [self.slot, vspace_cap, cspace_cap, 0, 0, 0];
        assert(args@ =~= seq![self.slot, vspace_cap, cspace_cap, 0usize, 0usize, 0usize]);
        Syscall { info, args }
    }

    /// The request that sets this thread's flags, entry point and stack
    /// pointer.
    pub fn set_registers(&self, flags: usize, elr: usize, sp: usize) -> (req: Syscall)
        ensures
            req.is_request(SyscallOp::TcbSetRegisters, 3, self.slot, flags, elr, sp),
    {
        let info = MsgInfo::new(SyscallOp::TcbSetRegisters, 3);
        let args: [usize; 6] = [self.slot, flags, elr, sp, 0, 0];
        assert(args@ =~= seq![self.slot, flags, elr, sp, 0usize, 0usize]);
        Syscall { info, args }
    }

    /// The request that lets this thread run.
    pub fn resume(&self) -> (req: Syscall)
        ensures
            req.is_request(SyscallOp::TcbResume, 0, self.slot, 0, 0, 0),
    {
        let info = MsgInfo::new(SyscallOp::TcbResume, 0);
        let args: [usize; 6] = [self.slot, 0, 0, 0, 0, 0];
        assert(args@ =~= seq![self.slot, 0usize, 0usize, 0usize, 0usize, 0usize]);
        Syscall { info, args }
    }
}

impl Capability<EndpointObj> {
    /// The request that stamps a copy of this endpoint capability with
    /// `badge` and puts the copy into `dest_slot`.
    pub fn mint(&self, dest_slot: usize, badge: usize) -> (req: Syscall)
        ensures
            req.is_request(SyscallOp::EndpointMint, 2, self.slot, dest_slot, badge, 0),
    {
        let info = MsgInfo::new(SyscallOp::EndpointMint, 2);
        let args: [usize; 6] = [self.slot, dest_slot, badge, 0, 0, 0];
        assert(args@ =~= seq![self.slot, dest_slot, badge, 0usize, 0usize, 0usize]);
        Syscall { info, args }
    }
}

} // verus!
