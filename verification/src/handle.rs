//! The two offset-tracking disciplines the kernel exposes, over validated
//! descriptors.
//!
//! A transfer side either lets the kernel advance the descriptor's own file
//! position — every step passes a null offset pointer — or keeps an explicit
//! offset counter of its own that each step hands to the kernel and that
//! advances exactly by the bytes the step is observed to move, leaving the
//! descriptor's position untouched.  The kernel defines no third discipline.
//!
//! Values here are built only through validation ([`crate::validate`]) and
//! are the sole channel through which the transfer drivers see raw
//! descriptor numbers.  Each value must serve at most one in-flight transfer
//! call at a time; exclusive borrowing is the only locking.

use vstd::prelude::*;

use crate::validate::{validation, Role, ValidationError};

verus! {

/// The raw arguments one side of a transfer step hands to a syscall: the
/// descriptor number, and the explicit offset counter's value if the side
/// keeps one — the kernel receives a null offset pointer otherwise.
pub struct RawArgs {
    /// Descriptor number.
    pub fd: i32,
    /// Value of the explicit offset counter; `None` for the kernel-internal
    /// discipline.
    pub off: Option<i64>,
}

/// Splits the optional explicit offset out of its `RawArgs` form for the
/// raw-pointer boundary of the syscall: the boolean says whether the call is
/// to receive a pointer to a counter holding the returned value (`true`) or
/// a null offset pointer (`false`).
pub fn convert_option_ptr(off: Option<i64>) -> (r: (bool, i64))
    ensures
        r.0 == off is Some,
        off matches Some(v) ==> r.1 == v,
        off is None ==> r.1 == 0i64,
{
    match off {
        Some(v) => (true, v),
        None => (false, 0),
    }
}

/// One side of a zero-copy transfer: a descriptor validated for its role,
/// under one of the two offset disciplines.
pub trait CopyFileRangeHandle: Sized {
    /// The role the descriptor was validated for.
    spec fn role_spec(&self) -> Role;

    /// The descriptor number.
    spec fn fd_spec(&self) -> i32;

    /// The explicit offset counter, if this discipline keeps one.
    spec fn off_spec(&self) -> Option<i64>;

    /// Total bytes recorded as moved through this side so far.
    spec fn moved_spec(&self) -> nat;

    /// The side's internal invariant.
    spec fn wf(&self) -> bool;

    /// Whether a further step of `n` bytes fits the counter.
    spec fn can_record(&self, n: usize) -> bool;

    /// The role the descriptor was validated for.
    fn role(&self) -> (r: Role)
        ensures
            r == self.role_spec(),
    ;

    /// Lays out what this side hands to a single transfer step.
    fn as_args(&self) -> (a: RawArgs)
        ensures
            a.fd == self.fd_spec(),
            a.off == self.off_spec(),
    ;

    /// Folds into the side's bookkeeping the byte count one completed step
    /// was observed to move: an explicit counter advances by exactly that
    /// count, the kernel-internal discipline records it and nothing else.
    fn record_progress(&mut self, n: usize)
        requires
            old(self).wf(),
            old(self).can_record(n),
        ensures
            final(self).wf(),
            final(self).role_spec() == old(self).role_spec(),
            final(self).fd_spec() == old(self).fd_spec(),
            final(self).moved_spec() == old(self).moved_spec() + n,
            old(self).off_spec() matches Some(v) ==> (final(self).off_spec() matches Some(w)
                && w == v + n),
            old(self).off_spec() is None ==> final(self).off_spec() is None,
    ;
}

/// Discipline that lets the kernel advance the descriptor's own file
/// position: every step passes a null offset pointer, and the position the
/// kernel persists advances by exactly the bytes moved.  A value of this
/// type stands for exclusive ownership of the descriptor; the embedding
/// runtime closes the descriptor when the value's session is over.
pub struct MutateInnerOffset {
    /// The role the descriptor was validated for.
    pub role: Role,
    /// The owned descriptor number.
    pub fd: i32,
    /// Total bytes recorded as moved through this side.
    pub moved: Ghost<nat>,
}

impl MutateInnerOffset {
    /// Validates the descriptor for the role and takes ownership of it.
    /// `st_mode` and `flags` are the stat mode word and status flags the
    /// kernel reports for `fd`.
    pub fn new(fd: i32, role: Role, st_mode: u32, flags: i32) -> (r: Result<
        Self,
        ValidationError,
    >)
        ensures
            r is Ok <==> validation(role, st_mode, flags) is Ok,
            r matches Ok(h) ==> h.wf() && h.role_spec() == role && h.fd_spec() == fd
                && h.moved_spec() == 0 && h.off_spec() is None,
            r matches Err(e) ==> validation(role, st_mode, flags) == Err::<(), ValidationError>(e),
    {
        let fd = crate::validate::validate_raw_fd(fd, role, st_mode, flags)?;
        Ok(MutateInnerOffset { role, fd, moved: Ghost(0nat) })
    }

    /// Hands the descriptor number back to the caller, which becomes
    /// responsible for it again.
    pub fn into_owned(self) -> (r: i32)
        ensures
            r == self.fd_spec(),
    {
        self.fd
    }
}

impl CopyFileRangeHandle for MutateInnerOffset {
    open spec fn role_spec(&self) -> Role {
        self.role
    }

    open spec fn fd_spec(&self) -> i32 {
        self.fd
    }

    open spec fn off_spec(&self) -> Option<i64> {
        None
    }

    open spec fn moved_spec(&self) -> nat {
        self.moved@
    }

    open spec fn wf(&self) -> bool {
        true
    }

    open spec fn can_record(&self, n: usize) -> bool {
        true
    }

    fn role(&self) -> (r: Role) {
        self.role
    }

    fn as_args(&self) -> (a: RawArgs) {
        RawArgs { fd: self.fd, off: None }
    }

    fn record_progress(&mut self, n: usize) {
        proof {
            self.moved@ = self.moved@ + n as nat;
        }
    }
}

/// Discipline that keeps an explicit offset counter: the caller retains
/// ownership of the descriptor and supplies the initial offset, every step
/// hands the counter to the kernel, and the counter advances by exactly the
/// bytes each completed step is observed to move.  The descriptor's own
/// file position is never touched.
pub struct FromGivenOffset {
    /// The borrowed descriptor number.
    pub fd: i32,
    /// The explicit offset counter.
    pub offset: i64,
    /// The role the descriptor was validated for.
    pub role: Role,
    /// The offset the counter started at.
    pub initial: Ghost<int>,
    /// Total bytes recorded as moved through this side.
    pub moved: Ghost<nat>,
}

impl FromGivenOffset {
    /// The offset the counter started at.
    pub open spec fn initial_spec(&self) -> int {
        self.initial@
    }

    /// Validates the borrowed descriptor for the role and starts the
    /// counter at `init`.  `st_mode` and `flags` are the stat mode word and
    /// status flags the kernel reports for `fd`.
    pub fn new(fd: i32, role: Role, init: u32, st_mode: u32, flags: i32) -> (r: Result<
        Self,
        ValidationError,
    >)
        ensures
            r is Ok <==> validation(role, st_mode, flags) is Ok,
            r matches Ok(h) ==> h.wf() && h.role_spec() == role && h.fd_spec() == fd
                && h.moved_spec() == 0 && h.offset == init && h.initial_spec() == init,
            r matches Err(e) ==> validation(role, st_mode, flags) == Err::<(), ValidationError>(e),
    {
        let fd = crate::validate::validate_raw_fd(fd, role, st_mode, flags)?;
        Ok(
            FromGivenOffset {
                fd,
                offset: init as i64,
                role,
                initial: Ghost(init as int),
                moved: Ghost(0nat),
            },
        )
    }

    /// The descriptor number, which the caller still owns.
    pub fn as_raw_fd(&self) -> (r: i32)
        ensures
            r == self.fd_spec(),
    {
        self.fd
    }
}

impl CopyFileRangeHandle for FromGivenOffset {
    open spec fn role_spec(&self) -> Role {
        self.role
    }

    open spec fn fd_spec(&self) -> i32 {
        self.fd
    }

    open spec fn off_spec(&self) -> Option<i64> {
        Some(self.offset)
    }

    open spec fn moved_spec(&self) -> nat {
        self.moved@
    }

    open spec fn wf(&self) -> bool {
        0 <= self.initial@ <= u32::MAX && self.offset == self.initial@ + self.moved@
    }

    open spec fn can_record(&self, n: usize) -> bool {
        self.offset + n <= i64::MAX
    }

    fn role(&self) -> (r: Role) {
        self.role
    }

    fn as_args(&self) -> (a: RawArgs) {
        RawArgs { fd: self.fd, off: Some(self.offset) }
    }

    fn record_progress(&mut self, n: usize) {
        self.offset = self.offset + (n as i64);
        proof {
            self.moved@ = self.moved@ + n as nat;
        }
    }
}

/// Law: an explicit offset counter always reads its initial offset plus the
/// total bytes recorded as moved, and in particular never falls below its
/// initial offset nor below zero.
pub proof fn lemma_explicit_counter_tracks_progress(h: FromGivenOffset)
    requires
        h.wf(),
    ensures
        h.offset == h.initial_spec() + h.moved_spec(),
        h.offset >= h.initial_spec() >= 0,
{
}

} // verus!
