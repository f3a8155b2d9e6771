//! Bookkeeping and laws of the loop-until-complete transfer drivers.
//!
//! A looping driver repeatedly issues a single-step primitive — one
//! copy-range or splice syscall, run on a worker thread so the caller's
//! cooperative task never blocks — asking each step for all the bytes that
//! remain, and folds each observed outcome back in here: the moved bytes
//! leave the remainder, a step that moves nothing ends the call short (an
//! end-of-source, never an error), and the call is wholly satisfied once
//! nothing remains.  Any syscall-level error aborts the call as a whole;
//! bytes already moved in earlier steps of that call are not reported
//! separately.
//!
//! A step reporting more bytes than it was asked for is a defensive-check
//! failure: the contracts here leave it out, and the runtime around the
//! loop refuses it before it reaches this state.

use vstd::prelude::*;

use crate::handle::{CopyFileRangeHandle, RawArgs};
use crate::validate::Role;

verus! {

/// The bytes the successive steps of a run have moved, in order.
pub open spec fn total_of(steps: Seq<nat>) -> nat
    decreases steps.len(),
{
    if steps.len() == 0 {
        0
    } else {
        steps[0] + total_of(steps.skip(1))
    }
}

/// What a record of step outcomes can look like for a request of `full`
/// bytes: a step is only ever issued while bytes remain, asks for all of
/// them, and a step that moves nothing is the last word.
pub open spec fn valid_history(full: nat, steps: Seq<nat>) -> bool
    decreases steps.len(),
{
    if steps.len() == 0 {
        true
    } else if full == 0 {
        false
    } else if steps[0] == 0 {
        steps.len() == 1
    } else {
        steps[0] <= full && valid_history((full - steps[0]) as nat, steps.skip(1))
    }
}

/// The state of one looping driver call.
pub struct TransferProgress {
    /// The full requested length.
    pub full_len: usize,
    /// Bytes not yet moved.
    pub remaining: usize,
    /// Whether a step observed zero progress and ended the call short.
    pub stopped: bool,
    /// The byte counts the completed steps were observed to move, in order.
    pub steps: Ghost<Seq<nat>>,
}

impl TransferProgress {
    /// The state's internal invariant: the remainder and the recorded step
    /// outcomes always account for the full request, and the call stands
    /// short exactly when a step that moved nothing was its last.
    pub open spec fn wf(&self) -> bool {
        &&& self.remaining + total_of(self.steps@) == self.full_len
        &&& valid_history(self.full_len as nat, self.steps@)
        &&& (self.stopped <==> (self.steps@.len() > 0 && self.steps@.last() == 0))
    }

    /// Bytes moved so far.
    pub open spec fn moved(&self) -> int {
        self.full_len - self.remaining
    }

    /// The loop is over: either nothing remains or a step moved nothing.
    pub open spec fn complete(&self) -> bool {
        self.stopped || self.remaining == 0
    }

    /// Starts a looping transfer of `full_len` bytes.
    pub fn new(full_len: usize) -> (s: Self)
        ensures
            s.wf(),
            s.full_len == full_len,
            s.remaining == full_len,
            s.moved() == 0,
            !s.stopped,
            s.steps@ == Seq::<nat>::empty(),
    {
        TransferProgress { full_len, remaining: full_len, stopped: false, steps: Ghost(Seq::empty()) }
    }

    /// How many bytes the next single step is to ask for: all that remain,
    /// or nothing once the call is complete.
    pub fn next_request(&self) -> (r: Option<usize>)
        ensures
            r is Some <==> !self.complete(),
            r matches Some(n) ==> n == self.remaining && n > 0,
    {
        if self.stopped || self.remaining == 0 {
            None
        } else {
            Some(self.remaining)
        }
    }

    /// Folds one completed step's byte count into the loop state: zero
    /// progress ends the call short, anything else leaves the remainder.
    pub fn record_step(&mut self, cur_written: usize)
        requires
            old(self).wf(),
            !old(self).complete(),
            cur_written <= old(self).remaining,
        ensures
            final(self).wf(),
            final(self).full_len == old(self).full_len,
            cur_written == 0 ==> final(self).complete() && final(self).remaining == old(self).remaining && final(self).moved() == old(self).moved(),
            cur_written > 0 ==> final(self).remaining == old(self).remaining - cur_written && !final(self).stopped && final(self).moved() == old(self).moved() + cur_written,
            final(self).steps@ == old(self).steps@.push(cur_written as nat),
    {
        proof {
            lemma_valid_history_push(self.full_len as nat, self.steps@, cur_written as nat);
            self.steps@ = self.steps@.push(cur_written as nat);
        }
        if cur_written == 0 {
            self.stopped = true;
        } else {
            self.remaining = self.remaining - cur_written;
        }
    }

    /// The byte count the call reports once the loop is over: the full
    /// requested length when it was wholly satisfied, the lesser total
    /// moved when a step ended it short.
    pub fn outcome(&self) -> (r: usize)
        requires
            self.wf(),
            self.complete(),
        ensures
            r == self.moved(),
            r == total_of(self.steps@),
            self.remaining == 0 ==> r == self.full_len,
            r < self.full_len ==> self.stopped,
    {
        self.full_len - self.remaining
    }
}

/// Checks and lays out the raw arguments of one copy-range step: the source
/// side must have been validated readable and the destination writable, and
/// each side hands over its descriptor with its offset discipline.
pub fn prepare_copy_file_range<S: CopyFileRangeHandle, D: CopyFileRangeHandle>(
    src: &S,
    dst: &D,
) -> (r: (RawArgs, RawArgs))
    requires
        src.role_spec() == Role::Readable,
        dst.role_spec() == Role::Writable,
    ensures
        r.0.fd == src.fd_spec() && r.0.off == src.off_spec(),
        r.1.fd == dst.fd_spec() && r.1.off == dst.off_spec(),
{
    (src.as_args(), dst.as_args())
}

/// Checks and lays out the file-side arguments of one splice step that
/// moves bytes from a pipe's read end into the destination, which must have
/// been validated writable.
pub fn prepare_splice_from_pipe<D: CopyFileRangeHandle>(dst: &D) -> (r: RawArgs)
    requires
        dst.role_spec() == Role::Writable,
    ensures
        r.fd == dst.fd_spec() && r.off == dst.off_spec(),
{
    dst.as_args()
}

/// Checks and lays out the file-side arguments of one splice step that
/// moves bytes from the source, which must have been validated readable,
/// into a pipe's write end.
pub fn prepare_splice_to_pipe<S: CopyFileRangeHandle>(src: &S) -> (r: RawArgs)
    requires
        src.role_spec() == Role::Readable,
    ensures
        r.fd == src.fd_spec() && r.off == src.off_spec(),
{
    src.as_args()
}

/// Folds a completed copy-range step's byte count into both sides' offset
/// bookkeeping and the loop state.
pub fn record_copy_file_range_step<S: CopyFileRangeHandle, D: CopyFileRangeHandle>(
    src: &mut S,
    dst: &mut D,
    progress: &mut TransferProgress,
    cur_written: usize,
)
    requires
        old(src).wf(),
        old(src).can_record(cur_written),
        old(dst).wf(),
        old(dst).can_record(cur_written),
        old(progress).wf(),
        !old(progress).complete(),
        cur_written <= old(progress).remaining,
    ensures
        final(src).wf(),
        final(src).moved_spec() == old(src).moved_spec() + cur_written,
        final(src).role_spec() == old(src).role_spec(),
        final(src).fd_spec() == old(src).fd_spec(),
        old(src).off_spec() matches Some(v) ==> (final(src).off_spec() matches Some(w) && w == v
            + cur_written),
        old(src).off_spec() is None ==> final(src).off_spec() is None,
        final(dst).wf(),
        final(dst).moved_spec() == old(dst).moved_spec() + cur_written,
        final(dst).role_spec() == old(dst).role_spec(),
        final(dst).fd_spec() == old(dst).fd_spec(),
        old(dst).off_spec() matches Some(v) ==> (final(dst).off_spec() matches Some(w) && w == v
            + cur_written),
        old(dst).off_spec() is None ==> final(dst).off_spec() is None,
        final(progress).wf(),
        final(progress).full_len == old(progress).full_len,
        cur_written == 0 ==> final(progress).complete() && final(progress).moved() == old(progress).moved(),
        cur_written > 0 ==> final(progress).remaining == old(progress).remaining - cur_written
            && !final(progress).stopped && final(progress).moved() == old(progress).moved()
            + cur_written,
        final(progress).steps@ == old(progress).steps@.push(cur_written as nat),
{
    src.record_progress(cur_written);
    dst.record_progress(cur_written);
    progress.record_step(cur_written);
}

/// Folds a completed splice step's byte count into the file side's offset
/// bookkeeping and the loop state; the pipe side keeps no offset.
pub fn record_splice_step<H: CopyFileRangeHandle>(
    side: &mut H,
    progress: &mut TransferProgress,
    cur_written: usize,
)
    requires
        old(side).wf(),
        old(side).can_record(cur_written),
        old(progress).wf(),
        !old(progress).complete(),
        cur_written <= old(progress).remaining,
    ensures
        final(side).wf(),
        final(side).moved_spec() == old(side).moved_spec() + cur_written,
        final(side).role_spec() == old(side).role_spec(),
        final(side).fd_spec() == old(side).fd_spec(),
        old(side).off_spec() matches Some(v) ==> (final(side).off_spec() matches Some(w) && w == v
            + cur_written),
        old(side).off_spec() is None ==> final(side).off_spec() is None,
        final(progress).wf(),
        final(progress).full_len == old(progress).full_len,
        cur_written == 0 ==> final(progress).complete() && final(progress).moved() == old(progress).moved(),
        cur_written > 0 ==> final(progress).remaining == old(progress).remaining - cur_written
            && !final(progress).stopped && final(progress).moved() == old(progress).moved()
            + cur_written,
        final(progress).steps@ == old(progress).steps@.push(cur_written as nat),
{
    side.record_progress(cur_written);
    progress.record_step(cur_written);
}

/// What a run of step outcomes must look like against a source that holds
/// `avail` bytes, when each step asks for all that remains of `full`: a
/// step moves nothing exactly when the source is exhausted, never moves
/// more than remains on either side, and the run goes on until the loop is
/// over.
pub open spec fn source_faithful(full: nat, avail: nat, steps: Seq<nat>) -> bool
    decreases steps.len(),
{
    if full == 0 {
        true
    } else if steps.len() == 0 {
        false
    } else if avail == 0 {
        steps[0] == 0
    } else {
        0 < steps[0] <= avail && steps[0] <= full && source_faithful(
            (full - steps[0]) as nat,
            (avail - steps[0]) as nat,
            steps.skip(1),
        )
    }
}

/// The total a looping driver reports for a request of `full` bytes when
/// the successive steps move `steps[0]`, `steps[1]`, ...: the loop stops at
/// the first step that moves nothing, and otherwise subtracts each step
/// from the remainder until nothing remains.
pub open spec fn loop_total(full: nat, steps: Seq<nat>) -> nat
    decreases steps.len(),
{
    if full == 0 || steps.len() == 0 || steps[0] == 0 || steps[0] > full {
        0
    } else {
        (steps[0] + loop_total((full - steps[0]) as nat, steps.skip(1))) as nat
    }
}

/// Law: against a source holding `avail` bytes, a faithful run of the
/// looping driver moves exactly the lesser of the requested length and the
/// available bytes.  In particular a request of at least the source's
/// length moves the whole source, and a request for more than is available
/// yields the available count as a short transfer, not an error.
/// Recording one more step outcome keeps a history valid, as long as a step
/// was still owed (the previous steps all moved something and bytes remain)
/// and it moved no more than remained.
pub proof fn lemma_valid_history_push(full: nat, steps: Seq<nat>, x: nat)
    requires
        valid_history(full, steps),
        steps.len() > 0 ==> steps.last() != 0,
        total_of(steps) < full,
        x <= full - total_of(steps),
    ensures
        valid_history(full, steps.push(x)),
        total_of(steps.push(x)) == total_of(steps) + x,
    decreases steps.len(),
{
    if steps.len() == 0 {
        assert(total_of(steps) == 0);
        let one = steps.push(x);
        assert(one.skip(1) =~= Seq::<nat>::empty());
        assert(one[0] == x);
        assert(total_of(one) == x + total_of(one.skip(1)));
        assert(total_of(Seq::<nat>::empty()) == 0);
        assert(valid_history((full - x) as nat, one.skip(1)));
    } else {
        assert(steps[0] != 0);
        assert(total_of(steps) == steps[0] + total_of(steps.skip(1)));
        assert(steps.skip(1).len() > 0 ==> steps.skip(1).last() == steps.last());
        assert(steps.push(x).skip(1) =~= steps.skip(1).push(x));
        lemma_valid_history_push((full - steps[0]) as nat, steps.skip(1), x);
        assert(steps.push(x)[0] == steps[0]);
        assert(total_of(steps.push(x)) == steps[0] + total_of(steps.push(x).skip(1)));
    }
}

/// A valid history never moves more than was requested, and the loop model
/// run on it reports exactly the total its steps moved.
pub proof fn lemma_history_total(full: nat, steps: Seq<nat>)
    requires
        valid_history(full, steps),
    ensures
        total_of(steps) <= full,
        loop_total(full, steps) == total_of(steps),
    decreases steps.len(),
{
    if steps.len() == 0 {
        assert(total_of(steps) == 0);
    } else if steps[0] == 0 {
        assert(steps.skip(1) =~= Seq::<nat>::empty());
        assert(total_of(steps) == 0 + total_of(steps.skip(1)));
        assert(total_of(Seq::<nat>::empty()) == 0);
    } else {
        assert(total_of(steps) == steps[0] + total_of(steps.skip(1)));
        lemma_history_total((full - steps[0]) as nat, steps.skip(1));
        assert(loop_total(full, steps) == steps[0] + loop_total((full - steps[0]) as nat, steps.skip(1)));
    }
}

pub proof fn lemma_loop_moves_min(full: nat, avail: nat, steps: Seq<nat>)
    requires
        source_faithful(full, avail, steps),
    ensures
        loop_total(full, steps) == if full <= avail {
            full
        } else {
            avail
        },
    decreases steps.len(),
{
    if full == 0 {
    } else if avail == 0 {
    } else {
        lemma_loop_moves_min((full - steps[0]) as nat, (avail - steps[0]) as nat, steps.skip(1));
    }
}

/// Law, over the loop state itself: when a run is over and its recorded
/// step outcomes are those of a source holding `avail` bytes, the bytes
/// moved — what [`TransferProgress::outcome`] reports — are exactly the
/// lesser of the requested length and the available bytes.
pub proof fn lemma_outcome_moves_min(p: TransferProgress, avail: nat)
    requires
        p.wf(),
        p.complete(),
        source_faithful(p.full_len as nat, avail, p.steps@),
    ensures
        p.moved() == if p.full_len <= avail {
            p.full_len as int
        } else {
            avail as int
        },
{
    lemma_history_total(p.full_len as nat, p.steps@);
    lemma_loop_moves_min(p.full_len as nat, avail, p.steps@);
}

} // verus!
