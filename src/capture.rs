//! Depth-bounded capture of the current call stack.
//!
//! The walk is driven by the stack walker, which hands each raw frame to
//! `StackCapture::visit_frame`; each frame is resolved into zero or more
//! symbols, which `StackCapture::record_symbol` turns into `Call`s. The
//! stack never holds more than the configured depth: once it is full, further
//! symbols are dropped rather than stored.
use crate::call::{call_of_symbol, Call};
use vstd::prelude::*;

verus! {

/// Frames at the top of every walk that belong to the capture machinery
/// itself and carry no diagnostic value: the walker's own frames
/// (`backtrace::trace` and the unwinder entry it calls), `walk_stack` and
/// `capture_stack`.
pub const FRAMES_SKIPPED: usize = 4;

#[verifier::external_type_specification]
#[verifier::external_body]
pub struct ExFrame(backtrace::Frame);

/// `c` was built from some resolved symbol.
pub open spec fn from_some_symbol(c: Call) -> bool {
    exists|s: backtrace::Symbol| call_of_symbol(c, s)
}

/// Each frame of `stack` was built from some resolved symbol.
pub open spec fn built_from_symbols(stack: Seq<Call>) -> bool {
    forall|i: int| 0 <= i < stack.len() ==> from_some_symbol(#[trigger] stack[i])
}

/// `new` holds `old` followed by zero or more frames.
pub open spec fn extends(new: Seq<Call>, old: Seq<Call>) -> bool {
    &&& old.len() <= new.len()
    &&& new.take(old.len() as int) == old
}

/// State of one stack walk.
pub struct StackCapture {
    /// Frames still to be skipped before recording starts.
    pub skip: usize,
    /// Maximum number of frames kept.
    pub max_depth: usize,
    /// Frames kept so far, innermost first.
    pub stack: Vec<Call>,
}

impl StackCapture {
    pub open spec fn wf(&self) -> bool {
        &&& self.stack@.len() <= self.max_depth
        &&& built_from_symbols(self.stack@)
    }

    /// A fresh walk that keeps at most `max_depth` frames.
    pub fn new(max_depth: usize) -> (r: StackCapture)
        ensures
            r.wf(),
            r.skip == FRAMES_SKIPPED,
            r.max_depth == max_depth,
            r.stack@ == Seq::<Call>::empty(),
    {
        StackCapture { skip: FRAMES_SKIPPED, max_depth, stack: Vec::with_capacity(max_depth) }
    }

    /// Whether the walk still wants frames: the stack is not full yet.
    pub open spec fn wants_more(&self) -> bool {
        self.stack@.len() < self.max_depth
    }

    /// Records one resolved symbol: its frame is appended while the stack
    /// has room, and dropped once the stack is full.
    pub fn record_symbol(&mut self, s: &backtrace::Symbol)
        requires
            old(self).wf(),
        ensures
            final(self).wf(),
            final(self).skip == old(self).skip,
            final(self).max_depth == old(self).max_depth,
            old(self).wants_more() ==> (
                final(self).stack@.len() == old(self).stack@.len() + 1
                && final(self).stack@.drop_last() == old(self).stack@
                && call_of_symbol(final(self).stack@.last(), *s)
            ),
            !old(self).wants_more() ==> final(self).stack@ == old(self).stack@,
    {
        if self.stack.len() < self.max_depth {
            let c = Call::from_symbol(s);
            self.stack.push(c);
            proof {
                assert(self.stack@.drop_last() =~= old(self).stack@);
                assert(call_of_symbol(c, *s));
                assert(from_some_symbol(c));
                assert forall|i: int| 0 <= i < self.stack@.len() implies from_some_symbol(
                    #[trigger] self.stack@[i],
                ) by {
                    if i < old(self).stack@.len() {
                        assert(self.stack@[i] == old(self).stack@[i]);
                    }
                }
            }
        }
    }

    /// Handles one raw frame of the walk and says whether the walk goes on.
    /// The first `FRAMES_SKIPPED` frames are passed over; every later frame
    /// is resolved, and the walk stops once the stack is full.
    pub fn visit_frame(&mut self, frame: &backtrace::Frame) -> (r: bool)
        requires
            old(self).wf(),
        ensures
            final(self).wf(),
            final(self).max_depth == old(self).max_depth,
            extends(final(self).stack@, old(self).stack@),
            old(self).skip > 0 ==> (
                final(self).skip == old(self).skip - 1
                && final(self).stack@ == old(self).stack@
                && r
            ),
            old(self).skip == 0 ==> (
                final(self).skip == 0
                && r == final(self).wants_more()
            ),
    {
        if self.skip > 0 {
            self.skip = self.skip - 1;
            proof {
                assert(self.stack@.take(self.stack@.len() as int) =~= self.stack@);
            }
            return true;
        }
        resolve_symbols(frame, self);
        self.stack.len() < self.max_depth
    }
}

/// Relies on backtrace::resolve_frame: it calls the visitor zero or more
/// times, once per symbol the frame resolves to. The visitor only calls
/// `StackCapture::record_symbol`, which keeps the walk well formed, leaves
/// the skip count and depth alone, and only appends frames.
#[verifier::external_body]
fn resolve_symbols(frame: &backtrace::Frame, state: &mut StackCapture)
    requires
        old(state).wf(),
    ensures
        final(state).wf(),
        final(state).skip == old(state).skip,
        final(state).max_depth == old(state).max_depth,
        extends(final(state).stack@, old(state).stack@),
{
    backtrace::resolve_frame(frame, |sym| state.record_symbol(sym))
}

/// Relies on backtrace::trace: it calls the visitor once per frame of the
/// current thread's stack, innermost first, until the visitor returns false
/// or the frames run out. The visitor only calls `StackCapture::visit_frame`,
/// which keeps the walk well formed, leaves the depth alone and only appends
/// frames.
#[verifier::external_body]
fn walk_stack(state: &mut StackCapture)
    requires
        old(state).wf(),
    ensures
        final(state).wf(),
        final(state).max_depth == old(state).max_depth,
        extends(final(state).stack@, old(state).stack@),
{
    backtrace::trace(|frame| state.visit_frame(frame))
}

/// Captures the current call stack, innermost frame first, keeping at most
/// `max_depth` frames however deep the actual stack is. Each frame kept is
/// built from a resolved symbol.
pub fn capture_stack(max_depth: usize) -> (r: Vec<Call>)
    ensures
        r@.len() <= max_depth,
        built_from_symbols(r@),
{
    let mut state = StackCapture::new(max_depth);
    walk_stack(&mut state);
    state.stack
}

} // verus!
