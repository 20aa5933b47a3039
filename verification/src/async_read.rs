//! A wrapper for a readable stream that takes part in cooperative scheduling.
//!
//! Each read consumes one entry of the script. The wrapper decides what the
//! read does; the caller that owns the I/O performs the step on the stream.

use vstd::prelude::*;
use crate::op::{interpret_sized, sized_step, PartialOp, SizedStep};
use crate::script::{head_of, rest_of, OpQueue};

verus! {

/// A readable stream together with the script that breaks its reads up.
///
/// A planned failure of the kind "would block" asks for the current task to be
/// woken, so that a caller that polls will try again.
#[derive(Debug)]
pub struct PartialAsyncRead<R> {
    inner: R,
    ops: OpQueue,
}

impl<R> PartialAsyncRead<R> {
    /// The underlying stream.
    pub closed spec fn stream(self) -> R {
        self.inner
    }

    /// The entries of the script that no read has consumed yet.
    pub closed spec fn script(self) -> Seq<PartialOp> {
        self.ops.pending()
    }

    /// Wraps `inner`, with `ops` as the script of its reads.
    pub fn new(inner: R, ops: Vec<PartialOp>) -> (wrapper: Self)
        ensures
            wrapper.stream() == inner,
            wrapper.script() == ops@,
    {
        PartialAsyncRead { inner, ops: OpQueue::new(ops) }
    }

    /// Replaces what is left of the script by `ops`. The stream is not touched.
    pub fn set_ops(&mut self, ops: Vec<PartialOp>) -> (this: &mut Self)
        ensures
            this.stream() == old(self).stream(),
            this.script() == ops@,
            *final(self) == *final(this),
    {
        self.ops.replace(ops);
        self
    }

    /// The underlying stream, borrowed.
    pub fn get_ref(&self) -> (inner: &R)
        ensures
            *inner == self.stream(),
    {
        &self.inner
    }

    /// The underlying stream, borrowed mutably. The script stays as it is.
    pub fn get_mut(&mut self) -> (inner: &mut R)
        ensures
            *inner == old(self).stream(),
            final(self).stream() == *final(inner),
            final(self).script() == old(self).script(),
    {
        &mut self.inner
    }

    /// Gives the underlying stream back and drops what is left of the script.
    pub fn into_inner(self) -> (inner: R)
        ensures
            inner == self.stream(),
    {
        self.inner
    }

    /// Consumes the next entry of the script and decides what a read into a
    /// buffer of `len` bytes does. The stream itself is not touched.
    pub fn next_read(&mut self, len: usize) -> (step: SizedStep)
        ensures
            step == sized_step(head_of(old(self).script()), len, true),
            step matches SizedStep::Forward { len: n } ==> n <= len,
            final(self).script() == rest_of(old(self).script()),
            final(self).stream() == old(self).stream(),
    {
        let op = self.ops.next();
        interpret_sized(op, len, true)
    }
}

} // verus!
