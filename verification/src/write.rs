//! A wrapper for a writable stream that is written on the caller's thread.
//!
//! Each write, flush and close consumes one entry of the script. The wrapper
//! decides what the call does; the caller that owns the I/O performs the step
//! on the stream.

use vstd::prelude::*;
use crate::op::{
    interpret_sized, interpret_unit, sized_step, unit_step, PartialOp, SizedStep, UnitStep,
};
use crate::script::{head_of, rest_of, OpQueue};

verus! {

/// A writable stream together with the script that breaks its calls up.
///
/// No task is ever woken: a planned failure is returned and that is all.
#[derive(Debug)]
pub struct PartialWrite<W> {
    inner: W,
    ops: OpQueue,
}

impl<W> PartialWrite<W> {
    /// The underlying stream.
    pub closed spec fn stream(self) -> W {
        self.inner
    }

    /// The entries of the script that no call has consumed yet.
    pub closed spec fn script(self) -> Seq<PartialOp> {
        self.ops.pending()
    }

    /// Wraps `inner`, with `ops` as the script of its writes, flushes and closes.
    pub fn new(inner: W, ops: Vec<PartialOp>) -> (wrapper: Self)
        ensures
            wrapper.stream() == inner,
            wrapper.script() == ops@,
    {
        PartialWrite { inner, ops: OpQueue::new(ops) }
    }

    /// Replaces what is left of the script by `ops`. The stream is not touched.
    pub fn set_ops(&mut self, ops: Vec<PartialOp>) -> (this: &mut Self)
        ensures
            this.stream() == old(self).stream(),
            this.script() == ops@,
            *final(self) == *final(this),
    {
        self.ops.replace(ops);
        self
    }

    /// The underlying stream, borrowed.
    pub fn get_ref(&self) -> (inner: &W)
        ensures
            *inner == self.stream(),
    {
        &self.inner
    }

    /// The underlying stream, borrowed mutably. The script stays as it is.
    pub fn get_mut(&mut self) -> (inner: &mut W)
        ensures
            *inner == old(self).stream(),
            final(self).stream() == *final(inner),
            final(self).script() == old(self).script(),
    {
        &mut self.inner
    }

    /// Gives the underlying stream back and drops what is left of the script.
    pub fn into_inner(self) -> (inner: W)
        ensures
            inner == self.stream(),
    {
        self.inner
    }

    /// Consumes the next entry of the script and decides what a write of a
    /// buffer of `len` bytes does. The stream itself is not touched.
    pub fn next_write(&mut self, len: usize) -> (step: SizedStep)
        ensures
            step == sized_step(head_of(old(self).script()), len, false),
            step matches SizedStep::Forward { len: n } ==> n <= len,
            final(self).script() == rest_of(old(self).script()),
            final(self).stream() == old(self).stream(),
    {
        let op = self.ops.next();
        interpret_sized(op, len, false)
    }

    /// Consumes the next entry of the script and decides what a flush does.
    /// The stream itself is not touched.
    pub fn next_flush(&mut self) -> (step: UnitStep)
        ensures
            step == unit_step(head_of(old(self).script()), false),
            final(self).script() == rest_of(old(self).script()),
            final(self).stream() == old(self).stream(),
    {
        let op = self.ops.next();
        interpret_unit(op, false)
    }

    /// Consumes the next entry of the script and decides what a close does.
    /// The stream itself is not touched.
    pub fn next_close(&mut self) -> (step: UnitStep)
        ensures
            step == unit_step(head_of(old(self).script()), false),
            final(self).script() == rest_of(old(self).script()),
            final(self).stream() == old(self).stream(),
    {
        let op = self.ops.next();
        interpret_unit(op, false)
    }
}

} // verus!
