//! Planned outcomes and the rule that turns one of them into a step.
//!
//! A call on a wrapped stream is either *sized* (a read or a write over a
//! buffer of some length) or a *unit* (a flush or a close). The interpreter
//! takes the planned outcome for the call and says what the wrapper has to do:
//! hand a prefix of the buffer to the underlying stream, do nothing, or fail.

use vstd::prelude::*;

verus! {

/// `std::io::ErrorKind`, the standard classification of I/O failures. Its
/// variants are visible to the verifier, so two kinds are equal in a contract
/// exactly when they are the same variant.
#[verifier::external_type_specification]
pub struct ExErrorKind(std::io::ErrorKind);

/// What the next call on a wrapped stream is allowed to do.
#[derive(Clone, Copy, Debug, PartialEq, Eq)]
pub enum PartialOp {
    /// Perform at most this many bytes of the requested operation.
    Limited(usize),
    /// Perform the requested operation in full.
    Unlimited,
    /// Perform nothing and fail with this kind.
    Error(std::io::ErrorKind),
}

/// What a wrapper does for one sized call.
#[derive(Clone, Copy, Debug, PartialEq, Eq)]
pub enum SizedStep {
    /// Call the underlying stream once, on the first `len` bytes of the
    /// caller's buffer, and return whatever it returns.
    Forward { len: usize },
    /// Leave the underlying stream and the buffer alone and fail with `kind`.
    /// With `wake` set, the current task is first marked to be polled again.
    Fail { kind: std::io::ErrorKind, wake: bool },
}

/// What a wrapper does for one unit call.
#[derive(Clone, Copy, Debug, PartialEq, Eq)]
pub enum UnitStep {
    /// Call the underlying stream once and return whatever it returns.
    Forward,
    /// Leave the underlying stream alone and report success.
    Skip,
    /// Leave the underlying stream alone and fail with `kind`.
    /// With `wake` set, the current task is first marked to be polled again.
    Fail { kind: std::io::ErrorKind, wake: bool },
}

/// Whether a planned failure of this kind asks for the task to be woken:
/// only on a wrapper that takes part in cooperative scheduling, and only for
/// the kind that means "not ready yet".
pub open spec fn wakes(kind: std::io::ErrorKind, scheduled: bool) -> bool {
    scheduled && kind == std::io::ErrorKind::WouldBlock
}

/// The number of bytes that a sized call of length `len` may touch under `op`.
/// A planned failure touches none.
pub open spec fn allowed_len(op: PartialOp, len: nat) -> nat {
    match op {
        PartialOp::Unlimited => len,
        PartialOp::Limited(n) => if n <= len { n as nat } else { len },
        PartialOp::Error(_) => 0,
    }
}

/// The step for a sized call over a buffer of `len` bytes.
pub open spec fn sized_step(op: PartialOp, len: usize, scheduled: bool) -> SizedStep {
    match op {
        PartialOp::Error(kind) => SizedStep::Fail { kind, wake: wakes(kind, scheduled) },
        _ => SizedStep::Forward { len: allowed_len(op, len as nat) as usize },
    }
}

/// The step for a unit call. A limit has no meaning for a unit, so a limited
/// unit is skipped.
pub open spec fn unit_step(op: PartialOp, scheduled: bool) -> UnitStep {
    match op {
        PartialOp::Unlimited => UnitStep::Forward,
        PartialOp::Limited(_) => UnitStep::Skip,
        PartialOp::Error(kind) => UnitStep::Fail { kind, wake: wakes(kind, scheduled) },
    }
}

/// Decides whether a planned failure wakes the current task.
pub fn should_wake(kind: std::io::ErrorKind, scheduled: bool) -> (wake: bool)
    ensures
        wake == wakes(kind, scheduled),
{
    match kind {
        std::io::ErrorKind::WouldBlock => scheduled,
        _ => false,
    }
}

/// Decides what one sized call does under `op`.
pub fn interpret_sized(op: PartialOp, len: usize, scheduled: bool) -> (step: SizedStep)
    ensures
        step == sized_step(op, len, scheduled),
        step matches SizedStep::Forward { len: n } ==> n <= len,
{
    match op {
        PartialOp::Unlimited => SizedStep::Forward { len },
        PartialOp::Limited(n) => {
            if n <= len {
                SizedStep::Forward { len: n }
            } else {
                SizedStep::Forward { len }
            }
        },
        PartialOp::Error(kind) => SizedStep::Fail { kind, wake: should_wake(kind, scheduled) },
    }
}

/// Decides what one unit call does under `op`.
pub fn interpret_unit(op: PartialOp, scheduled: bool) -> (step: UnitStep)
    ensures
        step == unit_step(op, scheduled),
{
    match op {
        PartialOp::Unlimited => UnitStep::Forward,
        PartialOp::Limited(_) => UnitStep::Skip,
        PartialOp::Error(kind) => UnitStep::Fail { kind, wake: should_wake(kind, scheduled) },
    }
}

} // verus!
