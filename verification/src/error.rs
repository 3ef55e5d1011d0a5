//! The driver's error taxonomy. Every failure is returned to the caller as
//! a typed value; nothing is swallowed or retried beyond the bounded
//! nonvolatile busy-poll.

use crate::register::RegisterNvm;
use vstd::prelude::*;

verus! {

/// What can go wrong in a driver operation.
#[derive(Clone, Copy, Debug, PartialEq)]
pub enum Error<E> {
    /// Identity validation at construction found an unexpected device
    /// (the returned value is the argument).
    InvalidDevice(u8),
    /// The underlying bus transport failed; the transport's own error is
    /// carried along.
    BusError(E),
    /// The nonvolatile busy-poll reached its retry ceiling while the
    /// device still reported itself busy.
    Timeout,
    /// The device reported a failed nonvolatile operation on the named
    /// register.
    NonvolatileError(RegisterNvm),
    /// A caller-supplied parameter failed validation before any bus
    /// transaction was attempted; the offending raw input is carried along.
    InvalidConfigurationValue(u16),
}

} // verus!
