//! The error type used by this library: a transport failure carried through
//! unchanged, or one of the driver's own protocol errors.

use vstd::prelude::*;

verus! {

/// The error type used by this library.
#[derive(Debug)]
pub enum Error<E> {
    /// The underlying bus transaction failed; the transport's own error,
    /// propagated unchanged.
    I2c(E),
    /// A verified write's read-back still differed from the written value
    /// after the final retry.
    WriteNotVerified {
        /// The register address written.
        register: u8,
        /// The value written.
        write: u16,
        /// The value the final read-back returned.
        read: u16,
    },
    /// A polling loop exhausted its iteration budget while the device kept
    /// reporting the polled condition. Every loop must provably
    /// terminate, so a budget always exists; by default it is the largest
    /// expressible, so this error is reserved for callers that opt into a
    /// real bound.
    PollBudgetExhausted {
        /// The register address polled.
        register: u8,
    },
}

} // verus!
