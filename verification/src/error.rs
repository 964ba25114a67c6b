//! The failure taxonomy of the instruction processor.

use vstd::prelude::*;

verus! {

/// Every way an invocation can fail. Each failure is terminal for
/// that invocation: nothing is retried and no state is committed.
#[derive(Clone, Copy, Debug, PartialEq, Eq, Structural)]
pub enum ProcessError {
    /// The instruction payload does not match the tagged encoding,
    /// or the configuration record's bytes cannot be decoded.
    DecodeError,
    /// The configure operation was attempted by an identity other
    /// than the program's own authority, or without a signature.
    Unauthorized,
    /// The configure operation was attempted on a record that is
    /// already initialized.
    AlreadyInitialized,
    /// The convert operation was attempted before any successful
    /// configure.
    NotConfigured,
    /// The supplied price-source identity differs from the one the
    /// record was configured with.
    UntrustedSource,
    /// The price-source account's bytes could not be decoded as a
    /// valid price feed.
    MalformedFeed,
    /// The price snapshot is older than the staleness bound allows.
    StalePrice,
    /// A step of the conversion arithmetic left the integer range,
    /// or divided by zero.
    ArithmeticOverflow,
    /// The conversion arithmetic produced a negative amount.
    NegativeResult,
    /// The caller's balance is strictly below the computed amount.
    InsufficientFunds,
    /// The external ledger transfer itself failed.
    TransferFailed,
}

} // verus!
