use vstd::prelude::*;

verus! {

/// Why an operation was rejected.  Every error is terminal for the
/// current operation: nothing is retried and no partial state is kept.
#[derive(Clone, Copy, Debug, PartialEq, Eq, Structural)]
pub enum AmmError {
    /// A required input amount is zero, or exceeds the caller's balance.
    DepositTooSmall,
    /// A computed output is zero, below the caller's stated floor, or
    /// would drain a reserve vault completely.
    OutputTooSmall,
    /// Division by zero, a result that does not fit the output width,
    /// or a supply/reserve precondition that does not hold.
    CalculationError,
    /// The post-swap constant-product check failed.
    InvariantViolated,
    /// A deposit whose ratio does not match the current reserve ratio.
    UnbalancedDeposit,
    /// A pool cannot pair a token type with itself.
    InvalidPair,
    /// A second-phase initialization aimed at a mismatched pool record.
    PoolMismatch,
}

} // verus!
