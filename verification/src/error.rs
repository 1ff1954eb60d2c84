use vstd::prelude::*;

verus! {

/// Why an operation of the clearing house was abandoned.
#[derive(Clone, Copy, Debug, PartialEq, Eq, Structural)]
pub enum ErrorCode {
    /// An overflow, an underflow, a division by zero or a cast out of range.
    MathError,
    /// The oracle account could not be read or does not hold a price feed.
    UnableToLoadOracle,
    /// A position names a market that the registry does not hold.
    MarketNotFound,
}

} // verus!
