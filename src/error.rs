use vstd::prelude::*;

verus! {

/// Why an operation of the pool was refused. A refused operation has no effect.
#[derive(Clone, Copy, Debug, PartialEq, Eq, Structural)]
pub enum PoolError {
    /// The request violates an invariant of the pool (a cap, an unsupported
    /// swap, missing accounts, a basket of the wrong shape).
    InvalidArgument,
    /// The pool does not recognise the instruction.
    InvalidInstructionData,
    /// A quantity would not fit its integer type, or a fee exceeds the request.
    ArithmeticOverflow,
    /// Token account or mint data could not be read.
    InvalidAccountData,
    /// An account holds less than the operation moves out of it.
    InsufficientFunds,
}

} // verus!
