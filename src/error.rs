use vstd::prelude::*;

verus! {

/// Why an instruction was refused.
#[derive(Clone, Copy, Debug, PartialEq, Eq, Structural)]
pub enum MarketError {
    /// Unknown opcode or a payload of the wrong length.
    InvalidInstructionData,
    /// Missing signer, address mismatch, or a balance that would overflow.
    InvalidArgument,
    /// A record that had to be owned by the program is not.
    MissingRequiredSignature,
    /// A record's bytes do not have the layout its kind requires.
    InvalidAccountData,
    /// Fewer accounts than the instruction reads.
    NotEnoughAccountKeys,
    /// An allocation target already holds funds or data.
    AccountAlreadyInUse,
    /// A payer holds less than the amount it is asked to move.
    InsufficientFunds,
    /// Crediting an account would overflow its balance.
    ArithmeticOverflow,
}

} // verus!
