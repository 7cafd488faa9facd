use vstd::prelude::*;

verus! {

/// The program's own error codes, in the order in which the program declares
/// them.
#[derive(Clone, Copy, Debug, PartialEq, Eq, Structural)]
pub enum BondError {
    InsufficientFundsError,
    TokenMintError,
    BackPriceError,
    SpotPriceError,
    DeductionError,
    TreasuryFundError,
    CollateralError,
    BondNotFinished,
    CreatorError,
    AlreadyRedeem,
    UnstakingError,
    IncorrectOwner,
}

/// Why an instruction does not go through.
///
/// `Program` is an error that the instruction returns to its caller. Every
/// other variant is an abort of the whole instruction: one of the program's
/// own assertions failing, or arithmetic that leaves the range of its type.
#[derive(Clone, Copy, Debug, PartialEq, Eq, Structural)]
pub enum SaturnError {
    /// An error code returned by the instruction.
    Program(BondError),
    /// The bond account already has a creator.
    BondAlreadyInitialized,
    /// The bond quote is older than the quote validity window allows.
    QuoteExpired,
    /// The bond has been redeemed before.
    BondAlreadyRedeemed,
    /// The signer is not the treasury's quote key.
    UnauthorizedQuoteUpdate,
    /// The holder does not have more tokens than it asks to cash out.
    NotEnoughTokens,
    /// The supply changed since the last quote update.
    MintedSupplyChanged,
    /// A division by zero.
    DivisionByZero,
    /// An addition, subtraction or multiplication outside its type's range.
    ArithmeticOverflow,
}

} // verus!
