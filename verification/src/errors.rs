//! The errors the market engine reports.

use vstd::prelude::*;

verus! {

/// Every way an operation of the engine can fail.
///
/// An operation that fails leaves all state as it found it.
#[allow(non_camel_case_types)]
#[derive(Clone, Copy, Debug, PartialEq, Eq, Structural)]
pub enum PredictionMarketError {
    /// A value lies below the smallest one allowed.
    ValueTooSmall,
    /// A value lies above the largest one allowed.
    ValueTooLarge,
    /// A value is not among the ones allowed.
    ValueInvalid,
    /// The account offered as configuration is not one.
    IncorrectConfigAccount,
    /// The caller is not the authority the operation asks for.
    IncorrectAuthority,
    /// A computation left the range of its type.
    OverflowOrUnderflowOccurred,
    /// An amount is zero or out of range.
    InvalidAmount,
    /// The team wallet is not the configured one.
    IncorrectTeamWallet,
    /// The curve has to be completed first.
    CurveNotCompleted,
    /// No swap is possible once the curve is completed.
    CurveAlreadyCompleted,
    /// The mint authority has not been revoked.
    MintAuthorityEnabled,
    /// The freeze authority has not been revoked.
    FreezeAuthorityEnabled,
    /// The swap would return less than the caller's floor.
    ReturnAmountTooSmall,
    /// The market maker exists already.
    AmmAlreadyExists,
    /// The global state has not been initialised.
    NotInitialized,
    /// The global authority does not match.
    InvalidGlobalAuthority,
    /// The creator is not on the whitelist.
    NotWhiteList,
    /// The operation does not belong to this launch phase.
    IncorrectLaunchPhase,
    /// The seller holds fewer tokens than the order asks for.
    InsufficientTokens,
    /// The pool holds less collateral than the operation asks for.
    InsufficientSol,
    /// A sell did not go through.
    SellFailed,
    /// A buy did not go through.
    BuyFailed,
    /// The token does not belong to a bonding curve.
    NotBondingCurveMint,
    /// The quote mint is not the native one.
    NotSOL,
    /// The migration authority does not match.
    InvalidMigrationAuthority,
    /// The bonding curve is not completed.
    NotCompleted,
    /// The pool program is not the expected one.
    InvalidMeteoraProgram,
    /// A fee, curve or payout computation overflowed or could not be carried out.
    ArithmeticError,
    /// A parameter is out of range.
    InvalidParameter,
    /// The start slot lies in the past.
    InvalidStartTime,
    /// The end slot lies in the past or before the start slot.
    InvalidEndTime,
    /// The global state is initialised already.
    AlreadyInitialized,
    /// The authority does not match.
    InvalidAuthority,
    /// An argument is not acceptable.
    InvalidArgument,
    /// The market has not been completed yet.
    MarketNotCompleted,
    /// The market has been completed.
    MarketIsCompleted,
    /// The winning outcome is neither of the two outcomes.
    RESOLUTIONTOKEYTYPEERROR,
    /// The payout amount for the first outcome is wrong.
    RESOLUTIONYESAMOUNTERROR,
    /// The payout amount for the second outcome is wrong.
    RESOLUTIONNOAMOUNTERROR,
    /// A liquidity amount is zero or exceeds the provider's entitlement.
    WITHDRAWLIQUIDITYSOLAMOUNTERROR,
    /// The caller has no liquidity record in this market.
    WITHDRAWNOTLPERROR,
}

impl PredictionMarketError {
    /// The position of the variant in the declaration, counted from zero.
    pub open spec fn ordinal(self) -> nat {
        match self {
            PredictionMarketError::ValueTooSmall => 0,
            PredictionMarketError::ValueTooLarge => 1,
            PredictionMarketError::ValueInvalid => 2,
            PredictionMarketError::IncorrectConfigAccount => 3,
            PredictionMarketError::IncorrectAuthority => 4,
            PredictionMarketError::OverflowOrUnderflowOccurred => 5,
            PredictionMarketError::InvalidAmount => 6,
            PredictionMarketError::IncorrectTeamWallet => 7,
            PredictionMarketError::CurveNotCompleted => 8,
            PredictionMarketError::CurveAlreadyCompleted => 9,
            PredictionMarketError::MintAuthorityEnabled => 10,
            PredictionMarketError::FreezeAuthorityEnabled => 11,
            PredictionMarketError::ReturnAmountTooSmall => 12,
            PredictionMarketError::AmmAlreadyExists => 13,
            PredictionMarketError::NotInitialized => 14,
            PredictionMarketError::InvalidGlobalAuthority => 15,
            PredictionMarketError::NotWhiteList => 16,
            PredictionMarketError::IncorrectLaunchPhase => 17,
            PredictionMarketError::InsufficientTokens => 18,
            PredictionMarketError::InsufficientSol => 19,
            PredictionMarketError::SellFailed => 20,
            PredictionMarketError::BuyFailed => 21,
            PredictionMarketError::NotBondingCurveMint => 22,
            PredictionMarketError::NotSOL => 23,
            PredictionMarketError::InvalidMigrationAuthority => 24,
            PredictionMarketError::NotCompleted => 25,
            PredictionMarketError::InvalidMeteoraProgram => 26,
            PredictionMarketError::ArithmeticError => 27,
            PredictionMarketError::InvalidParameter => 28,
            PredictionMarketError::InvalidStartTime => 29,
            PredictionMarketError::InvalidEndTime => 30,
            PredictionMarketError::AlreadyInitialized => 31,
            PredictionMarketError::InvalidAuthority => 32,
            PredictionMarketError::InvalidArgument => 33,
            PredictionMarketError::MarketNotCompleted => 34,
            PredictionMarketError::MarketIsCompleted => 35,
            PredictionMarketError::RESOLUTIONTOKEYTYPEERROR => 36,
            PredictionMarketError::RESOLUTIONYESAMOUNTERROR => 37,
            PredictionMarketError::RESOLUTIONNOAMOUNTERROR => 38,
            PredictionMarketError::WITHDRAWLIQUIDITYSOLAMOUNTERROR => 39,
            PredictionMarketError::WITHDRAWNOTLPERROR => 40,
        }
    }

    /// The numeric code under which the error is reported: the base code
    /// plus the variant's position.
    pub fn code(&self) -> (code: u32)
        ensures
            code == ERROR_CODE_OFFSET + self.ordinal(),
    {
        match self {
            PredictionMarketError::ValueTooSmall => ERROR_CODE_OFFSET + 0,
            PredictionMarketError::ValueTooLarge => ERROR_CODE_OFFSET + 1,
            PredictionMarketError::ValueInvalid => ERROR_CODE_OFFSET + 2,
            PredictionMarketError::IncorrectConfigAccount => ERROR_CODE_OFFSET + 3,
            PredictionMarketError::IncorrectAuthority => ERROR_CODE_OFFSET + 4,
            PredictionMarketError::OverflowOrUnderflowOccurred => ERROR_CODE_OFFSET + 5,
            PredictionMarketError::InvalidAmount => ERROR_CODE_OFFSET + 6,
            PredictionMarketError::IncorrectTeamWallet => ERROR_CODE_OFFSET + 7,
            PredictionMarketError::CurveNotCompleted => ERROR_CODE_OFFSET + 8,
            PredictionMarketError::CurveAlreadyCompleted => ERROR_CODE_OFFSET + 9,
            PredictionMarketError::MintAuthorityEnabled => ERROR_CODE_OFFSET + 10,
            PredictionMarketError::FreezeAuthorityEnabled => ERROR_CODE_OFFSET + 11,
            PredictionMarketError::ReturnAmountTooSmall => ERROR_CODE_OFFSET + 12,
            PredictionMarketError::AmmAlreadyExists => ERROR_CODE_OFFSET + 13,
            PredictionMarketError::NotInitialized => ERROR_CODE_OFFSET + 14,
            PredictionMarketError::InvalidGlobalAuthority => ERROR_CODE_OFFSET + 15,
            PredictionMarketError::NotWhiteList => ERROR_CODE_OFFSET + 16,
            PredictionMarketError::IncorrectLaunchPhase => ERROR_CODE_OFFSET + 17,
            PredictionMarketError::InsufficientTokens => ERROR_CODE_OFFSET + 18,
            PredictionMarketError::InsufficientSol => ERROR_CODE_OFFSET + 19,
            PredictionMarketError::SellFailed => ERROR_CODE_OFFSET + 20,
            PredictionMarketError::BuyFailed => ERROR_CODE_OFFSET + 21,
            PredictionMarketError::NotBondingCurveMint => ERROR_CODE_OFFSET + 22,
            PredictionMarketError::NotSOL => ERROR_CODE_OFFSET + 23,
            PredictionMarketError::InvalidMigrationAuthority => ERROR_CODE_OFFSET + 24,
            PredictionMarketError::NotCompleted => ERROR_CODE_OFFSET + 25,
            PredictionMarketError::InvalidMeteoraProgram => ERROR_CODE_OFFSET + 26,
            PredictionMarketError::ArithmeticError => ERROR_CODE_OFFSET + 27,
            PredictionMarketError::InvalidParameter => ERROR_CODE_OFFSET + 28,
            PredictionMarketError::InvalidStartTime => ERROR_CODE_OFFSET + 29,
            PredictionMarketError::InvalidEndTime => ERROR_CODE_OFFSET + 30,
            PredictionMarketError::AlreadyInitialized => ERROR_CODE_OFFSET + 31,
            PredictionMarketError::InvalidAuthority => ERROR_CODE_OFFSET + 32,
            PredictionMarketError::InvalidArgument => ERROR_CODE_OFFSET + 33,
            PredictionMarketError::MarketNotCompleted => ERROR_CODE_OFFSET + 34,
            PredictionMarketError::MarketIsCompleted => ERROR_CODE_OFFSET + 35,
            PredictionMarketError::RESOLUTIONTOKEYTYPEERROR => ERROR_CODE_OFFSET + 36,
            PredictionMarketError::RESOLUTIONYESAMOUNTERROR => ERROR_CODE_OFFSET + 37,
            PredictionMarketError::RESOLUTIONNOAMOUNTERROR => ERROR_CODE_OFFSET + 38,
            PredictionMarketError::WITHDRAWLIQUIDITYSOLAMOUNTERROR => ERROR_CODE_OFFSET + 39,
            PredictionMarketError::WITHDRAWNOTLPERROR => ERROR_CODE_OFFSET + 40,
        }
    }

    /// The text that goes with the error.
    pub open spec fn message_text(self) -> &'static str {
        match self {
            PredictionMarketError::ValueTooSmall => "ValueTooSmall",
            PredictionMarketError::ValueTooLarge => "ValueTooLarge",
            PredictionMarketError::ValueInvalid => "ValueInvalid",
            PredictionMarketError::IncorrectConfigAccount => "IncorrectConfigAccount",
            PredictionMarketError::IncorrectAuthority => "IncorrectAuthority",
            PredictionMarketError::OverflowOrUnderflowOccurred => "Overflow or underflow occured",
            PredictionMarketError::InvalidAmount => "Amount is invalid",
            PredictionMarketError::IncorrectTeamWallet => "Incorrect team wallet address",
            PredictionMarketError::CurveNotCompleted => "Curve is not completed",
            PredictionMarketError::CurveAlreadyCompleted => "Can not swap after the curve is completed",
            PredictionMarketError::MintAuthorityEnabled => "Mint authority should be revoked",
            PredictionMarketError::FreezeAuthorityEnabled => "Freeze authority should be revoked",
            PredictionMarketError::ReturnAmountTooSmall => "Return amount is too small compared to the minimum received amount",
            PredictionMarketError::AmmAlreadyExists => "AMM is already exist",
            PredictionMarketError::NotInitialized => "Global Not Initialized",
            PredictionMarketError::InvalidGlobalAuthority => "Invalid Global Authority",
            PredictionMarketError::NotWhiteList => "This creator is not in whitelist",
            PredictionMarketError::IncorrectLaunchPhase => "IncorrectLaunchPhase",
            PredictionMarketError::InsufficientTokens => "Not enough tokens to complete the sell order.",
            PredictionMarketError::InsufficientSol => "Not enough SOL received to be valid.",
            PredictionMarketError::SellFailed => "Sell Failed",
            PredictionMarketError::BuyFailed => "Buy Failed",
            PredictionMarketError::NotBondingCurveMint => "This token is not a bonding curve token",
            PredictionMarketError::NotSOL => "Not quote mint",
            PredictionMarketError::InvalidMigrationAuthority => "Invalid Migration Authority",
            PredictionMarketError::NotCompleted => "Bonding curve is not completed",
            PredictionMarketError::InvalidMeteoraProgram => "Invalid Meteora Program",
            PredictionMarketError::ArithmeticError => "Arithmetic Error",
            PredictionMarketError::InvalidParameter => "Invalid Parameter",
            PredictionMarketError::InvalidStartTime => "Start time is in the past",
            PredictionMarketError::InvalidEndTime => "End time is in the past",
            PredictionMarketError::AlreadyInitialized => "Global Already Initialized",
            PredictionMarketError::InvalidAuthority => "Invalid Authority",
            PredictionMarketError::InvalidArgument => "Invalid Argument",
            PredictionMarketError::MarketNotCompleted => "The market has already ended.",
            PredictionMarketError::MarketIsCompleted => "The market already ended.",
            PredictionMarketError::RESOLUTIONTOKEYTYPEERROR => "The winner token type error.",
            PredictionMarketError::RESOLUTIONYESAMOUNTERROR => "The winner yes token amount error.",
            PredictionMarketError::RESOLUTIONNOAMOUNTERROR => "The winner no token amount error.",
            PredictionMarketError::WITHDRAWLIQUIDITYSOLAMOUNTERROR => "The withdraw sol amount error.",
            PredictionMarketError::WITHDRAWNOTLPERROR => "The withdraw: not lp error.",
        }
    }

    /// The text that goes with the error.
    pub fn message(&self) -> (text: &'static str)
        ensures
            text == self.message_text(),
    {
        match self {
            PredictionMarketError::ValueTooSmall => "ValueTooSmall",
            PredictionMarketError::ValueTooLarge => "ValueTooLarge",
            PredictionMarketError::ValueInvalid => "ValueInvalid",
            PredictionMarketError::IncorrectConfigAccount => "IncorrectConfigAccount",
            PredictionMarketError::IncorrectAuthority => "IncorrectAuthority",
            PredictionMarketError::OverflowOrUnderflowOccurred => "Overflow or underflow occured",
            PredictionMarketError::InvalidAmount => "Amount is invalid",
            PredictionMarketError::IncorrectTeamWallet => "Incorrect team wallet address",
            PredictionMarketError::CurveNotCompleted => "Curve is not completed",
            PredictionMarketError::CurveAlreadyCompleted => "Can not swap after the curve is completed",
            PredictionMarketError::MintAuthorityEnabled => "Mint authority should be revoked",
            PredictionMarketError::FreezeAuthorityEnabled => "Freeze authority should be revoked",
            PredictionMarketError::ReturnAmountTooSmall => "Return amount is too small compared to the minimum received amount",
            PredictionMarketError::AmmAlreadyExists => "AMM is already exist",
            PredictionMarketError::NotInitialized => "Global Not Initialized",
            PredictionMarketError::InvalidGlobalAuthority => "Invalid Global Authority",
            PredictionMarketError::NotWhiteList => "This creator is not in whitelist",
            PredictionMarketError::IncorrectLaunchPhase => "IncorrectLaunchPhase",
            PredictionMarketError::InsufficientTokens => "Not enough tokens to complete the sell order.",
            PredictionMarketError::InsufficientSol => "Not enough SOL received to be valid.",
            PredictionMarketError::SellFailed => "Sell Failed",
            PredictionMarketError::BuyFailed => "Buy Failed",
            PredictionMarketError::NotBondingCurveMint => "This token is not a bonding curve token",
            PredictionMarketError::NotSOL => "Not quote mint",
            PredictionMarketError::InvalidMigrationAuthority => "Invalid Migration Authority",
            PredictionMarketError::NotCompleted => "Bonding curve is not completed",
            PredictionMarketError::InvalidMeteoraProgram => "Invalid Meteora Program",
            PredictionMarketError::ArithmeticError => "Arithmetic Error",
            PredictionMarketError::InvalidParameter => "Invalid Parameter",
            PredictionMarketError::InvalidStartTime => "Start time is in the past",
            PredictionMarketError::InvalidEndTime => "End time is in the past",
            PredictionMarketError::AlreadyInitialized => "Global Already Initialized",
            PredictionMarketError::InvalidAuthority => "Invalid Authority",
            PredictionMarketError::InvalidArgument => "Invalid Argument",
            PredictionMarketError::MarketNotCompleted => "The market has already ended.",
            PredictionMarketError::MarketIsCompleted => "The market already ended.",
            PredictionMarketError::RESOLUTIONTOKEYTYPEERROR => "The winner token type error.",
            PredictionMarketError::RESOLUTIONYESAMOUNTERROR => "The winner yes token amount error.",
            PredictionMarketError::RESOLUTIONNOAMOUNTERROR => "The winner no token amount error.",
            PredictionMarketError::WITHDRAWLIQUIDITYSOLAMOUNTERROR => "The withdraw sol amount error.",
            PredictionMarketError::WITHDRAWNOTLPERROR => "The withdraw: not lp error.",
        }
    }
}

/// The code of the first variant; the others follow in order.
pub const ERROR_CODE_OFFSET: u32 = 6000;

} // verus!
