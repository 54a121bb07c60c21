//! The catalog of failure kinds: the ordered, closed set of reasons the
//! pool program can reject an instruction, each with a stable integer ordinal.
use vstd::prelude::*;

verus! {

/// How many kinds the catalog declares.
pub const KIND_COUNT: u32 = 59;

/// One failure kind of the pool program.
///
/// Each kind's ordinal is its declaration position, starting at 0. Ordinals
/// are published to clients that decode them, so kinds may only be appended
/// before the terminal fallback; existing kinds are never reordered,
/// renumbered or removed. `UnknownAmmError` is the fallback kind and holds
/// the last ordinal.
#[derive(Clone, Copy, Debug, PartialEq, Eq, Structural)]
pub enum AmmError {
    /// The pc vault provided does not match the pc vault of the pool.
    InvalidPCVault,
    /// The token_lp provided does not match the token_lp of the pool.
    InvalidTokenLP,
    /// The dest_token_coin provided does not match the one recorded for withdrawal.
    InvalidDestTokenCoin,
    /// The dest_token_pc provided does not match the one recorded for withdrawal.
    InvalidDestTokenPC,
    /// The pool_mint provided does not match the pool_mint of the pool.
    InvalidPoolMint,
    /// The open_orders provided does not match the open_orders of the pool.
    InvalidOpenOrders,
    /// The market provided does not match the market of the pool.
    InvalidMarket,
    /// The market program provided does not match the market program of the pool.
    InvalidMarketProgram,
    /// The target_orders provided does not match the target_orders of the pool.
    InvalidTargetOrders,
    /// The account provided must be writeable.
    AccountNeedWriteable,
    /// The account provided must be read-only.
    AccountNeedReadOnly,
    /// The token_coin's mint provided does not match the coin_mint's key.
    InvalidCoinMint,
    /// The token_pc's mint provided does not match the pc_mint's key.
    InvalidPCMint,
    /// The owner of the input is not the program-derived address.
    InvalidOwner,
    /// The initialized pool had a non-zero supply.
    InvalidSupply,
    /// The initialized token has a delegate.
    InvalidDelegate,
    /// The sign account is invalid.
    InvalidSignAccount,
    /// The pool status is invalid.
    InvalidStatus,
    /// An invalid instruction number was passed in.
    InvalidInstruction,
    /// The number of accounts provided does not match the expectation.
    WrongAccountsNumber,
    /// The target account owner does not match this program.
    InvalidTargetAccountOwner,
    /// The owner saved in the target does not match this pool.
    InvalidTargetOwner,
    /// The pool account owner does not match this program.
    InvalidAmmAccountOwner,
    /// The params set is invalid.
    InvalidParamsSet,
    /// The params input is invalid.
    InvalidInput,
    /// The instruction exceeds the desired slippage limit.
    ExceededSlippage,
    /// The exchange-rate calculation failed.
    CalculationExRateFailure,
    /// A checked subtraction overflowed.
    CheckedSubOverflow,
    /// A checked addition overflowed.
    CheckedAddOverflow,
    /// A checked multiplication overflowed.
    CheckedMulOverflow,
    /// A checked division overflowed.
    CheckedDivOverflow,
    /// Funds were empty.
    CheckedEmptyFunds,
    /// Calculating the pnl failed.
    CalcPnlError,
    /// The SPL token program is invalid.
    InvalidSplTokenProgram,
    /// Taking the pnl failed.
    TakePnlError,
    /// Insufficient funds.
    InsufficientFunds,
    /// Conversion to u64 failed with an overflow or underflow.
    ConversionFailure,
    /// The user token input does not match the pool.
    InvalidUserToken,
    /// The srm_token's mint provided does not match the expected key.
    InvalidSrmMint,
    /// The srm_token provided does not match the srm_token of the program.
    InvalidSrmToken,
    /// Too many open orders.
    TooManyOpenOrders,
    /// An order is already placed at the slot.
    OrderAtSlotIsPlaced,
    /// The system program address is invalid.
    InvalidSysProgramAddress,
    /// The provided fee does not match the program owner's constraints.
    InvalidFee,
    /// A pool was already created for this market.
    RepeatCreateAmm,
    /// Zero LP is not allowed.
    NotAllowZeroLP,
    /// The provided token account has a close authority.
    InvalidCloseAuthority,
    /// The pool token mint has a freeze authority.
    InvalidFreezeAuthority,
    /// The referrer_pc_wallet's mint provided does not match the pc_mint's key.
    InvalidReferPCMint,
    /// The config account is invalid.
    InvalidConfigAccount,
    /// The config account was already created.
    RepeatCreateConfigAccount,
    /// The market lot size is too large.
    MarketLotSizeIsTooLarge,
    /// The initial lp amount is too small, because 10**lp_decimals of lp will be locked.
    InitLpAmountTooLess,
    /// The account cannot be initialized because it is already in use.
    AlreadyInUse,
    /// The program address derived does not match the expected one.
    InvalidProgramAddress,
    /// The account was expected to be a mint.
    ExpectedMint,
    /// The account was expected to be a token account.
    ExpectedAccount,
    /// The coin vault provided does not match the coin vault of the pool.
    InvalidCoinVault,
    /// Fallback kind when no specific category applies.
    UnknownAmmError,
}

impl AmmError {
    /// The kind's ordinal: its 0-based declaration position in the catalog.
    pub open spec fn spec_ordinal(self) -> u32 {
        match self {
            AmmError::InvalidPCVault => 0,
            AmmError::InvalidTokenLP => 1,
            AmmError::InvalidDestTokenCoin => 2,
            AmmError::InvalidDestTokenPC => 3,
            AmmError::InvalidPoolMint => 4,
            AmmError::InvalidOpenOrders => 5,
            AmmError::InvalidMarket => 6,
            AmmError::InvalidMarketProgram => 7,
            AmmError::InvalidTargetOrders => 8,
            AmmError::AccountNeedWriteable => 9,
            AmmError::AccountNeedReadOnly => 10,
            AmmError::InvalidCoinMint => 11,
            AmmError::InvalidPCMint => 12,
            AmmError::InvalidOwner => 13,
            AmmError::InvalidSupply => 14,
            AmmError::InvalidDelegate => 15,
            AmmError::InvalidSignAccount => 16,
            AmmError::InvalidStatus => 17,
            AmmError::InvalidInstruction => 18,
            AmmError::WrongAccountsNumber => 19,
            AmmError::InvalidTargetAccountOwner => 20,
            AmmError::InvalidTargetOwner => 21,
            AmmError::InvalidAmmAccountOwner => 22,
            AmmError::InvalidParamsSet => 23,
            AmmError::InvalidInput => 24,
            AmmError::ExceededSlippage => 25,
            AmmError::CalculationExRateFailure => 26,
            AmmError::CheckedSubOverflow => 27,
            AmmError::CheckedAddOverflow => 28,
            AmmError::CheckedMulOverflow => 29,
            AmmError::CheckedDivOverflow => 30,
            AmmError::CheckedEmptyFunds => 31,
            AmmError::CalcPnlError => 32,
            AmmError::InvalidSplTokenProgram => 33,
            AmmError::TakePnlError => 34,
            AmmError::InsufficientFunds => 35,
            AmmError::ConversionFailure => 36,
            AmmError::InvalidUserToken => 37,
            AmmError::InvalidSrmMint => 38,
            AmmError::InvalidSrmToken => 39,
            AmmError::TooManyOpenOrders => 40,
            AmmError::OrderAtSlotIsPlaced => 41,
            AmmError::InvalidSysProgramAddress => 42,
            AmmError::InvalidFee => 43,
            AmmError::RepeatCreateAmm => 44,
            AmmError::NotAllowZeroLP => 45,
            AmmError::InvalidCloseAuthority => 46,
            AmmError::InvalidFreezeAuthority => 47,
            AmmError::InvalidReferPCMint => 48,
            AmmError::InvalidConfigAccount => 49,
            AmmError::RepeatCreateConfigAccount => 50,
            AmmError::MarketLotSizeIsTooLarge => 51,
            AmmError::InitLpAmountTooLess => 52,
            AmmError::AlreadyInUse => 53,
            AmmError::InvalidProgramAddress => 54,
            AmmError::ExpectedMint => 55,
            AmmError::ExpectedAccount => 56,
            AmmError::InvalidCoinVault => 57,
            AmmError::UnknownAmmError => 58,
        }
    }

    /// Returns the kind's stable ordinal.
    pub fn ordinal(&self) -> (code: u32)
        ensures
            code == self.spec_ordinal(),
    {
        match self {
            AmmError::InvalidPCVault => 0,
            AmmError::InvalidTokenLP => 1,
            AmmError::InvalidDestTokenCoin => 2,
            AmmError::InvalidDestTokenPC => 3,
            AmmError::InvalidPoolMint => 4,
            AmmError::InvalidOpenOrders => 5,
            AmmError::InvalidMarket => 6,
            AmmError::InvalidMarketProgram => 7,
            AmmError::InvalidTargetOrders => 8,
            AmmError::AccountNeedWriteable => 9,
            AmmError::AccountNeedReadOnly => 10,
            AmmError::InvalidCoinMint => 11,
            AmmError::InvalidPCMint => 12,
            AmmError::InvalidOwner => 13,
            AmmError::InvalidSupply => 14,
            AmmError::InvalidDelegate => 15,
            AmmError::InvalidSignAccount => 16,
            AmmError::InvalidStatus => 17,
            AmmError::InvalidInstruction => 18,
            AmmError::WrongAccountsNumber => 19,
            AmmError::InvalidTargetAccountOwner => 20,
            AmmError::InvalidTargetOwner => 21,
            AmmError::InvalidAmmAccountOwner => 22,
            AmmError::InvalidParamsSet => 23,
            AmmError::InvalidInput => 24,
            AmmError::ExceededSlippage => 25,
            AmmError::CalculationExRateFailure => 26,
            AmmError::CheckedSubOverflow => 27,
            AmmError::CheckedAddOverflow => 28,
            AmmError::CheckedMulOverflow => 29,
            AmmError::CheckedDivOverflow => 30,
            AmmError::CheckedEmptyFunds => 31,
            AmmError::CalcPnlError => 32,
            AmmError::InvalidSplTokenProgram => 33,
            AmmError::TakePnlError => 34,
            AmmError::InsufficientFunds => 35,
            AmmError::ConversionFailure => 36,
            AmmError::InvalidUserToken => 37,
            AmmError::InvalidSrmMint => 38,
            AmmError::InvalidSrmToken => 39,
            AmmError::TooManyOpenOrders => 40,
            AmmError::OrderAtSlotIsPlaced => 41,
            AmmError::InvalidSysProgramAddress => 42,
            AmmError::InvalidFee => 43,
            AmmError::RepeatCreateAmm => 44,
            AmmError::NotAllowZeroLP => 45,
            AmmError::InvalidCloseAuthority => 46,
            AmmError::InvalidFreezeAuthority => 47,
            AmmError::InvalidReferPCMint => 48,
            AmmError::InvalidConfigAccount => 49,
            AmmError::RepeatCreateConfigAccount => 50,
            AmmError::MarketLotSizeIsTooLarge => 51,
            AmmError::InitLpAmountTooLess => 52,
            AmmError::AlreadyInUse => 53,
            AmmError::InvalidProgramAddress => 54,
            AmmError::ExpectedMint => 55,
            AmmError::ExpectedAccount => 56,
            AmmError::InvalidCoinVault => 57,
            AmmError::UnknownAmmError => 58,
        }
    }

    /// The kind whose ordinal is `code`, if the catalog declares one.
    pub open spec fn spec_from_code(code: u32) -> Option<AmmError> {
        match code {
            0u32 => Some(AmmError::InvalidPCVault),
            1u32 => Some(AmmError::InvalidTokenLP),
            2u32 => Some(AmmError::InvalidDestTokenCoin),
            3u32 => Some(AmmError::InvalidDestTokenPC),
            4u32 => Some(AmmError::InvalidPoolMint),
            5u32 => Some(AmmError::InvalidOpenOrders),
            6u32 => Some(AmmError::InvalidMarket),
            7u32 => Some(AmmError::InvalidMarketProgram),
            8u32 => Some(AmmError::InvalidTargetOrders),
            9u32 => Some(AmmError::AccountNeedWriteable),
            10u32 => Some(AmmError::AccountNeedReadOnly),
            11u32 => Some(AmmError::InvalidCoinMint),
            12u32 => Some(AmmError::InvalidPCMint),
            13u32 => Some(AmmError::InvalidOwner),
            14u32 => Some(AmmError::InvalidSupply),
            15u32 => Some(AmmError::InvalidDelegate),
            16u32 => Some(AmmError::InvalidSignAccount),
            17u32 => Some(AmmError::InvalidStatus),
            18u32 => Some(AmmError::InvalidInstruction),
            19u32 => Some(AmmError::WrongAccountsNumber),
            20u32 => Some(AmmError::InvalidTargetAccountOwner),
            21u32 => Some(AmmError::InvalidTargetOwner),
            22u32 => Some(AmmError::InvalidAmmAccountOwner),
            23u32 => Some(AmmError::InvalidParamsSet),
            24u32 => Some(AmmError::InvalidInput),
            25u32 => Some(AmmError::ExceededSlippage),
            26u32 => Some(AmmError::CalculationExRateFailure),
            27u32 => Some(AmmError::CheckedSubOverflow),
            28u32 => Some(AmmError::CheckedAddOverflow),
            29u32 => Some(AmmError::CheckedMulOverflow),
            30u32 => Some(AmmError::CheckedDivOverflow),
            31u32 => Some(AmmError::CheckedEmptyFunds),
            32u32 => Some(AmmError::CalcPnlError),
            33u32 => Some(AmmError::InvalidSplTokenProgram),
            34u32 => Some(AmmError::TakePnlError),
            35u32 => Some(AmmError::InsufficientFunds),
            36u32 => Some(AmmError::ConversionFailure),
            37u32 => Some(AmmError::InvalidUserToken),
            38u32 => Some(AmmError::InvalidSrmMint),
            39u32 => Some(AmmError::InvalidSrmToken),
            40u32 => Some(AmmError::TooManyOpenOrders),
            41u32 => Some(AmmError::OrderAtSlotIsPlaced),
            42u32 => Some(AmmError::InvalidSysProgramAddress),
            43u32 => Some(AmmError::InvalidFee),
            44u32 => Some(AmmError::RepeatCreateAmm),
            45u32 => Some(AmmError::NotAllowZeroLP),
            46u32 => Some(AmmError::InvalidCloseAuthority),
            47u32 => Some(AmmError::InvalidFreezeAuthority),
            48u32 => Some(AmmError::InvalidReferPCMint),
            49u32 => Some(AmmError::InvalidConfigAccount),
            50u32 => Some(AmmError::RepeatCreateConfigAccount),
            51u32 => Some(AmmError::MarketLotSizeIsTooLarge),
            52u32 => Some(AmmError::InitLpAmountTooLess),
            53u32 => Some(AmmError::AlreadyInUse),
            54u32 => Some(AmmError::InvalidProgramAddress),
            55u32 => Some(AmmError::ExpectedMint),
            56u32 => Some(AmmError::ExpectedAccount),
            57u32 => Some(AmmError::InvalidCoinVault),
            58u32 => Some(AmmError::UnknownAmmError),
            _ => None,
        }
    }

    /// Decodes an ordinal back into its kind: the explicit, fallible table
    /// lookup that recovers a kind from a numeric code. Exactly the codes
    /// below `KIND_COUNT` decode, each to the one kind holding that ordinal.
    pub fn from_code(code: u32) -> (kind: Option<AmmError>)
        ensures
            kind == AmmError::spec_from_code(code),
            kind is Some <==> code < KIND_COUNT,
            kind matches Some(k) ==> k.spec_ordinal() == code,
    {
        match code {
            0u32 => Some(AmmError::InvalidPCVault),
            1u32 => Some(AmmError::InvalidTokenLP),
            2u32 => Some(AmmError::InvalidDestTokenCoin),
            3u32 => Some(AmmError::InvalidDestTokenPC),
            4u32 => Some(AmmError::InvalidPoolMint),
            5u32 => Some(AmmError::InvalidOpenOrders),
            6u32 => Some(AmmError::InvalidMarket),
            7u32 => Some(AmmError::InvalidMarketProgram),
            8u32 => Some(AmmError::InvalidTargetOrders),
            9u32 => Some(AmmError::AccountNeedWriteable),
            10u32 => Some(AmmError::AccountNeedReadOnly),
            11u32 => Some(AmmError::InvalidCoinMint),
            12u32 => Some(AmmError::InvalidPCMint),
            13u32 => Some(AmmError::InvalidOwner),
            14u32 => Some(AmmError::InvalidSupply),
            15u32 => Some(AmmError::InvalidDelegate),
            16u32 => Some(AmmError::InvalidSignAccount),
            17u32 => Some(AmmError::InvalidStatus),
            18u32 => Some(AmmError::InvalidInstruction),
            19u32 => Some(AmmError::WrongAccountsNumber),
            20u32 => Some(AmmError::InvalidTargetAccountOwner),
            21u32 => Some(AmmError::InvalidTargetOwner),
            22u32 => Some(AmmError::InvalidAmmAccountOwner),
            23u32 => Some(AmmError::InvalidParamsSet),
            24u32 => Some(AmmError::InvalidInput),
            25u32 => Some(AmmError::ExceededSlippage),
            26u32 => Some(AmmError::CalculationExRateFailure),
            27u32 => Some(AmmError::CheckedSubOverflow),
            28u32 => Some(AmmError::CheckedAddOverflow),
            29u32 => Some(AmmError::CheckedMulOverflow),
            30u32 => Some(AmmError::CheckedDivOverflow),
            31u32 => Some(AmmError::CheckedEmptyFunds),
            32u32 => Some(AmmError::CalcPnlError),
            33u32 => Some(AmmError::InvalidSplTokenProgram),
            34u32 => Some(AmmError::TakePnlError),
            35u32 => Some(AmmError::InsufficientFunds),
            36u32 => Some(AmmError::ConversionFailure),
            37u32 => Some(AmmError::InvalidUserToken),
            38u32 => Some(AmmError::InvalidSrmMint),
            39u32 => Some(AmmError::InvalidSrmToken),
            40u32 => Some(AmmError::TooManyOpenOrders),
            41u32 => Some(AmmError::OrderAtSlotIsPlaced),
            42u32 => Some(AmmError::InvalidSysProgramAddress),
            43u32 => Some(AmmError::InvalidFee),
            44u32 => Some(AmmError::RepeatCreateAmm),
            45u32 => Some(AmmError::NotAllowZeroLP),
            46u32 => Some(AmmError::InvalidCloseAuthority),
            47u32 => Some(AmmError::InvalidFreezeAuthority),
            48u32 => Some(AmmError::InvalidReferPCMint),
            49u32 => Some(AmmError::InvalidConfigAccount),
            50u32 => Some(AmmError::RepeatCreateConfigAccount),
            51u32 => Some(AmmError::MarketLotSizeIsTooLarge),
            52u32 => Some(AmmError::InitLpAmountTooLess),
            53u32 => Some(AmmError::AlreadyInUse),
            54u32 => Some(AmmError::InvalidProgramAddress),
            55u32 => Some(AmmError::ExpectedMint),
            56u32 => Some(AmmError::ExpectedAccount),
            57u32 => Some(AmmError::InvalidCoinVault),
            58u32 => Some(AmmError::UnknownAmmError),
            _ => None,
        }
    }
}

/// Decoding a kind's own ordinal recovers exactly that kind: the published
/// (name, ordinal) table is a lossless round trip.
pub proof fn lemma_from_code_inverts_ordinal(kind: AmmError)
    ensures
        AmmError::spec_from_code(kind.spec_ordinal()) == Some(kind),
{
}

/// No two kinds share an ordinal.
pub proof fn lemma_ordinal_injective(a: AmmError, b: AmmError)
    requires
        a.spec_ordinal() == b.spec_ordinal(),
    ensures
        a == b,
{
    lemma_from_code_inverts_ordinal(a);
    lemma_from_code_inverts_ordinal(b);
}

/// Every ordinal is below `KIND_COUNT`, so it fits the host's unsigned
/// 32-bit error field with no truncation.
pub proof fn lemma_ordinal_bounded(kind: AmmError)
    ensures
        kind.spec_ordinal() < KIND_COUNT,
{
}

} // verus!
