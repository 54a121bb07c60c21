//! The diagnostic line for each failure kind: one fixed, human-readable log
//! message per kind, the literal prefix `"Error: "` followed by a fixed
//! phrase, with no runtime interpolation. The mapping is exhaustive by
//! construction: a match over every kind.
use crate::catalog::AmmError;
use vstd::prelude::*;

verus! {

impl AmmError {
    /// The exact diagnostic line for the kind.
    pub open spec fn spec_log_line(self) -> Seq<char> {
        match self {
            AmmError::InvalidPCVault => "Error: InvalidPCVault"@,
            AmmError::InvalidTokenLP => "Error: InvalidTokenLP"@,
            AmmError::InvalidDestTokenCoin => "Error: InvalidDestTokenCoin"@,
            AmmError::InvalidDestTokenPC => "Error: InvalidDestTokenPC"@,
            AmmError::InvalidPoolMint => "Error: InvalidPoolMint"@,
            AmmError::InvalidOpenOrders => "Error: InvalidOpenOrders"@,
            AmmError::InvalidMarket => "Error: InvalidMarket"@,
            AmmError::InvalidMarketProgram => "Error: InvalidMarketProgram"@,
            AmmError::InvalidTargetOrders => "Error: InvalidTargetOrders"@,
            AmmError::AccountNeedWriteable => "Error: AccountNeedWriteable"@,
            AmmError::AccountNeedReadOnly => "Error: AccountNeedReadOnly"@,
            AmmError::InvalidCoinMint => "Error: InvalidCoinMint"@,
            AmmError::InvalidPCMint => "Error: InvalidPCMint"@,
            AmmError::InvalidOwner => "Error: InvalidOwner"@,
            AmmError::InvalidSupply => "Error: InvalidSupply"@,
            AmmError::InvalidDelegate => "Error: InvalidDelegate"@,
            AmmError::InvalidSignAccount => "Error: Invalid Sign Account"@,
            AmmError::InvalidStatus => "Error: InvalidStatus"@,
            AmmError::InvalidInstruction => "Error: InvalidInstruction"@,
            AmmError::WrongAccountsNumber => "Error: WrongAccountsNumber"@,
            AmmError::InvalidTargetAccountOwner => "Error: The target account owner is not match with this program"@,
            AmmError::InvalidTargetOwner => "Error: The owner saved in target is not match with this amm pool"@,
            AmmError::InvalidAmmAccountOwner => "Error: The amm account owner is not match with this program"@,
            AmmError::InvalidParamsSet => "Error: Params Set is Invalid"@,
            AmmError::InvalidInput => "Error: InvalidInput"@,
            AmmError::ExceededSlippage => "Error: exceeds desired slippage limit"@,
            AmmError::CalculationExRateFailure => "Error: CalculationExRateFailure"@,
            AmmError::CheckedSubOverflow => "Error: Checked_Sub Overflow"@,
            AmmError::CheckedAddOverflow => "Error: Checked_Add Overflow"@,
            AmmError::CheckedMulOverflow => "Error: Checked_Mul Overflow"@,
            AmmError::CheckedDivOverflow => "Error: Checked_Div Overflow"@,
            AmmError::CheckedEmptyFunds => "Error: CheckedEmptyFunds"@,
            AmmError::CalcPnlError => "Error: CalcPnlError"@,
            AmmError::InvalidSplTokenProgram => "Error: InvalidSplTokenProgram"@,
            AmmError::TakePnlError => "Error: TakePnlError"@,
            AmmError::InsufficientFunds => "Error: insufficient funds"@,
            AmmError::ConversionFailure => "Error: Conversion to or from u64 failed."@,
            AmmError::InvalidUserToken => "Error: User token input does not match amm"@,
            AmmError::InvalidSrmMint => "Error: InvalidSrmMint"@,
            AmmError::InvalidSrmToken => "Error: InvalidSrmToken"@,
            AmmError::TooManyOpenOrders => "Error: TooManyOpenOrders"@,
            AmmError::OrderAtSlotIsPlaced => "Error: OrderAtSlotIsPlaced"@,
            AmmError::InvalidSysProgramAddress => "Error: InvalidSysProgramAddress"@,
            AmmError::InvalidFee => "Error: InvalidFee"@,
            AmmError::RepeatCreateAmm => "Error: RepeatCreateAmm"@,
            AmmError::NotAllowZeroLP => "Error: NotAllowZeroLP"@,
            AmmError::InvalidCloseAuthority => "Error: Token account has a close authority"@,
            AmmError::InvalidFreezeAuthority => "Error: Pool token mint has a freeze authority"@,
            AmmError::InvalidReferPCMint => "Error: InvalidReferPCMint"@,
            AmmError::InvalidConfigAccount => "Error: InvalidConfigAccount"@,
            AmmError::RepeatCreateConfigAccount => "Error: RepeatCreateConfigAccount"@,
            AmmError::MarketLotSizeIsTooLarge => "Error: Market lotSize is too large"@,
            AmmError::InitLpAmountTooLess => "Error: Init lp amount is too less(Because 10**lp_decimals amount lp will be locked)"@,
            AmmError::AlreadyInUse => "Error: AlreadyInUse"@,
            AmmError::InvalidProgramAddress => "Error: InvalidProgramAddress"@,
            AmmError::ExpectedMint => "Error: ExpectedMint"@,
            AmmError::ExpectedAccount => "Error: ExpectedAccount"@,
            AmmError::InvalidCoinVault => "Error: InvalidCoinVault"@,
            AmmError::UnknownAmmError => "Error: UnknownAmmError"@,
        }
    }

    /// Returns the kind's diagnostic line, ready for the host's log sink.
    /// Every kind has exactly one line; producing it cannot fail.
    pub fn log_line(&self) -> (line: &'static str)
        ensures
            line@ == self.spec_log_line(),
    {
        match self {
            AmmError::InvalidPCVault => "Error: InvalidPCVault",
            AmmError::InvalidTokenLP => "Error: InvalidTokenLP",
            AmmError::InvalidDestTokenCoin => "Error: InvalidDestTokenCoin",
            AmmError::InvalidDestTokenPC => "Error: InvalidDestTokenPC",
            AmmError::InvalidPoolMint => "Error: InvalidPoolMint",
            AmmError::InvalidOpenOrders => "Error: InvalidOpenOrders",
            AmmError::InvalidMarket => "Error: InvalidMarket",
            AmmError::InvalidMarketProgram => "Error: InvalidMarketProgram",
            AmmError::InvalidTargetOrders => "Error: InvalidTargetOrders",
            AmmError::AccountNeedWriteable => "Error: AccountNeedWriteable",
            AmmError::AccountNeedReadOnly => "Error: AccountNeedReadOnly",
            AmmError::InvalidCoinMint => "Error: InvalidCoinMint",
            AmmError::InvalidPCMint => "Error: InvalidPCMint",
            AmmError::InvalidOwner => "Error: InvalidOwner",
            AmmError::InvalidSupply => "Error: InvalidSupply",
            AmmError::InvalidDelegate => "Error: InvalidDelegate",
            AmmError::InvalidSignAccount => "Error: Invalid Sign Account",
            AmmError::InvalidStatus => "Error: InvalidStatus",
            AmmError::InvalidInstruction => "Error: InvalidInstruction",
            AmmError::WrongAccountsNumber => "Error: WrongAccountsNumber",
            AmmError::InvalidTargetAccountOwner => "Error: The target account owner is not match with this program",
            AmmError::InvalidTargetOwner => "Error: The owner saved in target is not match with this amm pool",
            AmmError::InvalidAmmAccountOwner => "Error: The amm account owner is not match with this program",
            AmmError::InvalidParamsSet => "Error: Params Set is Invalid",
            AmmError::InvalidInput => "Error: InvalidInput",
            AmmError::ExceededSlippage => "Error: exceeds desired slippage limit",
            AmmError::CalculationExRateFailure => "Error: CalculationExRateFailure",
            AmmError::CheckedSubOverflow => "Error: Checked_Sub Overflow",
            AmmError::CheckedAddOverflow => "Error: Checked_Add Overflow",
            AmmError::CheckedMulOverflow => "Error: Checked_Mul Overflow",
            AmmError::CheckedDivOverflow => "Error: Checked_Div Overflow",
            AmmError::CheckedEmptyFunds => "Error: CheckedEmptyFunds",
            AmmError::CalcPnlError => "Error: CalcPnlError",
            AmmError::InvalidSplTokenProgram => "Error: InvalidSplTokenProgram",
            AmmError::TakePnlError => "Error: TakePnlError",
            AmmError::InsufficientFunds => "Error: insufficient funds",
            AmmError::ConversionFailure => "Error: Conversion to or from u64 failed.",
            AmmError::InvalidUserToken => "Error: User token input does not match amm",
            AmmError::InvalidSrmMint => "Error: InvalidSrmMint",
            AmmError::InvalidSrmToken => "Error: InvalidSrmToken",
            AmmError::TooManyOpenOrders => "Error: TooManyOpenOrders",
            AmmError::OrderAtSlotIsPlaced => "Error: OrderAtSlotIsPlaced",
            AmmError::InvalidSysProgramAddress => "Error: InvalidSysProgramAddress",
            AmmError::InvalidFee => "Error: InvalidFee",
            AmmError::RepeatCreateAmm => "Error: RepeatCreateAmm",
            AmmError::NotAllowZeroLP => "Error: NotAllowZeroLP",
            AmmError::InvalidCloseAuthority => "Error: Token account has a close authority",
            AmmError::InvalidFreezeAuthority => "Error: Pool token mint has a freeze authority",
            AmmError::InvalidReferPCMint => "Error: InvalidReferPCMint",
            AmmError::InvalidConfigAccount => "Error: InvalidConfigAccount",
            AmmError::RepeatCreateConfigAccount => "Error: RepeatCreateConfigAccount",
            AmmError::MarketLotSizeIsTooLarge => "Error: Market lotSize is too large",
            AmmError::InitLpAmountTooLess => "Error: Init lp amount is too less(Because 10**lp_decimals amount lp will be locked)",
            AmmError::AlreadyInUse => "Error: AlreadyInUse",
            AmmError::InvalidProgramAddress => "Error: InvalidProgramAddress",
            AmmError::ExpectedMint => "Error: ExpectedMint",
            AmmError::ExpectedAccount => "Error: ExpectedAccount",
            AmmError::InvalidCoinVault => "Error: InvalidCoinVault",
            AmmError::UnknownAmmError => "Error: UnknownAmmError",
        }
    }
}

/// Every kind's diagnostic line starts with the literal prefix `"Error: "`.
pub proof fn lemma_log_line_has_error_prefix(kind: AmmError)
    ensures
        kind.spec_log_line().len() >= 7,
        kind.spec_log_line().subrange(0, 7) == "Error: "@,
{
    reveal_strlit("Error: ");
    match kind {
        AmmError::InvalidPCVault => {
            reveal_strlit("Error: InvalidPCVault");
            assert(kind.spec_log_line().subrange(0, 7) =~= "Error: "@);
        }
        AmmError::InvalidTokenLP => {
            reveal_strlit("Error: InvalidTokenLP");
            assert(kind.spec_log_line().subrange(0, 7) =~= "Error: "@);
        }
        AmmError::InvalidDestTokenCoin => {
            reveal_strlit("Error: InvalidDestTokenCoin");
            assert(kind.spec_log_line().subrange(0, 7) =~= "Error: "@);
        }
        AmmError::InvalidDestTokenPC => {
            reveal_strlit("Error: InvalidDestTokenPC");
            assert(kind.spec_log_line().subrange(0, 7) =~= "Error: "@);
        }
        AmmError::InvalidPoolMint => {
            reveal_strlit("Error: InvalidPoolMint");
            assert(kind.spec_log_line().subrange(0, 7) =~= "Error: "@);
        }
        AmmError::InvalidOpenOrders => {
            reveal_strlit("Error: InvalidOpenOrders");
            assert(kind.spec_log_line().subrange(0, 7) =~= "Error: "@);
        }
        AmmError::InvalidMarket => {
            reveal_strlit("Error: InvalidMarket");
            assert(kind.spec_log_line().subrange(0, 7) =~= "Error: "@);
        }
        AmmError::InvalidMarketProgram => {
            reveal_strlit("Error: InvalidMarketProgram");
            assert(kind.spec_log_line().subrange(0, 7) =~= "Error: "@);
        }
        AmmError::InvalidTargetOrders => {
            reveal_strlit("Error: InvalidTargetOrders");
            assert(kind.spec_log_line().subrange(0, 7) =~= "Error: "@);
        }
        AmmError::AccountNeedWriteable => {
            reveal_strlit("Error: AccountNeedWriteable");
            assert(kind.spec_log_line().subrange(0, 7) =~= "Error: "@);
        }
        AmmError::AccountNeedReadOnly => {
            reveal_strlit("Error: AccountNeedReadOnly");
            assert(kind.spec_log_line().subrange(0, 7) =~= "Error: "@);
        }
        AmmError::InvalidCoinMint => {
            reveal_strlit("Error: InvalidCoinMint");
            assert(kind.spec_log_line().subrange(0, 7) =~= "Error: "@);
        }
        AmmError::InvalidPCMint => {
            reveal_strlit("Error: InvalidPCMint");
            assert(kind.spec_log_line().subrange(0, 7) =~= "Error: "@);
        }
        AmmError::InvalidOwner => {
            reveal_strlit("Error: InvalidOwner");
            assert(kind.spec_log_line().subrange(0, 7) =~= "Error: "@);
        }
        AmmError::InvalidSupply => {
            reveal_strlit("Error: InvalidSupply");
            assert(kind.spec_log_line().subrange(0, 7) =~= "Error: "@);
        }
        AmmError::InvalidDelegate => {
            reveal_strlit("Error: InvalidDelegate");
            assert(kind.spec_log_line().subrange(0, 7) =~= "Error: "@);
        }
        AmmError::InvalidSignAccount => {
            reveal_strlit("Error: Invalid Sign Account");
            assert(kind.spec_log_line().subrange(0, 7) =~= "Error: "@);
        }
        AmmError::InvalidStatus => {
            reveal_strlit("Error: InvalidStatus");
            assert(kind.spec_log_line().subrange(0, 7) =~= "Error: "@);
        }
        AmmError::InvalidInstruction => {
            reveal_strlit("Error: InvalidInstruction");
            assert(kind.spec_log_line().subrange(0, 7) =~= "Error: "@);
        }
        AmmError::WrongAccountsNumber => {
            reveal_strlit("Error: WrongAccountsNumber");
            assert(kind.spec_log_line().subrange(0, 7) =~= "Error: "@);
        }
        AmmError::InvalidTargetAccountOwner => {
            reveal_strlit("Error: The target account owner is not match with this program");
            assert(kind.spec_log_line().subrange(0, 7) =~= "Error: "@);
        }
        AmmError::InvalidTargetOwner => {
            reveal_strlit("Error: The owner saved in target is not match with this amm pool");
            assert(kind.spec_log_line().subrange(0, 7) =~= "Error: "@);
        }
        AmmError::InvalidAmmAccountOwner => {
            reveal_strlit("Error: The amm account owner is not match with this program");
            assert(kind.spec_log_line().subrange(0, 7) =~= "Error: "@);
        }
        AmmError::InvalidParamsSet => {
            reveal_strlit("Error: Params Set is Invalid");
            assert(kind.spec_log_line().subrange(0, 7) =~= "Error: "@);
        }
        AmmError::InvalidInput => {
            reveal_strlit("Error: InvalidInput");
            assert(kind.spec_log_line().subrange(0, 7) =~= "Error: "@);
        }
        AmmError::ExceededSlippage => {
            reveal_strlit("Error: exceeds desired slippage limit");
            assert(kind.spec_log_line().subrange(0, 7) =~= "Error: "@);
        }
        AmmError::CalculationExRateFailure => {
            reveal_strlit("Error: CalculationExRateFailure");
            assert(kind.spec_log_line().subrange(0, 7) =~= "Error: "@);
        }
        AmmError::CheckedSubOverflow => {
            reveal_strlit("Error: Checked_Sub Overflow");
            assert(kind.spec_log_line().subrange(0, 7) =~= "Error: "@);
        }
        AmmError::CheckedAddOverflow => {
            reveal_strlit("Error: Checked_Add Overflow");
            assert(kind.spec_log_line().subrange(0, 7) =~= "Error: "@);
        }
        AmmError::CheckedMulOverflow => {
            reveal_strlit("Error: Checked_Mul Overflow");
            assert(kind.spec_log_line().subrange(0, 7) =~= "Error: "@);
        }
        AmmError::CheckedDivOverflow => {
            reveal_strlit("Error: Checked_Div Overflow");
            assert(kind.spec_log_line().subrange(0, 7) =~= "Error: "@);
        }
        AmmError::CheckedEmptyFunds => {
            reveal_strlit("Error: CheckedEmptyFunds");
            assert(kind.spec_log_line().subrange(0, 7) =~= "Error: "@);
        }
        AmmError::CalcPnlError => {
            reveal_strlit("Error: CalcPnlError");
            assert(kind.spec_log_line().subrange(0, 7) =~= "Error: "@);
        }
        AmmError::InvalidSplTokenProgram => {
            reveal_strlit("Error: InvalidSplTokenProgram");
            assert(kind.spec_log_line().subrange(0, 7) =~= "Error: "@);
        }
        AmmError::TakePnlError => {
            reveal_strlit("Error: TakePnlError");
            assert(kind.spec_log_line().subrange(0, 7) =~= "Error: "@);
        }
        AmmError::InsufficientFunds => {
            reveal_strlit("Error: insufficient funds");
            assert(kind.spec_log_line().subrange(0, 7) =~= "Error: "@);
        }
        AmmError::ConversionFailure => {
            reveal_strlit("Error: Conversion to or from u64 failed.");
            assert(kind.spec_log_line().subrange(0, 7) =~= "Error: "@);
        }
        AmmError::InvalidUserToken => {
            reveal_strlit("Error: User token input does not match amm");
            assert(kind.spec_log_line().subrange(0, 7) =~= "Error: "@);
        }
        AmmError::InvalidSrmMint => {
            reveal_strlit("Error: InvalidSrmMint");
            assert(kind.spec_log_line().subrange(0, 7) =~= "Error: "@);
        }
        AmmError::InvalidSrmToken => {
            reveal_strlit("Error: InvalidSrmToken");
            assert(kind.spec_log_line().subrange(0, 7) =~= "Error: "@);
        }
        AmmError::TooManyOpenOrders => {
            reveal_strlit("Error: TooManyOpenOrders");
            assert(kind.spec_log_line().subrange(0, 7) =~= "Error: "@);
        }
        AmmError::OrderAtSlotIsPlaced => {
            reveal_strlit("Error: OrderAtSlotIsPlaced");
            assert(kind.spec_log_line().subrange(0, 7) =~= "Error: "@);
        }
        AmmError::InvalidSysProgramAddress => {
            reveal_strlit("Error: InvalidSysProgramAddress");
            assert(kind.spec_log_line().subrange(0, 7) =~= "Error: "@);
        }
        AmmError::InvalidFee => {
            reveal_strlit("Error: InvalidFee");
            assert(kind.spec_log_line().subrange(0, 7) =~= "Error: "@);
        }
        AmmError::RepeatCreateAmm => {
            reveal_strlit("Error: RepeatCreateAmm");
            assert(kind.spec_log_line().subrange(0, 7) =~= "Error: "@);
        }
        AmmError::NotAllowZeroLP => {
            reveal_strlit("Error: NotAllowZeroLP");
            assert(kind.spec_log_line().subrange(0, 7) =~= "Error: "@);
        }
        AmmError::InvalidCloseAuthority => {
            reveal_strlit("Error: Token account has a close authority");
            assert(kind.spec_log_line().subrange(0, 7) =~= "Error: "@);
        }
        AmmError::InvalidFreezeAuthority => {
            reveal_strlit("Error: Pool token mint has a freeze authority");
            assert(kind.spec_log_line().subrange(0, 7) =~= "Error: "@);
        }
        AmmError::InvalidReferPCMint => {
            reveal_strlit("Error: InvalidReferPCMint");
            assert(kind.spec_log_line().subrange(0, 7) =~= "Error: "@);
        }
        AmmError::InvalidConfigAccount => {
            reveal_strlit("Error: InvalidConfigAccount");
            assert(kind.spec_log_line().subrange(0, 7) =~= "Error: "@);
        }
        AmmError::RepeatCreateConfigAccount => {
            reveal_strlit("Error: RepeatCreateConfigAccount");
            assert(kind.spec_log_line().subrange(0, 7) =~= "Error: "@);
        }
        AmmError::MarketLotSizeIsTooLarge => {
            reveal_strlit("Error: Market lotSize is too large");
            assert(kind.spec_log_line().subrange(0, 7) =~= "Error: "@);
        }
        AmmError::InitLpAmountTooLess => {
            reveal_strlit("Error: Init lp amount is too less(Because 10**lp_decimals amount lp will be locked)");
            assert(kind.spec_log_line().subrange(0, 7) =~= "Error: "@);
        }
        AmmError::AlreadyInUse => {
            reveal_strlit("Error: AlreadyInUse");
            assert(kind.spec_log_line().subrange(0, 7) =~= "Error: "@);
        }
        AmmError::InvalidProgramAddress => {
            reveal_strlit("Error: InvalidProgramAddress");
            assert(kind.spec_log_line().subrange(0, 7) =~= "Error: "@);
        }
        AmmError::ExpectedMint => {
            reveal_strlit("Error: ExpectedMint");
            assert(kind.spec_log_line().subrange(0, 7) =~= "Error: "@);
        }
        AmmError::ExpectedAccount => {
            reveal_strlit("Error: ExpectedAccount");
            assert(kind.spec_log_line().subrange(0, 7) =~= "Error: "@);
        }
        AmmError::InvalidCoinVault => {
            reveal_strlit("Error: InvalidCoinVault");
            assert(kind.spec_log_line().subrange(0, 7) =~= "Error: "@);
        }
        AmmError::UnknownAmmError => {
            reveal_strlit("Error: UnknownAmmError");
            assert(kind.spec_log_line().subrange(0, 7) =~= "Error: "@);
        }
    }
}

} // verus!
