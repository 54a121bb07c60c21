use amm_error::catalog::AmmError;

/// The full published table: every kind with its fixed ordinal and its fixed
/// diagnostic line. Appending a new kind must leave every row below intact.
fn full_table() -> Vec<(AmmError, u32, &'static str)> {
    vec![
        (AmmError::InvalidPCVault, 0, "Error: InvalidPCVault"),
        (AmmError::InvalidTokenLP, 1, "Error: InvalidTokenLP"),
        (AmmError::InvalidDestTokenCoin, 2, "Error: InvalidDestTokenCoin"),
        (AmmError::InvalidDestTokenPC, 3, "Error: InvalidDestTokenPC"),
        (AmmError::InvalidPoolMint, 4, "Error: InvalidPoolMint"),
        (AmmError::InvalidOpenOrders, 5, "Error: InvalidOpenOrders"),
        (AmmError::InvalidMarket, 6, "Error: InvalidMarket"),
        (AmmError::InvalidMarketProgram, 7, "Error: InvalidMarketProgram"),
        (AmmError::InvalidTargetOrders, 8, "Error: InvalidTargetOrders"),
        (AmmError::AccountNeedWriteable, 9, "Error: AccountNeedWriteable"),
        (AmmError::AccountNeedReadOnly, 10, "Error: AccountNeedReadOnly"),
        (AmmError::InvalidCoinMint, 11, "Error: InvalidCoinMint"),
        (AmmError::InvalidPCMint, 12, "Error: InvalidPCMint"),
        (AmmError::InvalidOwner, 13, "Error: InvalidOwner"),
        (AmmError::InvalidSupply, 14, "Error: InvalidSupply"),
        (AmmError::InvalidDelegate, 15, "Error: InvalidDelegate"),
        (AmmError::InvalidSignAccount, 16, "Error: Invalid Sign Account"),
        (AmmError::InvalidStatus, 17, "Error: InvalidStatus"),
        (AmmError::InvalidInstruction, 18, "Error: InvalidInstruction"),
        (AmmError::WrongAccountsNumber, 19, "Error: WrongAccountsNumber"),
        (AmmError::InvalidTargetAccountOwner, 20, "Error: The target account owner is not match with this program"),
        (AmmError::InvalidTargetOwner, 21, "Error: The owner saved in target is not match with this amm pool"),
        (AmmError::InvalidAmmAccountOwner, 22, "Error: The amm account owner is not match with this program"),
        (AmmError::InvalidParamsSet, 23, "Error: Params Set is Invalid"),
        (AmmError::InvalidInput, 24, "Error: InvalidInput"),
        (AmmError::ExceededSlippage, 25, "Error: exceeds desired slippage limit"),
        (AmmError::CalculationExRateFailure, 26, "Error: CalculationExRateFailure"),
        (AmmError::CheckedSubOverflow, 27, "Error: Checked_Sub Overflow"),
        (AmmError::CheckedAddOverflow, 28, "Error: Checked_Add Overflow"),
        (AmmError::CheckedMulOverflow, 29, "Error: Checked_Mul Overflow"),
        (AmmError::CheckedDivOverflow, 30, "Error: Checked_Div Overflow"),
        (AmmError::CheckedEmptyFunds, 31, "Error: CheckedEmptyFunds"),
        (AmmError::CalcPnlError, 32, "Error: CalcPnlError"),
        (AmmError::InvalidSplTokenProgram, 33, "Error: InvalidSplTokenProgram"),
        (AmmError::TakePnlError, 34, "Error: TakePnlError"),
        (AmmError::InsufficientFunds, 35, "Error: insufficient funds"),
        (AmmError::ConversionFailure, 36, "Error: Conversion to or from u64 failed."),
        (AmmError::InvalidUserToken, 37, "Error: User token input does not match amm"),
        (AmmError::InvalidSrmMint, 38, "Error: InvalidSrmMint"),
        (AmmError::InvalidSrmToken, 39, "Error: InvalidSrmToken"),
        (AmmError::TooManyOpenOrders, 40, "Error: TooManyOpenOrders"),
        (AmmError::OrderAtSlotIsPlaced, 41, "Error: OrderAtSlotIsPlaced"),
        (AmmError::InvalidSysProgramAddress, 42, "Error: InvalidSysProgramAddress"),
        (AmmError::InvalidFee, 43, "Error: InvalidFee"),
        (AmmError::RepeatCreateAmm, 44, "Error: RepeatCreateAmm"),
        (AmmError::NotAllowZeroLP, 45, "Error: NotAllowZeroLP"),
        (AmmError::InvalidCloseAuthority, 46, "Error: Token account has a close authority"),
        (AmmError::InvalidFreezeAuthority, 47, "Error: Pool token mint has a freeze authority"),
        (AmmError::InvalidReferPCMint, 48, "Error: InvalidReferPCMint"),
        (AmmError::InvalidConfigAccount, 49, "Error: InvalidConfigAccount"),
        (AmmError::RepeatCreateConfigAccount, 50, "Error: RepeatCreateConfigAccount"),
        (AmmError::MarketLotSizeIsTooLarge, 51, "Error: Market lotSize is too large"),
        (AmmError::InitLpAmountTooLess, 52, "Error: Init lp amount is too less(Because 10**lp_decimals amount lp will be locked)"),
        (AmmError::AlreadyInUse, 53, "Error: AlreadyInUse"),
        (AmmError::InvalidProgramAddress, 54, "Error: InvalidProgramAddress"),
        (AmmError::ExpectedMint, 55, "Error: ExpectedMint"),
        (AmmError::ExpectedAccount, 56, "Error: ExpectedAccount"),
        (AmmError::InvalidCoinVault, 57, "Error: InvalidCoinVault"),
        (AmmError::UnknownAmmError, 58, "Error: UnknownAmmError"),
    ]
}

#[test]
fn full_table_snapshot() {
    let table = full_table();
    assert_eq!(table.len(), 59);
    for (position, (kind, ordinal, line)) in table.iter().enumerate() {
        assert_eq!(position as u32, *ordinal);
        assert_eq!(kind.ordinal(), *ordinal);
        assert_eq!(kind.log_line(), *line);
    }
}

#[test]
fn log_line_has_error_prefix_for_every_kind() {
    for (kind, _, _) in full_table() {
        assert!(kind.log_line().starts_with("Error: "));
    }
}

#[test]
fn exceeded_slippage_phrase() {
    assert!(AmmError::ExceededSlippage
        .log_line()
        .contains("exceeds desired slippage limit"));
}

#[test]
fn type_of_is_constant() {
    assert_eq!(AmmError::type_of(), "Amm Error");
    for _ in full_table() {
        assert_eq!(AmmError::type_of(), "Amm Error");
    }
}

#[test]
fn scenario_pc_vault_mismatch() {
    let kind = AmmError::InvalidPCVault;
    assert_eq!(kind.ordinal(), 0);
    assert_eq!(kind.to_host_error().code, 0);
    assert_eq!(kind.log_line(), "Error: InvalidPCVault");
}

#[test]
fn scenario_unrecognized_failure() {
    let kind = AmmError::UnknownAmmError;
    assert_eq!(kind.ordinal(), 58);
    assert_eq!(kind.to_host_error().code, 58);
    assert_eq!(kind.log_line(), "Error: UnknownAmmError");
}

#[test]
fn scenario_checked_sub_underflow() {
    let kind = AmmError::CheckedSubOverflow;
    assert_eq!(kind.to_host_error().code, kind.ordinal());
    assert_eq!(kind.log_line(), "Error: Checked_Sub Overflow");
}
