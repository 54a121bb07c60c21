use amm_error::catalog::AmmError;

fn all_kinds() -> Vec<AmmError> {
    vec![
        AmmError::InvalidPCVault,
        AmmError::InvalidTokenLP,
        AmmError::InvalidDestTokenCoin,
        AmmError::InvalidDestTokenPC,
        AmmError::InvalidPoolMint,
        AmmError::InvalidOpenOrders,
        AmmError::InvalidMarket,
        AmmError::InvalidMarketProgram,
        AmmError::InvalidTargetOrders,
        AmmError::AccountNeedWriteable,
        AmmError::AccountNeedReadOnly,
        AmmError::InvalidCoinMint,
        AmmError::InvalidPCMint,
        AmmError::InvalidOwner,
        AmmError::InvalidSupply,
        AmmError::InvalidDelegate,
        AmmError::InvalidSignAccount,
        AmmError::InvalidStatus,
        AmmError::InvalidInstruction,
        AmmError::WrongAccountsNumber,
        AmmError::InvalidTargetAccountOwner,
        AmmError::InvalidTargetOwner,
        AmmError::InvalidAmmAccountOwner,
        AmmError::InvalidParamsSet,
        AmmError::InvalidInput,
        AmmError::ExceededSlippage,
        AmmError::CalculationExRateFailure,
        AmmError::CheckedSubOverflow,
        AmmError::CheckedAddOverflow,
        AmmError::CheckedMulOverflow,
        AmmError::CheckedDivOverflow,
        AmmError::CheckedEmptyFunds,
        AmmError::CalcPnlError,
        AmmError::InvalidSplTokenProgram,
        AmmError::TakePnlError,
        AmmError::InsufficientFunds,
        AmmError::ConversionFailure,
        AmmError::InvalidUserToken,
        AmmError::InvalidSrmMint,
        AmmError::InvalidSrmToken,
        AmmError::TooManyOpenOrders,
        AmmError::OrderAtSlotIsPlaced,
        AmmError::InvalidSysProgramAddress,
        AmmError::InvalidFee,
        AmmError::RepeatCreateAmm,
        AmmError::NotAllowZeroLP,
        AmmError::InvalidCloseAuthority,
        AmmError::InvalidFreezeAuthority,
        AmmError::InvalidReferPCMint,
        AmmError::InvalidConfigAccount,
        AmmError::RepeatCreateConfigAccount,
        AmmError::MarketLotSizeIsTooLarge,
        AmmError::InitLpAmountTooLess,
        AmmError::AlreadyInUse,
        AmmError::InvalidProgramAddress,
        AmmError::ExpectedMint,
        AmmError::ExpectedAccount,
        AmmError::InvalidCoinVault,
        AmmError::UnknownAmmError,
    ]
}

#[test]
fn ordinal_equals_declaration_position() {
    let kinds = all_kinds();
    assert_eq!(kinds.len(), 59);
    for (position, kind) in kinds.iter().enumerate() {
        assert_eq!(kind.ordinal(), position as u32);
    }
}

#[test]
fn golden_ordinals() {
    assert_eq!(AmmError::InvalidPCVault.ordinal(), 0);
    assert_eq!(AmmError::InvalidTokenLP.ordinal(), 1);
    assert_eq!(AmmError::UnknownAmmError.ordinal(), 58);
}

#[test]
fn from_code_round_trip() {
    for kind in all_kinds() {
        let decoded = AmmError::from_code(kind.ordinal());
        assert_eq!(decoded, Some(kind));
    }
    for code in 0..59u32 {
        let decoded = AmmError::from_code(code).expect("every code below 59 decodes");
        assert_eq!(decoded.ordinal(), code);
    }
}

#[test]
fn from_code_rejects_unknown_codes() {
    assert_eq!(AmmError::from_code(59), None);
    assert_eq!(AmmError::from_code(60), None);
    assert_eq!(AmmError::from_code(u32::MAX), None);
}

#[test]
fn host_error_code_equals_ordinal() {
    for kind in all_kinds() {
        assert_eq!(kind.to_host_error().code, kind.ordinal());
    }
}

#[test]
fn ordinals_are_unique() {
    let kinds = all_kinds();
    for a in &kinds {
        for b in &kinds {
            if a.ordinal() == b.ordinal() {
                assert_eq!(a, b);
            }
        }
    }
}
