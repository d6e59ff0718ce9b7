use farm_fund::orca_swap::{
    trade_too_early, FundView, SwapAction, SwapError, SwapEvent, SwapMachine, SwapRequest,
    SwapStage, INVALID_FUND_AUTHORITY,
};
use solana_program::program_error::ProgramError;

fn request_with(accounts: usize, authority: [u8; 32]) -> SwapRequest {
    let mut keys = Vec::new();
    for i in 0..accounts {
        keys.push([i as u8; 32]);
    }
    SwapRequest {
        fund: FundView {
            name: b"alpha".to_vec(),
            authority_bump: 7,
            fund_program_id: [200; 32],
            fund_authority: authority,
        },
        accounts: keys,
        token_a_amount_in: 1_000,
        token_b_amount_in: 0,
        min_token_amount_out: 990,
    }
}

fn request() -> SwapRequest {
    request_with(17, [3; 32])
}

fn finished(action: SwapAction) -> Result<(), SwapError> {
    match action {
        SwapAction::Finish(r) => r,
        _ => panic!("the swap did not finish"),
    }
}

/// Runs a started swap through the liquidation and last-instruction checks.
fn through_checks(
    liquidation: i64,
    now: i64,
    last: i64,
    is_last: bool,
    req: SwapRequest,
) -> (SwapMachine, SwapAction) {
    let (m, a) = SwapMachine::start(req);
    assert!(matches!(a, SwapAction::ReadLiquidationStartTime));
    let (mut m, mut a) = m.step(SwapEvent::LiquidationStartTime(Ok(liquidation)));
    if liquidation > 0 {
        assert!(matches!(a, SwapAction::ReadCurrentTime));
        let (m2, a2) = m.step(SwapEvent::CurrentTime(Ok(now)));
        assert!(matches!(a2, SwapAction::ReadLastTradeTime));
        let (m3, a3) = m2.step(SwapEvent::LastTradeTime(Ok(last)));
        if matches!(a3, SwapAction::Finish(_)) {
            return (m3, a3);
        }
        m = m3;
        a = a3;
    }
    assert!(matches!(a, SwapAction::CheckLastInstruction));
    m.step(SwapEvent::LastInstructionChecked(Ok(is_last)))
}

#[test]
fn wrong_number_of_accounts_is_refused() {
    for n in [0usize, 16, 18] {
        let (m, a) = SwapMachine::start(request_with(n, [3; 32]));
        assert_eq!(finished(a), Err(SwapError::NotEnoughAccountKeys));
        assert_eq!(m.stage(), SwapStage::Finished);
    }
}

#[test]
fn full_swap_succeeds_and_records_trade_time() {
    let (m, a) = through_checks(0, 0, 0, true, request());
    let check = match a {
        SwapAction::CheckTargetVault(c) => c,
        _ => panic!("expected the vault check"),
    };
    assert_eq!(check.fund_program_id, [200; 32]);
    assert_eq!(check.router_program_id, [4; 32]);
    assert_eq!(check.fund_metadata, [1; 32]);
    assert_eq!(check.amm_id, [13; 32]);
    let (m, a) = m.step(SwapEvent::TargetVaultChecked(Ok(())));
    let inv = match a {
        SwapAction::Invoke(inv) => inv,
        _ => panic!("expected the router invocation"),
    };
    assert_eq!(inv.program_id, [4; 32]);
    assert_eq!(inv.accounts.len(), 11);
    assert_eq!(inv.seeds[1], b"alpha".to_vec());
    assert_eq!(m.stage(), SwapStage::AwaitInvoke);
    let (m, a) = m.step(SwapEvent::Invoked(Ok(())));
    assert!(matches!(a, SwapAction::ReadTokenBalances));
    let (m, a) = m.step(SwapEvent::TokenBalances(Ok((5, 6))));
    assert!(matches!(a, SwapAction::UpdateLastTradeTime));
    let (m, a) = m.step(SwapEvent::TradeTimeUpdated(Ok(())));
    assert_eq!(finished(a), Ok(()));
    assert_eq!(m.stage(), SwapStage::Finished);
}

#[test]
fn liquidation_cooldown_refuses_recent_trades() {
    let (_, a) = through_checks(50, 1_000, 800, true, request());
    assert_eq!(finished(a), Err(SwapError::TooEarly));
    let (_, a) = through_checks(50, 1_000, 701, true, request());
    assert_eq!(finished(a), Err(SwapError::TooEarly));
}

#[test]
fn liquidation_cooldown_lets_old_or_first_trades_pass() {
    let (m, a) = through_checks(50, 1_000, 700, true, request());
    assert!(matches!(a, SwapAction::CheckTargetVault(_)));
    assert_eq!(m.stage(), SwapStage::AwaitTargetVault);
    let (_, a) = through_checks(50, 1_000, 0, true, request());
    assert!(matches!(a, SwapAction::CheckTargetVault(_)));
}

#[test]
fn cooldown_only_applies_during_liquidation() {
    let (m, a) = SwapMachine::start(request());
    assert!(matches!(a, SwapAction::ReadLiquidationStartTime));
    let (_, a) = m.step(SwapEvent::LiquidationStartTime(Ok(-5)));
    assert!(matches!(a, SwapAction::CheckLastInstruction));
}

#[test]
fn trade_too_early_edges() {
    assert!(trade_too_early(1_000, 701));
    assert!(!trade_too_early(1_000, 700));
    assert!(!trade_too_early(1_000, 0));
    assert!(!trade_too_early(1_000, -20));
    assert!(trade_too_early(10, 1_000));
    assert!(trade_too_early(i64::MIN, 1));
    assert!(!trade_too_early(i64::MAX, 1));
}

#[test]
fn not_last_instruction_is_invalid_argument() {
    let (_, a) = through_checks(0, 0, 0, false, request());
    assert_eq!(finished(a), Err(SwapError::InvalidArgument));
}

#[test]
fn foreign_fund_authority_is_refused() {
    let (_, a) = through_checks(0, 0, 0, true, request_with(17, [9; 32]));
    assert_eq!(finished(a), Err(SwapError::Custom(INVALID_FUND_AUTHORITY)));
    assert_eq!(INVALID_FUND_AUTHORITY, 517);
}

#[test]
fn outside_errors_pass_through() {
    let (m, _) = SwapMachine::start(request());
    let (_, a) = m.step(SwapEvent::LiquidationStartTime(Err(ProgramError::AccountBorrowFailed)));
    assert_eq!(finished(a), Err(SwapError::Outside(ProgramError::AccountBorrowFailed)));

    let (m, _) = through_checks(0, 0, 0, true, request());
    let (_, a) = m.step(SwapEvent::TargetVaultChecked(Err(ProgramError::InvalidAccountData)));
    assert_eq!(finished(a), Err(SwapError::Outside(ProgramError::InvalidAccountData)));

    let (m, _) = through_checks(0, 0, 0, true, request());
    let (m, _) = m.step(SwapEvent::TargetVaultChecked(Ok(())));
    let (m, _) = m.step(SwapEvent::Invoked(Ok(())));
    let (_, a) = m.step(SwapEvent::TokenBalances(Err(ProgramError::InvalidAccountData)));
    assert_eq!(finished(a), Err(SwapError::Outside(ProgramError::InvalidAccountData)));

    let (m, _) = through_checks(0, 0, 0, true, request());
    let (m, _) = m.step(SwapEvent::TargetVaultChecked(Ok(())));
    let (_, a) = m.step(SwapEvent::Invoked(Err(ProgramError::Custom(42))));
    assert_eq!(finished(a), Err(SwapError::Outside(ProgramError::Custom(42))));

    let (m, _) = SwapMachine::start(request());
    let (m, _) = m.step(SwapEvent::LiquidationStartTime(Ok(1)));
    let (_, a) = m.step(SwapEvent::CurrentTime(Err(ProgramError::UnsupportedSysvar)));
    assert_eq!(finished(a), Err(SwapError::Outside(ProgramError::UnsupportedSysvar)));
}

#[test]
fn unanswered_events_change_nothing() {
    let (m, _) = SwapMachine::start(request());
    let (m, a) = m.step(SwapEvent::Invoked(Ok(())));
    assert!(matches!(a, SwapAction::Unexpected));
    assert_eq!(m.stage(), SwapStage::AwaitLiquidationStartTime);

    let (m, _) = SwapMachine::start(request_with(3, [3; 32]));
    let (m, a) = m.step(SwapEvent::LiquidationStartTime(Ok(0)));
    assert!(matches!(a, SwapAction::Unexpected));
    assert_eq!(m.stage(), SwapStage::Finished);
}
