//! What the swap machine does as a whole: driven by the outside world's
//! answers, it ends exactly as the handler's checks say, and it invokes the
//! router only when every check passed.

use vstd::prelude::*;
use solana_program::program_error::ProgramError;
use crate::keys::Key;
use crate::orca_swap::{
    AccountMeta, ActionView, InvocationView, RequestView, SwapError, SwapEvent, SwapStage, VaultCheck,
    AMM_AUTHORITY, AMM_ID, FUND_AUTHORITY, FUND_METADATA, FUND_TOKEN_A, FUND_TOKEN_B,
    INVALID_FUND_AUTHORITY, LP_TOKEN_MINT, POOL_FEES, POOL_PROGRAM, POOL_TOKEN_A, POOL_TOKEN_B,
    ROUTER_PROGRAM, SWAP_ACCOUNTS, TOKEN_PROGRAM, authority_seeds, first_step, invocation, next_step,
    orca_accounts, too_early,
};
use crate::swap_data::swap_data;

verus! {

/// The outside world's answers during one swap, one per kind of outside work.
pub struct Observations {
    pub liquidation_start_time: Result<i64, ProgramError>,
    pub current_time: Result<i64, ProgramError>,
    pub last_trade_time: Result<i64, ProgramError>,
    pub is_last_instruction: Result<bool, ProgramError>,
    pub target_vault: Result<(), ProgramError>,
    pub invoke: Result<(), ProgramError>,
    pub token_balances: Result<(u64, u64), ProgramError>,
    pub trade_time_update: Result<(), ProgramError>,
}

/// The liquidation cooldown: a fund in liquidation (positive start time) trades
/// at most once per `MIN_TRADE_INTERVAL` seconds.
pub open spec fn cooldown(obs: Observations) -> Result<(), SwapError> {
    match obs.liquidation_start_time {
        Err(e) => Err(SwapError::Outside(e)),
        Ok(start) => if start <= 0 {
            Ok(())
        } else {
            match obs.current_time {
                Err(e) => Err(SwapError::Outside(e)),
                Ok(now) => match obs.last_trade_time {
                    Err(e) => Err(SwapError::Outside(e)),
                    Ok(last) => if too_early(now, last) { Err(SwapError::TooEarly) } else { Ok(()) },
                },
            }
        },
    }
}

/// Every check that comes before the router is invoked, in the handler's order:
/// the account count, the cooldown, the last-instruction rule, the fund authority
/// and the vault.
pub open spec fn checks(req: RequestView, obs: Observations) -> Result<(), SwapError> {
    if req.accounts.len() != SWAP_ACCOUNTS {
        Err(SwapError::NotEnoughAccountKeys)
    } else {
        match cooldown(obs) {
            Err(e) => Err(e),
            Ok(_) => match obs.is_last_instruction {
                Err(e) => Err(SwapError::Outside(e)),
                Ok(is_last) => if !is_last {
                    Err(SwapError::InvalidArgument)
                } else if req.accounts[FUND_AUTHORITY as int] != req.fund_authority {
                    Err(SwapError::Custom(INVALID_FUND_AUTHORITY))
                } else {
                    match obs.target_vault {
                        Err(e) => Err(SwapError::Outside(e)),
                        Ok(_) => Ok(()),
                    }
                },
            },
        }
    }
}

/// The handler's result: the checks, then the invocation, the balance reads
/// and the trade time update, the first failure ending it.
pub open spec fn swap_outcome(req: RequestView, obs: Observations) -> Result<(), SwapError> {
    match checks(req, obs) {
        Err(e) => Err(e),
        Ok(_) => match obs.invoke {
            Err(e) => Err(SwapError::Outside(e)),
            Ok(_) => match obs.token_balances {
                Err(e) => Err(SwapError::Outside(e)),
                Ok(_) => match obs.trade_time_update {
                    Err(e) => Err(SwapError::Outside(e)),
                    Ok(_) => Ok(()),
                },
            },
        },
    }
}

/// The world's answer to an action.
pub open spec fn reply(obs: Observations, action: ActionView) -> SwapEvent {
    match action {
        ActionView::ReadLiquidationStartTime => SwapEvent::LiquidationStartTime(obs.liquidation_start_time),
        ActionView::ReadCurrentTime => SwapEvent::CurrentTime(obs.current_time),
        ActionView::ReadLastTradeTime => SwapEvent::LastTradeTime(obs.last_trade_time),
        ActionView::CheckLastInstruction => SwapEvent::LastInstructionChecked(obs.is_last_instruction),
        ActionView::CheckTargetVault(_) => SwapEvent::TargetVaultChecked(obs.target_vault),
        ActionView::Invoke(_) => SwapEvent::Invoked(obs.invoke),
        ActionView::ReadTokenBalances => SwapEvent::TokenBalances(obs.token_balances),
        _ => SwapEvent::TradeTimeUpdated(obs.trade_time_update),
    }
}

/// Whether an action ends the swap.
pub open spec fn is_finish(action: ActionView) -> bool {
    action is Finish
}

/// The last action of a swap driven by `obs` from `stage` and `action`, taking
/// at most `fuel` more steps.
pub open spec fn run(req: RequestView, stage: SwapStage, action: ActionView, obs: Observations, fuel: nat) -> ActionView
    decreases fuel,
{
    if is_finish(action) || fuel == 0 {
        action
    } else {
        let (s, a) = next_step(req, stage, reply(obs, action));
        run(req, s, a, obs, (fuel - 1) as nat)
    }
}

/// The router invocations a swap driven by `obs` asks for, in order.
pub open spec fn run_invocations(
    req: RequestView,
    stage: SwapStage,
    action: ActionView,
    obs: Observations,
    fuel: nat,
) -> Seq<InvocationView>
    decreases fuel,
{
    let here = match action {
        ActionView::Invoke(inv) => seq![inv],
        _ => Seq::<InvocationView>::empty(),
    };
    if is_finish(action) || fuel == 0 {
        here
    } else {
        let (s, a) = next_step(req, stage, reply(obs, action));
        here + run_invocations(req, s, a, obs, (fuel - 1) as nat)
    }
}

/// The most steps a swap takes after its first action.
pub open spec fn max_steps() -> nat {
    8
}

/// Driven by the world's answers, a swap ends within `max_steps` steps with
/// exactly the handler's result.
pub proof fn lemma_swap_ends_with_handler_result(req: RequestView, obs: Observations)
    ensures
        is_finish(run(req, first_step(req).0, first_step(req).1, obs, max_steps())),
        run(req, first_step(req).0, first_step(req).1, obs, max_steps())
            == ActionView::Finish(swap_outcome(req, obs)),
{
    reveal_with_fuel(run, 9);
}

/// The router is invoked once, with the request's invocation, when every check
/// passed, and never otherwise.
pub proof fn lemma_invokes_only_after_checks(req: RequestView, obs: Observations)
    ensures
        run_invocations(req, first_step(req).0, first_step(req).1, obs, max_steps())
            == (if checks(req, obs) is Ok { seq![invocation(req)] } else { Seq::<InvocationView>::empty() }),
{
    reveal_with_fuel(run_invocations, 9);
}

/// Whether `event` answers the action a swap in `stage` waits for.
pub open spec fn answers(stage: SwapStage, event: SwapEvent) -> bool {
    match (stage, event) {
        (SwapStage::AwaitLiquidationStartTime, SwapEvent::LiquidationStartTime(_)) => true,
        (SwapStage::AwaitCurrentTime, SwapEvent::CurrentTime(_)) => true,
        (SwapStage::AwaitLastTradeTime { .. }, SwapEvent::LastTradeTime(_)) => true,
        (SwapStage::AwaitLastInstruction, SwapEvent::LastInstructionChecked(_)) => true,
        (SwapStage::AwaitTargetVault, SwapEvent::TargetVaultChecked(_)) => true,
        (SwapStage::AwaitInvoke, SwapEvent::Invoked(_)) => true,
        (SwapStage::AwaitTokenBalances, SwapEvent::TokenBalances(_)) => true,
        (SwapStage::AwaitTradeTimeUpdate, SwapEvent::TradeTimeUpdated(_)) => true,
        _ => false,
    }
}

/// How far a swap has come.
pub open spec fn progress(stage: SwapStage) -> nat {
    match stage {
        SwapStage::AwaitLiquidationStartTime => 0,
        SwapStage::AwaitCurrentTime => 1,
        SwapStage::AwaitLastTradeTime { .. } => 2,
        SwapStage::AwaitLastInstruction => 3,
        SwapStage::AwaitTargetVault => 4,
        SwapStage::AwaitInvoke => 5,
        SwapStage::AwaitTokenBalances => 6,
        SwapStage::AwaitTradeTimeUpdate => 7,
        SwapStage::Finished => 8,
    }
}

/// An event that does not answer the pending action changes nothing, and a
/// finished swap stays finished whatever comes.
pub proof fn lemma_unanswered_event_changes_nothing(req: RequestView, stage: SwapStage, event: SwapEvent)
    requires
        !answers(stage, event),
    ensures
        next_step(req, stage, event) == (stage, ActionView::Unexpected),
{
}

/// Every answered event moves a swap strictly forward, so a swap ends after
/// finitely many answers.
pub proof fn lemma_answers_make_progress(req: RequestView, stage: SwapStage, event: SwapEvent)
    requires
        answers(stage, event),
    ensures
        progress(next_step(req, stage, event).0) > progress(stage),
        next_step(req, stage, event).0 == SwapStage::Finished <==> next_step(req, stage, event).1 is Finish,
{
}

/// An error that outside work reports ends the swap with that very error.
pub proof fn lemma_outside_errors_pass_through(req: RequestView, stage: SwapStage, event: SwapEvent, e: ProgramError)
    requires
        answers(stage, event),
        match event {
            SwapEvent::LiquidationStartTime(r) => r == Err::<i64, ProgramError>(e),
            SwapEvent::CurrentTime(r) => r == Err::<i64, ProgramError>(e),
            SwapEvent::LastTradeTime(r) => r == Err::<i64, ProgramError>(e),
            SwapEvent::LastInstructionChecked(r) => r == Err::<bool, ProgramError>(e),
            SwapEvent::TargetVaultChecked(r) => r == Err::<(), ProgramError>(e),
            SwapEvent::Invoked(r) => r == Err::<(), ProgramError>(e),
            SwapEvent::TokenBalances(r) => r == Err::<(u64, u64), ProgramError>(e),
            SwapEvent::TradeTimeUpdated(r) => r == Err::<(), ProgramError>(e),
        },
    ensures
        next_step(req, stage, event) == (SwapStage::Finished, ActionView::Finish(Err(SwapError::Outside(e)))),
{
}

/// A fund in liquidation whose last trade is less than `MIN_TRADE_INTERVAL`
/// seconds old is refused with `TooEarly`, and the router is not invoked.
pub proof fn lemma_liquidation_cooldown_refuses(req: RequestView, obs: Observations, start: i64, now: i64, last: i64)
    requires
        req.accounts.len() == SWAP_ACCOUNTS,
        obs.liquidation_start_time == Ok::<i64, ProgramError>(start),
        start > 0,
        obs.current_time == Ok::<i64, ProgramError>(now),
        obs.last_trade_time == Ok::<i64, ProgramError>(last),
        too_early(now, last),
    ensures
        swap_outcome(req, obs) == Err::<(), SwapError>(SwapError::TooEarly),
        run_invocations(req, first_step(req).0, first_step(req).1, obs, max_steps()).len() == 0,
{
    lemma_invokes_only_after_checks(req, obs);
}

/// A swap whose fund authority account is not the fund's authority is refused
/// with the custom code `INVALID_FUND_AUTHORITY`, once the earlier checks passed,
/// and the router is not invoked.
pub proof fn lemma_foreign_authority_refused(req: RequestView, obs: Observations)
    requires
        req.accounts.len() == SWAP_ACCOUNTS,
        cooldown(obs) is Ok,
        obs.is_last_instruction == Ok::<bool, ProgramError>(true),
        req.accounts[FUND_AUTHORITY as int] != req.fund_authority,
    ensures
        swap_outcome(req, obs) == Err::<(), SwapError>(SwapError::Custom(INVALID_FUND_AUTHORITY)),
        run_invocations(req, first_step(req).0, first_step(req).1, obs, max_steps()).len() == 0,
{
    lemma_invokes_only_after_checks(req, obs);
}

/// A swap that is not its transaction's last instruction is refused with
/// `InvalidArgument`, once the cooldown passed, and the router is not invoked.
pub proof fn lemma_not_last_instruction_refused(req: RequestView, obs: Observations)
    requires
        req.accounts.len() == SWAP_ACCOUNTS,
        cooldown(obs) is Ok,
        obs.is_last_instruction == Ok::<bool, ProgramError>(false),
    ensures
        swap_outcome(req, obs) == Err::<(), SwapError>(SwapError::InvalidArgument),
        run_invocations(req, first_step(req).0, first_step(req).1, obs, max_steps()).len() == 0,
{
    lemma_invokes_only_after_checks(req, obs);
}

/// A swap succeeds exactly when every check passed and the invocation, the
/// balance reads and the trade time update all succeeded: a successful swap
/// has always recorded its trade time.
pub proof fn lemma_success_records_trade_time(req: RequestView, obs: Observations)
    ensures
        swap_outcome(req, obs) is Ok <==> (checks(req, obs) is Ok && obs.invoke is Ok
            && obs.token_balances is Ok && obs.trade_time_update is Ok),
{
}

/// Once the authority check passes, the vault is checked against the fund's
/// program id and the request's router program, fund metadata and AMM accounts,
/// whatever the amounts.
pub proof fn lemma_vault_check_names_request_accounts(req: RequestView)
    requires
        req.accounts.len() == SWAP_ACCOUNTS,
        req.accounts[FUND_AUTHORITY as int] == req.fund_authority,
    ensures
        next_step(req, SwapStage::AwaitLastInstruction, SwapEvent::LastInstructionChecked(Ok(true)))
            == (SwapStage::AwaitTargetVault, ActionView::CheckTargetVault(VaultCheck {
                fund_program_id: req.fund_program_id,
                router_program_id: req.accounts[ROUTER_PROGRAM as int],
                fund_metadata: req.accounts[FUND_METADATA as int],
                amm_id: req.accounts[AMM_ID as int],
            })),
{
}

/// The router's account list takes each entry from its fixed position among the
/// request's accounts, whatever the keys hold: the fund authority (the only
/// signer), the fund's token accounts, the pool program, the pool's token
/// accounts A then B, the LP mint, the token program, the AMM, its authority and
/// the fee account; the token accounts, the mint, the AMM and the fee account
/// are writable.
pub proof fn lemma_router_accounts_by_position(keys: Seq<Key>)
    requires
        keys.len() == SWAP_ACCOUNTS,
    ensures
        orca_accounts(keys).len() == 11,
        orca_accounts(keys)[0] == (AccountMeta { pubkey: keys[FUND_AUTHORITY as int], is_signer: true, is_writable: false }),
        orca_accounts(keys)[1] == (AccountMeta { pubkey: keys[FUND_TOKEN_A as int], is_signer: false, is_writable: true }),
        orca_accounts(keys)[2] == (AccountMeta { pubkey: keys[FUND_TOKEN_B as int], is_signer: false, is_writable: true }),
        orca_accounts(keys)[3] == (AccountMeta { pubkey: keys[POOL_PROGRAM as int], is_signer: false, is_writable: false }),
        orca_accounts(keys)[4] == (AccountMeta { pubkey: keys[POOL_TOKEN_A as int], is_signer: false, is_writable: true }),
        orca_accounts(keys)[5] == (AccountMeta { pubkey: keys[POOL_TOKEN_B as int], is_signer: false, is_writable: true }),
        orca_accounts(keys)[6] == (AccountMeta { pubkey: keys[LP_TOKEN_MINT as int], is_signer: false, is_writable: true }),
        orca_accounts(keys)[7] == (AccountMeta { pubkey: keys[TOKEN_PROGRAM as int], is_signer: false, is_writable: false }),
        orca_accounts(keys)[8] == (AccountMeta { pubkey: keys[AMM_ID as int], is_signer: false, is_writable: true }),
        orca_accounts(keys)[9] == (AccountMeta { pubkey: keys[AMM_AUTHORITY as int], is_signer: false, is_writable: false }),
        orca_accounts(keys)[10] == (AccountMeta { pubkey: keys[POOL_FEES as int], is_signer: false, is_writable: true }),
        forall|k: int| 1 <= k < 11 ==> !(#[trigger] orca_accounts(keys)[k]).is_signer,
{
}

/// The signer seeds are the 14 bytes of `fund_authority`, the fund's name, and
/// the single byte of the authority bump, for every name and bump.
pub proof fn lemma_authority_seeds_shape(name: Seq<u8>, bump: u8)
    ensures
        authority_seeds(name, bump).len() == 3,
        authority_seeds(name, bump)[0] == seq![102u8, 117, 110, 100, 95, 97, 117, 116, 104, 111, 114, 105, 116, 121],
        authority_seeds(name, bump)[1] == name,
        authority_seeds(name, bump)[2].len() == 1,
        authority_seeds(name, bump)[2][0] == bump,
{
}

/// Once the vault check passes, the swap invokes the request's router program
/// (whatever the amounts) with the router account list, the packed amounts and
/// the fund authority's seeds.
pub proof fn lemma_invocation_targets_router(req: RequestView)
    requires
        req.accounts.len() == SWAP_ACCOUNTS,
    ensures
        next_step(req, SwapStage::AwaitTargetVault, SwapEvent::TargetVaultChecked(Ok(()))).1 is Invoke,
        next_step(req, SwapStage::AwaitTargetVault, SwapEvent::TargetVaultChecked(Ok(()))).1
            == ActionView::Invoke(invocation(req)),
        invocation(req).program_id == req.accounts[ROUTER_PROGRAM as int],
        invocation(req).accounts == orca_accounts(req.accounts),
        invocation(req).data == swap_data(req.token_a_amount_in, req.token_b_amount_in, req.min_token_amount_out),
        invocation(req).seeds == authority_seeds(req.fund_name, req.authority_bump),
{
}

/// The cooldown compares the times as integers: a trade is too early exactly
/// when the last one happened (positive time) and less than 300 seconds
/// separate them; so a fund in liquidation whose last trade is at least 300
/// seconds old goes on to the last-instruction check, and one whose last trade
/// is more recent is refused with `TooEarly`.
pub proof fn lemma_cooldown_is_integer_difference(req: RequestView, now: i64, last: i64)
    ensures
        too_early(now, last) <==> (last > 0 && (now as int) - (last as int) < 300),
        last > 0 && (now as int) - (last as int) >= 300 ==>
            next_step(req, SwapStage::AwaitLastTradeTime { now }, SwapEvent::LastTradeTime(Ok(last)))
                == (SwapStage::AwaitLastInstruction, ActionView::CheckLastInstruction),
        last <= 0 ==>
            next_step(req, SwapStage::AwaitLastTradeTime { now }, SwapEvent::LastTradeTime(Ok(last)))
                == (SwapStage::AwaitLastInstruction, ActionView::CheckLastInstruction),
        last > 0 && (now as int) - (last as int) < 300 ==>
            next_step(req, SwapStage::AwaitLastTradeTime { now }, SwapEvent::LastTradeTime(Ok(last)))
                == (SwapStage::Finished, ActionView::Finish(Err(SwapError::TooEarly))),
{
}

/// Each answered step, stated by its inputs: a request without exactly 17
/// accounts is refused at once; a positive liquidation start time leads to the
/// clock, any other to the last-instruction check; the clock's time is kept for
/// the cooldown; a swap that is not last is an invalid argument; a foreign fund
/// authority is refused with code 517; after the invocation come the balance
/// reads, then the trade time update, then success.
pub proof fn lemma_each_step(req: RequestView, t: i64, now: i64)
    ensures
        req.accounts.len() != 17 ==> first_step(req)
            == (SwapStage::Finished, ActionView::Finish(Err(SwapError::NotEnoughAccountKeys))),
        req.accounts.len() == 17 ==> first_step(req)
            == (SwapStage::AwaitLiquidationStartTime, ActionView::ReadLiquidationStartTime),
        t > 0 ==> next_step(req, SwapStage::AwaitLiquidationStartTime, SwapEvent::LiquidationStartTime(Ok(t)))
            == (SwapStage::AwaitCurrentTime, ActionView::ReadCurrentTime),
        t <= 0 ==> next_step(req, SwapStage::AwaitLiquidationStartTime, SwapEvent::LiquidationStartTime(Ok(t)))
            == (SwapStage::AwaitLastInstruction, ActionView::CheckLastInstruction),
        next_step(req, SwapStage::AwaitCurrentTime, SwapEvent::CurrentTime(Ok(now)))
            == (SwapStage::AwaitLastTradeTime { now }, ActionView::ReadLastTradeTime),
        next_step(req, SwapStage::AwaitLastInstruction, SwapEvent::LastInstructionChecked(Ok(false)))
            == (SwapStage::Finished, ActionView::Finish(Err(SwapError::InvalidArgument))),
        req.accounts[3] != req.fund_authority ==>
            next_step(req, SwapStage::AwaitLastInstruction, SwapEvent::LastInstructionChecked(Ok(true)))
                == (SwapStage::Finished, ActionView::Finish(Err(SwapError::Custom(517)))),
        next_step(req, SwapStage::AwaitInvoke, SwapEvent::Invoked(Ok(())))
            == (SwapStage::AwaitTokenBalances, ActionView::ReadTokenBalances),
        forall|b: (u64, u64)| #[trigger] next_step(req, SwapStage::AwaitTokenBalances, SwapEvent::TokenBalances(Ok(b)))
            == (SwapStage::AwaitTradeTimeUpdate, ActionView::UpdateLastTradeTime),
        next_step(req, SwapStage::AwaitTradeTimeUpdate, SwapEvent::TradeTimeUpdated(Ok(())))
            == (SwapStage::Finished, ActionView::Finish(Ok(()))),
{
}

} // verus!
