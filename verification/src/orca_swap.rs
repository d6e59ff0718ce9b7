//! The decisions of the fund's Orca swap: which accounts it takes, when a swap
//! is refused, and the router instruction it signs.
//!
//! The handler alternates between outside work (reading the fund's info
//! account and the clock, asking the instructions sysvar, checking the vault,
//! invoking the router, reading balances, recording the trade time) and
//! decisions. The decisions live here as a machine: the caller performs each
//! `SwapAction` and hands back the matching `SwapEvent`.

use vstd::prelude::*;
use solana_program::program_error::ProgramError;
use crate::keys::{Key, keys_equal};
use crate::swap_data::{swap_data, pack_swap_instruction};

verus! {

/// The number of accounts the swap takes, in this order:
/// admin, fund metadata, fund info, fund authority, router program,
/// fund vault metadata, fund token A, fund token B, pool program,
/// pool token A, pool token B, LP token mint, token program, AMM id,
/// AMM authority, pool fees account, instructions sysvar.
pub const SWAP_ACCOUNTS: usize = 17;

pub const FUND_METADATA: usize = 1;
pub const FUND_INFO: usize = 2;
pub const FUND_AUTHORITY: usize = 3;
pub const ROUTER_PROGRAM: usize = 4;
pub const FUND_VAULT_METADATA: usize = 5;
pub const FUND_TOKEN_A: usize = 6;
pub const FUND_TOKEN_B: usize = 7;
pub const POOL_PROGRAM: usize = 8;
pub const POOL_TOKEN_A: usize = 9;
pub const POOL_TOKEN_B: usize = 10;
pub const LP_TOKEN_MINT: usize = 11;
pub const TOKEN_PROGRAM: usize = 12;
pub const AMM_ID: usize = 13;
pub const AMM_AUTHORITY: usize = 14;
pub const POOL_FEES: usize = 15;
pub const INSTRUCTIONS_SYSVAR: usize = 16;

/// Seconds that must pass between two trades once the fund's liquidation has started.
pub const MIN_TRADE_INTERVAL: i64 = 300;

/// The custom error code for a fund authority account that is not the fund's.
pub const INVALID_FUND_AUTHORITY: u32 = 517;

/// What the swap reads of the fund's record.
pub struct FundView {
    pub name: Vec<u8>,
    pub authority_bump: u8,
    pub fund_program_id: Key,
    pub fund_authority: Key,
}

/// One swap request: the fund, the addresses of the accounts passed in, and the amounts.
pub struct SwapRequest {
    pub fund: FundView,
    pub accounts: Vec<Key>,
    pub token_a_amount_in: u64,
    pub token_b_amount_in: u64,
    pub min_token_amount_out: u64,
}

/// The mathematical content of a `SwapRequest`.
pub struct RequestView {
    pub fund_name: Seq<u8>,
    pub authority_bump: u8,
    pub fund_program_id: Key,
    pub fund_authority: Key,
    pub accounts: Seq<Key>,
    pub token_a_amount_in: u64,
    pub token_b_amount_in: u64,
    pub min_token_amount_out: u64,
}

impl View for SwapRequest {
    type V = RequestView;

    open spec fn view(&self) -> RequestView {
        RequestView {
            fund_name: self.fund.name@,
            authority_bump: self.fund.authority_bump,
            fund_program_id: self.fund.fund_program_id,
            fund_authority: self.fund.fund_authority,
            accounts: self.accounts@,
            token_a_amount_in: self.token_a_amount_in,
            token_b_amount_in: self.token_b_amount_in,
            min_token_amount_out: self.min_token_amount_out,
        }
    }
}

/// An account handed to the router: its address and how the router may use it.
#[derive(Clone, Copy, PartialEq, Eq, Debug)]
pub struct AccountMeta {
    pub pubkey: Key,
    pub is_signer: bool,
    pub is_writable: bool,
}

/// A read-only account entry.
pub open spec fn readonly(pubkey: Key, is_signer: bool) -> AccountMeta {
    AccountMeta { pubkey, is_signer, is_writable: false }
}

/// A writable account entry.
pub open spec fn writable(pubkey: Key, is_signer: bool) -> AccountMeta {
    AccountMeta { pubkey, is_signer, is_writable: true }
}

/// The accounts of the router's swap instruction, taken from the swap's accounts:
/// only the fund authority signs; the fund's and the pool's token accounts, the LP
/// mint, the AMM and the fee account are writable.
pub open spec fn orca_accounts(keys: Seq<Key>) -> Seq<AccountMeta> {
    seq![
        readonly(keys[FUND_AUTHORITY as int], true),
        writable(keys[FUND_TOKEN_A as int], false),
        writable(keys[FUND_TOKEN_B as int], false),
        readonly(keys[POOL_PROGRAM as int], false),
        writable(keys[POOL_TOKEN_A as int], false),
        writable(keys[POOL_TOKEN_B as int], false),
        writable(keys[LP_TOKEN_MINT as int], false),
        readonly(keys[TOKEN_PROGRAM as int], false),
        writable(keys[AMM_ID as int], false),
        readonly(keys[AMM_AUTHORITY as int], false),
        writable(keys[POOL_FEES as int], false),
    ]
}

/// The bytes of the seed prefix `b"fund_authority"`.
pub open spec fn fund_authority_prefix() -> Seq<u8> {
    seq![102u8, 117, 110, 100, 95, 97, 117, 116, 104, 111, 114, 105, 116, 121]
}

/// The seeds that sign for the fund authority: the prefix, the fund's name, the bump.
pub open spec fn authority_seeds(name: Seq<u8>, bump: u8) -> Seq<Seq<u8>> {
    seq![fund_authority_prefix(), name, seq![bump]]
}

/// The router invocation, in mathematical terms.
pub struct InvocationView {
    pub program_id: Key,
    pub accounts: Seq<AccountMeta>,
    pub data: Seq<u8>,
    pub seeds: Seq<Seq<u8>>,
}

/// The invocation of the router's swap that a request leads to.
pub open spec fn invocation(req: RequestView) -> InvocationView {
    InvocationView {
        program_id: req.accounts[ROUTER_PROGRAM as int],
        accounts: orca_accounts(req.accounts),
        data: swap_data(req.token_a_amount_in, req.token_b_amount_in, req.min_token_amount_out),
        seeds: authority_seeds(req.fund_name, req.authority_bump),
    }
}

/// A signed invocation of the router's swap instruction.
pub struct SwapInvocation {
    pub program_id: Key,
    pub accounts: Vec<AccountMeta>,
    pub data: Vec<u8>,
    pub seeds: Vec<Vec<u8>>,
}

impl View for SwapInvocation {
    type V = InvocationView;

    open spec fn view(&self) -> InvocationView {
        InvocationView {
            program_id: self.program_id,
            accounts: self.accounts@,
            data: self.data@,
            seeds: self.seeds.deep_view(),
        }
    }
}

/// Builds the router instruction's account list.
pub fn orca_swap_accounts(accounts: &Vec<Key>) -> (r: Vec<AccountMeta>)
    requires
        accounts.len() == SWAP_ACCOUNTS,
    ensures
        r@ == orca_accounts(accounts@),
        r@.len() == 11,
        r@[0] == (AccountMeta { pubkey: accounts@[FUND_AUTHORITY as int], is_signer: true, is_writable: false }),
        r@[1] == (AccountMeta { pubkey: accounts@[FUND_TOKEN_A as int], is_signer: false, is_writable: true }),
        r@[2] == (AccountMeta { pubkey: accounts@[FUND_TOKEN_B as int], is_signer: false, is_writable: true }),
        r@[3] == (AccountMeta { pubkey: accounts@[POOL_PROGRAM as int], is_signer: false, is_writable: false }),
        r@[4] == (AccountMeta { pubkey: accounts@[POOL_TOKEN_A as int], is_signer: false, is_writable: true }),
        r@[5] == (AccountMeta { pubkey: accounts@[POOL_TOKEN_B as int], is_signer: false, is_writable: true }),
        r@[6] == (AccountMeta { pubkey: accounts@[LP_TOKEN_MINT as int], is_signer: false, is_writable: true }),
        r@[7] == (AccountMeta { pubkey: accounts@[TOKEN_PROGRAM as int], is_signer: false, is_writable: false }),
        r@[8] == (AccountMeta { pubkey: accounts@[AMM_ID as int], is_signer: false, is_writable: true }),
        r@[9] == (AccountMeta { pubkey: accounts@[AMM_AUTHORITY as int], is_signer: false, is_writable: false }),
        r@[10] == (AccountMeta { pubkey: accounts@[POOL_FEES as int], is_signer: false, is_writable: true }),
{
    let mut r: Vec<AccountMeta> = Vec::new();
    r.push(AccountMeta { pubkey: accounts[FUND_AUTHORITY], is_signer: true, is_writable: false });
    r.push(AccountMeta { pubkey: accounts[FUND_TOKEN_A], is_signer: false, is_writable: true });
    r.push(AccountMeta { pubkey: accounts[FUND_TOKEN_B], is_signer: false, is_writable: true });
    r.push(AccountMeta { pubkey: accounts[POOL_PROGRAM], is_signer: false, is_writable: false });
    r.push(AccountMeta { pubkey: accounts[POOL_TOKEN_A], is_signer: false, is_writable: true });
    r.push(AccountMeta { pubkey: accounts[POOL_TOKEN_B], is_signer: false, is_writable: true });
    r.push(AccountMeta { pubkey: accounts[LP_TOKEN_MINT], is_signer: false, is_writable: true });
    r.push(AccountMeta { pubkey: accounts[TOKEN_PROGRAM], is_signer: false, is_writable: false });
    r.push(AccountMeta { pubkey: accounts[AMM_ID], is_signer: false, is_writable: true });
    r.push(AccountMeta { pubkey: accounts[AMM_AUTHORITY], is_signer: false, is_writable: false });
    r.push(AccountMeta { pubkey: accounts[POOL_FEES], is_signer: false, is_writable: true });
    assert(r@ =~= orca_accounts(accounts@));
    r
}

/// Builds the seeds that sign for the fund authority.
pub fn fund_authority_seeds(name: &Vec<u8>, authority_bump: u8) -> (r: Vec<Vec<u8>>)
    ensures
        r.deep_view() == authority_seeds(name@, authority_bump),
        r@.len() == 3,
        r@[0]@ == seq![102u8, 117, 110, 100, 95, 97, 117, 116, 104, 111, 114, 105, 116, 121],
        r@[1]@ == name@,
        r@[2]@.len() == 1,
        r@[2]@[0] == authority_bump,
{
    let prefix: Vec<u8> = vec![102u8, 117, 110, 100, 95, 97, 117, 116, 104, 111, 114, 105, 116, 121];
    let mut bump: Vec<u8> = Vec::new();
    bump.push(authority_bump);
    let mut r: Vec<Vec<u8>> = Vec::new();
    r.push(prefix);
    let name_copy = name.clone();
    assert(name_copy@ =~= name@);
    r.push(name_copy);
    r.push(bump);
    assert(r.deep_view()[1] =~= name@);
    assert(r.deep_view()[0] =~= fund_authority_prefix());
    assert(r.deep_view()[2] =~= seq![authority_bump]);
    assert(r.deep_view() =~= authority_seeds(name@, authority_bump));
    r
}

/// Builds the signed router invocation of a request, packing the instruction data
/// through the AMM instruction's own packer.
pub fn build_swap_invocation(req: &SwapRequest) -> (r: Result<SwapInvocation, ProgramError>)
    requires
        req.accounts.len() == SWAP_ACCOUNTS,
    ensures
        r is Ok,
        r.unwrap()@ == invocation(req@),
        r.unwrap().program_id == req.accounts@[ROUTER_PROGRAM as int],
        r.unwrap().accounts@ == orca_accounts(req.accounts@),
        r.unwrap().data@ == swap_data(req.token_a_amount_in, req.token_b_amount_in, req.min_token_amount_out),
        r.unwrap().seeds.deep_view() == authority_seeds(req.fund.name@, req.fund.authority_bump),
{
    let accounts = orca_swap_accounts(&req.accounts);
    let seeds = fund_authority_seeds(&req.fund.name, req.fund.authority_bump);
    let data = match pack_swap_instruction(
        req.token_a_amount_in,
        req.token_b_amount_in,
        req.min_token_amount_out,
    ) {
        Ok(data) => data,
        Err(e) => return Err(e),
    };
    Ok(SwapInvocation { program_id: req.accounts[ROUTER_PROGRAM], accounts, data, seeds })
}

/// Why a swap was refused.
#[derive(PartialEq, Eq, Debug)]
pub enum SwapError {
    /// Not exactly the swap's accounts were passed (`ProgramError::NotEnoughAccountKeys`).
    NotEnoughAccountKeys,
    /// The fund is in liquidation and its last trade was less than
    /// `MIN_TRADE_INTERVAL` seconds ago (`FarmError::TooEarly`).
    TooEarly,
    /// The swap is not the transaction's last instruction (`ProgramError::InvalidArgument`).
    InvalidArgument,
    /// A custom program error code (`ProgramError::Custom`).
    Custom(u32),
    /// An error that outside work returned, passed on unchanged.
    Outside(ProgramError),
}

/// The vault check: the fund's vault metadata account must belong to the fund
/// and target the given router and AMM.
#[derive(Clone, Copy, PartialEq, Eq, Debug)]
pub struct VaultCheck {
    pub fund_program_id: Key,
    pub router_program_id: Key,
    pub fund_metadata: Key,
    pub amm_id: Key,
}

/// The vault check a request asks for.
pub open spec fn vault_check(req: RequestView) -> VaultCheck {
    VaultCheck {
        fund_program_id: req.fund_program_id,
        router_program_id: req.accounts[ROUTER_PROGRAM as int],
        fund_metadata: req.accounts[FUND_METADATA as int],
        amm_id: req.accounts[AMM_ID as int],
    }
}

/// The next piece of outside work the swap needs, or its end.
pub enum SwapAction {
    /// Read the liquidation start time from the fund info account.
    ReadLiquidationStartTime,
    /// Read the current Unix time from the clock.
    ReadCurrentTime,
    /// Read the last trade time from the fund info account.
    ReadLastTradeTime,
    /// Ask the instructions sysvar whether this is the transaction's last instruction.
    CheckLastInstruction,
    /// Check the fund's vault metadata account against these addresses.
    CheckTargetVault(VaultCheck),
    /// Invoke the router, signed for the fund authority.
    Invoke(SwapInvocation),
    /// Read the balances of the fund's two token accounts, A then B.
    ReadTokenBalances,
    /// Record the current time as the fund's last trade time.
    UpdateLastTradeTime,
    /// The swap is over, with this result.
    Finish(Result<(), SwapError>),
    /// The event did not answer the pending action; nothing changed.
    Unexpected,
}

/// The answer to an action.
pub enum SwapEvent {
    LiquidationStartTime(Result<i64, ProgramError>),
    CurrentTime(Result<i64, ProgramError>),
    LastTradeTime(Result<i64, ProgramError>),
    LastInstructionChecked(Result<bool, ProgramError>),
    TargetVaultChecked(Result<(), ProgramError>),
    Invoked(Result<(), ProgramError>),
    TokenBalances(Result<(u64, u64), ProgramError>),
    TradeTimeUpdated(Result<(), ProgramError>),
}

/// What a `SwapAction` means.
pub enum ActionView {
    ReadLiquidationStartTime,
    ReadCurrentTime,
    ReadLastTradeTime,
    CheckLastInstruction,
    CheckTargetVault(VaultCheck),
    Invoke(InvocationView),
    ReadTokenBalances,
    UpdateLastTradeTime,
    Finish(Result<(), SwapError>),
    Unexpected,
}

impl View for SwapAction {
    type V = ActionView;

    open spec fn view(&self) -> ActionView {
        match self {
            SwapAction::ReadLiquidationStartTime => ActionView::ReadLiquidationStartTime,
            SwapAction::ReadCurrentTime => ActionView::ReadCurrentTime,
            SwapAction::ReadLastTradeTime => ActionView::ReadLastTradeTime,
            SwapAction::CheckLastInstruction => ActionView::CheckLastInstruction,
            SwapAction::CheckTargetVault(c) => ActionView::CheckTargetVault(*c),
            SwapAction::Invoke(inv) => ActionView::Invoke(inv@),
            SwapAction::ReadTokenBalances => ActionView::ReadTokenBalances,
            SwapAction::UpdateLastTradeTime => ActionView::UpdateLastTradeTime,
            SwapAction::Finish(r) => ActionView::Finish(*r),
            SwapAction::Unexpected => ActionView::Unexpected,
        }
    }
}

/// Where a swap stands.
#[derive(Clone, Copy, PartialEq, Eq, Debug)]
pub enum SwapStage {
    AwaitLiquidationStartTime,
    AwaitCurrentTime,
    AwaitLastTradeTime { now: i64 },
    AwaitLastInstruction,
    AwaitTargetVault,
    AwaitInvoke,
    AwaitTokenBalances,
    AwaitTradeTimeUpdate,
    Finished,
}

/// Whether the last trade is too recent for another one: it happened (its time is
/// positive) and less than `MIN_TRADE_INTERVAL` seconds separate it from `now`.
pub open spec fn too_early(now: i64, last_trade_time: i64) -> bool {
    last_trade_time > 0 && now - last_trade_time < MIN_TRADE_INTERVAL
}

/// Decides whether a trade at `now` comes too early after the one at `last_trade_time`.
pub fn trade_too_early(now: i64, last_trade_time: i64) -> (r: bool)
    ensures
        r == too_early(now, last_trade_time),
        r == (last_trade_time > 0 && (now as int) - (last_trade_time as int) < 300),
{
    last_trade_time > 0 && (now as i128) - (last_trade_time as i128) < (MIN_TRADE_INTERVAL as i128)
}

/// The first stage of a request and its first action: a request that does not
/// pass exactly `SWAP_ACCOUNTS` accounts is refused at once.
pub open spec fn first_step(req: RequestView) -> (SwapStage, ActionView) {
    if req.accounts.len() != SWAP_ACCOUNTS {
        (SwapStage::Finished, ActionView::Finish(Err(SwapError::NotEnoughAccountKeys)))
    } else {
        (SwapStage::AwaitLiquidationStartTime, ActionView::ReadLiquidationStartTime)
    }
}

/// Ends the swap with an error.
pub open spec fn fail(e: SwapError) -> (SwapStage, ActionView) {
    (SwapStage::Finished, ActionView::Finish(Err(e)))
}

/// The transition of a swap in `stage` on `event`: an outside error ends the swap
/// with that error; an event that does not answer the stage changes nothing.
pub open spec fn next_step(req: RequestView, stage: SwapStage, event: SwapEvent) -> (SwapStage, ActionView) {
    match (stage, event) {
        (SwapStage::AwaitLiquidationStartTime, SwapEvent::LiquidationStartTime(r)) => match r {
            Err(e) => fail(SwapError::Outside(e)),
            Ok(t) => if t > 0 {
                (SwapStage::AwaitCurrentTime, ActionView::ReadCurrentTime)
            } else {
                (SwapStage::AwaitLastInstruction, ActionView::CheckLastInstruction)
            },
        },
        (SwapStage::AwaitCurrentTime, SwapEvent::CurrentTime(r)) => match r {
            Err(e) => fail(SwapError::Outside(e)),
            Ok(now) => (SwapStage::AwaitLastTradeTime { now }, ActionView::ReadLastTradeTime),
        },
        (SwapStage::AwaitLastTradeTime { now }, SwapEvent::LastTradeTime(r)) => match r {
            Err(e) => fail(SwapError::Outside(e)),
            Ok(last) => if too_early(now, last) {
                fail(SwapError::TooEarly)
            } else {
                (SwapStage::AwaitLastInstruction, ActionView::CheckLastInstruction)
            },
        },
        (SwapStage::AwaitLastInstruction, SwapEvent::LastInstructionChecked(r)) => match r {
            Err(e) => fail(SwapError::Outside(e)),
            Ok(is_last) => if !is_last {
                fail(SwapError::InvalidArgument)
            } else if req.accounts[FUND_AUTHORITY as int] != req.fund_authority {
                fail(SwapError::Custom(INVALID_FUND_AUTHORITY))
            } else {
                (SwapStage::AwaitTargetVault, ActionView::CheckTargetVault(vault_check(req)))
            },
        },
        (SwapStage::AwaitTargetVault, SwapEvent::TargetVaultChecked(r)) => match r {
            Err(e) => fail(SwapError::Outside(e)),
            Ok(_) => (SwapStage::AwaitInvoke, ActionView::Invoke(invocation(req))),
        },
        (SwapStage::AwaitInvoke, SwapEvent::Invoked(r)) => match r {
            Err(e) => fail(SwapError::Outside(e)),
            Ok(_) => (SwapStage::AwaitTokenBalances, ActionView::ReadTokenBalances),
        },
        (SwapStage::AwaitTokenBalances, SwapEvent::TokenBalances(r)) => match r {
            Err(e) => fail(SwapError::Outside(e)),
            Ok(_) => (SwapStage::AwaitTradeTimeUpdate, ActionView::UpdateLastTradeTime),
        },
        (SwapStage::AwaitTradeTimeUpdate, SwapEvent::TradeTimeUpdated(r)) => match r {
            Err(e) => fail(SwapError::Outside(e)),
            Ok(_) => (SwapStage::Finished, ActionView::Finish(Ok(()))),
        },
        _ => (stage, ActionView::Unexpected),
    }
}

/// A swap in progress.
pub struct SwapMachine {
    request: SwapRequest,
    stage: SwapStage,
}

impl SwapMachine {
    /// Until it finishes, a swap holds exactly its accounts.
    #[verifier::type_invariant]
    spec fn well_formed(self) -> bool {
        self.stage != SwapStage::Finished ==> self.request.accounts.len() == SWAP_ACCOUNTS
    }

    /// The request this swap serves.
    pub closed spec fn request_view(self) -> RequestView {
        self.request@
    }

    /// The stage this swap is in.
    pub closed spec fn stage_view(self) -> SwapStage {
        self.stage
    }

    /// Returns the stage this swap is in.
    pub fn stage(&self) -> (r: SwapStage)
        ensures
            r == self.stage_view(),
    {
        self.stage
    }

    /// Starts a swap: refuses a request with other than `SWAP_ACCOUNTS` accounts,
    /// else asks for the liquidation start time.
    pub fn start(request: SwapRequest) -> (r: (SwapMachine, SwapAction))
        ensures
            r.0.request_view() == request@,
            (r.0.stage_view(), r.1@) == first_step(request@),
    {
        if request.accounts.len() != SWAP_ACCOUNTS {
            (
                SwapMachine { request, stage: SwapStage::Finished },
                SwapAction::Finish(Err(SwapError::NotEnoughAccountKeys)),
            )
        } else {
            (
                SwapMachine { request, stage: SwapStage::AwaitLiquidationStartTime },
                SwapAction::ReadLiquidationStartTime,
            )
        }
    }

    /// Takes the answer to the pending action and returns the next action.
    pub fn step(self, event: SwapEvent) -> (r: (SwapMachine, SwapAction))
        ensures
            r.0.request_view() == self.request_view(),
            (r.0.stage_view(), r.1@) == next_step(self.request_view(), self.stage_view(), event),
    {
        proof { use_type_invariant(&self); }
        let SwapMachine { request, stage } = self;
        match (stage, event) {
            (SwapStage::AwaitLiquidationStartTime, SwapEvent::LiquidationStartTime(r)) => match r {
                Err(e) => Self::finish(request, SwapError::Outside(e)),
                Ok(t) => if t > 0 {
                    (SwapMachine { request, stage: SwapStage::AwaitCurrentTime }, SwapAction::ReadCurrentTime)
                } else {
                    (SwapMachine { request, stage: SwapStage::AwaitLastInstruction }, SwapAction::CheckLastInstruction)
                },
            },
            (SwapStage::AwaitCurrentTime, SwapEvent::CurrentTime(r)) => match r {
                Err(e) => Self::finish(request, SwapError::Outside(e)),
                Ok(now) => (
                    SwapMachine { request, stage: SwapStage::AwaitLastTradeTime { now } },
                    SwapAction::ReadLastTradeTime,
                ),
            },
            (SwapStage::AwaitLastTradeTime { now }, SwapEvent::LastTradeTime(r)) => match r {
                Err(e) => Self::finish(request, SwapError::Outside(e)),
                Ok(last) => if trade_too_early(now, last) {
                    Self::finish(request, SwapError::TooEarly)
                } else {
                    (SwapMachine { request, stage: SwapStage::AwaitLastInstruction }, SwapAction::CheckLastInstruction)
                },
            },
            (SwapStage::AwaitLastInstruction, SwapEvent::LastInstructionChecked(r)) => match r {
                Err(e) => Self::finish(request, SwapError::Outside(e)),
                Ok(is_last) => if !is_last {
                    Self::finish(request, SwapError::InvalidArgument)
                } else if !keys_equal(&request.accounts[FUND_AUTHORITY], &request.fund.fund_authority) {
                    Self::finish(request, SwapError::Custom(INVALID_FUND_AUTHORITY))
                } else {
                    let check = VaultCheck {
                        fund_program_id: request.fund.fund_program_id,
                        router_program_id: request.accounts[ROUTER_PROGRAM],
                        fund_metadata: request.accounts[FUND_METADATA],
                        amm_id: request.accounts[AMM_ID],
                    };
                    (SwapMachine { request, stage: SwapStage::AwaitTargetVault }, SwapAction::CheckTargetVault(check))
                },
            },
            (SwapStage::AwaitTargetVault, SwapEvent::TargetVaultChecked(r)) => match r {
                Err(e) => Self::finish(request, SwapError::Outside(e)),
                Ok(_) => match build_swap_invocation(&request) {
                    Err(e) => Self::finish(request, SwapError::Outside(e)),
                    Ok(inv) => (SwapMachine { request, stage: SwapStage::AwaitInvoke }, SwapAction::Invoke(inv)),
                },
            },
            (SwapStage::AwaitInvoke, SwapEvent::Invoked(r)) => match r {
                Err(e) => Self::finish(request, SwapError::Outside(e)),
                Ok(_) => (SwapMachine { request, stage: SwapStage::AwaitTokenBalances }, SwapAction::ReadTokenBalances),
            },
            (SwapStage::AwaitTokenBalances, SwapEvent::TokenBalances(r)) => match r {
                Err(e) => Self::finish(request, SwapError::Outside(e)),
                Ok(_) => (SwapMachine { request, stage: SwapStage::AwaitTradeTimeUpdate }, SwapAction::UpdateLastTradeTime),
            },
            (SwapStage::AwaitTradeTimeUpdate, SwapEvent::TradeTimeUpdated(r)) => match r {
                Err(e) => Self::finish(request, SwapError::Outside(e)),
                Ok(_) => (SwapMachine { request, stage: SwapStage::Finished }, SwapAction::Finish(Ok(()))),
            },
            (stage, _) => (SwapMachine { request, stage }, SwapAction::Unexpected),
        }
    }

    fn finish(request: SwapRequest, e: SwapError) -> (r: (SwapMachine, SwapAction))
        ensures
            r.0.request_view() == request@,
            (r.0.stage_view(), r.1@) == fail(e),
    {
        (SwapMachine { request, stage: SwapStage::Finished }, SwapAction::Finish(Err(e)))
    }
}

} // verus!
