use vstd::prelude::*;

use crate::address_map::{same_address, Address};
use crate::state::{
    empty_ledger, escrow_completed, paid_out, payout_due, phase_of, place_bet_spec, settled,
    CoinFlipState,
};
use crate::types::{
    CallbackContext, CoinFlipError, ContractContext, GamePhase, OpenedVariable, PlayerBet,
    PlayerChoice, SecretVarId, SecretVarType, TokenCall, ZkInputDef, ZkStateChange,
    COMPUTE_COIN_FLIP_SHORTNAME, FLIP_COMPUTE_COMPLETE_SHORTNAME, INPUTTED_VARIABLE_SHORTNAME,
    TRANSFER_CALLBACK_COST, TRANSFER_CALLBACK_SHORTNAME, TRANSFER_FROM_SHORTNAME,
    TRANSFER_SHORTNAME,
};
use crate::zk_compute::{parse_compute_output, RandomnessInput};

verus! {

/// The state, calls to the token contract, and instructions to the secret
/// computation engine that an entry point hands back.
pub type ActionResult = (CoinFlipState, Vec<TokenCall>, Vec<ZkStateChange>);

/// The escrow request for a bet of `amount` by `player`.
pub open spec fn escrow_request(
    token: Address,
    player: Address,
    contract: Address,
    amount: u64,
) -> TokenCall {
    TokenCall::TransferFrom {
        token,
        shortname: TRANSFER_FROM_SHORTNAME,
        from: player,
        to: contract,
        amount: amount as u128,
        callback_shortname: TRANSFER_CALLBACK_SHORTNAME,
        callback_cost: TRANSFER_CALLBACK_COST,
        callback_player: player,
    }
}

/// The payout of twice the stake `amount` to `player`.
pub open spec fn payout_request(token: Address, player: Address, amount: u64) -> TokenCall {
    TokenCall::Transfer {
        token,
        shortname: TRANSFER_SHORTNAME,
        to: player,
        amount: (2 * amount) as u128,
    }
}

/// Whether the host reports the escrow transfer as successful.
pub open spec fn transfer_succeeded(callback_ctx: CallbackContext) -> bool {
    callback_ctx.results@.len() > 0 && callback_ctx.results@[0].succeeded
}

/// The flip bit disclosed in `data`: its first byte, read as a signed value,
/// is nonzero.
pub open spec fn disclosed_bit(data: Seq<u8>) -> bool {
    data[0] as i8 != 0
}

/// Initialize a new coin flip game.
pub fn initialize(context: &ContractContext, token_address: Address) -> (r: (
    CoinFlipState,
    Vec<TokenCall>,
))
    ensures
        r.0.wf(),
        r.0@ == empty_ledger(token_address),
        r.1@.len() == 0,
{
    (CoinFlipState::new(token_address), Vec::new())
}

/// Start the game, place the bet, and choose Heads or Tails. A session left
/// at any phase but `Start` is reset first. The bet is recorded at once and
/// the stake is requested from the token contract; the session stays at
/// `Start` until the escrow callback reports success.
pub fn start_game_and_place_bet(
    context: &ContractContext,
    state: CoinFlipState,
    bet_amount: u64,
    choice: PlayerChoice,
) -> (r: ActionResult)
    requires
        state.wf(),
    ensures
        r.0.wf(),
        r.0@ == place_bet_spec(
            state@,
            context.sender,
            PlayerBet { amount: bet_amount, choice },
        ),
        r.1@ == seq![
            escrow_request(
                state@.token_address,
                context.sender,
                context.contract_address,
                bet_amount,
            ),
        ],
        r.2@.len() == 0,
{
    let mut state = state;
    state.reset_if_inconsistent(context.sender);
    state.place_bet(context.sender, PlayerBet { amount: bet_amount, choice });
    let escrow = TokenCall::TransferFrom {
        token: state.token_address(),
        shortname: TRANSFER_FROM_SHORTNAME,
        from: context.sender,
        to: context.contract_address,
        amount: bet_amount as u128,
        callback_shortname: TRANSFER_CALLBACK_SHORTNAME,
        callback_cost: TRANSFER_CALLBACK_COST,
        callback_player: context.sender,
    };
    let mut calls: Vec<TokenCall> = Vec::new();
    calls.push(escrow);
    (state, calls, Vec::new())
}

/// Callback of the escrow transfer: on success `player` moves on to
/// `FlipCoin`; on failure the transaction aborts.
pub fn transfer_success_callback(
    context: &ContractContext,
    callback_ctx: &CallbackContext,
    state: CoinFlipState,
    player: Address,
) -> (r: Result<ActionResult, CoinFlipError>)
    requires
        state.wf(),
    ensures
        match r {
            Ok(out) => {
                &&& transfer_succeeded(*callback_ctx)
                &&& out.0.wf()
                &&& out.0@ == escrow_completed(state@, player)
                &&& out.1@.len() == 0
                &&& out.2@.len() == 0
            },
            Err(e) => !transfer_succeeded(*callback_ctx) && e == CoinFlipError::TransferFailed,
        },
{
    if callback_ctx.results.len() == 0 || !callback_ctx.results[0].succeeded {
        return Err(CoinFlipError::TransferFailed);
    }
    let mut state = state;
    state.advance_phase(player, GamePhase::FlipCoin);
    Ok((state, Vec::new(), Vec::new()))
}

/// Accepts a secret contribution of randomness from a player whose session
/// is at `FlipCoin`.
pub fn add_randomness_to_flip(context: &ContractContext, state: CoinFlipState) -> (r: Result<
    (CoinFlipState, Vec<TokenCall>, ZkInputDef),
    CoinFlipError,
>)
    requires
        state.wf(),
    ensures
        match r {
            Ok(out) => {
                &&& phase_of(state@, context.sender) == GamePhase::FlipCoin
                &&& out.0.wf()
                &&& out.0@ == state@
                &&& out.1@.len() == 0
                &&& out.2 == (ZkInputDef {
                    on_inputted: Some(INPUTTED_VARIABLE_SHORTNAME),
                    metadata: SecretVarType::Randomness,
                })
            },
            Err(e) => phase_of(state@, context.sender) != GamePhase::FlipCoin && e
                == CoinFlipError::InvalidPhase,
        },
{
    if let Err(e) = state.require_phase(&context.sender, GamePhase::FlipCoin) {
        return Err(e);
    }
    let input_def = ZkInputDef {
        on_inputted: Some(INPUTTED_VARIABLE_SHORTNAME),
        metadata: SecretVarType::Randomness,
    };
    Ok((state, Vec::new(), input_def))
}

/// Run when a secret input is confirmed; changes nothing.
pub fn inputted_variable(
    context: &ContractContext,
    state: CoinFlipState,
    variable_id: SecretVarId,
) -> (r: CoinFlipState)
    ensures
        r == state,
{
    state
}

/// Starts the flip computation for the caller's session, which must be at
/// `FlipCoin`; its output is tagged with the caller.
pub fn flip_coin(context: &ContractContext, state: CoinFlipState) -> (r: Result<
    ActionResult,
    CoinFlipError,
>)
    requires
        state.wf(),
    ensures
        match r {
            Ok(out) => {
                &&& phase_of(state@, context.sender) == GamePhase::FlipCoin
                &&& out.0.wf()
                &&& out.0@ == state@
                &&& out.1@.len() == 0
                &&& out.2@ == seq![
                    ZkStateChange::StartComputation {
                        function_shortname: COMPUTE_COIN_FLIP_SHORTNAME,
                        on_complete: Some(FLIP_COMPUTE_COMPLETE_SHORTNAME),
                        output_metadata: SecretVarType::FlipResult { player: context.sender },
                    },
                ]
            },
            Err(e) => phase_of(state@, context.sender) != GamePhase::FlipCoin && e
                == CoinFlipError::InvalidPhase,
        },
{
    if let Err(e) = state.require_phase(&context.sender, GamePhase::FlipCoin) {
        return Err(e);
    }
    let mut changes: Vec<ZkStateChange> = Vec::new();
    changes.push(
        ZkStateChange::StartComputation {
            function_shortname: COMPUTE_COIN_FLIP_SHORTNAME,
            on_complete: Some(FLIP_COMPUTE_COMPLETE_SHORTNAME),
            output_metadata: SecretVarType::FlipResult { player: context.sender },
        },
    );
    Ok((state, Vec::new(), changes))
}

/// Run when the flip computation is complete: asks for its outputs to be
/// disclosed.
pub fn flip_compute_complete(
    context: &ContractContext,
    state: CoinFlipState,
    output_variables: Vec<SecretVarId>,
) -> (r: ActionResult)
    ensures
        r.0 == state,
        r.1@.len() == 0,
        r.2@ == seq![ZkStateChange::OpenVariables { variables: output_variables }],
{
    let mut changes: Vec<ZkStateChange> = Vec::new();
    changes.push(ZkStateChange::OpenVariables { variables: output_variables });
    (state, Vec::new(), changes)
}

/// Run when variables are disclosed. Exactly one must be; when it is the
/// flip output of a player's session, that session is settled with the
/// disclosed bit.
pub fn open_flip_result_variable(
    context: &ContractContext,
    state: CoinFlipState,
    opened_variables: &Vec<OpenedVariable>,
) -> (r: Result<ActionResult, CoinFlipError>)
    requires
        state.wf(),
    ensures
        opened_variables@.len() != 1 ==> r == Err::<ActionResult, CoinFlipError>(
            CoinFlipError::UnexpectedOutputCount,
        ),
        opened_variables@.len() == 1 ==> match opened_variables@[0].metadata {
            SecretVarType::Randomness => {
                &&& r is Ok
                &&& r->Ok_0.0 == state
                &&& r->Ok_0.1@.len() == 0
                &&& r->Ok_0.2@.len() == 0
            },
            SecretVarType::FlipResult { player } => match opened_variables@[0].data {
                Some(data) if data@.len() > 0 => {
                    &&& r is Ok
                    &&& r->Ok_0.0.wf()
                    &&& r->Ok_0.0@ == settled(
                        state@,
                        player,
                        disclosed_bit(data@),
                        context.contract_address,
                    )
                    &&& r->Ok_0.1@.len() == 0
                    &&& r->Ok_0.2@.len() == 0
                },
                _ => r == Err::<ActionResult, CoinFlipError>(
                    CoinFlipError::MissingDisclosureData,
                ),
            },
        },
{
    if opened_variables.len() != 1 {
        return Err(CoinFlipError::UnexpectedOutputCount);
    }
    let opened = &opened_variables[0];
    let mut state = state;
    match opened.metadata {
        SecretVarType::FlipResult { player } => {
            match &opened.data {
                Some(data) if data.len() > 0 => {
                    let randomness_input = RandomnessInput { result: data[0] as i8 };
                    let flip_result = parse_compute_output(randomness_input);
                    state.settle(player, flip_result, context.contract_address);
                },
                _ => {
                    return Err(CoinFlipError::MissingDisclosureData);
                },
            }
        },
        SecretVarType::Randomness => {},
    }
    Ok((state, Vec::new(), Vec::new()))
}

/// Pays the caller twice the stake when the caller's session is done and
/// the caller is its recorded winner; the winner entry is then cleared, so
/// a session pays out once. Otherwise nothing changes and nothing is sent.
pub fn payout_winner(context: &ContractContext, state: CoinFlipState) -> (r: Result<
    ActionResult,
    CoinFlipError,
>)
    requires
        state.wf(),
    ensures
        match r {
            Ok(out) => {
                &&& phase_of(state@, context.sender) == GamePhase::Done
                &&& out.0.wf()
                &&& out.2@.len() == 0
                &&& if payout_due(state@, context.sender) {
                    &&& out.0@ == paid_out(state@, context.sender)
                    &&& out.1@ == seq![
                        payout_request(
                            state@.token_address,
                            context.sender,
                            state@.bets[context.sender].amount,
                        ),
                    ]
                } else {
                    &&& out.0@ == state@
                    &&& out.1@.len() == 0
                }
            },
            Err(e) => phase_of(state@, context.sender) != GamePhase::Done && e
                == CoinFlipError::InvalidPhase,
        },
{
    if let Err(e) = state.require_phase(&context.sender, GamePhase::Done) {
        return Err(e);
    }
    let mut state = state;
    if let Some(winner) = state.get_winner(&context.sender) {
        if same_address(&winner, &context.sender) {
            if let Some(bet) = state.get_bet(&context.sender) {
                let winnings = (bet.amount as u128) * 2;
                let credit: u64 = if bet.amount <= u64::MAX / 2 {
                    bet.amount * 2
                } else {
                    u64::MAX
                };
                state.adjust_balance(context.sender, credit);
                state.clear_winner(&context.sender);
                let payout = TokenCall::Transfer {
                    token: state.token_address(),
                    shortname: TRANSFER_SHORTNAME,
                    to: context.sender,
                    amount: winnings,
                };
                let mut calls: Vec<TokenCall> = Vec::new();
                calls.push(payout);
                return Ok((state, calls, Vec::new()));
            }
        }
    }
    Ok((state, Vec::new(), Vec::new()))
}

} // verus!
