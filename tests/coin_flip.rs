use zk_coin_flip::{
    add_randomness_to_flip, flip_coin, flip_compute_complete, initialize, inputted_variable,
    open_flip_result_variable, payout_winner, start_game_and_place_bet,
    transfer_success_callback, Address, CallbackContext, CoinFlipError, CoinFlipState,
    ContractContext, ExecutionResult, GamePhase, OpenedVariable, PlayerBet, PlayerChoice,
    SecretVarId, SecretVarType, TokenCall, ZkInputDef, ZkStateChange,
};

fn account(n: u8) -> Address {
    let mut identifier = [0u8; 20];
    identifier[19] = n;
    Address { address_type: 0, identifier }
}

fn contract_address() -> Address {
    let mut identifier = [0u8; 20];
    identifier[0] = 0xc0;
    Address { address_type: 3, identifier }
}

fn token_address() -> Address {
    let mut identifier = [0u8; 20];
    identifier[0] = 0x70;
    Address { address_type: 2, identifier }
}

fn ctx(sender: Address) -> ContractContext {
    ContractContext { sender, contract_address: contract_address() }
}

fn callback(succeeded: bool) -> CallbackContext {
    CallbackContext { success: succeeded, results: vec![ExecutionResult { succeeded }] }
}

fn disclosure(player: Address, byte: u8) -> Vec<OpenedVariable> {
    vec![OpenedVariable {
        id: SecretVarId { raw_id: 7 },
        metadata: SecretVarType::FlipResult { player },
        data: Some(vec![byte]),
    }]
}

fn fresh() -> CoinFlipState {
    initialize(&ctx(account(1)), token_address()).0
}

/// Bets, completes the escrow, and flips, leaving the session at FlipCoin.
fn ready_to_flip(player: Address, amount: u64, choice: PlayerChoice) -> CoinFlipState {
    let (state, _, _) = start_game_and_place_bet(&ctx(player), fresh(), amount, choice);
    let (state, _, _) = transfer_success_callback(&ctx(player), &callback(true), state, player)
        .unwrap();
    state
}

#[test]
fn initial_phase_is_start() {
    let (state, events) = initialize(&ctx(account(1)), token_address());
    assert!(events.is_empty());
    assert_eq!(state.current_phase(&account(1)), GamePhase::Start);
    assert_eq!(state.current_phase(&account(2)), GamePhase::Start);
    assert_eq!(state.get_bet(&account(1)), None);
    assert_eq!(state.get_winner(&account(1)), None);
    assert_eq!(state.get_balance(&account(1)), 0);
    assert_eq!(state.token_address(), token_address());
    assert!(!state.is_game_finished(&account(1)));
}

#[test]
fn bet_at_start_is_stored_and_escrow_requested() {
    let player = account(1);
    let (state, calls, changes) =
        start_game_and_place_bet(&ctx(player), fresh(), 100, PlayerChoice::Heads);
    assert_eq!(state.get_bet(&player), Some(PlayerBet { amount: 100, choice: PlayerChoice::Heads }));
    assert_eq!(state.current_phase(&player), GamePhase::Start);
    assert!(changes.is_empty());
    assert_eq!(
        calls,
        vec![TokenCall::TransferFrom {
            token: token_address(),
            shortname: 0x03,
            from: player,
            to: contract_address(),
            amount: 100,
            callback_shortname: 0x01,
            callback_cost: 1000,
            callback_player: player,
        }]
    );
}

#[test]
fn escrow_success_moves_to_flip_coin() {
    let player = account(1);
    let state = ready_to_flip(player, 100, PlayerChoice::Heads);
    assert_eq!(state.current_phase(&player), GamePhase::FlipCoin);
}

#[test]
fn escrow_failure_aborts() {
    let player = account(1);
    let (state, _, _) = start_game_and_place_bet(&ctx(player), fresh(), 100, PlayerChoice::Heads);
    assert_eq!(state.current_phase(&player), GamePhase::Start);
    let r = transfer_success_callback(&ctx(player), &callback(false), state, player);
    assert_eq!(r.err(), Some(CoinFlipError::TransferFailed));
}

#[test]
fn escrow_without_results_aborts() {
    let player = account(1);
    let (state, _, _) = start_game_and_place_bet(&ctx(player), fresh(), 100, PlayerChoice::Heads);
    let empty = CallbackContext { success: true, results: vec![] };
    let r = transfer_success_callback(&ctx(player), &empty, state, player);
    assert_eq!(r.err(), Some(CoinFlipError::TransferFailed));
}

#[test]
fn add_randomness_needs_flip_coin_phase() {
    let player = account(1);
    let r = add_randomness_to_flip(&ctx(player), fresh());
    assert_eq!(r.err(), Some(CoinFlipError::InvalidPhase));

    let state = ready_to_flip(player, 100, PlayerChoice::Heads);
    let (state, calls, input) = add_randomness_to_flip(&ctx(player), state).unwrap();
    assert!(calls.is_empty());
    assert_eq!(input, ZkInputDef { on_inputted: Some(0x01), metadata: SecretVarType::Randomness });
    assert_eq!(state.current_phase(&player), GamePhase::FlipCoin);
    let state = inputted_variable(&ctx(player), state, SecretVarId { raw_id: 1 });
    assert_eq!(state.current_phase(&player), GamePhase::FlipCoin);
}

#[test]
fn flip_coin_needs_flip_coin_phase() {
    let player = account(1);
    let (state, _, _) = start_game_and_place_bet(&ctx(player), fresh(), 100, PlayerChoice::Heads);
    let r = flip_coin(&ctx(player), state);
    assert_eq!(r.err(), Some(CoinFlipError::InvalidPhase));

    let state = ready_to_flip(player, 100, PlayerChoice::Heads);
    let (_, calls, changes) = flip_coin(&ctx(player), state).unwrap();
    assert!(calls.is_empty());
    assert_eq!(
        changes,
        vec![ZkStateChange::StartComputation {
            function_shortname: 0x61,
            on_complete: Some(0x01),
            output_metadata: SecretVarType::FlipResult { player },
        }]
    );
}

#[test]
fn compute_complete_opens_outputs() {
    let ids = vec![SecretVarId { raw_id: 4 }, SecretVarId { raw_id: 9 }];
    let (_, calls, changes) = flip_compute_complete(&ctx(account(1)), fresh(), ids.clone());
    assert!(calls.is_empty());
    assert_eq!(changes, vec![ZkStateChange::OpenVariables { variables: ids }]);
}

#[test]
fn heads_bet_with_true_bit_pays_double() {
    let player = account(1);
    let state = ready_to_flip(player, 100, PlayerChoice::Heads);
    let (state, _, _) = flip_coin(&ctx(player), state).unwrap();
    let (state, calls, changes) =
        open_flip_result_variable(&ctx(account(9)), state, &disclosure(player, 1)).unwrap();
    assert!(calls.is_empty() && changes.is_empty());
    assert_eq!(state.get_flip_result(&player), Some(true));
    assert_eq!(state.get_winner(&player), Some(player));
    assert_eq!(state.current_phase(&player), GamePhase::Done);
    assert!(state.is_game_finished(&player));

    let (state, calls, _) = payout_winner(&ctx(player), state).unwrap();
    assert_eq!(
        calls,
        vec![TokenCall::Transfer { token: token_address(), shortname: 0x01, to: player, amount: 200 }]
    );
    assert_eq!(state.get_balance(&player), 200);
}

#[test]
fn tails_bet_with_true_bit_goes_to_house() {
    let player = account(1);
    let state = ready_to_flip(player, 100, PlayerChoice::Tails);
    let (state, _, _) =
        open_flip_result_variable(&ctx(account(9)), state, &disclosure(player, 1)).unwrap();
    assert_eq!(state.get_flip_result(&player), Some(true));
    assert_eq!(state.get_winner(&player), Some(contract_address()));
    assert_eq!(state.current_phase(&player), GamePhase::Done);

    let (state, calls, _) = payout_winner(&ctx(player), state).unwrap();
    assert!(calls.is_empty());
    assert_eq!(state.get_balance(&player), 0);
}

#[test]
fn tails_bet_with_false_bit_wins() {
    let player = account(1);
    let state = ready_to_flip(player, 5, PlayerChoice::Tails);
    let (state, _, _) =
        open_flip_result_variable(&ctx(account(9)), state, &disclosure(player, 0)).unwrap();
    assert_eq!(state.get_flip_result(&player), Some(false));
    assert_eq!(state.get_winner(&player), Some(player));
}

#[test]
fn heads_bet_with_false_bit_goes_to_house() {
    let player = account(1);
    let state = ready_to_flip(player, 5, PlayerChoice::Heads);
    let (state, _, _) =
        open_flip_result_variable(&ctx(account(9)), state, &disclosure(player, 0)).unwrap();
    assert_eq!(state.get_winner(&player), Some(contract_address()));
}

#[test]
fn any_nonzero_byte_is_a_true_bit() {
    let player = account(1);
    let state = ready_to_flip(player, 5, PlayerChoice::Heads);
    let (state, _, _) =
        open_flip_result_variable(&ctx(account(9)), state, &disclosure(player, 0xff)).unwrap();
    assert_eq!(state.get_flip_result(&player), Some(true));
}

#[test]
fn rebet_after_stuck_escrow_keeps_start() {
    let player = account(1);
    let (state, _, _) = start_game_and_place_bet(&ctx(player), fresh(), 100, PlayerChoice::Heads);
    let (state, _, _) = start_game_and_place_bet(&ctx(player), state, 30, PlayerChoice::Tails);
    assert_eq!(state.get_bet(&player), Some(PlayerBet { amount: 30, choice: PlayerChoice::Tails }));
    assert_eq!(state.current_phase(&player), GamePhase::Start);
}

#[test]
fn rebet_after_done_clears_session() {
    let player = account(1);
    let state = ready_to_flip(player, 100, PlayerChoice::Tails);
    let (state, _, _) =
        open_flip_result_variable(&ctx(account(9)), state, &disclosure(player, 1)).unwrap();
    assert_eq!(state.current_phase(&player), GamePhase::Done);
    let (state, _, _) = start_game_and_place_bet(&ctx(player), state, 40, PlayerChoice::Heads);
    assert_eq!(state.get_flip_result(&player), None);
    assert_eq!(state.get_winner(&player), None);
    assert_eq!(state.get_bet(&player), Some(PlayerBet { amount: 40, choice: PlayerChoice::Heads }));
    assert_eq!(state.current_phase(&player), GamePhase::Start);
}

#[test]
fn rebet_during_flip_coin_resets() {
    let player = account(1);
    let state = ready_to_flip(player, 100, PlayerChoice::Tails);
    let (state, _, _) = start_game_and_place_bet(&ctx(player), state, 10, PlayerChoice::Heads);
    assert_eq!(state.current_phase(&player), GamePhase::Start);
    assert_eq!(state.get_bet(&player), Some(PlayerBet { amount: 10, choice: PlayerChoice::Heads }));
}

#[test]
fn disclosure_of_no_variable_fails() {
    let r = open_flip_result_variable(&ctx(account(9)), fresh(), &vec![]);
    assert_eq!(r.err(), Some(CoinFlipError::UnexpectedOutputCount));
}

#[test]
fn disclosure_of_two_variables_fails() {
    let player = account(1);
    let mut opened = disclosure(player, 1);
    opened.extend(disclosure(player, 0));
    let state = ready_to_flip(player, 100, PlayerChoice::Heads);
    let r = open_flip_result_variable(&ctx(account(9)), state, &opened);
    assert_eq!(r.err(), Some(CoinFlipError::UnexpectedOutputCount));
}

#[test]
fn disclosure_without_data_fails() {
    let player = account(1);
    let state = ready_to_flip(player, 100, PlayerChoice::Heads);
    let opened = vec![OpenedVariable {
        id: SecretVarId { raw_id: 7 },
        metadata: SecretVarType::FlipResult { player },
        data: None,
    }];
    let r = open_flip_result_variable(&ctx(account(9)), state, &opened);
    assert_eq!(r.err(), Some(CoinFlipError::MissingDisclosureData));
}

#[test]
fn disclosure_with_empty_data_fails() {
    let player = account(1);
    let state = ready_to_flip(player, 100, PlayerChoice::Heads);
    let opened = vec![OpenedVariable {
        id: SecretVarId { raw_id: 7 },
        metadata: SecretVarType::FlipResult { player },
        data: Some(vec![]),
    }];
    let r = open_flip_result_variable(&ctx(account(9)), state, &opened);
    assert_eq!(r.err(), Some(CoinFlipError::MissingDisclosureData));
}

#[test]
fn disclosure_of_randomness_changes_nothing() {
    let player = account(1);
    let state = ready_to_flip(player, 100, PlayerChoice::Heads);
    let opened = vec![OpenedVariable {
        id: SecretVarId { raw_id: 2 },
        metadata: SecretVarType::Randomness,
        data: Some(vec![1]),
    }];
    let (state, calls, changes) =
        open_flip_result_variable(&ctx(account(9)), state, &opened).unwrap();
    assert!(calls.is_empty() && changes.is_empty());
    assert_eq!(state.current_phase(&player), GamePhase::FlipCoin);
    assert_eq!(state.get_flip_result(&player), None);
}

#[test]
fn disclosure_without_bet_changes_nothing() {
    let player = account(1);
    let (state, _, _) =
        open_flip_result_variable(&ctx(account(9)), fresh(), &disclosure(player, 1)).unwrap();
    assert_eq!(state.current_phase(&player), GamePhase::Start);
    assert_eq!(state.get_flip_result(&player), None);
    assert_eq!(state.get_winner(&player), None);
}

#[test]
fn payout_needs_done_phase() {
    let player = account(1);
    let state = ready_to_flip(player, 100, PlayerChoice::Heads);
    let r = payout_winner(&ctx(player), state);
    assert_eq!(r.err(), Some(CoinFlipError::InvalidPhase));
}

#[test]
fn payout_is_made_once() {
    let player = account(1);
    let state = ready_to_flip(player, 100, PlayerChoice::Heads);
    let (state, _, _) =
        open_flip_result_variable(&ctx(account(9)), state, &disclosure(player, 1)).unwrap();
    let (state, calls, _) = payout_winner(&ctx(player), state).unwrap();
    assert_eq!(calls.len(), 1);
    let (state, calls, _) = payout_winner(&ctx(player), state).unwrap();
    assert!(calls.is_empty());
    assert_eq!(state.get_balance(&player), 200);
    assert_eq!(state.current_phase(&player), GamePhase::Done);
}

#[test]
fn payout_of_largest_stake() {
    let player = account(1);
    let state = ready_to_flip(player, u64::MAX, PlayerChoice::Heads);
    let (state, _, _) =
        open_flip_result_variable(&ctx(account(9)), state, &disclosure(player, 1)).unwrap();
    let (state, calls, _) = payout_winner(&ctx(player), state).unwrap();
    assert_eq!(
        calls,
        vec![TokenCall::Transfer {
            token: token_address(),
            shortname: 0x01,
            to: player,
            amount: 2 * (u64::MAX as u128),
        }]
    );
    assert_eq!(state.get_balance(&player), u64::MAX);
}

#[test]
fn sessions_of_players_are_separate() {
    let alice = account(1);
    let bob = account(2);
    let state = ready_to_flip(alice, 100, PlayerChoice::Heads);
    let (state, _, _) = start_game_and_place_bet(&ctx(bob), state, 7, PlayerChoice::Tails);
    assert_eq!(state.current_phase(&alice), GamePhase::FlipCoin);
    assert_eq!(state.current_phase(&bob), GamePhase::Start);
    let r = flip_coin(&ctx(bob), state);
    assert_eq!(r.err(), Some(CoinFlipError::InvalidPhase));
}
