//! A coin-flip wagering game: a per-player session state machine over a
//! ledger of bets, flip results, winners and balances, with the stake
//! escrowed in a token contract and the flip bit drawn by a secret
//! multi-party computation.

pub mod address_map;
pub mod contract;
pub mod laws;
pub mod state;
pub mod types;
pub mod zk_compute;

pub use address_map::{same_address, Address, AddressMap};
pub use contract::{
    add_randomness_to_flip, flip_coin, flip_compute_complete, initialize, inputted_variable,
    open_flip_result_variable, payout_winner, start_game_and_place_bet,
    transfer_success_callback, ActionResult,
};
pub use state::CoinFlipState;
pub use types::{
    CallbackContext, CoinFlipError, CoinFlipResult, ContractContext, ExecutionResult, GamePhase,
    OpenedVariable, PlayerBet, PlayerChoice, RandomContribution, SecretVarId, SecretVarType,
    TokenCall, ZkInputDef, ZkStateChange,
};
pub use zk_compute::{compute_coin_flip, parse_compute_output, RandomnessInput};
