use vstd::prelude::*;

use crate::address_map::Address;

verus! {

/// Shortname of the token contract's `transfer_from` action, used for escrow.
pub const TRANSFER_FROM_SHORTNAME: u32 = 0x03;

/// Shortname of the token contract's `transfer` action, used for payout.
pub const TRANSFER_SHORTNAME: u32 = 0x01;

/// Shortname of this contract's callback for a finished escrow transfer.
pub const TRANSFER_CALLBACK_SHORTNAME: u32 = 0x01;

/// Gas attached to the escrow callback.
pub const TRANSFER_CALLBACK_COST: u64 = 1000;

/// Shortname of the hook run when a secret input is confirmed.
pub const INPUTTED_VARIABLE_SHORTNAME: u32 = 0x01;

/// Shortname of the secret computation that flips the coin.
pub const COMPUTE_COIN_FLIP_SHORTNAME: u32 = 0x61;

/// Shortname of the hook run when the flip computation is complete.
pub const FLIP_COMPUTE_COMPLETE_SHORTNAME: u32 = 0x01;

/// Player choices: Heads or Tails.
#[derive(Clone, Copy, Debug, PartialEq, Eq, Structural)]
pub enum PlayerChoice {
    Heads,
    Tails,
}

/// A player's wager.
#[derive(Clone, Copy, Debug, PartialEq, Eq)]
pub struct PlayerBet {
    pub amount: u64,
    pub choice: PlayerChoice,
}

/// The phase of one player's session.
#[derive(Clone, Copy, Debug, PartialEq, Eq, Structural)]
pub enum GamePhase {
    Start,
    /// Declared for the protocol; no transition leads here.
    PlaceBets,
    FlipCoin,
    Done,
}

/// Metadata attached to each secret variable.
#[derive(Clone, Copy, Debug, PartialEq, Eq)]
pub enum SecretVarType {
    /// An anonymous contribution of randomness.
    Randomness,
    /// The output of the flip computation for the session of `player`.
    FlipResult { player: Address },
}

/// Identifier of a secret variable held by the computation engine.
#[derive(Clone, Copy, Debug, PartialEq, Eq)]
pub struct SecretVarId {
    pub raw_id: u32,
}

/// The secret input a player submits: an 8-bit contribution of randomness.
#[derive(Clone, Copy, Debug, PartialEq, Eq)]
pub struct RandomContribution {
    pub result: i8,
}

/// The outcome of one flip, as reported to a caller.
#[derive(Clone, Copy, Debug, PartialEq, Eq)]
pub struct CoinFlipResult {
    pub id: u64,
    pub result: bool,
}

/// What the host tells an entry point about the transaction.
#[derive(Clone, Copy, Debug, PartialEq, Eq)]
pub struct ContractContext {
    /// The account that sent the transaction.
    pub sender: Address,
    /// The address of this contract.
    pub contract_address: Address,
}

/// The outcome of one call of an event group that registered a callback.
#[derive(Clone, Copy, Debug, PartialEq, Eq)]
pub struct ExecutionResult {
    pub succeeded: bool,
}

/// What the host tells a callback about the calls it follows.
#[derive(Clone, Debug, PartialEq, Eq)]
pub struct CallbackContext {
    pub success: bool,
    pub results: Vec<ExecutionResult>,
}

/// A call to the token contract that an entry point asks the host to make.
#[derive(Clone, Copy, Debug, PartialEq, Eq)]
pub enum TokenCall {
    /// Moves `amount` from `from` to `to`, then calls back this contract at
    /// `callback_shortname` with `callback_player`, paying `callback_cost`.
    TransferFrom {
        token: Address,
        shortname: u32,
        from: Address,
        to: Address,
        amount: u128,
        callback_shortname: u32,
        callback_cost: u64,
        callback_player: Address,
    },
    /// Credits `amount` to `to`; nothing is called back.
    Transfer { token: Address, shortname: u32, to: Address, amount: u128 },
}

/// An instruction to the secret computation engine.
#[derive(Clone, Debug, PartialEq, Eq)]
pub enum ZkStateChange {
    /// Runs the computation `function_shortname` over the committed inputs,
    /// tags its output with `output_metadata`, and calls `on_complete` after.
    StartComputation {
        function_shortname: u32,
        on_complete: Option<u32>,
        output_metadata: SecretVarType,
    },
    /// Discloses the given variables.
    OpenVariables { variables: Vec<SecretVarId> },
}

/// How the engine is to accept a secret input.
#[derive(Clone, Copy, Debug, PartialEq, Eq)]
pub struct ZkInputDef {
    /// The hook to run once the input is confirmed.
    pub on_inputted: Option<u32>,
    pub metadata: SecretVarType,
}

/// A secret variable after disclosure.
#[derive(Clone, Debug, PartialEq, Eq)]
pub struct OpenedVariable {
    pub id: SecretVarId,
    pub metadata: SecretVarType,
    /// The disclosed bytes; `None` when the engine reported no payload.
    pub data: Option<Vec<u8>>,
}

/// Why an entry point aborts its transaction.
#[derive(Clone, Copy, Debug, PartialEq, Eq)]
pub enum CoinFlipError {
    /// The player's session is not in the phase the operation needs.
    InvalidPhase,
    /// The escrow transfer reported failure.
    TransferFailed,
    /// Disclosure opened a number of variables other than one.
    UnexpectedOutputCount,
    /// The disclosed variable carried no payload.
    MissingDisclosureData,
}

} // verus!
