use vstd::prelude::*;

use crate::address_map::Address;
use crate::state::{
    empty_ledger, escrow_completed, paid_out, payout_due, phase_of, place_bet_spec,
    reset_if_inconsistent_spec, settled, LedgerView,
};
use crate::types::{GamePhase, PlayerBet, PlayerChoice};

verus! {

/// Before any action, every player's session is at `Start`.
pub proof fn lemma_initial_phase_is_start(token_address: Address, player: Address)
    ensures
        phase_of(empty_ledger(token_address), player) == GamePhase::Start,
{
}

/// A bet placed at `Start` is stored, and the phases are left as they were:
/// the session stays at `Start` until the escrow succeeds.
pub proof fn lemma_bet_at_start_is_stored(v: LedgerView, player: Address, bet: PlayerBet)
    requires
        phase_of(v, player) == GamePhase::Start,
    ensures
        place_bet_spec(v, player, bet).bets.contains_key(player),
        place_bet_spec(v, player, bet).bets[player] == bet,
        place_bet_spec(v, player, bet).phases == v.phases,
        phase_of(place_bet_spec(v, player, bet), player) == GamePhase::Start,
{
}

/// A bet placed at any other phase first clears the player's earlier flip
/// result and winner, then stores the new bet, at `Start`.
pub proof fn lemma_bet_elsewhere_clears_session(v: LedgerView, player: Address, bet: PlayerBet)
    requires
        phase_of(v, player) != GamePhase::Start,
    ensures
        !place_bet_spec(v, player, bet).flip_results.contains_key(player),
        !place_bet_spec(v, player, bet).winners.contains_key(player),
        place_bet_spec(v, player, bet).bets.contains_key(player),
        place_bet_spec(v, player, bet).bets[player] == bet,
        phase_of(place_bet_spec(v, player, bet), player) == GamePhase::Start,
{
}

/// Resetting a session twice is the same as resetting it once.
pub proof fn lemma_reset_is_idempotent(v: LedgerView, player: Address)
    ensures
        reset_if_inconsistent_spec(reset_if_inconsistent_spec(v, player), player)
            == reset_if_inconsistent_spec(v, player),
{
}

/// Settlement is decided by the bet and the bit alone: Heads with a true bit
/// and Tails with a false bit make the player the winner, anything else the
/// house; the session is then done.
pub proof fn lemma_settlement_decides_winner(
    v: LedgerView,
    player: Address,
    bit: bool,
    house: Address,
)
    requires
        v.bets.contains_key(player),
    ensures
        settled(v, player, bit, house).winners.contains_key(player),
        v.bets[player].choice == PlayerChoice::Heads && bit ==> settled(
            v,
            player,
            bit,
            house,
        ).winners[player] == player,
        v.bets[player].choice == PlayerChoice::Tails && !bit ==> settled(
            v,
            player,
            bit,
            house,
        ).winners[player] == player,
        v.bets[player].choice == PlayerChoice::Heads && !bit ==> settled(
            v,
            player,
            bit,
            house,
        ).winners[player] == house,
        v.bets[player].choice == PlayerChoice::Tails && bit ==> settled(
            v,
            player,
            bit,
            house,
        ).winners[player] == house,
        settled(v, player, bit, house).flip_results[player] == bit,
        phase_of(settled(v, player, bit, house), player) == GamePhase::Done,
{
}

/// A payout is owed only to the recorded winner of a done session, and once
/// made it is owed no more.
pub proof fn lemma_payout_once(v: LedgerView, player: Address)
    ensures
        payout_due(v, player) ==> phase_of(v, player) == GamePhase::Done
            && v.winners[player] == player,
        payout_due(v, player) ==> !payout_due(paid_out(v, player), player),
{
}

/// Placing a bet and then receiving a successful escrow callback moves the
/// session from `Start` to `FlipCoin`, with the bet stored.
pub proof fn lemma_escrow_round_trip(v: LedgerView, player: Address, bet: PlayerBet)
    ensures
        phase_of(place_bet_spec(v, player, bet), player) == GamePhase::Start,
        phase_of(escrow_completed(place_bet_spec(v, player, bet), player), player)
            == GamePhase::FlipCoin,
        escrow_completed(place_bet_spec(v, player, bet), player).bets[player] == bet,
{
}

} // verus!
