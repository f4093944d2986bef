use vstd::prelude::*;

use crate::address_map::{Address, AddressMap};
use crate::types::{CoinFlipError, GamePhase, PlayerBet, PlayerChoice};

verus! {

/// The ledger as mathematical maps.
pub struct LedgerView {
    pub bets: Map<Address, PlayerBet>,
    pub flip_results: Map<Address, bool>,
    pub winners: Map<Address, Address>,
    pub balances: Map<Address, u64>,
    pub phases: Map<Address, GamePhase>,
    pub token_address: Address,
}

/// A ledger with nothing in it.
pub open spec fn empty_ledger(token_address: Address) -> LedgerView {
    LedgerView {
        bets: Map::empty(),
        flip_results: Map::empty(),
        winners: Map::empty(),
        balances: Map::empty(),
        phases: Map::empty(),
        token_address,
    }
}

/// The phase of `player`'s session; `Start` when none is stored.
pub open spec fn phase_of(v: LedgerView, player: Address) -> GamePhase {
    if v.phases.contains_key(player) {
        v.phases[player]
    } else {
        GamePhase::Start
    }
}

/// The balance of `user`; zero when none is stored.
pub open spec fn balance_of(v: LedgerView, user: Address) -> int {
    if v.balances.contains_key(user) {
        v.balances[user] as int
    } else {
        0
    }
}

/// Clears the session of `player` and puts it back at `Start`.
pub open spec fn reset_session(v: LedgerView, player: Address) -> LedgerView {
    LedgerView {
        bets: v.bets.remove(player),
        flip_results: v.flip_results.remove(player),
        winners: v.winners.remove(player),
        phases: v.phases.insert(player, GamePhase::Start),
        ..v
    }
}

/// Resets the session of `player` unless it is at `Start`.
pub open spec fn reset_if_inconsistent_spec(v: LedgerView, player: Address) -> LedgerView {
    if phase_of(v, player) == GamePhase::Start {
        v
    } else {
        reset_session(v, player)
    }
}

/// Records a new bet, after resetting a session left at another phase.
pub open spec fn place_bet_spec(v: LedgerView, player: Address, bet: PlayerBet) -> LedgerView {
    let w = reset_if_inconsistent_spec(v, player);
    LedgerView { bets: w.bets.insert(player, bet), ..w }
}

/// Moves `player` on to `FlipCoin` once the escrow succeeded.
pub open spec fn escrow_completed(v: LedgerView, player: Address) -> LedgerView {
    LedgerView { phases: v.phases.insert(player, GamePhase::FlipCoin), ..v }
}

/// Whether a bet on `choice` wins when the flip bit is `bit`.
pub open spec fn player_wins(choice: PlayerChoice, bit: bool) -> bool {
    (choice == PlayerChoice::Heads && bit) || (choice == PlayerChoice::Tails && !bit)
}

/// Settles the session of `player` with flip bit `bit`; a session without a
/// bet is left as it is.
pub open spec fn settled(v: LedgerView, player: Address, bit: bool, house: Address) -> LedgerView {
    if v.bets.contains_key(player) {
        LedgerView {
            flip_results: v.flip_results.insert(player, bit),
            winners: v.winners.insert(
                player,
                if player_wins(v.bets[player].choice, bit) {
                    player
                } else {
                    house
                },
            ),
            phases: v.phases.insert(player, GamePhase::Done),
            ..v
        }
    } else {
        v
    }
}

/// Adds `amount` to the balance of `user`, saturating at `u64::MAX`.
pub open spec fn credited(v: LedgerView, user: Address, amount: int) -> LedgerView {
    let total = balance_of(v, user) + amount;
    LedgerView {
        balances: v.balances.insert(
            user,
            if total > u64::MAX {
                u64::MAX
            } else {
                total as u64
            },
        ),
        ..v
    }
}

/// Whether `player` is owed a payout: the session is done, the player is its
/// recorded winner and the bet is still there.
pub open spec fn payout_due(v: LedgerView, player: Address) -> bool {
    &&& phase_of(v, player) == GamePhase::Done
    &&& v.winners.contains_key(player)
    &&& v.winners[player] == player
    &&& v.bets.contains_key(player)
}

/// Records the payout to `player`: twice the stake goes to the balance, and
/// the winner entry is cleared so that the session pays out once.
pub open spec fn paid_out(v: LedgerView, player: Address) -> LedgerView {
    let w = credited(v, player, 2 * v.bets[player].amount);
    LedgerView { winners: w.winners.remove(player), ..w }
}

/// The state of the coin flip game, for any number of players.
pub struct CoinFlipState {
    player_bets: AddressMap<PlayerBet>,
    flip_results: AddressMap<bool>,
    winners: AddressMap<Address>,
    user_balances: AddressMap<u64>,
    game_phases: AddressMap<GamePhase>,
    token_address: Address,
}

impl View for CoinFlipState {
    type V = LedgerView;

    closed spec fn view(&self) -> LedgerView {
        LedgerView {
            bets: self.player_bets@,
            flip_results: self.flip_results@,
            winners: self.winners@,
            balances: self.user_balances@,
            phases: self.game_phases@,
            token_address: self.token_address,
        }
    }
}

impl CoinFlipState {
    /// Every map is well formed.
    pub closed spec fn wf(&self) -> bool {
        &&& self.player_bets.wf()
        &&& self.flip_results.wf()
        &&& self.winners.wf()
        &&& self.user_balances.wf()
        &&& self.game_phases.wf()
    }

    /// An empty ledger that escrows in the token contract at `token_address`.
    pub fn new(token_address: Address) -> (r: Self)
        ensures
            r.wf(),
            r@ == empty_ledger(token_address),
    {
        CoinFlipState {
            player_bets: AddressMap::new(),
            flip_results: AddressMap::new(),
            winners: AddressMap::new(),
            user_balances: AddressMap::new(),
            game_phases: AddressMap::new(),
            token_address,
        }
    }

    pub fn token_address(&self) -> (r: Address)
        ensures
            r == self@.token_address,
    {
        self.token_address
    }

    /// The phase of `player`'s session, `Start` when none is stored.
    pub fn current_phase(&self, player: &Address) -> (r: GamePhase)
        requires
            self.wf(),
        ensures
            r == phase_of(self@, *player),
    {
        match self.game_phases.get(player) {
            Some(phase) => phase,
            None => GamePhase::Start,
        }
    }

    /// Fails with `InvalidPhase` unless `player`'s session is at `expected`.
    pub fn require_phase(&self, player: &Address, expected: GamePhase) -> (r: Result<(), CoinFlipError>)
        requires
            self.wf(),
        ensures
            r is Ok <==> phase_of(self@, *player) == expected,
            r is Err ==> r == Err::<(), CoinFlipError>(CoinFlipError::InvalidPhase),
    {
        if self.current_phase(player) == expected {
            Ok(())
        } else {
            Err(CoinFlipError::InvalidPhase)
        }
    }

    /// Overwrites the phase of `player`'s session.
    pub fn advance_phase(&mut self, player: Address, next: GamePhase)
        requires
            old(self).wf(),
        ensures
            final(self).wf(),
            final(self)@ == (LedgerView { phases: old(self)@.phases.insert(player, next), ..old(self)@ }),
    {
        self.game_phases.insert(player, next);
    }

    /// Check if the game is finished for the given player.
    pub fn is_game_finished(&self, player: &Address) -> (r: bool)
        requires
            self.wf(),
        ensures
            r == self@.flip_results.contains_key(*player),
    {
        self.flip_results.contains_key(player)
    }

    pub fn get_bet(&self, player: &Address) -> (r: Option<PlayerBet>)
        requires
            self.wf(),
        ensures
            r == (if self@.bets.contains_key(*player) {
                Some(self@.bets[*player])
            } else {
                None::<PlayerBet>
            }),
    {
        self.player_bets.get(player)
    }

    pub fn get_flip_result(&self, player: &Address) -> (r: Option<bool>)
        requires
            self.wf(),
        ensures
            r == (if self@.flip_results.contains_key(*player) {
                Some(self@.flip_results[*player])
            } else {
                None::<bool>
            }),
    {
        self.flip_results.get(player)
    }

    /// Get the winner of the game for a given player.
    pub fn get_winner(&self, player: &Address) -> (r: Option<Address>)
        requires
            self.wf(),
        ensures
            r == (if self@.winners.contains_key(*player) {
                Some(self@.winners[*player])
            } else {
                None::<Address>
            }),
    {
        self.winners.get(player)
    }

    /// The balance of `user`, zero when none is stored.
    pub fn get_balance(&self, user: &Address) -> (r: u64)
        requires
            self.wf(),
        ensures
            r == balance_of(self@, *user),
    {
        match self.user_balances.get(user) {
            Some(balance) => balance,
            None => 0,
        }
    }

    pub fn player_bets(&self) -> (r: &AddressMap<PlayerBet>)
        requires
            self.wf(),
        ensures
            r.wf(),
            r@ == self@.bets,
    {
        &self.player_bets
    }

    pub fn flip_results(&self) -> (r: &AddressMap<bool>)
        requires
            self.wf(),
        ensures
            r.wf(),
            r@ == self@.flip_results,
    {
        &self.flip_results
    }

    pub fn winners(&self) -> (r: &AddressMap<Address>)
        requires
            self.wf(),
        ensures
            r.wf(),
            r@ == self@.winners,
    {
        &self.winners
    }

    pub fn user_balances(&self) -> (r: &AddressMap<u64>)
        requires
            self.wf(),
        ensures
            r.wf(),
            r@ == self@.balances,
    {
        &self.user_balances
    }

    pub fn game_phases(&self) -> (r: &AddressMap<GamePhase>)
        requires
            self.wf(),
        ensures
            r.wf(),
            r@ == self@.phases,
    {
        &self.game_phases
    }

    /// Records the disclosed flip bit of `player`'s session.
    pub fn record_flip_result(&mut self, player: Address, flip_result: bool)
        requires
            old(self).wf(),
        ensures
            final(self).wf(),
            final(self)@ == (LedgerView {
                flip_results: old(self)@.flip_results.insert(player, flip_result),
                ..old(self)@
            }),
    {
        self.flip_results.insert(player, flip_result);
    }

    /// Records `winner` as the winner of `player`'s session.
    pub fn assign_winner(&mut self, player: Address, winner: Address)
        requires
            old(self).wf(),
        ensures
            final(self).wf(),
            final(self)@ == (LedgerView { winners: old(self)@.winners.insert(player, winner), ..old(self)@ }),
    {
        self.winners.insert(player, winner);
    }

    /// Records `bet` for `player`, replacing any earlier one.
    pub fn place_bet(&mut self, player: Address, bet: PlayerBet)
        requires
            old(self).wf(),
        ensures
            final(self).wf(),
            final(self)@ == (LedgerView { bets: old(self)@.bets.insert(player, bet), ..old(self)@ }),
    {
        self.player_bets.insert(player, bet);
    }

    /// Removes the winner entry of `player`.
    pub fn clear_winner(&mut self, player: &Address)
        requires
            old(self).wf(),
        ensures
            final(self).wf(),
            final(self)@ == (LedgerView { winners: old(self)@.winners.remove(*player), ..old(self)@ }),
    {
        self.winners.remove(player);
    }

    /// Adjust the balance of a given user: adds `amount`, saturating at `u64::MAX`.
    pub fn adjust_balance(&mut self, user: Address, amount: u64)
        requires
            old(self).wf(),
        ensures
            final(self).wf(),
            final(self)@ == credited(old(self)@, user, amount as int),
    {
        let balance = match self.user_balances.get(&user) {
            Some(balance) => balance,
            None => 0,
        };
        self.user_balances.insert(user, balance.saturating_add(amount));
    }

    /// Clears the session of `player` and puts it back at `Start` if it is
    /// at any other phase.
    pub fn reset_if_inconsistent(&mut self, player: Address)
        requires
            old(self).wf(),
        ensures
            final(self).wf(),
            final(self)@ == reset_if_inconsistent_spec(old(self)@, player),
    {
        let phase = self.current_phase(&player);
        if phase != GamePhase::Start {
            self.player_bets.remove(&player);
            self.flip_results.remove(&player);
            self.winners.remove(&player);
            self.game_phases.insert(player, GamePhase::Start);
        }
    }

    /// Settles the session of `player` with the disclosed flip bit: records
    /// the bit, the winner (the player on a win, `house` otherwise) and the
    /// phase `Done`. Without a bet for `player` nothing changes.
    pub fn settle(&mut self, player: Address, flip_result: bool, house: Address)
        requires
            old(self).wf(),
        ensures
            final(self).wf(),
            final(self)@ == settled(old(self)@, player, flip_result, house),
    {
        if let Some(bet) = self.get_bet(&player) {
            self.record_flip_result(player, flip_result);
            if (bet.choice == PlayerChoice::Heads && flip_result) || (bet.choice
                == PlayerChoice::Tails && !flip_result) {
                self.assign_winner(player, player);
            } else {
                self.assign_winner(player, house);
            }
            self.advance_phase(player, GamePhase::Done);
        }
    }
}

} // verus!
