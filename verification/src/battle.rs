//! The battle record and the rules that every record obeys.

use vstd::prelude::*;
use vstd::utf8::encode_utf8;
use crate::identity::Identity;

verus! {

/// The longest battle identifier, in bytes.
pub const MAX_BATTLE_ID_LEN: usize = 32;

/// The part of the pot, in hundredths, that the winner receives.
pub const WINNER_PERCENT: u64 = 90;

/// How many seconds must have passed since a battle was created before it
/// can be cancelled.
pub const CANCEL_DELAY: i64 = 300;

/// Where a battle stands. A battle only moves forward: from waiting to in
/// progress to completed, or from waiting to cancelled.
#[derive(Clone, Copy, Debug, PartialEq, Eq, Structural)]
pub enum BattleState {
    WaitingForOpponent,
    InProgress,
    Completed,
    Cancelled,
}

/// One contest between two players.
#[derive(Clone, Debug, PartialEq, Eq)]
pub struct Battle {
    /// The player who created the battle.
    pub player1: Identity,
    /// The opponent; the unset identity until somebody joins.
    pub player2: Identity,
    /// The caller's name for the battle.
    pub battle_id: String,
    /// The stake of each player.
    pub wager_amount: u64,
    /// The stakes that were paid in so far.
    pub total_pot: u64,
    pub state: BattleState,
    /// The winner, once the oracle has reported one.
    pub winner: Option<Identity>,
    /// When the battle was created, in seconds.
    pub created_at: i64,
}

/// The identities that the engine trusts, fixed when it is set up.
#[derive(Clone, Copy, Debug)]
pub struct Config {
    /// The only identity that may report the result of a battle.
    pub oracle: Identity,
    /// The identity that receives the burned part of every pot.
    pub burn_sink: Identity,
}

/// How a pot is divided when the winner claims it.
#[derive(Clone, Copy, Debug, PartialEq, Eq, Structural)]
pub struct Settlement {
    pub winner_share: u64,
    pub burn_amount: u64,
}

/// The number of bytes that a battle identifier takes.
pub open spec fn battle_id_len(battle_id: Seq<char>) -> nat {
    encode_utf8(battle_id).len()
}

/// The winner's part of a pot: ninety hundredths of it, rounded down.
pub open spec fn winner_share(total_pot: u64) -> u64 {
    (total_pot * WINNER_PERCENT / 100) as u64
}

/// The burned part of a pot: whatever the winner does not receive.
pub open spec fn burn_amount(total_pot: u64) -> u64 {
    (total_pot - winner_share(total_pot)) as u64
}

impl Battle {
    /// The rules that every battle record obeys, whatever its state.
    pub open spec fn wf(&self) -> bool {
        &&& self.wager_amount > 0
        &&& battle_id_len(self.battle_id@) <= 32
        &&& match self.state {
            BattleState::WaitingForOpponent | BattleState::Cancelled => {
                &&& self.total_pot == self.wager_amount
                &&& self.player2 == Identity::nobody()
                &&& self.winner is None
            },
            BattleState::InProgress => {
                &&& self.total_pot == 2 * self.wager_amount
                &&& self.player2 != self.player1
                &&& self.winner is None
            },
            BattleState::Completed => {
                &&& self.total_pot == 2 * self.wager_amount
                &&& self.player2 != self.player1
                &&& (self.winner == Some(self.player1) || self.winner == Some(self.player2))
            },
        }
    }

    /// Whether `escrow` is what is left of the pot of this battle: all of it
    /// while the battle is open, all or nothing once it is completed, and
    /// nothing once it is cancelled.
    pub open spec fn backed_by(&self, escrow: u64) -> bool {
        match self.state {
            BattleState::WaitingForOpponent | BattleState::InProgress => escrow == self.total_pot,
            BattleState::Completed => escrow == self.total_pot || escrow == 0,
            BattleState::Cancelled => escrow == 0,
        }
    }
}

/// Whether `battle_id` is short enough to name a battle.
pub fn valid_battle_id(battle_id: &String) -> (r: bool)
    ensures
        r == (battle_id_len(battle_id@) <= 32),
{
    battle_id.as_str().as_bytes().len() <= MAX_BATTLE_ID_LEN
}

/// Divides a pot between the winner and the burn sink. The winner's part is
/// rounded down, and the burn sink receives the rest, so that nothing is
/// lost or made.
pub fn split_pot(total_pot: u64) -> (s: Settlement)
    ensures
        s.winner_share == winner_share(total_pot),
        s.burn_amount == burn_amount(total_pot),
        s.winner_share + s.burn_amount == total_pot,
{
    assert(total_pot * WINNER_PERCENT == total_pot * 90) by (nonlinear_arith)
        requires
            WINNER_PERCENT == 90,
    ;
    let wide: u128 = (total_pot as u128) * (WINNER_PERCENT as u128) / 100;
    assert(wide <= total_pot);
    let share: u64 = wide as u64;
    Settlement { winner_share: share, burn_amount: total_pot - share }
}

} // verus!
