//! The five operations on a battle, its escrow and the ledger.
//!
//! Each operation is stated twice: as a function on values of the model,
//! which says what the operation means, and as executable code that is
//! proved to do exactly that. An operation that is rejected changes nothing.

use vstd::prelude::*;
use crate::battle::{
    battle_id_len, burn_amount, split_pot, winner_share, Battle, BattleState, Config, Settlement,
    CANCEL_DELAY,
};
use crate::errors::ErrorCode;
use crate::identity::Identity;
use crate::ledger::{can_pay, can_receive, credited, debited, Ledger};

verus! {

/// Everything that an operation on one battle can read or change: the
/// record, the funds held in escrow against it, and the balances of the
/// identities.
pub struct World {
    pub battle: Battle,
    pub escrow: u64,
    pub balances: Map<Identity, u64>,
}

impl World {
    /// The record obeys its rules, and the escrow is what is left of the
    /// pot.
    pub open spec fn sound(self) -> bool {
        self.battle.wf() && self.battle.backed_by(self.escrow)
    }
}

/// The record of a battle that `initiator` has just created.
pub open spec fn fresh_battle(
    battle_id: String,
    wager_amount: u64,
    initiator: Identity,
    now: i64,
) -> Battle {
    Battle {
        player1: initiator,
        player2: Identity::nobody(),
        battle_id,
        wager_amount,
        total_pot: wager_amount,
        state: BattleState::WaitingForOpponent,
        winner: None,
        created_at: now,
    }
}

/// Creating a battle: the initiator stakes `wager_amount`, which moves from
/// the initiator's balance into the escrow.
///
/// Rejected with `InvalidWager` when the stake is zero; otherwise with
/// `TransferFailed` when the initiator holds less than the stake, or the
/// escrow cannot hold it.
pub open spec fn create_step(
    escrow: u64,
    balances: Map<Identity, u64>,
    battle_id: String,
    wager_amount: u64,
    initiator: Identity,
    now: i64,
) -> Result<World, ErrorCode> {
    if wager_amount == 0 {
        Err(ErrorCode::InvalidWager)
    } else if !can_pay(balances, initiator, wager_amount) || escrow + wager_amount > u64::MAX {
        Err(ErrorCode::TransferFailed)
    } else {
        Ok(
            World {
                battle: fresh_battle(battle_id, wager_amount, initiator, now),
                escrow: (escrow + wager_amount) as u64,
                balances: debited(balances, initiator, wager_amount),
            },
        )
    }
}

/// Joining a battle: the opponent takes the second seat and stakes the same
/// amount as the first player, which moves from the opponent's balance into
/// the escrow.
///
/// Rejected with `BattleNotJoinable` unless the battle waits for an
/// opponent; otherwise with `CannotJoinOwnBattle` when the opponent is the
/// first player; otherwise with `TransferFailed` when the opponent holds less
/// than the stake, or the escrow or the pot cannot hold both stakes.
pub open spec fn join_step(w: World, opponent: Identity) -> Result<World, ErrorCode> {
    let wager = w.battle.wager_amount;
    if w.battle.state != BattleState::WaitingForOpponent {
        Err(ErrorCode::BattleNotJoinable)
    } else if opponent == w.battle.player1 {
        Err(ErrorCode::CannotJoinOwnBattle)
    } else if !can_pay(w.balances, opponent, wager) || w.escrow + wager > u64::MAX || 2 * wager
        > u64::MAX {
        Err(ErrorCode::TransferFailed)
    } else {
        Ok(
            World {
                battle: Battle {
                    player2: opponent,
                    total_pot: (2 * wager) as u64,
                    state: BattleState::InProgress,
                    ..w.battle
                },
                escrow: (w.escrow + wager) as u64,
                balances: debited(w.balances, opponent, wager),
            },
        )
    }
}

/// Reporting the result of a battle: the oracle names the winner. No funds
/// move.
///
/// Rejected with `UnauthorizedOracle` unless the caller is the oracle;
/// otherwise with `BattleNotInProgress` unless the battle is in progress;
/// otherwise with `InvalidWinner` unless the winner is one of the two
/// players.
pub open spec fn submit_step(
    config: Config,
    battle: Battle,
    winner: Identity,
    caller: Identity,
) -> Result<Battle, ErrorCode> {
    if caller != config.oracle {
        Err(ErrorCode::UnauthorizedOracle)
    } else if battle.state != BattleState::InProgress {
        Err(ErrorCode::BattleNotInProgress)
    } else if winner != battle.player1 && winner != battle.player2 {
        Err(ErrorCode::InvalidWinner)
    } else {
        Ok(Battle { winner: Some(winner), state: BattleState::Completed, ..battle })
    }
}

/// Claiming the winnings: the whole pot leaves the escrow; the winner
/// receives the winner's share and the burn sink the rest.
///
/// Rejected with `BattleNotCompleted` unless the battle is completed;
/// otherwise with `NotTheWinner` unless the claimant is the winner; otherwise
/// with `TransferFailed` when the escrow holds less than the pot, or a
/// receiving balance cannot hold its part.
pub open spec fn claim_step(config: Config, w: World, claimant: Identity) -> Result<
    World,
    ErrorCode,
> {
    let pot = w.battle.total_pot;
    let paid = credited(w.balances, claimant, winner_share(pot));
    if w.battle.state != BattleState::Completed {
        Err(ErrorCode::BattleNotCompleted)
    } else if w.battle.winner != Some(claimant) {
        Err(ErrorCode::NotTheWinner)
    } else if w.escrow < pot || !can_receive(w.balances, claimant, winner_share(pot))
        || !can_receive(paid, config.burn_sink, burn_amount(pot)) {
        Err(ErrorCode::TransferFailed)
    } else {
        Ok(
            World {
                escrow: (w.escrow - pot) as u64,
                balances: credited(paid, config.burn_sink, burn_amount(pot)),
                ..w
            },
        )
    }
}

/// Whether a battle created at `created_at` may be cancelled at `now`: more
/// than the cancel delay lies between them.
pub open spec fn cancel_time_reached(created_at: i64, now: i64) -> bool {
    now > created_at + CANCEL_DELAY
}

/// Cancelling a battle that nobody joined: the stake goes back from the
/// escrow to the first player, whoever asks for it.
///
/// Rejected with `CannotCancelInProgressBattle` unless the battle waits for
/// an opponent; otherwise with `CancelTimeNotReached` until the cancel delay
/// has passed; otherwise with `TransferFailed` when the escrow holds less
/// than the stake, or the first player's balance cannot hold it.
pub open spec fn cancel_step(w: World, now: i64) -> Result<World, ErrorCode> {
    let wager = w.battle.wager_amount;
    if w.battle.state != BattleState::WaitingForOpponent {
        Err(ErrorCode::CannotCancelInProgressBattle)
    } else if !cancel_time_reached(w.battle.created_at, now) {
        Err(ErrorCode::CancelTimeNotReached)
    } else if w.escrow < wager || !can_receive(w.balances, w.battle.player1, wager) {
        Err(ErrorCode::TransferFailed)
    } else {
        Ok(
            World {
                battle: Battle { state: BattleState::Cancelled, ..w.battle },
                escrow: (w.escrow - wager) as u64,
                balances: credited(w.balances, w.battle.player1, wager),
            },
        )
    }
}

/// Creates a battle as [`create_step`] says, at the time `now`.
pub fn create_battle(
    escrow: &mut u64,
    ledger: &mut Ledger,
    battle_id: String,
    wager_amount: u64,
    initiator: Identity,
    now: i64,
) -> (r: Result<Battle, ErrorCode>)
    requires
        battle_id_len(battle_id@) <= 32,
    ensures
        match create_step(*old(escrow), old(ledger)@, battle_id, wager_amount, initiator, now) {
            Ok(w) => r == Ok::<Battle, ErrorCode>(w.battle) && *final(escrow) == w.escrow
                && final(ledger)@ == w.balances,
            Err(e) => r == Err::<Battle, ErrorCode>(e) && *final(escrow) == *old(escrow)
                && *final(ledger) == *old(ledger),
        },
{
    if wager_amount == 0 {
        return Err(ErrorCode::InvalidWager);
    }
    let held: u64 = match escrow.checked_add(wager_amount) {
        Some(held) => held,
        None => {
            return Err(ErrorCode::TransferFailed);
        },
    };
    match ledger.debit(initiator, wager_amount) {
        Ok(()) => {},
        Err(e) => {
            return Err(e);
        },
    }
    *escrow = held;
    Ok(
        Battle {
            player1: initiator,
            player2: Identity::unset(),
            battle_id,
            wager_amount,
            total_pot: wager_amount,
            state: BattleState::WaitingForOpponent,
            winner: None,
            created_at: now,
        },
    )
}

/// Lets `opponent` join `battle` as [`join_step`] says.
pub fn join_battle(
    battle: &mut Battle,
    escrow: &mut u64,
    ledger: &mut Ledger,
    opponent: Identity,
) -> (r: Result<(), ErrorCode>)
    ensures
        match join_step(
            (World { battle: *old(battle), escrow: *old(escrow), balances: old(ledger)@ }),
            opponent,
        ) {
            Ok(w) => r == Ok::<(), ErrorCode>(()) && *final(battle) == w.battle && *final(escrow)
                == w.escrow && final(ledger)@ == w.balances,
            Err(e) => r == Err::<(), ErrorCode>(e) && *final(battle) == *old(battle)
                && *final(escrow) == *old(escrow) && *final(ledger) == *old(ledger),
        },
{
    if battle.state != BattleState::WaitingForOpponent {
        return Err(ErrorCode::BattleNotJoinable);
    }
    if opponent == battle.player1 {
        return Err(ErrorCode::CannotJoinOwnBattle);
    }
    let wager: u64 = battle.wager_amount;
    let pot: u64 = match wager.checked_mul(2) {
        Some(pot) => pot,
        None => {
            return Err(ErrorCode::TransferFailed);
        },
    };
    let held: u64 = match escrow.checked_add(wager) {
        Some(held) => held,
        None => {
            return Err(ErrorCode::TransferFailed);
        },
    };
    match ledger.debit(opponent, wager) {
        Ok(()) => {},
        Err(e) => {
            return Err(e);
        },
    }
    battle.player2 = opponent;
    battle.total_pot = pot;
    battle.state = BattleState::InProgress;
    *escrow = held;
    Ok(())
}

/// Records the result that `caller` reports for `battle`, as
/// [`submit_step`] says.
pub fn submit_battle_result(
    battle: &mut Battle,
    winner: Identity,
    caller: Identity,
    config: &Config,
) -> (r: Result<(), ErrorCode>)
    ensures
        match submit_step(*config, *old(battle), winner, caller) {
            Ok(b) => r == Ok::<(), ErrorCode>(()) && *final(battle) == b,
            Err(e) => r == Err::<(), ErrorCode>(e) && *final(battle) == *old(battle),
        },
{
    if caller != config.oracle {
        return Err(ErrorCode::UnauthorizedOracle);
    }
    if battle.state != BattleState::InProgress {
        return Err(ErrorCode::BattleNotInProgress);
    }
    if winner != battle.player1 && winner != battle.player2 {
        return Err(ErrorCode::InvalidWinner);
    }
    battle.winner = Some(winner);
    battle.state = BattleState::Completed;
    Ok(())
}

/// Pays out the pot of `battle` to `claimant` and the burn sink, as
/// [`claim_step`] says, and returns how the pot was divided. The record
/// itself stays as it is.
pub fn claim_winnings(
    battle: &Battle,
    escrow: &mut u64,
    ledger: &mut Ledger,
    claimant: Identity,
    config: &Config,
) -> (r: Result<Settlement, ErrorCode>)
    ensures
        match claim_step(
            *config,
            (World { battle: *battle, escrow: *old(escrow), balances: old(ledger)@ }),
            claimant,
        ) {
            Ok(w) => r == Ok::<Settlement, ErrorCode>(
                (Settlement {
                    winner_share: winner_share(battle.total_pot),
                    burn_amount: burn_amount(battle.total_pot),
                }),
            ) && *final(escrow) == w.escrow && final(ledger)@ == w.balances,
            Err(e) => r == Err::<Settlement, ErrorCode>(e) && *final(escrow) == *old(escrow)
                && *final(ledger) == *old(ledger),
        },
{
    if battle.state != BattleState::Completed {
        return Err(ErrorCode::BattleNotCompleted);
    }
    match battle.winner {
        Some(winner) => {
            if winner != claimant {
                return Err(ErrorCode::NotTheWinner);
            }
        },
        None => {
            return Err(ErrorCode::NotTheWinner);
        },
    }
    let pot: u64 = battle.total_pot;
    let parts = split_pot(pot);
    if *escrow < pot {
        return Err(ErrorCode::TransferFailed);
    }
    let winner_after: u64 = match ledger.balance(&claimant).checked_add(parts.winner_share) {
        Some(after) => after,
        None => {
            return Err(ErrorCode::TransferFailed);
        },
    };
    let sink_before: u64 = if config.burn_sink == claimant {
        winner_after
    } else {
        ledger.balance(&config.burn_sink)
    };
    if sink_before.checked_add(parts.burn_amount).is_none() {
        return Err(ErrorCode::TransferFailed);
    }
    match ledger.credit(claimant, parts.winner_share) {
        Ok(()) => {},
        Err(e) => {
            return Err(e);
        },
    }
    match ledger.credit(config.burn_sink, parts.burn_amount) {
        Ok(()) => {},
        Err(e) => {
            return Err(e);
        },
    }
    *escrow = *escrow - pot;
    Ok(parts)
}

/// Cancels `battle` at the time `now` and refunds the first player, as
/// [`cancel_step`] says, and returns the refunded amount. Any `caller` may
/// ask for it.
#[allow(unused_variables)]
pub fn cancel_battle(
    battle: &mut Battle,
    escrow: &mut u64,
    ledger: &mut Ledger,
    caller: Identity,
    now: i64,
) -> (r: Result<u64, ErrorCode>)
    ensures
        match cancel_step(
            (World { battle: *old(battle), escrow: *old(escrow), balances: old(ledger)@ }),
            now,
        ) {
            Ok(w) => r == Ok::<u64, ErrorCode>(old(battle).wager_amount) && *final(battle)
                == w.battle && *final(escrow) == w.escrow && final(ledger)@ == w.balances,
            Err(e) => r == Err::<u64, ErrorCode>(e) && *final(battle) == *old(battle)
                && *final(escrow) == *old(escrow) && *final(ledger) == *old(ledger),
        },
{
    if battle.state != BattleState::WaitingForOpponent {
        return Err(ErrorCode::CannotCancelInProgressBattle);
    }
    if (now as i128) <= (battle.created_at as i128) + (CANCEL_DELAY as i128) {
        return Err(ErrorCode::CancelTimeNotReached);
    }
    let wager: u64 = battle.wager_amount;
    if *escrow < wager {
        return Err(ErrorCode::TransferFailed);
    }
    match ledger.credit(battle.player1, wager) {
        Ok(()) => {},
        Err(e) => {
            return Err(e);
        },
    }
    battle.state = BattleState::Cancelled;
    *escrow = *escrow - wager;
    Ok(wager)
}

} // verus!
