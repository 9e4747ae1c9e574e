//! What holds of every battle, whatever is asked of the engine and in
//! whatever order.

use vstd::prelude::*;
use crate::battle::{
    battle_id_len, burn_amount, winner_share, Battle, BattleState, Config, CANCEL_DELAY,
};
use crate::engine::{
    cancel_step, cancel_time_reached, claim_step, create_step, join_step, submit_step, World,
};
use crate::errors::ErrorCode;
use crate::identity::Identity;
use crate::ledger::can_receive;

verus! {

/// One request to the engine about a battle that exists.
pub enum Action {
    Join { opponent: Identity },
    Submit { winner: Identity, caller: Identity },
    Claim { claimant: Identity },
    Cancel { caller: Identity, now: i64 },
}

/// What the engine answers to `action` in the world `w`.
pub open spec fn step(config: Config, w: World, action: Action) -> Result<World, ErrorCode> {
    match action {
        Action::Join { opponent } => join_step(w, opponent),
        Action::Submit { winner, caller } => match submit_step(config, w.battle, winner, caller) {
            Ok(battle) => Ok(World { battle, ..w }),
            Err(e) => Err(e),
        },
        Action::Claim { claimant } => claim_step(config, w, claimant),
        Action::Cancel { caller, now } => cancel_step(w, now),
    }
}

/// The world after `action` was asked for: a rejected action leaves it as
/// it was.
pub open spec fn after(config: Config, w: World, action: Action) -> World {
    match step(config, w, action) {
        Ok(next) => next,
        Err(_) => w,
    }
}

/// The world after all of `actions` were asked for, in order.
pub open spec fn run(config: Config, w: World, actions: Seq<Action>) -> World
    decreases actions.len(),
{
    if actions.len() == 0 {
        w
    } else {
        after(config, run(config, w, actions.drop_last()), actions.last())
    }
}

/// The funds that entered an escrow which held `before` and now holds
/// `after`.
pub open spec fn paid_in(before: u64, after: u64) -> nat {
    if after > before {
        (after - before) as nat
    } else {
        0
    }
}

/// The funds that entered the escrow while `actions` were asked for, in
/// order, starting from `w`.
pub open spec fn deposits(config: Config, w: World, actions: Seq<Action>) -> nat
    decreases actions.len(),
{
    if actions.len() == 0 {
        0
    } else {
        let before = run(config, w, actions.drop_last());
        deposits(config, w, actions.drop_last()) + paid_in(
            before.escrow,
            after(config, before, actions.last()).escrow,
        )
    }
}

/// How far a battle has come: a battle never moves to a lower rank, and
/// never between the two highest.
pub open spec fn rank(state: BattleState) -> nat {
    match state {
        BattleState::WaitingForOpponent => 0,
        BattleState::InProgress => 1,
        BattleState::Completed => 2,
        BattleState::Cancelled => 2,
    }
}

/// A battle that was created against an empty escrow is sound, and its pot
/// is what entered the escrow.
pub proof fn law_created_battle_is_sound(
    escrow: u64,
    balances: Map<Identity, u64>,
    battle_id: String,
    wager_amount: u64,
    initiator: Identity,
    now: i64,
)
    requires
        battle_id_len(battle_id@) <= 32,
        create_step(escrow, balances, battle_id, wager_amount, initiator, now) is Ok,
    ensures
        ({
            let w = create_step(escrow, balances, battle_id, wager_amount, initiator, now)->Ok_0;
            &&& w.battle.wf()
            &&& w.battle.state == BattleState::WaitingForOpponent
            &&& w.battle.total_pot == paid_in(escrow, w.escrow)
            &&& escrow == 0 ==> w.sound()
        }),
{
}

/// Whatever is asked of the engine, a sound world stays sound, and the pot
/// grows by exactly what entered the escrow.
pub proof fn law_step_keeps_sound(config: Config, w: World, action: Action)
    requires
        w.sound(),
    ensures
        after(config, w, action).sound(),
        after(config, w, action).battle.total_pot == w.battle.total_pot + paid_in(
            w.escrow,
            after(config, w, action).escrow,
        ),
{
}

/// At every point of every sequence of requests, the world is sound and
/// the pot equals the funds that were deposited for the battle so far.
pub proof fn law_pot_is_sum_of_deposits(config: Config, w: World, actions: Seq<Action>)
    requires
        w.sound(),
    ensures
        run(config, w, actions).sound(),
        run(config, w, actions).battle.total_pot == w.battle.total_pot + deposits(
            config,
            w,
            actions,
        ),
    decreases actions.len(),
{
    if actions.len() > 0 {
        law_pot_is_sum_of_deposits(config, w, actions.drop_last());
        law_step_keeps_sound(config, run(config, w, actions.drop_last()), actions.last());
    }
}

/// From its creation on, the pot of a battle equals the funds that were
/// deposited for it: the first stake and what entered the escrow since.
pub proof fn law_pot_since_creation(
    config: Config,
    balances: Map<Identity, u64>,
    battle_id: String,
    wager_amount: u64,
    initiator: Identity,
    now: i64,
    actions: Seq<Action>,
)
    requires
        battle_id_len(battle_id@) <= 32,
        create_step(0, balances, battle_id, wager_amount, initiator, now) is Ok,
    ensures
        ({
            let w = create_step(0, balances, battle_id, wager_amount, initiator, now)->Ok_0;
            run(config, w, actions).battle.total_pot == paid_in(0, w.escrow) + deposits(
                config,
                w,
                actions,
            )
        }),
{
    let w = create_step(0, balances, battle_id, wager_amount, initiator, now)->Ok_0;
    law_created_battle_is_sound(0, balances, battle_id, wager_amount, initiator, now);
    law_pot_is_sum_of_deposits(config, w, actions);
}

/// A battle only moves forward, and what was fixed stays fixed: the first
/// player, the name, the stake and the time of creation never change, a seat
/// that was taken stays taken, and the winner of a record that obeys its
/// rules stays the winner.
pub proof fn law_battle_only_advances(config: Config, w: World, action: Action)
    ensures
        ({
            let next = after(config, w, action).battle;
            &&& rank(next.state) >= rank(w.battle.state)
            &&& rank(w.battle.state) == 2 ==> next == w.battle
            &&& next.player1 == w.battle.player1
            &&& next.battle_id == w.battle.battle_id
            &&& next.wager_amount == w.battle.wager_amount
            &&& next.created_at == w.battle.created_at
            &&& w.battle.state != BattleState::WaitingForOpponent ==> next.player2
                == w.battle.player2
            &&& w.battle.wf() && w.battle.winner is Some ==> next.winner == w.battle.winner
        }),
{
}

/// A claim pays out the whole pot and nothing else: the two parts add up
/// to the pot, the winner and the burn sink receive them, and a sound escrow
/// is empty afterwards.
pub proof fn law_claim_splits_whole_pot(config: Config, w: World, claimant: Identity)
    requires
        claim_step(config, w, claimant) is Ok,
    ensures
        ({
            let pot = w.battle.total_pot;
            let next = claim_step(config, w, claimant)->Ok_0;
            &&& winner_share(pot) + burn_amount(pot) == pot
            &&& winner_share(pot) == pot * 90 / 100
            &&& next.escrow == w.escrow - pot
            &&& w.sound() ==> next.escrow == 0
            &&& next.battle == w.battle
            &&& claimant != config.burn_sink ==> {
                &&& next.balances[claimant] == w.balances[claimant] + winner_share(pot)
                &&& next.balances[config.burn_sink] == w.balances[config.burn_sink] + burn_amount(
                    pot,
                )
            }
            &&& claimant == config.burn_sink ==> next.balances[claimant] == w.balances[claimant]
                + pot
            &&& forall|other: Identity|
                other != claimant && other != config.burn_sink ==> next.balances[other]
                    == w.balances[other]
        }),
{
}

/// The winner of a sound, completed battle whose pot is still in escrow is
/// paid, unless a receiving balance cannot hold its part.
pub proof fn law_claim_is_owed(config: Config, w: World, claimant: Identity)
    requires
        w.sound(),
        w.battle.state == BattleState::Completed,
        w.battle.winner == Some(claimant),
        w.escrow != 0,
        w.balances[claimant] + w.battle.total_pot <= u64::MAX,
        w.balances[config.burn_sink] + w.battle.total_pot <= u64::MAX,
    ensures
        claim_step(config, w, claimant) is Ok,
{
}

/// A pot is paid out once: after a claim on a sound world, every further
/// claim is rejected.
pub proof fn law_no_second_claim(config: Config, w: World, first: Identity, second: Identity)
    requires
        w.sound(),
        claim_step(config, w, first) is Ok,
    ensures
        claim_step(config, claim_step(config, w, first)->Ok_0, second) is Err,
{
}

/// A claim by anybody but the winner of a completed battle is rejected
/// with `NotTheWinner`.
pub proof fn law_only_winner_claims(config: Config, w: World, claimant: Identity)
    requires
        w.battle.state == BattleState::Completed,
        w.battle.winner != Some(claimant),
    ensures
        claim_step(config, w, claimant) == Err::<World, ErrorCode>(ErrorCode::NotTheWinner),
{
}

/// A battle cannot be joined twice: once it has left the waiting state,
/// every join is rejected with `BattleNotJoinable`.
pub proof fn law_no_second_join(w: World, opponent: Identity)
    requires
        w.battle.state != BattleState::WaitingForOpponent,
    ensures
        join_step(w, opponent) == Err::<World, ErrorCode>(ErrorCode::BattleNotJoinable),
{
}

/// After a join that succeeded, every further join is rejected with
/// `BattleNotJoinable`.
pub proof fn law_join_happens_once(w: World, first: Identity, second: Identity)
    requires
        join_step(w, first) is Ok,
    ensures
        join_step(join_step(w, first)->Ok_0, second) == Err::<World, ErrorCode>(
            ErrorCode::BattleNotJoinable,
        ),
{
}

/// A battle cannot be cancelled once it was joined: in progress, every
/// cancellation is rejected with `CannotCancelInProgressBattle`.
pub proof fn law_no_cancel_once_joined(w: World, now: i64)
    requires
        w.battle.state == BattleState::InProgress,
    ensures
        cancel_step(w, now) == Err::<World, ErrorCode>(ErrorCode::CannotCancelInProgressBattle),
{
}

/// A waiting battle cannot be cancelled until more than the cancel delay
/// has passed since its creation.
pub proof fn law_cancel_waits(w: World, now: i64)
    requires
        w.battle.state == BattleState::WaitingForOpponent,
        now <= w.battle.created_at + CANCEL_DELAY,
    ensures
        !cancel_time_reached(w.battle.created_at, now),
        cancel_step(w, now) == Err::<World, ErrorCode>(ErrorCode::CancelTimeNotReached),
{
}

/// Once more than the cancel delay has passed, a sound waiting battle is
/// cancelled: the first player receives exactly the stake, the escrow is
/// empty, nobody else's balance changes, and no further cancellation
/// succeeds. The one obstacle is a first player whose balance cannot hold
/// the stake.
pub proof fn law_cancel_refunds_once(w: World, now: i64, later: i64)
    requires
        w.sound(),
        w.battle.state == BattleState::WaitingForOpponent,
        now > w.battle.created_at + CANCEL_DELAY,
        can_receive(w.balances, w.battle.player1, w.battle.wager_amount),
    ensures
        cancel_step(w, now) is Ok,
        ({
            let next = cancel_step(w, now)->Ok_0;
            &&& next.battle.state == BattleState::Cancelled
            &&& next.escrow == 0
            &&& next.balances[w.battle.player1] == w.balances[w.battle.player1]
                + w.battle.wager_amount
            &&& forall|other: Identity|
                other != w.battle.player1 ==> next.balances[other] == w.balances[other]
            &&& cancel_step(next, later) == Err::<World, ErrorCode>(
                ErrorCode::CannotCancelInProgressBattle,
            )
            &&& forall|opponent: Identity|
                join_step(next, opponent) == Err::<World, ErrorCode>(ErrorCode::BattleNotJoinable)
        }),
{
}

/// A result that names somebody who is not a player of a battle in
/// progress is rejected with `InvalidWinner`, and the battle stays as it is.
pub proof fn law_winner_must_play(config: Config, w: World, winner: Identity)
    requires
        w.battle.state == BattleState::InProgress,
        winner != w.battle.player1,
        winner != w.battle.player2,
    ensures
        submit_step(config, w.battle, winner, config.oracle) == Err::<Battle, ErrorCode>(
            ErrorCode::InvalidWinner,
        ),
        after(config, w, (Action::Submit { winner, caller: config.oracle })) == w,
{
}

/// Nobody but the oracle can report a result.
pub proof fn law_only_oracle_reports(
    config: Config,
    battle: Battle,
    winner: Identity,
    caller: Identity,
)
    requires
        caller != config.oracle,
    ensures
        submit_step(config, battle, winner, caller) == Err::<Battle, ErrorCode>(
            ErrorCode::UnauthorizedOracle,
        ),
{
}

/// An opponent who holds the stake and is not the first player can join a
/// sound waiting battle; afterwards both stakes are in escrow.
pub proof fn law_join_is_owed(w: World, opponent: Identity)
    requires
        w.sound(),
        w.battle.state == BattleState::WaitingForOpponent,
        opponent != w.battle.player1,
        w.balances[opponent] >= w.battle.wager_amount,
        2 * w.battle.wager_amount <= u64::MAX,
    ensures
        join_step(w, opponent) is Ok,
        ({
            let next = join_step(w, opponent)->Ok_0;
            &&& next.battle.state == BattleState::InProgress
            &&& next.battle.player2 == opponent
            &&& next.battle.total_pot == 2 * w.battle.wager_amount
            &&& next.escrow == 2 * w.battle.wager_amount
            &&& next.balances[opponent] == w.balances[opponent] - w.battle.wager_amount
        }),
{
}

} // verus!
