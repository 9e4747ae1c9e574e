//! The reasons for which the engine rejects an operation.

use vstd::prelude::*;

verus! {

/// Why an operation was rejected. A rejected operation changes nothing.
#[derive(Clone, Copy, Debug, PartialEq, Eq, Structural)]
pub enum ErrorCode {
    /// The battle is not waiting for an opponent.
    BattleNotJoinable,
    /// The battle is not in progress.
    BattleNotInProgress,
    /// The reported winner is neither of the two players.
    InvalidWinner,
    /// The battle has no result yet, or was cancelled.
    BattleNotCompleted,
    /// The claimant is not the winner of the battle.
    NotTheWinner,
    /// The battle has left the waiting state and can no longer be cancelled.
    CannotCancelInProgressBattle,
    /// The waiting time before a cancellation has not passed.
    CancelTimeNotReached,
    /// The stake is zero.
    InvalidWager,
    /// The ledger could not move the funds: the payer lacks them, or the
    /// payee's balance cannot hold them.
    TransferFailed,
    /// The caller is not the oracle authority.
    UnauthorizedOracle,
    /// The opponent is the player who created the battle.
    CannotJoinOwnBattle,
}

impl ErrorCode {
    /// What [`ErrorCode::message`] says of each reason.
    pub open spec fn text(self) -> Seq<char> {
        match self {
            ErrorCode::BattleNotJoinable => "Battle is not joinable"@,
            ErrorCode::BattleNotInProgress => "Battle is not in progress"@,
            ErrorCode::InvalidWinner => "Invalid winner specified"@,
            ErrorCode::BattleNotCompleted => "Battle is not completed"@,
            ErrorCode::NotTheWinner => "You are not the winner"@,
            ErrorCode::CannotCancelInProgressBattle => "Cannot cancel a battle in progress"@,
            ErrorCode::CancelTimeNotReached => "Cancel time not reached (5 minutes)"@,
            ErrorCode::InvalidWager => "Wager must be greater than zero"@,
            ErrorCode::TransferFailed => "Funds could not be transferred"@,
            ErrorCode::UnauthorizedOracle => "Caller is not the oracle authority"@,
            ErrorCode::CannotJoinOwnBattle => "Cannot join your own battle"@,
        }
    }

    /// The reason in words, for whoever has to show it.
    pub fn message(&self) -> (s: &'static str)
        ensures
            s@ == self.text(),
    {
        match self {
            ErrorCode::BattleNotJoinable => "Battle is not joinable",
            ErrorCode::BattleNotInProgress => "Battle is not in progress",
            ErrorCode::InvalidWinner => "Invalid winner specified",
            ErrorCode::BattleNotCompleted => "Battle is not completed",
            ErrorCode::NotTheWinner => "You are not the winner",
            ErrorCode::CannotCancelInProgressBattle => "Cannot cancel a battle in progress",
            ErrorCode::CancelTimeNotReached => "Cancel time not reached (5 minutes)",
            ErrorCode::InvalidWager => "Wager must be greater than zero",
            ErrorCode::TransferFailed => "Funds could not be transferred",
            ErrorCode::UnauthorizedOracle => "Caller is not the oracle authority",
            ErrorCode::CannotJoinOwnBattle => "Cannot join your own battle",
        }
    }
}

} // verus!
