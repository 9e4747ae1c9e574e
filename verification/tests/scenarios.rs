use toybox_brawl::{
    cancel_battle, claim_winnings, create_battle, join_battle, submit_battle_result, Battle,
    BattleState, Config, ErrorCode, Identity, Ledger, Settlement,
};

fn party(tag: u8) -> Identity {
    Identity::new([tag; 32])
}

fn config() -> Config {
    Config { oracle: party(9), burn_sink: Identity::unset() }
}

fn funded(parties: &[(Identity, u64)]) -> Ledger {
    let mut ledger = Ledger::new();
    for (who, amount) in parties {
        assert_eq!(ledger.credit(*who, *amount), Ok(()));
    }
    ledger
}

#[test]
fn full_battle_pays_winner_and_burn_sink() {
    let (alice, bob) = (party(1), party(2));
    let cfg = config();
    let mut ledger = funded(&[(alice, 5_000), (bob, 3_000)]);
    let mut escrow = 0u64;

    let mut battle =
        create_battle(&mut escrow, &mut ledger, String::from("arena-1"), 1_000, alice, 100).unwrap();
    assert_eq!(battle.state, BattleState::WaitingForOpponent);
    assert_eq!(battle.total_pot, 1_000);
    assert_eq!(escrow, 1_000);
    assert_eq!(ledger.balance(&alice), 4_000);

    assert_eq!(join_battle(&mut battle, &mut escrow, &mut ledger, bob), Ok(()));
    assert_eq!(battle.state, BattleState::InProgress);
    assert_eq!(battle.total_pot, 2_000);
    assert_eq!(escrow, 2_000);
    assert_eq!(ledger.balance(&bob), 2_000);

    assert_eq!(submit_battle_result(&mut battle, alice, cfg.oracle, &cfg), Ok(()));
    assert_eq!(battle.state, BattleState::Completed);
    assert_eq!(battle.winner, Some(alice));
    assert_eq!(escrow, 2_000);

    let settlement = claim_winnings(&battle, &mut escrow, &mut ledger, alice, &cfg);
    assert_eq!(settlement, Ok(Settlement { winner_share: 1_800, burn_amount: 200 }));
    assert_eq!(escrow, 0);
    assert_eq!(ledger.balance(&alice), 4_000 + 1_800);
    assert_eq!(ledger.balance(&cfg.burn_sink), 200);
    assert_eq!(ledger.balance(&bob), 2_000);
}

#[test]
fn unjoined_battle_is_cancelled_after_the_delay() {
    let (alice, bob) = (party(1), party(2));
    let mut ledger = funded(&[(alice, 500), (bob, 500)]);
    let mut escrow = 0u64;

    let mut battle =
        create_battle(&mut escrow, &mut ledger, String::from("lonely"), 500, alice, 1_000).unwrap();
    assert_eq!(ledger.balance(&alice), 0);
    assert_eq!(escrow, 500);

    assert_eq!(cancel_battle(&mut battle, &mut escrow, &mut ledger, alice, 1_301), Ok(500));
    assert_eq!(battle.state, BattleState::Cancelled);
    assert_eq!(escrow, 0);
    assert_eq!(ledger.balance(&alice), 500);

    assert_eq!(
        join_battle(&mut battle, &mut escrow, &mut ledger, bob),
        Err(ErrorCode::BattleNotJoinable)
    );
    assert_eq!(battle.state, BattleState::Cancelled);
    assert_eq!(ledger.balance(&bob), 500);
    assert_eq!(escrow, 0);
}

#[test]
fn claim_by_the_loser_moves_nothing() {
    let (alice, bob) = (party(1), party(2));
    let cfg = config();
    let mut ledger = funded(&[(alice, 700), (bob, 700)]);
    let mut escrow = 0u64;
    let mut battle =
        create_battle(&mut escrow, &mut ledger, String::from("b"), 700, alice, 0).unwrap();
    join_battle(&mut battle, &mut escrow, &mut ledger, bob).unwrap();
    submit_battle_result(&mut battle, bob, cfg.oracle, &cfg).unwrap();
    let before: Battle = battle.clone();

    assert_eq!(
        claim_winnings(&battle, &mut escrow, &mut ledger, alice, &cfg),
        Err(ErrorCode::NotTheWinner)
    );
    assert_eq!(escrow, 1_400);
    assert_eq!(ledger.balance(&alice), 0);
    assert_eq!(ledger.balance(&bob), 0);
    assert_eq!(ledger.balance(&cfg.burn_sink), 0);
    assert_eq!(battle, before);

    let stranger = party(7);
    assert_eq!(
        claim_winnings(&battle, &mut escrow, &mut ledger, stranger, &cfg),
        Err(ErrorCode::NotTheWinner)
    );
    assert_eq!(escrow, 1_400);
}

#[test]
fn second_claim_is_rejected() {
    let (alice, bob) = (party(1), party(2));
    let cfg = config();
    let mut ledger = funded(&[(alice, 10), (bob, 10)]);
    let mut escrow = 0u64;
    let mut battle =
        create_battle(&mut escrow, &mut ledger, String::from("b"), 10, alice, 0).unwrap();
    join_battle(&mut battle, &mut escrow, &mut ledger, bob).unwrap();
    submit_battle_result(&mut battle, bob, cfg.oracle, &cfg).unwrap();

    assert_eq!(
        claim_winnings(&battle, &mut escrow, &mut ledger, bob, &cfg),
        Ok(Settlement { winner_share: 18, burn_amount: 2 })
    );
    assert_eq!(
        claim_winnings(&battle, &mut escrow, &mut ledger, bob, &cfg),
        Err(ErrorCode::TransferFailed)
    );
    assert_eq!(escrow, 0);
    assert_eq!(ledger.balance(&bob), 18);
    assert_eq!(ledger.balance(&cfg.burn_sink), 2);
}

#[test]
fn pot_follows_the_deposits() {
    let (alice, bob) = (party(1), party(2));
    let cfg = config();
    let mut ledger = funded(&[(alice, 40), (bob, 40)]);
    let mut escrow = 0u64;
    let mut deposited = 0u64;

    let mut battle =
        create_battle(&mut escrow, &mut ledger, String::from("b"), 25, alice, 0).unwrap();
    deposited += 25;
    assert_eq!(battle.total_pot, deposited);
    assert_eq!(escrow, deposited);

    // rejected requests deposit nothing
    assert!(join_battle(&mut battle, &mut escrow, &mut ledger, alice).is_err());
    assert!(submit_battle_result(&mut battle, alice, cfg.oracle, &cfg).is_err());
    assert!(claim_winnings(&battle, &mut escrow, &mut ledger, alice, &cfg).is_err());
    assert!(cancel_battle(&mut battle, &mut escrow, &mut ledger, alice, 300).is_err());
    assert_eq!(battle.total_pot, deposited);
    assert_eq!(escrow, deposited);

    join_battle(&mut battle, &mut escrow, &mut ledger, bob).unwrap();
    deposited += 25;
    assert_eq!(battle.total_pot, deposited);
    assert_eq!(escrow, deposited);

    submit_battle_result(&mut battle, alice, cfg.oracle, &cfg).unwrap();
    assert_eq!(battle.total_pot, deposited);
    claim_winnings(&battle, &mut escrow, &mut ledger, alice, &cfg).unwrap();
    assert_eq!(battle.total_pot, deposited);
    assert_eq!(escrow, 0);
    // nothing was lost or made
    assert_eq!(
        ledger.balance(&alice) + ledger.balance(&bob) + ledger.balance(&cfg.burn_sink) + escrow,
        80
    );
}
