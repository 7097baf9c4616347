use anchor_lang::prelude::Pubkey;
use arena::address::{derive_agent_address, derive_bet_address, Address};
use arena::elo::calculate_elo_change;
use arena::ledger::{initialize_arena, place_bet, record_battle, register_agent, Ledger};
use arena::records::{
    ArenaError, BattleType, BetStatus, InitializeArena, PlaceBet, RecordBattle, RegisterAgent,
    WinnerSide,
};

fn key(b: u8) -> Address {
    Address { bytes: [b; 32] }
}

fn program() -> Address {
    key(42)
}

fn ready_ledger() -> Ledger {
    let mut ledger = Ledger::new(program());
    initialize_arena(&mut ledger, &InitializeArena { authority: key(1) }).unwrap();
    ledger
}

fn register(ledger: &mut Ledger, name: &str, id: &str) -> Address {
    register_agent(
        ledger,
        &RegisterAgent { authority: key(2) },
        name.to_string(),
        id.to_string(),
        100,
    )
    .unwrap()
}

fn agent_at(ledger: &Ledger, at: Address) -> arena::records::Agent {
    ledger.agents.iter().find(|(k, _)| *k == at).unwrap().1.clone()
}

fn set_rating(ledger: &mut Ledger, at: Address, elo: u32) {
    for entry in ledger.agents.iter_mut() {
        if entry.0 == at {
            entry.1.elo = elo;
        }
    }
}

fn battle(
    ledger: &mut Ledger,
    id: &str,
    challenger: Address,
    defender: Address,
    side: WinnerSide,
) -> Result<Address, ArenaError> {
    record_battle(
        ledger,
        &RecordBattle { challenger, defender, authority: key(3) },
        id.to_string(),
        BattleType::Debate,
        side,
        7,
        3,
        5,
        200,
    )
}

#[test]
fn elo_change_equal_ratings() {
    assert_eq!(calculate_elo_change(1000, 1000), 16);
}

#[test]
fn elo_change_underdog_wins() {
    assert_eq!(calculate_elo_change(1000, 1200), 24);
}

#[test]
fn elo_change_favourite_wins() {
    assert_eq!(calculate_elo_change(1200, 1000), 8);
}

#[test]
fn elo_change_rounding_boundary() {
    assert_eq!(calculate_elo_change(1010, 1000), 16);
    assert_eq!(calculate_elo_change(1011, 1000), 15);
}

#[test]
fn elo_change_extremes() {
    assert_eq!(calculate_elo_change(0, 4000), 32);
    assert_eq!(calculate_elo_change(4000, 0), 0);
    assert_eq!(calculate_elo_change(u32::MAX, 0), 0);
    assert_eq!(calculate_elo_change(0, u32::MAX), 32);
}

#[test]
fn registration_creates_fresh_agent() {
    let mut ledger = ready_ledger();
    let at = register(&mut ledger, "Alpha", "alpha-1");
    let agent = agent_at(&ledger, at);
    assert_eq!(agent.elo, 1000);
    assert_eq!(agent.wins, 0);
    assert_eq!(agent.losses, 0);
    assert_eq!(agent.total_battles, 0);
    assert_eq!(agent.name, "Alpha");
    assert_eq!(agent.external_id, "alpha-1");
    assert_eq!(agent.authority, key(2));
    assert_eq!(agent.registered_at, 100);
    assert_eq!(ledger.arena.unwrap().total_agents, 1);
}

#[test]
fn duplicate_external_id_is_refused() {
    let mut ledger = ready_ledger();
    register(&mut ledger, "Alpha", "same-id");
    let second = register_agent(
        &mut ledger,
        &RegisterAgent { authority: key(9) },
        "Beta".to_string(),
        "same-id".to_string(),
        101,
    );
    assert_eq!(second, Err(ArenaError::DuplicateKey));
    assert_eq!(ledger.arena.unwrap().total_agents, 1);
    assert_eq!(ledger.agents.len(), 1);
}

#[test]
fn name_length_bounds() {
    let mut ledger = ready_ledger();
    let long = "x".repeat(51);
    let r = register_agent(&mut ledger, &RegisterAgent { authority: key(2) }, long, "a".to_string(), 0);
    assert_eq!(r, Err(ArenaError::NameTooLong));
    let r = register_agent(&mut ledger, &RegisterAgent { authority: key(2) }, "x".to_string(), "a".to_string(), 0);
    assert_eq!(r, Err(ArenaError::NameTooShort));
    register(&mut ledger, &"y".repeat(50), "b");
    register(&mut ledger, "yy", "c");
    assert_eq!(ledger.arena.unwrap().total_agents, 2);
}

#[test]
fn registration_needs_registry() {
    let mut ledger = Ledger::new(program());
    let r = register_agent(&mut ledger, &RegisterAgent { authority: key(2) }, "Alpha".to_string(), "a".to_string(), 0);
    assert_eq!(r, Err(ArenaError::AccountNotInitialized));
}

#[test]
fn long_identifiers_are_accepted() {
    let mut ledger = ready_ledger();
    let id_a = "a".repeat(64);
    let id_b = format!("{}{}", "a".repeat(63), "b");
    let a = register(&mut ledger, "Alpha", &id_a);
    let b = register(&mut ledger, "Bravo", &id_b);
    assert_ne!(a, b);
    let wide = "\u{e9}".repeat(64);
    let c = register(&mut ledger, "Charlie", &wide);
    assert_eq!(agent_at(&ledger, c).external_id, wide);
    assert_eq!(ledger.arena.unwrap().total_agents, 3);
    let battle_id = "x".repeat(64);
    battle(&mut ledger, &battle_id, a, b, WinnerSide::Draw).unwrap();
    assert_eq!(ledger.battles[0].1.battle_id, battle_id);
    let r = battle(&mut ledger, &battle_id, b, c, WinnerSide::Draw);
    assert_eq!(r, Err(ArenaError::DuplicateKey));
    place_bet(&mut ledger, &PlaceBet { bettor: key(10) }, battle_id.clone(), a, 5, 0).unwrap();
    let again = place_bet(&mut ledger, &PlaceBet { bettor: key(10) }, battle_id, a, 5, 0);
    assert_eq!(again, Err(ArenaError::DuplicateKey));
}

#[test]
fn short_identifier_address_is_one_seed() {
    let program_key = Pubkey::new_from_array(program().bytes);
    let (expected, _) = Pubkey::find_program_address(&[b"agent", b"alpha-1"], &program_key);
    let derived = derive_agent_address("alpha-1", &program()).unwrap();
    assert_eq!(derived.bytes, expected.to_bytes());
    let id = "q".repeat(40);
    let (split, _) =
        Pubkey::find_program_address(&[b"agent", &id.as_bytes()[..32], &id.as_bytes()[32..]], &program_key);
    assert_eq!(derive_agent_address(&id, &program()).unwrap().bytes, split.to_bytes());
}

#[test]
fn registry_is_created_once() {
    let mut ledger = ready_ledger();
    let r = initialize_arena(&mut ledger, &InitializeArena { authority: key(5) });
    assert_eq!(r, Err(ArenaError::DuplicateKey));
    let arena = ledger.arena.unwrap();
    assert_eq!(arena.authority, key(1));
    assert_eq!(arena.total_agents, 0);
    assert_eq!(arena.total_battles, 0);
}

#[test]
fn derived_addresses_are_deterministic_and_distinct() {
    let a = derive_agent_address("alpha", &program()).unwrap();
    let b = derive_agent_address("alpha", &program()).unwrap();
    let c = derive_agent_address("beta", &program()).unwrap();
    assert_eq!(a, b);
    assert_ne!(a, c);
    assert_ne!(a, program());
    let bet1 = derive_bet_address("alpha", &key(1), &program()).unwrap();
    let bet2 = derive_bet_address("alpha", &key(2), &program()).unwrap();
    assert_ne!(bet1, bet2);
}

#[test]
fn equal_ratings_challenger_wins() {
    let mut ledger = ready_ledger();
    let a = register(&mut ledger, "Alpha", "a");
    let b = register(&mut ledger, "Bravo", "b");
    let at = battle(&mut ledger, "battle-1", a, b, WinnerSide::Challenger).unwrap();
    let (ra, rb) = (agent_at(&ledger, a), agent_at(&ledger, b));
    assert_eq!(ra.elo, 1016);
    assert_eq!(rb.elo, 984);
    assert_eq!(ra.wins, 1);
    assert_eq!(rb.losses, 1);
    assert_eq!(ra.total_battles, 1);
    assert_eq!(rb.total_battles, 1);
    let stored = &ledger.battles[0];
    assert_eq!(stored.0, at);
    assert_eq!(stored.1.winner, Some(a));
    assert_eq!(stored.1.challenger, a);
    assert_eq!(stored.1.defender, b);
    assert_eq!(stored.1.challenger_score, 7);
    assert_eq!(stored.1.defender_score, 3);
    assert_eq!(stored.1.rounds, 5);
    assert_eq!(stored.1.timestamp, 200);
    assert_eq!(ledger.arena.unwrap().total_battles, 1);
}

#[test]
fn higher_rated_challenger_loses() {
    let mut ledger = ready_ledger();
    let a = register(&mut ledger, "Alpha", "a");
    let b = register(&mut ledger, "Bravo", "b");
    set_rating(&mut ledger, a, 1200);
    battle(&mut ledger, "battle-1", a, b, WinnerSide::Defender).unwrap();
    let (ra, rb) = (agent_at(&ledger, a), agent_at(&ledger, b));
    assert_eq!(rb.elo, 1024);
    assert_eq!(ra.elo, 1176);
    assert_eq!(rb.wins, 1);
    assert_eq!(ra.losses, 1);
    assert_eq!(ledger.battles[0].1.winner, Some(b));
}

#[test]
fn draw_keeps_ratings() {
    let mut ledger = ready_ledger();
    let a = register(&mut ledger, "Alpha", "a");
    let b = register(&mut ledger, "Bravo", "b");
    set_rating(&mut ledger, a, 1300);
    battle(&mut ledger, "battle-1", a, b, WinnerSide::Draw).unwrap();
    let (ra, rb) = (agent_at(&ledger, a), agent_at(&ledger, b));
    assert_eq!(ra.elo, 1300);
    assert_eq!(rb.elo, 1000);
    assert_eq!((ra.wins, ra.losses, ra.total_battles), (0, 0, 1));
    assert_eq!((rb.wins, rb.losses, rb.total_battles), (0, 0, 1));
    assert_eq!(ledger.battles[0].1.winner, None);
}

#[test]
fn rating_floors_at_zero() {
    let mut ledger = ready_ledger();
    let a = register(&mut ledger, "Alpha", "a");
    let b = register(&mut ledger, "Bravo", "b");
    set_rating(&mut ledger, a, 0);
    set_rating(&mut ledger, b, 10);
    battle(&mut ledger, "battle-1", a, b, WinnerSide::Challenger).unwrap();
    assert_eq!(agent_at(&ledger, a).elo, 16);
    assert_eq!(agent_at(&ledger, b).elo, 0);
}

#[test]
fn rating_saturates_at_top() {
    let mut ledger = ready_ledger();
    let a = register(&mut ledger, "Alpha", "a");
    let b = register(&mut ledger, "Bravo", "b");
    set_rating(&mut ledger, a, u32::MAX - 3);
    set_rating(&mut ledger, b, u32::MAX);
    battle(&mut ledger, "battle-1", a, b, WinnerSide::Challenger).unwrap();
    assert_eq!(agent_at(&ledger, a).elo, u32::MAX);
}

#[test]
fn duplicate_battle_id_is_refused() {
    let mut ledger = ready_ledger();
    let a = register(&mut ledger, "Alpha", "a");
    let b = register(&mut ledger, "Bravo", "b");
    battle(&mut ledger, "battle-1", a, b, WinnerSide::Challenger).unwrap();
    let first = ledger.battles[0].clone();
    let r = battle(&mut ledger, "battle-1", b, a, WinnerSide::Challenger);
    assert_eq!(r, Err(ArenaError::DuplicateKey));
    assert_eq!(ledger.battles.len(), 1);
    assert_eq!(ledger.battles[0], first);
    assert_eq!(ledger.arena.unwrap().total_battles, 1);
    assert_eq!(agent_at(&ledger, a).elo, 1016);
}

#[test]
fn battle_with_unknown_agent_is_refused() {
    let mut ledger = ready_ledger();
    let a = register(&mut ledger, "Alpha", "a");
    let r = battle(&mut ledger, "battle-1", a, key(77), WinnerSide::Challenger);
    assert_eq!(r, Err(ArenaError::AccountNotInitialized));
    assert_eq!(agent_at(&ledger, a).total_battles, 0);
    assert_eq!(ledger.battles.len(), 0);
}

#[test]
fn one_bet_per_bettor_per_battle() {
    let mut ledger = ready_ledger();
    let first = place_bet(&mut ledger, &PlaceBet { bettor: key(10) }, "battle-1".to_string(), key(20), 500, 300);
    assert!(first.is_ok());
    let again = place_bet(&mut ledger, &PlaceBet { bettor: key(10) }, "battle-1".to_string(), key(21), 50, 301);
    assert_eq!(again, Err(ArenaError::DuplicateKey));
    let other = place_bet(&mut ledger, &PlaceBet { bettor: key(11) }, "battle-1".to_string(), key(20), 70, 302);
    assert!(other.is_ok());
    assert_eq!(ledger.bets.len(), 2);
    let bet = &ledger.bets[0].1;
    assert_eq!(bet.status, BetStatus::Pending);
    assert_eq!(bet.amount, 500);
    assert_eq!(bet.bettor, key(10));
    assert_eq!(bet.predicted_winner, key(20));
    assert_eq!(bet.battle_id, "battle-1");
    assert_eq!(bet.placed_at, 300);
}

#[test]
fn error_messages() {
    assert_eq!(ArenaError::NameTooLong.message(), "Name must be at most 50 characters");
    assert_eq!(ArenaError::NameTooShort.message(), "Name must be at least 2 characters");
    assert_eq!(ArenaError::Unauthorized.message(), "Unauthorized");
    assert_eq!(ArenaError::BattleCompleted.message(), "Battle already completed");
    assert_eq!(ArenaError::InvalidBattleState.message(), "Invalid battle state");
    assert_eq!(ArenaError::DuplicateKey.message(), "Account already exists");
    assert_eq!(ArenaError::AccountNotInitialized.message(), "Account not initialized");
    assert_eq!(ArenaError::AddressUnavailable.message(), "No address can be derived");
}

#[test]
fn elo_change_matches_logistic_formula() {
    let base: i64 = 3000;
    for gap in -1000i64..=1000 {
        let winner = (base + gap) as u32;
        let loser = base as u32;
        let expected = 1.0 / (1.0 + 10f64.powf((loser as f64 - winner as f64) / 400.0));
        let want = (32.0 * (1.0 - expected)).round() as u32;
        assert_eq!(calculate_elo_change(winner, loser), want, "gap {}", gap);
    }
}
