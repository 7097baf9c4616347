use crate::address::{agent_seeds, battle_seeds, bet_seeds, program_address, Address};
use crate::elo::{lemma_elo_change_bounded, K_FACTOR};
use crate::ledger::{
    after_battle, after_bet, after_registration, battle_change, battle_error, bet_error,
    challenger_after, defender_after, holds_key, registration_error, LedgerView,
};
use crate::records::{Agent, ArenaError, Battle, Bet, WinnerSide, INITIAL_RATING};
use vstd::prelude::*;

verus! {

/// A successful registration stores an agent with the initial rating and all
/// counters at zero, and raises the registry's agent count by exactly one
/// (unless the count is already at its maximum).
pub proof fn law_registration_starts_fresh(
    l: LedgerView,
    key: Address,
    authority: Address,
    name: String,
    external_id: String,
    now: i64,
)
    requires
        registration_error(l, name@, external_id@) is None,
        l.arena.unwrap().total_agents < u64::MAX,
    ensures
        ({
            let l2 = after_registration(l, key, Agent::fresh(authority, name, external_id, now));
            let agent = l2.agents.last().1;
            &&& agent.elo == INITIAL_RATING
            &&& agent.wins == 0
            &&& agent.losses == 0
            &&& agent.total_battles == 0
            &&& l2.arena.unwrap().total_agents == l.arena.unwrap().total_agents + 1
            &&& l2.agents.len() == l.agents.len() + 1
        }),
{
}

/// Once an agent is registered under `external_id`, every further
/// registration under that id with a valid name is refused as a duplicate
/// (and a refused registration leaves the agent count as it was).
pub proof fn law_external_id_registers_once(
    l: LedgerView,
    key: Address,
    agent: Agent,
    external_id: Seq<char>,
    name: Seq<char>,
)
    requires
        registration_error(l, agent.name@, external_id) is None,
        program_address(agent_seeds(external_id), l.program_id) == Some(key@),
        2 <= name.len() <= 50,
    ensures
        registration_error(after_registration(l, key, agent), name, external_id) == Some(
            ArenaError::DuplicateKey,
        ),
{
    let l2 = after_registration(l, key, agent);
    assert(l2.agents[l.agents.len() as int].0@ == key@);
    assert(holds_key(l2.agents, key@));
}

/// A drawn battle changes neither agent's rating, wins or losses, and adds
/// exactly one battle to each agent's count (unless it is at its maximum).
pub proof fn law_draw_keeps_ratings(challenger: Agent, defender: Agent)
    requires
        challenger.total_battles < u32::MAX,
        defender.total_battles < u32::MAX,
    ensures
        ({
            let c2 = challenger_after(WinnerSide::Draw, challenger, defender);
            let d2 = defender_after(WinnerSide::Draw, challenger, defender);
            &&& c2.elo == challenger.elo && d2.elo == defender.elo
            &&& c2.wins == challenger.wins && d2.wins == defender.wins
            &&& c2.losses == challenger.losses && d2.losses == defender.losses
            &&& c2.total_battles == challenger.total_battles + 1
            &&& d2.total_battles == defender.total_battles + 1
        }),
{
}

/// In a decided battle the winner gains exactly what the loser gives up, and
/// that amount is between 0 and the sensitivity constant, whenever neither
/// rating hits a bound of its range.
pub proof fn law_rating_transfer_is_symmetric(
    side: WinnerSide,
    challenger: Agent,
    defender: Agent,
)
    requires
        side != WinnerSide::Draw,
        side == WinnerSide::Challenger ==> challenger.elo + battle_change(side, challenger, defender)
            <= u32::MAX && defender.elo >= battle_change(side, challenger, defender),
        side == WinnerSide::Defender ==> defender.elo + battle_change(side, challenger, defender)
            <= u32::MAX && challenger.elo >= battle_change(side, challenger, defender),
    ensures
        challenger_after(side, challenger, defender).elo - challenger.elo == defender.elo
            - defender_after(side, challenger, defender).elo,
        0 <= battle_change(side, challenger, defender) <= K_FACTOR,
{
    lemma_elo_change_bounded(challenger.elo as int, defender.elo as int);
    lemma_elo_change_bounded(defender.elo as int, challenger.elo as int);
}

/// The loser's rating drops by the points at stake but never below zero:
/// it ends at zero when the points at stake exceed it.
pub proof fn law_rating_floor(side: WinnerSide, challenger: Agent, defender: Agent)
    requires
        side != WinnerSide::Draw,
    ensures
        ({
            let change = battle_change(side, challenger, defender);
            let (before, after) = if side == WinnerSide::Challenger {
                (defender.elo, defender_after(side, challenger, defender).elo)
            } else {
                (challenger.elo, challenger_after(side, challenger, defender).elo)
            };
            &&& after >= 0
            &&& change >= before ==> after == 0
            &&& change < before ==> after == before - change
        }),
{
}

/// Once a battle is recorded under `battle_id`, any further battle under that
/// id is refused as a duplicate, whichever agents it names. A refused battle
/// leaves the stored battle and the battle count as they were, so across both
/// attempts the count rises exactly once (unless it is at its maximum).
pub proof fn law_battle_id_records_once(
    l: LedgerView,
    key: Address,
    battle: Battle,
    challenger: Seq<u8>,
    defender: Seq<u8>,
)
    requires
        battle_error(l, battle.battle_id@, battle.challenger@, battle.defender@) is None,
        program_address(battle_seeds(battle.battle_id@), l.program_id) == Some(key@),
    ensures
        battle_error(after_battle(l, key, battle), battle.battle_id@, challenger, defender) == Some(
            ArenaError::DuplicateKey,
        ),
        l.arena.unwrap().total_battles < u64::MAX ==> after_battle(
            l,
            key,
            battle,
        ).arena.unwrap().total_battles == l.arena.unwrap().total_battles + 1,
        after_battle(l, key, battle).battles.last() == (key, battle),
{
    let l2 = after_battle(l, key, battle);
    assert(l2.battles[l.battles.len() as int].0@ == key@);
    assert(holds_key(l2.battles, key@));
}

/// Once `bettor` has bet on `battle_id`, a second bet of theirs on it is
/// refused as a duplicate.
pub proof fn law_one_bet_per_bettor(l: LedgerView, key: Address, bet: Bet)
    requires
        bet_error(l, bet.battle_id@, bet.bettor@) is None,
        program_address(bet_seeds(bet.battle_id@, bet.bettor@), l.program_id) == Some(key@),
    ensures
        bet_error(after_bet(l, key, bet), bet.battle_id@, bet.bettor@) == Some(
            ArenaError::DuplicateKey,
        ),
{
    let l2 = after_bet(l, key, bet);
    assert(l2.bets[l.bets.len() as int].0@ == key@);
    assert(holds_key(l2.bets, key@));
}

/// A bet on a battle does not stand in the way of another bettor's bet on the
/// same battle, as long as the two bets' derived addresses differ.
pub proof fn law_bettors_bet_independently(l: LedgerView, key: Address, bet: Bet, other: Seq<u8>)
    requires
        bet_error(l, bet.battle_id@, bet.bettor@) is None,
        program_address(bet_seeds(bet.battle_id@, bet.bettor@), l.program_id) == Some(key@),
        bet_error(l, bet.battle_id@, other) is None,
        program_address(bet_seeds(bet.battle_id@, other), l.program_id) != Some(key@),
    ensures
        bet_error(after_bet(l, key, bet), bet.battle_id@, other) is None,
{
    let l2 = after_bet(l, key, bet);
    let k2 = program_address(bet_seeds(bet.battle_id@, other), l.program_id).unwrap();
    if holds_key(l2.bets, k2) {
        let i = choose|i: int| 0 <= i < l2.bets.len() && #[trigger] l2.bets[i].0@ == k2;
        if i < l.bets.len() {
            assert(l.bets[i] == l2.bets[i]);
        }
    }
}

} // verus!
