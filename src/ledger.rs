use crate::address::{
    agent_seeds, arena_seeds, battle_seeds, bet_seeds, derive_agent_address,
    derive_arena_address, derive_battle_address, derive_bet_address, program_address, Address,
};
use crate::elo::{calculate_elo_change, elo_change};
use crate::records::{
    Agent, Arena, ArenaError, Battle, BattleType, Bet, BetStatus, InitializeArena, PlaceBet,
    RecordBattle, RegisterAgent, WinnerSide, MAX_NAME_LEN, MIN_NAME_LEN,
};
use vstd::prelude::*;
use vstd::string::StrSliceExecFns;

verus! {

/// Every record of one deployment, each stored at its derived address.
pub struct Ledger {
    pub program_id: Address,
    pub arena: Option<Arena>,
    pub agents: Vec<(Address, Agent)>,
    pub battles: Vec<(Address, Battle)>,
    pub bets: Vec<(Address, Bet)>,
}

/// The contents of a [`Ledger`].
pub struct LedgerView {
    pub program_id: Seq<u8>,
    pub arena: Option<Arena>,
    pub agents: Seq<(Address, Agent)>,
    pub battles: Seq<(Address, Battle)>,
    pub bets: Seq<(Address, Bet)>,
}

impl View for Ledger {
    type V = LedgerView;

    open spec fn view(&self) -> LedgerView {
        LedgerView {
            program_id: self.program_id@,
            arena: self.arena,
            agents: self.agents@,
            battles: self.battles@,
            bets: self.bets@,
        }
    }
}

/// Whether some entry is stored at `key`.
pub open spec fn holds_key<T>(entries: Seq<(Address, T)>, key: Seq<u8>) -> bool {
    exists|i: int| 0 <= i < entries.len() && #[trigger] entries[i].0@ == key
}

/// No two entries are stored at the same address.
pub open spec fn keys_distinct<T>(entries: Seq<(Address, T)>) -> bool {
    forall|i: int, j: int|
        #![trigger entries[i], entries[j]]
        0 <= i < entries.len() && 0 <= j < entries.len() && i != j ==> entries[i].0@
            != entries[j].0@
}

/// The position of the entry stored at `key`.
pub open spec fn index_of<T>(entries: Seq<(Address, T)>, key: Seq<u8>) -> int {
    choose|i: int| 0 <= i < entries.len() && #[trigger] entries[i].0@ == key
}

impl LedgerView {
    /// Each address holds at most one record of each kind.
    pub open spec fn wf(self) -> bool {
        &&& keys_distinct(self.agents)
        &&& keys_distinct(self.battles)
        &&& keys_distinct(self.bets)
    }
}

/// Why the registry cannot be created, if it cannot.
pub open spec fn initialize_error(l: LedgerView) -> Option<ArenaError> {
    match program_address(arena_seeds(), l.program_id) {
        None => Some(ArenaError::AddressUnavailable),
        Some(_) => if l.arena is Some {
            Some(ArenaError::DuplicateKey)
        } else {
            None
        },
    }
}

/// Why a registration of `name` under `external_id` is refused, if it is.
pub open spec fn registration_error(l: LedgerView, name: Seq<char>, external_id: Seq<char>) -> Option<
    ArenaError,
> {
    if name.len() > MAX_NAME_LEN {
        Some(ArenaError::NameTooLong)
    } else if name.len() < MIN_NAME_LEN {
        Some(ArenaError::NameTooShort)
    } else if l.arena is None {
        Some(ArenaError::AccountNotInitialized)
    } else {
        match program_address(agent_seeds(external_id), l.program_id) {
            None => Some(ArenaError::AddressUnavailable),
            Some(key) => if holds_key(l.agents, key) {
                Some(ArenaError::DuplicateKey)
            } else {
                None
            },
        }
    }
}

/// The ledger after `agent` is stored at `key`.
pub open spec fn after_registration(l: LedgerView, key: Address, agent: Agent) -> LedgerView {
    LedgerView {
        agents: l.agents.push((key, agent)),
        arena: Some(
            Arena { total_agents: l.arena.unwrap().total_agents.saturating_add(1), ..l.arena.unwrap() },
        ),
        ..l
    }
}

/// Why a battle under `battle_id` between the agents at `challenger` and
/// `defender` is refused, if it is.
pub open spec fn battle_error(
    l: LedgerView,
    battle_id: Seq<char>,
    challenger: Seq<u8>,
    defender: Seq<u8>,
) -> Option<ArenaError> {
    if l.arena is None {
        Some(ArenaError::AccountNotInitialized)
    } else {
        match program_address(battle_seeds(battle_id), l.program_id) {
            None => Some(ArenaError::AddressUnavailable),
            Some(key) => if holds_key(l.battles, key) {
                Some(ArenaError::DuplicateKey)
            } else if !holds_key(l.agents, challenger) || !holds_key(l.agents, defender) {
                Some(ArenaError::AccountNotInitialized)
            } else {
                None
            },
        }
    }
}

/// The rating points at stake: computed from the winner's and the loser's
/// ratings before the battle; nothing on a draw.
pub open spec fn battle_change(side: WinnerSide, challenger: Agent, defender: Agent) -> u32 {
    match side {
        WinnerSide::Challenger => elo_change(challenger.elo as int, defender.elo as int) as u32,
        WinnerSide::Defender => elo_change(defender.elo as int, challenger.elo as int) as u32,
        WinnerSide::Draw => 0,
    }
}

/// The challenger's record after the battle.
pub open spec fn challenger_after(side: WinnerSide, challenger: Agent, defender: Agent) -> Agent {
    let change = battle_change(side, challenger, defender);
    match side {
        WinnerSide::Challenger => challenger.won(change),
        WinnerSide::Defender => challenger.lost(change),
        WinnerSide::Draw => challenger.drew(),
    }
}

/// The defender's record after the battle.
pub open spec fn defender_after(side: WinnerSide, challenger: Agent, defender: Agent) -> Agent {
    let change = battle_change(side, challenger, defender);
    match side {
        WinnerSide::Challenger => defender.lost(change),
        WinnerSide::Defender => defender.won(change),
        WinnerSide::Draw => defender.drew(),
    }
}

/// The winner named in a battle record.
pub open spec fn winner_of(side: WinnerSide, challenger: Address, defender: Address) -> Option<
    Address,
> {
    match side {
        WinnerSide::Challenger => Some(challenger),
        WinnerSide::Defender => Some(defender),
        WinnerSide::Draw => None,
    }
}

/// The ledger after `battle` is stored at `key`: both agents' records are
/// updated from their state before the battle, the defender's written last.
pub open spec fn after_battle(l: LedgerView, key: Address, battle: Battle) -> LedgerView {
    let ci = index_of(l.agents, battle.challenger@);
    let di = index_of(l.agents, battle.defender@);
    let c = l.agents[ci].1;
    let d = l.agents[di].1;
    LedgerView {
        battles: l.battles.push((key, battle)),
        agents: l.agents.update(ci, (l.agents[ci].0, challenger_after(battle.winner_side, c, d))).update(
            di,
            (l.agents[di].0, defender_after(battle.winner_side, c, d)),
        ),
        arena: Some(
            Arena {
                total_battles: l.arena.unwrap().total_battles.saturating_add(1),
                ..l.arena.unwrap()
            },
        ),
        ..l
    }
}

/// Why a bet by `bettor` on `battle_id` is refused, if it is.
pub open spec fn bet_error(l: LedgerView, battle_id: Seq<char>, bettor: Seq<u8>) -> Option<
    ArenaError,
> {
    match program_address(bet_seeds(battle_id, bettor), l.program_id) {
        None => Some(ArenaError::AddressUnavailable),
        Some(key) => if holds_key(l.bets, key) {
            Some(ArenaError::DuplicateKey)
        } else {
            None
        },
    }
}

/// The ledger after `bet` is stored at `key`.
pub open spec fn after_bet(l: LedgerView, key: Address, bet: Bet) -> LedgerView {
    LedgerView { bets: l.bets.push((key, bet)), ..l }
}

/// The position of the entry stored at `key`, if there is one.
fn position<T>(entries: &Vec<(Address, T)>, key: &Address) -> (r: Option<usize>)
    ensures
        match r {
            Some(i) => i < entries@.len() && entries@[i as int].0@ == key@,
            None => !holds_key(entries@, key@),
        },
{
    let mut i: usize = 0;
    while i < entries.len()
        invariant
            i <= entries@.len(),
            forall|j: int| 0 <= j < i ==> #[trigger] entries@[j].0@ != key@,
        decreases entries@.len() - i,
    {
        if entries[i].0.same_as(key) {
            return Some(i);
        }
        i = i + 1;
    }
    None
}

proof fn lemma_index_of<T>(entries: Seq<(Address, T)>, i: int)
    requires
        keys_distinct(entries),
        0 <= i < entries.len(),
    ensures
        index_of(entries, entries[i].0@) == i,
{
    let k = index_of(entries, entries[i].0@);
    assert(0 <= k < entries.len() && entries[k].0@ == entries[i].0@);
}

proof fn lemma_push_distinct<T>(entries: Seq<(Address, T)>, key: Address, v: T)
    requires
        keys_distinct(entries),
        !holds_key(entries, key@),
    ensures
        keys_distinct(entries.push((key, v))),
{
    let s = entries.push((key, v));
    assert forall|i: int, j: int|
        0 <= i < s.len() && 0 <= j < s.len() && i != j implies #[trigger] s[i].0@ != #[trigger] s[j].0@ by {
        if i < entries.len() && j < entries.len() {
            assert(entries[i] == s[i] && entries[j] == s[j]);
        } else if i < entries.len() {
            assert(entries[i] == s[i]);
        } else if j < entries.len() {
            assert(entries[j] == s[j]);
        }
    }
}

impl Ledger {
    /// An empty ledger of the program `program_id`.
    pub fn new(program_id: Address) -> (r: Ledger)
        ensures
            r@.program_id == program_id@,
            r@.arena is None,
            r@.agents.len() == 0,
            r@.battles.len() == 0,
            r@.bets.len() == 0,
            r@.wf(),
    {
        Ledger {
            program_id,
            arena: None,
            agents: Vec::new(),
            battles: Vec::new(),
            bets: Vec::new(),
        }
    }
}


/// Creates the registry, owned by the signing actor, with both counters at zero.
pub fn initialize_arena(ledger: &mut Ledger, accounts: &InitializeArena) -> (r: Result<
    Address,
    ArenaError,
>)
    requires
        old(ledger)@.wf(),
    ensures
        final(ledger)@.wf(),
        match initialize_error(old(ledger)@) {
            Some(e) => r == Err::<Address, ArenaError>(e) && final(ledger)@ == old(ledger)@,
            None => r matches Ok(key) && program_address(arena_seeds(), old(ledger)@.program_id)
                == Some(key@) && final(ledger)@ == (LedgerView {
                arena: Some(
                    Arena { authority: accounts.authority, total_battles: 0, total_agents: 0 },
                ),
                ..old(ledger)@
            }),
        },
{
    let key = match derive_arena_address(&ledger.program_id) {
        None => {
            return Err(ArenaError::AddressUnavailable);
        },
        Some(key) => key,
    };
    if ledger.arena.is_some() {
        return Err(ArenaError::DuplicateKey);
    }
    ledger.arena = Some(Arena { authority: accounts.authority, total_battles: 0, total_agents: 0 });
    Ok(key)
}

/// Registers an agent under `external_id`, with the initial rating and zero
/// counters, and counts it in the registry.
pub fn register_agent(
    ledger: &mut Ledger,
    accounts: &RegisterAgent,
    name: String,
    external_id: String,
    now: i64,
) -> (r: Result<Address, ArenaError>)
    requires
        old(ledger)@.wf(),
    ensures
        final(ledger)@.wf(),
        match registration_error(old(ledger)@, name@, external_id@) {
            Some(e) => r == Err::<Address, ArenaError>(e) && final(ledger)@ == old(ledger)@,
            None => r matches Ok(key) && program_address(
                agent_seeds(external_id@),
                old(ledger)@.program_id,
            ) == Some(key@) && final(ledger)@ == after_registration(
                old(ledger)@,
                key,
                Agent::fresh(accounts.authority, name, external_id, now),
            ),
        },
{
    let name_len = name.as_str().unicode_len();
    if name_len > MAX_NAME_LEN {
        return Err(ArenaError::NameTooLong);
    }
    if name_len < MIN_NAME_LEN {
        return Err(ArenaError::NameTooShort);
    }
    let arena = match ledger.arena {
        None => {
            return Err(ArenaError::AccountNotInitialized);
        },
        Some(arena) => arena,
    };
    let key = match derive_agent_address(external_id.as_str(), &ledger.program_id) {
        None => {
            return Err(ArenaError::AddressUnavailable);
        },
        Some(key) => key,
    };
    if position(&ledger.agents, &key).is_some() {
        return Err(ArenaError::DuplicateKey);
    }
    let agent = Agent {
        authority: accounts.authority,
        name,
        external_id,
        elo: crate::records::INITIAL_RATING,
        wins: 0,
        losses: 0,
        total_battles: 0,
        registered_at: now,
    };
    proof {
        lemma_push_distinct(ledger.agents@, key, agent);
    }
    ledger.agents.push((key, agent));
    ledger.arena = Some(Arena { total_agents: arena.total_agents.saturating_add(1), ..arena });
    Ok(key)
}

/// Records that `bettor` wagers `amount` on `predicted_winner` in `battle_id`.
/// The battle itself is not looked up.
pub fn place_bet(
    ledger: &mut Ledger,
    accounts: &PlaceBet,
    battle_id: String,
    predicted_winner: Address,
    amount: u64,
    now: i64,
) -> (r: Result<Address, ArenaError>)
    requires
        old(ledger)@.wf(),
    ensures
        final(ledger)@.wf(),
        match bet_error(old(ledger)@, battle_id@, accounts.bettor@) {
            Some(e) => r == Err::<Address, ArenaError>(e) && final(ledger)@ == old(ledger)@,
            None => r matches Ok(key) && program_address(
                bet_seeds(battle_id@, accounts.bettor@),
                old(ledger)@.program_id,
            ) == Some(key@) && final(ledger)@ == after_bet(
                old(ledger)@,
                key,
                Bet {
                    bettor: accounts.bettor,
                    battle_id,
                    predicted_winner,
                    amount,
                    status: BetStatus::Pending,
                    placed_at: now,
                },
            ),
        },
{
    let key = match derive_bet_address(battle_id.as_str(), &accounts.bettor, &ledger.program_id) {
        None => {
            return Err(ArenaError::AddressUnavailable);
        },
        Some(key) => key,
    };
    if position(&ledger.bets, &key).is_some() {
        return Err(ArenaError::DuplicateKey);
    }
    let bet = Bet {
        bettor: accounts.bettor,
        battle_id,
        predicted_winner,
        amount,
        status: BetStatus::Pending,
        placed_at: now,
    };
    proof {
        lemma_push_distinct(ledger.bets@, key, bet);
    }
    ledger.bets.push((key, bet));
    Ok(key)
}


/// Records a battle under `battle_id` between the agents at the accounts'
/// `challenger` and `defender` addresses, moves the rating points at stake
/// from the loser to the winner, updates both agents' counters, and counts
/// the battle in the registry.
pub fn record_battle(
    ledger: &mut Ledger,
    accounts: &RecordBattle,
    battle_id: String,
    battle_type: BattleType,
    winner_side: WinnerSide,
    challenger_score: u32,
    defender_score: u32,
    rounds: u8,
    now: i64,
) -> (r: Result<Address, ArenaError>)
    requires
        old(ledger)@.wf(),
    ensures
        final(ledger)@.wf(),
        match battle_error(old(ledger)@, battle_id@, accounts.challenger@, accounts.defender@) {
            Some(e) => r == Err::<Address, ArenaError>(e) && final(ledger)@ == old(ledger)@,
            None => r matches Ok(key) && program_address(
                battle_seeds(battle_id@),
                old(ledger)@.program_id,
            ) == Some(key@) && final(ledger)@ == after_battle(
                old(ledger)@,
                key,
                Battle {
                    battle_id,
                    challenger: accounts.challenger,
                    defender: accounts.defender,
                    winner: winner_of(winner_side, accounts.challenger, accounts.defender),
                    battle_type,
                    winner_side,
                    challenger_score,
                    defender_score,
                    rounds,
                    timestamp: now,
                },
            ),
        },
{
    let arena = match ledger.arena {
        None => {
            return Err(ArenaError::AccountNotInitialized);
        },
        Some(arena) => arena,
    };
    let key = match derive_battle_address(battle_id.as_str(), &ledger.program_id) {
        None => {
            return Err(ArenaError::AddressUnavailable);
        },
        Some(key) => key,
    };
    if position(&ledger.battles, &key).is_some() {
        return Err(ArenaError::DuplicateKey);
    }
    let ci = match position(&ledger.agents, &accounts.challenger) {
        None => {
            return Err(ArenaError::AccountNotInitialized);
        },
        Some(i) => i,
    };
    let di = match position(&ledger.agents, &accounts.defender) {
        None => {
            return Err(ArenaError::AccountNotInitialized);
        },
        Some(i) => i,
    };
    proof {
        lemma_index_of(ledger.agents@, ci as int);
        lemma_index_of(ledger.agents@, di as int);
    }
    let challenger = &ledger.agents[ci].1;
    let defender = &ledger.agents[di].1;
    let (new_challenger, new_defender) = match winner_side {
        WinnerSide::Challenger => {
            let change = calculate_elo_change(challenger.elo, defender.elo);
            (challenger.after_win(change), defender.after_loss(change))
        },
        WinnerSide::Defender => {
            let change = calculate_elo_change(defender.elo, challenger.elo);
            (challenger.after_loss(change), defender.after_win(change))
        },
        WinnerSide::Draw => (challenger.after_draw(), defender.after_draw()),
    };
    let winner = match winner_side {
        WinnerSide::Challenger => Some(accounts.challenger),
        WinnerSide::Defender => Some(accounts.defender),
        WinnerSide::Draw => None,
    };
    let battle = Battle {
        battle_id,
        challenger: accounts.challenger,
        defender: accounts.defender,
        winner,
        battle_type,
        winner_side,
        challenger_score,
        defender_score,
        rounds,
        timestamp: now,
    };
    let ghost agents0 = ledger.agents@;
    let challenger_key = ledger.agents[ci].0;
    let defender_key = ledger.agents[di].0;
    ledger.agents.set(ci, (challenger_key, new_challenger));
    ledger.agents.set(di, (defender_key, new_defender));
    proof {
        lemma_push_distinct(ledger.battles@, key, battle);
        let a = ledger.agents@;
        assert forall|i: int, j: int|
            0 <= i < a.len() && 0 <= j < a.len() && i != j implies #[trigger] a[i].0@
            != #[trigger] a[j].0@ by {
            assert(a[i].0 == agents0[i].0 && a[j].0 == agents0[j].0);
        }
    }
    ledger.battles.push((key, battle));
    ledger.arena = Some(Arena { total_battles: arena.total_battles.saturating_add(1), ..arena });
    Ok(key)
}

} // verus!
