use crate::address::Address;
use vstd::prelude::*;

verus! {

/// Starting rating of every newly registered agent.
pub const INITIAL_RATING: u32 = 1000;

/// Longest accepted agent name, in characters.
pub const MAX_NAME_LEN: usize = 50;

/// Shortest accepted agent name, in characters.
pub const MIN_NAME_LEN: usize = 2;

/// The singleton registry: who set it up, and how many agents and battles exist.
#[derive(Clone, Copy, Debug, PartialEq, Eq)]
pub struct Arena {
    pub authority: Address,
    pub total_battles: u64,
    pub total_agents: u64,
}

/// A registered competitor.
#[derive(Clone, Debug, PartialEq, Eq)]
pub struct Agent {
    pub authority: Address,
    pub name: String,
    pub external_id: String,
    pub elo: u32,
    pub wins: u32,
    pub losses: u32,
    pub total_battles: u32,
    pub registered_at: i64,
}

/// A completed contest between two agents; never changed once written.
#[derive(Clone, Debug, PartialEq, Eq)]
pub struct Battle {
    pub battle_id: String,
    pub challenger: Address,
    pub defender: Address,
    pub winner: Option<Address>,
    pub battle_type: BattleType,
    pub winner_side: WinnerSide,
    pub challenger_score: u32,
    pub defender_score: u32,
    pub rounds: u8,
    pub timestamp: i64,
}

/// A wager placed on the outcome of a battle.
#[derive(Clone, Debug, PartialEq, Eq)]
pub struct Bet {
    pub bettor: Address,
    pub battle_id: String,
    pub predicted_winner: Address,
    pub amount: u64,
    pub status: BetStatus,
    pub placed_at: i64,
}

/// The discipline of a battle; it does not affect ratings.
#[derive(Clone, Copy, Debug, PartialEq, Eq, Structural)]
pub enum BattleType {
    Reasoning,
    Debate,
    Speed,
    Strategy,
}

/// Which side of a battle won.
#[derive(Clone, Copy, Debug, PartialEq, Eq, Structural)]
pub enum WinnerSide {
    Challenger,
    Defender,
    Draw,
}

/// Where a bet stands; every bet starts out `Pending`.
#[derive(Clone, Copy, Debug, PartialEq, Eq, Structural)]
pub enum BetStatus {
    Pending,
    Won,
    Lost,
    Refunded,
}

/// Why an event was refused. A refused event changes nothing.
#[derive(Clone, Copy, Debug, PartialEq, Eq, Structural)]
pub enum ArenaError {
    NameTooLong,
    NameTooShort,
    Unauthorized,
    BattleCompleted,
    InvalidBattleState,
    /// A record would be created at an address that already holds one.
    DuplicateKey,
    /// A record that the event reads does not exist.
    AccountNotInitialized,
    /// No address can be derived from the record's seeds (no bump seed
    /// puts the hash off the curve).
    AddressUnavailable,
}

impl ArenaError {
    /// A human-readable description of the error.
    pub open spec fn message_text(self) -> Seq<char> {
        match self {
            ArenaError::NameTooLong => "Name must be at most 50 characters"@,
            ArenaError::NameTooShort => "Name must be at least 2 characters"@,
            ArenaError::Unauthorized => "Unauthorized"@,
            ArenaError::BattleCompleted => "Battle already completed"@,
            ArenaError::InvalidBattleState => "Invalid battle state"@,
            ArenaError::DuplicateKey => "Account already exists"@,
            ArenaError::AccountNotInitialized => "Account not initialized"@,
            ArenaError::AddressUnavailable => "No address can be derived"@,
        }
    }

    /// The description of the error, as text.
    pub fn message(&self) -> (r: String)
        ensures
            r@ == self.message_text(),
    {
        match self {
            ArenaError::NameTooLong => String::from_str("Name must be at most 50 characters"),
            ArenaError::NameTooShort => String::from_str("Name must be at least 2 characters"),
            ArenaError::Unauthorized => String::from_str("Unauthorized"),
            ArenaError::BattleCompleted => String::from_str("Battle already completed"),
            ArenaError::InvalidBattleState => String::from_str("Invalid battle state"),
            ArenaError::DuplicateKey => String::from_str("Account already exists"),
            ArenaError::AccountNotInitialized => String::from_str("Account not initialized"),
            ArenaError::AddressUnavailable => String::from_str("No address can be derived"),
        }
    }
}

/// The accounts of the registry's creation: its creator.
#[derive(Clone, Copy, Debug)]
pub struct InitializeArena {
    pub authority: Address,
}

/// The accounts of a registration: the registering actor.
#[derive(Clone, Copy, Debug)]
pub struct RegisterAgent {
    pub authority: Address,
}

/// The accounts of a battle: the two agents' addresses and the reporting actor.
#[derive(Clone, Copy, Debug)]
pub struct RecordBattle {
    pub challenger: Address,
    pub defender: Address,
    pub authority: Address,
}

/// The accounts of a bet: the bettor.
#[derive(Clone, Copy, Debug)]
pub struct PlaceBet {
    pub bettor: Address,
}

impl Agent {
    /// A freshly registered agent: initial rating, all counters zero.
    pub open spec fn fresh(authority: Address, name: String, external_id: String, now: i64) -> Agent {
        Agent {
            authority,
            name,
            external_id,
            elo: INITIAL_RATING,
            wins: 0,
            losses: 0,
            total_battles: 0,
            registered_at: now,
        }
    }

    /// The agent after winning a battle worth `change` points.
    pub open spec fn won(self, change: u32) -> Agent {
        Agent {
            elo: self.elo.saturating_add(change),
            wins: self.wins.saturating_add(1),
            total_battles: self.total_battles.saturating_add(1),
            ..self
        }
    }

    /// The agent after losing a battle worth `change` points.
    pub open spec fn lost(self, change: u32) -> Agent {
        Agent {
            elo: self.elo.saturating_sub(change),
            losses: self.losses.saturating_add(1),
            total_battles: self.total_battles.saturating_add(1),
            ..self
        }
    }

    /// The agent after a drawn battle.
    pub open spec fn drew(self) -> Agent {
        Agent { total_battles: self.total_battles.saturating_add(1), ..self }
    }

    /// A copy of the agent with `elo`, `wins`, `losses` and `total_battles` replaced.
    fn with_stats(&self, elo: u32, wins: u32, losses: u32, total_battles: u32) -> (r: Agent)
        ensures
            r == (Agent { elo, wins, losses, total_battles, ..*self }),
    {
        Agent {
            authority: self.authority,
            name: self.name.clone(),
            external_id: self.external_id.clone(),
            elo,
            wins,
            losses,
            total_battles,
            registered_at: self.registered_at,
        }
    }

    pub fn after_win(&self, change: u32) -> (r: Agent)
        ensures
            r == self.won(change),
    {
        self.with_stats(
            self.elo.saturating_add(change),
            self.wins.saturating_add(1),
            self.losses,
            self.total_battles.saturating_add(1),
        )
    }

    pub fn after_loss(&self, change: u32) -> (r: Agent)
        ensures
            r == self.lost(change),
    {
        self.with_stats(
            self.elo.saturating_sub(change),
            self.wins,
            self.losses.saturating_add(1),
            self.total_battles.saturating_add(1),
        )
    }

    pub fn after_draw(&self) -> (r: Agent)
        ensures
            r == self.drew(),
    {
        self.with_stats(self.elo, self.wins, self.losses, self.total_battles.saturating_add(1))
    }
}

} // verus!
