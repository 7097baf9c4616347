use anchor_lang::prelude::Pubkey;
use vstd::prelude::*;
use vstd::string::StrSliceExecFns;
use vstd::utf8::encode_utf8;

verus! {

/// A 32-byte public key: the address of a stored record, or the identity of
/// the actor who signed an event.
#[derive(Clone, Copy, Debug, PartialEq, Eq, Hash)]
pub struct Address {
    pub bytes: [u8; 32],
}

impl View for Address {
    type V = Seq<u8>;

    open spec fn view(&self) -> Seq<u8> {
        self.bytes@
    }
}

impl Address {
    /// Whether the two keys are the same 32 bytes.
    pub fn same_as(&self, other: &Address) -> (r: bool)
        ensures
            r == (self@ == other@),
    {
        let mut i: usize = 0;
        while i < 32
            invariant
                i <= 32,
                self@.len() == 32,
                other@.len() == 32,
                forall|j: int| 0 <= j < i ==> self@[j] == other@[j],
            decreases 32 - i,
        {
            if self.bytes[i] != other.bytes[i] {
                return false;
            }
            i = i + 1;
        }
        proof {
            assert(self@ =~= other@);
        }
        true
    }
}

/// The program-derived address for `seeds` under the program `program`, or
/// `None` when no address can be derived from them.
pub uninterp spec fn program_address(seeds: Seq<Seq<u8>>, program: Seq<u8>) -> Option<Seq<u8>>;

/// The byte strings held by `seeds`.
pub open spec fn seed_views(seeds: Seq<Vec<u8>>) -> Seq<Seq<u8>> {
    seeds.map_values(|s: Vec<u8>| s@)
}

/// Relies on `Pubkey::try_find_program_address`: its result depends on the
/// seeds and the program id alone.
#[verifier::external_body]
fn find_program_address(seeds: &Vec<Vec<u8>>, program: &Address) -> (r: Option<Address>)
    ensures
        r matches Some(a) ==> program_address(seed_views(seeds@), program@) == Some(a@),
        r is None ==> program_address(seed_views(seeds@), program@) is None,
{
    let parts: Vec<&[u8]> = seeds.iter().map(|s| s.as_slice()).collect();
    let program_key = Pubkey::new_from_array(program.bytes);
    Pubkey::try_find_program_address(&parts, &program_key).map(
        |(key, _bump)| Address { bytes: key.to_bytes() },
    )
}

/// Longest single seed that a program address accepts.
pub const MAX_SEED_LEN: usize = 32;

/// `bytes` cut into consecutive seeds of at most `MAX_SEED_LEN` bytes each.
/// The address hash reads the seeds back to back, so an identifier that fits
/// in one seed is hashed exactly as if it were passed whole.
pub open spec fn seed_chunks(bytes: Seq<u8>) -> Seq<Seq<u8>>
    decreases bytes.len(),
{
    if bytes.len() <= MAX_SEED_LEN {
        seq![bytes]
    } else {
        seq![bytes.take(MAX_SEED_LEN as int)] + seed_chunks(bytes.skip(MAX_SEED_LEN as int))
    }
}

/// The seeds of the singleton registry.
pub open spec fn arena_seeds() -> Seq<Seq<u8>> {
    seq![encode_utf8("arena"@)]
}

/// The seeds of an agent: its external id.
pub open spec fn agent_seeds(external_id: Seq<char>) -> Seq<Seq<u8>> {
    seq![encode_utf8("agent"@)] + seed_chunks(encode_utf8(external_id))
}

/// The seeds of a battle: its id.
pub open spec fn battle_seeds(battle_id: Seq<char>) -> Seq<Seq<u8>> {
    seq![encode_utf8("battle"@)] + seed_chunks(encode_utf8(battle_id))
}

/// The seeds of a bet: the battle it is on and the bettor's key.
pub open spec fn bet_seeds(battle_id: Seq<char>, bettor: Seq<u8>) -> Seq<Seq<u8>> {
    seq![encode_utf8("bet"@)] + seed_chunks(encode_utf8(battle_id)) + seq![bettor]
}

/// The bytes of `bytes` from `from` up to `to`.
fn copy_range(bytes: &Vec<u8>, from: usize, to: usize) -> (r: Vec<u8>)
    requires
        from <= to <= bytes@.len(),
    ensures
        r@ == bytes@.subrange(from as int, to as int),
{
    let mut r: Vec<u8> = Vec::new();
    let mut i: usize = from;
    while i < to
        invariant
            from <= i <= to <= bytes@.len(),
            r@ =~= bytes@.subrange(from as int, i as int),
        decreases to - i,
    {
        r.push(bytes[i]);
        i = i + 1;
    }
    r
}

/// Appends `bytes` to `seeds` as consecutive seeds of at most `MAX_SEED_LEN` bytes.
fn push_chunks(seeds: &mut Vec<Vec<u8>>, bytes: &Vec<u8>)
    ensures
        seed_views(final(seeds)@) == seed_views(old(seeds)@) + seed_chunks(bytes@),
{
    let n = bytes.len();
    let mut start: usize = 0;
    proof {
        assert(bytes@.skip(0) =~= bytes@);
    }
    while n - start > MAX_SEED_LEN
        invariant
            start <= n == bytes@.len(),
            seed_views(seeds@) + seed_chunks(bytes@.skip(start as int)) == seed_views(old(seeds)@)
                + seed_chunks(bytes@),
        decreases n - start,
    {
        let chunk = copy_range(bytes, start, start + MAX_SEED_LEN);
        let ghost before = seed_views(seeds@);
        let ghost rest = bytes@.skip(start as int);
        proof {
            assert(rest.take(MAX_SEED_LEN as int) =~= chunk@);
            assert(rest.skip(MAX_SEED_LEN as int) =~= bytes@.skip(start + MAX_SEED_LEN));
        }
        seeds.push(chunk);
        proof {
            assert(seed_views(seeds@) =~= before.push(chunk@));
            assert(before.push(chunk@) + seed_chunks(bytes@.skip(start + MAX_SEED_LEN)) =~= before
                + seed_chunks(rest));
        }
        start = start + MAX_SEED_LEN;
    }
    let last = copy_range(bytes, start, n);
    let ghost before = seed_views(seeds@);
    proof {
        assert(bytes@.skip(start as int) =~= last@);
    }
    seeds.push(last);
    proof {
        assert(seed_views(seeds@) =~= before + seed_chunks(bytes@.skip(start as int)));
    }
}

/// The address of the registry.
pub fn derive_arena_address(program: &Address) -> (r: Option<Address>)
    ensures
        r matches Some(a) ==> program_address(arena_seeds(), program@) == Some(a@),
        r is None ==> program_address(arena_seeds(), program@) is None,
{
    let mut seeds: Vec<Vec<u8>> = Vec::new();
    seeds.push("arena".as_bytes_vec());
    proof {
        assert(seed_views(seeds@) =~= arena_seeds());
    }
    find_program_address(&seeds, program)
}

/// The address of the agent registered under `external_id`.
pub fn derive_agent_address(external_id: &str, program: &Address) -> (r: Option<Address>)
    ensures
        r matches Some(a) ==> program_address(agent_seeds(external_id@), program@) == Some(a@),
        r is None ==> program_address(agent_seeds(external_id@), program@) is None,
{
    let mut seeds: Vec<Vec<u8>> = Vec::new();
    seeds.push("agent".as_bytes_vec());
    proof {
        assert(seed_views(seeds@) =~= seq![encode_utf8("agent"@)]);
    }
    push_chunks(&mut seeds, &external_id.as_bytes_vec());
    find_program_address(&seeds, program)
}

/// The address of the battle recorded under `battle_id`.
pub fn derive_battle_address(battle_id: &str, program: &Address) -> (r: Option<Address>)
    ensures
        r matches Some(a) ==> program_address(battle_seeds(battle_id@), program@) == Some(a@),
        r is None ==> program_address(battle_seeds(battle_id@), program@) is None,
{
    let mut seeds: Vec<Vec<u8>> = Vec::new();
    seeds.push("battle".as_bytes_vec());
    proof {
        assert(seed_views(seeds@) =~= seq![encode_utf8("battle"@)]);
    }
    push_chunks(&mut seeds, &battle_id.as_bytes_vec());
    find_program_address(&seeds, program)
}

/// The address of the bet that `bettor` places on `battle_id`.
pub fn derive_bet_address(battle_id: &str, bettor: &Address, program: &Address) -> (r: Option<
    Address,
>)
    ensures
        r matches Some(a) ==> program_address(bet_seeds(battle_id@, bettor@), program@) == Some(
            a@,
        ),
        r is None ==> program_address(bet_seeds(battle_id@, bettor@), program@) is None,
{
    let mut seeds: Vec<Vec<u8>> = Vec::new();
    seeds.push("bet".as_bytes_vec());
    proof {
        assert(seed_views(seeds@) =~= seq![encode_utf8("bet"@)]);
    }
    push_chunks(&mut seeds, &battle_id.as_bytes_vec());
    let mut key: Vec<u8> = Vec::new();
    let mut i: usize = 0;
    while i < 32
        invariant
            i <= 32,
            bettor@.len() == 32,
            key@ =~= bettor@.subrange(0, i as int),
        decreases 32 - i,
    {
        key.push(bettor.bytes[i]);
        i = i + 1;
    }
    let ghost before = seed_views(seeds@);
    proof {
        assert(key@ =~= bettor@);
    }
    seeds.push(key);
    proof {
        assert(seed_views(seeds@) =~= before + seq![bettor@]);
    }
    find_program_address(&seeds, program)
}

} // verus!
