use vstd::prelude::*;

verus! {

/// The namespace tag `score` (ASCII) that, followed by the player identity, seeds a score address.
pub const SCORE_SEED: [u8; 5] = [115u8, 99, 111, 114, 101];

pub open spec fn score_seed() -> Seq<u8> {
    seq![115u8, 99, 111, 114, 101]
}

/// What the ledger's address search gives for two seeds and a program: the first
/// address off the signing curve and its bump, or `None` where the search finds none.
pub uninterp spec fn program_address_of(seed_a: Seq<u8>, seed_b: Seq<u8>, program_id: Seq<u8>) -> Option<(Seq<u8>, u8)>;

/// An address and bump seen as byte sequences.
pub open spec fn address_view(r: Option<([u8; 32], u8)>) -> Option<(Seq<u8>, u8)> {
    match r {
        Some((a, b)) => Some((a@, b)),
        None => None,
    }
}

/// The derived address and bump of a player's score record under a program.
pub open spec fn score_address_of(program_id: Seq<u8>, player: Seq<u8>) -> Option<(Seq<u8>, u8)> {
    program_address_of(score_seed(), player, program_id)
}

/// Relies on `solana_pubkey::Pubkey::try_find_program_address` (seeds `[seed_a, seed_b]`):
/// its result is a function of the seeds and the program identity alone, and it
/// returns `None` rather than panicking when the seeds are invalid or no bump works.
#[verifier::external_body]
fn try_find_program_address(seed_a: &[u8], seed_b: &[u8], program_id: &[u8; 32]) -> (r: Option<([u8; 32], u8)>)
    ensures
        address_view(r) == program_address_of(seed_a@, seed_b@, program_id@),
{
    let program = solana_program::pubkey::Pubkey::new_from_array(*program_id);
    solana_program::pubkey::Pubkey::try_find_program_address(&[seed_a, seed_b], &program)
        .map(|(address, bump)| (address.to_bytes(), bump))
}

/// Derives the address of `player`'s score record under `program_id`, with its bump.
pub fn find_score_address(program_id: &[u8; 32], player: &[u8; 32]) -> (r: Option<([u8; 32], u8)>)
    ensures
        address_view(r) == score_address_of(program_id@, player@),
{
    let seed = SCORE_SEED;
    assert(seed@ =~= score_seed());
    try_find_program_address(seed.as_slice(), player.as_slice(), program_id)
}

/// Two derivations from the same program and player agree, address and bump.
pub proof fn lemma_score_address_deterministic(
    program_id: [u8; 32],
    player: [u8; 32],
    first: Option<([u8; 32], u8)>,
    second: Option<([u8; 32], u8)>,
)
    requires
        address_view(first) == score_address_of(program_id@, player@),
        address_view(second) == score_address_of(program_id@, player@),
    ensures
        address_view(first) == address_view(second),
{
}

/// Compares two identities byte by byte.
pub fn keys_equal(a: &[u8; 32], b: &[u8; 32]) -> (r: bool)
    ensures
        r == (a@ == b@),
{
    let mut i: usize = 0;
    while i < 32
        invariant
            i <= 32,
            forall|j: int| 0 <= j < i ==> a@[j] == b@[j],
        decreases 32 - i,
    {
        if a[i] != b[i] {
            return false;
        }
        i = i + 1;
    }
    assert(a@ =~= b@);
    true
}

} // verus!
