use vstd::bytes::{spec_u64_from_le_bytes, u64_to_le_bytes, u64_from_le_bytes};
use vstd::prelude::*;
use vstd::slice::slice_subrange;
use crate::address::{address_view, find_score_address, keys_equal, score_address_of};
use crate::record::{probe_initialized, record_bytes, stored_score, with_score, KEY_LEN, RECORD_LEN, SCORE_OFFSET};

verus! {

/// Selector byte of the Create operation.
pub const CREATE: u8 = 0;

/// Selector byte of the Increment operation.
pub const INCREMENT: u8 = 1;

/// Length of an Increment payload: the selector and a little-endian `u64` amount.
pub const INCREMENT_DATA_LEN: usize = 9;

/// A stored score above this refuses any further increment.
pub const MAX_SCORE: u64 = 1_000_000;

/// Why an instruction is refused.
#[derive(Clone, Copy, Debug, PartialEq, Eq, Structural)]
pub enum ScoreError {
    /// Wrong score address, a stored score over the ceiling, or an overflowing sum.
    InvalidAccountData,
    /// Create on a record that is already initialized.
    AccountAlreadyInitialized,
    /// Increment on a record that is not initialized.
    UninitializedAccount,
    /// Unknown selector, or an Increment payload that is too short.
    InvalidInstructionData,
    /// No address could be derived from the seeds.
    InvalidSeeds,
}

/// What the caller must do to complete an accepted instruction.
#[derive(Clone, Debug)]
pub enum Action {
    /// Allocate a record of `RECORD_LEN` bytes at the derived address, owned by the
    /// program and signed for with the seeds (tag, player, `bump`); then store `data`.
    Create { bump: u8, data: Vec<u8> },
    /// Overwrite the record with `data`.
    Update { data: Vec<u8> },
}

/// An accepted instruction's action, with its bytes as a sequence.
pub enum ActionModel {
    Create { bump: u8, data: Seq<u8> },
    Update { data: Seq<u8> },
}

pub open spec fn action_view(a: Action) -> ActionModel {
    match a {
        Action::Create { bump, data } => ActionModel::Create { bump, data: data@ },
        Action::Update { data } => ActionModel::Update { data: data@ },
    }
}

pub open spec fn result_view(r: Result<Action, ScoreError>) -> Result<ActionModel, ScoreError> {
    match r {
        Ok(a) => Ok(action_view(a)),
        Err(e) => Err(e),
    }
}

/// The amount carried by an Increment payload.
pub open spec fn increment_amount(ix: Seq<u8>) -> u64 {
    spec_u64_from_le_bytes(ix.subrange(1, INCREMENT_DATA_LEN as int))
}

/// The bytes of a freshly created record for `player`.
pub open spec fn new_record(player: Seq<u8>) -> Seq<u8> {
    record_bytes(true, player, 0)
}

/// The Increment transition on an initialized record. The ceiling bounds the score
/// read before the increment, not the sum: one large increment may carry the score
/// past it, and only the next Increment is then refused.
pub open spec fn increment_outcome(record: Seq<u8>, ix: Seq<u8>) -> Result<ActionModel, ScoreError> {
    if ix.len() < INCREMENT_DATA_LEN {
        Err(ScoreError::InvalidInstructionData)
    } else if stored_score(record) > MAX_SCORE {
        Err(ScoreError::InvalidAccountData)
    } else if stored_score(record) + increment_amount(ix) > u64::MAX {
        Err(ScoreError::InvalidAccountData)
    } else {
        Ok(ActionModel::Update {
            data: with_score(record, (stored_score(record) + increment_amount(ix)) as u64),
        })
    }
}

/// The outcome of an instruction, given the derived address and bump, the score
/// account's address, the player, the record's current bytes and the payload.
pub open spec fn outcome(
    derived: Option<(Seq<u8>, u8)>,
    score_key: Seq<u8>,
    player: Seq<u8>,
    record: Seq<u8>,
    ix: Seq<u8>,
) -> Result<ActionModel, ScoreError> {
    match derived {
        None => Err(ScoreError::InvalidSeeds),
        Some((address, bump)) => {
            if address != score_key {
                Err(ScoreError::InvalidAccountData)
            } else if ix[0] == CREATE {
                if probe_initialized(record) {
                    Err(ScoreError::AccountAlreadyInitialized)
                } else {
                    Ok(ActionModel::Create { bump, data: new_record(player) })
                }
            } else if ix[0] == INCREMENT {
                if !probe_initialized(record) {
                    Err(ScoreError::UninitializedAccount)
                } else {
                    increment_outcome(record, ix)
                }
            } else {
                Err(ScoreError::InvalidInstructionData)
            }
        },
    }
}

/// The outcome of an instruction for `program_id`, deriving the address from the player.
pub open spec fn handle(
    program_id: Seq<u8>,
    score_key: Seq<u8>,
    player: Seq<u8>,
    record: Seq<u8>,
    ix: Seq<u8>,
) -> Result<ActionModel, ScoreError> {
    outcome(score_address_of(program_id, player), score_key, player, record, ix)
}

fn new_record_data(player: &[u8; 32]) -> (r: Vec<u8>)
    ensures
        r@ == new_record(player@),
{
    let mut r: Vec<u8> = Vec::new();
    r.push(1u8);
    let mut i: usize = 0;
    while i < KEY_LEN
        invariant
            i <= KEY_LEN,
            r@ == seq![1u8] + player@.subrange(0, i as int),
        decreases KEY_LEN - i,
    {
        r.push(player[i]);
        i = i + 1;
    }
    assert(player@.subrange(0, KEY_LEN as int) =~= player@);
    let mut s = u64_to_le_bytes(0);
    r.append(&mut s);
    r
}

fn increment(record: &[u8], ix: &[u8]) -> (r: Result<Action, ScoreError>)
    requires
        probe_initialized(record@),
    ensures
        result_view(r) == increment_outcome(record@, ix@),
{
    if ix.len() < INCREMENT_DATA_LEN {
        return Err(ScoreError::InvalidInstructionData);
    }
    let current = u64_from_le_bytes(slice_subrange(record, SCORE_OFFSET, RECORD_LEN));
    if current > MAX_SCORE {
        return Err(ScoreError::InvalidAccountData);
    }
    let amount = u64_from_le_bytes(slice_subrange(ix, 1, INCREMENT_DATA_LEN));
    let new_score = match current.checked_add(amount) {
        Some(s) => s,
        None => return Err(ScoreError::InvalidAccountData),
    };
    let mut data: Vec<u8> = Vec::new();
    let mut i: usize = 0;
    while i < SCORE_OFFSET
        invariant
            i <= SCORE_OFFSET,
            record@.len() == RECORD_LEN,
            data@ == record@.subrange(0, i as int),
        decreases SCORE_OFFSET - i,
    {
        data.push(record[i]);
        i = i + 1;
        assert(data@ =~= record@.subrange(0, i as int));
    }
    let mut s = u64_to_le_bytes(new_score);
    data.append(&mut s);
    Ok(Action::Update { data })
}

/// Decides an instruction once the address and bump have been derived.
pub fn process_with_address(
    derived: Option<([u8; 32], u8)>,
    score_key: &[u8; 32],
    player: &[u8; 32],
    record: &[u8],
    ix: &[u8],
) -> (r: Result<Action, ScoreError>)
    requires
        ix@.len() >= 1,
    ensures
        result_view(r) == outcome(address_view(derived), score_key@, player@, record@, ix@),
{
    let (address, bump) = match derived {
        Some(d) => d,
        None => return Err(ScoreError::InvalidSeeds),
    };
    if !keys_equal(&address, score_key) {
        return Err(ScoreError::InvalidAccountData);
    }
    let initialized = record.len() == RECORD_LEN && record[0] == 1;
    if ix[0] == CREATE {
        if initialized {
            Err(ScoreError::AccountAlreadyInitialized)
        } else {
            Ok(Action::Create { bump, data: new_record_data(player) })
        }
    } else if ix[0] == INCREMENT {
        if !initialized {
            Err(ScoreError::UninitializedAccount)
        } else {
            increment(record, ix)
        }
    } else {
        Err(ScoreError::InvalidInstructionData)
    }
}

/// Decides an instruction: checks the score account's address against the one
/// derived for `player`, probes the record, and applies Create or Increment.
/// Nothing here checks that the player signed the transaction; only the
/// allocation that a Create asks for demands the player's signature.
pub fn process_instruction(
    program_id: &[u8; 32],
    score_key: &[u8; 32],
    player: &[u8; 32],
    record: &[u8],
    ix: &[u8],
) -> (r: Result<Action, ScoreError>)
    requires
        ix@.len() >= 1,
    ensures
        result_view(r) == handle(program_id@, score_key@, player@, record@, ix@),
{
    let derived = find_score_address(program_id, player);
    process_with_address(derived, score_key, player, record, ix)
}

} // verus!
