use vstd::bytes::{spec_u64_to_le_bytes, lemma_auto_spec_u64_to_from_le_bytes};
use vstd::prelude::*;
use crate::address::score_address_of;
use crate::processor::{handle, increment_amount, new_record, ActionModel, ScoreError, CREATE, INCREMENT, INCREMENT_DATA_LEN, MAX_SCORE};
use crate::record::{is_record_bytes, probe_initialized, record_bytes, stored_score, with_score, ScoreAccount, RECORD_LEN, SCORE_OFFSET};

verus! {

/// The address derived for `player` under `program_id` exists and is `score_key`.
pub open spec fn address_matches(program_id: Seq<u8>, score_key: Seq<u8>, player: Seq<u8>) -> bool {
    score_address_of(program_id, player) matches Some((address, _)) && address == score_key
}

proof fn lemma_record_bytes_layout(f: bool, player: Seq<u8>, score: u64)
    requires
        player.len() == 32,
    ensures
        record_bytes(f, player, score).len() == RECORD_LEN,
        record_bytes(f, player, score)[0] == (if f { 1u8 } else { 0u8 }),
        record_bytes(f, player, score).subrange(1, SCORE_OFFSET as int) == player,
        stored_score(record_bytes(f, player, score)) == score,
        forall|s: u64| #[trigger] with_score(record_bytes(f, player, score), s) == record_bytes(f, player, s),
{
    lemma_auto_spec_u64_to_from_le_bytes();
    let r = record_bytes(f, player, score);
    assert(r.subrange(1, SCORE_OFFSET as int) =~= player);
    assert(r.subrange(SCORE_OFFSET as int, RECORD_LEN as int) =~= spec_u64_to_le_bytes(score));
    assert forall|s: u64| #[trigger] with_score(r, s) == record_bytes(f, player, s) by {
        assert(with_score(r, s) =~= record_bytes(f, player, s));
    }
}

/// A Create that succeeded cannot be repeated: a second Create on the bytes it
/// stored fails with `AccountAlreadyInitialized` and so writes nothing.
pub proof fn lemma_create_only_once(
    program_id: Seq<u8>,
    score_key: Seq<u8>,
    player: Seq<u8>,
    record: Seq<u8>,
    first: Seq<u8>,
    second: Seq<u8>,
)
    requires
        player.len() == 32,
        first.len() >= 1 && first[0] == CREATE,
        second.len() >= 1 && second[0] == CREATE,
        handle(program_id, score_key, player, record, first) is Ok,
    ensures
        handle(program_id, score_key, player, record, first) matches Ok(ActionModel::Create { data, .. })
            && handle(program_id, score_key, player, data, second) == Err::<ActionModel, ScoreError>(
            ScoreError::AccountAlreadyInitialized,
        ),
{
    lemma_record_bytes_layout(true, player, 0);
}

/// Increment on a record that was never created fails with `UninitializedAccount`.
pub proof fn lemma_no_increment_before_create(
    program_id: Seq<u8>,
    score_key: Seq<u8>,
    player: Seq<u8>,
    record: Seq<u8>,
    ix: Seq<u8>,
)
    requires
        address_matches(program_id, score_key, player),
        !probe_initialized(record),
        ix.len() >= 1 && ix[0] == INCREMENT,
    ensures
        handle(program_id, score_key, player, record, ix) == Err::<ActionModel, ScoreError>(
            ScoreError::UninitializedAccount,
        ),
{
}

/// The bytes that a successful Create stores decode to an initialized record of
/// `player` with score 0, and to no other record.
pub proof fn lemma_create_round_trip(
    program_id: Seq<u8>,
    score_key: Seq<u8>,
    player: Seq<u8>,
    record: Seq<u8>,
    ix: Seq<u8>,
)
    requires
        player.len() == 32,
        ix.len() >= 1 && ix[0] == CREATE,
        handle(program_id, score_key, player, record, ix) is Ok,
    ensures
        handle(program_id, score_key, player, record, ix) matches Ok(ActionModel::Create { data, .. })
            && is_record_bytes(data) && forall|a: ScoreAccount| #[trigger] a.spec_pack() == data ==> {
            &&& a.is_initialized
            &&& a.player@ == player
            &&& a.score == 0
        },
{
    lemma_record_bytes_layout(true, player, 0);
    let data = new_record(player);
    assert forall|a: ScoreAccount| #[trigger] a.spec_pack() == data implies {
        &&& a.is_initialized
        &&& a.player@ == player
        &&& a.score == 0
    } by {
        lemma_record_bytes_layout(a.is_initialized, a.player@, a.score);
    }
}

/// After Create, Increment by `a` stores score `a`; a further Increment by `b`
/// (with `a` at most the ceiling and `a + b` in range) stores `a + b`. The flag
/// and player bytes stay as Create wrote them.
pub proof fn lemma_increments_add(
    program_id: Seq<u8>,
    score_key: Seq<u8>,
    player: Seq<u8>,
    record: Seq<u8>,
    create: Seq<u8>,
    first: Seq<u8>,
    second: Seq<u8>,
)
    requires
        player.len() == 32,
        create.len() >= 1 && create[0] == CREATE,
        first.len() >= INCREMENT_DATA_LEN && first[0] == INCREMENT,
        second.len() >= INCREMENT_DATA_LEN && second[0] == INCREMENT,
        handle(program_id, score_key, player, record, create) is Ok,
        increment_amount(first) <= MAX_SCORE,
        increment_amount(first) + increment_amount(second) <= u64::MAX,
    ensures
        ({
            let a = increment_amount(first);
            let b = increment_amount(second);
            let d0 = new_record(player);
            let d1 = record_bytes(true, player, a);
            let d2 = record_bytes(true, player, (a + b) as u64);
            &&& handle(program_id, score_key, player, record, create) matches Ok(
                ActionModel::Create { data, .. },
            ) && data == d0
            &&& handle(program_id, score_key, player, d0, first) == Ok::<ActionModel, ScoreError>(
                ActionModel::Update { data: d1 },
            )
            &&& stored_score(d1) == a
            &&& handle(program_id, score_key, player, d1, second) == Ok::<ActionModel, ScoreError>(
                ActionModel::Update { data: d2 },
            )
            &&& stored_score(d2) == a + b
        }),
{
    let a = increment_amount(first);
    let b = increment_amount(second);
    lemma_record_bytes_layout(true, player, 0);
    lemma_record_bytes_layout(true, player, a);
    lemma_record_bytes_layout(true, player, (a + b) as u64);
}

/// Increment whose sum would pass the `u64` range fails with `InvalidAccountData`,
/// so the stored score is not touched.
pub proof fn lemma_increment_overflow_rejected(
    program_id: Seq<u8>,
    score_key: Seq<u8>,
    player: Seq<u8>,
    record: Seq<u8>,
    ix: Seq<u8>,
)
    requires
        address_matches(program_id, score_key, player),
        probe_initialized(record),
        ix.len() >= INCREMENT_DATA_LEN && ix[0] == INCREMENT,
        stored_score(record) + increment_amount(ix) > u64::MAX,
    ensures
        handle(program_id, score_key, player, record, ix) == Err::<ActionModel, ScoreError>(
            ScoreError::InvalidAccountData,
        ),
{
}

/// A score account other than the derived one is refused with
/// `InvalidAccountData`, whatever the selector.
pub proof fn lemma_wrong_address_rejected(
    program_id: Seq<u8>,
    score_key: Seq<u8>,
    player: Seq<u8>,
    record: Seq<u8>,
    ix: Seq<u8>,
)
    requires
        score_address_of(program_id, player) is Some,
        !address_matches(program_id, score_key, player),
        ix.len() >= 1,
    ensures
        handle(program_id, score_key, player, record, ix) == Err::<ActionModel, ScoreError>(
            ScoreError::InvalidAccountData,
        ),
{
}

/// Increment on an initialized record with a payload shorter than the selector
/// and an 8-byte amount fails with `InvalidInstructionData`.
pub proof fn lemma_short_increment_rejected(
    program_id: Seq<u8>,
    score_key: Seq<u8>,
    player: Seq<u8>,
    record: Seq<u8>,
    ix: Seq<u8>,
)
    requires
        address_matches(program_id, score_key, player),
        probe_initialized(record),
        1 <= ix.len() < INCREMENT_DATA_LEN && ix[0] == INCREMENT,
    ensures
        handle(program_id, score_key, player, record, ix) == Err::<ActionModel, ScoreError>(
            ScoreError::InvalidInstructionData,
        ),
{
}

} // verus!
