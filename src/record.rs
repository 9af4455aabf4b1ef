use vstd::bytes::{spec_u64_to_le_bytes, spec_u64_from_le_bytes, u64_to_le_bytes, u64_from_le_bytes, lemma_auto_spec_u64_to_from_le_bytes};
use vstd::prelude::*;
use vstd::slice::slice_subrange;

verus! {

/// Length in bytes of a player identity.
pub const KEY_LEN: usize = 32;

/// Byte offset of the score field in a stored record.
pub const SCORE_OFFSET: usize = 33;

/// Length in bytes of a stored record: flag, player identity, little-endian score.
pub const RECORD_LEN: usize = 41;

/// The record kept for each player.
#[derive(Clone, Copy, Debug)]
pub struct ScoreAccount {
    pub is_initialized: bool,
    pub player: [u8; 32],
    pub score: u64,
}

/// The stored form of a record: byte 0 the flag, bytes 1..33 the player, bytes 33..41 the score.
pub open spec fn record_bytes(is_initialized: bool, player: Seq<u8>, score: u64) -> Seq<u8> {
    seq![if is_initialized { 1u8 } else { 0u8 }] + player + spec_u64_to_le_bytes(score)
}

/// Bytes that decode to a record: the right length and a flag of 0 or 1.
pub open spec fn is_record_bytes(data: Seq<u8>) -> bool {
    data.len() == RECORD_LEN && (data[0] == 0 || data[0] == 1)
}

/// The probe that tells an initialized record from anything else.
pub open spec fn probe_initialized(data: Seq<u8>) -> bool {
    data.len() == RECORD_LEN && data[0] == 1
}

/// The score held in bytes 33..41 of a stored record.
pub open spec fn stored_score(data: Seq<u8>) -> u64 {
    spec_u64_from_le_bytes(data.subrange(SCORE_OFFSET as int, RECORD_LEN as int))
}

/// A stored record with its score field replaced.
pub open spec fn with_score(data: Seq<u8>, score: u64) -> Seq<u8> {
    data.subrange(0, SCORE_OFFSET as int) + spec_u64_to_le_bytes(score)
}

impl ScoreAccount {
    /// Length in bytes of the stored form.
    pub const LEN: usize = RECORD_LEN;

    /// The stored form of this record.
    pub open spec fn spec_pack(self) -> Seq<u8> {
        record_bytes(self.is_initialized, self.player@, self.score)
    }

    pub fn is_initialized(&self) -> (r: bool)
        ensures
            r == self.is_initialized,
    {
        self.is_initialized
    }

    /// Encodes the record in its 41-byte stored form.
    pub fn pack(&self) -> (r: Vec<u8>)
        ensures
            r@ == self.spec_pack(),
            r@.len() == Self::LEN,
    {
        proof {
            lemma_auto_spec_u64_to_from_le_bytes();
        }
        let mut r: Vec<u8> = Vec::new();
        r.push(if self.is_initialized { 1u8 } else { 0u8 });
        let mut i: usize = 0;
        while i < KEY_LEN
            invariant
                i <= KEY_LEN,
                r@ == seq![if self.is_initialized { 1u8 } else { 0u8 }] + self.player@.subrange(0, i as int),
            decreases KEY_LEN - i,
        {
            r.push(self.player[i]);
            i = i + 1;
        }
        assert(self.player@.subrange(0, KEY_LEN as int) =~= self.player@);
        let mut s = u64_to_le_bytes(self.score);
        r.append(&mut s);
        r
    }

    /// Decodes a stored record; `None` unless the bytes are 41 long with a flag of 0 or 1.
    pub fn unpack(data: &[u8]) -> (r: Option<ScoreAccount>)
        ensures
            r is Some <==> is_record_bytes(data@),
            r matches Some(a) ==> a.spec_pack() == data@,
    {
        if data.len() != RECORD_LEN || (data[0] != 0 && data[0] != 1) {
            return None;
        }
        let mut player: [u8; 32] = [0u8; 32];
        let mut i: usize = 0;
        while i < KEY_LEN
            invariant
                i <= KEY_LEN,
                data@.len() == RECORD_LEN,
                forall|j: int| 0 <= j < i ==> player@[j] == data@[j + 1],
            decreases KEY_LEN - i,
        {
            player[i] = data[i + 1];
            i = i + 1;
        }
        let score = u64_from_le_bytes(slice_subrange(data, SCORE_OFFSET, RECORD_LEN));
        let a = ScoreAccount { is_initialized: data[0] == 1, player, score };
        proof {
            lemma_auto_spec_u64_to_from_le_bytes();
            assert(data@.subrange(1, 33) =~= player@);
            assert(data@ =~= a.spec_pack());
        }
        Some(a)
    }
}

} // verus!
