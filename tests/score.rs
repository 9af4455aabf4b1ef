use score_program::{
    find_score_address, keys_equal, process_instruction, process_with_address, Action, ScoreAccount,
    ScoreError, CREATE, INCREMENT, MAX_SCORE, RECORD_LEN, SCORE_SEED,
};
use solana_program::pubkey::Pubkey;

const PROGRAM: [u8; 32] = [7u8; 32];
const PLAYER: [u8; 32] = [42u8; 32];

fn score_key() -> [u8; 32] {
    find_score_address(&PROGRAM, &PLAYER).expect("address").0
}

fn increment_ix(amount: u64) -> Vec<u8> {
    let mut ix = vec![INCREMENT];
    ix.extend_from_slice(&amount.to_le_bytes());
    ix
}

/// Runs one instruction against `record`, storing what an accepted one writes.
fn run(record: &mut Vec<u8>, ix: &[u8]) -> Result<(), ScoreError> {
    match process_instruction(&PROGRAM, &score_key(), &PLAYER, record, ix)? {
        Action::Create { data, .. } => *record = data,
        Action::Update { data } => *record = data,
    }
    Ok(())
}

fn stored(record: &[u8]) -> ScoreAccount {
    ScoreAccount::unpack(record).expect("record")
}

#[test]
fn derived_address_matches_ledger_derivation() {
    let (address, bump) = find_score_address(&PROGRAM, &PLAYER).expect("address");
    let (expected, expected_bump) = Pubkey::find_program_address(
        &[&SCORE_SEED[..], &PLAYER[..]],
        &Pubkey::new_from_array(PROGRAM),
    );
    assert_eq!(address, expected.to_bytes());
    assert_eq!(bump, expected_bump);
    assert_ne!(address, PLAYER);
    assert_ne!(address, PROGRAM);
}

#[test]
fn derived_address_is_deterministic() {
    assert_eq!(find_score_address(&PROGRAM, &PLAYER), find_score_address(&PROGRAM, &PLAYER));
    assert_ne!(find_score_address(&PROGRAM, &PLAYER), find_score_address(&PROGRAM, &[1u8; 32]));
}

#[test]
fn seed_is_score_tag() {
    assert_eq!(&SCORE_SEED[..], b"score");
}

#[test]
fn keys_compare_bytewise() {
    let a = [3u8; 32];
    let mut b = a;
    assert!(keys_equal(&a, &b));
    b[31] = 4;
    assert!(!keys_equal(&a, &b));
}

#[test]
fn create_writes_fresh_record() {
    let mut record = Vec::new();
    assert_eq!(run(&mut record, &[CREATE]), Ok(()));
    assert_eq!(record.len(), RECORD_LEN);
    assert_eq!(record[0], 1);
    assert_eq!(&record[1..33], &PLAYER[..]);
    assert_eq!(&record[33..41], &[0u8; 8]);
    let a = stored(&record);
    assert!(a.is_initialized());
    assert_eq!(a.player, PLAYER);
    assert_eq!(a.score, 0);
}

#[test]
fn create_returns_bump_of_derivation() {
    let (_, bump) = find_score_address(&PROGRAM, &PLAYER).expect("address");
    match process_instruction(&PROGRAM, &score_key(), &PLAYER, &[], &[CREATE]) {
        Ok(Action::Create { bump: b, data }) => {
            assert_eq!(b, bump);
            assert_eq!(data.len(), RECORD_LEN);
        }
        other => panic!("unexpected {:?}", other),
    }
}

#[test]
fn second_create_fails_and_keeps_record() {
    let mut record = Vec::new();
    run(&mut record, &[CREATE]).unwrap();
    run(&mut record, &increment_ix(5)).unwrap();
    let before = record.clone();
    assert_eq!(run(&mut record, &[CREATE]), Err(ScoreError::AccountAlreadyInitialized));
    assert_eq!(record, before);
}

#[test]
fn increment_before_create_fails() {
    let mut record = Vec::new();
    assert_eq!(run(&mut record, &increment_ix(1)), Err(ScoreError::UninitializedAccount));
    let mut zeroed = vec![0u8; RECORD_LEN];
    assert_eq!(run(&mut zeroed, &increment_ix(1)), Err(ScoreError::UninitializedAccount));
}

#[test]
fn probe_needs_exact_length() {
    let mut record = vec![1u8; RECORD_LEN + 1];
    assert_eq!(run(&mut record, &increment_ix(1)), Err(ScoreError::UninitializedAccount));
    let mut record = vec![1u8; RECORD_LEN - 1];
    assert_eq!(run(&mut record, &[CREATE]), Ok(()));
}

#[test]
fn increments_add_up() {
    let mut record = Vec::new();
    run(&mut record, &[CREATE]).unwrap();
    run(&mut record, &increment_ix(17)).unwrap();
    assert_eq!(stored(&record).score, 17);
    run(&mut record, &increment_ix(25)).unwrap();
    assert_eq!(stored(&record).score, 42);
    assert_eq!(stored(&record).player, PLAYER);
    assert!(stored(&record).is_initialized);
}

#[test]
fn increment_reads_little_endian_amount() {
    let mut record = Vec::new();
    run(&mut record, &[CREATE]).unwrap();
    run(&mut record, &[INCREMENT, 0x34, 0x12, 0, 0, 0, 0, 0, 0, 0xff]).unwrap();
    assert_eq!(stored(&record).score, 0x1234);
    assert_eq!(&record[33..41], &[0x34, 0x12, 0, 0, 0, 0, 0, 0]);
}

#[test]
fn scenario_ceiling_checked_before_increment() {
    let mut record = Vec::new();
    run(&mut record, &[CREATE]).unwrap();
    assert_eq!(stored(&record).score, 0);
    run(&mut record, &increment_ix(500)).unwrap();
    assert_eq!(stored(&record).score, 500);
    run(&mut record, &increment_ix(999_999)).unwrap();
    assert_eq!(stored(&record).score, 1_000_499);
    let before = record.clone();
    assert_eq!(run(&mut record, &increment_ix(1)), Err(ScoreError::InvalidAccountData));
    assert_eq!(record, before);
}

#[test]
fn score_at_ceiling_may_still_grow() {
    let mut record = ScoreAccount { is_initialized: true, player: PLAYER, score: MAX_SCORE }.pack();
    run(&mut record, &increment_ix(1)).unwrap();
    assert_eq!(stored(&record).score, MAX_SCORE + 1);
}

#[test]
fn overflowing_increment_fails() {
    let mut record = Vec::new();
    run(&mut record, &[CREATE]).unwrap();
    run(&mut record, &increment_ix(10)).unwrap();
    let before = record.clone();
    assert_eq!(run(&mut record, &increment_ix(u64::MAX - 9)), Err(ScoreError::InvalidAccountData));
    assert_eq!(record, before);
    run(&mut record, &increment_ix(u64::MAX - 10)).unwrap();
    assert_eq!(stored(&record).score, u64::MAX);
}

#[test]
fn wrong_score_account_rejected() {
    let wrong = [9u8; 32];
    let fresh: Vec<u8> = Vec::new();
    let created = ScoreAccount { is_initialized: true, player: PLAYER, score: 3 }.pack();
    for ix in [vec![CREATE], increment_ix(1), vec![7u8]] {
        assert_eq!(
            process_instruction(&PROGRAM, &wrong, &PLAYER, &fresh, &ix).unwrap_err(),
            ScoreError::InvalidAccountData
        );
        assert_eq!(
            process_instruction(&PROGRAM, &wrong, &PLAYER, &created, &ix).unwrap_err(),
            ScoreError::InvalidAccountData
        );
    }
}

#[test]
fn short_increment_payload_rejected() {
    let mut record = Vec::new();
    run(&mut record, &[CREATE]).unwrap();
    assert_eq!(run(&mut record, &[INCREMENT]), Err(ScoreError::InvalidInstructionData));
    assert_eq!(run(&mut record, &[INCREMENT, 1, 0, 0, 0, 0, 0, 0]), Err(ScoreError::InvalidInstructionData));
    assert_eq!(stored(&record).score, 0);
}

#[test]
fn unknown_selector_rejected() {
    let mut record = Vec::new();
    assert_eq!(run(&mut record, &[2]), Err(ScoreError::InvalidInstructionData));
    assert_eq!(run(&mut record, &[255, 0, 0, 0, 0, 0, 0, 0, 0]), Err(ScoreError::InvalidInstructionData));
}

#[test]
fn missing_derivation_gives_invalid_seeds() {
    let key = score_key();
    assert_eq!(
        process_with_address(None, &key, &PLAYER, &[], &[CREATE]).unwrap_err(),
        ScoreError::InvalidSeeds
    );
}

#[test]
fn process_with_address_uses_given_derivation() {
    let key = [5u8; 32];
    match process_with_address(Some((key, 200)), &key, &PLAYER, &[], &[CREATE]) {
        Ok(Action::Create { bump, .. }) => assert_eq!(bump, 200),
        other => panic!("unexpected {:?}", other),
    }
}

#[test]
fn pack_layout() {
    let a = ScoreAccount { is_initialized: true, player: [2u8; 32], score: 0x0102030405060708 };
    let bytes = a.pack();
    assert_eq!(bytes.len(), ScoreAccount::LEN);
    assert_eq!(bytes[0], 1);
    assert_eq!(&bytes[1..33], &[2u8; 32]);
    assert_eq!(&bytes[33..41], &[8, 7, 6, 5, 4, 3, 2, 1]);
    let b = ScoreAccount { is_initialized: false, player: [2u8; 32], score: 0 };
    assert_eq!(b.pack()[0], 0);
}

#[test]
fn unpack_round_trip() {
    let a = ScoreAccount { is_initialized: false, player: [9u8; 32], score: 77 };
    let back = ScoreAccount::unpack(&a.pack()).unwrap();
    assert!(!back.is_initialized());
    assert_eq!(back.player, [9u8; 32]);
    assert_eq!(back.score, 77);
}

#[test]
fn unpack_rejects_malformed() {
    assert!(ScoreAccount::unpack(&[]).is_none());
    assert!(ScoreAccount::unpack(&[1u8; 40]).is_none());
    let mut bytes = ScoreAccount { is_initialized: true, player: PLAYER, score: 1 }.pack();
    bytes[0] = 2;
    assert!(ScoreAccount::unpack(&bytes).is_none());
}
