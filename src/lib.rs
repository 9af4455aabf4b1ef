//! A per-player score counter kept in a 41-byte record at a program-derived address.
pub mod address;
pub mod lemmas;
pub mod processor;
pub mod record;

pub use address::{find_score_address, keys_equal, SCORE_SEED};
pub use processor::{process_instruction, process_with_address, Action, ScoreError, CREATE, INCREMENT, MAX_SCORE};
pub use record::{ScoreAccount, RECORD_LEN};
