//! A two-party hash time-locked swap engine.
//!
//! A sender locks a payment against the hash of a secret and a deadline. The
//! counterparty claims it by revealing the secret; the sender can take it back
//! while the refund window is open. The engine keeps the swap records, checks
//! every guard and says which transfer the host's ledger has to perform; it
//! never moves funds itself.
//!
//! - `hashing`: digests under the three supported algorithms.
//! - `commitment`: the digest that binds parties, proof and amount.
//! - `tables`: the storage maps, with what is taken on trust about them.
//! - `registry`: swap identifiers and the slots they are given.
//! - `record`: the swap record and its states.
//! - `model`: the engine as a mathematical state machine.
//! - `swaps`: the operations, proved against the model.
//! - `laws`: what holds of the engine as a whole.

pub mod commitment;
pub mod errors;
pub mod hashing;
pub mod laws;
pub mod model;
pub mod record;
pub mod registry;
pub mod swaps;
pub mod tables;

pub use commitment::{commit, AccountId, Balance, HashedProof, PaymentHash};
pub use errors::SwapError;
pub use hashing::{get_hash_algo, hash_using, Secret, SecretHashAlgo};
pub use model::TransferOutcome;
pub use record::{get_payment_state, LockTime, PaymentState, SwapRecord};
pub use registry::SwapRegistry;
pub use swaps::{AtomicSwaps, PaymentClaimed, PaymentSent, SenderRefunded, Transfer};
pub use tables::SwapId;
