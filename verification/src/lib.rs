//! Decisions a beacon node makes about signed blocks and attester slashings.
//!
//! `publish`, `publish_fn` and `late` decide how a block that a client submits is broadcast and what
//! the client is answered; `reconstruct` and `blinded` do so for blinded blocks. `slashing` decides
//! whether an attester slashing may be included in a block, and whom it slashes. The modules whose
//! names end in `laws` state what holds of these as a whole: `publish_laws` and `reconstruct_laws` by
//! the stages that reports lead to, the others by what the functions take and give.
pub mod attestation;
pub mod blinded;
pub mod blinded_laws;
pub mod block;
pub mod block_laws;
pub mod callback_laws;
pub mod hash;
pub mod hash_laws;
pub mod late;
pub mod outcome;
pub mod payload;
pub mod publication_laws;
pub mod publish;
pub mod publish_fn;
pub mod publish_laws;
pub mod reconstruct;
pub mod reconstruct_laws;
pub mod reconstruction_laws;
pub mod slashing;
pub mod slashing_laws;
