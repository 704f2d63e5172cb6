//! Verified core of a branch-report ingestion service.
//!
//! Remote clients upload per-branch sales reports over a raw byte stream:
//! a 4-byte big-endian length, that many identifier bytes, then a base64
//! payload optionally wrapped in `~` delimiters. The modules here hold the
//! framing rules, the per-connection protocol state machine, the path
//! construction, and a model of the persisted store, each with its contract.

pub mod codec;
pub mod framing;
pub mod paths;
pub mod protocol;
pub mod storage;
