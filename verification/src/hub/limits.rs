//! The hub's built-in limits and defaults.
use vstd::prelude::*;

verus! {

/// Room rate used when none is configured, in nano-XOR per minute.
pub const DEFAULT_XOR_RATE_PER_MINUTE_NANO: u64 = 1_000_000;

/// Longest accepted encrypted ciphertext, in hex digits.
pub const MAX_ENCRYPTED_CIPHERTEXT_HEX_LEN: usize = 64 * 1024;

/// Shortest accepted encrypted ciphertext, in hex digits.
pub const MIN_ENCRYPTED_CIPHERTEXT_HEX_LEN: usize = 32;

/// Most recipients one encrypted control frame may address.
pub const MAX_ENCRYPTED_RECIPIENTS_PER_FRAME: usize = 256;

/// Default cap on anonymous participants per room.
pub const DEFAULT_ANON_MAX_PARTICIPANTS: usize = 256;

/// Anonymous caps above this draw a warning.
pub const WARN_ANON_MAX_PARTICIPANTS_THRESHOLD: usize = 1024;

/// Escrow-proof stale windows above this many seconds draw a warning.
pub const WARN_ANON_ESCROW_PROOF_STALE_SECS_THRESHOLD: u64 = 3600;

/// Default cap on joined participants per room.
pub const DEFAULT_MAX_PARTICIPANTS: u32 = 500;

/// Shortest interval between two backpressure notices to moderators.
pub const BACKPRESSURE_NOTICE_MIN_INTERVAL_MS: u64 = 5_000;

} // verus!
