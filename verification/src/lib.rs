//! An authorization-gated swap gateway.
//!
//! A trade is forwarded to an exchange only after a BLS signature over its
//! canonical message has been verified, its nonce matches the vault's
//! counter, and the post-launch cooldown has elapsed. Bookkeeping is
//! committed only when every step has succeeded.
//!
//! - [`encoding`]: the canonical message and its little-endian integers.
//! - [`hash`], [`curve`]: SHA-256 and the BLS12-381 operations, computed by
//!   outside crates and trusted.
//! - [`bls`]: hashing a message to a point, and the verification equation.
//! - [`state`]: the persistent records, the replay guard, the cooldown gate.
//! - [`fee`]: the fee on a buy and the size class of a trade.
//! - [`gateway`]: the swap: screening, the exchange, settlement.

pub mod bls;
pub mod curve;
pub mod encoding;
pub mod fee;
pub mod gateway;
pub mod hash;
pub mod state;

pub use bls::{hash_to_curve, pairing_check, verify_bls_sig};
pub use encoding::{canonical_message, u64_le_bytes};
pub use fee::{classify, net_amount, Classification};
pub use gateway::{
    authorize, screen, settle, swap, AuthorizationRequest, DarkSwap, Exchange, ExchangeError,
    ExchangeOrder, PendingSwap, SwapContext,
};
pub use state::{ErrorCode, GlobalState, UserState, Vault};
