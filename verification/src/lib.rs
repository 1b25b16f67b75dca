//! A swap-and-commission protocol, without its ledger.
//!
//! A caller exchanges one asset for another through an external router. The protocol
//! withholds one percent of the input, has the router convert it into a settlement asset,
//! and pays the proceeds to two beneficiaries named in a registry.
//!
//! The library decides and computes; it moves nothing itself. `registry` holds the registry
//! and its one-time initialization, `commission` the arithmetic, `swap` the orchestrator:
//! the validation of a request and the states a swap passes through, each of which names
//! the transfers and router calls that the ledger is to carry out.

pub mod accounts;
pub mod commission;
pub mod error;
pub mod identity;
pub mod instruction;
pub mod registry;
pub mod swap;

pub use accounts::{SwapTokens, TokenAccount};
pub use error::{ErrorCode, InitializeError, SwapError};
pub use identity::{Identity, JUPITER_PROGRAM_ID, USDC_MINT};
pub use registry::{initialize, Initialize, SwapAccount};
pub use swap::swap_tokens;
