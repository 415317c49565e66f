//! Cross-chain bridge ledger: validator registry, ghost-transfer state machine,
//! pooled liquidity accounting and the instruction dispatcher over them.

pub mod error;
pub mod registry;
pub mod ghost;
pub mod pool;
pub mod processor;

pub use error::{GhostError, ProgramError};
pub use ghost::{GhostAccount, GhostState};
pub use pool::{LPPosition, LiquidityPool, PaymentIntent};
pub use processor::{process_instruction, AccountData, AccountInfo, GhostInstruction, Processor};
pub use registry::{key_eq, zero_key, ProgramConfig, Pubkey};
