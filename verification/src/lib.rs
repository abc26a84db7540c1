//! A generic forked-EVM executor: multi-fork RPC forking, typed calls, call tracing and historical
//! transaction replay over revm and foundry-fork-db.

pub mod create;
pub mod env;
pub mod error;
pub mod evm;
pub mod fork;
pub mod forker;
pub mod laws;
pub mod primitives;
pub mod promises;
pub mod replay;
pub mod result;
pub mod text;
pub mod typed;

pub use env::Env;
pub use error::{ForkCallError, ReplayTransactionError};
pub use fork::{ForkId, NewForkedEvm};
pub use forker::Forker;
pub use result::RawCallResult;
pub use typed::ForkTypedReturn;
