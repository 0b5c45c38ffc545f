//! The records that the engine reads and updates.

use vstd::prelude::*;

pub mod config;
pub mod pool;
pub mod position;

pub use self::config::CurveConfiguration;
pub use self::pool::{LiquidityPool, Side};
pub use self::position::UserPosition;

verus! {

/// The identifier of an account: 32 bytes that the engine carries and never
/// inspects.
#[derive(Clone, Copy, Debug, PartialEq, Eq, Hash)]
pub struct AccountId {
    pub bytes: [u8; 32],
}

} // verus!
