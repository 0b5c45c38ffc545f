//! The operations that the exchange offers.

pub mod initialize;
pub mod launch;
pub mod swap;
pub mod update_config;

pub use self::initialize::initialize;
pub use self::launch::{launch, LaunchContext, LaunchOutcome, TokenLaunched};
pub use self::swap::{
    quote_swap, settlement_transfers, swap, Asset, PaperhandTaxApplied, Party, PositionUpdated,
    Settlement, SwapOutcome, TradeContext, TradeExecuted, Transfer,
};
pub use self::update_config::update_configuration;
