//! Launching a token: the checks on the request and the pool it opens.

use vstd::prelude::*;
use vstd::utf8::encode_utf8;
use crate::consts::{MAX_NAME_LEN, MAX_SYMBOL_LEN, MAX_URI_LEN};
use crate::errors::LaunchError;
use crate::state::AccountId;
use crate::state::pool::LiquidityPool;

verus! {

/// Who launches, which accounts the launch creates, and when.
#[derive(Clone, Copy, Debug, PartialEq, Eq)]
pub struct LaunchContext {
    pub creator: AccountId,
    pub mint: AccountId,
    pub pool: AccountId,
    /// Seconds since the Unix epoch.
    pub timestamp: i64,
}

/// The notice of a launched token.
#[derive(Clone, Debug, PartialEq, Eq)]
pub struct TokenLaunched {
    pub creator: AccountId,
    pub mint: AccountId,
    pub pool: AccountId,
    pub name: String,
    pub symbol: String,
    pub uri: String,
    pub initial_supply: u64,
    pub timestamp: i64,
}

/// An accepted launch: the pool it opens, what is to be minted into the
/// custody of the pool, what the creator is to pay into it, and the notice.
#[derive(Clone, Debug, PartialEq, Eq)]
pub struct LaunchOutcome {
    pub pool: LiquidityPool,
    /// Tokens to mint into the custody of the pool: the whole supply.
    pub tokens_to_mint: u64,
    /// Settlement units that the creator pays into the custody of the pool.
    pub sol_to_deposit: u64,
    pub launched: TokenLaunched,
}

/// The length of a text in bytes, as UTF-8.
pub open spec fn byte_len(text: Seq<char>) -> nat {
    encode_utf8(text).len()
}

/// Why a launch is refused, if it is. The tests are made in this order, and
/// the first that fails names the error.
pub open spec fn launch_failure(
    name: Seq<char>,
    symbol: Seq<char>,
    uri: Seq<char>,
    initial_supply: u64,
    initial_sol_reserve: u64,
) -> Option<LaunchError> {
    if byte_len(name) > MAX_NAME_LEN {
        Some(LaunchError::NameTooLong)
    } else if byte_len(symbol) > MAX_SYMBOL_LEN {
        Some(LaunchError::SymbolTooLong)
    } else if byte_len(uri) > MAX_URI_LEN {
        Some(LaunchError::UriTooLong)
    } else if initial_supply == 0 {
        Some(LaunchError::InvalidSupply)
    } else if initial_sol_reserve == 0 {
        Some(LaunchError::InvalidSolReserve)
    } else {
        None
    }
}

impl LaunchOutcome {
    /// The outcome of the accepted launch with these arguments.
    pub open spec fn launches(
        &self,
        context: LaunchContext,
        name: Seq<char>,
        symbol: Seq<char>,
        uri: Seq<char>,
        initial_supply: u64,
        initial_sol_reserve: u64,
    ) -> bool {
        &&& self.pool == (LiquidityPool {
            total_supply: initial_supply,
            reserve_base: initial_supply,
            reserve_quote: initial_sol_reserve,
        })
        &&& self.tokens_to_mint == initial_supply
        &&& self.sol_to_deposit == initial_sol_reserve
        &&& self.launched.creator == context.creator
        &&& self.launched.mint == context.mint
        &&& self.launched.pool == context.pool
        &&& self.launched.name@ == name
        &&& self.launched.symbol@ == symbol
        &&& self.launched.uri@ == uri
        &&& self.launched.initial_supply == initial_supply
        &&& self.launched.timestamp == context.timestamp
    }
}

/// Checks a launch and opens its pool: the whole of `initial_supply` stands
/// against `initial_sol_reserve`. The precision of the new token does not
/// enter the pool.
///
/// Fails with `NameTooLong`, `SymbolTooLong` or `UriTooLong` when a text is
/// longer than 32, 10 or 200 bytes, with `InvalidSupply` when the supply is
/// zero and with `InvalidSolReserve` when the settlement reserve is zero, in
/// that order.
pub fn launch(
    context: &LaunchContext,
    name: String,
    symbol: String,
    uri: String,
    _decimals: u8,
    initial_supply: u64,
    initial_sol_reserve: u64,
) -> (result: Result<LaunchOutcome, LaunchError>)
    ensures
        match launch_failure(name@, symbol@, uri@, initial_supply, initial_sol_reserve) {
            Some(e) => result matches Err(refusal) && refusal == e,
            None => result matches Ok(outcome) && outcome.launches(
                *context,
                name@,
                symbol@,
                uri@,
                initial_supply,
                initial_sol_reserve,
            ) && outcome.pool.wf(),
        },
{
    if name.as_str().as_bytes().len() > MAX_NAME_LEN {
        return Err(LaunchError::NameTooLong);
    }
    if symbol.as_str().as_bytes().len() > MAX_SYMBOL_LEN {
        return Err(LaunchError::SymbolTooLong);
    }
    if uri.as_str().as_bytes().len() > MAX_URI_LEN {
        return Err(LaunchError::UriTooLong);
    }
    if initial_supply == 0 {
        return Err(LaunchError::InvalidSupply);
    }
    if initial_sol_reserve == 0 {
        return Err(LaunchError::InvalidSolReserve);
    }
    let pool: LiquidityPool = LiquidityPool::new(initial_supply, initial_sol_reserve);
    let launched = TokenLaunched {
        creator: context.creator,
        mint: context.mint,
        pool: context.pool,
        name,
        symbol,
        uri,
        initial_supply,
        timestamp: context.timestamp,
    };
    Ok(
        LaunchOutcome {
            pool,
            tokens_to_mint: initial_supply,
            sol_to_deposit: initial_sol_reserve,
            launched,
        },
    )
}

} // verus!
