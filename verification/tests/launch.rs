use pump::errors::LaunchError;
use pump::instructions::launch::{launch, LaunchContext};
use pump::state::pool::LiquidityPool;
use pump::state::AccountId;

fn context() -> LaunchContext {
    LaunchContext {
        creator: AccountId { bytes: [1; 32] },
        mint: AccountId { bytes: [2; 32] },
        pool: AccountId { bytes: [3; 32] },
        timestamp: 1_700_000_000,
    }
}

fn text(len: usize) -> String {
    "a".repeat(len)
}

#[test]
fn launch_opens_the_pool_and_reports_it() {
    let outcome = launch(
        &context(),
        "Paper".to_string(),
        "PPR".to_string(),
        "https://example.org/paper.json".to_string(),
        6,
        1_000_000,
        100_000,
    )
    .unwrap();
    assert_eq!(
        outcome.pool,
        LiquidityPool { total_supply: 1_000_000, reserve_base: 1_000_000, reserve_quote: 100_000 }
    );
    assert_eq!(outcome.tokens_to_mint, 1_000_000);
    assert_eq!(outcome.sol_to_deposit, 100_000);
    assert_eq!(outcome.launched.creator, context().creator);
    assert_eq!(outcome.launched.mint, context().mint);
    assert_eq!(outcome.launched.pool, context().pool);
    assert_eq!(outcome.launched.name, "Paper");
    assert_eq!(outcome.launched.symbol, "PPR");
    assert_eq!(outcome.launched.uri, "https://example.org/paper.json");
    assert_eq!(outcome.launched.initial_supply, 1_000_000);
    assert_eq!(outcome.launched.timestamp, 1_700_000_000);
}

#[test]
fn launch_accepts_texts_of_the_greatest_length() {
    let outcome = launch(&context(), text(32), text(10), text(200), 9, 1, 1).unwrap();
    assert_eq!(outcome.launched.name.len(), 32);
    assert_eq!(outcome.launched.symbol.len(), 10);
    assert_eq!(outcome.launched.uri.len(), 200);
    assert_eq!(outcome.pool, LiquidityPool { total_supply: 1, reserve_base: 1, reserve_quote: 1 });
}

#[test]
fn launch_accepts_empty_texts() {
    assert!(launch(&context(), text(0), text(0), text(0), 9, 1, 1).is_ok());
}

#[test]
fn launch_refuses_a_long_name() {
    assert_eq!(
        launch(&context(), text(33), text(10), text(200), 6, 1, 1),
        Err(LaunchError::NameTooLong)
    );
}

#[test]
fn launch_refuses_a_long_symbol() {
    assert_eq!(
        launch(&context(), text(32), text(11), text(200), 6, 1, 1),
        Err(LaunchError::SymbolTooLong)
    );
}

#[test]
fn launch_refuses_a_long_uri() {
    assert_eq!(
        launch(&context(), text(32), text(10), text(201), 6, 1, 1),
        Err(LaunchError::UriTooLong)
    );
}

#[test]
fn launch_refuses_a_supply_of_zero() {
    assert_eq!(
        launch(&context(), text(5), text(3), text(20), 6, 0, 1),
        Err(LaunchError::InvalidSupply)
    );
}

#[test]
fn launch_refuses_a_reserve_of_zero() {
    assert_eq!(
        launch(&context(), text(5), text(3), text(20), 6, 1, 0),
        Err(LaunchError::InvalidSolReserve)
    );
}

#[test]
fn launch_names_the_first_fault() {
    assert_eq!(
        launch(&context(), text(33), text(11), text(201), 6, 0, 0),
        Err(LaunchError::NameTooLong)
    );
    assert_eq!(
        launch(&context(), text(1), text(11), text(201), 6, 0, 0),
        Err(LaunchError::SymbolTooLong)
    );
    assert_eq!(
        launch(&context(), text(1), text(1), text(201), 6, 0, 0),
        Err(LaunchError::UriTooLong)
    );
    assert_eq!(
        launch(&context(), text(1), text(1), text(1), 6, 0, 0),
        Err(LaunchError::InvalidSupply)
    );
}

#[test]
fn launch_counts_bytes_not_characters() {
    // Eleven characters of three bytes each: 33 bytes.
    let name: String = "\u{20ac}".repeat(11);
    assert_eq!(name.chars().count(), 11);
    assert_eq!(
        launch(&context(), name, text(3), text(20), 6, 1, 1),
        Err(LaunchError::NameTooLong)
    );
    // Ten of them are 30 bytes, which fits.
    let shorter: String = "\u{20ac}".repeat(10);
    assert!(launch(&context(), shorter, text(3), text(20), 6, 1, 1).is_ok());
}
