use pump::errors::CustomError;
use pump::state::position::UserPosition;

#[test]
fn new_position_is_empty() {
    let position = UserPosition::new();
    assert_eq!(position.total_tokens, 0);
    assert_eq!(position.total_sol, 0);
}

#[test]
fn record_buy_adds_to_both_totals() {
    let mut position = UserPosition::new();
    assert_eq!(position.record_buy(90_081, 10_000), Ok(()));
    assert_eq!(position, UserPosition { total_tokens: 90_081, total_sol: 10_000 });
    assert_eq!(position.record_buy(19, 5), Ok(()));
    assert_eq!(position, UserPosition { total_tokens: 90_100, total_sol: 10_005 });
}

#[test]
fn record_buy_refuses_a_token_total_beyond_64_bits() {
    let mut position = UserPosition { total_tokens: u64::MAX - 1, total_sol: 7 };
    assert_eq!(position.record_buy(2, 1), Err(CustomError::MathOverflow));
    assert_eq!(position, UserPosition { total_tokens: u64::MAX - 1, total_sol: 7 });
}

#[test]
fn record_buy_refuses_a_cost_total_beyond_64_bits() {
    let mut position = UserPosition { total_tokens: 7, total_sol: u64::MAX };
    assert_eq!(position.record_buy(1, 1), Err(CustomError::MathOverflow));
    assert_eq!(position, UserPosition { total_tokens: 7, total_sol: u64::MAX });
}

#[test]
fn record_buy_fills_the_range_of_64_bits() {
    let mut position = UserPosition { total_tokens: u64::MAX - 1, total_sol: u64::MAX - 2 };
    assert_eq!(position.record_buy(1, 2), Ok(()));
    assert_eq!(position, UserPosition { total_tokens: u64::MAX, total_sol: u64::MAX });
}

#[test]
fn cost_basis_is_the_share_of_the_tokens_sold() {
    let position = UserPosition { total_tokens: 90_081, total_sol: 10_000 };
    // 10_000 * 45_000 / 90_081 = 4_995.5...
    assert_eq!(position.calculate_cost_basis_for_sale(45_000), Ok(4_995));
    assert_eq!(position.calculate_cost_basis_for_sale(90_081), Ok(10_000));
    assert_eq!(position.calculate_cost_basis_for_sale(0), Ok(0));
    assert_eq!(position.calculate_cost_basis_for_sale(1), Ok(0));
}

#[test]
fn cost_basis_uses_a_wide_product() {
    let position = UserPosition { total_tokens: u64::MAX, total_sol: u64::MAX };
    assert_eq!(position.calculate_cost_basis_for_sale(u64::MAX - 1), Ok(u64::MAX - 1));
}

#[test]
fn cost_basis_of_an_empty_position_is_refused() {
    let position = UserPosition::new();
    assert_eq!(
        position.calculate_cost_basis_for_sale(1),
        Err(CustomError::PositionNotInitialized)
    );
    assert_eq!(
        position.calculate_cost_basis_for_sale(0),
        Err(CustomError::PositionNotInitialized)
    );
}

#[test]
fn cost_basis_of_more_than_is_held_is_refused() {
    let position = UserPosition { total_tokens: 100, total_sol: 50 };
    assert_eq!(
        position.calculate_cost_basis_for_sale(101),
        Err(CustomError::InsufficientPosition)
    );
}

#[test]
fn record_sell_takes_from_both_totals() {
    let mut position = UserPosition { total_tokens: 100, total_sol: 50 };
    assert_eq!(position.record_sell(40, 20), Ok(()));
    assert_eq!(position, UserPosition { total_tokens: 60, total_sol: 30 });
}

#[test]
fn record_sell_of_more_than_is_held_is_refused() {
    let mut position = UserPosition { total_tokens: 100, total_sol: 50 };
    assert_eq!(position.record_sell(101, 50), Err(CustomError::InsufficientPosition));
    assert_eq!(position, UserPosition { total_tokens: 100, total_sol: 50 });
}

#[test]
fn selling_everything_empties_the_position() {
    let mut position = UserPosition { total_tokens: 90_081, total_sol: 10_000 };
    let basis: u64 = position.calculate_cost_basis_for_sale(90_081).unwrap();
    assert_eq!(position.record_sell(90_081, basis), Ok(()));
    assert_eq!(position, UserPosition { total_tokens: 0, total_sol: 0 });
}

#[test]
fn a_sale_keeps_the_average_price() {
    // 3 settlement units a token, before and after.
    let mut position = UserPosition { total_tokens: 1_000, total_sol: 3_000 };
    let basis: u64 = position.calculate_cost_basis_for_sale(250).unwrap();
    assert_eq!(basis, 750);
    assert_eq!(position.record_sell(250, basis), Ok(()));
    assert_eq!(position, UserPosition { total_tokens: 750, total_sol: 2_250 });
    assert_eq!(position.total_sol / position.total_tokens, 3);
    assert_eq!(position.total_sol % position.total_tokens, 0);
}

#[test]
fn a_sale_rounds_the_cost_that_stays_up() {
    // Half of a cost of 1 is rounded down to 0, so the whole cost stays.
    let mut position = UserPosition { total_tokens: 2, total_sol: 1 };
    let basis: u64 = position.calculate_cost_basis_for_sale(1).unwrap();
    assert_eq!(basis, 0);
    assert_eq!(position.record_sell(1, basis), Ok(()));
    assert_eq!(position, UserPosition { total_tokens: 1, total_sol: 1 });
}

#[test]
fn buys_at_two_prices_are_averaged() {
    let mut position = UserPosition::new();
    assert_eq!(position.record_buy(100, 100), Ok(()));
    assert_eq!(position.record_buy(100, 300), Ok(()));
    // 200 tokens for 400: 2 a token.
    assert_eq!(position.calculate_cost_basis_for_sale(50), Ok(100));
}
