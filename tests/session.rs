use dank_bytes::drugs::Drug;
use dank_bytes::game::{Game, GameLength, STARTING_CASH, STARTING_DEBT};
use dank_bytes::locations::Location;

fn started() -> Game {
    let mut g = Game::new();
    g.start(GameLength::Short);
    g
}

#[test]
fn new_game_defaults() {
    let g = Game::new();
    assert!(g.init);
    assert!(!g.game_over);
    assert_eq!(g.cash, 2000);
    assert_eq!(g.debt, 2000);
    assert_eq!(g.days_left, 30);
    assert_eq!(g.location, Location::Fairfield);
    assert_eq!(g.prices, g.last_prices);
    assert!(g.event.is_none());
    assert!(!g.inventory.has_items());
}

#[test]
fn start_sets_day_budget() {
    let mut g = Game::new();
    g.start(GameLength::Medium);
    assert!(!g.init);
    assert_eq!(g.game_length, GameLength::Medium);
    assert_eq!(g.days_left, 180);
    g.start(GameLength::Long);
    assert_eq!(g.days_left, 180);
    assert_eq!(GameLength::Long.days(), 360);
}

#[test]
fn buy_then_sell_round_trip() {
    let mut g = started();
    g.prices[Drug::Weed.as_index()] = 50;
    g.buy(Drug::Weed, 10);
    assert_eq!(g.cash, 1500);
    assert_eq!(g.inventory.get_amount(Drug::Weed), Some(10));
    assert_eq!(g.inventory.get_cost(Drug::Weed), Some(50));
    g.sell(Drug::Weed, 10);
    assert_eq!(g.cash, 2000);
    assert_eq!(g.inventory.get_amount(Drug::Weed), Some(0));
    assert_eq!(g.inventory.get_cost(Drug::Weed), Some(0));
}

#[test]
fn buy_without_enough_cash_does_nothing() {
    let mut g = started();
    g.prices[Drug::Heroin.as_index()] = 300;
    g.buy(Drug::Heroin, 7);
    assert_eq!(g.cash, 2000);
    assert_eq!(g.inventory.get_amount(Drug::Heroin), None);
    g.buy(Drug::Heroin, 0);
    assert_eq!(g.cash, 2000);
    g.buy(Drug::Heroin, u32::MAX);
    assert_eq!(g.cash, 2000);
}

#[test]
fn sell_more_than_held_does_nothing() {
    let mut g = started();
    g.prices[Drug::Meth.as_index()] = 100;
    g.buy(Drug::Meth, 2);
    g.sell(Drug::Meth, 3);
    assert_eq!(g.cash, 1800);
    assert_eq!(g.inventory.get_amount(Drug::Meth), Some(2));
    g.sell(Drug::Meth, 1);
    assert_eq!(g.cash, 1900);
    assert_eq!(g.inventory.get_cost(Drug::Meth), Some(100));
}

#[test]
fn repay_more_than_debt_clears_it() {
    let mut g = started();
    g.cash = 5000;
    g.repay_amt = 3000;
    g.repay_debt(3000);
    assert_eq!(g.debt, 0);
    assert_eq!(g.cash, 3000);
    assert_eq!(g.repay_amt, 0);
}

#[test]
fn repay_beyond_cash_does_nothing() {
    let mut g = started();
    g.cash = 100;
    g.repay_amt = 500;
    g.repay_debt(500);
    assert_eq!(g.debt, 2000);
    assert_eq!(g.cash, 100);
    assert_eq!(g.repay_amt, 500);
    g.repay_debt(40);
    assert_eq!(g.debt, 1960);
    assert_eq!(g.cash, 60);
}

#[test]
fn travel_accrues_interest_and_passes_a_day() {
    let mut g = started();
    let old_prices = g.prices;
    g.travel(Location::Oakwood);
    assert_eq!(g.debt, 2180);
    assert_eq!(g.days_left, 29);
    assert_eq!(g.location, Location::Oakwood);
    assert_eq!(g.last_prices, old_prices);
    g.travel(Location::Lakeview);
    assert_eq!(g.debt, 2376);
}

#[test]
fn interest_rounds_down_and_saturates() {
    let mut g = started();
    g.debt = 11;
    g.travel(Location::Highland);
    assert_eq!(g.debt, 11);
    g.debt = u32::MAX - 5;
    g.travel(Location::Edgewater);
    assert_eq!(g.debt, u32::MAX);
}

#[test]
fn travel_to_current_place_does_nothing() {
    let mut g = started();
    let prices = g.prices;
    g.travel(Location::Fairfield);
    assert_eq!(g.days_left, 30);
    assert_eq!(g.debt, 2000);
    assert_eq!(g.prices, prices);
}

#[test]
fn game_ends_when_days_run_out() {
    let mut g = started();
    let places = [Location::Oakwood, Location::Centerville];
    for i in 0..29 {
        g.travel(places[i % 2]);
        assert!(!g.game_over);
    }
    g.travel(Location::Fairfield);
    assert_eq!(g.days_left, 0);
    assert!(g.game_over);
    let debt = g.debt;
    g.travel(Location::Lakeview);
    assert_eq!(g.debt, debt);
    assert_eq!(g.location, Location::Fairfield);
}

#[test]
fn game_ends_without_cash_or_goods() {
    let mut g = started();
    g.cash = 2000;
    g.repay_debt(2000);
    assert_eq!(g.cash, 0);
    assert!(g.game_over);
    assert_eq!(g.days_left, 30);
}

#[test]
fn game_goes_on_with_goods_but_no_cash() {
    let mut g = started();
    g.prices[Drug::Lsd.as_index()] = 40;
    g.buy(Drug::Lsd, 50);
    assert_eq!(g.cash, 0);
    assert!(!g.game_over);
}

#[test]
fn reset_after_game_over() {
    let mut g = started();
    g.prices[Drug::Weed.as_index()] = 50;
    g.buy(Drug::Weed, 4);
    g.days_left = 1;
    g.travel(Location::Highland);
    assert!(g.game_over);
    g.reset();
    assert!(!g.game_over);
    assert!(g.init);
    assert_eq!(g.cash, STARTING_CASH);
    assert_eq!(g.debt, STARTING_DEBT);
    assert_eq!(g.inventory.get_amount(Drug::Weed), None);
    assert!(!g.inventory.has_items());
    assert!(g.event.is_none());
    assert_eq!(g.game_length, GameLength::Short);
    assert_eq!(g.days_left, 30);
}

#[test]
fn start_after_game_over_does_nothing() {
    let mut g = Game::new();
    g.game_over = true;
    g.start(GameLength::Long);
    assert!(g.init);
    assert_eq!(g.days_left, 30);
}

#[test]
fn dev_mode_toggles() {
    let mut g = Game::new();
    assert!(!g.dev_mode);
    g.toggle_dev_mode();
    assert!(g.dev_mode);
    g.toggle_dev_mode();
    assert!(!g.dev_mode);
}

#[test]
fn check_game_over_is_sticky() {
    let mut g = started();
    g.check_game_over();
    assert!(!g.game_over);
    g.days_left = 0;
    g.check_game_over();
    assert!(g.game_over);
    g.days_left = 5;
    g.check_game_over();
    assert!(g.game_over);
}

#[test]
fn location_names() {
    assert_eq!(Location::Fairfield.name(), "Fairfield");
    assert_eq!(Location::Centerville.name(), "Centerville");
}
