//! The game session: the day clock, the economy of cash and debt, and the
//! commands the player issues.

use vstd::prelude::*;

use crate::drugs::{get_drug_price, get_rand_prices, prices_in_range, Drug};
use crate::events::{event_effect, generate_event, Event};
use crate::inventory::Inventory;
use crate::locations::Location;

verus! {

/// Cash held at the start of a game.
pub const STARTING_CASH: u32 = 2000;

/// Debt owed at the start of a game.
pub const STARTING_DEBT: u32 = 2000;

/// Interest added to the debt on each day of travel, in percent.
pub const INTEREST_PERCENT: u32 = 9;

/// How many days a game lasts.
#[derive(Debug, Default, PartialEq, Eq, Clone, Copy, Structural)]
pub enum GameLength {
    /// One month.
    #[default]
    Short,
    /// Six months.
    Medium,
    /// One year.
    Long,
}

impl GameLength {
    pub open spec fn spec_days(self) -> u32 {
        match self {
            GameLength::Short => 30,
            GameLength::Medium => 180,
            GameLength::Long => 360,
        }
    }

    /// Number of days in a game of this length.
    pub fn days(&self) -> (r: u32)
        ensures
            r == self.spec_days(),
    {
        match self {
            GameLength::Short => 30,
            GameLength::Medium => 180,
            GameLength::Long => 360,
        }
    }
}

/// The debt after a day's interest: the interest is rounded down, and the
/// sum is capped at the largest `u32`.
pub open spec fn with_interest(debt: u32) -> u32 {
    if debt + debt * INTEREST_PERCENT / 100 <= u32::MAX {
        (debt + debt * INTEREST_PERCENT / 100) as u32
    } else {
        u32::MAX
    }
}

/// The whole state of one game.
#[derive(Clone)]
pub struct Game {
    /// The player has not yet chosen the length of the game.
    pub init: bool,
    pub game_over: bool,
    pub game_length: GameLength,
    pub days_left: u32,
    pub location: Location,
    pub inventory: Inventory,
    /// Current unit price of each commodity, in catalog order.
    pub prices: [u32; 7],
    /// The prices at the previous place, to show which way prices moved.
    pub last_prices: [u32; 7],
    /// Quantities staged for buying, per commodity.
    pub buy_amts: [u32; 7],
    /// Quantities staged for selling, per commodity.
    pub sell_amts: [u32; 7],
    pub cash: u32,
    pub debt: u32,
    /// Repayment staged by the player.
    pub repay_amt: u32,
    /// The event that struck on the last day of travel, if any.
    pub event: Option<Event>,
    /// Whether the diagnostic panel is shown.
    pub dev_mode: bool,
    /// Commodity picked in the diagnostic panel.
    pub selected_drug_idx: usize,
}

impl Game {
    /// The game has run out of days, or the player has neither cash nor goods.
    pub open spec fn ends(self) -> bool {
        self.days_left == 0 || (self.cash == 0 && !self.inventory.holds_any())
    }

    /// The game is over exactly when it has ended. A new game is valid, and
    /// every command keeps a valid game valid.
    pub open spec fn valid(self) -> bool {
        self.game_over == self.ends()
    }

    /// The state of a game just begun.
    pub open spec fn is_fresh(self) -> bool {
        &&& self.init
        &&& !self.game_over
        &&& self.game_length == GameLength::Short
        &&& self.days_left == GameLength::Short.spec_days()
        &&& self.location == Location::Fairfield
        &&& self.inventory@ == Map::<Drug, (u32, u32)>::empty()
        &&& prices_in_range(self.prices@)
        &&& self.last_prices@ == self.prices@
        &&& self.buy_amts@ == seq![0u32; 7]
        &&& self.sell_amts@ == seq![0u32; 7]
        &&& self.cash == STARTING_CASH
        &&& self.debt == STARTING_DEBT
        &&& self.repay_amt == 0
        &&& self.event is None
        &&& !self.dev_mode
        &&& self.selected_drug_idx == 0
    }

    /// Price of `drug` times `amt`.
    pub open spec fn trade_value(self, drug: Drug, amt: u32) -> int {
        self.prices@[drug.index()] * amt
    }

    /// A purchase of `amt` units of `drug` goes through: the game is on, the
    /// quantity is positive, the cash covers it and the holding fits a `u32`.
    pub open spec fn can_buy(self, drug: Drug, amt: u32) -> bool {
        &&& !self.game_over
        &&& amt > 0
        &&& self.trade_value(drug, amt) <= self.cash
        &&& self.inventory.amount_of(drug) + amt <= u32::MAX
    }

    /// A sale of `amt` units of `drug` goes through: the game is on, the
    /// quantity is positive, that much is held and the proceeds fit a `u32`.
    pub open spec fn can_sell(self, drug: Drug, amt: u32) -> bool {
        &&& !self.game_over
        &&& amt > 0
        &&& self.inventory.amount_of(drug) >= amt
        &&& self.cash + self.trade_value(drug, amt) <= u32::MAX
    }

    /// `after` is `self` with only its cash, inventory and game-over flag
    /// replaced.
    pub open spec fn same_but_holdings(self, after: Game) -> bool {
        after == (Game {
            cash: after.cash,
            inventory: after.inventory,
            game_over: after.game_over,
            ..self
        })
    }

    /// `after` is the state that `buy(drug, amt)` leaves `self` in.
    pub open spec fn buy_post(self, drug: Drug, amt: u32, after: Game) -> bool {
        if self.can_buy(drug, amt) {
            &&& after.cash == self.cash - self.trade_value(drug, amt)
            &&& after.inventory@ == self.inventory@.insert(
                drug,
                ((self.inventory.amount_of(drug) + amt) as u32, self.prices@[drug.index()]),
            )
            &&& after.game_over == after.ends()
            &&& self.same_but_holdings(after)
        } else {
            after == self
        }
    }

    /// `after` is the state that `sell(drug, amt)` leaves `self` in.
    pub open spec fn sell_post(self, drug: Drug, amt: u32, after: Game) -> bool {
        if self.can_sell(drug, amt) {
            &&& after.cash == self.cash + self.trade_value(drug, amt)
            &&& after.inventory@ == self.inventory@.insert(
                drug,
                if self.inventory.amount_of(drug) == amt {
                    (0u32, 0u32)
                } else {
                    (
                        (self.inventory.amount_of(drug) - amt) as u32,
                        self.inventory@[drug].1,
                    )
                },
            )
            &&& after.game_over == after.ends()
            &&& self.same_but_holdings(after)
        } else {
            after == self
        }
    }

    /// A new game, with fresh prices, an empty inventory and the starting
    /// cash and debt, waiting for the player to pick its length.
    pub fn new() -> (r: Game)
        ensures
            r.is_fresh(),
            r.valid(),
    {
        let rand_prices = get_rand_prices();
        let r = Game {
            init: true,
            game_over: false,
            game_length: GameLength::Short,
            days_left: GameLength::Short.days(),
            location: Location::Fairfield,
            inventory: Inventory::new(),
            prices: rand_prices,
            last_prices: rand_prices,
            buy_amts: [0; 7],
            sell_amts: [0; 7],
            cash: STARTING_CASH,
            debt: STARTING_DEBT,
            repay_amt: 0,
            event: None,
            dev_mode: false,
            selected_drug_idx: 0,
        };
        assert(r.buy_amts@ =~= seq![0u32; 7]);
        assert(r.sell_amts@ =~= seq![0u32; 7]);
        r
    }

    /// Ends the game if it has run out of days, or if the player has neither
    /// cash nor goods left. A game that is over stays over.
    pub fn check_game_over(&mut self)
        ensures
            *final(self) == (Game {
                game_over: old(self).game_over || old(self).ends(),
                ..*old(self)
            }),
            old(self).valid() ==> final(self).valid(),
    {
        if self.days_left == 0 || (self.cash == 0 && !self.inventory.has_items()) {
            self.game_over = true;
        }
    }

    /// Starts the game with the length the player chose. Only a game that
    /// has not started yet, and is not over, takes it.
    pub fn start(&mut self, length: GameLength)
        ensures
            old(self).init && !old(self).game_over ==> *final(self) == (Game {
                init: false,
                game_length: length,
                days_left: length.spec_days(),
                game_over: (Game {
                    init: false,
                    game_length: length,
                    days_left: length.spec_days(),
                    ..*old(self)
                }).ends(),
                ..*old(self)
            }),
            !old(self).init || old(self).game_over ==> *final(self) == *old(self),
            old(self).valid() ==> final(self).valid(),
    {
        if self.init && !self.game_over {
            self.game_length = length;
            self.days_left = length.days();
            self.init = false;
            self.check_game_over();
        }
    }

    /// Shows or hides the diagnostic panel.
    pub fn toggle_dev_mode(&mut self)
        ensures
            *final(self) == (Game { dev_mode: !old(self).dev_mode, ..*old(self) }),
            old(self).valid() ==> final(self).valid(),
    {
        self.dev_mode = !self.dev_mode;
    }

    /// Buys `buy_amt` units of `drug` at its current price. The recorded unit
    /// cost becomes that price. Does nothing where the purchase cannot go
    /// through.
    pub fn buy(&mut self, drug: Drug, buy_amt: u32)
        ensures
            old(self).buy_post(drug, buy_amt, *final(self)),
            old(self).valid() ==> final(self).valid(),
    {
        if self.game_over || buy_amt == 0 {
            return;
        }
        let price = get_drug_price(drug, &self.prices);
        let held: u32 = match self.inventory.get_amount(drug) {
            Some(a) => a,
            None => 0,
        };
        if let Some(cost) = price.checked_mul(buy_amt) {
            if self.cash >= cost && held <= u32::MAX - buy_amt {
                self.cash = self.cash - cost;
                self.inventory.add(drug, buy_amt, price);
                self.check_game_over();
            }
        }
    }

    /// Sells `sell_amt` units of `drug` at its current price. Where nothing
    /// of it is left, its recorded cost is reset to zero. Does nothing where
    /// the sale cannot go through.
    pub fn sell(&mut self, drug: Drug, sell_amt: u32)
        ensures
            old(self).sell_post(drug, sell_amt, *final(self)),
            old(self).valid() ==> final(self).valid(),
    {
        if self.game_over || sell_amt == 0 {
            return;
        }
        let price = get_drug_price(drug, &self.prices);
        let held: u32 = match self.inventory.get_amount(drug) {
            Some(a) => a,
            None => 0,
        };
        if held >= sell_amt {
            if let Some(gain) = price.checked_mul(sell_amt) {
                if gain <= u32::MAX - self.cash {
                    self.cash = self.cash + gain;
                    let ghost before = self.inventory@;
                    let _ = self.inventory.remove(drug, sell_amt);
                    if held == sell_amt {
                        self.inventory.reset_cost(drug);
                        assert(self.inventory@ =~= before.insert(drug, (0u32, 0u32)));
                    }
                    self.check_game_over();
                }
            }
        }
    }

    /// Pays back `amount` of the debt, or the whole debt where `amount` is
    /// larger, if the cash covers it; the staged repayment is then cleared.
    /// Does nothing otherwise, or once the game is over.
    pub fn repay_debt(&mut self, amount: u32)
        ensures
            ({
                let paid = if amount <= old(self).debt {
                    amount
                } else {
                    old(self).debt
                };
                if !old(self).game_over && paid <= old(self).cash {
                    let paid_state = (Game {
                        cash: (old(self).cash - paid) as u32,
                        debt: (old(self).debt - paid) as u32,
                        repay_amt: 0,
                        ..*old(self)
                    });
                    *final(self) == (Game {
                        game_over: paid_state.ends(),
                        ..paid_state
                    })
                } else {
                    *final(self) == *old(self)
                }
            }),
            old(self).valid() ==> final(self).valid(),
    {
        if self.game_over {
            return;
        }
        let amount = if amount <= self.debt {
            amount
        } else {
            self.debt
        };
        if self.cash >= amount {
            self.cash = self.cash - amount;
            self.debt = self.debt - amount;
            self.repay_amt = 0;
            self.check_game_over();
        }
    }

    /// Travels to `location`: a day passes, prices are drawn afresh (the old
    /// ones are kept for comparison), the debt accrues interest and an event
    /// may strike. Travelling to where the player is, or once the game is
    /// over, does nothing.
    pub fn travel(&mut self, location: Location)
        ensures
            old(self).game_over || old(self).location == location ==> *final(self)
                == *old(self),
            !old(self).game_over && old(self).location != location ==> {
                &&& final(self).days_left == if old(self).days_left > 0 {
                    old(self).days_left - 1
                } else {
                    0
                }
                &&& final(self).location == location
                &&& final(self).last_prices == old(self).prices
                &&& final(self).debt == with_interest(old(self).debt)
                &&& final(self).game_over == final(self).ends()
                &&& final(self).event is None ==> {
                    &&& prices_in_range(final(self).prices@)
                    &&& final(self).inventory == old(self).inventory
                    &&& final(self).cash == old(self).cash
                }
                &&& final(self).event is Some ==> exists|fresh: Seq<u32>|
                    prices_in_range(fresh) && #[trigger] event_effect(
                        fresh,
                        old(self).inventory,
                        old(self).cash,
                        final(self).prices@,
                        final(self).inventory,
                        final(self).cash,
                        final(self).event->0,
                    )
                &&& *final(self) == (Game {
                    days_left: final(self).days_left,
                    location: final(self).location,
                    last_prices: final(self).last_prices,
                    prices: final(self).prices,
                    debt: final(self).debt,
                    game_over: final(self).game_over,
                    event: final(self).event,
                    inventory: final(self).inventory,
                    cash: final(self).cash,
                    ..*old(self)
                })
            },
            old(self).valid() ==> final(self).valid(),
    {
        if self.game_over || self.location == location {
            return;
        }
        self.days_left = self.days_left.saturating_sub(1);
        self.location = location;
        self.last_prices = self.prices;
        self.prices = get_rand_prices();
        let ghost fresh = self.prices@;
        let debt = self.debt as u64;
        assert(debt * 9 / 100 <= debt) by (nonlinear_arith)
            requires
                debt <= u32::MAX,
        ;
        let interest = (debt * (INTEREST_PERCENT as u64) / 100) as u32;
        self.debt = if self.debt <= u32::MAX - interest {
            self.debt + interest
        } else {
            u32::MAX
        };
        self.event = generate_event(self);
        self.check_game_over();
        proof {
            if self.event is Some {
                assert(prices_in_range(fresh));
            }
        }
    }

    /// Throws the game away and starts a new one.
    pub fn reset(&mut self)
        ensures
            final(self).is_fresh(),
            final(self).valid(),
    {
        *self = Game::new();
    }
}

/// The debt grows by the day's interest, rounded down, and never shrinks;
/// where the sum fits a `u32` the debt is exactly the old debt plus it.
pub proof fn lemma_interest_accrual(debt: u32)
    ensures
        with_interest(debt) >= debt,
        debt + debt * INTEREST_PERCENT / 100 <= u32::MAX ==> with_interest(debt) == debt + debt
            * INTEREST_PERCENT / 100,
{
}

/// Buying an amount of a commodity and then selling the same amount, at the
/// price that buying leaves unchanged, gives back exactly the cash held
/// before, and the holding of that commodity is what it was.
pub proof fn lemma_buy_sell_round_trip(
    before: Game,
    bought: Game,
    sold: Game,
    drug: Drug,
    amt: u32,
)
    requires
        before.valid(),
        before.can_buy(drug, amt),
        before.buy_post(drug, amt, bought),
        bought.sell_post(drug, amt, sold),
    ensures
        bought.prices == before.prices,
        bought.can_sell(drug, amt),
        sold.cash == before.cash,
        sold.inventory.amount_of(drug) == before.inventory.amount_of(drug),
{
    assert(bought.inventory@.contains_key(drug) && bought.inventory@[drug].0 > 0);
    assert(bought.inventory.holds_any());
}

} // verus!
