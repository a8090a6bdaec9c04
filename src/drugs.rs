//! The commodity catalog: the fixed list of goods, their names and the
//! ranges from which their prices are drawn.

use vstd::prelude::*;

use crate::random::random_between;

verus! {

/// Number of distinct commodities.
pub const DRUG_COUNT: usize = 7;

/// A tradeable commodity.
#[derive(Debug, Copy, Clone, PartialEq, Eq, Hash, Default)]
pub enum Drug {
    #[default]
    Weed,
    Cocaine,
    Meth,
    Heroin,
    Ecstasy,
    Lsd,
    Shrooms,
}

impl Drug {
    /// Position of the commodity in the catalog order.
    pub open spec fn index(self) -> int {
        match self {
            Drug::Weed => 0,
            Drug::Cocaine => 1,
            Drug::Meth => 2,
            Drug::Heroin => 3,
            Drug::Ecstasy => 4,
            Drug::Lsd => 5,
            Drug::Shrooms => 6,
        }
    }

    /// The commodity at a catalog position.
    pub open spec fn at(i: int) -> Drug {
        if i == 0 {
            Drug::Weed
        } else if i == 1 {
            Drug::Cocaine
        } else if i == 2 {
            Drug::Meth
        } else if i == 3 {
            Drug::Heroin
        } else if i == 4 {
            Drug::Ecstasy
        } else if i == 5 {
            Drug::Lsd
        } else {
            Drug::Shrooms
        }
    }

    /// Lowest price the commodity can be drawn at.
    pub open spec fn min_price(self) -> u32 {
        match self {
            Drug::Weed => 40,
            Drug::Cocaine => 50,
            Drug::Meth => 80,
            Drug::Heroin => 100,
            Drug::Ecstasy => 30,
            Drug::Lsd => 40,
            Drug::Shrooms => 40,
        }
    }

    /// Highest price the commodity can be drawn at.
    pub open spec fn max_price(self) -> u32 {
        match self {
            Drug::Weed => 80,
            Drug::Cocaine => 90,
            Drug::Meth => 120,
            Drug::Heroin => 140,
            Drug::Ecstasy => 70,
            Drug::Lsd => 80,
            Drug::Shrooms => 80,
        }
    }

    /// Display name of the commodity.
    pub open spec fn spec_name(self) -> Seq<char> {
        match self {
            Drug::Weed => "Weed"@,
            Drug::Cocaine => "Cocaine"@,
            Drug::Meth => "Meth"@,
            Drug::Heroin => "Heroin"@,
            Drug::Ecstasy => "Ecstasy"@,
            Drug::Lsd => "LSD"@,
            Drug::Shrooms => "Shrooms"@,
        }
    }

    pub fn as_index(&self) -> (r: usize)
        ensures
            r == self.index(),
            r < DRUG_COUNT,
    {
        match self {
            Drug::Weed => 0,
            Drug::Cocaine => 1,
            Drug::Meth => 2,
            Drug::Heroin => 3,
            Drug::Ecstasy => 4,
            Drug::Lsd => 5,
            Drug::Shrooms => 6,
        }
    }

    /// The commodity at catalog position `i`.
    pub fn from_index(i: usize) -> (d: Drug)
        requires
            i < DRUG_COUNT,
        ensures
            d == Drug::at(i as int),
            d.index() == i,
    {
        if i == 0 {
            Drug::Weed
        } else if i == 1 {
            Drug::Cocaine
        } else if i == 2 {
            Drug::Meth
        } else if i == 3 {
            Drug::Heroin
        } else if i == 4 {
            Drug::Ecstasy
        } else if i == 5 {
            Drug::Lsd
        } else {
            Drug::Shrooms
        }
    }

    /// Inclusive price range `(min, max)` of the commodity.
    pub fn price_range(&self) -> (r: (u32, u32))
        ensures
            r.0 == self.min_price(),
            r.1 == self.max_price(),
            1 <= r.0 <= r.1,
    {
        match self {
            Drug::Weed => (40, 80),
            Drug::Cocaine => (50, 90),
            Drug::Meth => (80, 120),
            Drug::Heroin => (100, 140),
            Drug::Ecstasy => (30, 70),
            Drug::Lsd => (40, 80),
            Drug::Shrooms => (40, 80),
        }
    }

    /// Display name of the commodity.
    pub fn name(&self) -> (r: &'static str)
        ensures
            r@ == self.spec_name(),
    {
        proof {
            reveal_strlit("Weed");
            reveal_strlit("Cocaine");
            reveal_strlit("Meth");
            reveal_strlit("Heroin");
            reveal_strlit("Ecstasy");
            reveal_strlit("LSD");
            reveal_strlit("Shrooms");
        }
        match self {
            Drug::Weed => "Weed",
            Drug::Cocaine => "Cocaine",
            Drug::Meth => "Meth",
            Drug::Heroin => "Heroin",
            Drug::Ecstasy => "Ecstasy",
            Drug::Lsd => "LSD",
            Drug::Shrooms => "Shrooms",
        }
    }
}

/// Every commodity's position lies in the catalog and maps back to it.
pub proof fn lemma_index_bijective(d: Drug)
    ensures
        0 <= d.index() < DRUG_COUNT,
        Drug::at(d.index()) == d,
{
}

/// Each catalog position holds the commodity whose position it is.
pub proof fn lemma_at_index(i: int)
    requires
        0 <= i < DRUG_COUNT,
    ensures
        Drug::at(i).index() == i,
{
}

/// All commodities, in catalog order.
pub fn get_drug_list() -> (r: [Drug; 7])
    ensures
        forall|i: int| 0 <= i < DRUG_COUNT ==> #[trigger] r@[i] == Drug::at(i),
        r@.len() == DRUG_COUNT,
{
    [Drug::Weed, Drug::Cocaine, Drug::Meth, Drug::Heroin, Drug::Ecstasy, Drug::Lsd, Drug::Shrooms]
}

/// Current price of `drug` in a price table.
pub fn get_drug_price(drug: Drug, prices: &[u32; 7]) -> (r: u32)
    ensures
        r == prices@[drug.index()],
{
    prices[drug.as_index()]
}

/// Each price of the table lies in its commodity's inclusive range.
pub open spec fn prices_in_range(prices: Seq<u32>) -> bool {
    &&& prices.len() == DRUG_COUNT
    &&& forall|d: Drug| d.min_price() <= #[trigger] prices[d.index()] <= d.max_price()
}

/// A commodity picked uniformly at random from the catalog.
pub fn get_rand_drug() -> Drug {
    let i = random_between(0, 6);
    Drug::from_index(i as usize)
}

/// A fresh price table: each commodity's price is drawn uniformly, and
/// independently of the others, from its inclusive range.
pub fn get_rand_prices() -> (r: [u32; 7])
    ensures
        prices_in_range(r@),
{
    let mut prices: [u32; 7] = [0; 7];
    let mut i: usize = 0;
    while i < DRUG_COUNT
        invariant
            i <= DRUG_COUNT,
            prices@.len() == DRUG_COUNT,
            forall|j: int|
                0 <= j < i ==> Drug::at(j).min_price() <= #[trigger] prices@[j]
                    <= Drug::at(j).max_price(),
        decreases DRUG_COUNT - i,
    {
        let (min, max) = Drug::from_index(i).price_range();
        prices[i] = random_between(min, max);
        i = i + 1;
    }
    assert forall|d: Drug| d.min_price() <= #[trigger] prices@[d.index()] <= d.max_price() by {
        lemma_index_bijective(d);
    }
    prices
}

} // verus!
