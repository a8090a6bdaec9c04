//! The event engine: random market and crime events that strike on travel
//! and change prices, the inventory or the cash held.

use vstd::prelude::*;
use vstd::string::*;

use crate::drugs::{
    get_rand_drug, lemma_at_index, lemma_index_bijective, Drug, DRUG_COUNT,
};
use crate::game::Game;
use crate::inventory::Inventory;
use crate::random::random_between;
use crate::text::{separate_with_commas, with_commas};

verus! {

/// Chance, in percent, that an event strikes on a day of travel.
pub const EVENT_CHANCE_PERCENT: u32 = 10;

/// Fewest commodities a bust can hit.
pub const BUSTED_DRUGS_MIN: u32 = 1;

/// Most commodities a bust can hit.
pub const BUSTED_DRUGS_MAX: u32 = 3;

/// Fewest attempts a mugger makes at the goods.
pub const MUGGING_DRUGS_MIN: u32 = 1;

/// Most attempts a mugger makes at the goods.
pub const MUGGING_DRUGS_MAX: u32 = 5;

/// The kind of a random event.
#[derive(Debug, Clone, Copy, PartialEq, Eq, Structural, Default)]
pub enum EventType {
    /// The police seized goods: prices of some commodities jump.
    #[default]
    DrugBust,
    /// A large delivery arrived: one commodity's price collapses.
    DrugShipment,
    /// The player was robbed of goods, cash or both.
    Mugging,
}

/// An event that struck on the last day of travel.
#[derive(Debug, Clone, PartialEq, Eq, Default)]
pub struct Event {
    pub e_type: EventType,
    /// What happened, for the player to read.
    pub e_msg: String,
    /// The commodities the event touched, in the order they were hit.
    pub e_drugs: Vec<Drug>,
}

/// A price raised by half of itself (rounded down), kept within `u32`.
pub open spec fn bust_price(p: u32) -> u32 {
    if p + p / 2 <= u32::MAX {
        (p + p / 2) as u32
    } else {
        u32::MAX
    }
}

/// A price halved (rounded down), but never below 1.
pub open spec fn shipment_price(p: u32) -> u32 {
    if p / 2 >= 1 {
        (p / 2) as u32
    } else {
        1
    }
}

/// The price table after raising each commodity of `picks` in turn; a
/// commodity picked twice is raised twice.
pub open spec fn busted_prices(prices: Seq<u32>, picks: Seq<Drug>) -> Seq<u32>
    decreases picks.len(),
{
    if picks.len() == 0 {
        prices
    } else {
        let before = busted_prices(prices, picks.drop_last());
        let i = picks.last().index();
        before.update(i, bust_price(before[i]))
    }
}

pub open spec fn bust_message() -> Seq<char> {
    "Cops made a huge bust! Prices have skyrocketed!"@
}

pub open spec fn shipment_message(d: Drug) -> Seq<char> {
    "A huge shipment just came in! "@ + d.spec_name() + " prices have bottomed out!"@
}

/// Most cash a mugger takes from `cash`: about half of what lies above the
/// last unit, and at least one unit.
pub open spec fn max_cash_take(cash: u32) -> u32 {
    if (cash - 1) / 2 >= 1 {
        ((cash - 1) / 2) as u32
    } else {
        1
    }
}

/// `after` holds the same commodities as `before`, and of each no more than
/// before. An entry whose quantity is unchanged is untouched; one that lost
/// some keeps its cost, unless nothing of it is left, when its cost is zero.
pub open spec fn only_takes(before: Inventory, after: Inventory) -> bool {
    &&& after@.dom() == before@.dom()
    &&& forall|d: Drug|
        #[trigger] before@.contains_key(d) ==> {
            &&& after@[d].0 <= before@[d].0
            &&& after@[d].0 == before@[d].0 ==> after@[d] == before@[d]
            &&& after@[d].0 < before@[d].0 ==> after@[d].1 == if after@[d].0 == 0 {
                0u32
            } else {
                before@[d].1
            }
        }
}

/// The kind of event that a draw of `kind` stands for.
pub open spec fn event_kind(kind: u32) -> EventType {
    if kind == 0 {
        EventType::DrugBust
    } else if kind == 1 {
        EventType::DrugShipment
    } else {
        EventType::Mugging
    }
}

/// How much less of each commodity, in catalog order, `after` holds than
/// `before`.
pub open spec fn stolen_amounts(before: Inventory, after: Inventory) -> Seq<u32> {
    Seq::new(
        DRUG_COUNT as nat,
        |i: int| (before.amount_of(Drug::at(i)) - after.amount_of(Drug::at(i))) as u32,
    )
}

/// The goods among the first `n` catalog positions of which something was
/// stolen, as "amount name" items joined by ", ".
pub open spec fn goods_list(stolen: Seq<u32>, n: int) -> Seq<char>
    decreases n,
{
    if n <= 0 {
        seq![]
    } else {
        let before = goods_list(stolen, n - 1);
        if stolen[n - 1] == 0 {
            before
        } else {
            let item = with_commas(stolen[n - 1] as nat) + " "@ + Drug::at(n - 1).spec_name();
            if before.len() == 0 {
                item
            } else {
                before + ", "@ + item
            }
        }
    }
}

/// The commodities among the first `n` catalog positions of which something
/// was stolen, in catalog order.
pub open spec fn stolen_drugs(stolen: Seq<u32>, n: int) -> Seq<Drug>
    decreases n,
{
    if n <= 0 {
        seq![]
    } else {
        let before = stolen_drugs(stolen, n - 1);
        if stolen[n - 1] == 0 {
            before
        } else {
            before.push(Drug::at(n - 1))
        }
    }
}

/// The report of a mugging that took `stolen` goods (per commodity, in
/// catalog order) and `cash_taken`, leaving `cash_left`.
pub open spec fn mugging_message(stolen: Seq<u32>, cash_left: u32, cash_taken: u32) -> Seq<
    char,
> {
    let goods = goods_list(stolen, DRUG_COUNT as int);
    if goods.len() == 0 {
        if cash_taken == 0 {
            "You were mugged, but they found nothing to take!"@
        } else if cash_left <= 1 {
            "You were mugged, but they felt bad and left you with a dollar!"@
        } else {
            "You were mugged! They took $"@ + with_commas(cash_taken as nat) + "!"@
        }
    } else if cash_taken == 0 {
        "You were mugged! They took "@ + goods + "!"@
    } else {
        "You were mugged! They took "@ + goods + " and $"@ + with_commas(cash_taken as nat) + "!"@
    }
}

/// What event `e` did to the prices, the inventory and the cash: from
/// `prices`, `inv` and `cash` to `new_prices`, `new_inv` and `new_cash`.
pub open spec fn event_effect(
    prices: Seq<u32>,
    inv: Inventory,
    cash: u32,
    new_prices: Seq<u32>,
    new_inv: Inventory,
    new_cash: u32,
    e: Event,
) -> bool {
    match e.e_type {
        EventType::DrugBust => {
            &&& BUSTED_DRUGS_MIN <= e.e_drugs@.len() <= BUSTED_DRUGS_MAX
            &&& new_prices == busted_prices(prices, e.e_drugs@)
            &&& new_inv == inv
            &&& new_cash == cash
            &&& e.e_msg@ == bust_message()
        },
        EventType::DrugShipment => {
            &&& e.e_drugs@.len() == 1
            &&& new_prices == prices.update(
                e.e_drugs@[0].index(),
                shipment_price(prices[e.e_drugs@[0].index()]),
            )
            &&& new_inv == inv
            &&& new_cash == cash
            &&& e.e_msg@ == shipment_message(e.e_drugs@[0])
        },
        EventType::Mugging => {
            &&& new_prices == prices
            &&& only_takes(inv, new_inv)
            &&& new_cash <= cash
            &&& cash - new_cash <= max_cash_take(cash)
            &&& cash <= 1 ==> new_cash == cash
            &&& cash >= 1 ==> new_cash >= 1
            &&& e.e_drugs@ == stolen_drugs(stolen_amounts(inv, new_inv), DRUG_COUNT as int)
            &&& e.e_drugs@.len() <= MUGGING_DRUGS_MAX
            &&& e.e_msg@ == mugging_message(
                stolen_amounts(inv, new_inv),
                new_cash,
                (cash - new_cash) as u32,
            )
        },
    }
}

proof fn lemma_busted_len(prices: Seq<u32>, picks: Seq<Drug>)
    requires
        prices.len() == DRUG_COUNT,
    ensures
        busted_prices(prices, picks).len() == prices.len(),
    decreases picks.len(),
{
    if picks.len() > 0 {
        lemma_busted_len(prices, picks.drop_last());
        lemma_index_bijective(picks.last());
    }
}

impl Event {
    /// A bust that hits the commodities of `picks`, in order: each hit
    /// raises that commodity's price by half.
    pub fn drug_bust_on(prices: &mut [u32; 7], picks: Vec<Drug>) -> (r: Self)
        ensures
            final(prices)@ == busted_prices(old(prices)@, picks@),
            r.e_type == EventType::DrugBust,
            r.e_drugs@ == picks@,
            r.e_msg@ == bust_message(),
    {
        let mut k: usize = 0;
        while k < picks.len()
            invariant
                k <= picks@.len(),
                prices@ == busted_prices(old(prices)@, picks@.subrange(0, k as int)),
            decreases picks@.len() - k,
        {
            let d = picks[k];
            let i = d.as_index();
            let p = prices[i];
            proof {
                lemma_busted_len(old(prices)@, picks@.subrange(0, k as int));
                assert(picks@.subrange(0, k + 1).drop_last() == picks@.subrange(0, k as int));
            }
            prices[i] = if p <= u32::MAX - p / 2 {
                p + p / 2
            } else {
                u32::MAX
            };
            k = k + 1;
        }
        assert(picks@.subrange(0, picks@.len() as int) == picks@);
        proof {
            reveal_strlit("Cops made a huge bust! Prices have skyrocketed!");
        }
        Event {
            e_type: EventType::DrugBust,
            e_msg: String::from_str("Cops made a huge bust! Prices have skyrocketed!"),
            e_drugs: picks,
        }
    }

    /// A bust on one to three commodities picked at random (the same one
    /// may be picked more than once).
    pub fn drug_bust(prices: &mut [u32; 7]) -> (r: Self)
        ensures
            BUSTED_DRUGS_MIN <= r.e_drugs@.len() <= BUSTED_DRUGS_MAX,
            final(prices)@ == busted_prices(old(prices)@, r.e_drugs@),
            r.e_type == EventType::DrugBust,
            r.e_msg@ == bust_message(),
    {
        let n = random_between(BUSTED_DRUGS_MIN, BUSTED_DRUGS_MAX);
        let mut picks: Vec<Drug> = Vec::new();
        let mut k: u32 = 0;
        while k < n
            invariant
                k <= n,
                picks@.len() == k,
            decreases n - k,
        {
            picks.push(get_rand_drug());
            k = k + 1;
        }
        Event::drug_bust_on(prices, picks)
    }

    /// A shipment of `drug`: its price is halved, down to no less than 1.
    pub fn drug_shipment_of(prices: &mut [u32; 7], drug: Drug) -> (r: Self)
        ensures
            final(prices)@ == old(prices)@.update(
                drug.index(),
                shipment_price(old(prices)@[drug.index()]),
            ),
            r.e_type == EventType::DrugShipment,
            r.e_drugs@ == seq![drug],
            r.e_msg@ == shipment_message(drug),
    {
        let i = drug.as_index();
        let half = prices[i] / 2;
        prices[i] = if half >= 1 {
            half
        } else {
            1
        };
        proof {
            reveal_strlit("A huge shipment just came in! ");
            reveal_strlit(" prices have bottomed out!");
        }
        let mut msg = String::from_str("A huge shipment just came in! ");
        msg.append(drug.name());
        msg.append(" prices have bottomed out!");
        let mut drugs: Vec<Drug> = Vec::new();
        drugs.push(drug);
        assert(drugs@ =~= seq![drug]);
        Event { e_type: EventType::DrugShipment, e_msg: msg, e_drugs: drugs }
    }

    /// A shipment of one commodity picked at random.
    pub fn drug_shipment(prices: &mut [u32; 7]) -> (r: Self)
        ensures
            r.e_drugs@.len() == 1,
            final(prices)@ == old(prices)@.update(
                r.e_drugs@[0].index(),
                shipment_price(old(prices)@[r.e_drugs@[0].index()]),
            ),
            r.e_type == EventType::DrugShipment,
            r.e_msg@ == shipment_message(r.e_drugs@[0]),
    {
        let drug = get_rand_drug();
        Event::drug_shipment_of(prices, drug)
    }

    /// A mugging: one to five attempts at the goods, each on a commodity
    /// picked at random that takes a random part of what is held of it; and,
    /// with even odds, a random part of the cash, never the last unit.
    pub fn mugging(held_inv: &mut Inventory, held_cash: &mut u32) -> (r: Self)
        ensures
            only_takes(*old(held_inv), *final(held_inv)),
            *final(held_cash) <= *old(held_cash),
            *old(held_cash) - *final(held_cash) <= max_cash_take(*old(held_cash)),
            *old(held_cash) <= 1 ==> *final(held_cash) == *old(held_cash),
            *old(held_cash) >= 1 ==> *final(held_cash) >= 1,
            r.e_type == EventType::Mugging,
            r.e_drugs@.len() <= MUGGING_DRUGS_MAX,
            r.e_drugs@ == stolen_drugs(
                stolen_amounts(*old(held_inv), *final(held_inv)),
                DRUG_COUNT as int,
            ),
            r.e_msg@ == mugging_message(
                stolen_amounts(*old(held_inv), *final(held_inv)),
                *final(held_cash),
                (*old(held_cash) - *final(held_cash)) as u32,
            ),
    {
        let stolen = steal_drugs(held_inv);
        let cash_taken = steal_cash(held_cash);
        let e_msg = create_mugging_message(&stolen, *held_cash, cash_taken);
        let mut e_drugs: Vec<Drug> = Vec::new();
        let mut i: usize = 0;
        while i < DRUG_COUNT
            invariant
                i <= DRUG_COUNT,
                e_drugs@ == stolen_drugs(stolen@, i as int),
            decreases DRUG_COUNT - i,
        {
            if stolen[i] > 0 {
                e_drugs.push(Drug::from_index(i));
            }
            i = i + 1;
        }
        Event { e_type: EventType::Mugging, e_msg, e_drugs }
    }
}

/// Changing one entry of a stolen-amounts table adds at most one commodity
/// to the list of those stolen from.
proof fn lemma_stolen_drugs_one_more(s1: Seq<u32>, s2: Seq<u32>, i: int, n: int)
    requires
        s1.len() == DRUG_COUNT,
        s2.len() == DRUG_COUNT,
        0 <= i < DRUG_COUNT,
        0 <= n <= DRUG_COUNT,
        forall|j: int| 0 <= j < DRUG_COUNT && j != i ==> s1[j] == s2[j],
    ensures
        stolen_drugs(s2, n).len() <= stolen_drugs(s1, n).len() + 1,
        n <= i ==> stolen_drugs(s2, n).len() == stolen_drugs(s1, n).len(),
    decreases n,
{
    if n > 0 {
        lemma_stolen_drugs_one_more(s1, s2, i, n - 1);
    }
}

/// One theft from the goods: `take` units of `drug` leave the inventory and
/// are counted in `stolen`. Where nothing of `drug` is left, its recorded
/// cost goes to zero.
pub fn steal_once(held_inv: &mut Inventory, stolen: &mut [u32; 7], drug: Drug, take: u32)
    requires
        1 <= take <= old(held_inv).amount_of(drug),
        old(stolen)@[drug.index()] + take <= u32::MAX,
    ensures
        final(held_inv)@ == old(held_inv)@.insert(
            drug,
            if old(held_inv).amount_of(drug) == take {
                (0u32, 0u32)
            } else {
                ((old(held_inv).amount_of(drug) - take) as u32, old(held_inv)@[drug].1)
            },
        ),
        final(stolen)@ == old(stolen)@.update(
            drug.index(),
            (old(stolen)@[drug.index()] + take) as u32,
        ),
{
    let i = drug.as_index();
    stolen[i] = stolen[i] + take;
    let ghost before = held_inv@;
    let _ = held_inv.remove(drug, take);
    if let Some(0) = held_inv.get_amount(drug) {
        held_inv.reset_cost(drug);
        assert(held_inv@ =~= before.insert(drug, (0u32, 0u32)));
    }
}

/// Up to five attempts at the goods held, each on a commodity picked at
/// random; returns the amount taken of each commodity, in catalog order.
fn steal_drugs(held_inv: &mut Inventory) -> (r: [u32; 7])
    ensures
        only_takes(*old(held_inv), *final(held_inv)),
        r@ == stolen_amounts(*old(held_inv), *final(held_inv)),
        stolen_drugs(r@, DRUG_COUNT as int).len() <= MUGGING_DRUGS_MAX,
{
    let ghost start = *held_inv;
    let mut stolen: [u32; 7] = [0; 7];
    proof {
        assert(stolen_drugs(stolen@, DRUG_COUNT as int).len() == 0) by {
            reveal_with_fuel(stolen_drugs, 8);
        }
        assert(held_inv@.dom() =~= start@.dom());
    }
    if held_inv.has_items() {
        let attempts = random_between(MUGGING_DRUGS_MIN, MUGGING_DRUGS_MAX);
        let mut k: u32 = 0;
        while k < attempts
            invariant
                k <= attempts <= MUGGING_DRUGS_MAX,
                only_takes(start, *held_inv),
                forall|j: int|
                    0 <= j < DRUG_COUNT ==> #[trigger] stolen@[j] + held_inv.amount_of(Drug::at(j))
                        == start.amount_of(Drug::at(j)),
                stolen_drugs(stolen@, DRUG_COUNT as int).len() <= k,
            decreases attempts - k,
        {
            let drug = get_rand_drug();
            if let Some(held) = held_inv.get_amount(drug) {
                if held > 0 {
                    let take = random_between(1, held);
                    let i = drug.as_index();
                    proof {
                        lemma_index_bijective(drug);
                        assert(stolen@[i as int] + held_inv.amount_of(Drug::at(i as int))
                            == start.amount_of(Drug::at(i as int)));
                    }
                    let ghost mid = *held_inv;
                    let ghost mid_stolen = stolen@;
                    steal_once(held_inv, &mut stolen, drug, take);
                    proof {
                        lemma_stolen_drugs_one_more(
                            mid_stolen,
                            stolen@,
                            i as int,
                            DRUG_COUNT as int,
                        );
                        assert forall|j: int| 0 <= j < DRUG_COUNT implies #[trigger] stolen@[j]
                            + held_inv.amount_of(Drug::at(j)) == start.amount_of(Drug::at(j)) by {
                            lemma_at_index(j);
                        }
                        assert forall|d: Drug| #[trigger] start@.contains_key(d) implies {
                            &&& held_inv@[d].0 <= start@[d].0
                            &&& held_inv@[d].0 == start@[d].0 ==> held_inv@[d] == start@[d]
                            &&& held_inv@[d].0 < start@[d].0 ==> held_inv@[d].1 == if held_inv@[
                                d
                            ].0 == 0 {
                                0u32
                            } else {
                                start@[d].1
                            }
                        } by {
                            assert(mid@.contains_key(d));
                        }
                        assert(held_inv@.dom() =~= start@.dom());
                    }
                }
            }
            k = k + 1;
        }
    }
    assert(stolen@ =~= stolen_amounts(start, *held_inv));
    stolen
}

/// The cash side of a mugging, given its draws: where `coin` is 0 and more
/// than one unit is held, `taken` units go; otherwise nothing does. Returns
/// the amount taken.
pub fn take_cash(held_cash: &mut u32, coin: u32, taken: u32) -> (r: u32)
    requires
        coin == 0 && *old(held_cash) > 1 ==> 1 <= taken <= max_cash_take(*old(held_cash)),
    ensures
        r == if coin == 0 && *old(held_cash) > 1 {
            taken
        } else {
            0
        },
        *final(held_cash) == *old(held_cash) - r,
{
    if coin == 0 && *held_cash > 1 {
        *held_cash = *held_cash - taken;
        taken
    } else {
        0
    }
}

/// With even odds, takes between one unit and `max_cash_take` of the cash,
/// where more than one unit is held; returns the amount taken.
fn steal_cash(held_cash: &mut u32) -> (r: u32)
    ensures
        r <= *old(held_cash),
        *final(held_cash) == *old(held_cash) - r,
        r <= max_cash_take(*old(held_cash)),
        *old(held_cash) <= 1 ==> r == 0,
        r > 0 ==> *final(held_cash) >= 1,
{
    let coin = random_between(0, 1);
    let taken = if coin == 0 && *held_cash > 1 {
        let half = (*held_cash - 1) / 2;
        let max_take = if half >= 1 {
            half
        } else {
            1
        };
        random_between(1, max_take)
    } else {
        0
    };
    take_cash(held_cash, coin, taken)
}

/// The report of a mugging that took `stolen` goods (per commodity, in
/// catalog order) and `cash_taken`, leaving `cash_left`.
pub fn create_mugging_message(stolen: &[u32; 7], cash_left: u32, cash_taken: u32) -> (r: String)
    ensures
        r@ == mugging_message(stolen@, cash_left, cash_taken),
{
    let mut goods = String::new();
    let mut any = false;
    let mut i: usize = 0;
    proof {
        reveal_strlit(", ");
        reveal_strlit(" ");
    }
    while i < DRUG_COUNT
        invariant
            i <= DRUG_COUNT,
            goods@ == goods_list(stolen@, i as int),
            any == (goods@.len() > 0),
        decreases DRUG_COUNT - i,
    {
        if stolen[i] > 0 {
            let ghost before = goods@;
            if any {
                goods.append(", ");
            }
            let amount = separate_with_commas(stolen[i]);
            goods.append(amount.as_str());
            goods.append(" ");
            let name = Drug::from_index(i).name();
            goods.append(name);
            proof {
                let item = amount@ + " "@ + name@;
                if any {
                    assert(goods@ =~= before + ", "@ + item);
                } else {
                    assert(goods@ =~= item);
                }
            }
            any = true;
        }
        i = i + 1;
    }
    proof {
        reveal_strlit(", ");
        reveal_strlit(" ");
        reveal_strlit("!");
        reveal_strlit(" and $");
        reveal_strlit("You were mugged! They took ");
        reveal_strlit("You were mugged! They took $");
        reveal_strlit("You were mugged, but they found nothing to take!");
        reveal_strlit("You were mugged, but they felt bad and left you with a dollar!");
    }
    if !any {
        if cash_taken == 0 {
            String::from_str("You were mugged, but they found nothing to take!")
        } else if cash_left <= 1 {
            String::from_str("You were mugged, but they felt bad and left you with a dollar!")
        } else {
            let mut msg = String::from_str("You were mugged! They took $");
            let cash = separate_with_commas(cash_taken);
            msg.append(cash.as_str());
            msg.append("!");
            msg
        }
    } else {
        let mut msg = String::from_str("You were mugged! They took ");
        msg.append(goods.as_str());
        if cash_taken > 0 {
            msg.append(" and $");
            let cash = separate_with_commas(cash_taken);
            msg.append(cash.as_str());
        }
        msg.append("!");
        msg
    }
}

/// The event that a roll of `roll` (out of 100) and a pick of `kind` bring:
/// none where `roll` is not below `EVENT_CHANCE_PERCENT`, else a bust (kind
/// 0), a shipment (kind 1) or a mugging (kind 2), applied to the game.
pub fn generate_event_with(game: &mut Game, roll: u32, kind: u32) -> (r: Option<Event>)
    requires
        roll < 100,
        kind < 3,
    ensures
        roll >= EVENT_CHANCE_PERCENT ==> r is None && *final(game) == *old(game),
        roll < EVENT_CHANCE_PERCENT ==> {
            &&& r is Some
            &&& (r->0).e_type == event_kind(kind)
            &&& event_effect(
                old(game).prices@,
                old(game).inventory,
                old(game).cash,
                final(game).prices@,
                final(game).inventory,
                final(game).cash,
                r->0,
            )
        },
        *final(game) == (Game {
            prices: final(game).prices,
            inventory: final(game).inventory,
            cash: final(game).cash,
            ..*old(game)
        }),
{
    if roll < EVENT_CHANCE_PERCENT {
        let event = if kind == 0 {
            Event::drug_bust(&mut game.prices)
        } else if kind == 1 {
            Event::drug_shipment(&mut game.prices)
        } else {
            Event::mugging(&mut game.inventory, &mut game.cash)
        };
        Some(event)
    } else {
        None
    }
}

/// With a chance of one in ten, an event of a kind picked at random
/// strikes the game.
pub fn generate_event(game: &mut Game) -> (r: Option<Event>)
    ensures
        r is None ==> *final(game) == *old(game),
        r is Some ==> event_effect(
            old(game).prices@,
            old(game).inventory,
            old(game).cash,
            final(game).prices@,
            final(game).inventory,
            final(game).cash,
            r->0,
        ),
        *final(game) == (Game {
            prices: final(game).prices,
            inventory: final(game).inventory,
            cash: final(game).cash,
            ..*old(game)
        }),
{
    let roll = random_between(0, 99);
    let kind = random_between(0, 2);
    generate_event_with(game, roll, kind)
}

} // verus!
