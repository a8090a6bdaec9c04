use dank_bytes::drugs::{get_drug_list, get_drug_price, get_rand_drug, get_rand_prices, Drug};

#[test]
fn drug_indices_follow_catalog_order() {
    let list = get_drug_list();
    for (i, d) in list.iter().enumerate() {
        assert_eq!(d.as_index(), i);
        assert_eq!(Drug::from_index(i), *d);
    }
    assert_eq!(list[0], Drug::Weed);
    assert_eq!(list[6], Drug::Shrooms);
}

#[test]
fn drug_names() {
    assert_eq!(Drug::Weed.name(), "Weed");
    assert_eq!(Drug::Lsd.name(), "LSD");
    assert_eq!(Drug::Shrooms.name(), "Shrooms");
}

#[test]
fn price_lookup_reads_the_table() {
    let prices = [1, 2, 3, 4, 5, 6, 7];
    assert_eq!(get_drug_price(Drug::Weed, &prices), 1);
    assert_eq!(get_drug_price(Drug::Heroin, &prices), 4);
    assert_eq!(get_drug_price(Drug::Shrooms, &prices), 7);
}

#[test]
fn price_ranges() {
    assert_eq!(Drug::Weed.price_range(), (40, 80));
    assert_eq!(Drug::Heroin.price_range(), (100, 140));
    assert_eq!(Drug::Ecstasy.price_range(), (30, 70));
}

#[test]
fn generated_prices_lie_in_their_ranges() {
    for _ in 0..500 {
        let prices = get_rand_prices();
        for d in get_drug_list() {
            let (min, max) = d.price_range();
            let p = get_drug_price(d, &prices);
            assert!(min <= p && p <= max);
        }
    }
}

#[test]
fn random_drug_covers_the_catalog() {
    let mut seen = [false; 7];
    for _ in 0..2000 {
        seen[get_rand_drug().as_index()] = true;
    }
    assert!(seen.iter().all(|s| *s));
}
