use wamp_core::id::{WampId, DRAWS_PER_ID, MAX_ID};

const TWO_POW_53: u64 = 9_007_199_254_740_992;

#[test]
fn max_id_is_two_to_the_53() {
    assert_eq!(MAX_ID, TWO_POW_53);
    assert_eq!(MAX_ID, 1u64 << 53);
    assert_eq!(DRAWS_PER_ID, 1u64 << 11);
}

#[test]
fn from_random_masks_and_shifts() {
    assert_eq!(WampId::from_random(0).value(), 1);
    assert_eq!(WampId::from_random(1).value(), 2);
    assert_eq!(WampId::from_random(12_345).value(), 12_346);
    assert_eq!(WampId::from_random(TWO_POW_53 - 1).value(), TWO_POW_53);
    assert_eq!(WampId::from_random(TWO_POW_53).value(), 1);
    assert_eq!(WampId::from_random(TWO_POW_53 + 41).value(), 42);
    assert_eq!(WampId::from_random(u64::MAX).value(), TWO_POW_53);
    assert_eq!(WampId::from_random(u64::MAX - 1).value(), TWO_POW_53 - 1);
    assert_eq!(WampId::from_random(0xdead_beef_cafe_f00d).value(), 0x0d_beef_cafe_f00e);
}

#[test]
fn every_draw_of_an_id_gives_it_back() {
    for id in [1u64, 2, 77, TWO_POW_53 - 1, TWO_POW_53] {
        for draw in [0u64, 1, 2, 1000, DRAWS_PER_ID - 1] {
            let bits = (id - 1) + draw * MAX_ID;
            assert_eq!(WampId::from_random(bits).value(), id);
        }
    }
}

#[test]
fn bits_are_a_draw_of_their_id() {
    for bits in [0u64, 5, TWO_POW_53, 3 * TWO_POW_53 + 9, u64::MAX] {
        let id = WampId::from_random(bits).value();
        let draw = bits / MAX_ID;
        assert!(draw < DRAWS_PER_ID);
        assert_eq!(bits, id - 1 + draw * MAX_ID);
    }
}

#[test]
fn generated_ids_are_in_range() {
    for _ in 0..10_000 {
        let id = WampId::generate().value();
        assert!(1 <= id && id <= TWO_POW_53, "{}", id);
    }
}

#[test]
fn generated_ids_differ() {
    // Eight ids in a row from a working generator are not all the same.
    let first = WampId::generate();
    let mut all_equal = true;
    for _ in 0..8 {
        if WampId::generate() != first {
            all_equal = false;
        }
    }
    assert!(!all_equal);
}

#[test]
fn generated_low_bits_take_both_values() {
    let mut odd: u32 = 0;
    let total: u32 = 4_000;
    for _ in 0..total {
        if WampId::generate().value() % 2 == 1 {
            odd += 1;
        }
    }
    // A fair bit lands within 1200..2800 but for a chance far below 1e-100.
    assert!(1200 < odd && odd < 2800, "{}", odd);
}

#[test]
fn new_accepts_the_range_only() {
    assert!(WampId::new(0).is_none());
    assert_eq!(WampId::new(1).map(|id| id.value()), Some(1));
    assert_eq!(WampId::new(4711).map(|id| id.value()), Some(4711));
    assert_eq!(WampId::new(TWO_POW_53).map(|id| id.value()), Some(TWO_POW_53));
    assert!(WampId::new(TWO_POW_53 + 1).is_none());
    assert!(WampId::new(u64::MAX).is_none());
}

#[test]
fn ids_compare_by_value() {
    assert_eq!(WampId::from_random(6), WampId::new(7).unwrap());
    assert_ne!(WampId::from_random(6), WampId::from_random(7));
    let id = WampId::from_random(99);
    let copy = id;
    assert_eq!(id, copy);
    assert_eq!(id.clone().value(), 100);
}

#[test]
fn ids_print_as_decimal_numerals() {
    assert_eq!(WampId::new(1).unwrap().to_string(), "1");
    assert_eq!(WampId::new(9).unwrap().to_string(), "9");
    assert_eq!(WampId::new(10).unwrap().to_string(), "10");
    assert_eq!(WampId::new(1_000_000).unwrap().to_string(), "1000000");
    assert_eq!(WampId::new(9_080_706_050_403).unwrap().to_string(), "9080706050403");
    assert_eq!(WampId::new(TWO_POW_53).unwrap().to_string(), "9007199254740992");
    for _ in 0..200 {
        let id = WampId::generate();
        assert_eq!(id.to_string(), format!("{}", id.value()));
    }
}

#[test]
fn ids_generated_in_batches_are_all_in_range() {
    let batches: Vec<Vec<u64>> =
        (0..8).map(|_| (0..2_000).map(|_| WampId::generate().value()).collect()).collect();
    let mut seen: usize = 0;
    for batch in batches {
        for id in batch {
            assert!(1 <= id && id <= TWO_POW_53, "{}", id);
            seen += 1;
        }
    }
    assert_eq!(seen, 8 * 2_000);
}
