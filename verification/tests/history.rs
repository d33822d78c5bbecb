use ocw_demo::history::PriceHistory;
use ocw_demo::NUM_VEC_LEN;

#[test]
fn buffer_starts_empty() {
    let h = PriceHistory::new();
    assert_eq!(h.len(), 0);
    assert_eq!(h.get_price(), Vec::<u64>::new());
}

#[test]
fn buffer_appends_in_arrival_order() {
    let mut h = PriceHistory::new();
    h.append_or_replace_price(3);
    h.append_or_replace_price(1);
    h.append_or_replace_price(2);
    assert_eq!(h.get_price(), vec![3, 1, 2]);
}

#[test]
fn buffer_bound_keeps_last_ten() {
    // Capacity 10: after appending 1..=15 the buffer holds exactly the last
    // ten prices, in arrival order.
    assert_eq!(NUM_VEC_LEN, 10);
    let mut h = PriceHistory::new();
    for p in 1..=15u64 {
        h.append_or_replace_price(p);
        assert!(h.len() <= NUM_VEC_LEN);
    }
    assert_eq!(h.get_price(), vec![6, 7, 8, 9, 10, 11, 12, 13, 14, 15]);
}

#[test]
fn buffer_eviction_is_strict_fifo() {
    let mut h = PriceHistory::new();
    for p in 0..10u64 {
        h.append_or_replace_price(p);
    }
    assert_eq!(h.len(), 10);
    h.append_or_replace_price(100);
    assert_eq!(h.len(), 10);
    assert_eq!(h.get_price(), vec![1, 2, 3, 4, 5, 6, 7, 8, 9, 100]);
}
