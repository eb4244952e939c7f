use wee_alloc::exclusive::{Exclusive, CACHE_LINE_SIZE};

#[test]
fn repeated_increments_are_all_counted() {
    let rounds: u64 = 8;
    let per_round: u64 = 10000;
    let cell = Exclusive::new(0u64);
    for _ in 0..rounds {
        for _ in 0..per_round {
            cell.with_exclusive_access(|c| (c + 1, ()));
        }
    }
    assert_eq!(cell.into_inner(), rounds * per_round);
}

#[test]
fn fresh_cell_is_usable_at_once() {
    let cell = Exclusive::new(41u32);
    let seen = cell.with_exclusive_access(|v| (v + 1, v));
    assert_eq!(seen, 41);
    assert_eq!(cell.with_exclusive_access(|v| (v, v)), 42);
}

#[test]
fn default_cell_holds_default_value() {
    let cell: Exclusive<u64> = Exclusive::default();
    let seen = cell.with_exclusive_access(|v| (v + 5, v));
    assert_eq!(seen, 0);
    assert_eq!(cell.into_inner(), 5);
}

#[test]
fn access_returns_work_result_and_keeps_new_value() {
    let cell = Exclusive::new(vec![1u8, 2, 3]);
    let len = cell.with_exclusive_access(|mut v| {
        v.push(4);
        let n = v.len();
        (v, n)
    });
    assert_eq!(len, 4);
    assert_eq!(cell.into_inner(), vec![1u8, 2, 3, 4]);
}

#[test]
fn adjacent_cells_are_padded_by_a_cache_line() {
    assert_eq!(CACHE_LINE_SIZE, 64);
    let one = std::mem::size_of::<Exclusive<u64>>();
    assert!(one >= CACHE_LINE_SIZE + std::mem::size_of::<u64>());
    assert_eq!(std::mem::size_of::<[Exclusive<u64>; 2]>(), 2 * one);
}
