//! The ownership cell: every value inserted is handed back exactly once.

use kioto::atomic_cell::AtomicCell;

#[test]
fn swap_hands_back_each_occupant_once() {
    let mut cell: AtomicCell<u32> = AtomicCell::new(Some(Box::new(1)));
    assert_eq!(cell.swap(Some(Box::new(2))), Some(Box::new(1)));
    assert_eq!(cell.swap(Some(Box::new(3))), Some(Box::new(2)));
    assert_eq!(cell.take(), Some(Box::new(3)));
    assert_eq!(cell.take(), None);
    cell.set(Box::new(4));
    assert_eq!(cell.take(), Some(Box::new(4)));
    assert_eq!(cell.take(), None);
}

#[test]
fn new_empty_cell_starts_empty() {
    let mut cell: AtomicCell<u32> = AtomicCell::new(None);
    assert_eq!(cell.take(), None);
    assert_eq!(cell.swap(Some(Box::new(7))), None);
    assert_eq!(cell.take(), Some(Box::new(7)));
}

#[test]
fn interleaved_swap_streams_account_for_every_value() {
    // Two callers' swap streams, interleaved round-robin over one cell
    // seeded with distinct integers: across both streams every value must
    // be retrieved by exactly one swap, with the final resident closing the
    // books.
    const PER_STREAM: u64 = 100_000;
    let total: u64 = 2 * PER_STREAM; // values 1 ..= total, seed 0
    let mut cell: AtomicCell<u64> = AtomicCell::new(Some(Box::new(0)));
    let mut seen = vec![0u32; (total + 1) as usize];
    let mut a: u64 = 1; // stream one inserts odd values
    let mut b: u64 = 2; // stream two inserts even values
    for _ in 0..PER_STREAM {
        if let Some(prev) = cell.swap(Some(Box::new(a))) {
            seen[*prev as usize] += 1;
        }
        a += 2;
        if let Some(prev) = cell.swap(Some(Box::new(b))) {
            seen[*prev as usize] += 1;
        }
        b += 2;
    }
    if let Some(last) = cell.take() {
        seen[*last as usize] += 1;
    }
    for (value, count) in seen.iter().enumerate() {
        assert_eq!(*count, 1, "value {} retrieved {} times", value, count);
    }
}
