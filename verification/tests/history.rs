//! The bounded metric history: retention, trimming and gap semantics.

use gpustat::GraphViewerData;

#[test]
fn empty_history_reads_none() {
    let h = GraphViewerData::new();
    assert_eq!(h.get_value_at(0), None);
    assert_eq!(h.get_value_at(17), None);
}

#[test]
fn push_order_is_most_recent_first() {
    let mut h = GraphViewerData::new();
    h.update(Some(1));
    h.update(Some(2));
    h.update(Some(3));
    assert_eq!(h.get_value_at(0), Some(3));
    assert_eq!(h.get_value_at(1), Some(2));
    assert_eq!(h.get_value_at(2), Some(1));
    assert_eq!(h.get_value_at(3), None);
}

#[test]
fn gap_is_kept_in_place_and_distinct_from_out_of_bounds() {
    let mut h = GraphViewerData::new();
    h.update(Some(0));
    h.update(None);
    h.update(Some(7));
    assert_eq!(h.get_value_at(0), Some(7));
    assert_eq!(h.get_value_at(1), None); // a stored gap
    assert_eq!(h.get_value_at(2), Some(0)); // a real zero reading survives
    assert_eq!(h.get_value_at(3), None); // out of bounds
}

#[test]
fn capacity_plus_k_pushes_keep_exactly_the_last_capacity() {
    let capacity: u64 = 5000;
    let k: u64 = 3;
    let mut h = GraphViewerData::new();
    let mut v: u64 = 1;
    while v <= capacity + k {
        h.update(Some(v));
        v += 1;
    }
    // Most recent first: index i holds the (capacity + k - i)-th pushed value.
    assert_eq!(h.get_value_at(0), Some(capacity + k));
    assert_eq!(h.get_value_at(1), Some(capacity + k - 1));
    assert_eq!(h.get_value_at(4999), Some(k + 1));
    // The k oldest pushes fell off.
    assert_eq!(h.get_value_at(5000), None);
    assert_eq!(h.get_value_at(5001), None);
}

#[test]
fn exactly_capacity_pushes_all_recoverable() {
    let capacity: u64 = 5000;
    let mut h = GraphViewerData::new();
    let mut v: u64 = 1;
    while v <= capacity {
        h.update(Some(v));
        v += 1;
    }
    assert_eq!(h.get_value_at(0), Some(capacity));
    assert_eq!(h.get_value_at(4999), Some(1));
    assert_eq!(h.get_value_at(5000), None);
}
