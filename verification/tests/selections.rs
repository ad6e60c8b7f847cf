//! Display-space selections and their ranges.

use remote_servers::selections::{
    any_range_contains, any_selection_nonempty, display_ranges, DisplayPoint, Selection,
    SelectionsCollection,
};

fn p(row: u32, column: u32) -> DisplayPoint {
    DisplayPoint { row, column }
}

fn sel(start: DisplayPoint, end: DisplayPoint) -> Selection {
    Selection { start, end }
}

#[test]
fn ranges_keep_order_and_append_pending() {
    let selections = SelectionsCollection {
        disjoint: vec![sel(p(0, 1), p(0, 4)), sel(p(2, 0), p(3, 0))],
        pending: Some(sel(p(5, 5), p(5, 9))),
    };
    let ranges = display_ranges(&selections);
    assert_eq!(ranges.len(), 3);
    assert_eq!((ranges[0].start, ranges[0].end), (p(0, 1), p(0, 4)));
    assert_eq!((ranges[1].start, ranges[1].end), (p(2, 0), p(3, 0)));
    assert_eq!((ranges[2].start, ranges[2].end), (p(5, 5), p(5, 9)));
}

#[test]
fn no_pending_yields_only_disjoint_ranges() {
    let selections = SelectionsCollection {
        disjoint: vec![sel(p(1, 0), p(1, 2))],
        pending: None,
    };
    assert_eq!(display_ranges(&selections).len(), 1);
}

#[test]
fn containment_is_half_open() {
    let selections = SelectionsCollection {
        disjoint: vec![sel(p(0, 2), p(0, 5))],
        pending: None,
    };
    assert!(!any_range_contains(&selections, p(0, 1)));
    assert!(any_range_contains(&selections, p(0, 2)));
    assert!(any_range_contains(&selections, p(0, 4)));
    assert!(!any_range_contains(&selections, p(0, 5)));
}

#[test]
fn empty_and_nonempty_selections_are_told_apart() {
    let collapsed = SelectionsCollection {
        disjoint: vec![sel(p(0, 3), p(0, 3)), sel(p(1, 0), p(1, 0))],
        pending: None,
    };
    assert!(!any_selection_nonempty(&collapsed));

    let with_span = SelectionsCollection {
        disjoint: vec![sel(p(0, 3), p(0, 3))],
        pending: Some(sel(p(2, 0), p(2, 8))),
    };
    assert!(any_selection_nonempty(&with_span));
}

#[test]
fn pending_selection_counts_for_containment() {
    let selections = SelectionsCollection {
        disjoint: vec![],
        pending: Some(sel(p(1, 0), p(2, 0))),
    };
    assert!(any_range_contains(&selections, p(1, 99)));
    assert!(!any_range_contains(&selections, p(2, 0)));
}
