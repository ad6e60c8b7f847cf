//! Display-space selections and the ranges they span.
//!
//! An editor keeps a set of committed, disjoint selections plus an optional
//! pending selection that is still being dragged. A context menu deployed by
//! the mouse needs the display ranges of all of them to decide whether the
//! clicked point already lies inside a selection.

use vstd::prelude::*;

verus! {

/// A position in displayed text: a row and a column, both zero-based.
#[derive(Clone, Copy, PartialEq, Eq, Structural, Debug)]
pub struct DisplayPoint {
    pub row: u32,
    pub column: u32,
}

impl DisplayPoint {
    /// `self` comes strictly before `other` in reading order.
    pub open spec fn spec_before(self, other: DisplayPoint) -> bool {
        self.row < other.row || (self.row == other.row && self.column < other.column)
    }

    pub fn before(self, other: DisplayPoint) -> (r: bool)
        ensures
            r == self.spec_before(other),
    {
        self.row < other.row || (self.row == other.row && self.column < other.column)
    }
}

/// A selected region of displayed text, from `start` to `end`.
#[derive(Clone, Copy, PartialEq, Eq, Structural, Debug)]
pub struct Selection {
    pub start: DisplayPoint,
    pub end: DisplayPoint,
}

/// A half-open region of displayed text: all points `p` with
/// `start <= p < end` in reading order.
#[derive(Clone, Copy, PartialEq, Eq, Structural, Debug)]
pub struct DisplayRange {
    pub start: DisplayPoint,
    pub end: DisplayPoint,
}

impl DisplayRange {
    /// `p` lies inside the half-open range.
    pub open spec fn spec_contains(self, p: DisplayPoint) -> bool {
        !p.spec_before(self.start) && p.spec_before(self.end)
    }

    pub fn contains(self, p: DisplayPoint) -> (r: bool)
        ensures
            r == self.spec_contains(p),
    {
        !p.before(self.start) && p.before(self.end)
    }
}

/// The range a selection spans.
pub open spec fn spec_range_of(s: Selection) -> DisplayRange {
    DisplayRange { start: s.start, end: s.end }
}

/// The selections of an editor: the committed disjoint selections, in order,
/// and the optional pending one.
pub struct SelectionsCollection {
    pub disjoint: Vec<Selection>,
    pub pending: Option<Selection>,
}

impl SelectionsCollection {
    /// The ranges of all selections: the disjoint ones in order, then the
    /// pending one, if any.
    pub open spec fn spec_ranges(&self) -> Seq<DisplayRange> {
        let committed = self.disjoint@.map_values(|s: Selection| spec_range_of(s));
        match self.pending {
            Some(p) => committed.push(spec_range_of(p)),
            None => committed,
        }
    }
}

/// The display ranges of every selection, committed ones first and the
/// pending one last.
pub fn display_ranges(selections: &SelectionsCollection) -> (r: Vec<DisplayRange>)
    ensures
        r@ == selections.spec_ranges(),
{
    let mut r: Vec<DisplayRange> = Vec::new();
    let n = selections.disjoint.len();
    for i in 0..n
        invariant
            n == selections.disjoint.len(),
            r@ == selections.disjoint@.take(i as int).map_values(
                |s: Selection| spec_range_of(s),
            ),
    {
        let s = selections.disjoint[i];
        r.push(DisplayRange { start: s.start, end: s.end });
        proof {
            assert(selections.disjoint@.take(i + 1).drop_last() =~= selections.disjoint@.take(
                i as int,
            ));
            assert(r@ =~= selections.disjoint@.take(i + 1).map_values(
                |s: Selection| spec_range_of(s),
            ));
        }
    }
    proof {
        assert(selections.disjoint@.take(n as int) =~= selections.disjoint@);
    }
    if let Some(p) = &selections.pending {
        r.push(DisplayRange { start: p.start, end: p.end });
    }
    r
}

/// Whether some selection actually spans text. A menu offers work on the
/// selected text only when one does.
pub fn any_selection_nonempty(selections: &SelectionsCollection) -> (r: bool)
    ensures
        r == exists|i: int|
            0 <= i < selections.spec_ranges().len() && selections.spec_ranges()[i].start
                != selections.spec_ranges()[i].end,
{
    let ranges = display_ranges(selections);
    let n = ranges.len();
    for i in 0..n
        invariant
            n == ranges.len(),
            ranges@ == selections.spec_ranges(),
            forall|j: int|
                0 <= j < i ==> selections.spec_ranges()[j].start == selections.spec_ranges()[j].end,
    {
        let r = ranges[i];
        if r.start.row != r.end.row || r.start.column != r.end.column {
            proof {
                let k = i as int;
                assert(selections.spec_ranges()[k].start != selections.spec_ranges()[k].end);
            }
            return true;
        }
    }
    false
}

/// Whether the clicked point already lies inside one of the selection ranges;
/// when it does not, the caller moves the cursor to the clicked point before
/// deploying the menu.
pub fn any_range_contains(selections: &SelectionsCollection, point: DisplayPoint) -> (r: bool)
    ensures
        r == exists|i: int|
            0 <= i < selections.spec_ranges().len() && selections.spec_ranges()[i].spec_contains(
                point,
            ),
{
    let ranges = display_ranges(selections);
    let mut found = false;
    let n = ranges.len();
    for i in 0..n
        invariant
            n == ranges.len(),
            ranges@ == selections.spec_ranges(),
            found == exists|j: int|
                0 <= j < i && selections.spec_ranges()[j].spec_contains(point),
    {
        if ranges[i].contains(point) {
            found = true;
        }
    }
    found
}

} // verus!
