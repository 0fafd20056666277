use crate::text::{append_decimal, decimal};
use std::cmp::Ordering;
use vstd::prelude::*;
use vstd::std_specs::cmp::PartialOrdSpecImpl;

verus! {

/// A zero-based position in a text: a row, and a column counted in bytes
/// within that row.
#[derive(Debug, Clone, Copy, PartialEq, Eq, Structural, Hash, Ord)]
pub struct Point {
    pub row: usize,
    pub column: usize,
}

/// A span of text, given both by its half-open byte offsets and by the
/// positions of its two ends.
#[derive(Debug, Clone, Copy, PartialEq, Eq, Structural, Hash, Ord)]
pub struct Range {
    pub start_byte: usize,
    pub end_byte: usize,
    pub start_point: Point,
    pub end_point: Point,
}

impl Point {
    /// Whether `self` comes strictly before `other`: by row, then by column.
    pub open spec fn precedes(self, other: Point) -> bool {
        self.row < other.row || (self.row == other.row && self.column < other.column)
    }

    /// How `self` stands to `other` in the order of positions.
    pub open spec fn order(self, other: Point) -> Ordering {
        if self.precedes(other) {
            Ordering::Less
        } else if self == other {
            Ordering::Equal
        } else {
            Ordering::Greater
        }
    }

    /// The short form, `(row, column)`.
    pub open spec fn short_text(self) -> Seq<char> {
        "("@ + decimal(self.row as nat) + ", "@ + decimal(self.column as nat) + ")"@
    }

    /// The labelled form, `#<Point(row, column)>`.
    pub open spec fn labelled_text(self) -> Seq<char> {
        "#<Point("@ + decimal(self.row as nat) + ", "@ + decimal(self.column as nat) + ")>"@
    }

    /// The field-by-field form, `Point { row: .., column: .. }`.
    pub open spec fn field_text(self) -> Seq<char> {
        "Point { row: "@ + decimal(self.row as nat) + ", column: "@ + decimal(self.column as nat)
            + " }"@
    }

    pub fn new(row: usize, column: usize) -> (p: Self)
        ensures
            p == (Point { row, column }),
    {
        Self { row, column }
    }

    pub fn get_row(&self) -> (row: usize)
        ensures
            row == self.row,
    {
        self.row
    }

    pub fn get_column(&self) -> (column: usize)
        ensures
            column == self.column,
    {
        self.column
    }

    pub fn to_s(&self) -> (s: String)
        ensures
            s@ == self.short_text(),
    {
        let mut s = String::from_str("(");
        append_decimal(&mut s, self.row);
        s.append(", ");
        append_decimal(&mut s, self.column);
        s.append(")");
        s
    }

    pub fn inspect(&self) -> (s: String)
        ensures
            s@ == self.labelled_text(),
    {
        let mut s = String::from_str("#<Point(");
        append_decimal(&mut s, self.row);
        s.append(", ");
        append_decimal(&mut s, self.column);
        s.append(")>");
        s
    }

    /// Appends the field-by-field form of `self` to `out`.
    pub fn append_fields(&self, out: &mut String)
        ensures
            final(out)@ == old(out)@ + self.field_text(),
    {
        out.append("Point { row: ");
        append_decimal(out, self.row);
        out.append(", column: ");
        append_decimal(out, self.column);
        out.append(" }");
        assert(out@ =~= old(out)@ + self.field_text());
    }
}

impl PartialOrd for Point {
    fn partial_cmp(&self, other: &Self) -> (r: Option<Ordering>) {
        if self.row < other.row || (self.row == other.row && self.column < other.column) {
            Some(Ordering::Less)
        } else if self.row == other.row && self.column == other.column {
            Some(Ordering::Equal)
        } else {
            Some(Ordering::Greater)
        }
    }
}

impl PartialOrdSpecImpl for Point {
    open spec fn obeys_partial_cmp_spec() -> bool {
        true
    }

    open spec fn partial_cmp_spec(&self, other: &Self) -> Option<Ordering> {
        Some(self.order(*other))
    }
}

impl Range {
    /// Whether `self` comes strictly before `other`: by start offset, then
    /// by end offset, then by start position, then by end position.
    pub open spec fn precedes(self, other: Range) -> bool {
        self.start_byte < other.start_byte || (self.start_byte == other.start_byte && (
        self.end_byte < other.end_byte || (self.end_byte == other.end_byte && (
        self.start_point.precedes(other.start_point) || (self.start_point == other.start_point
            && self.end_point.precedes(other.end_point))))))
    }

    /// How `self` stands to `other` in the order of spans.
    pub open spec fn order(self, other: Range) -> Ordering {
        if self.precedes(other) {
            Ordering::Less
        } else if self == other {
            Ordering::Equal
        } else {
            Ordering::Greater
        }
    }

    /// The short form, `(start..end)`, each end in the short form of a
    /// position.
    pub open spec fn short_text(self) -> Seq<char> {
        "("@ + self.start_point.short_text() + ".."@ + self.end_point.short_text() + ")"@
    }

    /// The labelled form, `#<Range(start_byte, end_byte, start, end)>`, each
    /// end in the field-by-field form of a position.
    pub open spec fn labelled_text(self) -> Seq<char> {
        "#<Range("@ + decimal(self.start_byte as nat) + ", "@ + decimal(self.end_byte as nat)
            + ", "@ + self.start_point.field_text() + ", "@ + self.end_point.field_text() + ")>"@
    }

    pub fn new(start_byte: usize, end_byte: usize, start_point: &Point, end_point: &Point) -> (r:
        Self)
        ensures
            r == (Range {
                start_byte,
                end_byte,
                start_point: *start_point,
                end_point: *end_point,
            }),
    {
        Self { start_byte, end_byte, start_point: *start_point, end_point: *end_point }
    }

    pub fn get_start_byte(&self) -> (b: usize)
        ensures
            b == self.start_byte,
    {
        self.start_byte
    }

    pub fn get_end_byte(&self) -> (b: usize)
        ensures
            b == self.end_byte,
    {
        self.end_byte
    }

    pub fn get_start_point(&self) -> (p: Point)
        ensures
            p == self.start_point,
    {
        self.start_point
    }

    pub fn get_end_point(&self) -> (p: Point)
        ensures
            p == self.end_point,
    {
        self.end_point
    }

    pub fn to_s(&self) -> (s: String)
        ensures
            s@ == self.short_text(),
    {
        let mut s = String::from_str("(");
        let start = self.start_point.to_s();
        s.append(start.as_str());
        s.append("..");
        let end = self.end_point.to_s();
        s.append(end.as_str());
        s.append(")");
        s
    }

    pub fn inspect(&self) -> (s: String)
        ensures
            s@ == self.labelled_text(),
    {
        let mut s = String::from_str("#<Range(");
        append_decimal(&mut s, self.start_byte);
        s.append(", ");
        append_decimal(&mut s, self.end_byte);
        s.append(", ");
        self.start_point.append_fields(&mut s);
        s.append(", ");
        self.end_point.append_fields(&mut s);
        s.append(")>");
        s
    }
}

impl PartialOrd for Range {
    fn partial_cmp(&self, other: &Self) -> (r: Option<Ordering>) {
        if self.start_byte != other.start_byte {
            if self.start_byte < other.start_byte {
                Some(Ordering::Less)
            } else {
                Some(Ordering::Greater)
            }
        } else if self.end_byte != other.end_byte {
            if self.end_byte < other.end_byte {
                Some(Ordering::Less)
            } else {
                Some(Ordering::Greater)
            }
        } else if self.start_point != other.start_point {
            self.start_point.partial_cmp(&other.start_point)
        } else {
            self.end_point.partial_cmp(&other.end_point)
        }
    }
}

impl PartialOrdSpecImpl for Range {
    open spec fn obeys_partial_cmp_spec() -> bool {
        true
    }

    open spec fn partial_cmp_spec(&self, other: &Self) -> Option<Ordering> {
        Some(self.order(*other))
    }
}

/// Two positions with equal fields are the same position.
pub proof fn lemma_point_equality(a: Point, b: Point)
    ensures
        a == b <==> (a.row == b.row && a.column == b.column),
{
}

/// Two spans with equal fields are the same span.
pub proof fn lemma_range_equality(a: Range, b: Range)
    ensures
        a == b <==> (a.start_byte == b.start_byte && a.end_byte == b.end_byte && a.start_point
            == b.start_point && a.end_point == b.end_point),
{
}

/// Of two positions exactly one holds: the first precedes the second, they
/// are equal, or the second precedes the first.
pub proof fn lemma_point_order_total(a: Point, b: Point)
    ensures
        a.precedes(b) || a == b || b.precedes(a),
        !(a.precedes(b) && a == b),
        !(a.precedes(b) && b.precedes(a)),
        a.order(b) == Ordering::Greater <==> b.precedes(a),
{
}

/// The order of positions is transitive.
pub proof fn lemma_point_order_transitive(a: Point, b: Point, c: Point)
    requires
        a.precedes(b),
        b.precedes(c),
    ensures
        a.precedes(c),
{
}

/// Of two spans exactly one holds: the first precedes the second, they are
/// equal, or the second precedes the first.
pub proof fn lemma_range_order_total(a: Range, b: Range)
    ensures
        a.precedes(b) || a == b || b.precedes(a),
        !(a.precedes(b) && a == b),
        !(a.precedes(b) && b.precedes(a)),
        a.order(b) == Ordering::Greater <==> b.precedes(a),
{
    lemma_point_order_total(a.start_point, b.start_point);
    lemma_point_order_total(a.end_point, b.end_point);
}

/// The order of spans is transitive.
pub proof fn lemma_range_order_transitive(a: Range, b: Range, c: Range)
    requires
        a.precedes(b),
        b.precedes(c),
    ensures
        a.precedes(c),
{
}

} // verus!
