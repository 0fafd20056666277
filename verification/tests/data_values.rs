use std::collections::hash_map::DefaultHasher;
use std::hash::{Hash, Hasher};
use tree_stump::data::{Point, Range};
use tree_stump::text::append_decimal;

fn hash_of<T: Hash>(value: &T) -> u64 {
    let mut hasher = DefaultHasher::new();
    value.hash(&mut hasher);
    hasher.finish()
}

#[test]
fn point_round_trip() {
    let point = Point::new(2, 5);
    assert_eq!(point.get_row(), 2);
    assert_eq!(point.get_column(), 5);
    assert_eq!(point.row, 2);
    assert_eq!(point.column, 5);
}

#[test]
fn points_with_equal_fields_are_equal_and_hash_alike() {
    let a = Point::new(2, 5);
    let b = Point { row: 2, column: 5 };
    assert_eq!(a, b);
    assert_eq!(hash_of(&a), hash_of(&b));
    assert_ne!(a, Point::new(5, 2));
    assert_ne!(a, Point::new(2, 6));
}

#[test]
fn ranges_with_equal_fields_are_equal_and_hash_alike() {
    let a = Range::new(3, 9, &Point::new(0, 3), &Point::new(1, 2));
    let b = Range {
        start_byte: 3,
        end_byte: 9,
        start_point: Point { row: 0, column: 3 },
        end_point: Point { row: 1, column: 2 },
    };
    assert_eq!(a, b);
    assert_eq!(hash_of(&a), hash_of(&b));
    assert_ne!(a, Range::new(3, 10, &Point::new(0, 3), &Point::new(1, 2)));
    assert_ne!(a, Range::new(3, 9, &Point::new(0, 3), &Point::new(1, 3)));
}

#[test]
fn range_round_trip() {
    let range = Range::new(3, 9, &Point::new(0, 3), &Point::new(1, 2));
    assert_eq!(range.get_start_byte(), 3);
    assert_eq!(range.get_end_byte(), 9);
    assert_eq!(range.get_start_point(), Point::new(0, 3));
    assert_eq!(range.get_end_point(), Point::new(1, 2));
}

#[test]
fn point_texts() {
    let point = Point::new(2, 5);
    assert_eq!(point.to_s(), "(2, 5)");
    assert_eq!(point.inspect(), "#<Point(2, 5)>");
    assert_eq!(Point::new(0, 0).to_s(), "(0, 0)");
    assert_eq!(Point::new(120, 4096).to_s(), "(120, 4096)");
    assert_eq!(Point::new(10, 100).inspect(), "#<Point(10, 100)>");
}

#[test]
fn point_field_text_is_the_derived_debug_text() {
    let point = Point::new(17, 203);
    let mut text = String::from(">");
    point.append_fields(&mut text);
    assert_eq!(text, format!(">{:?}", point));
    assert_eq!(text, ">Point { row: 17, column: 203 }");
}

#[test]
fn range_texts() {
    let range = Range::new(3, 19, &Point::new(0, 3), &Point::new(1, 12));
    assert_eq!(range.to_s(), "((0, 3)..(1, 12))");
    assert_eq!(
        range.inspect(),
        "#<Range(3, 19, Point { row: 0, column: 3 }, Point { row: 1, column: 12 })>"
    );
}

#[test]
fn decimal_numerals() {
    for (number, numeral) in [
        (0usize, "0"),
        (7, "7"),
        (9, "9"),
        (10, "10"),
        (99, "99"),
        (100, "100"),
        (1234567890, "1234567890"),
    ] {
        let mut text = String::from("n=");
        append_decimal(&mut text, number);
        assert_eq!(text, format!("n={}", numeral));
    }
    let mut text = String::new();
    append_decimal(&mut text, usize::MAX);
    assert_eq!(text, usize::MAX.to_string());
}

#[test]
fn points_are_ordered_by_row_then_column() {
    assert!(Point::new(1, 9) < Point::new(2, 0));
    assert!(Point::new(2, 0) < Point::new(2, 1));
    assert!(Point::new(2, 1) > Point::new(1, 100));
    assert!(Point::new(2, 1) <= Point::new(2, 1));
    assert_eq!(
        Point::new(2, 1).partial_cmp(&Point::new(2, 1)),
        Some(std::cmp::Ordering::Equal)
    );
    assert_eq!(
        Point::new(3, 0).partial_cmp(&Point::new(2, 7)),
        Some(std::cmp::Ordering::Greater)
    );
}

#[test]
fn point_order_agrees_with_the_total_order() {
    let points = [
        Point::new(0, 0),
        Point::new(0, 1),
        Point::new(1, 0),
        Point::new(1, 1),
        Point::new(2, 0),
    ];
    for a in points {
        for b in points {
            assert_eq!(a.partial_cmp(&b), Some(a.cmp(&b)));
            assert_eq!(a.partial_cmp(&b), (a.row, a.column).partial_cmp(&(b.row, b.column)));
        }
    }
}

#[test]
fn ranges_are_ordered_by_offsets_then_points() {
    let origin = Point::new(0, 0);
    let later = Point::new(0, 1);
    let base = Range::new(1, 5, &origin, &later);
    assert!(base < Range::new(2, 0, &origin, &origin));
    assert!(base < Range::new(1, 6, &origin, &origin));
    assert!(base < Range::new(1, 5, &later, &origin));
    assert!(base < Range::new(1, 5, &origin, &Point::new(0, 2)));
    assert!(base > Range::new(1, 5, &origin, &origin));
    assert_eq!(base.partial_cmp(&base), Some(std::cmp::Ordering::Equal));
}

#[test]
fn range_order_agrees_with_the_total_order() {
    let points = [Point::new(0, 0), Point::new(0, 2), Point::new(1, 0)];
    let mut ranges = Vec::new();
    for start_byte in [0usize, 3] {
        for end_byte in [3usize, 4] {
            for start in points {
                for end in points {
                    ranges.push(Range::new(start_byte, end_byte, &start, &end));
                }
            }
        }
    }
    for a in &ranges {
        for b in &ranges {
            assert_eq!(a.partial_cmp(b), Some(a.cmp(b)));
        }
    }
}
