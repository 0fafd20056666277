use tree_stump::data::{Point, Range};
use tree_stump::error::Error;
use tree_stump::parser::Parser;
use tree_stump::registry::GrammarRegistry;
use tree_stump::tree::{Node, Tree, TreeCursor};

const SOURCE: &str = "{\"a\": [1, 2, 3], \"b\": {\"c\": null}}";

fn parse(source: &str) -> Tree {
    let mut registry = GrammarRegistry::new();
    registry.register("json".to_string(), None, tree_sitter_json::language());
    let mut parser = Parser::new();
    parser.set_language(&registry, "json").unwrap();
    parser.parse(source).unwrap()
}

fn kinds(nodes: &[Node]) -> Vec<&'static str> {
    nodes.iter().map(|node| node.kind()).collect()
}

fn spans(nodes: &[Node]) -> Vec<(usize, usize)> {
    nodes.iter().map(|node| node.byte_range()).collect()
}

fn ids_by_children(node: &Node, ids: &mut Vec<usize>) {
    ids.push(node.id());
    for child in node.children() {
        ids_by_children(&child, ids);
    }
}

fn ids_by_cursor(cursor: &mut TreeCursor, ids: &mut Vec<usize>) {
    loop {
        ids.push(cursor.node().id());
        if cursor.goto_first_child() {
            continue;
        }
        loop {
            if cursor.goto_next_sibling() {
                break;
            }
            if !cursor.goto_parent() {
                return;
            }
        }
    }
}

fn check_children_of(node: &Node) {
    let children = node.children();
    assert_eq!(children.len(), node.child_count());
    for pair in children.windows(2) {
        assert!(pair[0].start_byte() < pair[1].start_byte());
    }
    for (i, child) in children.iter().enumerate() {
        assert_eq!(node.child(i).unwrap().id(), child.id());
        check_children_of(child);
    }
    assert!(node.child(children.len()).is_none());
}

fn check_smallest(root: &Node, start: usize, end: usize) {
    let found = root.descendant_for_byte_range(start, end).unwrap();
    assert!(found.start_byte() <= start && end <= found.end_byte());
    for child in found.children() {
        assert!(!(child.start_byte() <= start && end <= child.end_byte()));
    }
}

#[test]
fn root_spans_the_whole_source() {
    let tree = parse(SOURCE);
    assert_eq!(tree.root_node().byte_range(), (0, SOURCE.len()));
    assert_eq!(tree.root_node().byte_range(), (0, 34));
    assert_eq!(tree.root_node().kind(), "document");
    assert!(tree.root_node().parent().is_none());
}

#[test]
fn root_leaves_out_leading_blanks() {
    let tree = parse("  \n [1]");
    assert_eq!(tree.root_node().byte_range(), (4, 7));
    assert_eq!(
        tree.root_node().range(),
        Range::new(4, 7, &Point::new(1, 1), &Point::new(1, 4))
    );
}

#[test]
fn children_are_counted_and_ordered() {
    let tree = parse(SOURCE);
    check_children_of(&tree.root_node());
    let object = tree.root_node().child(0).unwrap();
    let children = object.children();
    assert_eq!(object.child_count(), 5);
    assert_eq!(kinds(&children), vec!["{", "pair", ",", "pair", "}"]);
    assert_eq!(spans(&children), vec![(0, 1), (1, 15), (15, 16), (17, 33), (33, 34)]);
}

#[test]
fn named_children_leave_out_the_punctuation() {
    let tree = parse(SOURCE);
    let object = tree.root_node().child(0).unwrap();
    assert_eq!(object.named_child_count(), 2);
    let mut cursor = tree.walk();
    let named = object.named_children_with_cursor(&mut cursor);
    assert_eq!(kinds(&named), vec!["pair", "pair"]);
    assert_eq!(spans(&named), vec![(1, 15), (17, 33)]);
    assert_eq!(object.named_child(1).unwrap().id(), named[1].id());
    assert!(object.named_child(2).is_none());
}

#[test]
fn children_with_cursor_agree_with_children() {
    let tree = parse(SOURCE);
    let object = tree.root_node().child(0).unwrap();
    let mut cursor = tree.walk();
    let with_cursor = object.children_with_cursor(&mut cursor);
    let plain = object.children();
    assert_eq!(with_cursor.len(), plain.len());
    for (a, b) in with_cursor.iter().zip(plain.iter()) {
        assert!(a == b);
        assert_eq!(a.id(), b.id());
    }
}

#[test]
fn children_by_field() {
    let tree = parse(SOURCE);
    let pair = tree.root_node().child(0).unwrap().child(1).unwrap();
    let mut cursor = tree.walk();
    let keys = pair.children_by_field_name_with_cursor("key", &mut cursor);
    assert_eq!(spans(&keys), vec![(1, 4)]);
    let values = pair.children_by_field_name_with_cursor("value", &mut cursor);
    assert_eq!(kinds(&values), vec!["array"]);
    let none = pair.children_by_field_name_with_cursor("no_such_field", &mut cursor);
    assert!(none.is_empty());
    let value_field = tree.language().field_id_for_name("value").unwrap();
    let by_id = pair.children_by_field_id_with_cursor(value_field, &mut cursor).unwrap();
    assert_eq!(spans(&by_id), vec![(6, 15)]);
    assert_eq!(pair.child_by_field_id(value_field).unwrap().id(), by_id[0].id());
    assert_eq!(pair.child_by_field_name("key").unwrap().id(), keys[0].id());
    assert!(pair.child_by_field_name("no_such_field").is_none());
    assert!(pair.child_by_field_id(0).is_none());
}

#[test]
fn field_zero_is_a_usage_error() {
    let tree = parse(SOURCE);
    let pair = tree.root_node().child(0).unwrap().child(1).unwrap();
    let mut cursor = tree.walk();
    cursor.goto_first_child();
    let before = cursor.node().id();
    let error = pair.children_by_field_id_with_cursor(0, &mut cursor).err().unwrap();
    assert_eq!(error, Error::ZeroFieldId);
    assert_eq!(error.message(), "field_id must be non-zero");
    assert!(error.is_usage());
    assert_eq!(cursor.node().id(), before);
}

#[test]
fn field_names_of_children() {
    let tree = parse(SOURCE);
    let pair = tree.root_node().child(0).unwrap().child(1).unwrap();
    assert_eq!(pair.field_name_for_child(0), Some("key"));
    assert_eq!(pair.field_name_for_child(1), None);
    assert_eq!(pair.field_name_for_child(2), Some("value"));
    assert_eq!(pair.field_name_for_child(3), None);
}

#[test]
fn cursor_walk_visits_what_children_enumerate() {
    for source in [SOURCE, "[1, [2, [3, {\"k\": [true, false]}]], null]", "7", "[1 2,]"] {
        let tree = parse(source);
        let mut by_children = Vec::new();
        ids_by_children(&tree.root_node(), &mut by_children);
        let mut by_cursor = Vec::new();
        ids_by_cursor(&mut tree.walk(), &mut by_cursor);
        assert_eq!(by_children, by_cursor);
        assert_eq!(by_children.len(), tree.root_node().descendant_count());
    }
}

#[test]
fn descendant_for_byte_range_is_the_smallest_that_spans_it() {
    let tree = parse(SOURCE);
    let root = tree.root_node();
    let found = root.descendant_for_byte_range(7, 8).unwrap();
    assert_eq!((found.kind(), found.byte_range()), ("number", (7, 8)));
    let found = root.descendant_for_byte_range(7, 11).unwrap();
    assert_eq!((found.kind(), found.byte_range()), ("array", (6, 15)));
    for start in 0..SOURCE.len() {
        for end in (start + 1)..=SOURCE.len() {
            check_smallest(&root, start, end);
        }
    }
}

#[test]
fn descendant_for_a_range_outside_the_node_is_the_node() {
    let tree = parse(SOURCE);
    let root = tree.root_node();
    let found = root.descendant_for_byte_range(100, 200).unwrap();
    assert_eq!((found.kind(), found.byte_range()), ("document", (0, 34)));
}

#[test]
fn named_descendants_and_point_ranges() {
    let tree = parse(SOURCE);
    let root = tree.root_node();
    let found = root.descendant_for_byte_range(6, 7).unwrap();
    assert_eq!((found.kind(), found.byte_range()), ("[", (6, 7)));
    let found = root.named_descendant_for_byte_range(6, 7).unwrap();
    assert_eq!((found.kind(), found.byte_range()), ("array", (6, 15)));
    let found = root.descendant_for_point_range((0, 6), (0, 7)).unwrap();
    assert_eq!((found.kind(), found.byte_range()), ("[", (6, 7)));
    let found = root.named_descendant_for_point_range((0, 6), (0, 7)).unwrap();
    assert_eq!((found.kind(), found.byte_range()), ("array", (6, 15)));
    let found = root.descendant_for_point_range((0, 7), (0, 8)).unwrap();
    assert_eq!((found.kind(), found.byte_range()), ("number", (7, 8)));
}

#[test]
fn siblings_and_parents() {
    let tree = parse(SOURCE);
    let object = tree.root_node().child(0).unwrap();
    let first_pair = object.child(1).unwrap();
    let comma = first_pair.next_sibling().unwrap();
    assert_eq!(comma.kind(), ",");
    assert_eq!(comma.prev_sibling().unwrap().id(), first_pair.id());
    let second_pair = first_pair.next_named_sibling().unwrap();
    assert_eq!(second_pair.byte_range(), (17, 33));
    assert_eq!(second_pair.prev_named_sibling().unwrap().id(), first_pair.id());
    assert!(second_pair.next_named_sibling().is_none());
    assert!(object.child(0).unwrap().prev_sibling().is_none());
    assert_eq!(first_pair.parent().unwrap().id(), object.id());
    assert_eq!(object.parent().unwrap().id(), tree.root_node().id());
    let number = tree.root_node().descendant_for_byte_range(7, 8).unwrap();
    let holder = object.child_containing_descendant(&number).unwrap();
    assert_eq!(holder.id(), first_pair.id());
    assert!(number.child_containing_descendant(&object).is_none());
}

#[test]
fn node_introspection() {
    let tree = parse(SOURCE);
    let object = tree.root_node().child(0).unwrap();
    assert_eq!(object.kind(), "object");
    assert_eq!(object.grammar_name(), "object");
    assert_eq!(object.kind_id(), 17);
    assert_eq!(object.grammar_id(), 17);
    assert_eq!(tree.language().node_kind_for_id(object.kind_id()), Some("object"));
    assert!(object.is_named());
    assert!(!object.child(0).unwrap().is_named());
    assert!(!object.is_extra());
    assert!(!object.has_changes());
    assert!(!object.has_error());
    assert!(!object.is_error());
    assert_eq!(object.parse_state(), 1);
    assert_eq!(object.next_parse_state(), 8);
    assert_eq!(object.start_byte(), 0);
    assert_eq!(object.end_byte(), 34);
    assert_eq!(object.start_position(), Point::new(0, 0));
    assert_eq!(object.end_position(), Point::new(0, 34));
    assert_eq!(object.range(), Range::new(0, 34, &Point::new(0, 0), &Point::new(0, 34)));
    assert_eq!(object.descendant_count(), 34);
    assert_eq!(object.language().version(), tree.language().version());
}

#[test]
fn positions_count_rows_and_byte_columns() {
    let tree = parse("[\n  \"\u{e9}\",\n  12\n]");
    let array = tree.root_node().child(0).unwrap();
    let string = array.child(1).unwrap();
    assert_eq!(string.byte_range(), (4, 8));
    assert_eq!(string.start_position(), Point::new(1, 2));
    assert_eq!(string.end_position(), Point::new(1, 6));
    let number = array.child(3).unwrap();
    assert_eq!(number.range(), Range::new(12, 14, &Point::new(2, 2), &Point::new(2, 4)));
    assert_eq!(number.range().to_s(), "((2, 2)..(2, 4))");
}

#[test]
fn errors_in_the_source_show_in_the_tree() {
    let tree = parse("[1 2,]");
    let root = tree.root_node();
    assert_eq!(root.to_sexp(), "(document (array (number) (ERROR (number))))");
    assert!(root.has_error());
    assert!(!root.is_error());
    let array = root.child(0).unwrap();
    let error = array.child(2).unwrap();
    assert_eq!(error.kind(), "ERROR");
    assert!(error.is_error());
    assert_eq!(error.byte_range(), (3, 5));
}

#[test]
fn text_of_nodes() {
    let tree = parse(SOURCE);
    let object = tree.root_node().child(0).unwrap();
    let pair = object.child(1).unwrap();
    assert_eq!(pair.utf8_text(SOURCE), Some("\"a\": [1, 2, 3]".to_string()));
    assert_eq!(object.child(0).unwrap().utf8_text(SOURCE), Some("{".to_string()));
    assert_eq!(tree.root_node().utf8_text(SOURCE), Some(SOURCE.to_string()));
}

#[test]
fn text_from_another_source_is_absent_or_garbage_but_never_a_panic() {
    let tree = parse(SOURCE);
    let pair = tree.root_node().child(0).unwrap().child(1).unwrap();
    assert_eq!(pair.utf8_text("short"), None);
    assert_eq!(pair.utf8_text(""), None);
    assert_eq!(pair.utf8_text("0123456789abcdefghij"), Some("123456789abcde".to_string()));
    assert_eq!(pair.utf8_text("\u{e9}\u{e9}\u{e9}\u{e9}\u{e9}\u{e9}\u{e9}\u{e9}"), None);
    assert_eq!(
        pair.utf8_text("x\u{e9}\u{e9}\u{e9}\u{e9}\u{e9}\u{e9}\u{e9}y"),
        Some("\u{e9}\u{e9}\u{e9}\u{e9}\u{e9}\u{e9}\u{e9}".to_string())
    );
}

#[test]
fn debug_texts() {
    let tree = parse(SOURCE);
    let root = tree.root_node();
    assert_eq!(tree.inspect(), "{Tree {Node document (0, 0) - (0, 34)}}");
    assert_eq!(root.inspect(), "{Node document (0, 0) - (0, 34)}");
    assert_eq!(root.to_s(), root.to_sexp());
    let number = root.descendant_for_byte_range(7, 8).unwrap();
    assert_eq!(number.to_sexp(), "(number)");
    assert_eq!(number.to_s(), "(number)");
    assert_eq!(number.inspect(), "{Node number (0, 7) - (0, 8)}");
}

#[test]
fn nodes_are_equal_by_identity_and_hash_alike() {
    let tree = parse(SOURCE);
    let object = tree.root_node().child(0).unwrap();
    let direct = object.child(1).unwrap();
    let by_sibling = object.child(0).unwrap().next_sibling().unwrap();
    let copy = direct.clone();
    assert!(direct == by_sibling);
    assert!(direct == copy);
    assert_eq!(direct.hash_key(), by_sibling.hash_key());
    assert_eq!(direct.hash_key(), copy.hash_key());
    assert_eq!(direct.hash_key(), direct.id());
    assert!(direct != object);
    assert!(direct != object.child(3).unwrap());
    assert!(direct.get_raw_node() == copy.get_raw_node());
}

#[test]
fn equal_texts_parsed_twice_give_different_nodes() {
    let first = parse("[1]");
    let second = parse("[1]");
    assert!(first.root_node() != second.root_node());
}

#[test]
fn nodes_outlive_the_handle_they_came_from() {
    let tree = parse(SOURCE);
    let raw = std::sync::Arc::new(tree.get_raw_tree().clone());
    let rebuilt = Tree::from(raw);
    assert_eq!(rebuilt.root_node().to_sexp(), tree.root_node().to_sexp());
    let root = tree.root_node();
    let handle = std::sync::Arc::clone(root.get_raw_tree());
    assert!(std::sync::Arc::strong_count(&handle) >= 3);
    let child = root.child(0).unwrap();
    assert!(std::sync::Arc::ptr_eq(&handle, child.get_raw_tree()));
    let cursor = child.walk();
    assert!(std::sync::Arc::ptr_eq(&handle, cursor.node().get_raw_tree()));
}

#[test]
fn cursor_steps_stop_at_the_borders() {
    let tree = parse(SOURCE);
    let mut cursor = tree.walk();
    assert_eq!(cursor.node().kind(), "document");
    assert_eq!(cursor.field_id(), None);
    assert!(!cursor.goto_parent());
    assert!(!cursor.goto_next_sibling());
    assert!(!cursor.goto_previous_sibling());
    assert!(cursor.goto_first_child());
    assert_eq!(cursor.node().kind(), "object");
    assert!(cursor.goto_last_child());
    assert_eq!(cursor.node().kind(), "}");
    assert!(!cursor.goto_first_child());
    assert!(!cursor.goto_last_child());
    assert!(!cursor.goto_next_sibling());
    assert!(cursor.goto_previous_sibling());
    assert_eq!(cursor.node().byte_range(), (17, 33));
    assert!(cursor.goto_first_child());
    assert_eq!(cursor.node().kind(), "string");
    assert_eq!(cursor.field_id(), tree.language().field_id_for_name("key"));
    assert!(cursor.goto_parent());
    assert_eq!(cursor.node().kind(), "pair");
}

#[test]
fn cursor_jumps() {
    let tree = parse(SOURCE);
    let mut cursor = tree.walk();
    cursor.goto_descendant(3);
    assert_eq!((cursor.node().kind(), cursor.node().byte_range()), ("pair", (1, 15)));
    cursor.goto_descendant(0);
    assert_eq!(cursor.node().kind(), "document");
    assert!(cursor.goto_first_child());
    assert_eq!(cursor.goto_first_child_for_byte(16), Some(2));
    assert_eq!(cursor.node().kind(), ",");
    assert!(cursor.goto_parent());
    assert_eq!(cursor.goto_first_child_for_byte(100), None);
    assert_eq!(cursor.node().kind(), "object");
}

#[test]
fn cursor_resets() {
    let tree = parse(SOURCE);
    let number = tree.root_node().descendant_for_byte_range(10, 11).unwrap();
    let mut cursor = tree.walk();
    assert!(cursor.reset(&number));
    assert_eq!(cursor.node().id(), number.id());
    assert!(!cursor.goto_parent());
    let mut other = tree.walk();
    other.goto_first_child();
    other.goto_first_child();
    cursor.reset_to(&other);
    assert_eq!(cursor.node().kind(), "{");
    assert!(cursor.goto_parent());
    assert_eq!(cursor.node().kind(), "object");
}

#[test]
fn cursor_put_on_another_tree_keeps_that_tree() {
    let first = parse("[1]");
    let root;
    let mut cursor;
    {
        let second = parse("{\"k\": 2}");
        root = second.root_node().get_raw_tree().clone();
        cursor = first.walk();
        let rebuilt = Tree::from(std::sync::Arc::clone(&root));
        assert_eq!(rebuilt.root_node().kind(), "document");
    }
    assert_eq!(cursor.node().to_sexp(), "(document (array (number)))");
    assert!(cursor.goto_first_child());
    assert_eq!(cursor.node().kind(), "array");
    assert_eq!(std::sync::Arc::strong_count(&root), 1);
}

#[test]
fn node_walk_starts_on_the_node() {
    let tree = parse(SOURCE);
    let pair = tree.root_node().child(0).unwrap().child(3).unwrap();
    let mut cursor = pair.walk();
    assert_eq!(cursor.node().id(), pair.id());
    assert!(!cursor.goto_parent());
    assert!(!cursor.goto_next_sibling());
    assert!(cursor.goto_first_child());
    assert_eq!(cursor.node().byte_range(), (17, 20));
}

#[test]
fn cursor_put_on_a_node_visits_its_children_in_order() {
    let tree = parse(SOURCE);
    let mut nodes = vec![tree.root_node()];
    while let Some(node) = nodes.pop() {
        let children = node.children();
        let mut cursor = node.walk();
        let mut visited = Vec::new();
        if cursor.goto_first_child() {
            loop {
                visited.push(cursor.node().id());
                if !cursor.goto_next_sibling() {
                    break;
                }
            }
        }
        let listed: Vec<usize> = children.iter().map(|child| child.id()).collect();
        assert_eq!(visited, listed);
        assert_eq!(listed.len(), node.child_count());
        nodes.extend(children);
    }
}

#[test]
fn children_with_cursor_leave_the_cursor_on_the_last_child() {
    let tree = parse(SOURCE);
    let object = tree.root_node().child(0).unwrap();
    let mut cursor = tree.walk();
    let children = object.children_with_cursor(&mut cursor);
    assert_eq!(cursor.node().id(), children[4].id());
    assert_eq!(cursor.node().kind(), "}");
    assert!(cursor.goto_parent());
    assert_eq!(cursor.node().id(), object.id());
    assert!(!cursor.goto_parent());
}
