use tree_stump::parser::Parser;
use tree_stump::registry::GrammarRegistry;
use tree_stump::tree::Tree;

fn parse(source: &str) -> Tree {
    let mut registry = GrammarRegistry::new();
    registry.register("json".to_string(), None, tree_sitter_json::language());
    let mut parser = Parser::new();
    parser.set_language(&registry, "json").unwrap();
    parser.parse(source).unwrap()
}

#[test]
fn language_counts() {
    let tree = parse("[1]");
    let language = tree.language();
    assert_eq!(language.version(), 14);
    assert_eq!(language.node_kind_count(), 26);
    assert_eq!(language.parse_state_count(), 33);
    assert_eq!(language.version(), tree_sitter_json::language().version());
}

#[test]
fn node_kinds_by_number_and_name() {
    let tree = parse("[1]");
    let language = tree.language();
    assert_eq!(language.node_kind_for_id(1), Some("{"));
    assert_eq!(language.node_kind_for_id(60000), None);
    assert_eq!(language.node_kind_for_id(65535), Some("ERROR"));
    let number = language.id_for_node_kind("number", true);
    assert_eq!(number, 10);
    assert_eq!(language.node_kind_for_id(number), Some("number"));
    assert_eq!(language.id_for_node_kind("number", false), 0);
    assert_eq!(language.id_for_node_kind("no_such_kind", true), 0);
}

#[test]
fn node_kind_flags() {
    let tree = parse("[1]");
    let language = tree.language();
    assert!(language.has_node_kind(1));
    assert!(language.has_node_kind(25));
    assert!(!language.has_node_kind(26));
    assert!(!language.has_node_kind(65533));
    assert!(language.has_node_kind(65534));
    assert!(language.has_node_kind(65535));
    assert!(!language.node_kind_is_named(1));
    assert!(language.node_kind_is_visible(1));
    assert!(language.node_kind_is_named(10));
    assert!(language.node_kind_is_visible(10));
    assert!(language.node_kind_is_named(65535));
    assert!(!language.node_kind_is_visible(65534));
}

#[test]
fn fields_by_number_and_name() {
    let tree = parse("[1]");
    let language = tree.language();
    assert_eq!(language.field_id_for_name("key"), Some(1));
    assert_eq!(language.field_id_for_name("value"), Some(2));
    assert_eq!(language.field_id_for_name("ke"), None);
    assert_eq!(language.field_name_for_id(1), Some("key"));
    assert_eq!(language.field_name_for_id(2), Some("value"));
    assert_eq!(language.field_name_for_id(0), None);
    assert_eq!(language.field_name_for_id(3), None);
}

#[test]
fn parse_states() {
    let tree = parse("{\"a\": 1}");
    let language = tree.language();
    assert!(language.has_parse_state(0));
    assert!(language.has_parse_state(32));
    assert!(!language.has_parse_state(33));
    assert_eq!(language.next_state(1, 1), 19);
    let object = tree.root_node().child(0).unwrap();
    assert_eq!(
        language.next_state(object.parse_state(), object.grammar_id()),
        object.next_parse_state()
    );
}

#[test]
fn lookahead_walks_the_kinds_of_a_state() {
    let tree = parse("[1]");
    let language = tree.language();
    assert!(language.lookahead_iterator(33).is_none());
    let mut lookahead = language.lookahead_iterator(1).unwrap();
    assert_eq!(lookahead.next(), Some(0));
    assert_eq!(lookahead.current_symbol_name(), "end");
    assert_eq!(lookahead.next(), Some(1));
    assert_eq!(lookahead.current_symbol_name(), "{");
    let mut rest = 0;
    while let Some(kind) = lookahead.next() {
        assert_eq!(language.node_kind_for_id(kind), Some(lookahead.current_symbol_name()));
        rest += 1;
    }
    assert!(rest > 0);
    assert_eq!(lookahead.next(), None);
}

#[test]
fn checked_lookups_turn_down_what_the_language_lacks() {
    let tree = parse("[1]");
    let language = tree.language();
    assert_eq!(language.checked_node_kind_is_named(10), Some(true));
    assert_eq!(language.checked_node_kind_is_named(1), Some(false));
    assert_eq!(language.checked_node_kind_is_named(26), None);
    assert_eq!(language.checked_node_kind_is_visible(1), Some(true));
    assert_eq!(language.checked_node_kind_is_visible(65534), Some(false));
    assert_eq!(language.checked_node_kind_is_visible(30000), None);
    assert_eq!(language.checked_next_state(1, 1), Some(19));
    assert_eq!(language.checked_next_state(33, 1), None);
    assert_eq!(language.checked_next_state(1, 26), None);
    assert_eq!(language.checked_next_state(1, 65535), Some(0));
}
