use tree_stump::error::Error;
use tree_stump::parser::Parser;
use tree_stump::registry::GrammarRegistry;

fn registry() -> GrammarRegistry {
    let mut registry = GrammarRegistry::new();
    registry.register("json".to_string(), None, tree_sitter_json::language());
    registry
}

fn json_parser() -> Parser {
    let mut parser = Parser::new();
    assert_eq!(parser.set_language(&registry(), "json"), Ok(true));
    parser
}

fn long_list(items: usize) -> String {
    let mut text = String::from("[");
    for i in 0..items {
        text.push_str(&i.to_string());
        text.push_str(", ");
    }
    text.push_str("0]");
    text
}

#[test]
fn new_parser_has_no_budget() {
    let parser = Parser::new();
    assert_eq!(parser.timeout_micros(), 0);
}

#[test]
fn set_language_with_unregistered_name_fails() {
    let mut parser = Parser::new();
    let error = parser.set_language(&registry(), "ruby").unwrap_err();
    assert_eq!(error, Error::LanguageNotRegistered { name: "ruby".to_string() });
    assert_eq!(error.message(), "Language ruby is not registered");
    assert!(error.is_usage());
}

#[test]
fn failed_set_language_keeps_the_bound_language() {
    let mut parser = json_parser();
    assert!(parser.set_language(&registry(), "ruby").is_err());
    let tree = parser.parse("[1]").unwrap();
    assert_eq!(tree.root_node().to_sexp(), "(document (array (number)))");
}

#[test]
fn parse_without_language_fails() {
    let mut parser = Parser::new();
    let error = parser.parse("[1, 2]").err().unwrap();
    assert_eq!(error, Error::ParseFailed);
    assert_eq!(error.message(), "Failed to parse");
    assert!(!error.is_usage());
}

#[test]
fn build_query_without_language_fails() {
    let parser = Parser::new();
    let error = parser.build_query("(number) @n").err().unwrap();
    assert_eq!(error, Error::NoLanguage);
    assert_eq!(error.message(), "Failed to get language from parser");
    assert!(error.is_usage());
}

#[test]
fn build_query_compiles_for_the_bound_language() {
    let parser = json_parser();
    let query = parser.build_query("(pair key: (string) @key) (number) @n").unwrap();
    assert_eq!(query.pattern_count(), 2);
    assert_eq!(query.capture_names(), vec!["key".to_string(), "n".to_string()]);
}

#[test]
fn build_query_forwards_the_compilers_diagnostic() {
    let parser = json_parser();
    let error = parser.build_query("(pair key: (strin) @key)").err().unwrap();
    assert_eq!(
        error,
        Error::QueryCompile {
            row: 0,
            column: 12,
            offset: 12,
            message: "Query error at 1:13. Invalid node type strin".to_string(),
        }
    );
    assert_eq!(error.message(), "Query error at 1:13. Invalid node type strin");
    assert!(!error.is_usage());
}

#[test]
fn parse_gives_the_whole_tree() {
    let mut parser = json_parser();
    let source = "{\"a\": [1, 2, 3], \"b\": {\"c\": null}}";
    let tree = parser.parse(source).unwrap();
    assert_eq!(
        tree.root_node().to_sexp(),
        "(document (object (pair key: (string (string_content)) value: (array (number) (number) \
         (number))) (pair key: (string (string_content)) value: (object (pair key: (string \
         (string_content)) value: (null))))))"
    );
    assert!(!tree.root_node().has_error());
}

#[test]
fn parse_is_repeatable() {
    let mut parser = json_parser();
    let first = parser.parse("[1, [2]]").unwrap();
    let second = parser.parse("[1, [2]]").unwrap();
    assert_eq!(first.root_node().to_sexp(), second.root_node().to_sexp());
    assert_eq!(first.root_node().byte_range(), second.root_node().byte_range());
}

#[test]
fn timeout_surfaces_as_a_parse_failure() {
    let mut parser = json_parser();
    let source = long_list(200000);
    parser.set_timeout_micros(1);
    let error = parser.parse(&source).err().unwrap();
    assert_eq!(error, Error::ParseFailed);
    assert_eq!(error.message(), "Failed to parse");
    assert!(!error.is_usage());
}

#[test]
fn reset_keeps_the_language_and_lifting_the_budget_lets_the_parse_finish() {
    let mut parser = json_parser();
    let source = long_list(200000);
    parser.set_timeout_micros(1);
    assert!(parser.parse(&source).is_err());
    parser.reset();
    parser.set_timeout_micros(0);
    assert_eq!(parser.timeout_micros(), 0);
    let tree = parser.parse("[1, 2]").unwrap();
    assert_eq!(tree.root_node().to_sexp(), "(document (array (number) (number)))");
    assert_eq!(tree.root_node().byte_range(), (0, 6));
}

#[test]
fn tree_from_maps_no_tree_to_a_parse_failure() {
    assert_eq!(Parser::tree_from(None).err(), Some(Error::ParseFailed));
    let mut raw = tree_sitter::Parser::new();
    raw.set_language(&tree_sitter_json::language()).unwrap();
    let tree = raw.parse("[true]", None).unwrap();
    let wrapped = Parser::tree_from(Some(tree)).unwrap();
    assert_eq!(wrapped.root_node().to_sexp(), "(document (array (true)))");
}

#[test]
fn bind_takes_a_language_directly() {
    let mut parser = Parser::new();
    assert_eq!(parser.bind(&tree_sitter_json::language()), Ok(true));
    assert!(parser.parse("null").is_ok());
}
