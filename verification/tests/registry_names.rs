use tree_stump::error::Error;
use tree_stump::registry::GrammarRegistry;

#[test]
fn new_registry_lists_nothing() {
    let registry = GrammarRegistry::new();
    assert!(registry.available().is_empty());
    assert!(!registry.is_registered("json"));
}

#[test]
fn entry_symbol_follows_the_naming_convention() {
    assert_eq!(GrammarRegistry::entry_symbol("json"), "tree_sitter_json");
    assert_eq!(GrammarRegistry::entry_symbol("c_sharp"), "tree_sitter_c_sharp");
    assert_eq!(GrammarRegistry::entry_symbol(""), "tree_sitter_");
}

#[test]
fn registering_binds_the_name() {
    let mut registry = GrammarRegistry::new();
    assert!(registry.register("json".to_string(), None, tree_sitter_json::language()));
    assert!(registry.is_registered("json"));
    assert_eq!(registry.available(), vec!["json".to_string()]);
    assert_eq!(registry.resolve("json"), Ok(&tree_sitter_json::language()));
}

#[test]
fn registering_twice_is_idempotent() {
    let mut registry = GrammarRegistry::new();
    assert!(registry.register("json".to_string(), None, tree_sitter_json::language()));
    let first = registry.resolve("json").unwrap().clone();
    assert!(!registry.register("json".to_string(), None, tree_sitter_json::language()));
    assert_eq!(registry.available(), vec!["json".to_string()]);
    assert_eq!(registry.resolve("json"), Ok(&first));
}

#[test]
fn names_are_listed_in_the_order_of_registration() {
    let mut registry = GrammarRegistry::new();
    registry.register("zeta".to_string(), None, tree_sitter_json::language());
    registry.register("alpha".to_string(), None, tree_sitter_json::language());
    registry.register("zeta".to_string(), None, tree_sitter_json::language());
    registry.register("midway".to_string(), None, tree_sitter_json::language());
    assert_eq!(
        registry.available(),
        vec!["zeta".to_string(), "alpha".to_string(), "midway".to_string()]
    );
}

#[test]
fn resolving_an_unknown_name_is_a_usage_error() {
    let mut registry = GrammarRegistry::new();
    registry.register("json".to_string(), None, tree_sitter_json::language());
    let error = registry.resolve("ruby").unwrap_err();
    assert_eq!(error, Error::LanguageNotRegistered { name: "ruby".to_string() });
    assert_eq!(error.message(), "Language ruby is not registered");
    assert!(error.is_usage());
    assert_eq!(registry.available(), vec!["json".to_string()]);
}

#[test]
fn names_are_told_apart_exactly() {
    let mut registry = GrammarRegistry::new();
    registry.register("json".to_string(), None, tree_sitter_json::language());
    assert!(!registry.is_registered("jso"));
    assert!(!registry.is_registered("json5"));
    assert!(!registry.is_registered("JSON"));
    assert!(!registry.is_registered(""));
}

#[test]
fn error_messages_and_kinds() {
    let cases = [
        (Error::NoLanguage, "Failed to get language from parser", true),
        (Error::ExclusivePointRange, "Point range must be inclusive", true),
        (Error::ZeroFieldId, "field_id must be non-zero", true),
        (Error::ParseFailed, "Failed to parse", false),
        (
            Error::IncompatibleLanguage { message: "Incompatible language version 9".to_string() },
            "Incompatible language version 9",
            false,
        ),
        (
            Error::QueryCompile {
                row: 0,
                column: 3,
                offset: 3,
                message: "Query error at 1:4. Invalid node type x".to_string(),
            },
            "Query error at 1:4. Invalid node type x",
            false,
        ),
    ];
    for (error, message, usage) in cases {
        assert_eq!(error.message(), message);
        assert_eq!(error.is_usage(), usage);
    }
}
