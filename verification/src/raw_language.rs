//! The parsing engine's language types, and what this crate takes for
//! granted of their methods. Nothing in this file is proved: each item
//! says, above its contract, which engine function it stands for and what
//! is claimed of it.
use tree_sitter::Language as RawLanguage;
use tree_sitter::LanguageRef as RawLanguageRef;
use tree_sitter::LookaheadIterator as RawLookahead;
use tree_sitter::Node as RawNode;
use tree_sitter::Tree as RawTree;
use vstd::prelude::*;

verus! {

/// `tree_sitter::Language`, carried as an opaque value.
#[verifier::external_type_specification]
#[verifier::external_body]
pub struct ExLanguage(RawLanguage);

/// `tree_sitter::LanguageRef`, carried as an opaque value.
#[verifier::external_type_specification]
#[verifier::external_body]
pub struct ExLanguageRef<'a>(RawLanguageRef<'a>);

/// `libloading::Library`, carried as an opaque value.
#[verifier::external_type_specification]
#[verifier::external_body]
pub struct ExLibrary(libloading::Library);

/// `tree_sitter::LookaheadIterator`, carried as an opaque value.
#[verifier::external_type_specification]
#[verifier::external_body]
pub struct ExLookahead(RawLookahead);

/// The language that a tree was parsed with.
pub uninterp spec fn tree_language(tree: RawTree) -> RawLanguage;

/// The language that a borrowed language stands for.
pub uninterp spec fn borrowed_language(language: RawLanguageRef) -> RawLanguage;

/// What `Language::version` returns.
pub uninterp spec fn language_version(language: RawLanguage) -> usize;

/// What `Language::node_kind_count` returns.
pub uninterp spec fn language_node_kind_count(language: RawLanguage) -> usize;

/// What `Language::parse_state_count` returns.
pub uninterp spec fn language_parse_state_count(language: RawLanguage) -> usize;

/// What `Language::node_kind_for_id` returns.
pub uninterp spec fn language_node_kind_for_id(language: RawLanguage, id: u16) -> Option<Seq<char>>;

/// What `Language::id_for_node_kind` returns.
pub uninterp spec fn language_id_for_node_kind(
    language: RawLanguage,
    kind: Seq<char>,
    named: bool,
) -> u16;

/// What `Language::node_kind_is_named` returns.
pub uninterp spec fn language_node_kind_is_named(language: RawLanguage, id: u16) -> bool;

/// What `Language::node_kind_is_visible` returns.
pub uninterp spec fn language_node_kind_is_visible(language: RawLanguage, id: u16) -> bool;

/// What `Language::field_name_for_id` returns.
pub uninterp spec fn language_field_name_for_id(language: RawLanguage, id: u16) -> Option<
    Seq<char>,
>;

/// What `Language::field_id_for_name` returns.
pub uninterp spec fn language_field_id_for_name(language: RawLanguage, name: Seq<char>) -> Option<
    u16,
>;

/// What `Language::next_state` returns.
pub uninterp spec fn language_next_state(language: RawLanguage, state: u16, id: u16) -> u16;

/// What `Language::lookahead_iterator` returns.
pub uninterp spec fn language_lookahead(language: RawLanguage, state: u16) -> Option<RawLookahead>;

/// What `LookaheadIterator::next` returns, and the iterator it leaves.
pub uninterp spec fn lookahead_next(lookahead: RawLookahead) -> (Option<u16>, RawLookahead);

/// What `LookaheadIterator::current_symbol_name` returns.
pub uninterp spec fn lookahead_symbol_name(lookahead: RawLookahead) -> Seq<char>;

/// The numbers of the two node kinds that every language has for errors.
pub open spec fn error_kind(id: u16) -> bool {
    id >= 65534
}

/// The node kinds that a language has a record of: its own, and the two
/// for errors.
pub open spec fn known_kind(language: RawLanguage, id: u16) -> bool {
    id < language_node_kind_count(language) || error_kind(id)
}

/// `Tree::language`: the language that the tree was parsed with.
pub assume_specification<'a>[ RawTree::language ](tree: &'a RawTree) -> (r: RawLanguageRef<'a>)
    ensures
        borrowed_language(r) == tree_language(*tree),
;

/// `Node::language`: the language that the node's tree was parsed with.
pub assume_specification<'tree, 'a>[ RawNode::<'tree>::language ](node: &'a RawNode<'tree>) -> (r:
    RawLanguageRef<'a>)
    ensures
        borrowed_language(r) == tree_language(crate::raw_tree::node_owner(*node)),
;

/// `Deref` of `tree_sitter::LanguageRef`: the language that it stands for.
#[verifier::external_body]
pub(crate) fn raw_language<'a, 'b>(language: &'b RawLanguageRef<'a>) -> (r: &'b RawLanguage)
    ensures
        *r == borrowed_language(*language),
{
    language
}

/// `Language::version`: the result is a function of the language.
pub assume_specification[ RawLanguage::version ](language: &RawLanguage) -> (r: usize)
    ensures
        r == language_version(*language),
;

/// `Language::node_kind_count`: the result is a function of the language.
pub assume_specification[ RawLanguage::node_kind_count ](language: &RawLanguage) -> (r: usize)
    ensures
        r == language_node_kind_count(*language),
;

/// `Language::parse_state_count`: the result is a function of the language.
pub assume_specification[ RawLanguage::parse_state_count ](language: &RawLanguage) -> (r: usize)
    ensures
        r == language_parse_state_count(*language),
;

/// `Language::node_kind_for_id`: the result is a function of the language
/// and the number.
pub assume_specification[ RawLanguage::node_kind_for_id ](language: &RawLanguage, id: u16) -> (r:
    Option<&'static str>)
    ensures
        match r {
            Some(kind) => language_node_kind_for_id(*language, id) == Some(kind@),
            None => language_node_kind_for_id(*language, id).is_none(),
        },
;

/// `Language::id_for_node_kind`: the result is a function of the language,
/// the name and the flag.
pub assume_specification[ RawLanguage::id_for_node_kind ](
    language: &RawLanguage,
    kind: &str,
    named: bool,
) -> (r: u16)
    ensures
        r == language_id_for_node_kind(*language, kind@, named),
;

/// `Language::node_kind_is_named`: the result is a function of the language
/// and the number. The engine looks the number up in the language's table
/// of kinds without a test, so only numbers with a record are admitted.
pub assume_specification[ RawLanguage::node_kind_is_named ](language: &RawLanguage, id: u16) -> (r:
    bool)
    requires
        known_kind(*language, id),
    ensures
        r == language_node_kind_is_named(*language, id),
;

/// `Language::node_kind_is_visible`: the result is a function of the
/// language and the number. The engine looks the number up in the
/// language's table of kinds without a test, so only numbers with a record
/// are admitted.
pub assume_specification[ RawLanguage::node_kind_is_visible ](
    language: &RawLanguage,
    id: u16,
) -> (r: bool)
    requires
        known_kind(*language, id),
    ensures
        r == language_node_kind_is_visible(*language, id),
;

/// `Language::field_name_for_id`: the result is a function of the language
/// and the number.
pub assume_specification[ RawLanguage::field_name_for_id ](
    language: &RawLanguage,
    field_id: u16,
) -> (r: Option<&'static str>)
    ensures
        match r {
            Some(name) => language_field_name_for_id(*language, field_id) == Some(name@),
            None => language_field_name_for_id(*language, field_id).is_none(),
        },
;

/// `Language::field_id_for_name`: the result is a function of the language
/// and the name.
#[verifier::external_body]
pub(crate) fn raw_field_id_for_name(language: &RawLanguage, name: &str) -> (r: Option<u16>)
    ensures
        r == language_field_id_for_name(*language, name@),
{
    language.field_id_for_name(name).map(|id| id.get())
}

/// `Language::next_state`: the result is a function of the language, the
/// state and the kind. The engine looks both up in the language's tables
/// without a test, so only a state of the language and a kind with a record
/// are admitted.
pub assume_specification[ RawLanguage::next_state ](
    language: &RawLanguage,
    state: u16,
    id: u16,
) -> (r: u16)
    requires
        state < language_parse_state_count(*language),
        known_kind(*language, id),
    ensures
        r == language_next_state(*language, state, id),
;

/// `Language::lookahead_iterator`: the result is a function of the language
/// and the state.
pub assume_specification[ RawLanguage::lookahead_iterator ](
    language: &RawLanguage,
    state: u16,
) -> (r: Option<RawLookahead>)
    ensures
        r == language_lookahead(*language, state),
;

/// `Iterator::next` of `tree_sitter::LookaheadIterator`: the answer and the
/// iterator left behind are functions of the iterator before.
#[verifier::external_body]
pub(crate) fn raw_lookahead_next(lookahead: &mut RawLookahead) -> (r: Option<u16>)
    ensures
        (r, *final(lookahead)) == lookahead_next(*old(lookahead)),
{
    lookahead.next()
}

/// `LookaheadIterator::current_symbol_name`: the text is a function of the
/// iterator.
pub assume_specification[ RawLookahead::current_symbol_name ](lookahead: &RawLookahead) -> (r:
    &'static str)
    ensures
        r@ == lookahead_symbol_name(*lookahead),
;

} // verus!
