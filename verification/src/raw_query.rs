//! The parsing engine's query types, and what this crate takes for granted
//! of their methods. Nothing in this file is proved: each item says, above
//! its contract, which engine function it stands for and what is claimed of
//! it.
use crate::data::Point;
use crate::query::{CaptureQuantifier, CursorConfig, QueryDiagnostic};
use crate::raw_tree::{node_end_byte, node_owner};
use tree_sitter::Language as RawLanguage;
use tree_sitter::Node as RawNode;
use tree_sitter::Query as RawQuery;
use tree_sitter::QueryCursor as RawQueryCursor;
use vstd::prelude::*;
use vstd::utf8::encode_utf8;

verus! {

/// `tree_sitter::Query`, carried as an opaque value.
#[verifier::external_type_specification]
#[verifier::external_body]
pub struct ExQuery(RawQuery);

/// `tree_sitter::QueryCursor`, carried as an opaque value.
#[verifier::external_type_specification]
#[verifier::external_body]
pub struct ExQueryCursor(RawQueryCursor);

/// One match as the engine reports it: the pattern's index, and the
/// captured nodes with their capture indices, in the engine's order.
pub type FoundMatch = (usize, Seq<(RawNode<'static>, u32)>);

/// What `Query::new` returns, with its error taken apart.
pub uninterp spec fn compile_outcome(language: RawLanguage, source: Seq<char>) -> Result<
    RawQuery,
    QueryDiagnostic,
>;

/// What `Query::pattern_count` returns.
pub uninterp spec fn query_pattern_count(query: RawQuery) -> usize;

/// What `Query::start_byte_for_pattern` returns.
pub uninterp spec fn query_start_byte(query: RawQuery, pattern_index: usize) -> usize;

/// What `Query::capture_names` returns.
pub uninterp spec fn query_capture_names(query: RawQuery) -> Seq<Seq<char>>;

/// What `Query::capture_quantifiers` returns.
pub uninterp spec fn query_capture_quantifiers(query: RawQuery, pattern_index: usize) -> Seq<
    CaptureQuantifier,
>;

/// The query that `Query::disable_capture` leaves.
pub uninterp spec fn query_without_capture(query: RawQuery, name: Seq<char>) -> RawQuery;

/// The query that `Query::disable_pattern` leaves.
pub uninterp spec fn query_without_pattern(query: RawQuery, pattern_index: usize) -> RawQuery;

/// What `Query::is_pattern_rooted` returns.
pub uninterp spec fn query_pattern_rooted(query: RawQuery, pattern_index: usize) -> bool;

/// What `Query::is_pattern_guaranteed_at_step` returns.
pub uninterp spec fn query_guaranteed_at(query: RawQuery, byte_offset: usize) -> bool;

/// What restricts the runs of a cursor.
pub uninterp spec fn query_cursor_config(cursor: RawQueryCursor) -> CursorConfig;

/// What `QueryCursor::did_exceed_match_limit` returns.
pub uninterp spec fn query_cursor_exceeded(cursor: RawQueryCursor) -> bool;

/// What `QueryCursor::matches` yields when it is run to its end, in the
/// order in which it yields it, and whether the run went over the cursor's
/// limit.
pub uninterp spec fn match_run(
    cursor: RawQueryCursor,
    query: RawQuery,
    node: RawNode,
    source: Seq<char>,
) -> (Seq<FoundMatch>, bool);

/// Whether `found` holds the matches `run`, one for one and in the same
/// order, each with its captures one for one and in the same order.
pub open spec fn matches_agree(
    found: Seq<(usize, Vec<(RawNode<'static>, u32)>)>,
    run: Seq<FoundMatch>,
) -> bool {
    &&& found.len() == run.len()
    &&& forall|i: int|
        0 <= i < found.len() ==> (#[trigger] found[i]).0 == run[i].0 && found[i].1@ == run[i].1
}

/// Whether every node captured in `found` lies in `owner`.
pub open spec fn captures_owned(
    found: Seq<(usize, Vec<(RawNode<'static>, u32)>)>,
    owner: tree_sitter::Tree,
) -> bool {
    forall|i: int, j: int|
        0 <= i < found.len() && 0 <= j < found[i].1@.len() ==> node_owner(
            (#[trigger] found[i].1@[j]).0,
        ) == owner
}

/// `Query::new`, with its error taken apart into the place and the text
/// that the error displays: the outcome is a function of the language and
/// the pattern text.
#[verifier::external_body]
pub(crate) fn raw_compile(language: &RawLanguage, source: &str) -> (r: Result<
    RawQuery,
    QueryDiagnostic,
>)
    ensures
        r == compile_outcome(*language, source@),
{
    match RawQuery::new(language, source) {
        Ok(query) => Ok(query),
        Err(error) => Err(
            QueryDiagnostic {
                message: error.to_string(),
                row: error.row,
                column: error.column,
                offset: error.offset,
            },
        ),
    }
}

/// `Query::pattern_count`: the result is a function of the query.
pub assume_specification[ RawQuery::pattern_count ](query: &RawQuery) -> (r: usize)
    ensures
        r == query_pattern_count(*query),
;

/// `Query::start_byte_for_pattern`: the result is a function of the query
/// and the index. The engine stops on an index that is not below the
/// number of patterns, so only those below it are admitted.
pub assume_specification[ RawQuery::start_byte_for_pattern ](
    query: &RawQuery,
    pattern_index: usize,
) -> (r: usize)
    requires
        pattern_index < query_pattern_count(*query),
    ensures
        r == query_start_byte(*query, pattern_index),
;

/// `Query::capture_names`, each name copied: the names are a function of
/// the query.
#[verifier::external_body]
pub(crate) fn raw_capture_names(query: &RawQuery) -> (r: Vec<String>)
    ensures
        r@.len() == query_capture_names(*query).len(),
        forall|i: int| 0 <= i < r@.len() ==> (#[trigger] r@[i])@ == query_capture_names(*query)[i],
{
    query.capture_names().iter().map(|name| name.to_string()).collect()
}

/// `Query::capture_quantifiers`, each quantifier as this crate's own: they
/// are a function of the query and the index. The engine stops on an index
/// that is not below the number of patterns, so only those below it are
/// admitted.
#[verifier::external_body]
pub(crate) fn raw_capture_quantifiers(query: &RawQuery, pattern_index: usize) -> (r: Vec<
    CaptureQuantifier,
>)
    requires
        pattern_index < query_pattern_count(*query),
    ensures
        r@ == query_capture_quantifiers(*query, pattern_index),
{
    query.capture_quantifiers(pattern_index).iter().map(
        |quantifier|
            match quantifier {
                tree_sitter::CaptureQuantifier::Zero => CaptureQuantifier::Zero,
                tree_sitter::CaptureQuantifier::ZeroOrOne => CaptureQuantifier::ZeroOrOne,
                tree_sitter::CaptureQuantifier::ZeroOrMore => CaptureQuantifier::ZeroOrMore,
                tree_sitter::CaptureQuantifier::One => CaptureQuantifier::One,
                tree_sitter::CaptureQuantifier::OneOrMore => CaptureQuantifier::OneOrMore,
            },
    ).collect()
}

/// `Query::capture_index_for_name`: the place of the first capture name
/// that equals `name`, and none where no capture name does.
pub assume_specification[ RawQuery::capture_index_for_name ](query: &RawQuery, name: &str) -> (r:
    Option<u32>)
    ensures
        match r {
            Some(index) => {
                &&& index < query_capture_names(*query).len()
                &&& query_capture_names(*query)[index as int] == name@
                &&& forall|i: int| 0 <= i < index ==> query_capture_names(*query)[i] != name@
            },
            None => forall|i: int|
                0 <= i < query_capture_names(*query).len() ==> query_capture_names(*query)[i]
                    != name@,
        },
;

/// `Query::disable_capture`: the query left behind is a function of the
/// query before and the name; it has the capture names and the number of
/// patterns that it had.
pub assume_specification[ RawQuery::disable_capture ](query: &mut RawQuery, name: &str)
    ensures
        *final(query) == query_without_capture(*old(query), name@),
        query_capture_names(*final(query)) == query_capture_names(*old(query)),
        query_pattern_count(*final(query)) == query_pattern_count(*old(query)),
;

/// `Query::disable_pattern`: the query left behind is a function of the
/// query before and the index; it has the capture names and the number of
/// patterns that it had.
pub assume_specification[ RawQuery::disable_pattern ](query: &mut RawQuery, index: usize)
    ensures
        *final(query) == query_without_pattern(*old(query), index),
        query_capture_names(*final(query)) == query_capture_names(*old(query)),
        query_pattern_count(*final(query)) == query_pattern_count(*old(query)),
;

/// `Query::is_pattern_rooted`: the result is a function of the query and
/// the index.
pub assume_specification[ RawQuery::is_pattern_rooted ](query: &RawQuery, index: usize) -> (r: bool)
    ensures
        r == query_pattern_rooted(*query, index),
;

/// `Query::is_pattern_guaranteed_at_step`: the result is a function of the
/// query and the offset.
pub assume_specification[ RawQuery::is_pattern_guaranteed_at_step ](
    query: &RawQuery,
    byte_offset: usize,
) -> (r: bool)
    ensures
        r == query_guaranteed_at(*query, byte_offset),
;

/// `QueryCursor::new`: nothing restricts the cursor, and it has gone over
/// no limit.
pub assume_specification[ RawQueryCursor::new ]() -> (r: RawQueryCursor)
    ensures
        query_cursor_config(r) == CursorConfig::initial(),
        !query_cursor_exceeded(r),
;

/// `QueryCursor::match_limit`: the limit that the cursor was given.
pub assume_specification[ RawQueryCursor::match_limit ](cursor: &RawQueryCursor) -> (r: u32)
    ensures
        r == query_cursor_config(*cursor).match_limit,
;

/// `QueryCursor::set_match_limit`: the limit is the one given, and nothing
/// else changes.
pub assume_specification[ RawQueryCursor::set_match_limit ](cursor: &mut RawQueryCursor, limit: u32)
    ensures
        query_cursor_config(*final(cursor)) == query_cursor_config(*old(cursor)).with_match_limit(
            limit,
        ),
        query_cursor_exceeded(*final(cursor)) == query_cursor_exceeded(*old(cursor)),
;

/// `QueryCursor::did_exceed_match_limit`: the result is a function of the
/// cursor.
pub assume_specification[ RawQueryCursor::did_exceed_match_limit ](cursor: &RawQueryCursor) -> (r:
    bool)
    ensures
        r == query_cursor_exceeded(*cursor),
;

/// `QueryCursor::set_byte_range` on the half-open span from `start` to
/// `end`: the span of bytes is the one given, as the engine keeps it, and
/// nothing else changes.
#[verifier::external_body]
pub(crate) fn raw_set_byte_range(cursor: &mut RawQueryCursor, start: usize, end: usize)
    ensures
        query_cursor_config(*final(cursor)) == query_cursor_config(*old(cursor)).with_byte_range(
            start,
            end,
        ),
        query_cursor_exceeded(*final(cursor)) == query_cursor_exceeded(*old(cursor)),
{
    cursor.set_byte_range(start..end);
}

/// `QueryCursor::set_point_range` on the span from `start` to `end`: the
/// span of positions is the one given, as the engine keeps it, and nothing
/// else changes.
#[verifier::external_body]
pub(crate) fn raw_set_point_range(cursor: &mut RawQueryCursor, start: Point, end: Point)
    ensures
        query_cursor_config(*final(cursor)) == query_cursor_config(*old(cursor)).with_point_range(
            start,
            end,
        ),
        query_cursor_exceeded(*final(cursor)) == query_cursor_exceeded(*old(cursor)),
{
    let start = tree_sitter::Point { row: start.row, column: start.column };
    let end = tree_sitter::Point { row: end.row, column: end.column };
    cursor.set_point_range(start..end);
}

/// `QueryCursor::set_max_start_depth`: the depth is the one given, as the
/// engine keeps it, and nothing else changes.
#[verifier::external_body]
pub(crate) fn raw_set_max_start_depth(cursor: &mut RawQueryCursor, depth: Option<u32>)
    ensures
        query_cursor_config(*final(cursor)) == query_cursor_config(
            *old(cursor),
        ).with_max_start_depth(depth),
        query_cursor_exceeded(*final(cursor)) == query_cursor_exceeded(*old(cursor)),
{
    cursor.set_max_start_depth(depth);
}

/// `QueryCursor::matches`, run to its end over `node` with the bytes of
/// `source` as the text, each match taken apart: the matches and whether
/// the run went over the limit are a function of the cursor, the query, the
/// node and the text; every captured node lies in the node's tree; what
/// restricts the cursor stays as it was. The engine reads the text at the
/// offsets of captured nodes, which lie within the node's span, so that
/// span must lie within the text.
#[verifier::external_body]
pub(crate) fn raw_matches<'tree>(
    cursor: &mut RawQueryCursor,
    query: &RawQuery,
    node: RawNode<'tree>,
    source: &str,
) -> (r: Vec<(usize, Vec<(RawNode<'tree>, u32)>)>)
    requires
        node_end_byte(node) <= encode_utf8(source@).len(),
    ensures
        matches_agree(r@, match_run(*old(cursor), *query, node, source@).0),
        captures_owned(r@, node_owner(node)),
        query_cursor_exceeded(*final(cursor)) == match_run(*old(cursor), *query, node, source@).1,
        query_cursor_config(*final(cursor)) == query_cursor_config(*old(cursor)),
{
    cursor.matches(query, node, source.as_bytes()).map(
        |found| (found.pattern_index, found.captures.iter().map(|c| (c.node, c.index)).collect()),
    ).collect()
}

} // verus!
