use crate::data::Point;
use crate::error::Error;
use crate::raw_query::{
    compile_outcome, match_run, query_capture_names, query_capture_quantifiers, query_cursor_config,
    query_cursor_exceeded, query_guaranteed_at, query_pattern_count, query_pattern_rooted,
    query_start_byte, query_without_capture, query_without_pattern, raw_capture_names,
    raw_capture_quantifiers, raw_compile, raw_matches, raw_set_byte_range, raw_set_max_start_depth,
    raw_set_point_range, FoundMatch,
};
use crate::raw_tree::{node_end_byte, node_owner};
use crate::tree::Node;
use std::sync::Arc;
use tree_sitter::Language as RawLanguage;
use tree_sitter::Node as RawNode;
use tree_sitter::Query as RawQuery;
use tree_sitter::QueryCursor as RawQueryCursor;
use tree_sitter::Tree as RawTree;
use vstd::prelude::*;
use vstd::utf8::encode_utf8;

verus! {

/// How often a capture may occur in a match of one pattern.
#[derive(Debug, Clone, Copy, PartialEq, Eq, Structural)]
pub enum CaptureQuantifier {
    Zero,
    ZeroOrOne,
    ZeroOrMore,
    One,
    OneOrMore,
}

/// Where and why the engine gave up on a pattern text: the place as a row,
/// a column and a byte offset, and the engine's account in full.
#[derive(Debug, Clone, PartialEq, Eq)]
pub struct QueryDiagnostic {
    pub row: usize,
    pub column: usize,
    pub offset: usize,
    pub message: String,
}

/// What restricts the runs of a query cursor: the most matches it keeps in
/// progress at a time, the span of bytes and the span of positions in which
/// it searches, and the greatest depth at which a pattern may start.
pub struct CursorConfig {
    pub match_limit: u32,
    pub start_byte: u32,
    pub end_byte: u32,
    pub start_point: (u32, u32),
    pub end_point: (u32, u32),
    pub max_start_depth: u32,
}

impl CursorConfig {
    /// The restrictions of a new cursor: none.
    pub open spec fn initial() -> CursorConfig {
        CursorConfig {
            match_limit: u32::MAX,
            start_byte: 0,
            end_byte: u32::MAX,
            start_point: (0, 0),
            end_point: (u32::MAX, u32::MAX),
            max_start_depth: u32::MAX,
        }
    }

    pub open spec fn with_match_limit(self, limit: u32) -> CursorConfig {
        CursorConfig { match_limit: limit, ..self }
    }

    /// The engine counts bytes in 32 bits, and takes an end of zero for no
    /// end.
    pub open spec fn with_byte_range(self, start: usize, end: usize) -> CursorConfig {
        CursorConfig {
            start_byte: start as u32,
            end_byte: if end as u32 == 0 {
                u32::MAX
            } else {
                end as u32
            },
            ..self
        }
    }

    /// The engine counts rows and columns in 32 bits, and takes an end at
    /// row zero, column zero for no end.
    pub open spec fn with_point_range(self, start: Point, end: Point) -> CursorConfig {
        CursorConfig {
            start_point: (start.row as u32, start.column as u32),
            end_point: if end.row as u32 == 0 && end.column as u32 == 0 {
                (u32::MAX, u32::MAX)
            } else {
                (end.row as u32, end.column as u32)
            },
            ..self
        }
    }

    /// No depth stands for no bound.
    pub open spec fn with_max_start_depth(self, depth: Option<u32>) -> CursorConfig {
        CursorConfig {
            max_start_depth: match depth {
                Some(depth) => depth,
                None => u32::MAX,
            },
            ..self
        }
    }
}

/// A compiled set of patterns, bound to the language it was compiled for.
pub struct Query {
    raw_query: RawQuery,
}

/// One captured node of a match, with the index of the capture's name.
pub struct QueryCapture<'tree> {
    pub node: Node<'tree>,
    pub index: u32,
}

/// One match: the index of the pattern that matched, and what it captured,
/// in the order of the captures within the pattern.
pub struct QueryMatch<'tree> {
    pattern_index: usize,
    captures: Vec<QueryCapture<'tree>>,
}

/// What runs a query: the engine's cursor, which carries the restrictions
/// of its runs from one run to the next.
pub struct QueryCursor {
    raw_cursor: RawQueryCursor,
}

/// Whether `captures` are the captures `found`, one for one and in the
/// same order, each node with a handle to `owner` and lying in it.
pub open spec fn captures_share(
    owner: RawTree,
    found: Seq<(RawNode<'static>, u32)>,
    captures: Seq<QueryCapture>,
) -> bool {
    &&& captures.len() == found.len()
    &&& forall|j: int|
        0 <= j < captures.len() ==> {
            &&& (#[trigger] captures[j]).node.raw() == found[j].0
            &&& captures[j].index == found[j].1
            &&& captures[j].node.owner() == owner
            &&& captures[j].node.wf()
        }
}

/// Whether `matches` are the matches `found`, one for one and in the same
/// order, each with its pattern index and its captures.
pub open spec fn matches_share(
    owner: RawTree,
    found: Seq<FoundMatch>,
    matches: Seq<QueryMatch>,
) -> bool {
    &&& matches.len() == found.len()
    &&& forall|i: int|
        0 <= i < matches.len() ==> {
            &&& (#[trigger] matches[i]).index() == found[i].0
            &&& captures_share(owner, found[i].1, matches[i].found())
        }
}

impl CaptureQuantifier {
    /// The quantifier's name.
    pub open spec fn label(self) -> Seq<char> {
        match self {
            CaptureQuantifier::Zero => "Zero"@,
            CaptureQuantifier::ZeroOrOne => "ZeroOrOne"@,
            CaptureQuantifier::ZeroOrMore => "ZeroOrMore"@,
            CaptureQuantifier::One => "One"@,
            CaptureQuantifier::OneOrMore => "OneOrMore"@,
        }
    }

    pub fn name(&self) -> (r: &'static str)
        ensures
            r@ == self.label(),
    {
        match self {
            CaptureQuantifier::Zero => "Zero",
            CaptureQuantifier::ZeroOrOne => "ZeroOrOne",
            CaptureQuantifier::ZeroOrMore => "ZeroOrMore",
            CaptureQuantifier::One => "One",
            CaptureQuantifier::OneOrMore => "OneOrMore",
        }
    }
}

impl Query {
    /// The query, as the engine knows it.
    pub closed spec fn raw(&self) -> RawQuery {
        self.raw_query
    }

    /// Compiles `source` for `language`. The engine decides whether the
    /// text is a set of patterns; where it is not, the error says where and
    /// why.
    pub fn new(language: &RawLanguage, source: &str) -> (r: Result<Self, Error>)
        ensures
            Self::compiled(compile_outcome(*language, source@), r),
    {
        Self::from_compile(raw_compile(language, source))
    }

    /// Whether `r` is what a compilation hands to its caller for what the
    /// engine handed back.
    pub open spec fn compiled(
        outcome: Result<RawQuery, QueryDiagnostic>,
        r: Result<Query, Error>,
    ) -> bool {
        match outcome {
            Ok(query) => r matches Ok(compiled) && compiled.raw() == query,
            Err(diagnostic) => {
                &&& r matches Err(Error::QueryCompile { row, column, offset, message })
                &&& row == diagnostic.row
                &&& column == diagnostic.column
                &&& offset == diagnostic.offset
                &&& message == diagnostic.message
            },
        }
    }

    /// What a compilation hands to its caller for what the engine handed
    /// back: the query, or the engine's diagnostic as an error.
    pub fn from_compile(outcome: Result<RawQuery, QueryDiagnostic>) -> (r: Result<Self, Error>)
        ensures
            Self::compiled(outcome, r),
    {
        match outcome {
            Ok(raw_query) => Ok(Query { raw_query }),
            Err(diagnostic) => Err(
                Error::QueryCompile {
                    row: diagnostic.row,
                    column: diagnostic.column,
                    offset: diagnostic.offset,
                    message: diagnostic.message,
                },
            ),
        }
    }

    /// The byte offset in the pattern text at which the pattern numbered
    /// `pattern_index` starts.
    pub fn start_byte_for_pattern(&self, pattern_index: usize) -> (r: usize)
        requires
            pattern_index < query_pattern_count(self.raw()),
        ensures
            r == query_start_byte(self.raw(), pattern_index),
    {
        self.raw_query.start_byte_for_pattern(pattern_index)
    }

    /// The start of the pattern numbered `pattern_index` as
    /// `start_byte_for_pattern` gives it, and nothing where the query has
    /// no pattern of that number.
    pub fn checked_start_byte_for_pattern(&self, pattern_index: usize) -> (r: Option<usize>)
        ensures
            r == if pattern_index < query_pattern_count(self.raw()) {
                Some(query_start_byte(self.raw(), pattern_index))
            } else {
                None
            },
    {
        if pattern_index < self.raw_query.pattern_count() {
            Some(self.raw_query.start_byte_for_pattern(pattern_index))
        } else {
            None
        }
    }

    pub fn pattern_count(&self) -> (r: usize)
        ensures
            r == query_pattern_count(self.raw()),
    {
        self.raw_query.pattern_count()
    }

    pub fn capture_names(&self) -> (names: Vec<String>)
        ensures
            names@.len() == query_capture_names(self.raw()).len(),
            forall|i: int|
                0 <= i < names@.len() ==> (#[trigger] names@[i])@ == query_capture_names(
                    self.raw(),
                )[i],
    {
        raw_capture_names(&self.raw_query)
    }

    /// For each capture name of the query, how often it may occur in a
    /// match of the pattern numbered `index`.
    pub fn capture_quantifiers(&self, index: usize) -> (r: Vec<CaptureQuantifier>)
        requires
            index < query_pattern_count(self.raw()),
        ensures
            r@ == query_capture_quantifiers(self.raw(), index),
    {
        raw_capture_quantifiers(&self.raw_query, index)
    }

    /// The quantifiers of the pattern numbered `index` as
    /// `capture_quantifiers` gives them, and nothing where the query has no
    /// pattern of that number.
    pub fn checked_capture_quantifiers(&self, index: usize) -> (r: Option<Vec<CaptureQuantifier>>)
        ensures
            match r {
                Some(quantifiers) => index < query_pattern_count(self.raw()) && quantifiers@
                    == query_capture_quantifiers(self.raw(), index),
                None => index >= query_pattern_count(self.raw()),
            },
    {
        if index < self.raw_query.pattern_count() {
            Some(raw_capture_quantifiers(&self.raw_query, index))
        } else {
            None
        }
    }

    /// The place of `name` among the capture names: the first that equals
    /// it, and none where none does.
    pub fn capture_index_for_name(&self, name: &str) -> (r: Option<u32>)
        ensures
            match r {
                Some(index) => {
                    &&& index < query_capture_names(self.raw()).len()
                    &&& query_capture_names(self.raw())[index as int] == name@
                    &&& forall|i: int|
                        0 <= i < index ==> query_capture_names(self.raw())[i] != name@
                },
                None => forall|i: int|
                    0 <= i < query_capture_names(self.raw()).len() ==> query_capture_names(
                        self.raw(),
                    )[i] != name@,
            },
    {
        self.raw_query.capture_index_for_name(name)
    }

    /// Switches the capture `name` off in every pattern. The capture names
    /// and the patterns stay listed as they were.
    pub fn disable_capture(&mut self, name: &str)
        ensures
            final(self).raw() == query_without_capture(old(self).raw(), name@),
            query_capture_names(final(self).raw()) == query_capture_names(old(self).raw()),
            query_pattern_count(final(self).raw()) == query_pattern_count(old(self).raw()),
    {
        self.raw_query.disable_capture(name);
    }

    /// Switches the pattern numbered `index` off. The capture names and the
    /// patterns stay listed as they were.
    pub fn disable_pattern(&mut self, index: usize)
        ensures
            final(self).raw() == query_without_pattern(old(self).raw(), index),
            query_capture_names(final(self).raw()) == query_capture_names(old(self).raw()),
            query_pattern_count(final(self).raw()) == query_pattern_count(old(self).raw()),
    {
        self.raw_query.disable_pattern(index);
    }

    pub fn is_pattern_rooted(&self, index: usize) -> (r: bool)
        ensures
            r == query_pattern_rooted(self.raw(), index),
    {
        self.raw_query.is_pattern_rooted(index)
    }

    /// Whether the pattern that holds the step at `byte_offset` of the
    /// pattern text is sure to match once it has come to that step.
    pub fn is_pattern_guaranteed_at_step(&self, byte_offset: usize) -> (r: bool)
        ensures
            r == query_guaranteed_at(self.raw(), byte_offset),
    {
        self.raw_query.is_pattern_guaranteed_at_step(byte_offset)
    }
}

impl<'tree> QueryMatch<'tree> {
    /// The index of the pattern that matched.
    pub closed spec fn index(&self) -> usize {
        self.pattern_index
    }

    /// What the match captured, in order.
    pub closed spec fn found(&self) -> Seq<QueryCapture<'tree>> {
        self.captures@
    }

    pub fn pattern_index(&self) -> (r: usize)
        ensures
            r == self.index(),
    {
        self.pattern_index
    }

    pub fn captures(&self) -> (r: &Vec<QueryCapture<'tree>>)
        ensures
            r@ == self.found(),
    {
        &self.captures
    }
}

impl QueryCursor {
    /// The cursor, as the engine knows it.
    pub closed spec fn raw(&self) -> RawQueryCursor {
        self.raw_cursor
    }

    /// What restricts the cursor's runs.
    pub open spec fn config(&self) -> CursorConfig {
        query_cursor_config(self.raw())
    }

    /// Whether the cursor's last run went over its limit.
    pub open spec fn exceeded(&self) -> bool {
        query_cursor_exceeded(self.raw())
    }

    pub fn new() -> (cursor: Self)
        ensures
            cursor.config() == CursorConfig::initial(),
            !cursor.exceeded(),
    {
        Self { raw_cursor: RawQueryCursor::new() }
    }

    pub fn match_limit(&self) -> (r: u32)
        ensures
            r == self.config().match_limit,
    {
        self.raw_cursor.match_limit()
    }

    pub fn set_match_limit(&mut self, limit: u32)
        ensures
            final(self).config() == old(self).config().with_match_limit(limit),
            final(self).exceeded() == old(self).exceeded(),
    {
        self.raw_cursor.set_match_limit(limit);
    }

    pub fn did_exceed_match_limit(&self) -> (r: bool)
        ensures
            r == self.exceeded(),
    {
        self.raw_cursor.did_exceed_match_limit()
    }

    /// Gives the nodes that one match captured handles to the tree of the
    /// node that was searched, keeping their order.
    fn adopt_captures<'tree>(node: &Node<'tree>, found: &Vec<(RawNode<'tree>, u32)>) -> (captures:
        Vec<QueryCapture<'tree>>)
        requires
            node.wf(),
            forall|j: int|
                0 <= j < found@.len() ==> node_owner((#[trigger] found@[j]).0) == node.owner(),
        ensures
            captures_share(node.owner(), found@, captures@),
    {
        let mut captures: Vec<QueryCapture<'tree>> = Vec::new();
        let mut j: usize = 0;
        while j < found.len()
            invariant
                j <= found@.len(),
                forall|k: int|
                    0 <= k < found@.len() ==> node_owner((#[trigger] found@[k]).0) == node.owner(),
                captures_share(node.owner(), found@.subrange(0, j as int), captures@),
            decreases found@.len() - j,
        {
            let (position, index) = found[j];
            let captured = Node::new(Arc::clone(node.get_raw_tree()), position);
            captures.push(QueryCapture { node: captured, index });
            j += 1;
        }
        assert(found@.subrange(0, j as int) =~= found@);
        captures
    }

    /// Runs `query` over the subtree of `node` to the end, with `source` as
    /// the text that `node` was parsed from, and hands back every match in
    /// the engine's order, each with its captures in their order. Every
    /// captured node holds a handle to the tree of `node`. The span of
    /// `node` must lie within `source`.
    pub fn matches<'tree>(&mut self, query: &Query, node: &Node<'tree>, source: &str) -> (matches:
        Vec<QueryMatch<'tree>>)
        requires
            node.wf(),
            node_end_byte(node.raw()) <= encode_utf8(source@).len(),
        ensures
            matches_share(
                node.owner(),
                match_run(old(self).raw(), query.raw(), node.raw(), source@).0,
                matches@,
            ),
            final(self).exceeded() == match_run(
                old(self).raw(),
                query.raw(),
                node.raw(),
                source@,
            ).1,
            final(self).config() == old(self).config(),
    {
        let found =
            raw_matches(&mut self.raw_cursor, &query.raw_query, node.get_raw_node(), source);
        let ghost run = match_run(old(self).raw(), query.raw(), node.raw(), source@).0;
        let mut matches: Vec<QueryMatch<'tree>> = Vec::new();
        let mut i: usize = 0;
        while i < found.len()
            invariant
                node.wf(),
                i <= found@.len(),
                found@.len() == run.len(),
                forall|k: int|
                    0 <= k < found@.len() ==> (#[trigger] found@[k]).0 == run[k].0 && found@[k].1@
                        == run[k].1,
                forall|k: int, j: int|
                    0 <= k < found@.len() && 0 <= j < found@[k].1@.len() ==> node_owner(
                        (#[trigger] found@[k].1@[j]).0,
                    ) == node.owner(),
                matches_share(node.owner(), run.subrange(0, i as int), matches@),
            decreases found@.len() - i,
        {
            let captures = Self::adopt_captures(node, &found[i].1);
            matches.push(QueryMatch { pattern_index: found[i].0, captures });
            i += 1;
        }
        assert(run.subrange(0, i as int) =~= run);
        matches
    }

    /// Runs `query` as `matches` does where the span of `node` lies within
    /// `source`, and hands back nothing, leaving the cursor as it was,
    /// where it does not: then `source` is not the text that was parsed.
    pub fn checked_matches<'tree>(
        &mut self,
        query: &Query,
        node: &Node<'tree>,
        source: &str,
    ) -> (r: Option<Vec<QueryMatch<'tree>>>)
        requires
            node.wf(),
        ensures
            match r {
                Some(matches) => {
                    &&& node_end_byte(node.raw()) <= encode_utf8(source@).len()
                    &&& matches_share(
                        node.owner(),
                        match_run(old(self).raw(), query.raw(), node.raw(), source@).0,
                        matches@,
                    )
                    &&& final(self).exceeded() == match_run(
                        old(self).raw(),
                        query.raw(),
                        node.raw(),
                        source@,
                    ).1
                    &&& final(self).config() == old(self).config()
                },
                None => {
                    &&& node_end_byte(node.raw()) > encode_utf8(source@).len()
                    &&& final(self).raw() == old(self).raw()
                },
            },
    {
        if node.end_byte() <= source.as_bytes().len() {
            Some(self.matches(query, node, source))
        } else {
            None
        }
    }

    /// Restricts the runs to the half-open span of bytes from `start` to
    /// `end`.
    pub fn set_byte_range(&mut self, start: usize, end: usize)
        ensures
            final(self).config() == old(self).config().with_byte_range(start, end),
            final(self).exceeded() == old(self).exceeded(),
    {
        raw_set_byte_range(&mut self.raw_cursor, start, end);
    }

    /// Restricts the runs to the span of positions from `start` to `end`.
    /// The span has to be given with its end included: one given with its
    /// end left out is turned down, and the cursor is not touched.
    pub fn set_point_range(&mut self, start: &Point, end: &Point, exclusive: bool) -> (r: Result<
        (),
        Error,
    >)
        ensures
            exclusive ==> r == Err::<(), Error>(Error::ExclusivePointRange) && final(self).raw()
                == old(self).raw(),
            !exclusive ==> r.is_ok() && final(self).config() == old(self).config().with_point_range(
                *start,
                *end,
            ) && final(self).exceeded() == old(self).exceeded(),
    {
        if exclusive {
            return Err(Error::ExclusivePointRange);
        }
        raw_set_point_range(&mut self.raw_cursor, *start, *end);
        Ok(())
    }

    /// Bounds the depth below the searched node at which a pattern may
    /// start; no depth lifts the bound.
    pub fn set_max_start_depth(&mut self, depth: Option<u32>)
        ensures
            final(self).config() == old(self).config().with_max_start_depth(depth),
            final(self).exceeded() == old(self).exceeded(),
    {
        raw_set_max_start_depth(&mut self.raw_cursor, depth);
    }
}

} // verus!
