//! The parsing engine's tree, node and cursor types, and what this crate
//! takes for granted of their methods. Nothing in this file is proved: each
//! item says, above its contract, which engine function it stands for and
//! what is claimed of it.
use crate::data::{Point, Range};
use tree_sitter::Node as RawNode;
use tree_sitter::Tree as RawTree;
use tree_sitter::TreeCursor as RawTreeCursor;
use vstd::prelude::*;
use vstd::utf8::{decode_utf8, encode_utf8, valid_utf8};

verus! {

/// `tree_sitter::Tree`, carried as an opaque value.
#[verifier::external_type_specification]
#[verifier::external_body]
pub struct ExTree(RawTree);

/// `tree_sitter::Node`, carried as an opaque value.
#[verifier::external_type_specification]
#[verifier::external_body]
pub struct ExNode<'tree>(RawNode<'tree>);

/// `tree_sitter::TreeCursor`, carried as an opaque value.
#[verifier::external_type_specification]
#[verifier::external_body]
pub struct ExTreeCursor<'cursor>(RawTreeCursor<'cursor>);

/// The tree that a node lies in.
pub uninterp spec fn node_owner(node: RawNode) -> RawTree;

/// The tree that a cursor walks.
pub uninterp spec fn cursor_owner(cursor: RawTreeCursor) -> RawTree;

/// What `Tree::root_node` returns.
pub uninterp spec fn tree_root(tree: RawTree) -> RawNode<'static>;

/// What `Tree`'s `Debug` form writes.
pub uninterp spec fn tree_debug_text(tree: RawTree) -> Seq<char>;

/// What `Node::id` returns.
pub uninterp spec fn node_id(node: RawNode) -> usize;

/// What `Node::kind_id` returns.
pub uninterp spec fn node_kind_id(node: RawNode) -> u16;

/// What `Node::grammar_id` returns.
pub uninterp spec fn node_grammar_id(node: RawNode) -> u16;

/// What `Node::kind` returns.
pub uninterp spec fn node_kind(node: RawNode) -> Seq<char>;

/// What `Node::grammar_name` returns.
pub uninterp spec fn node_grammar_name(node: RawNode) -> Seq<char>;

/// What `Node::is_named` returns.
pub uninterp spec fn node_is_named(node: RawNode) -> bool;

/// What `Node::is_extra` returns.
pub uninterp spec fn node_is_extra(node: RawNode) -> bool;

/// What `Node::has_changes` returns.
pub uninterp spec fn node_has_changes(node: RawNode) -> bool;

/// What `Node::has_error` returns.
pub uninterp spec fn node_has_error(node: RawNode) -> bool;

/// What `Node::is_error` returns.
pub uninterp spec fn node_is_error(node: RawNode) -> bool;

/// What `Node::parse_state` returns.
pub uninterp spec fn node_parse_state(node: RawNode) -> u16;

/// What `Node::next_parse_state` returns.
pub uninterp spec fn node_next_parse_state(node: RawNode) -> u16;

/// What `Node::start_byte` returns.
pub uninterp spec fn node_start_byte(node: RawNode) -> usize;

/// What `Node::end_byte` returns.
pub uninterp spec fn node_end_byte(node: RawNode) -> usize;

/// What `Node::start_position` returns.
pub uninterp spec fn node_start_position(node: RawNode) -> Point;

/// What `Node::end_position` returns.
pub uninterp spec fn node_end_position(node: RawNode) -> Point;

/// What `Node::child_count` returns.
pub uninterp spec fn node_child_count(node: RawNode) -> usize;

/// What `Node::named_child_count` returns.
pub uninterp spec fn node_named_child_count(node: RawNode) -> usize;

/// What `Node::descendant_count` returns.
pub uninterp spec fn node_descendant_count(node: RawNode) -> usize;

/// What `Node::child` returns.
pub uninterp spec fn node_child(node: RawNode, index: usize) -> Option<RawNode<'static>>;

/// What `Node::named_child` returns.
pub uninterp spec fn node_named_child(node: RawNode, index: usize) -> Option<RawNode<'static>>;

/// What `Node::child_by_field_name` returns.
pub uninterp spec fn node_child_by_field_name(node: RawNode, name: Seq<char>) -> Option<
    RawNode<'static>,
>;

/// What `Node::child_by_field_id` returns.
pub uninterp spec fn node_child_by_field_id(node: RawNode, field_id: u16) -> Option<
    RawNode<'static>,
>;

/// What `Node::field_name_for_child` returns.
pub uninterp spec fn node_field_name_for_child(node: RawNode, index: u32) -> Option<Seq<char>>;

/// The cursor that `Node::walk` makes for a node, and that
/// `TreeCursor::reset` leaves for it.
pub uninterp spec fn cursor_at(node: RawNode) -> RawTreeCursor<'static>;

/// What `Node::named_children` yields, in the order in which it yields it.
pub uninterp spec fn node_named_children(node: RawNode) -> Seq<RawNode<'static>>;

/// What `Node::children_by_field_name` yields, in the order in which it
/// yields it.
pub uninterp spec fn node_children_by_field_name(node: RawNode, name: Seq<char>) -> Seq<
    RawNode<'static>,
>;

/// What `Node::children_by_field_id` yields, in the order in which it
/// yields it.
pub uninterp spec fn node_children_by_field_id(node: RawNode, field_id: u16) -> Seq<
    RawNode<'static>,
>;

/// What `Node::parent` returns.
pub uninterp spec fn node_parent(node: RawNode) -> Option<RawNode<'static>>;

/// What `Node::child_containing_descendant` returns.
pub uninterp spec fn node_child_containing(node: RawNode, descendant: RawNode) -> Option<
    RawNode<'static>,
>;

/// What `Node::next_sibling` returns.
pub uninterp spec fn node_next_sibling(node: RawNode) -> Option<RawNode<'static>>;

/// What `Node::prev_sibling` returns.
pub uninterp spec fn node_prev_sibling(node: RawNode) -> Option<RawNode<'static>>;

/// What `Node::next_named_sibling` returns.
pub uninterp spec fn node_next_named_sibling(node: RawNode) -> Option<RawNode<'static>>;

/// What `Node::prev_named_sibling` returns.
pub uninterp spec fn node_prev_named_sibling(node: RawNode) -> Option<RawNode<'static>>;

/// What `Node::descendant_for_byte_range` returns.
pub uninterp spec fn node_descendant_for_bytes(node: RawNode, start: usize, end: usize) -> Option<
    RawNode<'static>,
>;

/// What `Node::named_descendant_for_byte_range` returns.
pub uninterp spec fn node_named_descendant_for_bytes(
    node: RawNode,
    start: usize,
    end: usize,
) -> Option<RawNode<'static>>;

/// What `Node::descendant_for_point_range` returns.
pub uninterp spec fn node_descendant_for_points(node: RawNode, start: Point, end: Point) -> Option<
    RawNode<'static>,
>;

/// What `Node::named_descendant_for_point_range` returns.
pub uninterp spec fn node_named_descendant_for_points(
    node: RawNode,
    start: Point,
    end: Point,
) -> Option<RawNode<'static>>;

/// What `Node::to_sexp` returns.
pub uninterp spec fn node_sexp(node: RawNode) -> Seq<char>;

/// What `Node`'s `Debug` form writes.
pub uninterp spec fn node_debug_text(node: RawNode) -> Seq<char>;

/// What `TreeCursor::node` returns.
pub uninterp spec fn cursor_node(cursor: RawTreeCursor) -> RawNode<'static>;

/// What `TreeCursor::field_id` returns, with zero for no field.
pub uninterp spec fn cursor_field_id(cursor: RawTreeCursor) -> Option<u16>;

/// What `TreeCursor::goto_first_child` returns, and the cursor it leaves.
pub uninterp spec fn cursor_first_child(cursor: RawTreeCursor) -> (bool, RawTreeCursor<'static>);

/// What `TreeCursor::goto_last_child` returns, and the cursor it leaves.
pub uninterp spec fn cursor_last_child(cursor: RawTreeCursor) -> (bool, RawTreeCursor<'static>);

/// What `TreeCursor::goto_parent` returns, and the cursor it leaves.
pub uninterp spec fn cursor_parent(cursor: RawTreeCursor) -> (bool, RawTreeCursor<'static>);

/// What `TreeCursor::goto_next_sibling` returns, and the cursor it leaves.
pub uninterp spec fn cursor_next_sibling(cursor: RawTreeCursor) -> (bool, RawTreeCursor<'static>);

/// What `TreeCursor::goto_previous_sibling` returns, and the cursor it
/// leaves.
pub uninterp spec fn cursor_previous_sibling(cursor: RawTreeCursor) -> (
    bool,
    RawTreeCursor<'static>,
);

/// The cursor that `TreeCursor::goto_descendant` leaves.
pub uninterp spec fn cursor_descendant(cursor: RawTreeCursor, index: usize) -> RawTreeCursor<
    'static,
>;

/// What `TreeCursor::goto_first_child_for_byte` returns, and the cursor it
/// leaves.
pub uninterp spec fn cursor_first_child_for_byte(cursor: RawTreeCursor, offset: usize) -> (
    Option<usize>,
    RawTreeCursor<'static>,
);

/// The nodes on which a cursor stands in turn when it is moved `count`
/// times to the next sibling, the one on which it stands first included and
/// the one on which it stands last left out.
pub open spec fn sibling_nodes(cursor: RawTreeCursor, count: nat) -> Seq<RawNode<'static>>
    decreases count,
{
    if count == 0 {
        Seq::empty()
    } else {
        seq![cursor_node(cursor)] + sibling_nodes(
            cursor_next_sibling(cursor).1,
            (count - 1) as nat,
        )
    }
}

/// The cursor after it was moved `count` times to the next sibling.
pub open spec fn after_siblings(cursor: RawTreeCursor, count: nat) -> RawTreeCursor<'static>
    decreases count,
{
    if count == 0 {
        cursor
    } else {
        after_siblings(cursor_next_sibling(cursor).1, (count - 1) as nat)
    }
}

/// What `Node::children` yields, in the order in which it yields it: the
/// nodes that a cursor put on the node stands on when it is moved to the
/// first child and then from sibling to sibling, as many as the node has
/// children.
pub open spec fn node_children(node: RawNode) -> Seq<RawNode<'static>> {
    sibling_nodes(cursor_first_child(cursor_at(node)).1, node_child_count(node) as nat)
}

/// `Tree::root_node`: the result is a function of the tree, and lies in
/// that tree.
pub assume_specification<'a>[ RawTree::root_node ](tree: &'a RawTree) -> (r: RawNode<'a>)
    ensures
        r == tree_root(*tree),
        node_owner(r) == *tree,
;

/// `Tree::walk`: the cursor is the one of the tree's root; it walks the
/// tree it was made from and stands on that root.
pub assume_specification<'a>[ RawTree::walk ](tree: &'a RawTree) -> (r: RawTreeCursor<'a>)
    ensures
        r == cursor_at(tree_root(*tree)),
        cursor_owner(r) == *tree,
        cursor_node(r) == tree_root(*tree),
;

/// The `Debug` form of `tree_sitter::Tree`: the text is a function of the
/// tree.
#[verifier::external_body]
pub(crate) fn raw_tree_debug(tree: &RawTree) -> (r: String)
    ensures
        r@ == tree_debug_text(*tree),
{
    format!("{:?}", tree)
}

/// `Node::id`: the result is a function of the node.
pub assume_specification<'tree>[ RawNode::<'tree>::id ](node: &RawNode<'tree>) -> (r: usize)
    ensures
        r == node_id(*node),
;

/// `Node::kind_id`: the result is a function of the node.
pub assume_specification<'tree>[ RawNode::<'tree>::kind_id ](node: &RawNode<'tree>) -> (r: u16)
    ensures
        r == node_kind_id(*node),
;

/// `Node::grammar_id`: the result is a function of the node.
pub assume_specification<'tree>[ RawNode::<'tree>::grammar_id ](node: &RawNode<'tree>) -> (r: u16)
    ensures
        r == node_grammar_id(*node),
;

/// `Node::kind`: the text is a function of the node.
pub assume_specification<'tree>[ RawNode::<'tree>::kind ](node: &RawNode<'tree>) -> (r:
    &'static str)
    ensures
        r@ == node_kind(*node),
;

/// `Node::grammar_name`: the text is a function of the node.
pub assume_specification<'tree>[ RawNode::<'tree>::grammar_name ](node: &RawNode<'tree>) -> (r:
    &'static str)
    ensures
        r@ == node_grammar_name(*node),
;

/// `Node::is_named`: the result is a function of the node.
pub assume_specification<'tree>[ RawNode::<'tree>::is_named ](node: &RawNode<'tree>) -> (r: bool)
    ensures
        r == node_is_named(*node),
;

/// `Node::is_extra`: the result is a function of the node.
pub assume_specification<'tree>[ RawNode::<'tree>::is_extra ](node: &RawNode<'tree>) -> (r: bool)
    ensures
        r == node_is_extra(*node),
;

/// `Node::has_changes`: the result is a function of the node.
pub assume_specification<'tree>[ RawNode::<'tree>::has_changes ](node: &RawNode<'tree>) -> (r: bool)
    ensures
        r == node_has_changes(*node),
;

/// `Node::has_error`: the result is a function of the node.
pub assume_specification<'tree>[ RawNode::<'tree>::has_error ](node: &RawNode<'tree>) -> (r: bool)
    ensures
        r == node_has_error(*node),
;

/// `Node::is_error`: the result is a function of the node.
pub assume_specification<'tree>[ RawNode::<'tree>::is_error ](node: &RawNode<'tree>) -> (r: bool)
    ensures
        r == node_is_error(*node),
;

/// `Node::parse_state`: the result is a function of the node.
pub assume_specification<'tree>[ RawNode::<'tree>::parse_state ](node: &RawNode<'tree>) -> (r: u16)
    ensures
        r == node_parse_state(*node),
;

/// `Node::next_parse_state`: the result is a function of the node.
pub assume_specification<'tree>[ RawNode::<'tree>::next_parse_state ](
    node: &RawNode<'tree>,
) -> (r: u16)
    ensures
        r == node_next_parse_state(*node),
;

/// `Node::start_byte`: the result is a function of the node.
pub assume_specification<'tree>[ RawNode::<'tree>::start_byte ](node: &RawNode<'tree>) -> (r: usize)
    ensures
        r == node_start_byte(*node),
;

/// `Node::end_byte`: the result is a function of the node.
pub assume_specification<'tree>[ RawNode::<'tree>::end_byte ](node: &RawNode<'tree>) -> (r: usize)
    ensures
        r == node_end_byte(*node),
;

/// `Node::child_count`: the result is a function of the node.
pub assume_specification<'tree>[ RawNode::<'tree>::child_count ](
    node: &RawNode<'tree>,
) -> (r: usize)
    ensures
        r == node_child_count(*node),
;

/// `Node::named_child_count`: the result is a function of the node.
pub assume_specification<'tree>[ RawNode::<'tree>::named_child_count ](
    node: &RawNode<'tree>,
) -> (r: usize)
    ensures
        r == node_named_child_count(*node),
;

/// `Node::descendant_count`: the result is a function of the node.
pub assume_specification<'tree>[ RawNode::<'tree>::descendant_count ](
    node: &RawNode<'tree>,
) -> (r: usize)
    ensures
        r == node_descendant_count(*node),
;

/// `Node::byte_range`: the two ends are the node's start and end offsets.
#[verifier::external_body]
pub(crate) fn raw_byte_range<'tree>(node: &RawNode<'tree>) -> (r: (usize, usize))
    ensures
        r == (node_start_byte(*node), node_end_byte(*node)),
{
    let range = node.byte_range();
    (range.start, range.end)
}

/// `Node::start_position`: the result is a function of the node.
#[verifier::external_body]
pub(crate) fn raw_start_position<'tree>(node: &RawNode<'tree>) -> (r: Point)
    ensures
        r == node_start_position(*node),
{
    let point = node.start_position();
    Point { row: point.row, column: point.column }
}

/// `Node::end_position`: the result is a function of the node.
#[verifier::external_body]
pub(crate) fn raw_end_position<'tree>(node: &RawNode<'tree>) -> (r: Point)
    ensures
        r == node_end_position(*node),
{
    let point = node.end_position();
    Point { row: point.row, column: point.column }
}

/// `Node::range`: the span is made of the node's start and end offsets and
/// its start and end positions.
#[verifier::external_body]
pub(crate) fn raw_range<'tree>(node: &RawNode<'tree>) -> (r: Range)
    ensures
        r == (Range {
            start_byte: node_start_byte(*node),
            end_byte: node_end_byte(*node),
            start_point: node_start_position(*node),
            end_point: node_end_position(*node),
        }),
{
    let range = node.range();
    Range {
        start_byte: range.start_byte,
        end_byte: range.end_byte,
        start_point: Point { row: range.start_point.row, column: range.start_point.column },
        end_point: Point { row: range.end_point.row, column: range.end_point.column },
    }
}

/// `Node::child`: the result is a function of the node and the index. A
/// node that is returned lies in the tree of the node it was asked of.
pub assume_specification<'tree>[ RawNode::<'tree>::child ](
    node: &RawNode<'tree>,
    index: usize,
) -> (r: Option<RawNode<'tree>>)
    ensures
        r == node_child(*node, index),
        r matches Some(n) ==> node_owner(n) == node_owner(*node),
;

/// `Node::named_child`: the result is a function of the node and the index.
/// A node that is returned lies in the tree of the node it was asked of.
pub assume_specification<'tree>[ RawNode::<'tree>::named_child ](
    node: &RawNode<'tree>,
    index: usize,
) -> (r: Option<RawNode<'tree>>)
    ensures
        r == node_named_child(*node, index),
        r matches Some(n) ==> node_owner(n) == node_owner(*node),
;

/// `Node::child_by_field_id`: the result is a function of the node and the
/// field. A node that is returned lies in the tree of the node it was asked
/// of.
pub assume_specification<'tree>[ RawNode::<'tree>::child_by_field_id ](
    node: &RawNode<'tree>,
    field_id: u16,
) -> (r: Option<RawNode<'tree>>)
    ensures
        r == node_child_by_field_id(*node, field_id),
        r matches Some(n) ==> node_owner(n) == node_owner(*node),
;

/// `Node::child_by_field_name`: the result is a function of the node and
/// the field's name. A node that is returned lies in the tree of the node
/// it was asked of.
#[verifier::external_body]
pub(crate) fn raw_child_by_field_name<'tree>(node: &RawNode<'tree>, name: &str) -> (r: Option<
    RawNode<'tree>,
>)
    ensures
        r == node_child_by_field_name(*node, name@),
        r matches Some(n) ==> node_owner(n) == node_owner(*node),
{
    node.child_by_field_name(name)
}

/// `Node::field_name_for_child`: the result is a function of the node and
/// the index.
pub assume_specification<'tree>[ RawNode::<'tree>::field_name_for_child ](
    node: &RawNode<'tree>,
    index: u32,
) -> (r: Option<&'static str>)
    ensures
        match r {
            Some(name) => node_field_name_for_child(*node, index) == Some(name@),
            None => node_field_name_for_child(*node, index).is_none(),
        },
;

/// `Node::children`, gathered into a vector. The engine resets the cursor
/// to the node, moves it to the first child, and then as often as the node
/// has children takes the node on which the cursor stands and moves the
/// cursor to the next sibling. Each node that is taken lies in the node's
/// tree, and the cursor walks the node's tree afterwards.
#[verifier::external_body]
pub(crate) fn raw_children<'tree>(node: &RawNode<'tree>, cursor: &mut RawTreeCursor<'tree>) -> (r:
    Vec<RawNode<'tree>>)
    ensures
        r@ == node_children(*node),
        forall|i: int| 0 <= i < r@.len() ==> node_owner(#[trigger] r@[i]) == node_owner(*node),
        *final(cursor) == after_siblings(
            cursor_first_child(cursor_at(*node)).1,
            node_child_count(*node) as nat,
        ),
        cursor_owner(*final(cursor)) == node_owner(*node),
{
    node.children(cursor).collect()
}

/// `Node::named_children`, gathered into a vector: as many nodes as the
/// node has named children, each in the node's tree. The cursor is reset to
/// the node and moved over its children, so it walks the node's tree
/// afterwards.
#[verifier::external_body]
pub(crate) fn raw_named_children<'tree>(
    node: &RawNode<'tree>,
    cursor: &mut RawTreeCursor<'tree>,
) -> (r: Vec<RawNode<'tree>>)
    ensures
        r@ == node_named_children(*node),
        r@.len() == node_named_child_count(*node),
        forall|i: int| 0 <= i < r@.len() ==> node_owner(#[trigger] r@[i]) == node_owner(*node),
        cursor_owner(*final(cursor)) == node_owner(*node),
{
    node.named_children(cursor).collect()
}

/// `Node::children_by_field_name`, gathered into a vector: each node lies
/// in the node's tree. The cursor is reset to the node and moved over its
/// children where the language knows the field, and is left as it was where
/// it does not.
#[verifier::external_body]
pub(crate) fn raw_children_by_field_name<'tree>(
    node: &RawNode<'tree>,
    name: &str,
    cursor: &mut RawTreeCursor<'tree>,
) -> (r: Vec<RawNode<'tree>>)
    ensures
        r@ == node_children_by_field_name(*node, name@),
        forall|i: int| 0 <= i < r@.len() ==> node_owner(#[trigger] r@[i]) == node_owner(*node),
        cursor_owner(*final(cursor)) == node_owner(*node) || *final(cursor) == *old(cursor),
{
    node.children_by_field_name(name, cursor).collect()
}

/// `Node::children_by_field_id`, gathered into a vector: each node lies in
/// the node's tree. The cursor is reset to the node and moved over its
/// children, so it walks the node's tree afterwards. The engine takes the
/// field as a non-zero number, so zero is left out.
#[verifier::external_body]
pub(crate) fn raw_children_by_field_id<'tree>(
    node: &RawNode<'tree>,
    field_id: u16,
    cursor: &mut RawTreeCursor<'tree>,
) -> (r: Vec<RawNode<'tree>>)
    requires
        field_id != 0,
    ensures
        r@ == node_children_by_field_id(*node, field_id),
        forall|i: int| 0 <= i < r@.len() ==> node_owner(#[trigger] r@[i]) == node_owner(*node),
        cursor_owner(*final(cursor)) == node_owner(*node),
{
    let field_id = std::num::NonZeroU16::new(field_id).unwrap();
    node.children_by_field_id(field_id, cursor).collect()
}

/// `Node::parent`: the result is a function of the node. A node that is
/// returned lies in the tree of the node it was asked of.
pub assume_specification<'tree>[ RawNode::<'tree>::parent ](
    node: &RawNode<'tree>,
) -> (r: Option<RawNode<'tree>>)
    ensures
        r == node_parent(*node),
        r matches Some(n) ==> node_owner(n) == node_owner(*node),
;

/// `Node::next_sibling`: the result is a function of the node. A node that
/// is returned lies in the tree of the node it was asked of.
pub assume_specification<'tree>[ RawNode::<'tree>::next_sibling ](
    node: &RawNode<'tree>,
) -> (r: Option<RawNode<'tree>>)
    ensures
        r == node_next_sibling(*node),
        r matches Some(n) ==> node_owner(n) == node_owner(*node),
;

/// `Node::prev_sibling`: the result is a function of the node. A node that
/// is returned lies in the tree of the node it was asked of.
pub assume_specification<'tree>[ RawNode::<'tree>::prev_sibling ](
    node: &RawNode<'tree>,
) -> (r: Option<RawNode<'tree>>)
    ensures
        r == node_prev_sibling(*node),
        r matches Some(n) ==> node_owner(n) == node_owner(*node),
;

/// `Node::next_named_sibling`: the result is a function of the node. A node
/// that is returned lies in the tree of the node it was asked of.
pub assume_specification<'tree>[ RawNode::<'tree>::next_named_sibling ](
    node: &RawNode<'tree>,
) -> (r: Option<RawNode<'tree>>)
    ensures
        r == node_next_named_sibling(*node),
        r matches Some(n) ==> node_owner(n) == node_owner(*node),
;

/// `Node::prev_named_sibling`: the result is a function of the node. A node
/// that is returned lies in the tree of the node it was asked of.
pub assume_specification<'tree>[ RawNode::<'tree>::prev_named_sibling ](
    node: &RawNode<'tree>,
) -> (r: Option<RawNode<'tree>>)
    ensures
        r == node_prev_named_sibling(*node),
        r matches Some(n) ==> node_owner(n) == node_owner(*node),
;

/// `Node::child_containing_descendant`: the result is a function of the two
/// nodes. A node that is returned lies in the tree of the node it was asked
/// of.
pub assume_specification<'tree>[ RawNode::<'tree>::child_containing_descendant ](
    node: &RawNode<'tree>,
    descendant: RawNode<'tree>,
) -> (r: Option<RawNode<'tree>>)
    ensures
        r == node_child_containing(*node, descendant),
        r matches Some(n) ==> node_owner(n) == node_owner(*node),
;

/// Whether a node spans the bytes from `start` to `end`, which the engine
/// counts in 32 bits.
pub open spec fn node_spans(node: RawNode, start: usize, end: usize) -> bool {
    node_start_byte(node) <= start as u32 && end as u32 <= node_end_byte(node)
}

/// `Node::descendant_for_byte_range`: the result is a function of the node
/// and the two offsets. The search starts with the node itself as its
/// answer and goes down only into a child that spans the range, so a node
/// is always returned, and it is the node itself or spans the range; it
/// lies in the node's tree.
pub assume_specification<'tree>[ RawNode::<'tree>::descendant_for_byte_range ](
    node: &RawNode<'tree>,
    start: usize,
    end: usize,
) -> (r: Option<RawNode<'tree>>)
    ensures
        r == node_descendant_for_bytes(*node, start, end),
        r.is_some(),
        r matches Some(n) ==> node_owner(n) == node_owner(*node),
        r matches Some(n) ==> n == *node || node_spans(n, start, end),
;

/// `Node::named_descendant_for_byte_range`: the result is a function of the
/// node and the two offsets. The search starts with the node itself as its
/// answer and goes down only into a child that spans the range, so a node
/// is always returned, and it is the node itself or spans the range; it
/// lies in the node's tree.
pub assume_specification<'tree>[ RawNode::<'tree>::named_descendant_for_byte_range ](
    node: &RawNode<'tree>,
    start: usize,
    end: usize,
) -> (r: Option<RawNode<'tree>>)
    ensures
        r == node_named_descendant_for_bytes(*node, start, end),
        r.is_some(),
        r matches Some(n) ==> node_owner(n) == node_owner(*node),
        r matches Some(n) ==> n == *node || node_spans(n, start, end),
;

/// `Node::descendant_for_point_range`: the result is a function of the node
/// and the two positions. The search starts with the node itself as its
/// answer, so a node is always returned; it lies in the node's tree.
#[verifier::external_body]
pub(crate) fn raw_descendant_for_points<'tree>(
    node: &RawNode<'tree>,
    start: Point,
    end: Point,
) -> (r: Option<RawNode<'tree>>)
    ensures
        r == node_descendant_for_points(*node, start, end),
        r.is_some(),
        r matches Some(n) ==> node_owner(n) == node_owner(*node),
{
    let start = tree_sitter::Point { row: start.row, column: start.column };
    let end = tree_sitter::Point { row: end.row, column: end.column };
    node.descendant_for_point_range(start, end)
}

/// `Node::named_descendant_for_point_range`: the result is a function of
/// the node and the two positions. The search starts with the node itself
/// as its answer, so a node is always returned; it lies in the node's tree.
#[verifier::external_body]
pub(crate) fn raw_named_descendant_for_points<'tree>(
    node: &RawNode<'tree>,
    start: Point,
    end: Point,
) -> (r: Option<RawNode<'tree>>)
    ensures
        r == node_named_descendant_for_points(*node, start, end),
        r.is_some(),
        r matches Some(n) ==> node_owner(n) == node_owner(*node),
{
    let start = tree_sitter::Point { row: start.row, column: start.column };
    let end = tree_sitter::Point { row: end.row, column: end.column };
    node.named_descendant_for_point_range(start, end)
}

/// `Node::to_sexp`: the text is a function of the node.
pub assume_specification<'tree>[ RawNode::<'tree>::to_sexp ](node: &RawNode<'tree>) -> (r: String)
    ensures
        r@ == node_sexp(*node),
;

/// The `Debug` form of `tree_sitter::Node`: the text is a function of the
/// node.
#[verifier::external_body]
pub(crate) fn raw_node_debug<'tree>(node: &RawNode<'tree>) -> (r: String)
    ensures
        r@ == node_debug_text(*node),
{
    format!("{:?}", node)
}

/// The plain `Display` form of `tree_sitter::Node`: it writes what
/// `Node::to_sexp` returns.
#[verifier::external_body]
pub(crate) fn raw_node_display<'tree>(node: &RawNode<'tree>) -> (r: String)
    ensures
        r@ == node_sexp(*node),
{
    format!("{}", node)
}

/// The bytes of `source`, as UTF-8, between a node's two offsets.
pub open spec fn node_bytes(node: RawNode, source: Seq<char>) -> Seq<u8>
    recommends
        node_start_byte(node) <= node_end_byte(node) <= encode_utf8(source).len(),
{
    encode_utf8(source).subrange(node_start_byte(node) as int, node_end_byte(node) as int)
}

/// `Node::utf8_text`, which decodes the bytes of `source` between the
/// node's two offsets with `str::from_utf8`: the text is the decoding of
/// those bytes where they are valid UTF-8, and there is none where they are
/// not. The offsets must lie within `source`, in order.
#[verifier::external_body]
pub(crate) fn raw_utf8_text<'tree>(node: &RawNode<'tree>, source: &str) -> (r: Option<String>)
    requires
        node_start_byte(*node) <= node_end_byte(*node) <= encode_utf8(source@).len(),
    ensures
        match r {
            Some(text) => valid_utf8(node_bytes(*node, source@)) && text@ == decode_utf8(
                node_bytes(*node, source@),
            ),
            None => !valid_utf8(node_bytes(*node, source@)),
        },
{
    node.utf8_text(source.as_bytes()).ok().map(|text| text.to_string())
}

/// `Node::walk`: the cursor is a function of the node; it walks the node's
/// tree and stands on the node.
pub assume_specification<'tree>[ RawNode::<'tree>::walk ](node: &RawNode<'tree>) -> (r:
    RawTreeCursor<'tree>)
    ensures
        r == cursor_at(*node),
        cursor_owner(r) == node_owner(*node),
        cursor_node(r) == *node,
;

/// `TreeCursor::node`: the result is a function of the cursor, and lies in
/// the tree that the cursor walks.
pub assume_specification<'cursor>[ RawTreeCursor::<'cursor>::node ](
    cursor: &RawTreeCursor<'cursor>,
) -> (r: RawNode<'cursor>)
    ensures
        r == cursor_node(*cursor),
        node_owner(r) == cursor_owner(*cursor),
;

/// `TreeCursor::field_id`: the result is a function of the cursor.
#[verifier::external_body]
pub(crate) fn raw_cursor_field_id<'cursor>(cursor: &RawTreeCursor<'cursor>) -> (r: Option<u16>)
    ensures
        r == cursor_field_id(*cursor),
{
    cursor.field_id().map(|id| id.get())
}

/// `TreeCursor::goto_first_child`: the answer and the cursor left behind
/// are functions of the cursor before, and the cursor stays in its tree.
pub assume_specification<'cursor>[ RawTreeCursor::<'cursor>::goto_first_child ](
    cursor: &mut RawTreeCursor<'cursor>,
) -> (r: bool)
    ensures
        (r, *final(cursor)) == cursor_first_child(*old(cursor)),
        cursor_owner(*final(cursor)) == cursor_owner(*old(cursor)),
;

/// `TreeCursor::goto_last_child`: the answer and the cursor left behind are
/// functions of the cursor before, and the cursor stays in its tree.
pub assume_specification<'cursor>[ RawTreeCursor::<'cursor>::goto_last_child ](
    cursor: &mut RawTreeCursor<'cursor>,
) -> (r: bool)
    ensures
        (r, *final(cursor)) == cursor_last_child(*old(cursor)),
        cursor_owner(*final(cursor)) == cursor_owner(*old(cursor)),
;

/// `TreeCursor::goto_parent`: the answer and the cursor left behind are
/// functions of the cursor before, and the cursor stays in its tree.
pub assume_specification<'cursor>[ RawTreeCursor::<'cursor>::goto_parent ](
    cursor: &mut RawTreeCursor<'cursor>,
) -> (r: bool)
    ensures
        (r, *final(cursor)) == cursor_parent(*old(cursor)),
        cursor_owner(*final(cursor)) == cursor_owner(*old(cursor)),
;

/// `TreeCursor::goto_next_sibling`: the answer and the cursor left behind
/// are functions of the cursor before, and the cursor stays in its tree.
pub assume_specification<'cursor>[ RawTreeCursor::<'cursor>::goto_next_sibling ](
    cursor: &mut RawTreeCursor<'cursor>,
) -> (r: bool)
    ensures
        (r, *final(cursor)) == cursor_next_sibling(*old(cursor)),
        cursor_owner(*final(cursor)) == cursor_owner(*old(cursor)),
;

/// `TreeCursor::goto_previous_sibling`: the answer and the cursor left
/// behind are functions of the cursor before, and the cursor stays in its
/// tree.
pub assume_specification<'cursor>[ RawTreeCursor::<'cursor>::goto_previous_sibling ](
    cursor: &mut RawTreeCursor<'cursor>,
) -> (r: bool)
    ensures
        (r, *final(cursor)) == cursor_previous_sibling(*old(cursor)),
        cursor_owner(*final(cursor)) == cursor_owner(*old(cursor)),
;

/// `TreeCursor::goto_descendant`: the cursor left behind is a function of
/// the cursor before and the index, and the cursor stays in its tree.
pub assume_specification<'cursor>[ RawTreeCursor::<'cursor>::goto_descendant ](
    cursor: &mut RawTreeCursor<'cursor>,
    descendant_index: usize,
)
    ensures
        *final(cursor) == cursor_descendant(*old(cursor), descendant_index),
        cursor_owner(*final(cursor)) == cursor_owner(*old(cursor)),
;

/// `TreeCursor::goto_first_child_for_byte`: the answer and the cursor left
/// behind are functions of the cursor before and the offset, and the cursor
/// stays in its tree.
pub assume_specification<'cursor>[ RawTreeCursor::<'cursor>::goto_first_child_for_byte ](
    cursor: &mut RawTreeCursor<'cursor>,
    index: usize,
) -> (r: Option<usize>)
    ensures
        (r, *final(cursor)) == cursor_first_child_for_byte(*old(cursor), index),
        cursor_owner(*final(cursor)) == cursor_owner(*old(cursor)),
;

/// `TreeCursor::reset`: the cursor is then the one that `Node::walk` makes
/// for the node, whatever it was before; it walks the node's tree and
/// stands on the node.
pub assume_specification<'cursor>[ RawTreeCursor::<'cursor>::reset ](
    cursor: &mut RawTreeCursor<'cursor>,
    node: RawNode<'cursor>,
)
    ensures
        *final(cursor) == cursor_at(node),
        cursor_owner(*final(cursor)) == node_owner(node),
        cursor_node(*final(cursor)) == node,
;

/// `TreeCursor::reset_to`: the cursor then walks the other cursor's tree
/// and stands on the node on which the other stands.
pub assume_specification<'cursor>[ RawTreeCursor::<'cursor>::reset_to ](
    cursor: &mut RawTreeCursor<'cursor>,
    other: &RawTreeCursor<'cursor>,
)
    ensures
        cursor_owner(*final(cursor)) == cursor_owner(*other),
        cursor_node(*final(cursor)) == cursor_node(*other),
;

} // verus!
