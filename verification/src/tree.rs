use crate::data::{Point, Range};
use crate::error::Error;
use crate::language::LanguageRef;
use crate::raw_language::tree_language;
use crate::raw_tree::{
    after_siblings, cursor_at, cursor_descendant, cursor_field_id, cursor_first_child,
    cursor_first_child_for_byte, cursor_last_child, cursor_next_sibling, cursor_node, cursor_owner,
    cursor_parent, cursor_previous_sibling, node_bytes, node_child, node_child_by_field_id,
    node_child_by_field_name, node_child_containing, node_child_count, node_children,
    node_children_by_field_id, node_children_by_field_name, node_debug_text, node_descendant_count,
    node_descendant_for_bytes, node_descendant_for_points, node_end_byte, node_end_position,
    node_field_name_for_child, node_grammar_id, node_grammar_name, node_has_changes, node_has_error,
    node_id, node_is_error, node_is_extra, node_is_named, node_kind, node_kind_id, node_named_child,
    node_named_child_count, node_named_children, node_named_descendant_for_bytes,
    node_named_descendant_for_points, node_next_named_sibling, node_next_parse_state,
    node_next_sibling, node_owner, node_parent, node_parse_state, node_prev_named_sibling,
    node_prev_sibling, node_sexp, node_spans, node_start_byte, node_start_position, raw_byte_range,
    raw_child_by_field_name, raw_children, raw_children_by_field_id, raw_children_by_field_name,
    raw_cursor_field_id, raw_descendant_for_points, raw_end_position, raw_named_children,
    raw_named_descendant_for_points, raw_node_debug, raw_node_display, raw_range,
    raw_start_position, raw_tree_debug, raw_utf8_text, sibling_nodes, tree_debug_text, tree_root,
};
use std::sync::Arc;
use tree_sitter::Node as RawNode;
use tree_sitter::Tree as RawTree;
use tree_sitter::TreeCursor as RawTreeCursor;
use vstd::prelude::*;
use vstd::std_specs::cmp::{PartialEqSpec, PartialEqSpecImpl};
use vstd::string::StringSliceAdditionalSpecFns;
use vstd::utf8::{decode_utf8, encode_utf8, valid_utf8};

verus! {

/// A parsed syntax tree, held through a shared handle. Every node and every
/// cursor that is derived from it holds a handle to the same tree, so the
/// tree lives as long as anything that points into it.
pub struct Tree {
    raw_tree: Arc<RawTree>,
}

/// One element of a syntax tree: a handle to the tree, and the position in
/// it.
pub struct Node<'tree> {
    raw_tree: Arc<RawTree>,
    raw_node: RawNode<'tree>,
}

/// A position in a syntax tree that can be moved step by step: a handle to
/// the tree, and the engine's cursor.
pub struct TreeCursor<'cursor> {
    raw_tree: Arc<RawTree>,
    raw_cursor: RawTreeCursor<'cursor>,
}

/// Whether `nodes` are the positions `found`, one for one and in the same
/// order, each with a handle to `owner` and lying in it.
pub open spec fn nodes_share(owner: RawTree, found: Seq<RawNode>, nodes: Seq<Node>) -> bool {
    &&& nodes.len() == found.len()
    &&& forall|i: int|
        0 <= i < nodes.len() ==> {
            &&& (#[trigger] nodes[i]).raw() == found[i]
            &&& nodes[i].owner() == owner
            &&& nodes[i].wf()
        }
}

impl Tree {
    /// The tree that the handle is to.
    pub closed spec fn owner(&self) -> RawTree {
        *self.raw_tree
    }

    pub fn from(raw_tree: Arc<RawTree>) -> (tree: Self)
        ensures
            tree.owner() == *raw_tree,
    {
        Self { raw_tree }
    }

    /// The engine's tree, for what only the engine can do with it.
    pub fn get_raw_tree(&self) -> (r: &RawTree)
        ensures
            *r == self.owner(),
    {
        &self.raw_tree
    }

    pub fn root_node(&self) -> (node: Node<'_>)
        ensures
            node.wf(),
            node.owner() == self.owner(),
            node.raw() == tree_root(self.owner()),
    {
        Node { raw_tree: Arc::clone(&self.raw_tree), raw_node: self.raw_tree.root_node() }
    }

    pub fn language(&self) -> (language: LanguageRef<'_>)
        ensures
            language.language() == tree_language(self.owner()),
    {
        LanguageRef { raw_language_ref: self.raw_tree.language() }
    }

    pub fn walk(&self) -> (cursor: TreeCursor<'_>)
        ensures
            cursor.wf(),
            cursor.owner() == self.owner(),
            cursor.raw() == cursor_at(tree_root(self.owner())),
            cursor_node(cursor.raw()) == tree_root(self.owner()),
    {
        TreeCursor { raw_tree: Arc::clone(&self.raw_tree), raw_cursor: self.raw_tree.walk() }
    }

    pub fn inspect(&self) -> (text: String)
        ensures
            text@ == tree_debug_text(self.owner()),
    {
        raw_tree_debug(&self.raw_tree)
    }
}

impl<'tree> Node<'tree> {
    /// The tree that the node's handle is to.
    pub closed spec fn owner(&self) -> RawTree {
        *self.raw_tree
    }

    /// The node's position, as the engine knows it.
    pub closed spec fn raw(&self) -> RawNode<'tree> {
        self.raw_node
    }

    /// The node holds a handle to the very tree that its position lies in.
    pub open spec fn wf(&self) -> bool {
        node_owner(self.raw()) == self.owner()
    }

    /// Whether `node` is the position `found`, with a handle to the tree
    /// that `self` has a handle to; or whether both are absent.
    pub open spec fn derives(&self, found: Option<RawNode>, node: Option<Node>) -> bool {
        match (found, node) {
            (Some(position), Some(node)) => {
                &&& node.raw() == position
                &&& node.owner() == self.owner()
                &&& node.wf()
            },
            (None, None) => true,
            _ => false,
        }
    }

    pub fn new(raw_tree: Arc<RawTree>, raw_node: RawNode<'tree>) -> (node: Self)
        requires
            node_owner(raw_node) == *raw_tree,
        ensures
            node.wf(),
            node.owner() == *raw_tree,
            node.raw() == raw_node,
    {
        Self { raw_tree, raw_node }
    }

    pub fn get_raw_node(&self) -> (r: RawNode<'tree>)
        ensures
            r == self.raw(),
    {
        self.raw_node
    }

    /// The engine's tree that this node lies in.
    pub fn get_raw_tree(&self) -> (r: &Arc<RawTree>)
        ensures
            **r == self.owner(),
    {
        &self.raw_tree
    }

    /// Gives a position that the engine found from this node a handle to
    /// this node's tree.
    fn adopt(&self, found: Option<RawNode<'tree>>) -> (node: Option<Node<'tree>>)
        requires
            self.wf(),
            found matches Some(position) ==> node_owner(position) == node_owner(self.raw()),
        ensures
            self.derives(found, node),
    {
        match found {
            Some(position) => Some(
                Node { raw_tree: Arc::clone(&self.raw_tree), raw_node: position },
            ),
            None => None,
        }
    }

    /// Gives each position that the engine found from this node a handle to
    /// this node's tree, keeping their order.
    fn adopt_all(&self, found: Vec<RawNode<'tree>>) -> (nodes: Vec<Node<'tree>>)
        requires
            self.wf(),
            forall|i: int|
                0 <= i < found@.len() ==> node_owner(#[trigger] found@[i]) == node_owner(
                    self.raw(),
                ),
        ensures
            nodes_share(self.owner(), found@, nodes@),
    {
        let mut nodes: Vec<Node<'tree>> = Vec::new();
        let mut i: usize = 0;
        while i < found.len()
            invariant
                self.wf(),
                i <= found@.len(),
                forall|k: int|
                    0 <= k < found@.len() ==> node_owner(#[trigger] found@[k]) == node_owner(
                        self.raw(),
                    ),
                nodes_share(self.owner(), found@.subrange(0, i as int), nodes@),
            decreases found@.len() - i,
        {
            let position = found[i];
            nodes.push(Node { raw_tree: Arc::clone(&self.raw_tree), raw_node: position });
            i += 1;
        }
        assert(found@.subrange(0, i as int) =~= found@);
        nodes
    }

    pub fn id(&self) -> (r: usize)
        ensures
            r == node_id(self.raw()),
    {
        self.raw_node.id()
    }

    pub fn kind(&self) -> (r: &'static str)
        ensures
            r@ == node_kind(self.raw()),
    {
        self.raw_node.kind()
    }

    pub fn kind_id(&self) -> (r: u16)
        ensures
            r == node_kind_id(self.raw()),
    {
        self.raw_node.kind_id()
    }

    pub fn grammar_id(&self) -> (r: u16)
        ensures
            r == node_grammar_id(self.raw()),
    {
        self.raw_node.grammar_id()
    }

    pub fn grammar_name(&self) -> (r: &'static str)
        ensures
            r@ == node_grammar_name(self.raw()),
    {
        self.raw_node.grammar_name()
    }

    pub fn language(&self) -> (language: LanguageRef<'_>)
        ensures
            language.language() == tree_language(node_owner(self.raw())),
    {
        LanguageRef { raw_language_ref: self.raw_node.language() }
    }

    pub fn is_named(&self) -> (r: bool)
        ensures
            r == node_is_named(self.raw()),
    {
        self.raw_node.is_named()
    }

    pub fn is_extra(&self) -> (r: bool)
        ensures
            r == node_is_extra(self.raw()),
    {
        self.raw_node.is_extra()
    }

    pub fn has_changes(&self) -> (r: bool)
        ensures
            r == node_has_changes(self.raw()),
    {
        self.raw_node.has_changes()
    }

    pub fn has_error(&self) -> (r: bool)
        ensures
            r == node_has_error(self.raw()),
    {
        self.raw_node.has_error()
    }

    pub fn is_error(&self) -> (r: bool)
        ensures
            r == node_is_error(self.raw()),
    {
        self.raw_node.is_error()
    }

    pub fn parse_state(&self) -> (r: u16)
        ensures
            r == node_parse_state(self.raw()),
    {
        self.raw_node.parse_state()
    }

    pub fn next_parse_state(&self) -> (r: u16)
        ensures
            r == node_next_parse_state(self.raw()),
    {
        self.raw_node.next_parse_state()
    }

    pub fn start_byte(&self) -> (r: usize)
        ensures
            r == node_start_byte(self.raw()),
    {
        self.raw_node.start_byte()
    }

    pub fn end_byte(&self) -> (r: usize)
        ensures
            r == node_end_byte(self.raw()),
    {
        self.raw_node.end_byte()
    }

    /// The node's half-open span of byte offsets, as its start and its end.
    pub fn byte_range(&self) -> (r: (usize, usize))
        ensures
            r == (node_start_byte(self.raw()), node_end_byte(self.raw())),
    {
        raw_byte_range(&self.raw_node)
    }

    pub fn range(&self) -> (r: Range)
        ensures
            r == (Range {
                start_byte: node_start_byte(self.raw()),
                end_byte: node_end_byte(self.raw()),
                start_point: node_start_position(self.raw()),
                end_point: node_end_position(self.raw()),
            }),
    {
        raw_range(&self.raw_node)
    }

    pub fn start_position(&self) -> (r: Point)
        ensures
            r == node_start_position(self.raw()),
    {
        raw_start_position(&self.raw_node)
    }

    pub fn end_position(&self) -> (r: Point)
        ensures
            r == node_end_position(self.raw()),
    {
        raw_end_position(&self.raw_node)
    }

    pub fn child(&self, index: usize) -> (r: Option<Self>)
        requires
            self.wf(),
        ensures
            self.derives(node_child(self.raw(), index), r),
    {
        self.adopt(self.raw_node.child(index))
    }

    pub fn child_count(&self) -> (r: usize)
        ensures
            r == node_child_count(self.raw()),
    {
        self.raw_node.child_count()
    }

    pub fn named_child(&self, index: usize) -> (r: Option<Self>)
        requires
            self.wf(),
        ensures
            self.derives(node_named_child(self.raw(), index), r),
    {
        self.adopt(self.raw_node.named_child(index))
    }

    pub fn named_child_count(&self) -> (r: usize)
        ensures
            r == node_named_child_count(self.raw()),
    {
        self.raw_node.named_child_count()
    }

    pub fn child_by_field_name(&self, field_name: &str) -> (r: Option<Self>)
        requires
            self.wf(),
        ensures
            self.derives(node_child_by_field_name(self.raw(), field_name@), r),
    {
        self.adopt(raw_child_by_field_name(&self.raw_node, field_name))
    }

    pub fn child_by_field_id(&self, field_id: u16) -> (r: Option<Self>)
        requires
            self.wf(),
        ensures
            self.derives(node_child_by_field_id(self.raw(), field_id), r),
    {
        self.adopt(self.raw_node.child_by_field_id(field_id))
    }

    pub fn field_name_for_child(&self, child_index: u32) -> (r: Option<&'static str>)
        ensures
            match r {
                Some(name) => node_field_name_for_child(self.raw(), child_index) == Some(name@),
                None => node_field_name_for_child(self.raw(), child_index).is_none(),
            },
    {
        self.raw_node.field_name_for_child(child_index)
    }

    /// The node's children in document order, found with a cursor of the
    /// call's own: as many as `child_count` says.
    pub fn children(&self) -> (nodes: Vec<Self>)
        requires
            self.wf(),
        ensures
            nodes@.len() == node_child_count(self.raw()),
            nodes_share(self.owner(), node_children(self.raw()), nodes@),
    {
        let mut cursor = self.raw_node.walk();
        let found = raw_children(&self.raw_node, &mut cursor);
        proof {
            lemma_sibling_nodes(
                cursor_first_child(cursor_at(self.raw())).1,
                node_child_count(self.raw()) as nat,
                0,
            );
        }
        self.adopt_all(found)
    }

    /// The node's children in document order, as many as `child_count`
    /// says, found with `cursor`: it is put on this node, moved to the
    /// first child and then from sibling to sibling, and left in this
    /// node's tree.
    pub fn children_with_cursor(&self, cursor: &mut TreeCursor<'tree>) -> (nodes: Vec<Self>)
        requires
            self.wf(),
        ensures
            nodes@.len() == node_child_count(self.raw()),
            nodes_share(self.owner(), node_children(self.raw()), nodes@),
            final(cursor).wf(),
            final(cursor).owner() == self.owner(),
            final(cursor).raw() == after_siblings(
                cursor_first_child(cursor_at(self.raw())).1,
                node_child_count(self.raw()) as nat,
            ),
    {
        let found = raw_children(&self.raw_node, &mut cursor.raw_cursor);
        cursor.raw_tree = Arc::clone(&self.raw_tree);
        proof {
            lemma_sibling_nodes(
                cursor_first_child(cursor_at(self.raw())).1,
                node_child_count(self.raw()) as nat,
                0,
            );
        }
        self.adopt_all(found)
    }

    /// The node's named children in document order, found with `cursor`,
    /// which is left in this node's tree.
    pub fn named_children_with_cursor(&self, cursor: &mut TreeCursor<'tree>) -> (nodes: Vec<Self>)
        requires
            self.wf(),
        ensures
            nodes@.len() == node_named_child_count(self.raw()),
            nodes_share(self.owner(), node_named_children(self.raw()), nodes@),
            final(cursor).wf(),
            final(cursor).owner() == self.owner(),
    {
        let found = raw_named_children(&self.raw_node, &mut cursor.raw_cursor);
        cursor.raw_tree = Arc::clone(&self.raw_tree);
        self.adopt_all(found)
    }

    /// The node's children under the field `field_name`, in document order,
    /// found with `cursor`, which is left in this node's tree.
    pub fn children_by_field_name_with_cursor(
        &self,
        field_name: &str,
        cursor: &mut TreeCursor<'tree>,
    ) -> (nodes: Vec<Self>)
        requires
            self.wf(),
        ensures
            nodes_share(
                self.owner(),
                node_children_by_field_name(self.raw(), field_name@),
                nodes@,
            ),
            final(cursor).wf(),
            final(cursor).owner() == self.owner(),
    {
        cursor.raw_cursor.reset(self.raw_node);
        let found = raw_children_by_field_name(&self.raw_node, field_name, &mut cursor.raw_cursor);
        cursor.raw_tree = Arc::clone(&self.raw_tree);
        self.adopt_all(found)
    }

    /// The node's children under the field numbered `field_id`, in document
    /// order, found with `cursor`, which is left in this node's tree. Zero
    /// numbers no field: it is turned down, and the cursor is not touched.
    pub fn children_by_field_id_with_cursor(
        &self,
        field_id: u16,
        cursor: &mut TreeCursor<'tree>,
    ) -> (r: Result<Vec<Self>, Error>)
        requires
            self.wf(),
        ensures
            field_id == 0 ==> r == Err::<Vec<Self>, Error>(Error::ZeroFieldId) && *final(cursor)
                == *old(cursor),
            field_id != 0 ==> r.is_ok() && nodes_share(
                self.owner(),
                node_children_by_field_id(self.raw(), field_id),
                r.unwrap()@,
            ) && final(cursor).wf() && final(cursor).owner() == self.owner(),
    {
        if field_id == 0 {
            return Err(Error::ZeroFieldId);
        }
        let found = raw_children_by_field_id(&self.raw_node, field_id, &mut cursor.raw_cursor);
        cursor.raw_tree = Arc::clone(&self.raw_tree);
        Ok(self.adopt_all(found))
    }

    pub fn parent(&self) -> (r: Option<Self>)
        requires
            self.wf(),
        ensures
            self.derives(node_parent(self.raw()), r),
    {
        self.adopt(self.raw_node.parent())
    }

    pub fn child_containing_descendant(&self, descendant: &Node<'tree>) -> (r: Option<Self>)
        requires
            self.wf(),
        ensures
            self.derives(node_child_containing(self.raw(), descendant.raw()), r),
    {
        self.adopt(self.raw_node.child_containing_descendant(descendant.raw_node))
    }

    pub fn next_sibling(&self) -> (r: Option<Self>)
        requires
            self.wf(),
        ensures
            self.derives(node_next_sibling(self.raw()), r),
    {
        self.adopt(self.raw_node.next_sibling())
    }

    pub fn prev_sibling(&self) -> (r: Option<Self>)
        requires
            self.wf(),
        ensures
            self.derives(node_prev_sibling(self.raw()), r),
    {
        self.adopt(self.raw_node.prev_sibling())
    }

    pub fn next_named_sibling(&self) -> (r: Option<Self>)
        requires
            self.wf(),
        ensures
            self.derives(node_next_named_sibling(self.raw()), r),
    {
        self.adopt(self.raw_node.next_named_sibling())
    }

    pub fn prev_named_sibling(&self) -> (r: Option<Self>)
        requires
            self.wf(),
        ensures
            self.derives(node_prev_named_sibling(self.raw()), r),
    {
        self.adopt(self.raw_node.prev_named_sibling())
    }

    pub fn descendant_count(&self) -> (r: usize)
        ensures
            r == node_descendant_count(self.raw()),
    {
        self.raw_node.descendant_count()
    }

    /// The smallest node below this one, or this one, that the engine
    /// finds for the range of bytes. Where this node spans the range, so
    /// does the node that is found.
    pub fn descendant_for_byte_range(&self, start: usize, end: usize) -> (r: Option<Self>)
        requires
            self.wf(),
        ensures
            r.is_some(),
            self.derives(node_descendant_for_bytes(self.raw(), start, end), r),
            r.unwrap().raw() == self.raw() || node_spans(r.unwrap().raw(), start, end),
            node_spans(self.raw(), start, end) ==> node_spans(r.unwrap().raw(), start, end),
    {
        self.adopt(self.raw_node.descendant_for_byte_range(start, end))
    }

    /// The smallest named node below this one, or this one, that the
    /// engine finds for the range of bytes. Where this node spans the
    /// range, so does the node that is found.
    pub fn named_descendant_for_byte_range(&self, start: usize, end: usize) -> (r: Option<Self>)
        requires
            self.wf(),
        ensures
            r.is_some(),
            self.derives(node_named_descendant_for_bytes(self.raw(), start, end), r),
            r.unwrap().raw() == self.raw() || node_spans(r.unwrap().raw(), start, end),
            node_spans(self.raw(), start, end) ==> node_spans(r.unwrap().raw(), start, end),
    {
        self.adopt(self.raw_node.named_descendant_for_byte_range(start, end))
    }

    pub fn descendant_for_point_range(&self, start: (usize, usize), end: (usize, usize)) -> (r:
        Option<Self>)
        requires
            self.wf(),
        ensures
            r.is_some(),
            self.derives(
                node_descendant_for_points(
                    self.raw(),
                    Point { row: start.0, column: start.1 },
                    Point { row: end.0, column: end.1 },
                ),
                r,
            ),
    {
        let start = Point::new(start.0, start.1);
        let end = Point::new(end.0, end.1);
        self.adopt(raw_descendant_for_points(&self.raw_node, start, end))
    }

    pub fn named_descendant_for_point_range(
        &self,
        start: (usize, usize),
        end: (usize, usize),
    ) -> (r: Option<Self>)
        requires
            self.wf(),
        ensures
            r.is_some(),
            self.derives(
                node_named_descendant_for_points(
                    self.raw(),
                    Point { row: start.0, column: start.1 },
                    Point { row: end.0, column: end.1 },
                ),
                r,
            ),
    {
        let start = Point::new(start.0, start.1);
        let end = Point::new(end.0, end.1);
        self.adopt(raw_named_descendant_for_points(&self.raw_node, start, end))
    }

    pub fn to_sexp(&self) -> (text: String)
        ensures
            text@ == node_sexp(self.raw()),
    {
        self.raw_node.to_sexp()
    }

    /// The text of `source` that the node spans. There is none where the
    /// node's offsets do not lie within `source`, or where the bytes
    /// between them are not UTF-8 of their own: then `source` is not the
    /// text that was parsed.
    pub fn utf8_text(&self, source: &str) -> (text: Option<String>)
        ensures
            match text {
                Some(text) => {
                    &&& node_start_byte(self.raw()) <= node_end_byte(self.raw()) <= encode_utf8(
                        source@,
                    ).len()
                    &&& valid_utf8(node_bytes(self.raw(), source@))
                    &&& text@ == decode_utf8(node_bytes(self.raw(), source@))
                },
                None => {
                    ||| node_start_byte(self.raw()) > node_end_byte(self.raw())
                    ||| node_end_byte(self.raw()) > encode_utf8(source@).len()
                    ||| !valid_utf8(node_bytes(self.raw(), source@))
                },
            },
    {
        let start = self.raw_node.start_byte();
        let end = self.raw_node.end_byte();
        if start <= end && end <= source.as_bytes().len() {
            raw_utf8_text(&self.raw_node, source)
        } else {
            None
        }
    }

    /// A cursor put on this node. It cannot leave the node's subtree.
    pub fn walk(&self) -> (cursor: TreeCursor<'tree>)
        requires
            self.wf(),
        ensures
            cursor.wf(),
            cursor.owner() == self.owner(),
            cursor.raw() == cursor_at(self.raw()),
            cursor_node(cursor.raw()) == self.raw(),
    {
        TreeCursor { raw_tree: Arc::clone(&self.raw_tree), raw_cursor: self.raw_node.walk() }
    }

    pub fn inspect(&self) -> (text: String)
        ensures
            text@ == node_debug_text(self.raw()),
    {
        raw_node_debug(&self.raw_node)
    }

    pub fn to_s(&self) -> (text: String)
        ensures
            text@ == node_sexp(self.raw()),
    {
        raw_node_display(&self.raw_node)
    }

    /// A number to hash the node by: nodes that are equal have the same.
    pub fn hash_key(&self) -> (r: usize)
        ensures
            r == node_id(self.raw()),
    {
        self.raw_node.id()
    }
}

/// A cursor that is moved from sibling to sibling stands, after `steps`
/// moves, on the node that is listed at place `steps`; and as many nodes
/// are listed as moves were asked for.
pub proof fn lemma_sibling_nodes(cursor: RawTreeCursor, count: nat, steps: nat)
    ensures
        sibling_nodes(cursor, count).len() == count,
        steps < count ==> sibling_nodes(cursor, count)[steps as int] == cursor_node(
            after_siblings(cursor, steps),
        ),
    decreases count,
{
    if count > 0 {
        let next = cursor_next_sibling(cursor).1;
        lemma_sibling_nodes(next, (count - 1) as nat, 0);
        if steps > 0 {
            lemma_sibling_nodes(next, (count - 1) as nat, (steps - 1) as nat);
        }
    }
}

/// Walking the children of a node with a cursor visits what `children`
/// lists, in the same order: a cursor that is put on the node, moved to
/// the first child and then `steps` times to the next sibling stands on the
/// child at place `steps`.
pub proof fn lemma_cursor_visits_children(node: RawNode, steps: nat)
    requires
        steps < node_child_count(node),
    ensures
        node_children(node).len() == node_child_count(node),
        node_children(node)[steps as int] == cursor_node(
            after_siblings(cursor_first_child(cursor_at(node)).1, steps),
        ),
{
    lemma_sibling_nodes(
        cursor_first_child(cursor_at(node)).1,
        node_child_count(node) as nat,
        steps,
    );
}

/// Two nodes are equal where the engine gives them the same identity: the
/// same position in the same parse.
impl<'tree> PartialEq for Node<'tree> {
    fn eq(&self, other: &Self) -> (r: bool) {
        self.raw_node.id() == other.raw_node.id()
    }
}

impl<'tree> Eq for Node<'tree> {

}

impl<'tree> PartialEqSpecImpl for Node<'tree> {
    open spec fn obeys_eq_spec() -> bool {
        true
    }

    open spec fn eq_spec(&self, other: &Self) -> bool {
        node_id(self.raw()) == node_id(other.raw())
    }
}

/// Nodes that are equal are hashed by the same number.
pub proof fn lemma_equal_nodes_hash_alike(a: Node, b: Node)
    requires
        PartialEqSpec::eq_spec(&a, &b),
    ensures
        node_id(a.raw()) == node_id(b.raw()),
{
}

impl<'tree> Clone for Node<'tree> {
    fn clone(&self) -> (node: Self)
        ensures
            node.raw() == self.raw(),
            node.owner() == self.owner(),
    {
        Node { raw_tree: Arc::clone(&self.raw_tree), raw_node: self.raw_node }
    }
}

impl<'cursor> TreeCursor<'cursor> {
    /// The tree that the cursor's handle is to.
    pub closed spec fn owner(&self) -> RawTree {
        *self.raw_tree
    }

    /// The cursor, as the engine knows it.
    pub closed spec fn raw(&self) -> RawTreeCursor<'cursor> {
        self.raw_cursor
    }

    /// The cursor holds a handle to the very tree that it walks.
    pub open spec fn wf(&self) -> bool {
        cursor_owner(self.raw()) == self.owner()
    }

    /// Whether `after` is this cursor moved to `moved`, still with a handle
    /// to the tree that it walks.
    pub open spec fn moves_to(&self, moved: RawTreeCursor, after: TreeCursor) -> bool {
        &&& after.raw() == moved
        &&& after.owner() == self.owner()
        &&& after.wf()
    }

    pub fn node(&self) -> (node: Node<'cursor>)
        requires
            self.wf(),
        ensures
            node.wf(),
            node.owner() == self.owner(),
            node.raw() == cursor_node(self.raw()),
    {
        Node { raw_tree: Arc::clone(&self.raw_tree), raw_node: self.raw_cursor.node() }
    }

    pub fn field_id(&self) -> (r: Option<u16>)
        ensures
            r == cursor_field_id(self.raw()),
    {
        raw_cursor_field_id(&self.raw_cursor)
    }

    pub fn goto_first_child(&mut self) -> (moved: bool)
        requires
            old(self).wf(),
        ensures
            moved == cursor_first_child(old(self).raw()).0,
            old(self).moves_to(cursor_first_child(old(self).raw()).1, *final(self)),
    {
        self.raw_cursor.goto_first_child()
    }

    pub fn goto_last_child(&mut self) -> (moved: bool)
        requires
            old(self).wf(),
        ensures
            moved == cursor_last_child(old(self).raw()).0,
            old(self).moves_to(cursor_last_child(old(self).raw()).1, *final(self)),
    {
        self.raw_cursor.goto_last_child()
    }

    pub fn goto_parent(&mut self) -> (moved: bool)
        requires
            old(self).wf(),
        ensures
            moved == cursor_parent(old(self).raw()).0,
            old(self).moves_to(cursor_parent(old(self).raw()).1, *final(self)),
    {
        self.raw_cursor.goto_parent()
    }

    pub fn goto_next_sibling(&mut self) -> (moved: bool)
        requires
            old(self).wf(),
        ensures
            moved == cursor_next_sibling(old(self).raw()).0,
            old(self).moves_to(cursor_next_sibling(old(self).raw()).1, *final(self)),
    {
        self.raw_cursor.goto_next_sibling()
    }

    pub fn goto_descendant(&mut self, descendant_index: usize)
        requires
            old(self).wf(),
        ensures
            old(self).moves_to(
                cursor_descendant(old(self).raw(), descendant_index),
                *final(self),
            ),
    {
        self.raw_cursor.goto_descendant(descendant_index)
    }

    pub fn goto_previous_sibling(&mut self) -> (moved: bool)
        requires
            old(self).wf(),
        ensures
            moved == cursor_previous_sibling(old(self).raw()).0,
            old(self).moves_to(cursor_previous_sibling(old(self).raw()).1, *final(self)),
    {
        self.raw_cursor.goto_previous_sibling()
    }

    pub fn goto_first_child_for_byte(&mut self, index: usize) -> (r: Option<usize>)
        requires
            old(self).wf(),
        ensures
            r == cursor_first_child_for_byte(old(self).raw(), index).0,
            old(self).moves_to(
                cursor_first_child_for_byte(old(self).raw(), index).1,
                *final(self),
            ),
    {
        self.raw_cursor.goto_first_child_for_byte(index)
    }

    /// Puts the cursor on `node`. The cursor takes over the node's handle,
    /// so it may be put on a node of another tree than the one it walked.
    pub fn reset(&mut self, node: &Node<'cursor>) -> (r: bool)
        requires
            node.wf(),
        ensures
            r,
            final(self).wf(),
            final(self).owner() == node.owner(),
            final(self).raw() == cursor_at(node.raw()),
            cursor_node(final(self).raw()) == node.raw(),
    {
        self.raw_cursor.reset(node.raw_node);
        self.raw_tree = Arc::clone(&node.raw_tree);
        true
    }

    /// Puts the cursor where `cursor` stands, and takes over its handle.
    pub fn reset_to(&mut self, cursor: &Self)
        requires
            cursor.wf(),
        ensures
            final(self).wf(),
            final(self).owner() == cursor.owner(),
            cursor_node(final(self).raw()) == cursor_node(cursor.raw()),
    {
        self.raw_cursor.reset_to(&cursor.raw_cursor);
        self.raw_tree = Arc::clone(&cursor.raw_tree);
    }
}

} // verus!
