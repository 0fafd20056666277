use crate::raw_language::{
    borrowed_language, known_kind, language_field_id_for_name, language_field_name_for_id,
    language_id_for_node_kind, language_lookahead, language_next_state, language_node_kind_count,
    language_node_kind_for_id, language_node_kind_is_named, language_node_kind_is_visible,
    language_parse_state_count, language_version, lookahead_next, lookahead_symbol_name,
    raw_field_id_for_name, raw_language, raw_lookahead_next,
};
use tree_sitter::Language as RawLanguage;
use tree_sitter::LanguageRef as RawLanguageRef;
use tree_sitter::LookaheadIterator as RawLookahead;
use vstd::prelude::*;

verus! {

/// The language of a syntax tree, borrowed from the tree.
pub struct LanguageRef<'a> {
    pub raw_language_ref: RawLanguageRef<'a>,
}

/// A walk over the node kinds that may come next in one parse state of a
/// language.
pub struct LookaheadIterator {
    raw_iterator: RawLookahead,
}

impl<'a> LanguageRef<'a> {
    /// The language that is borrowed.
    pub open spec fn language(&self) -> RawLanguage {
        borrowed_language(self.raw_language_ref)
    }

    /// Whether the language has a record of the node kind numbered `id`.
    pub open spec fn knows_kind(&self, id: u16) -> bool {
        known_kind(self.language(), id)
    }

    /// Whether `state` numbers a parse state of the language.
    pub open spec fn knows_state(&self, state: u16) -> bool {
        state < language_parse_state_count(self.language())
    }

    pub fn version(&self) -> (r: usize)
        ensures
            r == language_version(self.language()),
    {
        raw_language(&self.raw_language_ref).version()
    }

    pub fn node_kind_count(&self) -> (r: usize)
        ensures
            r == language_node_kind_count(self.language()),
    {
        raw_language(&self.raw_language_ref).node_kind_count()
    }

    pub fn parse_state_count(&self) -> (r: usize)
        ensures
            r == language_parse_state_count(self.language()),
    {
        raw_language(&self.raw_language_ref).parse_state_count()
    }

    pub fn node_kind_for_id(&self, id: u16) -> (r: Option<&'static str>)
        ensures
            match r {
                Some(kind) => language_node_kind_for_id(self.language(), id) == Some(kind@),
                None => language_node_kind_for_id(self.language(), id).is_none(),
            },
    {
        raw_language(&self.raw_language_ref).node_kind_for_id(id)
    }

    pub fn id_for_node_kind(&self, kind: &str, named: bool) -> (r: u16)
        ensures
            r == language_id_for_node_kind(self.language(), kind@, named),
    {
        raw_language(&self.raw_language_ref).id_for_node_kind(kind, named)
    }

    /// Tests whether the language has a record of the node kind numbered
    /// `id`.
    pub fn has_node_kind(&self, id: u16) -> (r: bool)
        ensures
            r == self.knows_kind(id),
    {
        let count = raw_language(&self.raw_language_ref).node_kind_count();
        id >= 65534 || (id as usize) < count
    }

    /// Tests whether `state` numbers a parse state of the language.
    pub fn has_parse_state(&self, state: u16) -> (r: bool)
        ensures
            r == self.knows_state(state),
    {
        let count = raw_language(&self.raw_language_ref).parse_state_count();
        (state as usize) < count
    }

    pub fn node_kind_is_named(&self, id: u16) -> (r: bool)
        requires
            self.knows_kind(id),
        ensures
            r == language_node_kind_is_named(self.language(), id),
    {
        raw_language(&self.raw_language_ref).node_kind_is_named(id)
    }

    pub fn node_kind_is_visible(&self, id: u16) -> (r: bool)
        requires
            self.knows_kind(id),
        ensures
            r == language_node_kind_is_visible(self.language(), id),
    {
        raw_language(&self.raw_language_ref).node_kind_is_visible(id)
    }

    /// Whether the node kind numbered `id` is named, and nothing where the
    /// language has no record of that kind.
    pub fn checked_node_kind_is_named(&self, id: u16) -> (r: Option<bool>)
        ensures
            r == if self.knows_kind(id) {
                Some(language_node_kind_is_named(self.language(), id))
            } else {
                None
            },
    {
        if self.has_node_kind(id) {
            Some(self.node_kind_is_named(id))
        } else {
            None
        }
    }

    /// Whether the node kind numbered `id` is visible, and nothing where
    /// the language has no record of that kind.
    pub fn checked_node_kind_is_visible(&self, id: u16) -> (r: Option<bool>)
        ensures
            r == if self.knows_kind(id) {
                Some(language_node_kind_is_visible(self.language(), id))
            } else {
                None
            },
    {
        if self.has_node_kind(id) {
            Some(self.node_kind_is_visible(id))
        } else {
            None
        }
    }

    pub fn field_name_for_id(&self, id: u16) -> (r: Option<&'static str>)
        ensures
            match r {
                Some(name) => language_field_name_for_id(self.language(), id) == Some(name@),
                None => language_field_name_for_id(self.language(), id).is_none(),
            },
    {
        raw_language(&self.raw_language_ref).field_name_for_id(id)
    }

    pub fn field_id_for_name(&self, name: &str) -> (r: Option<u16>)
        ensures
            r == language_field_id_for_name(self.language(), name@),
    {
        raw_field_id_for_name(raw_language(&self.raw_language_ref), name)
    }

    pub fn next_state(&self, state: u16, id: u16) -> (r: u16)
        requires
            self.knows_state(state),
            self.knows_kind(id),
        ensures
            r == language_next_state(self.language(), state, id),
    {
        raw_language(&self.raw_language_ref).next_state(state, id)
    }

    /// The state that follows `state` on the node kind numbered `id`, and
    /// nothing where the language has no such state or no record of that
    /// kind.
    pub fn checked_next_state(&self, state: u16, id: u16) -> (r: Option<u16>)
        ensures
            r == if self.knows_state(state) && self.knows_kind(id) {
                Some(language_next_state(self.language(), state, id))
            } else {
                None
            },
    {
        if self.has_parse_state(state) && self.has_node_kind(id) {
            Some(self.next_state(state, id))
        } else {
            None
        }
    }

    pub fn lookahead_iterator(&self, state: u16) -> (r: Option<LookaheadIterator>)
        ensures
            match r {
                Some(iterator) => language_lookahead(self.language(), state) == Some(
                    iterator.raw(),
                ),
                None => language_lookahead(self.language(), state).is_none(),
            },
    {
        match raw_language(&self.raw_language_ref).lookahead_iterator(state) {
            Some(raw_iterator) => Some(LookaheadIterator { raw_iterator }),
            None => None,
        }
    }
}

impl LookaheadIterator {
    /// The iterator, as the engine knows it.
    pub closed spec fn raw(&self) -> RawLookahead {
        self.raw_iterator
    }

    pub fn next(&mut self) -> (r: Option<u16>)
        ensures
            (r, final(self).raw()) == lookahead_next(old(self).raw()),
    {
        raw_lookahead_next(&mut self.raw_iterator)
    }

    pub fn current_symbol_name(&self) -> (r: &'static str)
        ensures
            r@ == lookahead_symbol_name(self.raw()),
    {
        self.raw_iterator.current_symbol_name()
    }
}

} // verus!
