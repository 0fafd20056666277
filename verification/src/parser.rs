use crate::error::Error;
use crate::query::Query;
use crate::raw_language::language_version;
use crate::raw_query::compile_outcome;
use crate::raw_parser::{
    abi_supported, incompatible_text, parse_outcome, parser_after_reset, parser_language,
    parser_timeout, raw_parse, raw_set_language,
};
use crate::registry::{lookup, registered, GrammarRegistry};
use crate::tree::Tree;
use std::sync::Arc;
use tree_sitter::Language as RawLanguage;
use tree_sitter::Parser as RawParser;
use tree_sitter::Tree as RawTree;
use vstd::prelude::*;

verus! {

/// A parsing session: the engine's parser, the language bound to it (none
/// at first), and its time budget in microseconds (zero for none).
pub struct Parser {
    raw_parser: RawParser,
}

impl Parser {
    /// The parser, as the engine knows it.
    pub closed spec fn raw(&self) -> RawParser {
        self.raw_parser
    }

    /// The language that is bound, if one is.
    pub open spec fn language(&self) -> Option<RawLanguage> {
        parser_language(self.raw())
    }

    /// The time budget of a parse in microseconds; zero stands for none.
    pub open spec fn timeout(&self) -> u64 {
        parser_timeout(self.raw())
    }

    pub fn new() -> (parser: Self)
        ensures
            parser.language().is_none(),
            parser.timeout() == 0,
    {
        Self { raw_parser: RawParser::new() }
    }

    /// Binds the language that `registry` knows as `lang`. A name that is
    /// not registered, and a language that the engine turns down, leave the
    /// parser as it was.
    pub fn set_language(&mut self, registry: &GrammarRegistry, lang: &str) -> (r: Result<
        bool,
        Error,
    >)
        requires
            registry.wf(),
        ensures
            final(self).timeout() == old(self).timeout(),
            match lookup(registry@, lang@) {
                None => {
                    &&& r matches Err(Error::LanguageNotRegistered { name })
                    &&& name@ == lang@
                    &&& final(self).raw() == old(self).raw()
                },
                Some(language) => if abi_supported(language_version(language)) {
                    &&& r == Ok::<bool, Error>(true)
                    &&& final(self).language() == Some(language)
                } else {
                    &&& r matches Err(Error::IncompatibleLanguage { message })
                    &&& message@ == incompatible_text(language)
                    &&& final(self).raw() == old(self).raw()
                },
            },
    {
        match registry.resolve(lang) {
            Ok(language) => self.bind(language),
            Err(error) => Err(error),
        }
    }

    /// Binds `language`. One that the engine turns down leaves the parser
    /// as it was.
    pub fn bind(&mut self, language: &RawLanguage) -> (r: Result<bool, Error>)
        ensures
            final(self).timeout() == old(self).timeout(),
            if abi_supported(language_version(*language)) {
                &&& r == Ok::<bool, Error>(true)
                &&& final(self).language() == Some(*language)
            } else {
                &&& r matches Err(Error::IncompatibleLanguage { message })
                &&& message@ == incompatible_text(*language)
                &&& final(self).raw() == old(self).raw()
            },
    {
        match raw_set_language(&mut self.raw_parser, language) {
            Ok(()) => Ok(true),
            Err(message) => Err(Error::IncompatibleLanguage { message }),
        }
    }

    /// Parses `source` from scratch. The engine hands back a whole tree or
    /// none: none where no language is bound, and none where the budget ran
    /// out. With no budget set the outcome is the engine's for this parser
    /// and this text.
    pub fn parse(&mut self, source: &str) -> (r: Result<Tree, Error>)
        ensures
            final(self).language() == old(self).language(),
            final(self).timeout() == old(self).timeout(),
            old(self).language().is_none() ==> r == Err::<Tree, Error>(Error::ParseFailed),
            r matches Err(error) ==> error == Error::ParseFailed,
            old(self).timeout() == 0 ==> match parse_outcome(old(self).raw(), source@) {
                Some(tree) => r matches Ok(parsed) && parsed.owner() == tree,
                None => r == Err::<Tree, Error>(Error::ParseFailed),
            },
    {
        Self::tree_from(raw_parse(&mut self.raw_parser, source))
    }

    /// What a parse hands to its caller for what the engine handed back:
    /// the tree behind a shared handle, or the failure to parse.
    pub fn tree_from(outcome: Option<RawTree>) -> (r: Result<Tree, Error>)
        ensures
            match outcome {
                Some(tree) => r matches Ok(parsed) && parsed.owner() == tree,
                None => r == Err::<Tree, Error>(Error::ParseFailed),
            },
    {
        match outcome {
            Some(tree) => Ok(Tree::from(Arc::new(tree))),
            None => Err(Error::ParseFailed),
        }
    }

    /// Compiles `source` for the language that is bound. With none bound
    /// there is nothing to compile for; otherwise the outcome is the one of
    /// compiling for that language.
    pub fn build_query(&self, source: &str) -> (r: Result<Query, Error>)
        ensures
            match self.language() {
                None => r matches Err(Error::NoLanguage),
                Some(language) => Query::compiled(compile_outcome(language, source@), r),
            },
    {
        match self.raw_parser.language() {
            Some(language) => Query::new(&language, source),
            None => Err(Error::NoLanguage),
        }
    }

    /// Drops what an unfinished parse left behind. The language stays
    /// bound, and the budget stays as it is.
    pub fn reset(&mut self)
        ensures
            final(self).raw() == parser_after_reset(old(self).raw()),
            final(self).language() == old(self).language(),
            final(self).timeout() == old(self).timeout(),
    {
        self.raw_parser.reset();
    }

    pub fn timeout_micros(&self) -> (r: u64)
        ensures
            r == self.timeout(),
    {
        self.raw_parser.timeout_micros()
    }

    /// Sets the time budget of a parse; zero lifts it. The budget that is
    /// read back is never more than the one that was set.
    pub fn set_timeout_micros(&mut self, timeout: u64)
        ensures
            final(self).language() == old(self).language(),
            final(self).timeout() <= timeout,
            timeout == 0 ==> final(self).timeout() == 0,
    {
        self.raw_parser.set_timeout_micros(timeout);
    }
}

} // verus!
