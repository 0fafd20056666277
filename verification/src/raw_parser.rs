//! The parsing engine's parser type, and what this crate takes for granted
//! of its methods. Nothing in this file is proved: each item says, above
//! its contract, which engine function it stands for and what is claimed of
//! it.
use crate::raw_language::language_version;
use tree_sitter::Language as RawLanguage;
use tree_sitter::Parser as RawParser;
use tree_sitter::Tree as RawTree;
use vstd::prelude::*;

verus! {

/// `tree_sitter::Parser`, carried as an opaque value.
#[verifier::external_type_specification]
#[verifier::external_body]
pub struct ExParser(RawParser);

/// What `Parser::language` returns.
pub uninterp spec fn parser_language(parser: RawParser) -> Option<RawLanguage>;

/// What `Parser::timeout_micros` returns.
pub uninterp spec fn parser_timeout(parser: RawParser) -> u64;

/// What `Parser::parse` returns for a text when no budget is set.
pub uninterp spec fn parse_outcome(parser: RawParser, source: Seq<char>) -> Option<RawTree>;

/// The parser that `Parser::reset` leaves.
pub uninterp spec fn parser_after_reset(parser: RawParser) -> RawParser;

/// What the error of `Parser::set_language` says of the language that was
/// turned down.
pub uninterp spec fn incompatible_text(language: RawLanguage) -> Seq<char>;

/// The versions of the grammar format that this engine takes: 13 and 14.
pub open spec fn abi_supported(version: usize) -> bool {
    13 <= version <= 14
}

/// `Parser::new`: no language is bound, and no budget is set.
pub assume_specification[ RawParser::new ]() -> (r: RawParser)
    ensures
        parser_language(r).is_none(),
        parser_timeout(r) == 0,
;

/// `Parser::set_language`, with its error turned into the text that the
/// error displays. The language is taken exactly where its version is one
/// that the engine takes; it is then the parser's language. Where it is
/// turned down the parser is not touched, and the text is a function of the
/// language. The budget stays as it was.
#[verifier::external_body]
pub(crate) fn raw_set_language(parser: &mut RawParser, language: &RawLanguage) -> (r: Result<
    (),
    String,
>)
    ensures
        r.is_ok() == abi_supported(language_version(*language)),
        r.is_ok() ==> parser_language(*final(parser)) == Some(*language),
        r matches Err(text) ==> text@ == incompatible_text(*language) && *final(parser) == *old(
            parser,
        ),
        parser_timeout(*final(parser)) == parser_timeout(*old(parser)),
{
    match parser.set_language(language) {
        Ok(()) => Ok(()),
        Err(error) => Err(error.to_string()),
    }
}

/// `Parser::language`: the result is a function of the parser.
pub assume_specification[ RawParser::language ](parser: &RawParser) -> (r: Option<RawLanguage>)
    ensures
        r == parser_language(*parser),
;

/// `Parser::parse` on a whole text, with no earlier tree: there is no tree
/// where no language is bound; where no budget is set, the result is a
/// function of the parser and the text. Language and budget stay as they
/// were.
#[verifier::external_body]
pub(crate) fn raw_parse(parser: &mut RawParser, source: &str) -> (r: Option<RawTree>)
    ensures
        parser_language(*old(parser)).is_none() ==> r.is_none(),
        parser_timeout(*old(parser)) == 0 ==> r == parse_outcome(*old(parser), source@),
        parser_language(*final(parser)) == parser_language(*old(parser)),
        parser_timeout(*final(parser)) == parser_timeout(*old(parser)),
{
    parser.parse(source, None)
}

/// `Parser::reset`: the parser left behind is a function of the parser
/// before; language and budget stay as they were.
pub assume_specification[ RawParser::reset ](parser: &mut RawParser)
    ensures
        *final(parser) == parser_after_reset(*old(parser)),
        parser_language(*final(parser)) == parser_language(*old(parser)),
        parser_timeout(*final(parser)) == parser_timeout(*old(parser)),
;

/// `Parser::timeout_micros`: the result is a function of the parser.
pub assume_specification[ RawParser::timeout_micros ](parser: &RawParser) -> (r: u64)
    ensures
        r == parser_timeout(*parser),
;

/// `Parser::set_timeout_micros`: the language stays as it was. The engine
/// keeps the budget in the ticks of the machine's clock, rounding down, so
/// it reads back as no more than what was set, and zero as zero.
pub assume_specification[ RawParser::set_timeout_micros ](
    parser: &mut RawParser,
    timeout_micros: u64,
)
    ensures
        parser_language(*final(parser)) == parser_language(*old(parser)),
        parser_timeout(*final(parser)) <= timeout_micros,
;

} // verus!
