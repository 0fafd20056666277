use vstd::prelude::*;

verus! {

/// Why a call was turned down. Every one of these is handed back to the
/// caller, who may go on: none leaves the value it was asked of in a broken
/// state.
#[derive(Debug, Clone, PartialEq, Eq)]
pub enum Error {
    /// A language was asked for by a name under which none is registered.
    LanguageNotRegistered { name: String },
    /// The parser was asked for its language before one was bound.
    NoLanguage,
    /// A range of positions was given with its end left out.
    ExclusivePointRange,
    /// A field was given by the number zero, which names no field.
    ZeroFieldId,
    /// The engine turned a language down; `message` is its own account.
    IncompatibleLanguage { message: String },
    /// The engine gave up on a parse and handed back no tree.
    ParseFailed,
    /// The engine could not compile a pattern text; `offset`, `row` and
    /// `column` say where in that text, and `message` is its own account.
    QueryCompile { row: usize, column: usize, offset: usize, message: String },
}

impl Error {
    /// Whether the caller misused the library, as opposed to the engine
    /// reporting a failure of its own.
    pub open spec fn usage(self) -> bool {
        match self {
            Error::LanguageNotRegistered { .. } => true,
            Error::NoLanguage => true,
            Error::ExclusivePointRange => true,
            Error::ZeroFieldId => true,
            Error::IncompatibleLanguage { .. } => false,
            Error::ParseFailed => false,
            Error::QueryCompile { .. } => false,
        }
    }

    /// The text that describes the error.
    pub open spec fn text(self) -> Seq<char> {
        match self {
            Error::LanguageNotRegistered { name } => "Language "@ + name@ + " is not registered"@,
            Error::NoLanguage => "Failed to get language from parser"@,
            Error::ExclusivePointRange => "Point range must be inclusive"@,
            Error::ZeroFieldId => "field_id must be non-zero"@,
            Error::IncompatibleLanguage { message } => message@,
            Error::ParseFailed => "Failed to parse"@,
            Error::QueryCompile { message, .. } => message@,
        }
    }

    pub fn is_usage(&self) -> (r: bool)
        ensures
            r == self.usage(),
    {
        match self {
            Error::LanguageNotRegistered { .. } => true,
            Error::NoLanguage => true,
            Error::ExclusivePointRange => true,
            Error::ZeroFieldId => true,
            Error::IncompatibleLanguage { .. } => false,
            Error::ParseFailed => false,
            Error::QueryCompile { .. } => false,
        }
    }

    pub fn message(&self) -> (r: String)
        ensures
            r@ == self.text(),
    {
        match self {
            Error::LanguageNotRegistered { name } => {
                let mut text = String::from_str("Language ");
                text.append(name.as_str());
                text.append(" is not registered");
                text
            },
            Error::NoLanguage => String::from_str("Failed to get language from parser"),
            Error::ExclusivePointRange => String::from_str("Point range must be inclusive"),
            Error::ZeroFieldId => String::from_str("field_id must be non-zero"),
            Error::IncompatibleLanguage { message } => message.clone(),
            Error::ParseFailed => String::from_str("Failed to parse"),
            Error::QueryCompile { message, .. } => message.clone(),
        }
    }
}

} // verus!
