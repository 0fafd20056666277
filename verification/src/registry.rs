use crate::error::Error;
use tree_sitter::Language as RawLanguage;
use vstd::prelude::*;

verus! {

/// One registration, as the contracts speak of it: a name, and the language
/// that is bound to it.
pub struct Entry {
    pub name: Seq<char>,
    pub language: RawLanguage,
}

/// A registered grammar: its name, the loaded module that backs it where
/// it came from one, and the language taken from it.
pub struct Grammar {
    name: String,
    module: Option<libloading::Library>,
    language: RawLanguage,
}

/// The grammars that have been registered, in the order in which they were.
/// A name is bound once and stays bound: nothing is ever taken out, and the
/// modules are kept for as long as the registry lives, since trees that
/// were parsed with their languages may still be about.
pub struct GrammarRegistry {
    grammars: Vec<Grammar>,
}

/// Whether `name` is bound in `entries`.
pub open spec fn registered(entries: Seq<Entry>, name: Seq<char>) -> bool {
    exists|i: int| 0 <= i < entries.len() && #[trigger] entries[i].name == name
}

/// Whether no name is bound twice in `entries`.
pub open spec fn distinct_names(entries: Seq<Entry>) -> bool {
    forall|i: int, j: int|
        0 <= i < j < entries.len() ==> (#[trigger] entries[i]).name != (#[trigger] entries[j]).name
}

/// The language that `name` is bound to in `entries`, if it is bound.
pub open spec fn lookup(entries: Seq<Entry>, name: Seq<char>) -> Option<RawLanguage> {
    if registered(entries, name) {
        let i = choose|i: int| 0 <= i < entries.len() && #[trigger] entries[i].name == name;
        Some(entries[i].language)
    } else {
        None
    }
}

/// How often `name` is listed in `entries`.
pub open spec fn listings(entries: Seq<Entry>, name: Seq<char>) -> nat
    decreases entries.len(),
{
    if entries.len() == 0 {
        0
    } else {
        listings(entries.drop_last(), name) + if entries.last().name == name {
            1nat
        } else {
            0nat
        }
    }
}

/// `entries` after `name` was registered with `language`: unchanged where
/// the name is bound already, and with the new binding at the end where it
/// is not.
pub open spec fn with_grammar(entries: Seq<Entry>, name: Seq<char>, language: RawLanguage) -> Seq<
    Entry,
> {
    if registered(entries, name) {
        entries
    } else {
        entries.push(Entry { name, language })
    }
}

/// The name of the entry point that a grammar module exports for the
/// language `name`.
pub open spec fn entry_symbol_text(name: Seq<char>) -> Seq<char> {
    "tree_sitter_"@ + name
}

impl Grammar {
    pub closed spec fn entry(&self) -> Entry {
        Entry { name: self.name@, language: self.language }
    }
}

impl View for GrammarRegistry {
    type V = Seq<Entry>;

    closed spec fn view(&self) -> Seq<Entry> {
        Seq::new(self.grammars@.len(), |i: int| self.grammars@[i].entry())
    }
}

impl GrammarRegistry {
    /// No name is bound twice.
    pub open spec fn wf(&self) -> bool {
        distinct_names(self@)
    }

    pub fn new() -> (registry: Self)
        ensures
            registry@ == Seq::<Entry>::empty(),
            registry.wf(),
    {
        let registry = GrammarRegistry { grammars: Vec::new() };
        assert(registry@ =~= Seq::<Entry>::empty());
        registry
    }

    /// The name of the entry point to look up in the module of the language
    /// `name`.
    pub fn entry_symbol(name: &str) -> (symbol: String)
        ensures
            symbol@ == entry_symbol_text(name@),
    {
        let mut symbol = String::from_str("tree_sitter_");
        symbol.append(name);
        symbol
    }

    /// The place of `name` among the grammars.
    fn position(&self, name: &str) -> (r: Option<usize>)
        ensures
            match r {
                Some(i) => i < self@.len() && self@[i as int].name == name@,
                None => !registered(self@, name@),
            },
    {
        let key = name.to_owned();
        let mut i: usize = 0;
        while i < self.grammars.len()
            invariant
                i <= self.grammars@.len(),
                self@.len() == self.grammars@.len(),
                key@ == name@,
                forall|k: int| 0 <= k < i ==> (#[trigger] self@[k]).name != name@,
            decreases self.grammars@.len() - i,
        {
            if self.grammars[i].name == key {
                return Some(i);
            }
            i += 1;
        }
        None
    }

    /// Whether a language is registered under `name`. A module has to be
    /// loaded only for a name that is not.
    pub fn is_registered(&self, name: &str) -> (r: bool)
        ensures
            r == registered(self@, name@),
    {
        self.position(name).is_some()
    }

    /// Binds `name` to `language`, and keeps `module` alive with it. A name
    /// that is bound already stays as it is, and the answer is `false`.
    pub fn register(
        &mut self,
        name: String,
        module: Option<libloading::Library>,
        language: RawLanguage,
    ) -> (added: bool)
        requires
            old(self).wf(),
        ensures
            final(self).wf(),
            added == !registered(old(self)@, name@),
            final(self)@ == with_grammar(old(self)@, name@, language),
    {
        if self.position(name.as_str()).is_some() {
            return false;
        }
        let ghost before = self@;
        self.grammars.push(Grammar { name, module, language });
        assert(self@ =~= before.push(Entry { name: name@, language }));
        true
    }

    /// The names that are registered, each once, in the order in which they
    /// were.
    pub fn available(&self) -> (names: Vec<String>)
        ensures
            names@.len() == self@.len(),
            forall|i: int| 0 <= i < names@.len() ==> (#[trigger] names@[i])@ == self@[i].name,
            self.wf() ==> forall|i: int, j: int|
                0 <= i < j < names@.len() ==> (#[trigger] names@[i])@ != (#[trigger] names@[j])@,
    {
        let mut names: Vec<String> = Vec::new();
        let mut i: usize = 0;
        while i < self.grammars.len()
            invariant
                i <= self.grammars@.len(),
                self@.len() == self.grammars@.len(),
                names@.len() == i,
                forall|k: int| 0 <= k < i ==> (#[trigger] names@[k])@ == self@[k].name,
            decreases self.grammars@.len() - i,
        {
            names.push(self.grammars[i].name.clone());
            i += 1;
        }
        names
    }

    /// The language that is registered under `name`.
    pub fn resolve(&self, name: &str) -> (r: Result<&RawLanguage, Error>)
        requires
            self.wf(),
        ensures
            match r {
                Ok(language) => lookup(self@, name@) == Some(*language),
                Err(error) => {
                    &&& !registered(self@, name@)
                    &&& error matches Error::LanguageNotRegistered { name: unknown }
                    &&& unknown@ == name@
                },
            },
    {
        match self.position(name) {
            Some(i) => {
                proof {
                    lemma_lookup_at(self@, i as int);
                }
                Ok(&self.grammars[i].language)
            },
            None => Err(Error::LanguageNotRegistered { name: name.to_owned() }),
        }
    }
}

/// Where no name is bound twice, the language that a name is bound to is
/// the one of the entry that bears the name.
pub proof fn lemma_lookup_at(entries: Seq<Entry>, i: int)
    requires
        distinct_names(entries),
        0 <= i < entries.len(),
    ensures
        lookup(entries, entries[i].name) == Some(entries[i].language),
{
    let name = entries[i].name;
    let j = choose|j: int| 0 <= j < entries.len() && #[trigger] entries[j].name == name;
    assert(j == i);
}

/// A name that is bound nowhere is listed nowhere.
pub proof fn lemma_unbound_not_listed(entries: Seq<Entry>, name: Seq<char>)
    requires
        !registered(entries, name),
    ensures
        listings(entries, name) == 0,
    decreases entries.len(),
{
    if entries.len() > 0 {
        let rest = entries.drop_last();
        assert(entries.last() == entries[entries.len() - 1]);
        assert forall|i: int| 0 <= i < rest.len() implies (#[trigger] rest[i]).name != name by {
            assert(rest[i] == entries[i]);
        }
        lemma_unbound_not_listed(rest, name);
    }
}

/// Where no name is bound twice, a name that is bound is listed once.
pub proof fn lemma_bound_listed_once(entries: Seq<Entry>, name: Seq<char>)
    requires
        distinct_names(entries),
        registered(entries, name),
    ensures
        listings(entries, name) == 1,
    decreases entries.len(),
{
    let rest = entries.drop_last();
    let last = entries.len() - 1;
    assert(entries.last() == entries[last]);
    assert forall|i: int| 0 <= i < rest.len() implies #[trigger] rest[i] == entries[i] by {}
    if entries[last].name == name {
        assert(!registered(rest, name)) by {
            if registered(rest, name) {
                let i = choose|i: int| 0 <= i < rest.len() && #[trigger] rest[i].name == name;
                assert(entries[i].name == entries[last].name);
            }
        }
        lemma_unbound_not_listed(rest, name);
    } else {
        let i = choose|i: int| 0 <= i < entries.len() && #[trigger] entries[i].name == name;
        assert(rest[i].name == name);
        assert(distinct_names(rest)) by {
            assert forall|a: int, b: int| 0 <= a < b < rest.len() implies (#[trigger] rest[a]).name
                != (#[trigger] rest[b]).name by {
                assert(entries[a].name != entries[b].name);
            }
        }
        lemma_bound_listed_once(rest, name);
    }
}

/// Registering keeps every name bound once.
pub proof fn lemma_register_keeps_distinct(
    entries: Seq<Entry>,
    name: Seq<char>,
    language: RawLanguage,
)
    requires
        distinct_names(entries),
    ensures
        distinct_names(with_grammar(entries, name, language)),
        registered(with_grammar(entries, name, language), name),
{
    let after = with_grammar(entries, name, language);
    if !registered(entries, name) {
        assert(after[entries.len() as int].name == name);
        assert forall|i: int, j: int| 0 <= i < j < after.len() implies (#[trigger] after[i]).name
            != (#[trigger] after[j]).name by {
            if j < entries.len() {
                assert(entries[i].name != entries[j].name);
            } else {
                assert(after[i] == entries[i]);
            }
        }
    }
}

/// Registering never unbinds or rebinds: a name that was bound stays bound
/// to the language it was bound to.
pub proof fn lemma_register_keeps_bindings(
    entries: Seq<Entry>,
    name: Seq<char>,
    language: RawLanguage,
    other: Seq<char>,
)
    requires
        distinct_names(entries),
        registered(entries, other),
    ensures
        registered(with_grammar(entries, name, language), other),
        lookup(with_grammar(entries, name, language), other) == lookup(entries, other),
{
    let after = with_grammar(entries, name, language);
    let i = choose|i: int| 0 <= i < entries.len() && #[trigger] entries[i].name == other;
    assert(after[i] == entries[i]);
    lemma_register_keeps_distinct(entries, name, language);
    lemma_lookup_at(entries, i);
    lemma_lookup_at(after, i);
}

/// Registering a name a second time changes nothing: the registry is as it
/// was after the first time, the name is listed once, and it is bound to
/// the language it was bound to after the first time.
pub proof fn lemma_register_idempotent(
    entries: Seq<Entry>,
    name: Seq<char>,
    first: RawLanguage,
    second: RawLanguage,
)
    requires
        distinct_names(entries),
    ensures
        with_grammar(with_grammar(entries, name, first), name, second) == with_grammar(
            entries,
            name,
            first,
        ),
        listings(with_grammar(with_grammar(entries, name, first), name, second), name) == 1,
        lookup(with_grammar(with_grammar(entries, name, first), name, second), name) == lookup(
            with_grammar(entries, name, first),
            name,
        ),
        !registered(entries, name) ==> lookup(with_grammar(entries, name, first), name) == Some(
            first,
        ),
{
    let once = with_grammar(entries, name, first);
    lemma_register_keeps_distinct(entries, name, first);
    lemma_bound_listed_once(once, name);
    if !registered(entries, name) {
        assert(once[entries.len() as int] == (Entry { name, language: first }));
        lemma_lookup_at(once, entries.len() as int);
    }
}

} // verus!
