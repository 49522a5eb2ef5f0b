//! The settings of a repository: its directories, the two timeouts, and the
//! command templates of each language.

use vstd::prelude::*;
use vstd::string::*;
use crate::text::{same_text, texts};

verus! {

/// A copy of a list of strings.
pub fn copy_strings(list: &Vec<String>) -> (copy: Vec<String>)
    ensures
        texts(copy@) == texts(list@),
{
    let mut copy: Vec<String> = Vec::new();
    let mut i: usize = 0;
    while i < list.len()
        invariant
            i <= list.len(),
            copy@.len() == i,
            forall|k: int| 0 <= k < i ==> copy@[k]@ == list@[k]@,
        decreases list.len() - i,
    {
        copy.push(list[i].clone());
        i = i + 1;
    }
    assert(texts(copy@) =~= texts(list@));
    copy
}

/// The command templates of one language. A template is a command name
/// followed by its arguments; an empty template means that there is nothing
/// to run.
#[derive(Debug)]
pub struct Language {
    /// Builds the release artifact. Empty: the source is the artifact.
    pub compile: Vec<String>,
    /// Builds the debug artifact. Empty: `compile` is used.
    pub compile_debug: Vec<String>,
    /// Runs the artifact. Empty: the artifact is executed itself.
    pub run: Vec<String>,
    /// Runs the artifact in a debugger. Empty: no debugger is known.
    pub debug: Vec<String>,
}

/// A language as a plain value.
pub struct LanguageView {
    pub compile: Seq<Seq<char>>,
    pub compile_debug: Seq<Seq<char>>,
    pub run: Seq<Seq<char>>,
    pub debug: Seq<Seq<char>>,
}

impl View for Language {
    type V = LanguageView;

    open spec fn view(&self) -> LanguageView {
        LanguageView {
            compile: texts(self.compile@),
            compile_debug: texts(self.compile_debug@),
            run: texts(self.run@),
            debug: texts(self.debug@),
        }
    }
}

impl Clone for Language {
    fn clone(&self) -> (copy: Language)
        ensures
            copy@ == self@,
    {
        Language {
            compile: copy_strings(&self.compile),
            compile_debug: copy_strings(&self.compile_debug),
            run: copy_strings(&self.run),
            debug: copy_strings(&self.debug),
        }
    }
}

impl Default for Language {
    /// A language with four empty templates.
    fn default() -> (language: Language)
        ensures
            language@ == (LanguageView {
                compile: Seq::empty(),
                compile_debug: Seq::empty(),
                run: Seq::empty(),
                debug: Seq::empty(),
            }),
    {
        let language = Language {
            compile: Vec::new(),
            compile_debug: Vec::new(),
            run: Vec::new(),
            debug: Vec::new(),
        };
        assert(language@.compile =~= Seq::empty());
        assert(language@.compile_debug =~= Seq::empty());
        assert(language@.run =~= Seq::empty());
        assert(language@.debug =~= Seq::empty());
        language
    }
}

/// One entry of the language table.
#[derive(Debug)]
pub struct LanguageEntry {
    extension: String,
    language: Language,
}

/// The languages of a repository, keyed by the extension of the source file.
/// No extension occurs twice.
#[derive(Debug)]
pub struct Languages {
    entries: Vec<LanguageEntry>,
}

/// Whether the first `upto` entries hold the key.
pub closed spec fn holds_key(entries: Seq<LanguageEntry>, upto: int, key: Seq<char>) -> bool {
    exists|i: int| 0 <= i < upto && i < entries.len() && #[trigger] entries[i].extension@ == key
}

/// The index of the entry that holds the key.
pub closed spec fn position_of(entries: Seq<LanguageEntry>, key: Seq<char>) -> int {
    choose|i: int| 0 <= i < entries.len() && #[trigger] entries[i].extension@ == key
}

impl View for Languages {
    type V = Map<Seq<char>, LanguageView>;

    closed spec fn view(&self) -> Map<Seq<char>, LanguageView> {
        Map::new(
            |key: Seq<char>| holds_key(self.entries@, self.entries@.len() as int, key),
            |key: Seq<char>| self.entries@[position_of(self.entries@, key)].language@,
        )
    }
}

impl Languages {
    #[verifier::type_invariant]
    spec fn distinct(self) -> bool {
        forall|i: int, j: int|
            0 <= i < j < self.entries@.len() ==> #[trigger] self.entries@[i].extension@
                != #[trigger] self.entries@[j].extension@
    }

    /// A table without languages.
    pub fn new() -> (table: Languages)
        ensures
            table@ == Map::<Seq<char>, LanguageView>::empty(),
    {
        let table = Languages { entries: Vec::new() };
        assert(table@ =~= Map::<Seq<char>, LanguageView>::empty());
        table
    }

    /// The number of languages.
    pub fn len(&self) -> (n: usize)
        ensures
            n == self@.dom().len(),
            self@.dom().finite(),
    {
        proof {
            use_type_invariant(self);
            self.lemma_domain_size(self.entries@.len() as int);
            assert(self@.dom() =~= self.keys_upto(self.entries@.len() as int));
        }
        self.entries.len()
    }

    /// The keys held by the first `upto` entries.
    spec fn keys_upto(self, upto: int) -> Set<Seq<char>> {
        Set::new(|key: Seq<char>| holds_key(self.entries@, upto, key))
    }

    proof fn lemma_domain_size(self, upto: int)
        requires
            self.distinct(),
            0 <= upto <= self.entries@.len(),
        ensures
            self.keys_upto(upto).finite(),
            self.keys_upto(upto).len() == upto,
        decreases upto,
    {
        if upto == 0 {
            assert(self.keys_upto(0) =~= Set::<Seq<char>>::empty());
        } else {
            self.lemma_domain_size(upto - 1);
            let key = self.entries@[upto - 1].extension@;
            assert(!self.keys_upto(upto - 1).contains(key));
            assert(self.keys_upto(upto) =~= self.keys_upto(upto - 1).insert(key));
        }
    }

    /// The index of the entry with the given extension, if there is one.
    fn find(&self, extension: &str) -> (found: Option<usize>)
        ensures
            match found {
                Some(i) => i < self.entries@.len() && self.entries@[i as int].extension@
                    == extension@,
                None => !holds_key(self.entries@, self.entries@.len() as int, extension@),
            },
    {
        let mut i: usize = 0;
        while i < self.entries.len()
            invariant
                i <= self.entries@.len(),
                !holds_key(self.entries@, i as int, extension@),
            decreases self.entries@.len() - i,
        {
            if same_text(self.entries[i].extension.as_str(), extension) {
                return Some(i);
            }
            i = i + 1;
        }
        None
    }

    proof fn lemma_position(self, i: int)
        requires
            self.distinct(),
            0 <= i < self.entries@.len(),
        ensures
            holds_key(self.entries@, self.entries@.len() as int, self.entries@[i].extension@),
            position_of(self.entries@, self.entries@[i].extension@) == i,
    {
        let key = self.entries@[i].extension@;
        let p = position_of(self.entries@, key);
        assert(0 <= p < self.entries@.len() && self.entries@[p].extension@ == key);
    }

    /// Whether a language is known for the extension.
    pub fn contains_key(&self, extension: &str) -> (known: bool)
        ensures
            known == self@.contains_key(extension@),
    {
        self.find(extension).is_some()
    }

    /// The language for the extension, if one is known.
    pub fn get(&self, extension: &str) -> (found: Option<&Language>)
        ensures
            match found {
                Some(language) => self@.contains_key(extension@) && self@[extension@]
                    == language@,
                None => !self@.contains_key(extension@),
            },
    {
        match self.find(extension) {
            Some(i) => {
                proof {
                    use_type_invariant(self);
                    self.lemma_position(i as int);
                }
                Some(&self.entries[i].language)
            },
            None => None,
        }
    }

    /// Sets the language for the extension and returns the one it had.
    pub fn insert(&mut self, extension: String, language: Language) -> (previous: Option<Language>)
        ensures
            final(self)@ == old(self)@.insert(extension@, language@),
            match previous {
                Some(p) => old(self)@.contains_key(extension@) && old(self)@[extension@] == p@,
                None => !old(self)@.contains_key(extension@),
            },
    {
        proof {
            use_type_invariant(&*self);
        }
        let ghost before = *self;
        match self.find(extension.as_str()) {
            Some(i) => {
                proof {
                    before.lemma_position(i as int);
                }
                let entry = LanguageEntry { extension, language };
                let mut entries: Vec<LanguageEntry> = Vec::new();
                std::mem::swap(&mut entries, &mut self.entries);
                let previous = entries.remove(i);
                entries.insert(i, entry);
                self.entries = entries;
                proof {
                    assert forall|a: int, b: int|
                        0 <= a < b < self.entries@.len() implies #[trigger] self.entries@[a].extension@
                        != #[trigger] self.entries@[b].extension@ by {
                        assert(self.entries@[a].extension@ == before.entries@[a].extension@);
                        assert(self.entries@[b].extension@ == before.entries@[b].extension@);
                    }
                    assert forall|key: Seq<char>|
                        self@.contains_key(key) == before@.insert(
                            extension@,
                            language@,
                        ).contains_key(key) by {
                        if holds_key(before.entries@, before.entries@.len() as int, key) {
                            let p = position_of(before.entries@, key);
                            assert(self.entries@[p].extension@ == key);
                        }
                        if holds_key(self.entries@, self.entries@.len() as int, key) {
                            let p = position_of(self.entries@, key);
                            assert(before.entries@[p].extension@ == key);
                        }
                    }
                    assert forall|key: Seq<char>| self@.contains_key(key) implies self@[key]
                        == before@.insert(extension@, language@)[key] by {
                        let p = position_of(self.entries@, key);
                        assert(before.entries@[p].extension@ == key);
                        self.lemma_position(p);
                        before.lemma_position(p);
                    }
                    assert(self@ =~= before@.insert(extension@, language@));
                }
                Some(previous.language)
            },
            None => {
                let entry = LanguageEntry { extension, language };
                let mut entries: Vec<LanguageEntry> = Vec::new();
                std::mem::swap(&mut entries, &mut self.entries);
                entries.push(entry);
                self.entries = entries;
                proof {
                    let n = before.entries@.len() as int;
                    assert forall|a: int, b: int|
                        0 <= a < b < self.entries@.len() implies #[trigger] self.entries@[a].extension@
                        != #[trigger] self.entries@[b].extension@ by {
                        if b == n {
                            assert(before.entries@[a].extension@ != extension@);
                        }
                    }
                    assert forall|key: Seq<char>|
                        self@.contains_key(key) == before@.insert(
                            extension@,
                            language@,
                        ).contains_key(key) by {
                        if holds_key(before.entries@, n, key) {
                            let p = position_of(before.entries@, key);
                            assert(self.entries@[p].extension@ == key);
                        }
                        if key == extension@ {
                            assert(self.entries@[n].extension@ == key);
                        }
                        if holds_key(self.entries@, self.entries@.len() as int, key) {
                            let p = position_of(self.entries@, key);
                            if p < n {
                                assert(before.entries@[p].extension@ == key);
                            }
                        }
                    }
                    assert forall|key: Seq<char>| self@.contains_key(key) implies self@[key]
                        == before@.insert(extension@, language@)[key] by {
                        let p = position_of(self.entries@, key);
                        self.lemma_position(p);
                        if p < n {
                            assert(before.entries@[p].extension@ == key);
                            before.lemma_position(p);
                        }
                    }
                    assert(self@ =~= before@.insert(extension@, language@));
                }
                None
            },
        }
    }
}

impl Clone for Languages {
    fn clone(&self) -> (copy: Languages)
        ensures
            copy@ == self@,
    {
        proof {
            use_type_invariant(self);
        }
        let mut entries: Vec<LanguageEntry> = Vec::new();
        let mut i: usize = 0;
        while i < self.entries.len()
            invariant
                i <= self.entries@.len(),
                entries@.len() == i,
                forall|k: int|
                    0 <= k < i ==> (#[trigger] entries@[k]).extension@ == self.entries@[k].extension@
                        && entries@[k].language@ == self.entries@[k].language@,
            decreases self.entries@.len() - i,
        {
            let entry = LanguageEntry {
                extension: self.entries[i].extension.clone(),
                language: self.entries[i].language.clone(),
            };
            entries.push(entry);
            i = i + 1;
        }
        proof {
            assert forall|a: int, b: int| 0 <= a < b < entries@.len() implies #[trigger] entries@[a].extension@
                != #[trigger] entries@[b].extension@ by {
                assert(self.entries@[a].extension@ != self.entries@[b].extension@);
            }
        }
        let copy = Languages { entries };
        proof {
            assert forall|key: Seq<char>| copy@.contains_key(key) == self@.contains_key(key) by {
                if holds_key(self.entries@, self.entries@.len() as int, key) {
                    let p = position_of(self.entries@, key);
                    assert(copy.entries@[p].extension@ == key);
                }
                if holds_key(copy.entries@, copy.entries@.len() as int, key) {
                    let p = position_of(copy.entries@, key);
                    assert(self.entries@[p].extension@ == key);
                }
            }
            assert forall|key: Seq<char>| copy@.contains_key(key) implies copy@[key] == self@[key] by {
                let p = position_of(copy.entries@, key);
                assert(self.entries@[p].extension@ == key);
                copy.lemma_position(p);
                self.lemma_position(p);
            }
            assert(copy@ =~= self@);
        }
        copy
    }
}

/// The settings of a repository.
#[derive(Debug)]
pub struct Config {
    /// The directory of the sources, relative to the root.
    pub src_dir: String,
    /// The directory of the test cases, relative to the root.
    pub test_dir: String,
    /// The directory of the build artifacts, relative to the root.
    pub build_dir: String,
    /// The soft timeout in milliseconds.
    pub soft_timeout: u64,
    /// The hard timeout in milliseconds.
    pub hard_timeout: u64,
    /// Whether test files are read whole before the program starts.
    pub buffering: bool,
    /// The languages, by source file extension.
    pub languages: Languages,
}

/// A configuration as a plain value.
pub struct ConfigView {
    pub src_dir: Seq<char>,
    pub test_dir: Seq<char>,
    pub build_dir: Seq<char>,
    pub soft_timeout: u64,
    pub hard_timeout: u64,
    pub buffering: bool,
    pub languages: Map<Seq<char>, LanguageView>,
}

impl View for Config {
    type V = ConfigView;

    open spec fn view(&self) -> ConfigView {
        ConfigView {
            src_dir: self.src_dir@,
            test_dir: self.test_dir@,
            build_dir: self.build_dir@,
            soft_timeout: self.soft_timeout,
            hard_timeout: self.hard_timeout,
            buffering: self.buffering,
            languages: self.languages@,
        }
    }
}

impl Clone for Config {
    fn clone(&self) -> (copy: Config)
        ensures
            copy@ == self@,
    {
        Config {
            src_dir: self.src_dir.clone(),
            test_dir: self.test_dir.clone(),
            build_dir: self.build_dir.clone(),
            soft_timeout: self.soft_timeout,
            hard_timeout: self.hard_timeout,
            buffering: self.buffering,
            languages: self.languages.clone(),
        }
    }
}

/// The settings of a repository without a configuration file: the three
/// directories `src`, `test` and `build`, a soft timeout of two seconds, a
/// hard timeout of five, no buffering, and no language.
pub open spec fn default_config() -> ConfigView {
    ConfigView {
        src_dir: "src"@,
        test_dir: "test"@,
        build_dir: "build"@,
        soft_timeout: 2000,
        hard_timeout: 5000,
        buffering: false,
        languages: Map::empty(),
    }
}

impl Default for Config {
    /// The settings of a repository without a configuration file.
    fn default() -> (config: Config)
        ensures
            config@ == default_config(),
    {
        Config {
            src_dir: String::from_str("src"),
            test_dir: String::from_str("test"),
            build_dir: String::from_str("build"),
            soft_timeout: 2000,
            hard_timeout: 5000,
            buffering: false,
            languages: Languages::new(),
        }
    }
}

} // verus!
