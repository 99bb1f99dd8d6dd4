//! The sequence of plugin paths found from a seed path: a directory, all
//! the `.wasm` files below it; a `.wasm` file, that file alone. The host
//! reads the file system and hands in what it found.
use vstd::prelude::*;

verus! {

#[verifier::external_type_specification]
#[verifier::external_body]
pub struct ExRegexError(regex::Error);

/// The pattern that a seed path naming a single plugin file matches.
pub const WASM_PLUGIN_PATTERN: &'static str = "^.+\\.wasm";

/// The glob pattern, below a directory, of the plugin files in it.
pub const WASM_SEARCH_SUFFIX: &'static str = "/**/*.wasm";

/// Whether regex compiles `pattern`.
pub uninterp spec fn regex_is_valid(pattern: Seq<char>) -> bool;

/// Whether the regex of `pattern` finds a match in `haystack`.
pub uninterp spec fn regex_is_match(pattern: Seq<char>, haystack: Seq<char>) -> bool;

/// Relies on regex::Regex::new, which compiles the pattern or fails, and on
/// Regex::is_match, which tells whether the haystack holds a match: both
/// depend on their arguments alone.
#[verifier::external_body]
fn regex_match(pattern: &str, haystack: &str) -> (r: Result<bool, regex::Error>)
    ensures
        r is Ok <==> regex_is_valid(pattern@),
        r matches Ok(m) ==> m == regex_is_match(pattern@, haystack@),
{
    match regex::Regex::new(pattern) {
        Ok(re) => Ok(re.is_match(haystack)),
        Err(e) => Err(e),
    }
}

/// Error types for `PluginIterator`.
#[derive(Debug, PartialEq, Eq)]
pub enum PluginIteratorError {
    /// The seed path is not valid.
    InvalidSeedPath(String),
    /// The given plugin path is not valid.
    InvalidPluginPath(String),
}

/// What the file system says of a seed path.
pub enum SeedPath {
    /// Its metadata could not be read.
    Unreadable,
    /// A directory, with what the search for plugin files below it gave:
    /// `None` where the search pattern was refused, an entry `None` where
    /// that entry could not be read as a path.
    Directory(Option<Vec<Option<String>>>),
    /// A file.
    File,
    /// Neither a directory nor a file.
    Other,
}

/// The paths that a seed path gives: `None` where it is not valid.
pub open spec fn seed_plugins(seed_path: Seq<char>, seed: SeedPath) -> Option<Seq<Seq<char>>> {
    match seed {
        SeedPath::Directory(Some(entries)) => if forall|i: int| 0 <= i < entries@.len() ==> #[trigger] entries@[i] is Some {
            Some(Seq::new(entries@.len(), |i: int| entries@[i].unwrap()@))
        } else {
            None
        },
        SeedPath::File => if regex_is_valid(WASM_PLUGIN_PATTERN@) && regex_is_match(WASM_PLUGIN_PATTERN@, seed_path) {
            Some(seq![seed_path])
        } else {
            None
        },
        _ => None,
    }
}

/// The plugin paths generated from a seed path, handed out in order.
pub struct PluginIterator {
    /// Path to a plugin, or to a directory to search for plugins.
    pub seed_path: String,
    plugin_paths: Vec<String>,
    current_plugin_idx: usize,
}

impl PluginIterator {
    #[verifier::type_invariant]
    spec fn inv(&self) -> bool {
        self.current_plugin_idx <= self.plugin_paths@.len()
    }

    /// The plugin paths, in order.
    pub closed spec fn paths(&self) -> Seq<Seq<char>> {
        self.plugin_paths@.map_values(|p: String| p@)
    }

    /// The seed path.
    pub closed spec fn seed(&self) -> Seq<char> {
        self.seed_path@
    }

    /// How many paths were handed out.
    pub closed spec fn position(&self) -> nat {
        self.current_plugin_idx as nat
    }

    /// The glob pattern of the plugin files below the directory `seed_path`.
    pub fn directory_pattern(seed_path: &str) -> (r: String)
        ensures
            r@ == seed_path@ + WASM_SEARCH_SUFFIX@,
    {
        seed_path.to_owned().concat(WASM_SEARCH_SUFFIX)
    }

    /// Make a plugin iterator from a seed path and what the file system
    /// says of it. Fails with `InvalidSeedPath` exactly where the seed path
    /// gives no plugin paths.
    pub fn new(seed_path: String, seed: SeedPath) -> (r: Result<Self, PluginIteratorError>)
        ensures
            r is Err <==> seed_plugins(seed_path@, seed) is None,
            r matches Err(e) ==> e == PluginIteratorError::InvalidSeedPath(seed_path),
            r matches Ok(it) ==> {
                &&& Some(it.paths()) == seed_plugins(seed_path@, seed)
                &&& it.position() == 0
                &&& it.seed() == seed_path@
            },
    {
        let ghost given = seed;
        match seed {
            SeedPath::Directory(Some(entries)) => {
                let mut plugin_paths: Vec<String> = Vec::new();
                let mut i: usize = 0;
                while i < entries.len()
                    invariant
                        given == SeedPath::Directory(Some(entries)),
                        given == seed,
                        i <= entries@.len(),
                        plugin_paths@.len() == i,
                        forall|j: int| 0 <= j < i ==> #[trigger] entries@[j] is Some,
                        forall|j: int| 0 <= j < i ==> #[trigger] plugin_paths@[j]@ == entries@[j].unwrap()@,
                    decreases entries@.len() - i,
                {
                    match &entries[i] {
                        Some(path) => {
                            plugin_paths.push(path.clone());
                        },
                        None => {
                            proof {
                                assert(!(entries@[i as int] is Some));
                            }
                            return Err(PluginIteratorError::InvalidSeedPath(seed_path));
                        },
                    }
                    i = i + 1;
                }
                let it = PluginIterator { seed_path, plugin_paths, current_plugin_idx: 0 };
                proof {
                    assert(it.paths() =~= Seq::new(entries@.len(), |j: int| entries@[j].unwrap()@));
                }
                Ok(it)
            },
            SeedPath::File => {
                match regex_match(WASM_PLUGIN_PATTERN, seed_path.as_str()) {
                    Ok(true) => {
                        let mut plugin_paths: Vec<String> = Vec::new();
                        plugin_paths.push(seed_path.clone());
                        let it = PluginIterator { seed_path, plugin_paths, current_plugin_idx: 0 };
                        proof {
                            assert(it.paths() =~= seq![it.seed_path@]);
                        }
                        Ok(it)
                    },
                    _ => Err(PluginIteratorError::InvalidSeedPath(seed_path)),
                }
            },
            _ => Err(PluginIteratorError::InvalidSeedPath(seed_path)),
        }
    }

    /// The next plugin path, if any is left.
    pub fn next_path(&mut self) -> (r: Option<String>)
        ensures
            final(self).paths() == old(self).paths(),
            final(self).seed() == old(self).seed(),
            old(self).position() < old(self).paths().len() ==> {
                &&& r matches Some(p) && p@ == old(self).paths()[old(self).position() as int]
                &&& final(self).position() == old(self).position() + 1
            },
            old(self).position() >= old(self).paths().len() ==> r is None && final(self).position()
                == old(self).position(),
    {
        proof {
            use_type_invariant(&*self);
        }
        if self.current_plugin_idx < self.plugin_paths.len() {
            let path = self.plugin_paths[self.current_plugin_idx].clone();
            self.current_plugin_idx = self.current_plugin_idx + 1;
            Some(path)
        } else {
            None
        }
    }
}

} // verus!
