//! Path mapping directives: a host path granted to a plugin under a
//! sandbox path.
use vstd::prelude::*;

verus! {

/// The character that separates the sandbox path from the host path.
pub const PATH_MAP_SEPARATOR: char = '>';

/// `i` is the first position of `c` in `s`.
pub open spec fn is_first_index_of(s: Seq<char>, c: char, i: int) -> bool {
    &&& 0 <= i < s.len()
    &&& s[i] == c
    &&& forall|j: int| 0 <= j < i ==> s[j] != c
}

/// `s` split around the first `c`, if there is one.
pub open spec fn split_at_first(s: Seq<char>, c: char) -> Option<(Seq<char>, Seq<char>)> {
    if s.contains(c) {
        let i = choose|i: int| is_first_index_of(s, c, i);
        Some((s.subrange(0, i), s.subrange(i + 1, s.len() as int)))
    } else {
        None
    }
}

/// Relies on str::split_once: splits on the first occurrence of the
/// delimiter, giving the text before it and the text after it.
#[verifier::external_body]
fn split_once_char(s: &str, delimiter: char) -> (r: Option<(String, String)>)
    ensures
        r is None <==> !s@.contains(delimiter),
        r matches Some((a, b)) ==> exists|i: int|
            is_first_index_of(s@, delimiter, i) && a@ == s@.subrange(0, i) && b@ == s@.subrange(
                i + 1,
                s@.len() as int,
            ),
{
    s.split_once(delimiter).map(|(a, b)| (a.to_string(), b.to_string()))
}

/// A host path made visible to a plugin: `from` is the path inside the
/// sandbox, `to` the path on the host.
#[derive(Clone, Debug)]
pub struct PathMap {
    pub from: String,
    pub to: String,
}

proof fn lemma_first_index_unique(s: Seq<char>, c: char, i: int, k: int)
    requires
        is_first_index_of(s, c, i),
        is_first_index_of(s, c, k),
    ensures
        i == k,
{
    if i < k {
        assert(s[i] != c);
    } else if k < i {
        assert(s[k] != c);
    }
}

impl PathMap {
    /// Parse a directive `"SANDBOX_PATH>HOST_PATH"`, split on its first `>`.
    /// Fails exactly when the directive holds no `>`.
    pub fn from_string(map_string: String) -> (r: Result<Self, ()>)
        ensures
            r is Err <==> split_at_first(map_string@, PATH_MAP_SEPARATOR) is None,
            r matches Ok(p) ==> split_at_first(map_string@, PATH_MAP_SEPARATOR) == Some((p.from@, p.to@)),
    {
        match split_once_char(map_string.as_str(), PATH_MAP_SEPARATOR) {
            None => Err(()),
            Some((from, to)) => {
                proof {
                    let s = map_string@;
                    let k = choose|i: int|
                        is_first_index_of(s, PATH_MAP_SEPARATOR, i) && from@ == s.subrange(0, i) && to@
                            == s.subrange(i + 1, s.len() as int);
                    let i = choose|i: int| is_first_index_of(s, PATH_MAP_SEPARATOR, i);
                    lemma_first_index_unique(s, PATH_MAP_SEPARATOR, i, k);
                }
                Ok(PathMap { from, to })
            },
        }
    }
}

/// The grants that the directives give, in order, leaving out each
/// directive that holds no `>`.
pub open spec fn granted_paths(ds: Seq<Seq<char>>) -> Seq<(Seq<char>, Seq<char>)>
    decreases ds.len(),
{
    if ds.len() == 0 {
        Seq::empty()
    } else {
        let rest = granted_paths(ds.drop_last());
        match split_at_first(ds.last(), PATH_MAP_SEPARATOR) {
            Some(p) => rest.push(p),
            None => rest,
        }
    }
}

/// The views of the strings of `v`.
pub open spec fn texts(v: Seq<String>) -> Seq<Seq<char>> {
    v.map_values(|s: String| s@)
}

/// Parse every directive. The grants of the valid ones come first, in
/// order; the directives that were rejected come second, in order.
pub fn parse_path_mappings(directives: &Vec<String>) -> (r: (Vec<PathMap>, Vec<String>))
    ensures
        r.0@.map_values(|p: PathMap| (p.from@, p.to@)) == granted_paths(texts(directives@)),
        texts(r.1@) == texts(directives@).filter(|d: Seq<char>| !d.contains(PATH_MAP_SEPARATOR)),
{
    let mut granted: Vec<PathMap> = Vec::new();
    let mut rejected: Vec<String> = Vec::new();
    let mut i: usize = 0;
    while i < directives.len()
        invariant
            i <= directives@.len(),
            granted@.map_values(|p: PathMap| (p.from@, p.to@)) == granted_paths(
                texts(directives@.subrange(0, i as int)),
            ),
            texts(rejected@) == texts(directives@.subrange(0, i as int)).filter(
                |d: Seq<char>| !d.contains(PATH_MAP_SEPARATOR),
            ),
        decreases directives@.len() - i,
    {
        let ghost before = texts(directives@.subrange(0, i as int));
        let ghost after = texts(directives@.subrange(0, i as int + 1));
        proof {
            assert(after.drop_last() =~= before);
            assert(after.last() == directives@[i as int]@);
            reveal(Seq::filter);
        }
        let d = directives[i].clone();
        match PathMap::from_string(d.clone()) {
            Ok(p) => {
                granted.push(p);
                proof {
                    assert(granted@.map_values(|p: PathMap| (p.from@, p.to@)) =~= granted_paths(after));
                    assert(after.filter(|d: Seq<char>| !d.contains(PATH_MAP_SEPARATOR)) == before.filter(
                        |d: Seq<char>| !d.contains(PATH_MAP_SEPARATOR),
                    ));
                }
            },
            Err(()) => {
                rejected.push(d);
                proof {
                    assert(texts(rejected@) =~= after.filter(|d: Seq<char>| !d.contains(PATH_MAP_SEPARATOR)));
                }
            },
        }
        i = i + 1;
    }
    proof {
        assert(directives@.subrange(0, i as int) =~= directives@);
    }
    (granted, rejected)
}

} // verus!
