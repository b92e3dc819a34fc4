use vstd::prelude::*;

use crate::error::FfiError;

verus! {

/// The registry as seen by contracts: the paths opened so far, in the order
/// they were first opened, and how many native loads were attempted.
pub struct RegistryModel {
    pub keys: Seq<Seq<char>>,
    pub loads: u64,
}

/// What the native open of a path did: a library came back, or a diagnostic.
pub enum LoadOutcome {
    Loaded,
    Failed(Seq<char>),
}

/// The load counter after one more attempt; it stops at its largest value.
pub open spec fn next_count(n: u64) -> u64 {
    if n == u64::MAX {
        n
    } else {
        (n + 1) as u64
    }
}

/// The registry after opening `p`, given what the native open did when one
/// was needed. A path already present is not loaded again; a failed load
/// leaves the entries as they were.
pub open spec fn open_model(m: RegistryModel, p: Seq<char>, o: LoadOutcome) -> RegistryModel {
    if m.keys.contains(p) {
        m
    } else {
        match o {
            LoadOutcome::Loaded => RegistryModel { keys: m.keys.push(p), loads: next_count(m.loads) },
            LoadOutcome::Failed(_) => RegistryModel { keys: m.keys, loads: next_count(m.loads) },
        }
    }
}

/// What opening `p` returns: the key (the path itself) or the diagnostic of
/// the failed native open.
pub open spec fn open_result(m: RegistryModel, p: Seq<char>, o: LoadOutcome) -> Result<Seq<char>, Seq<char>> {
    if m.keys.contains(p) {
        Ok(p)
    } else {
        match o {
            LoadOutcome::Loaded => Ok(p),
            LoadOutcome::Failed(d) => Err(d),
        }
    }
}

/// The model of what `open` returned.
pub open spec fn open_result_view(r: Result<String, FfiError>) -> Result<Seq<char>, Seq<char>> {
    match r {
        Ok(k) => Ok(k@),
        Err(FfiError::LoadError { diagnostic, .. }) => Err(diagnostic@),
        Err(_) => Err(Seq::empty()),
    }
}

/// The outcome of the native open that a result of `open` reports.
pub open spec fn outcome_of(r: Result<String, FfiError>) -> LoadOutcome {
    match r {
        Err(FfiError::LoadError { diagnostic, .. }) => LoadOutcome::Failed(diagnostic@),
        _ => LoadOutcome::Loaded,
    }
}

/// The libraries opened by this process, keyed by path. Entries are only
/// ever added: at most one native load succeeds per path, and nothing is
/// unloaded.
pub struct LibraryRegistry<L> {
    paths: Vec<String>,
    libs: Vec<L>,
    loads: u64,
}

impl<L> View for LibraryRegistry<L> {
    type V = RegistryModel;

    closed spec fn view(&self) -> RegistryModel {
        RegistryModel { keys: self.paths@.map_values(|s: String| s@), loads: self.loads }
    }
}

impl<L> LibraryRegistry<L> {
    /// One library per path, and one path per library.
    pub closed spec fn wf(&self) -> bool {
        &&& self.paths@.len() == self.libs@.len()
        &&& forall|i: int, j: int|
            0 <= i < j < self.paths@.len() ==> self.paths@[i]@ != self.paths@[j]@
    }

    /// The library loaded for the `i`-th path.
    pub closed spec fn lib(&self, i: int) -> L {
        self.libs@[i]
    }

    /// An empty registry.
    pub fn new() -> (r: Self)
        ensures
            r.wf(),
            r@.keys == Seq::<Seq<char>>::empty(),
            r@.loads == 0,
    {
        let r = LibraryRegistry { paths: Vec::new(), libs: Vec::new(), loads: 0 };
        proof {
            assert(r@.keys =~= Seq::<Seq<char>>::empty());
        }
        r
    }

    /// The number of native loads attempted so far.
    pub fn load_count(&self) -> (r: u64)
        ensures
            r == self@.loads,
    {
        self.loads
    }

    /// The number of libraries held.
    pub fn len(&self) -> (r: usize)
        requires
            self.wf(),
        ensures
            r == self@.keys.len(),
    {
        self.paths.len()
    }

    /// The position of `path` among the entries, if it has one.
    pub fn position(&self, path: &String) -> (r: Option<usize>)
        requires
            self.wf(),
        ensures
            r is None <==> !self@.keys.contains(path@),
            r matches Some(i) ==> i < self@.keys.len() && self@.keys[i as int] == path@,
    {
        let mut i: usize = 0;
        while i < self.paths.len()
            invariant
                i <= self.paths@.len(),
                forall|j: int| 0 <= j < i ==> self.paths@[j]@ != path@,
            decreases self.paths@.len() - i,
        {
            if self.paths[i] == *path {
                proof {
                    assert(self@.keys[i as int] == self.paths@[i as int]@);
                }
                return Some(i);
            }
            i = i + 1;
        }
        proof {
            if self@.keys.contains(path@) {
                let j = choose|j: int| 0 <= j < self@.keys.len() && self@.keys[j] == path@;
                assert(self.paths@[j]@ == path@);
            }
        }
        None
    }

    /// Whether `path` has been opened.
    pub fn contains(&self, path: &String) -> (r: bool)
        requires
            self.wf(),
        ensures
            r == self@.keys.contains(path@),
    {
        self.position(path).is_some()
    }

    /// Opens `path`: a path already held is returned as it is, without a
    /// native load; otherwise `load` performs the native open once, and its
    /// library is kept under `path`. A failed load reports `LoadError` and
    /// adds no entry, so a later open of the same path loads again.
    pub fn open<F: FnOnce(String) -> Result<L, String>>(&mut self, path: &String, load: F) -> (r:
        Result<String, FfiError>)
        requires
            old(self).wf(),
            load.requires((*path,)),
        ensures
            final(self).wf(),
            final(self)@ == open_model(old(self)@, path@, outcome_of(r)),
            open_result_view(r) == open_result(old(self)@, path@, outcome_of(r)),
            r is Err ==> (r matches Err(FfiError::LoadError { path: p, .. }) && p@ == path@),
            r is Ok ==> final(self)@.keys.contains(path@),
            forall|i: int| 0 <= i < old(self)@.keys.len() ==> final(self).lib(i) == old(self).lib(i),
            !old(self)@.keys.contains(path@) ==> match r {
                Ok(_) => exists|l: L| load.ensures((*path,), Ok::<L, String>(l))
                    && final(self).lib(old(self)@.keys.len() as int) == l,
                Err(FfiError::LoadError { diagnostic, .. }) =>
                    load.ensures((*path,), Err::<L, String>(diagnostic)),
                Err(_) => false,
            },
    {
        if self.contains(path) {
            return Ok(path.clone());
        }
        let attempt = load(path.clone());
        self.loads = if self.loads == u64::MAX { self.loads } else { self.loads + 1 };
        match attempt {
            Ok(lib) => {
                let ghost old_paths = self.paths@;
                proof {
                    assert forall|i: int| 0 <= i < old_paths.len() implies old_paths[i]@ != path@ by {
                        assert(old(self)@.keys[i] == old_paths[i]@);
                    }
                }
                self.paths.push(path.clone());
                self.libs.push(lib);
                proof {
                    assert(self@.keys =~= old(self)@.keys.push(path@));
                    assert(self@.keys[old(self)@.keys.len() as int] == path@);
                }
                Ok(path.clone())
            },
            Err(diagnostic) => Err(FfiError::LoadError { path: path.clone(), diagnostic }),
        }
    }

    /// The library held under `key`; `LibraryNotFound` when there is none.
    pub fn resolve(&self, key: &String) -> (r: Result<&L, FfiError>)
        requires
            self.wf(),
        ensures
            r is Ok <==> self@.keys.contains(key@),
            r matches Ok(l) ==> exists|i: int|
                0 <= i < self@.keys.len() && self@.keys[i] == key@ && *l == self.lib(i),
            r matches Err(e) ==> e matches FfiError::LibraryNotFound { path } && path@ == key@,
    {
        match self.position(key) {
            Some(i) => {
                proof {
                    assert(self@.keys[i as int] == key@ && self.libs@[i as int] == self.lib(i as int));
                }
                Ok(&self.libs[i])
            },
            None => Err(FfiError::LibraryNotFound { path: key.clone() }),
        }
    }
}

/// Opening a path twice loads it at most once: after an open that succeeded,
/// opening the same path again, whatever a native open would do, changes
/// nothing, loads nothing and returns the same key.
pub proof fn law_open_twice_loads_once(m: RegistryModel, p: Seq<char>, first: LoadOutcome, second: LoadOutcome)
    requires
        open_result(m, p, first) is Ok,
    ensures
        open_model(open_model(m, p, first), p, second) == open_model(m, p, first),
        open_result(open_model(m, p, first), p, second) == open_result(m, p, first),
        open_model(m, p, first).keys.contains(p),
        open_model(m, p, first).keys.len() <= m.keys.len() + 1,
{
    if !m.keys.contains(p) {
        assert(m.keys.push(p)[m.keys.len() as int] == p);
    }
}

/// A failed open leaves the entries unchanged, and a later open of a path
/// whose native load succeeds is then served.
pub proof fn law_failed_open_unchanged(m: RegistryModel, bad: Seq<char>, d: Seq<char>, good: Seq<char>)
    requires
        !m.keys.contains(bad),
    ensures
        open_result(m, bad, LoadOutcome::Failed(d)) == Err::<Seq<char>, Seq<char>>(d),
        open_model(m, bad, LoadOutcome::Failed(d)).keys == m.keys,
        open_result(open_model(m, bad, LoadOutcome::Failed(d)), good, LoadOutcome::Loaded)
            == Ok::<Seq<char>, Seq<char>>(good),
        open_model(open_model(m, bad, LoadOutcome::Failed(d)), good, LoadOutcome::Loaded).keys.contains(good),
{
    let m1 = open_model(m, bad, LoadOutcome::Failed(d));
    if !m1.keys.contains(good) {
        assert(m1.keys.push(good)[m1.keys.len() as int] == good);
    }
}

} // verus!
