use vstd::prelude::*;

use crate::report::copy_string;
use crate::text::{chars_of, str_eq, string_from_chars};

verus! {

/// Whether a file is as it was when its check last passed.
#[derive(Debug, Clone, Copy, PartialEq, Eq, Structural)]
pub enum FileCacheStatus {
    FileMatches,
    FileChanged,
}

/// The lowercase hexadecimal SHA-256 digest of `bytes`, as `sha256::digest` writes it.
pub uninterp spec fn sha256_hex(bytes: Seq<u8>) -> Seq<char>;

/// `sha256::digest` on a byte slice.
/// Contract: the text is the one `sha256_hex` names for the bytes.
#[verifier::external_body]
fn digest_bytes(bytes: &[u8]) -> (r: String)
    ensures
        r@ == sha256_hex(bytes@),
{
    sha256::digest(bytes)
}

/// What was found at a path when it was looked at.
#[derive(Debug, Clone, PartialEq)]
pub enum PathState {
    /// Nothing is there.
    Missing,
    /// A directory is there.
    Directory,
    /// A file with these contents is there.
    File(Vec<u8>),
    /// Something is there but could not be read.
    Unreadable,
}

/// The checksum recorded for a path: fixed markers for a missing path and a directory,
/// the digest of a file's contents, and none when the path could not be read.
pub open spec fn checksum_of(state: PathState) -> Option<Seq<char>> {
    match state {
        PathState::Missing => Some("<not exist>"@),
        PathState::Directory => Some("<dir>"@),
        PathState::File(bytes) => Some(sha256_hex(bytes@)),
        PathState::Unreadable => None,
    }
}

/// The checksum recorded for what was found at a path.
pub fn make_checksum(state: &PathState) -> (r: Option<String>)
    ensures
        match r {
            Some(c) => checksum_of(*state) == Some(c@),
            None => checksum_of(*state) is None,
        },
{
    match state {
        PathState::Missing => Some("<not exist>".to_owned()),
        PathState::Directory => Some("<dir>".to_owned()),
        PathState::File(bytes) => Some(digest_bytes(bytes.as_slice())),
        PathState::Unreadable => None,
    }
}

/// Remembers, per check, the checksum of each file the check depends on.
pub trait FileCache {
    /// Whether `path`, found in the state `state`, matches what was recorded for `check_name`.
    fn check_file(&self, check_name: &str, path: &str, state: &PathState) -> FileCacheStatus;

    /// Records the checksum of `path` for `check_name`.
    fn update_cache_entry(&mut self, check_name: &str, path: &str, state: &PathState);
}

/// A cache that remembers nothing: every file counts as changed.
#[derive(Debug, Default)]
pub struct NoOpCache {}

impl FileCache for NoOpCache {
    fn check_file(&self, check_name: &str, path: &str, state: &PathState) -> (r: FileCacheStatus)
        ensures
            r == FileCacheStatus::FileChanged,
    {
        FileCacheStatus::FileChanged
    }

    fn update_cache_entry(&mut self, check_name: &str, path: &str, state: &PathState) {
    }
}

/// No check/path pair occurs twice.
pub open spec fn entries_unique(v: Seq<(String, String, String)>) -> bool {
    forall|i: int, j: int|
        0 <= i < j < v.len() ==> (#[trigger] v[i]).0@ != (#[trigger] v[j]).0@ || v[i].1@ != v[j].1@
}

/// There is an entry for this check and path.
pub open spec fn has_entry(v: Seq<(String, String, String)>, g: Seq<char>, p: Seq<char>) -> bool {
    exists|i: int| 0 <= i < v.len() && (#[trigger] v[i]).0@ == g && v[i].1@ == p
}

/// The checksum recorded for this check and path, if any.
pub open spec fn entry_of(v: Seq<(String, String, String)>, g: Seq<char>, p: Seq<char>) -> Option<Seq<char>> {
    if has_entry(v, g, p) {
        let i = choose|i: int| 0 <= i < v.len() && (#[trigger] v[i]).0@ == g && v[i].1@ == p;
        Some(v[i].2@)
    } else {
        None
    }
}

proof fn lemma_entry_at(v: Seq<(String, String, String)>, i: int)
    requires
        entries_unique(v),
        0 <= i < v.len(),
    ensures
        entry_of(v, v[i].0@, v[i].1@) == Some(v[i].2@),
{
    let g = v[i].0@;
    let p = v[i].1@;
    assert(has_entry(v, g, p));
    let j = choose|j: int| 0 <= j < v.len() && (#[trigger] v[j]).0@ == g && v[j].1@ == p;
    if j < i {
        assert(v[j].0@ != v[i].0@ || v[j].1@ != v[i].1@);
    } else if j > i {
        assert(v[i].0@ != v[j].0@ || v[i].1@ != v[j].1@);
    }
}

/// The checksum the last triple for this check and path gives, if any.
pub open spec fn last_entry(v: Seq<(String, String, String)>, g: Seq<char>, p: Seq<char>) -> Option<Seq<char>>
    decreases v.len(),
{
    if v.len() == 0 {
        None
    } else if v.last().0@ == g && v.last().1@ == p {
        Some(v.last().2@)
    } else {
        last_entry(v.drop_last(), g, p)
    }
}

/// With each check/path pair once, the last entry for a pair is its only one.
proof fn lemma_last_entry_is_entry(v: Seq<(String, String, String)>, g: Seq<char>, p: Seq<char>)
    requires
        entries_unique(v),
    ensures
        last_entry(v, g, p) == entry_of(v, g, p),
    decreases v.len(),
{
    if v.len() > 0 {
        let n = v.len() - 1;
        if v[n].0@ == g && v[n].1@ == p {
            lemma_entry_at(v, n);
        } else {
            let w = v.drop_last();
            assert forall|i: int, j: int| 0 <= i < j < w.len() implies (#[trigger] w[i]).0@ != (#[trigger] w[j]).0@ || w[i].1@ != w[j].1@ by {
                assert(w[i] == v[i] && w[j] == v[j]);
            }
            lemma_last_entry_is_entry(w, g, p);
            if has_entry(v, g, p) {
                let j = choose|j: int| 0 <= j < v.len() && (#[trigger] v[j]).0@ == g && v[j].1@ == p;
                assert(j < n);
                assert(w[j] == v[j]);
                lemma_entry_at(v, j);
                lemma_entry_at(w, j);
            } else {
                assert(!has_entry(w, g, p)) by {
                    if has_entry(w, g, p) {
                        let j = choose|j: int| 0 <= j < w.len() && (#[trigger] w[j]).0@ == g && w[j].1@ == p;
                        assert(v[j] == w[j]);
                    }
                }
            }
        }
    }
}

/// A cache written out as its entries (`FileCacheData::entries`) and read back
/// (`FileCacheData::from_entries`) records the same checksums as before.
pub proof fn lemma_reload_keeps_records(entries: Seq<(String, String, String)>, saved: FileCacheData, reloaded: FileCacheData)
    requires
        entries_unique(entries),
        forall|g: Seq<char>, p: Seq<char>| #[trigger] entry_of(entries, g, p) == saved.recorded(g, p),
        forall|g: Seq<char>, p: Seq<char>| #[trigger] reloaded.recorded(g, p) == last_entry(entries, g, p),
    ensures
        forall|g: Seq<char>, p: Seq<char>| #[trigger] reloaded.recorded(g, p) == saved.recorded(g, p),
{
    assert forall|g: Seq<char>, p: Seq<char>| #[trigger] reloaded.recorded(g, p) == saved.recorded(g, p) by {
        lemma_last_entry_is_entry(entries, g, p);
        assert(entry_of(entries, g, p) == saved.recorded(g, p));
    }
}

/// The checksums a cache holds: for each check, for each path, one checksum.
#[derive(Debug, PartialEq)]
pub struct FileCacheData {
    entries: Vec<(String, String, String)>,
}

impl FileCacheData {
    /// Each check/path pair is recorded at most once, always.
    #[verifier::type_invariant]
    spec fn entries_once(self) -> bool {
        entries_unique(self.entries@)
    }

    /// Each check/path pair is recorded at most once.
    pub closed spec fn wf(&self) -> bool {
        entries_unique(self.entries@)
    }

    /// The checksum recorded for path `p` of check `g`.
    pub closed spec fn recorded(&self, g: Seq<char>, p: Seq<char>) -> Option<Seq<char>> {
        entry_of(self.entries@, g, p)
    }

    /// A cache with nothing recorded.
    pub fn new() -> (r: FileCacheData)
        ensures
            r.wf(),
            forall|g: Seq<char>, p: Seq<char>| #[trigger] r.recorded(g, p) is None,
    {
        FileCacheData { entries: Vec::new() }
    }

    /// The recorded checksums as (check, path, checksum) triples, each pair once.
    pub fn entries(&self) -> (r: &Vec<(String, String, String)>)
        ensures
            forall|g: Seq<char>, p: Seq<char>| #[trigger] entry_of(r@, g, p) == self.recorded(g, p),
            entries_unique(r@),
    {
        proof {
            use_type_invariant(self);
        }
        &self.entries
    }

    /// A cache holding `entries`; a later triple for the same check and path wins.
    pub fn from_entries(entries: &Vec<(String, String, String)>) -> (r: FileCacheData)
        ensures
            r.wf(),
            forall|g: Seq<char>, p: Seq<char>| #[trigger] r.recorded(g, p) == last_entry(entries@, g, p),
    {
        let mut d = FileCacheData::new();
        let mut i: usize = 0;
        while i < entries.len()
            invariant
                d.wf(),
                i <= entries@.len(),
                forall|g: Seq<char>, p: Seq<char>| #[trigger] d.recorded(g, p) == last_entry(entries@.take(i as int), g, p),
            decreases entries@.len() - i,
        {
            d.record(entries[i].0.as_str(), entries[i].1.as_str(), copy_string(&entries[i].2));
            assert(entries@.take(i as int + 1).drop_last() =~= entries@.take(i as int));
            assert forall|g: Seq<char>, p: Seq<char>| #[trigger] d.recorded(g, p) == last_entry(entries@.take(i as int + 1), g, p) by {
                assert(entries@.take(i as int + 1).last() == entries@[i as int]);
            }
            i = i + 1;
        }
        assert(entries@.take(i as int) =~= entries@);
        d
    }

    /// The checksum recorded for path `p` of check `g`, if any.
    pub fn lookup(&self, g: &str, p: &str) -> (r: Option<&str>)
        ensures
            match r {
                Some(c) => self.recorded(g@, p@) == Some(c@),
                None => self.recorded(g@, p@) is None,
            },
    {
        proof {
            use_type_invariant(self);
        }
        match find_entry(&self.entries, g, p) {
            Some(i) => {
                proof {
                    lemma_entry_at(self.entries@, i as int);
                }
                Some(self.entries[i].2.as_str())
            },
            None => None,
        }
    }

    /// Records `checksum` for path `p` of check `g`, replacing what was there.
    pub fn record(&mut self, g: &str, p: &str, checksum: String)
        ensures
            final(self).wf(),
            final(self).recorded(g@, p@) == Some(checksum@),
            forall|g2: Seq<char>, p2: Seq<char>|
                (g2 != g@ || p2 != p@) ==> #[trigger] final(self).recorded(g2, p2) == old(self).recorded(g2, p2),
    {
        proof {
            use_type_invariant(&*self);
        }
        let mut v: Vec<(String, String, String)> = Vec::new();
        std::mem::swap(&mut v, &mut self.entries);
        record_entry(&mut v, g, p, checksum);
        self.entries = v;
    }
}

/// The position of the entry for check `g` and path `p`, if there is one.
fn find_entry(v: &Vec<(String, String, String)>, g: &str, p: &str) -> (r: Option<usize>)
    ensures
        match r {
            Some(i) => i < v@.len() && v@[i as int].0@ == g@ && v@[i as int].1@ == p@,
            None => !has_entry(v@, g@, p@),
        },
{
    let mut i: usize = 0;
    while i < v.len()
        invariant
            i <= v@.len(),
            forall|j: int| 0 <= j < i ==> (#[trigger] v@[j]).0@ != g@ || v@[j].1@ != p@,
        decreases v@.len() - i,
    {
        if str_eq(v[i].0.as_str(), g) && str_eq(v[i].1.as_str(), p) {
            return Some(i);
        }
        i = i + 1;
    }
    None
}

/// Records `checksum` for path `p` of check `g` among the entries `v`.
fn record_entry(v: &mut Vec<(String, String, String)>, g: &str, p: &str, checksum: String)
    requires
        entries_unique(old(v)@),
    ensures
        entries_unique(final(v)@),
        entry_of(final(v)@, g@, p@) == Some(checksum@),
        forall|g2: Seq<char>, p2: Seq<char>|
            (g2 != g@ || p2 != p@) ==> #[trigger] entry_of(final(v)@, g2, p2) == entry_of(old(v)@, g2, p2),
{
    let ghost old_v = v@;
    let ghost gg = g@;
    let ghost pp = p@;
    match find_entry(v, g, p) {
        Some(i) => {
            v.set(i, (g.to_owned(), p.to_owned(), checksum));
            assert forall|a: int, b: int| 0 <= a < b < v@.len() implies (#[trigger] v@[a]).0@ != (#[trigger] v@[b]).0@
                || v@[a].1@ != v@[b].1@ by {
                assert(old_v[a].0@ != old_v[b].0@ || old_v[a].1@ != old_v[b].1@);
            }
            proof {
                lemma_entry_at(v@, i as int);
            }
            assert forall|g2: Seq<char>, p2: Seq<char>| (g2 != gg || p2 != pp) implies #[trigger] entry_of(v@, g2, p2) == entry_of(old_v, g2, p2) by {
                if has_entry(v@, g2, p2) {
                    let j = choose|j: int| 0 <= j < v@.len() && (#[trigger] v@[j]).0@ == g2 && v@[j].1@ == p2;
                    assert(old_v[j] == v@[j]);
                    lemma_entry_at(v@, j);
                    lemma_entry_at(old_v, j);
                }
                if has_entry(old_v, g2, p2) {
                    let j = choose|j: int| 0 <= j < old_v.len() && (#[trigger] old_v[j]).0@ == g2 && old_v[j].1@ == p2;
                    assert(old_v[j] == v@[j]);
                }
            }
        },
        None => {
            v.push((g.to_owned(), p.to_owned(), checksum));
            assert forall|a: int, b: int| 0 <= a < b < v@.len() implies (#[trigger] v@[a]).0@ != (#[trigger] v@[b]).0@
                || v@[a].1@ != v@[b].1@ by {
                if b < old_v.len() {
                    assert(old_v[a].0@ != old_v[b].0@ || old_v[a].1@ != old_v[b].1@);
                } else {
                    assert(!(old_v[a].0@ == gg && old_v[a].1@ == pp));
                }
            }
            proof {
                lemma_entry_at(v@, old_v.len() as int);
            }
            assert forall|g2: Seq<char>, p2: Seq<char>| (g2 != gg || p2 != pp) implies #[trigger] entry_of(v@, g2, p2) == entry_of(old_v, g2, p2) by {
                if has_entry(v@, g2, p2) {
                    let j = choose|j: int| 0 <= j < v@.len() && (#[trigger] v@[j]).0@ == g2 && v@[j].1@ == p2;
                    assert(j < old_v.len());
                    assert(old_v[j] == v@[j]);
                    lemma_entry_at(v@, j);
                    lemma_entry_at(old_v, j);
                }
                if has_entry(old_v, g2, p2) {
                    let j = choose|j: int| 0 <= j < old_v.len() && (#[trigger] old_v[j]).0@ == g2 && old_v[j].1@ == p2;
                    assert(old_v[j] == v@[j]);
                }
            }
        },
    }
}

/// The status of a path for a check: it matches exactly when its checksum could be taken
/// and equals the one recorded for that check and path.
pub open spec fn status_against(recorded: Option<Seq<char>>, state: PathState) -> FileCacheStatus {
    if checksum_of(state) is Some && recorded == checksum_of(state) {
        FileCacheStatus::FileMatches
    } else {
        FileCacheStatus::FileChanged
    }
}

/// A file recorded for a check and later found with contents of another digest reads as
/// changed: the check sees a file rewritten with other contents, unless the two contents
/// share a SHA-256 digest.
pub proof fn lemma_rewritten_file_is_changed(cache: FileCacheData, g: Seq<char>, p: Seq<char>, before: Vec<u8>, after: Vec<u8>)
    requires
        cache.recorded(g, p) == checksum_of(PathState::File(before)),
        sha256_hex(after@) != sha256_hex(before@),
    ensures
        status_against(cache.recorded(g, p), PathState::File(after)) == FileCacheStatus::FileChanged,
{
}

impl FileCache for FileCacheData {
    fn check_file(&self, check_name: &str, path: &str, state: &PathState) -> (r: FileCacheStatus)
        ensures
            r == status_against(self.recorded(check_name@, path@), *state),
    {
        proof {
            use_type_invariant(self);
        }
        match make_checksum(state) {
            Some(c) => match self.lookup(check_name, path) {
                Some(old) => {
                    if str_eq(old, c.as_str()) {
                        FileCacheStatus::FileMatches
                    } else {
                        FileCacheStatus::FileChanged
                    }
                },
                None => FileCacheStatus::FileChanged,
            },
            None => FileCacheStatus::FileChanged,
        }
    }

    fn update_cache_entry(&mut self, check_name: &str, path: &str, state: &PathState)
        ensures
            final(self).wf(),
            forall|g2: Seq<char>, p2: Seq<char>|
                #[trigger] final(self).recorded(g2, p2) == recorded_after(*old(self), check_name@, path@, *state, g2, p2),
    {
        proof {
            use_type_invariant(&*self);
        }
        match make_checksum(state) {
            Some(c) => self.record(check_name, path, c),
            None => {},
        }
    }
}

impl FileCacheData {
    /// Whether each check/path pair is recorded at most once.
    pub fn has_unique_entries(&self) -> (r: bool)
        ensures
            r == self.wf(),
    {
        let mut i: usize = 0;
        while i < self.entries.len()
            invariant
                i <= self.entries@.len(),
                forall|a: int, b: int| 0 <= a < b < self.entries@.len() && a < i ==> (#[trigger] self.entries@[a]).0@
                    != (#[trigger] self.entries@[b]).0@ || self.entries@[a].1@ != self.entries@[b].1@,
            decreases self.entries@.len() - i,
        {
            let mut j: usize = i + 1;
            while j < self.entries.len()
                invariant
                    i < self.entries@.len(),
                    i + 1 <= j <= self.entries@.len(),
                    forall|a: int, b: int| 0 <= a < b < self.entries@.len() && a < i ==> (#[trigger] self.entries@[a]).0@
                        != (#[trigger] self.entries@[b]).0@ || self.entries@[a].1@ != self.entries@[b].1@,
                    forall|b: int| i < b < j ==> self.entries@[i as int].0@ != (#[trigger] self.entries@[b]).0@
                        || self.entries@[i as int].1@ != self.entries@[b].1@,
                decreases self.entries@.len() - j,
            {
                if str_eq(self.entries[i].0.as_str(), self.entries[j].0.as_str()) && str_eq(
                    self.entries[i].1.as_str(),
                    self.entries[j].1.as_str(),
                ) {
                    return false;
                }
                j = j + 1;
            }
            i = i + 1;
        }
        true
    }
}

/// A glob made absolute: kept when it starts with `/`, else put under `base_dir`.
pub open spec fn absolute_glob(base_dir: Seq<char>, glob: Seq<char>) -> Seq<char> {
    if glob.len() > 0 && glob[0] == '/' {
        glob
    } else {
        base_dir + seq!['/'] + glob
    }
}

/// Makes a glob absolute against `base_dir`.
pub fn make_absolute(base_dir: &str, glob: &str) -> (r: String)
    ensures
        r@ == absolute_glob(base_dir@, glob@),
{
    let g = chars_of(glob);
    if g.len() > 0 && g[0] == '/' {
        return string_from_chars(&g);
    }
    let mut out = chars_of(base_dir);
    out.push('/');
    let ghost base = out@;
    let mut i: usize = 0;
    while i < g.len()
        invariant
            i <= g@.len(),
            out@ == base + g@.take(i as int),
        decreases g@.len() - i,
    {
        out.push(g[i]);
        assert(g@.take(i as int + 1) =~= g@.take(i as int).push(g@[i as int]));
        i = i + 1;
    }
    assert(g@.take(i as int) =~= g@);
    string_from_chars(&out)
}

/// Every glob matched some file and every file matched reads back unchanged for the check.
pub open spec fn globs_unchanged(d: FileCacheData, name: Seq<char>, found: Seq<Vec<(String, PathState)>>) -> bool {
    forall|i: int| 0 <= i < found.len() ==> {
        &&& (#[trigger] found[i])@.len() > 0
        &&& forall|j: int| 0 <= j < found[i]@.len() ==> status_against(
            d.recorded(name, (#[trigger] found[i]@[j]).0@),
            found[i]@[j].1,
        ) == FileCacheStatus::FileMatches
    }
}

/// The files of a check read as unchanged exactly when every glob matched some file and
/// every file any glob matched, at every position of its list, has a checksum that could
/// be taken and equals the one recorded for it; one file that reads otherwise, or a glob
/// without files, makes them changed.
pub proof fn lemma_unchanged_means_every_file_matches(d: FileCacheData, name: Seq<char>, found: Seq<Vec<(String, PathState)>>)
    ensures
        globs_unchanged(d, name, found) <==> (forall|i: int| 0 <= i < found.len() ==> (#[trigger] found[i])@.len() > 0)
            && (forall|i: int, j: int|
            0 <= i < found.len() && 0 <= j < found[i]@.len() ==> checksum_of((#[trigger] found[i]@[j]).1) is Some
                && d.recorded(name, found[i]@[j].0@) == checksum_of(found[i]@[j].1)),
        forall|i: int, j: int|
            0 <= i < found.len() && 0 <= j < found[i]@.len() && d.recorded(name, (#[trigger] found[i]@[j]).0@)
                != checksum_of(found[i]@[j].1) ==> !globs_unchanged(d, name, found),
{
    if globs_unchanged(d, name, found) {
        assert forall|i: int, j: int| 0 <= i < found.len() && 0 <= j < found[i]@.len() implies checksum_of(
            (#[trigger] found[i]@[j]).1,
        ) is Some && d.recorded(name, found[i]@[j].0@) == checksum_of(found[i]@[j].1) by {
            assert(found[i]@.len() > 0);
            assert(status_against(d.recorded(name, found[i]@[j].0@), found[i]@[j].1) == FileCacheStatus::FileMatches);
        }
    }
}

/// Walks the files that a check's globs match and compares them with the cache.
#[derive(Debug, Default)]
pub struct DefaultGlobWalker {}

impl DefaultGlobWalker {
    /// Whether the files the globs matched are unchanged for check `name`: `found` holds, for
    /// each glob, the files it matched with what was found at each. A glob that matched no
    /// file counts as changed.
    pub fn have_globs_changed(&self, cache: &FileCacheData, name: &str, found: &Vec<Vec<(String, PathState)>>) -> (r: bool)
        ensures
            r == globs_unchanged(*cache, name@, found@),
    {
        proof {
            use_type_invariant(cache);
        }
        let mut i: usize = 0;
        while i < found.len()
            invariant
                i <= found@.len(),
                cache.wf(),
                globs_unchanged(*cache, name@, found@.take(i as int)),
            decreases found@.len() - i,
        {
            let files = &found[i];
            if files.len() == 0 {
                assert(!globs_unchanged(*cache, name@, found@)) by {
                    assert(found@[i as int]@.len() == 0);
                }
                return false;
            }
            let mut j: usize = 0;
            while j < files.len()
                invariant
                    j <= files@.len(),
                    i < found@.len(),
                    cache.wf(),
                    *files == found@[i as int],
                    forall|k: int| 0 <= k < j ==> status_against(cache.recorded(name@, (#[trigger] files@[k]).0@), files@[k].1)
                        == FileCacheStatus::FileMatches,
                decreases files@.len() - j,
            {
                if cache.check_file(name, files[j].0.as_str(), &files[j].1) != FileCacheStatus::FileMatches {
                    assert(!globs_unchanged(*cache, name@, found@)) by {
                        assert(status_against(cache.recorded(name@, found@[i as int]@[j as int].0@), found@[i as int]@[j as int].1)
                            != FileCacheStatus::FileMatches);
                    }
                    return false;
                }
                j = j + 1;
            }
            assert(globs_unchanged(*cache, name@, found@.take(i as int + 1))) by {
                assert forall|q: int| 0 <= q < i + 1 implies {
                    &&& (#[trigger] found@.take(i as int + 1)[q])@.len() > 0
                    &&& forall|j: int| 0 <= j < found@.take(i as int + 1)[q]@.len() ==> status_against(
                        cache.recorded(name@, (#[trigger] found@.take(i as int + 1)[q]@[j]).0@),
                        found@.take(i as int + 1)[q]@[j].1,
                    ) == FileCacheStatus::FileMatches
                } by {
                    if q < i {
                        assert(found@.take(i as int + 1)[q] == found@.take(i as int)[q]);
                    }
                }
            }
            i = i + 1;
        }
        assert(found@.take(i as int) =~= found@);
        true
    }

    /// Records every file the globs matched for check `name`, in order.
    pub fn update_cache(&self, cache: &mut FileCacheData, name: &str, found: &Vec<Vec<(String, PathState)>>)
        ensures
            final(cache).wf(),
            forall|g2: Seq<char>, p2: Seq<char>|
                #[trigger] final(cache).recorded(g2, p2) == recorded_after_all(*old(cache), name@, flatten_found(found@), g2, p2),
    {
        proof {
            use_type_invariant(&*cache);
        }
        let ghost start = *cache;
        let mut i: usize = 0;
        while i < found.len()
            invariant
                i <= found@.len(),
                cache.wf(),
                forall|g2: Seq<char>, p2: Seq<char>|
                    #[trigger] cache.recorded(g2, p2) == recorded_after_all(start, name@, flatten_found(found@.take(i as int)), g2, p2),
            decreases found@.len() - i,
        {
            let ghost done = flatten_found(found@.take(i as int));
            let mut j: usize = 0;
            while j < found[i].len()
                invariant
                    i < found@.len(),
                    j <= found@[i as int]@.len(),
                    cache.wf(),
                    forall|g2: Seq<char>, p2: Seq<char>|
                        #[trigger] cache.recorded(g2, p2) == recorded_after_all(start, name@, done + found@[i as int]@.take(j as int), g2, p2),
                decreases found@[i as int]@.len() - j,
            {
                let ghost before = *cache;
                cache.update_cache_entry(name, found[i][j].0.as_str(), &found[i][j].1);
                assert((done + found@[i as int]@.take(j as int + 1)).drop_last() =~= done + found@[i as int]@.take(j as int));
                assert((done + found@[i as int]@.take(j as int + 1)).last() == found@[i as int]@[j as int]);
                j = j + 1;
            }
            assert(found@[i as int]@.take(j as int) =~= found@[i as int]@);
            assert(found@.take(i as int + 1).drop_last() =~= found@.take(i as int));
            i = i + 1;
        }
        assert(found@.take(i as int) =~= found@);
    }
}

/// The files the globs matched, glob after glob.
pub open spec fn flatten_found(found: Seq<Vec<(String, PathState)>>) -> Seq<(String, PathState)>
    decreases found.len(),
{
    if found.len() == 0 {
        Seq::empty()
    } else {
        flatten_found(found.drop_last()) + found.last()@
    }
}

/// What is recorded for `g2`/`p2` after updating `d` for check `g` with each file of `files`
/// in order.
pub open spec fn recorded_after_all(
    d: FileCacheData,
    g: Seq<char>,
    files: Seq<(String, PathState)>,
    g2: Seq<char>,
    p2: Seq<char>,
) -> Option<Seq<char>>
    decreases files.len(),
{
    if files.len() == 0 {
        d.recorded(g2, p2)
    } else if g2 == g && p2 == files.last().0@ && checksum_of(files.last().1) is Some {
        checksum_of(files.last().1)
    } else {
        recorded_after_all(d, g, files.drop_last(), g2, p2)
    }
}

/// What is recorded for `g2`/`p2` after `update_cache_entry(g, p, state)` on `d`.
pub open spec fn recorded_after(
    d: FileCacheData,
    g: Seq<char>,
    p: Seq<char>,
    state: PathState,
    g2: Seq<char>,
    p2: Seq<char>,
) -> Option<Seq<char>> {
    if g2 == g && p2 == p && checksum_of(state) is Some {
        checksum_of(state)
    } else {
        d.recorded(g2, p2)
    }
}

/// A file recorded for a check reads back as unchanged for that check, as long as it is
/// found in the same state and its checksum could be taken.
pub proof fn lemma_read_after_write(d: FileCacheData, check: Seq<char>, path: Seq<char>, state: PathState)
    requires
        checksum_of(state) is Some,
    ensures
        status_against(recorded_after(d, check, path, state, check, path), state) == FileCacheStatus::FileMatches,
{
}

/// Recording a file for one check changes nothing for any other check or path.
pub proof fn lemma_update_isolated(
    d: FileCacheData,
    check: Seq<char>,
    path: Seq<char>,
    state: PathState,
    other_check: Seq<char>,
    other_path: Seq<char>,
    other_state: PathState,
)
    requires
        other_check != check || other_path != path,
    ensures
        status_against(recorded_after(d, check, path, state, other_check, other_path), other_state)
            == status_against(d.recorded(other_check, other_path), other_state),
{
}

} // verus!
