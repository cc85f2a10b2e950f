use vstd::prelude::*;

use crate::capture::{join_strings, join_with};
use crate::command::path_join;
use crate::doctor_run::join_path;
use crate::models::{DoctorGroup, KnownError};
use crate::report::copy_string;
use crate::report_config::{ParsedConfig, ReportUploadLocation};
use crate::text::{chars_of, str_eq, string_from_chars};

verus! {

/// The index of the last `/` in `p`, if any.
pub open spec fn last_slash(p: Seq<char>) -> Option<int>
    decreases p.len(),
{
    if p.len() == 0 {
        None
    } else if p.last() == '/' {
        Some(p.len() - 1)
    } else {
        last_slash(p.drop_last())
    }
}

/// The parent of a normalized absolute path: everything before its last `/` (the root for
/// a path directly under it); the root and relative names have none.
pub open spec fn abs_parent(p: Seq<char>) -> Option<Seq<char>> {
    match last_slash(p) {
        None => None,
        Some(i) => if p.len() == 1 {
            None
        } else if i == 0 {
            Some(seq!['/'])
        } else {
            Some(p.take(i))
        },
    }
}

/// The directory, then each of its parents up to the root.
pub open spec fn ancestors(p: Seq<char>) -> Seq<Seq<char>>
    decreases p.len(),
{
    match abs_parent(p) {
        None => seq![p],
        Some(q) => if q.len() < p.len() {
            seq![p] + ancestors(q)
        } else {
            seq![p]
        },
    }
}

proof fn lemma_last_slash_bounds(p: Seq<char>)
    ensures
        match last_slash(p) {
            Some(i) => 0 <= i < p.len() && p[i] == '/',
            None => true,
        },
    decreases p.len(),
{
    if p.len() > 0 && p.last() != '/' {
        lemma_last_slash_bounds(p.drop_last());
        match last_slash(p.drop_last()) {
            Some(i) => {
                assert(p[i] == p.drop_last()[i]);
            },
            None => {},
        }
    }
}

fn find_last_slash(p: &Vec<char>) -> (r: Option<usize>)
    ensures
        match r {
            Some(i) => last_slash(p@) == Some(i as int),
            None => last_slash(p@) is None,
        },
{
    let mut i: usize = p.len();
    assert(p@.take(p@.len() as int) =~= p@);
    while i > 0
        invariant
            i <= p@.len(),
            last_slash(p@) == last_slash(p@.take(i as int)),
        decreases i,
    {
        assert(p@.take(i as int).drop_last() =~= p@.take(i as int - 1));
        if p[i - 1] == '/' {
            return Some(i - 1);
        }
        i = i - 1;
    }
    assert(p@.take(0) =~= Seq::<char>::empty());
    None
}

/// The `.scope` directories searched for configuration, nearest first: one in the working
/// directory (already made absolute and normalized) and in each of its parents, then one in
/// the home directory and one in the configuration directory, when those are known.
pub open spec fn scope_dirs(working_dir: Seq<char>, home: Option<Seq<char>>, config_dir: Option<Seq<char>>) -> Seq<Seq<char>> {
    let own = ancestors(working_dir).map_values(|a: Seq<char>| path_join(a, ".scope"@));
    let with_home = match home {
        Some(h) => own.push(path_join(h, ".scope"@)),
        None => own,
    };
    match config_dir {
        Some(c) => with_home.push(path_join(c, ".scope"@)),
        None => with_home,
    }
}

/// The text of an optional string slice.
pub open spec fn opt_str(o: Option<&str>) -> Option<Seq<char>> {
    match o {
        Some(s) => Some(s@),
        None => None,
    }
}

/// The `.scope` directories to search for configuration (see `scope_dirs`).
pub fn build_config_path(working_dir: &str, home: Option<&str>, config_dir: Option<&str>) -> (r: Vec<String>)
    ensures
        r@.map_values(|s: String| s@) == scope_dirs(working_dir@, opt_str(home), opt_str(config_dir)),
{
    let mut out: Vec<String> = Vec::new();
    let mut cur = chars_of(working_dir);
    let ghost target = ancestors(working_dir@).map_values(|a: Seq<char>| path_join(a, ".scope"@));
    assert(Seq::<String>::empty().map_values(|s: String| s@) + ancestors(cur@).map_values(|a: Seq<char>| path_join(a, ".scope"@)) =~= target);
    loop
        invariant_except_break
            target == ancestors(working_dir@).map_values(|a: Seq<char>| path_join(a, ".scope"@)),
            out@.map_values(|s: String| s@) + ancestors(cur@).map_values(|a: Seq<char>| path_join(a, ".scope"@)) == target,
        ensures
            out@.map_values(|s: String| s@) == target,
        decreases cur@.len(),
    {
        let here = string_from_chars(&cur);
        let ghost before = out@.map_values(|s: String| s@);
        out.push(join_path(here.as_str(), ".scope"));
        assert(out@.map_values(|s: String| s@) =~= before.push(path_join(cur@, ".scope"@)));
        proof {
            lemma_last_slash_bounds(cur@);
        }
        let slash = find_last_slash(&cur);
        let next: Option<Vec<char>> = match slash {
            None => None,
            Some(i) => if cur.len() == 1 {
                None
            } else if i == 0 {
                Some(vec!['/'])
            } else {
                let mut q: Vec<char> = Vec::new();
                let mut k: usize = 0;
                while k < i
                    invariant
                        k <= i,
                        i < cur@.len(),
                        q@ == cur@.take(k as int),
                    decreases i - k,
                {
                    q.push(cur[k]);
                    assert(cur@.take(k as int + 1) =~= cur@.take(k as int).push(cur@[k as int]));
                    k = k + 1;
                }
                Some(q)
            },
        };
        match next {
            Some(q) => {
                assert(abs_parent(cur@) == Some(q@));
                if q.len() < cur.len() {
                    assert(ancestors(cur@) == seq![cur@] + ancestors(q@));
                    assert(seq![cur@].map_values(|a: Seq<char>| path_join(a, ".scope"@)) + ancestors(q@).map_values(
                        |a: Seq<char>| path_join(a, ".scope"@),
                    ) =~= (seq![cur@] + ancestors(q@)).map_values(|a: Seq<char>| path_join(a, ".scope"@)));
                    assert(before.push(path_join(cur@, ".scope"@)) + ancestors(q@).map_values(|a: Seq<char>| path_join(a, ".scope"@))
                        =~= before + (seq![cur@] + ancestors(q@)).map_values(|a: Seq<char>| path_join(a, ".scope"@)));
                    cur = q;
                } else {
                    assert(ancestors(cur@) == seq![cur@]);
                    assert(before + seq![cur@].map_values(|a: Seq<char>| path_join(a, ".scope"@)) =~= before.push(path_join(cur@, ".scope"@)));
                    break;
                }
            },
            None => {
                assert(abs_parent(cur@) is None);
                assert(ancestors(cur@) == seq![cur@]);
                assert(before + seq![cur@].map_values(|a: Seq<char>| path_join(a, ".scope"@)) =~= before.push(path_join(cur@, ".scope"@)));
                break;
            },
        }
    }
    let ghost own = out@.map_values(|s: String| s@);
    match home {
        Some(h) => {
            out.push(join_path(h, ".scope"));
            assert(out@.map_values(|s: String| s@) =~= own.push(path_join(h@, ".scope"@)));
        },
        None => {},
    }
    let ghost with_home = out@.map_values(|s: String| s@);
    match config_dir {
        Some(c) => {
            out.push(join_path(c, ".scope"));
            assert(out@.map_values(|s: String| s@) =~= with_home.push(path_join(c@, ".scope"@)));
        },
        None => {},
    }
    out
}

/// The `PATH` commands run with: each configuration directory's `bin` directory, then the
/// inherited `PATH`, separated by `:`.
pub fn scope_bin_path(config_paths: &Vec<String>, default_path: &str) -> (r: String)
    ensures
        r@ == join_with(
            seq![join_with(config_paths@.map_values(|p: String| path_join(p@, "bin"@)), ':'), default_path@],
            ':',
        ),
{
    let mut bins: Vec<String> = Vec::new();
    let mut i: usize = 0;
    while i < config_paths.len()
        invariant
            i <= config_paths@.len(),
            bins@.len() == i,
            forall|k: int| 0 <= k < i ==> (#[trigger] bins@[k])@ == path_join(config_paths@[k]@, "bin"@),
        decreases config_paths@.len() - i,
    {
        bins.push(join_path(config_paths[i].as_str(), "bin"));
        i = i + 1;
    }
    assert(bins@.map_values(|s: String| s@) =~= config_paths@.map_values(|p: String| path_join(p@, "bin"@)));
    let scope_path = join_strings(bins.as_slice(), ':');
    let parts = vec![scope_path, default_path.to_owned()];
    assert(parts@.map_values(|s: String| s@) =~= seq![
        join_with(config_paths@.map_values(|p: String| path_join(p@, "bin"@)), ':'),
        default_path@,
    ]);
    join_strings(parts.as_slice(), ':')
}

/// Whether `s` ends with `suffix`.
pub fn ends_with(s: &str, suffix: &str) -> (r: bool)
    ensures
        r == (suffix@.len() <= s@.len() && s@.skip(s@.len() - suffix@.len()) == suffix@),
{
    let x = chars_of(s);
    let p = chars_of(suffix);
    if p.len() > x.len() {
        return false;
    }
    let off = x.len() - p.len();
    let mut i: usize = 0;
    while i < p.len()
        invariant
            i <= p.len(),
            off + p.len() == x.len(),
            x@ == s@,
            p@ == suffix@,
            forall|k: int| 0 <= k < i ==> x@[off + k] == p@[k],
        decreases p.len() - i,
    {
        if x[off + i] != p[i] {
            assert(s@.skip(off as int)[i as int] != suffix@[i as int]);
            return false;
        }
        i = i + 1;
    }
    assert(s@.skip(off as int) =~= suffix@);
    true
}

/// Whether a file is a configuration file: its name ends in `.yaml` or `.yml`.
pub fn has_config_extension(path: &str) -> (r: bool)
    ensures
        r == ((path@.len() >= 5 && path@.skip(path@.len() - 5) == ".yaml"@) || (path@.len() >= 4
            && path@.skip(path@.len() - 4) == ".yml"@)),
{
    proof {
        reveal_strlit(".yaml");
        reveal_strlit(".yml");
    }
    ends_with(path, ".yaml") || ends_with(path, ".yml")
}

/// The names of a list of resources, in order.
pub open spec fn group_names(v: Seq<DoctorGroup>) -> Seq<Seq<char>> {
    v.map_values(|g: DoctorGroup| g.metadata.name@)
}

pub open spec fn error_names(v: Seq<KnownError>) -> Seq<Seq<char>> {
    v.map_values(|k: KnownError| k.metadata.name@)
}

pub open spec fn location_names(v: Seq<ReportUploadLocation>) -> Seq<Seq<char>> {
    v.map_values(|l: ReportUploadLocation| l.metadata.name@)
}

/// The resources that were loaded, by kind; within a kind each name occurs once, and the
/// first resource loaded under a name is the one kept.
pub struct LoadedModels {
    pub doctor_group: Vec<DoctorGroup>,
    pub known_error: Vec<KnownError>,
    pub report_upload: Vec<ReportUploadLocation>,
}

impl LoadedModels {
    /// No name occurs twice within a kind.
    pub open spec fn wf(&self) -> bool {
        group_names(self.doctor_group@).no_duplicates() && error_names(self.known_error@).no_duplicates()
            && location_names(self.report_upload@).no_duplicates()
    }

    /// Nothing loaded yet.
    pub fn new() -> (r: LoadedModels)
        ensures
            r.wf(),
            r.doctor_group@.len() == 0,
            r.known_error@.len() == 0,
            r.report_upload@.len() == 0,
    {
        LoadedModels { doctor_group: Vec::new(), known_error: Vec::new(), report_upload: Vec::new() }
    }

    /// Adds a resource unless one of its kind with the same name is already there; returns
    /// the full name of the resource dropped as a duplicate, if any.
    pub fn add_model(&mut self, parsed_config: ParsedConfig) -> (dropped: Option<String>)
        requires
            old(self).wf(),
        ensures
            final(self).wf(),
            match parsed_config {
                ParsedConfig::DoctorGroup(g) => {
                    &&& final(self).known_error == old(self).known_error
                    &&& final(self).report_upload == old(self).report_upload
                    &&& if group_names(old(self).doctor_group@).contains(g.metadata.name@) {
                        final(self).doctor_group == old(self).doctor_group && (dropped matches Some(n) && n@ == g.full_name@)
                    } else {
                        final(self).doctor_group@ == old(self).doctor_group@.push(g) && dropped is None
                    }
                },
                ParsedConfig::KnownError(k) => {
                    &&& final(self).doctor_group == old(self).doctor_group
                    &&& final(self).report_upload == old(self).report_upload
                    &&& if error_names(old(self).known_error@).contains(k.metadata.name@) {
                        final(self).known_error == old(self).known_error && (dropped matches Some(n) && n@ == k.full_name@)
                    } else {
                        final(self).known_error@ == old(self).known_error@.push(k) && dropped is None
                    }
                },
                ParsedConfig::ReportUpload(l) => {
                    &&& final(self).doctor_group == old(self).doctor_group
                    &&& final(self).known_error == old(self).known_error
                    &&& if location_names(old(self).report_upload@).contains(l.metadata.name@) {
                        final(self).report_upload == old(self).report_upload && (dropped matches Some(n) && n@ == l.full_name@)
                    } else {
                        final(self).report_upload@ == old(self).report_upload@.push(l) && dropped is None
                    }
                },
            },
    {
        let ghost pc = parsed_config;
        match parsed_config {
            ParsedConfig::DoctorGroup(g) => {
                let mut i: usize = 0;
                while i < self.doctor_group.len()
                    invariant
                        i <= self.doctor_group@.len(),
                        *self == *old(self),
                        old(self).wf(),
                        pc == ParsedConfig::DoctorGroup(g),
                        pc == parsed_config,
                        forall|k: int| 0 <= k < i ==> (#[trigger] self.doctor_group@[k]).metadata.name@ != g.metadata.name@,
                    decreases self.doctor_group@.len() - i,
                {
                    if str_eq(self.doctor_group[i].metadata.name.as_str(), g.metadata.name.as_str()) {
                        assert(group_names(self.doctor_group@)[i as int] == g.metadata.name@);
                        assert(group_names(self.doctor_group@).contains(g.metadata.name@));
                        return Some(copy_string(&g.full_name));
                    }
                    i = i + 1;
                }
                let ghost before = self.doctor_group@;
                assert(!group_names(before).contains(g.metadata.name@)) by {
                    if group_names(before).contains(g.metadata.name@) {
                        let k = choose|k: int| 0 <= k < group_names(before).len() && group_names(before)[k] == g.metadata.name@;
                        assert(before[k].metadata.name@ == g.metadata.name@);
                    }
                }
                self.doctor_group.push(g);
                assert(group_names(self.doctor_group@) =~= group_names(before).push(g.metadata.name@));
                None
            },
            ParsedConfig::KnownError(k) => {
                let mut i: usize = 0;
                while i < self.known_error.len()
                    invariant
                        i <= self.known_error@.len(),
                        *self == *old(self),
                        old(self).wf(),
                        pc == ParsedConfig::KnownError(k),
                        pc == parsed_config,
                        forall|j: int| 0 <= j < i ==> (#[trigger] self.known_error@[j]).metadata.name@ != k.metadata.name@,
                    decreases self.known_error@.len() - i,
                {
                    if str_eq(self.known_error[i].metadata.name.as_str(), k.metadata.name.as_str()) {
                        assert(error_names(self.known_error@)[i as int] == k.metadata.name@);
                        assert(error_names(self.known_error@).contains(k.metadata.name@));
                        return Some(copy_string(&k.full_name));
                    }
                    i = i + 1;
                }
                let ghost before = self.known_error@;
                assert(!error_names(before).contains(k.metadata.name@)) by {
                    if error_names(before).contains(k.metadata.name@) {
                        let j = choose|j: int| 0 <= j < error_names(before).len() && error_names(before)[j] == k.metadata.name@;
                        assert(before[j].metadata.name@ == k.metadata.name@);
                    }
                }
                self.known_error.push(k);
                assert(error_names(self.known_error@) =~= error_names(before).push(k.metadata.name@));
                None
            },
            ParsedConfig::ReportUpload(l) => {
                let mut i: usize = 0;
                while i < self.report_upload.len()
                    invariant
                        i <= self.report_upload@.len(),
                        *self == *old(self),
                        old(self).wf(),
                        pc == ParsedConfig::ReportUpload(l),
                        pc == parsed_config,
                        forall|j: int| 0 <= j < i ==> (#[trigger] self.report_upload@[j]).metadata.name@ != l.metadata.name@,
                    decreases self.report_upload@.len() - i,
                {
                    if str_eq(self.report_upload[i].metadata.name.as_str(), l.metadata.name.as_str()) {
                        assert(location_names(self.report_upload@)[i as int] == l.metadata.name@);
                        assert(location_names(self.report_upload@).contains(l.metadata.name@));
                        return Some(copy_string(&l.full_name));
                    }
                    i = i + 1;
                }
                let ghost before = self.report_upload@;
                assert(!location_names(before).contains(l.metadata.name@)) by {
                    if location_names(before).contains(l.metadata.name@) {
                        let j = choose|j: int| 0 <= j < location_names(before).len() && location_names(before)[j] == l.metadata.name@;
                        assert(before[j].metadata.name@ == l.metadata.name@);
                    }
                }
                self.report_upload.push(l);
                assert(location_names(self.report_upload@) =~= location_names(before).push(l.metadata.name@));
                None
            },
        }
    }
}

/// Where the merged configuration of a run is written.
pub fn raw_config_path(run_id: &str) -> (r: String)
    ensures
        r@ == "/tmp/scope/config-"@ + run_id@ + ".json"@,
{
    let mut out = chars_of("/tmp/scope/config-");
    let id = chars_of(run_id);
    let ext = chars_of(".json");
    let ghost base = out@;
    let mut i: usize = 0;
    while i < id.len()
        invariant
            i <= id@.len(),
            out@ == base + id@.take(i as int),
        decreases id@.len() - i,
    {
        out.push(id[i]);
        assert(id@.take(i as int + 1) =~= id@.take(i as int).push(id@[i as int]));
        i = i + 1;
    }
    assert(id@.take(i as int) =~= id@);
    let ghost mid = out@;
    let mut j: usize = 0;
    while j < ext.len()
        invariant
            j <= ext@.len(),
            out@ == mid + ext@.take(j as int),
        decreases ext@.len() - j,
    {
        out.push(ext[j]);
        assert(ext@.take(j as int + 1) =~= ext@.take(j as int).push(ext@[j as int]));
        j = j + 1;
    }
    assert(ext@.take(j as int) =~= ext@);
    string_from_chars(&out)
}

} // verus!
