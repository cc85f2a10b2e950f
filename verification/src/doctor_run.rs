use vstd::prelude::*;

use crate::command::path_join;
use crate::names::texts;
use crate::report::copy_string;
use crate::runner::compute_group_order;
use crate::text::{chars_of, str_eq, string_from_chars};
use crate::v1alpha::{copy_strings, opt_text};

verus! {

/// Options of `scope doctor run`.
#[derive(Debug, Clone, PartialEq)]
pub struct DoctorRunArgs {
    /// When set, only the groups listed run.
    pub only: Option<Vec<String>>,
    /// Whether fixes run (they do unless this is `Some(false)`).
    pub fix: Option<bool>,
    /// Where the cache is kept between runs.
    pub cache_dir: Option<String>,
    /// When set, no cache is used and every file-based check runs.
    pub no_cache: bool,
    /// When set, a report is created on failure without asking.
    pub auto_publish_report: bool,
}

impl Default for DoctorRunArgs {
    fn default() -> (r: Self)
        ensures
            r.only is None,
            r.fix is None,
            r.cache_dir is None,
            !r.no_cache,
            !r.auto_publish_report,
    {
        DoctorRunArgs { only: None, fix: None, cache_dir: None, no_cache: false, auto_publish_report: false }
    }
}

impl DoctorRunArgs {
    /// Whether fixes run: unless explicitly turned off.
    pub fn run_fix(&self) -> (r: bool)
        ensures
            r == (match self.fix {
                Some(b) => b,
                None => true,
            }),
    {
        match self.fix {
            Some(b) => b,
            None => true,
        }
    }
}

/// Options of `scope doctor list` (there are none).
#[derive(Debug, Clone, PartialEq, Default)]
pub struct DoctorListArgs {}

/// The cache a run uses: none, or the one kept in a file.
#[derive(Debug, Clone, PartialEq)]
pub enum CacheChoice {
    NoOp,
    File { path: String },
}

impl CacheChoice {
    /// The cache file, if the cache is kept in one.
    pub fn path(&self) -> (r: Option<String>)
        ensures
            match self {
                CacheChoice::NoOp => r is None,
                CacheChoice::File { path } => r matches Some(p) && p@ == path@,
            },
    {
        match self {
            CacheChoice::NoOp => None,
            CacheChoice::File { path } => Some(copy_string(path)),
        }
    }
}

pub open spec fn cache_file_name() -> Seq<char> {
    "cache-file.json"@
}

/// The directory the cache is kept in: the one asked for, else the default.
pub open spec fn chosen_cache_dir(args: DoctorRunArgs, default_cache_dir: Option<String>) -> Seq<char> {
    match args.cache_dir {
        Some(d) => d@,
        None => opt_text(default_cache_dir),
    }
}

/// Joins a relative `child` onto `parent` as `Path::join` does.
pub fn join_path(parent: &str, child: &str) -> (r: String)
    ensures
        r@ == path_join(parent@, child@),
{
    let p = chars_of(parent);
    let c = chars_of(child);
    let mut out: Vec<char> = Vec::new();
    let mut i: usize = 0;
    while i < p.len()
        invariant
            i <= p.len(),
            out@ == p@.take(i as int),
        decreases p.len() - i,
    {
        out.push(p[i]);
        assert(p@.take(i as int + 1) =~= p@.take(i as int).push(p@[i as int]));
        i = i + 1;
    }
    assert(p@.take(p.len() as int) =~= p@);
    if p.len() > 0 && p[p.len() - 1] != '/' {
        out.push('/');
    }
    let ghost base = out@;
    let mut j: usize = 0;
    while j < c.len()
        invariant
            j <= c.len(),
            out@ == base + c@.take(j as int),
        decreases c.len() - j,
    {
        out.push(c[j]);
        assert(c@.take(j as int + 1) =~= c@.take(j as int).push(c@[j as int]));
        j = j + 1;
    }
    assert(c@.take(c.len() as int) =~= c@);
    assert(out@ =~= path_join(parent@, child@));
    string_from_chars(&out)
}

/// Decides the cache of a run: none when the cache is turned off; otherwise the file
/// `cache-file.json` in the directory asked for, or in `default_cache_dir` (the user's cache
/// directory for scope) when none is asked for.
pub fn get_cache(args: &DoctorRunArgs, default_cache_dir: Option<&str>) -> (r: CacheChoice)
    requires
        !args.no_cache && args.cache_dir is None ==> default_cache_dir is Some,
    ensures
        args.no_cache ==> r == CacheChoice::NoOp,
        !args.no_cache ==> (r matches CacheChoice::File { path } && path@ == path_join(
            match args.cache_dir {
                Some(d) => d@,
                None => default_cache_dir->Some_0@,
            },
            cache_file_name(),
        )),
{
    if args.no_cache {
        return CacheChoice::NoOp;
    }
    let dir = match &args.cache_dir {
        Some(d) => copy_string(d),
        None => match default_cache_dir {
            Some(d) => d.to_owned(),
            None => String::new(),
        },
    };
    CacheChoice::File { path: join_path(dir.as_str(), "cache-file.json") }
}

pub open spec fn old_cache_dir() -> Seq<char> {
    "/tmp/scope"@
}

/// Where the cache was kept before it moved to the user's cache directory.
pub fn old_default_cache_path() -> (r: String)
    ensures
        r@ == path_join(old_cache_dir(), cache_file_name()),
{
    join_path("/tmp/scope", "cache-file.json")
}

/// A cache left in the old location moves to the new one when the run does not use the old
/// directory itself, the old file exists and the new one does not.
pub fn should_migrate(cache_dir: &str, old_exists: bool, new_exists: bool) -> (r: bool)
    ensures
        r == (cache_dir@ != old_cache_dir() && old_exists && !new_exists),
{
    !str_eq(cache_dir, "/tmp/scope") && old_exists && !new_exists
}

/// Whether a group runs: the groups listed with `--only`, else those that run by default.
pub fn should_group_run(only: &Option<Vec<String>>, run_by_default: bool, name: &str) -> (r: bool)
    ensures
        r == (match only {
            None => run_by_default,
            Some(names) => texts(names@).contains(name@),
        }),
{
    match only {
        None => run_by_default,
        Some(names) => {
            let mut i: usize = 0;
            while i < names.len()
                invariant
                    i <= names@.len(),
                    *only == Some(*names),
                    forall|k: int| 0 <= k < i ==> (#[trigger] names@[k])@ != name@,
                decreases names@.len() - i,
            {
                if str_eq(names[i].as_str(), name) {
                    assert(texts(names@).len() == names@.len());
                    assert(texts(names@)[i as int] == name@);
                    assert(texts(names@).contains(name@));
                    return true;
                }
                i = i + 1;
            }
            assert(!texts(names@).contains(name@)) by {
                if texts(names@).contains(name@) {
                    let k = choose|k: int| 0 <= k < texts(names@).len() && texts(names@)[k] == name@;
                    assert(names@[k]@ == name@);
                }
            }
            false
        },
    }
}

/// Whether the group `name` is wanted: listed with `--only`, else running by default.
pub open spec fn wanted(only: Option<Vec<String>>, run_by_default: bool, name: Seq<char>) -> bool {
    match only {
        None => run_by_default,
        Some(list) => texts(list@).contains(name),
    }
}

/// The names of the wanted groups, in the order given.
pub open spec fn selected(only: Option<Vec<String>>, names: Seq<String>, run_by_default: Seq<bool>) -> Seq<Seq<char>>
    decreases names.len(),
{
    if names.len() == 0 || run_by_default.len() != names.len() {
        Seq::empty()
    } else {
        let rest = selected(only, names.drop_last(), run_by_default.drop_last());
        if wanted(only, run_by_default.last(), names.last()@) {
            rest.push(names.last()@)
        } else {
            rest
        }
    }
}

/// The groups a run wants, from the groups' names and whether each runs by default, in the
/// order given.
pub fn desired_groups(only: &Option<Vec<String>>, names: &Vec<String>, run_by_default: &Vec<bool>) -> (r: Vec<String>)
    requires
        names@.len() == run_by_default@.len(),
    ensures
        texts(r@) == selected(*only, names@, run_by_default@),
{
    let mut out: Vec<String> = Vec::new();
    let mut i: usize = 0;
    while i < names.len()
        invariant
            i <= names@.len(),
            names@.len() == run_by_default@.len(),
            texts(out@) == selected(*only, names@.take(i as int), run_by_default@.take(i as int)),
        decreases names@.len() - i,
    {
        assert(names@.take(i as int + 1).drop_last() =~= names@.take(i as int));
        assert(run_by_default@.take(i as int + 1).drop_last() =~= run_by_default@.take(i as int));
        if should_group_run(only, run_by_default[i], names[i].as_str()) {
            let ghost before = out@;
            out.push(copy_string(&names[i]));
            assert(texts(out@) =~= texts(before).push(names@[i as int]@));
        }
        i = i + 1;
    }
    assert(names@.take(i as int) =~= names@);
    assert(run_by_default@.take(i as int) =~= run_by_default@);
    out
}

/// The order `scope doctor list` shows the groups in: every group, each once, in the run
/// order `compute_group_order` gives when every group is wanted.
pub fn generate_doctor_list(names: &Vec<String>, needs: &Vec<Vec<String>>) -> (r: Vec<String>)
    requires
        names@.len() == needs@.len(),
        names@.len() < usize::MAX,
        texts(names@).no_duplicates(),
    ensures
        forall|j: int| 0 <= j < names@.len() ==> texts(r@).contains(#[trigger] names@[j]@),
        forall|k: int| 0 <= k < r@.len() ==> texts(names@).contains(#[trigger] r@[k]@),
        texts(r@).no_duplicates(),
{
    let all = copy_strings(names);
    assert(texts(all@) =~= texts(names@));
    let r = compute_group_order(names, needs, &all);
    assert forall|j: int| 0 <= j < names@.len() implies texts(r@).contains(#[trigger] names@[j]@) by {
        assert(texts(all@)[j] == names@[j]@);
    }
    r
}

/// The exit code of a run: 0 when every group succeeded, else 1.
pub fn run_exit_code(did_succeed: bool) -> (r: i32)
    ensures
        r == (if did_succeed { 0i32 } else { 1i32 }),
{
    if did_succeed { 0 } else { 1 }
}

/// A report is offered after a run when it failed, some group failed and there is
/// somewhere to send reports.
pub fn should_offer_report(did_succeed: bool, failed_groups: usize, report_locations: usize) -> (r: bool)
    ensures
        r == (!did_succeed && failed_groups > 0 && report_locations > 0),
{
    !did_succeed && failed_groups > 0 && report_locations > 0
}

} // verus!
