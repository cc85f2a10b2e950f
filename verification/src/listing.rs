use vstd::prelude::*;

use crate::report::copy_string;
use crate::text::{chars_of, string_from_chars};

verus! {

/// The path of `path` relative to `base` as `pathdiff::diff_paths` computes it, as text.
pub uninterp spec fn path_diff(path: Seq<char>, base: Seq<char>) -> Option<Seq<char>>;

/// `pathdiff::diff_paths`, displayed.
/// Contract: the result is the one `path_diff` names for the two paths.
#[verifier::external_body]
fn diff_paths(path: &str, base: &str) -> (r: Option<String>)
    ensures
        match r {
            Some(p) => path_diff(path@, base@) == Some(p@),
            None => path_diff(path@, base@) is None,
        },
{
    pathdiff::diff_paths(path, base).map(|p| p.display().to_string())
}

/// One row of a resource listing.
#[derive(Debug, Clone, PartialEq)]
pub struct DetailRow {
    pub name: String,
    pub description: String,
    pub location: String,
}

/// The number of bytes `c` takes in UTF-8.
pub open spec fn char_utf8_len(c: char) -> nat {
    if (c as u32) < 0x80 {
        1
    } else if (c as u32) < 0x800 {
        2
    } else if (c as u32) < 0x10000 {
        3
    } else {
        4
    }
}

/// The number of bytes `s` takes in UTF-8 (what `str::len` counts).
pub open spec fn utf8_len(s: Seq<char>) -> nat
    decreases s.len(),
{
    if s.len() == 0 {
        0
    } else {
        utf8_len(s.drop_last()) + char_utf8_len(s.last())
    }
}

/// The first `k` characters of `s` take exactly `n` bytes: a byte position `n` that is a
/// character boundary.
pub open spec fn byte_boundary(s: Seq<char>, n: int, k: int) -> bool {
    0 <= k <= s.len() && utf8_len(s.take(k)) == n
}

/// The number of characters in the first `n` bytes of `s` (when `n` is a boundary).
pub open spec fn chars_in_bytes(s: Seq<char>, n: int) -> int {
    choose|k: int| byte_boundary(s, n, k)
}

/// `String::truncate` and `String::split_off` at byte `n` of `s` do not panic: `n` lies on a
/// character boundary.
pub open spec fn cut_ok(s: Seq<char>, n: int) -> bool {
    exists|k: int| byte_boundary(s, n, k)
}

/// A description may be listed: when it takes more than 55 bytes, byte 55 is a boundary.
pub open spec fn description_listable(d: Seq<char>) -> bool {
    utf8_len(d) > 55 ==> cut_ok(d, 55)
}

/// A path may be shortened: when it takes more than 35 bytes, the last 35 bytes start at a
/// boundary.
pub open spec fn location_listable(loc: Seq<char>) -> bool {
    utf8_len(loc) > 35 ==> cut_ok(loc, utf8_len(loc) - 35)
}

/// A description as listed: when it takes more than 55 bytes, its first 55 bytes followed by
/// `...`.
pub open spec fn listed_description(d: Seq<char>) -> Seq<char> {
    if utf8_len(d) > 55 {
        d.take(chars_in_bytes(d, 55)) + "..."@
    } else {
        d
    }
}

/// A location as listed: relative to the working directory when possible, else, when it
/// takes more than 35 bytes, `...` followed by its last 35 bytes.
pub open spec fn listed_location(loc: Seq<char>, working_dir: Seq<char>) -> Seq<char> {
    match path_diff(loc, working_dir) {
        Some(p) => p,
        None => if utf8_len(loc) > 35 {
            "..."@ + loc.skip(chars_in_bytes(loc, utf8_len(loc) - 35))
        } else {
            loc
        },
    }
}

proof fn lemma_utf8_len_take_step(s: Seq<char>, k: int)
    requires
        0 <= k < s.len(),
    ensures
        utf8_len(s.take(k + 1)) == utf8_len(s.take(k)) + char_utf8_len(s[k]),
{
    assert(s.take(k + 1).drop_last() =~= s.take(k));
}

/// Byte counts of prefixes grow with every character.
proof fn lemma_utf8_len_increasing(s: Seq<char>, a: int, b: int)
    requires
        0 <= a < b <= s.len(),
    ensures
        utf8_len(s.take(a)) < utf8_len(s.take(b)),
    decreases b - a,
{
    lemma_utf8_len_take_step(s, b - 1);
    if a < b - 1 {
        lemma_utf8_len_increasing(s, a, b - 1);
    }
}

/// At most one prefix takes exactly `n` bytes.
proof fn lemma_boundary_unique(s: Seq<char>, n: int, k: int)
    requires
        byte_boundary(s, n, k),
    ensures
        chars_in_bytes(s, n) == k,
{
    let c = chars_in_bytes(s, n);
    assert(byte_boundary(s, n, c));
    if c < k {
        lemma_utf8_len_increasing(s, c, k);
    } else if k < c {
        lemma_utf8_len_increasing(s, k, c);
    }
}

proof fn lemma_utf8_len_bound(s: Seq<char>)
    ensures
        utf8_len(s) <= 4 * s.len(),
    decreases s.len(),
{
    if s.len() > 0 {
        lemma_utf8_len_bound(s.drop_last());
    }
}

fn utf8_len_of(c: char) -> (r: usize)
    ensures
        r == char_utf8_len(c),
{
    let code = c as u32;
    if code < 0x80 {
        1
    } else if code < 0x800 {
        2
    } else if code < 0x10000 {
        3
    } else {
        4
    }
}

/// The byte count of each prefix of `s`, as long as it stays within `limit`: returns the
/// number of characters `k` whose prefix takes exactly `n` bytes, or, when there is none,
/// `s.len() + 1`.
fn boundary_at(s: &Vec<char>, n: usize) -> (k: usize)
    requires
        s@.len() < usize::MAX,
    ensures
        k <= s@.len() ==> byte_boundary(s@, n as int, k as int),
        k > s@.len() ==> !cut_ok(s@, n as int),
{
    let mut bytes: usize = 0;
    let mut i: usize = 0;
    while i < s.len()
        invariant
            i <= s@.len(),
            s@.len() < usize::MAX,
            bytes == utf8_len(s@.take(i as int)),
            bytes <= n,
            forall|j: int| 0 <= j < i ==> utf8_len(s@.take(j)) < n,
        decreases s@.len() - i,
    {
        if bytes == n {
            return i;
        }
        proof {
            lemma_utf8_len_take_step(s@, i as int);
        }
        let next = utf8_len_of(s[i]);
        if next > n - bytes {
            proof {
                assert forall|k: int| !byte_boundary(s@, n as int, k) by {
                    if 0 <= k <= s@.len() && utf8_len(s@.take(k)) == n {
                        if k > i {
                            if k > i + 1 {
                                lemma_utf8_len_increasing(s@, i as int + 1, k);
                            }
                        }
                    }
                }
            }
            return s.len() + 1;
        }
        bytes = bytes + next;
        i = i + 1;
    }
    if bytes == n {
        return i;
    }
    proof {
        assert(s@.take(s@.len() as int) =~= s@);
        assert forall|k: int| !byte_boundary(s@, n as int, k) by {
            if 0 <= k <= s@.len() && utf8_len(s@.take(k)) == n {
                if k < s@.len() {
                    lemma_utf8_len_increasing(s@, k, s@.len() as int);
                }
            }
        }
    }
    s.len() + 1
}

/// The number of bytes `s` takes in UTF-8.
fn utf8_len_of_chars(s: &Vec<char>) -> (r: usize)
    requires
        s@.len() < usize::MAX / 4,
    ensures
        r == utf8_len(s@),
{
    let mut bytes: usize = 0;
    let mut i: usize = 0;
    while i < s.len()
        invariant
            i <= s@.len(),
            s@.len() < usize::MAX / 4,
            bytes == utf8_len(s@.take(i as int)),
            bytes <= 4 * i,
        decreases s@.len() - i,
    {
        proof {
            lemma_utf8_len_take_step(s@, i as int);
        }
        bytes = bytes + utf8_len_of(s[i]);
        i = i + 1;
    }
    assert(s@.take(s@.len() as int) =~= s@);
    bytes
}

fn append_chars(out: &mut Vec<char>, src: &Vec<char>, from: usize, to: usize)
    requires
        from <= to <= src@.len(),
    ensures
        final(out)@ == old(out)@ + src@.subrange(from as int, to as int),
{
    let ghost base = out@;
    let mut i: usize = from;
    while i < to
        invariant
            from <= i <= to,
            to <= src@.len(),
            out@ == base + src@.subrange(from as int, i as int),
        decreases to - i,
    {
        out.push(src[i]);
        assert(src@.subrange(from as int, i as int + 1) =~= src@.subrange(from as int, i as int).push(src@[i as int]));
        i = i + 1;
    }
}

/// The row listing one resource; `None` when the description or the path would be cut inside
/// a character (where `String::truncate` or `String::split_off` would panic).
pub fn detail_row(full_name: &str, description: &str, file_path: &str, working_dir: &str) -> (r: Option<DetailRow>)
    requires
        description@.len() < usize::MAX / 4,
        file_path@.len() < usize::MAX / 4,
    ensures
        r is Some <==> description_listable(description@) && (path_diff(file_path@, working_dir@) is Some
            || location_listable(file_path@)),
        r matches Some(row) ==> row.name@ == full_name@ && row.description@ == listed_description(description@)
            && row.location@ == listed_location(file_path@, working_dir@),
{
    let d = chars_of(description);
    let description = if utf8_len_of_chars(&d) > 55 {
        let k = boundary_at(&d, 55);
        if k > d.len() {
            return None;
        }
        proof {
            lemma_boundary_unique(d@, 55, k as int);
        }
        let mut out: Vec<char> = Vec::new();
        append_chars(&mut out, &d, 0, k);
        let dots = chars_of("...");
        append_chars(&mut out, &dots, 0, dots.len());
        assert(d@.subrange(0, k as int) =~= d@.take(k as int));
        assert(dots@.subrange(0, dots@.len() as int) =~= dots@);
        string_from_chars(&out)
    } else {
        string_from_chars(&d)
    };
    let location = match diff_paths(file_path, working_dir) {
        Some(p) => p,
        None => {
            let l = chars_of(file_path);
            let total = utf8_len_of_chars(&l);
            if total > 35 {
                let k = boundary_at(&l, total - 35);
                if k > l.len() {
                    return None;
                }
                proof {
                    lemma_boundary_unique(l@, total - 35, k as int);
                }
                let mut out = chars_of("...");
                append_chars(&mut out, &l, k, l.len());
                assert(l@.subrange(k as int, l@.len() as int) =~= l@.skip(k as int));
                string_from_chars(&out)
            } else {
                string_from_chars(&l)
            }
        },
    };
    Some(DetailRow { name: full_name.to_owned(), description, location })
}

/// The width of the name column: the longest name in bytes (20 when there is none), at
/// least 20, plus 2.
pub open spec fn name_width(names: Seq<String>) -> int {
    let longest = max_len(names);
    (if names.len() == 0 { 20 } else if longest > 20 { longest } else { 20 }) + 2
}

/// The byte length of the longest name (0 when there is none).
pub open spec fn max_len(names: Seq<String>) -> int
    decreases names.len(),
{
    if names.len() == 0 {
        0
    } else {
        let m = max_len(names.drop_last());
        if utf8_len(names.last()@) > m { utf8_len(names.last()@) as int } else { m }
    }
}

/// The width of the name column for these names.
pub fn name_column_width(names: &Vec<String>) -> (r: usize)
    requires
        forall|i: int| 0 <= i < names@.len() ==> (#[trigger] names@[i])@.len() < usize::MAX / 8,
    ensures
        r == name_width(names@),
{
    let mut m: usize = 0;
    let mut i: usize = 0;
    while i < names.len()
        invariant
            i <= names@.len(),
            forall|k: int| 0 <= k < names@.len() ==> (#[trigger] names@[k])@.len() < usize::MAX / 8,
            m == max_len(names@.take(i as int)),
            m < usize::MAX / 2,
        decreases names@.len() - i,
    {
        assert(names@.take(i as int + 1).drop_last() =~= names@.take(i as int));
        let cs = chars_of(names[i].as_str());
        let n = utf8_len_of_chars(&cs);
        proof {
            lemma_utf8_len_bound(cs@);
        }
        if n > m {
            m = n;
        }
        i = i + 1;
    }
    assert(names@.take(i as int) =~= names@);
    if names.len() == 0 {
        22
    } else if m > 20 {
        m + 2
    } else {
        22
    }
}

/// The command line of an external sub-command: its name prefixed with `scope-`, then its
/// arguments; none when no sub-command is given.
pub fn sub_command_args(args: &Vec<String>) -> (r: Option<Vec<String>>)
    ensures
        args@.len() == 0 ==> r is None,
        args@.len() > 0 ==> (r matches Some(v) && v@.len() == args@.len() && v@[0]@ == "scope-"@ + args@[0]@
            && forall|i: int| 1 <= i < args@.len() ==> (#[trigger] v@[i])@ == args@[i]@),
{
    if args.len() == 0 {
        return None;
    }
    let mut first = chars_of("scope-");
    let a = chars_of(args[0].as_str());
    append_chars(&mut first, &a, 0, a.len());
    assert(a@.subrange(0, a@.len() as int) =~= a@);
    let mut out: Vec<String> = Vec::new();
    out.push(string_from_chars(&first));
    let mut i: usize = 1;
    while i < args.len()
        invariant
            1 <= i <= args@.len(),
            out@.len() == i,
            out@[0]@ == "scope-"@ + args@[0]@,
            forall|k: int| 1 <= k < i ==> (#[trigger] out@[k])@ == args@[k]@,
        decreases args@.len() - i,
    {
        out.push(copy_string(&args[i]));
        i = i + 1;
    }
    Some(out)
}

} // verus!
