use vstd::prelude::*;

verus! {

/// Splits `s` at every space, the way `str::split(' ')` does: there is always at
/// least one piece, and `n` spaces give `n + 1` pieces (some possibly empty).
pub open spec fn split_spaces(s: Seq<char>) -> Seq<Seq<char>>
    decreases s.len(),
{
    if s.len() == 0 {
        seq![Seq::<char>::empty()]
    } else {
        let pre = split_spaces(s.drop_last());
        if s.last() == ' ' {
            pre.push(Seq::<char>::empty())
        } else {
            pre.update(pre.len() - 1, pre.last().push(s.last()))
        }
    }
}

/// Joins pieces with a single space between neighbours (`[..].join(" ")`).
pub open spec fn join_spaces(parts: Seq<Seq<char>>) -> Seq<char>
    decreases parts.len(),
{
    if parts.len() == 0 {
        Seq::<char>::empty()
    } else if parts.len() == 1 {
        parts[0]
    } else {
        join_spaces(parts.drop_last()) + seq![' '] + parts.last()
    }
}

pub proof fn lemma_split_nonempty(s: Seq<char>)
    ensures
        split_spaces(s).len() >= 1,
    decreases s.len(),
{
    if s.len() > 0 {
        lemma_split_nonempty(s.drop_last());
    }
}

proof fn lemma_join_push_last(parts: Seq<Seq<char>>, c: char)
    requires
        parts.len() >= 1,
    ensures
        join_spaces(parts.update(parts.len() - 1, parts.last().push(c))) == join_spaces(parts).push(c),
{
    let up = parts.update(parts.len() - 1, parts.last().push(c));
    if parts.len() == 1 {
        assert(up[0] == parts[0].push(c));
    } else {
        assert(up.drop_last() =~= parts.drop_last());
        assert(join_spaces(up) == join_spaces(up.drop_last()) + seq![' '] + up.last());
        assert(join_spaces(up) =~= join_spaces(parts).push(c));
    }
}

/// Splitting at spaces and joining with spaces gives the text back.
pub proof fn lemma_join_split(s: Seq<char>)
    ensures
        join_spaces(split_spaces(s)) == s,
    decreases s.len(),
{
    if s.len() == 0 {
    } else {
        let pre = split_spaces(s.drop_last());
        lemma_split_nonempty(s.drop_last());
        lemma_join_split(s.drop_last());
        if s.last() == ' ' {
            let parts = pre.push(Seq::<char>::empty());
            assert(parts.drop_last() =~= pre);
            assert(join_spaces(parts) =~= s.drop_last() + seq![' '] + Seq::<char>::empty());
            assert(join_spaces(parts) =~= s);
        } else {
            lemma_join_push_last(pre, s.last());
            assert(s.drop_last().push(s.last()) =~= s);
        }
    }
}

/// Joining one more piece onto a prefix of pieces.
proof fn lemma_join_take_step(parts: Seq<Seq<char>>, i: int)
    requires
        0 < i < parts.len(),
    ensures
        join_spaces(parts.take(i + 1)) == join_spaces(parts.take(i)) + seq![' '] + parts[i],
{
    assert(parts.take(i + 1).drop_last() =~= parts.take(i));
}

/// The words of `s` as separated by single spaces.
pub fn split_words(s: &Vec<char>) -> (words: Vec<Vec<char>>)
    ensures
        words@.map_values(|w: Vec<char>| w@) == split_spaces(s@),
{
    let mut done: Vec<Vec<char>> = Vec::new();
    let mut cur: Vec<char> = Vec::new();
    let mut i: usize = 0;
    while i < s.len()
        invariant
            i <= s.len(),
            done@.map_values(|w: Vec<char>| w@).push(cur@) == split_spaces(s@.take(i as int)),
        decreases s.len() - i,
    {
        let ghost before = done@.map_values(|w: Vec<char>| w@).push(cur@);
        let c = s[i];
        assert(s@.take(i as int + 1).drop_last() =~= s@.take(i as int));
        if c == ' ' {
            let finished = cur;
            done.push(finished);
            cur = Vec::new();
            assert(done@.map_values(|w: Vec<char>| w@).push(cur@) =~= before.push(Seq::<char>::empty()));
        } else {
            cur.push(c);
            assert(done@.map_values(|w: Vec<char>| w@).push(cur@) =~= before.update(
                before.len() - 1,
                before.last().push(c),
            ));
        }
        i = i + 1;
    }
    assert(s@.take(s.len() as int) =~= s@);
    done.push(cur);
    done
}

/// Joins words with one space between neighbours.
pub fn join_words(words: &Vec<Vec<char>>) -> (out: Vec<char>)
    ensures
        out@ == join_spaces(words@.map_values(|w: Vec<char>| w@)),
{
    let ghost parts = words@.map_values(|w: Vec<char>| w@);
    let mut out: Vec<char> = Vec::new();
    let mut i: usize = 0;
    while i < words.len()
        invariant
            i <= words.len(),
            parts == words@.map_values(|w: Vec<char>| w@),
            out@ == join_spaces(parts.take(i as int)),
        decreases words.len() - i,
    {
        if i > 0 {
            out.push(' ');
        }
        let w = &words[i];
        let mut j: usize = 0;
        let ghost start = out@;
        while j < w.len()
            invariant
                j <= w.len(),
                out@ == start + w@.take(j as int),
            decreases w.len() - j,
        {
            out.push(w[j]);
            assert(w@.take(j as int + 1) =~= w@.take(j as int).push(w@[j as int]));
            j = j + 1;
        }
        assert(w@.take(w.len() as int) =~= w@);
        proof {
            if i == 0 {
                assert(parts.take(1) =~= seq![parts[0]]);
                assert(out@ =~= join_spaces(parts.take(1)));
            } else {
                lemma_join_take_step(parts, i as int);
                assert(out@ =~= join_spaces(parts.take(i as int + 1)));
            }
        }
        i = i + 1;
    }
    assert(parts.take(words.len() as int) =~= parts);
    out
}

} // verus!
