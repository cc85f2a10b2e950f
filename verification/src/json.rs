use vstd::prelude::*;

use crate::capture::join_with;
use crate::text::chars_of;

verus! {

/// The digit character for `d` in `0..10`.
pub open spec fn decimal_digit(d: int) -> char {
    (48 + d) as char
}

/// The lowercase hexadecimal digit for `d` in `0..16`.
pub open spec fn hex_digit(d: int) -> char {
    if d < 10 {
        (48 + d) as char
    } else {
        (87 + d) as char
    }
}

/// How one character is written inside a JSON string: a quote or a backslash behind a
/// backslash, a control character as `\u00XX`, anything else as itself.
pub open spec fn escaped_char(c: char) -> Seq<char> {
    if c == '"' || c == '\\' {
        seq!['\\', c]
    } else if (c as u32) < 32 {
        seq!['\\', 'u', '0', '0', hex_digit((c as int) / 16), hex_digit((c as int) % 16)]
    } else {
        seq![c]
    }
}

/// The characters of `s`, each written as inside a JSON string.
pub open spec fn escaped(s: Seq<char>) -> Seq<char>
    decreases s.len(),
{
    if s.len() == 0 {
        Seq::empty()
    } else {
        escaped(s.drop_last()) + escaped_char(s.last())
    }
}

/// `s` as a JSON string.
pub open spec fn json_string(s: Seq<char>) -> Seq<char> {
    seq!['"'].add(escaped(s)).push('"')
}

/// The value of a hexadecimal digit (`0`-`9`, `a`-`f`; 0 for any other character).
pub open spec fn hex_value(c: char) -> int {
    if '0' <= c && c <= '9' {
        c as int - 48
    } else if 'a' <= c && c <= 'f' {
        c as int - 87
    } else {
        0
    }
}

/// The character a backslash and `c` stand for inside a JSON string: `\n`, `\r`, `\t`,
/// `\b`, `\f`, and otherwise `c` itself (`\"`, `\\`, `\/`).
pub open spec fn unescape_letter(c: char) -> char {
    if c == 'n' {
        '\n'
    } else if c == 'r' {
        '\r'
    } else if c == 't' {
        '\t'
    } else if c == 'b' {
        8 as char
    } else if c == 'f' {
        12 as char
    } else {
        c
    }
}

/// The characters the inside of a JSON string stands for: each `\uXXXX` is the character
/// of that code, each other backslash escape the character it names, anything else itself.
pub open spec fn json_unescape(t: Seq<char>) -> Seq<char>
    decreases t.len(),
{
    if t.len() == 0 {
        Seq::empty()
    } else if t[0] == '\\' && t.len() >= 6 && t[1] == 'u' {
        seq![(hex_value(t[2]) * 4096 + hex_value(t[3]) * 256 + hex_value(t[4]) * 16 + hex_value(t[5])) as char]
            + json_unescape(t.skip(6))
    } else if t[0] == '\\' && t.len() >= 2 {
        seq![unescape_letter(t[1])] + json_unescape(t.skip(2))
    } else {
        seq![t[0]] + json_unescape(t.skip(1))
    }
}

proof fn lemma_hex_digit_value(d: int)
    requires
        0 <= d < 16,
    ensures
        hex_value(hex_digit(d)) == d,
        hex_digit(d) as u32 >= 32,
{
}

proof fn lemma_char_code(c: char)
    ensures
        (c as u32) as int == c as int,
        0 <= c as int,
{
}

proof fn lemma_unescape_char(c: char, y: Seq<char>)
    ensures
        json_unescape(escaped_char(c) + y) == seq![c] + json_unescape(y),
{
    let z = escaped_char(c) + y;
    if c == '"' || c == '\\' {
        assert(z[0] == '\\' && z[1] == c);
        assert(z.skip(2) =~= y);
    } else if (c as u32) < 32 {
        let x = c as int;
        lemma_hex_digit_value(x / 16);
        lemma_hex_digit_value(x % 16);
        assert(z[1] == 'u' && z[2] == '0' && z[3] == '0');
        assert(z.skip(6) =~= y);
        assert(hex_value(z[2]) * 4096 + hex_value(z[3]) * 256 + hex_value(z[4]) * 16 + hex_value(z[5]) == x);
    } else {
        assert(z[0] == c);
        assert(z.skip(1) =~= y);
    }
}

/// Reading back the escaped characters of `t`, followed by anything, gives `t` followed by
/// what the rest reads as.
proof fn lemma_unescape_escaped(t: Seq<char>, y: Seq<char>)
    ensures
        json_unescape(escaped(t) + y) == t + json_unescape(y),
    decreases t.len(),
{
    if t.len() == 0 {
        assert(escaped(t) + y =~= y);
        assert(t + json_unescape(y) =~= json_unescape(y));
    } else {
        let c = t.last();
        let u = t.drop_last();
        assert(escaped(t) + y =~= escaped(u) + (escaped_char(c) + y));
        lemma_unescape_escaped(u, escaped_char(c) + y);
        lemma_unescape_char(c, y);
        assert(u + (seq![c] + json_unescape(y)) =~= t + json_unescape(y));
    }
}

/// No character of the escaped text is a control character.
proof fn lemma_escaped_no_control(s: Seq<char>)
    ensures
        forall|i: int| 0 <= i < escaped(s).len() ==> (#[trigger] escaped(s)[i]) as u32 >= 32,
    decreases s.len(),
{
    if s.len() > 0 {
        let c = s.last();
        lemma_escaped_no_control(s.drop_last());
        if (c as u32) < 32 && !(c == '"' || c == '\\') {
            lemma_char_code(c);
            lemma_hex_digit_value((c as int) / 16);
            lemma_hex_digit_value((c as int) % 16);
        }
        let a = escaped(s.drop_last());
        let b = escaped_char(c);
        assert forall|i: int| 0 <= i < escaped(s).len() implies (#[trigger] escaped(s)[i]) as u32 >= 32 by {
            if i < a.len() {
                assert(escaped(s)[i] == a[i]);
            } else {
                assert(escaped(s)[i] == b[i - a.len()]);
            }
        }
    }
}

/// `json_string(s)` is a well-formed JSON string for any text `s`: it is quoted, no
/// character of it is a control character (every one below U+0020 in `s` is escaped), and
/// what it holds between its quotes reads back as exactly `s`.
pub proof fn lemma_json_string_round_trip(s: Seq<char>)
    ensures
        json_string(s).len() >= 2,
        json_string(s)[0] == '"',
        json_string(s).last() == '"',
        forall|i: int| 0 <= i < json_string(s).len() ==> (#[trigger] json_string(s)[i]) as u32 >= 32,
        json_unescape(json_string(s).subrange(1, json_string(s).len() - 1)) == s,
{
    let e = escaped(s);
    let j = json_string(s);
    assert(j =~= seq!['"'] + e + seq!['"']);
    lemma_escaped_no_control(s);
    assert forall|i: int| 0 <= i < j.len() implies (#[trigger] j[i]) as u32 >= 32 by {
        if 0 < i < j.len() - 1 {
            assert(j[i] == e[i - 1]);
        }
    }
    assert(j.subrange(1, j.len() - 1) =~= e);
    lemma_unescape_escaped(s, Seq::empty());
    assert(e + Seq::<char>::empty() =~= e);
    assert(s + json_unescape(Seq::<char>::empty()) =~= s);
}

/// The decimal digits of `n`, most significant first.
pub open spec fn digits(n: nat) -> Seq<char>
    decreases n,
{
    if n < 10 {
        seq![decimal_digit(n as int)]
    } else {
        digits(n / 10).push(decimal_digit((n % 10) as int))
    }
}

/// `n` as a JSON number.
pub open spec fn json_int(n: int) -> Seq<char> {
    if n < 0 {
        seq!['-'].add(digits((-n) as nat))
    } else {
        digits(n as nat)
    }
}

/// One member of a JSON object: the key as a JSON string, a colon, the encoded value.
pub open spec fn json_field(key: Seq<char>, value: Seq<char>) -> Seq<char> {
    json_string(key).push(':').add(value)
}

/// A JSON object of the given encoded members, in order.
pub open spec fn json_object(fields: Seq<Seq<char>>) -> Seq<char> {
    seq!['{'].add(join_with(fields, ',')).push('}')
}

/// A JSON array of the given encoded items, in order.
pub open spec fn json_array(items: Seq<Seq<char>>) -> Seq<char> {
    seq!['['].add(join_with(items, ',')).push(']')
}

/// The character views of a list of character vectors.
pub open spec fn views(v: Seq<Vec<char>>) -> Seq<Seq<char>> {
    v.map_values(|x: Vec<char>| x@)
}

/// Appends the characters `s` to `out`.
pub fn append_chars(out: &mut Vec<char>, s: &Vec<char>)
    ensures
        final(out)@ == old(out)@ + s@,
{
    let ghost start = out@;
    let mut j: usize = 0;
    while j < s.len()
        invariant
            j <= s.len(),
            out@ == start + s@.take(j as int),
        decreases s.len() - j,
    {
        out.push(s[j]);
        assert(s@.take(j as int + 1) =~= s@.take(j as int).push(s@[j as int]));
        j = j + 1;
    }
    assert(s@.take(s.len() as int) =~= s@);
}

/// The pieces joined with `sep` between neighbours.
pub fn join_chars(parts: &Vec<Vec<char>>, sep: char) -> (r: Vec<char>)
    ensures
        r@ == join_with(views(parts@), sep),
{
    let ghost ps = views(parts@);
    let mut out: Vec<char> = Vec::new();
    let mut i: usize = 0;
    while i < parts.len()
        invariant
            i <= parts@.len(),
            ps == views(parts@),
            out@ == join_with(ps.take(i as int), sep),
        decreases parts@.len() - i,
    {
        let ghost before = out@;
        if i > 0 {
            out.push(sep);
        }
        append_chars(&mut out, &parts[i]);
        assert(ps.take(i as int + 1).drop_last() =~= ps.take(i as int));
        if i == 0 {
            assert(ps.take(1) =~= seq![ps[0]]);
            assert(out@ =~= ps[0]);
        } else {
            assert(out@ =~= before + seq![sep] + ps[i as int]);
        }
        i = i + 1;
    }
    assert(ps.take(parts@.len() as int) =~= ps);
    out
}

/// The JSON object of the encoded members `fields`.
pub fn object_of(fields: &Vec<Vec<char>>) -> (r: Vec<char>)
    ensures
        r@ == json_object(views(fields@)),
{
    let mut out: Vec<char> = Vec::new();
    out.push('{');
    let inner = join_chars(fields, ',');
    append_chars(&mut out, &inner);
    out.push('}');
    out
}

/// The JSON array of the encoded items `items`.
pub fn array_of(items: &Vec<Vec<char>>) -> (r: Vec<char>)
    ensures
        r@ == json_array(views(items@)),
{
    let mut out: Vec<char> = Vec::new();
    out.push('[');
    let inner = join_chars(items, ',');
    append_chars(&mut out, &inner);
    out.push(']');
    out
}

fn hex_char(d: u32) -> (c: char)
    requires
        d < 16,
    ensures
        c == hex_digit(d as int),
{
    if d < 10 {
        ((48 + d) as u8) as char
    } else {
        ((87 + d) as u8) as char
    }
}

/// Appends `c` as written inside a JSON string.
fn push_escaped(out: &mut Vec<char>, c: char)
    ensures
        final(out)@ == old(out)@ + escaped_char(c),
{
    let code = c as u32;
    if c == '"' || c == '\\' {
        out.push('\\');
        out.push(c);
    } else if code < 32 {
        out.push('\\');
        out.push('u');
        out.push('0');
        out.push('0');
        out.push(hex_char(code / 16));
        out.push(hex_char(code % 16));
    } else {
        out.push(c);
    }
    assert(out@ =~= old(out)@ + escaped_char(c));
}

/// `s` as a JSON string.
pub fn json_string_of(s: &str) -> (r: Vec<char>)
    ensures
        r@ == json_string(s@),
{
    let cs = chars_of(s);
    let mut out: Vec<char> = Vec::new();
    out.push('"');
    let mut i: usize = 0;
    while i < cs.len()
        invariant
            i <= cs.len(),
            cs@ == s@,
            out@ == seq!['"'].add(escaped(cs@.take(i as int))),
        decreases cs.len() - i,
    {
        let ghost before = out@;
        push_escaped(&mut out, cs[i]);
        proof {
            let t = cs@.take(i as int + 1);
            assert(t.drop_last() =~= cs@.take(i as int));
            assert(t.last() == cs@[i as int]);
            assert(out@ =~= seq!['"'].add(escaped(t)));
        }
        i = i + 1;
    }
    assert(cs@.take(cs.len() as int) =~= cs@);
    out.push('"');
    out
}

fn push_digits(out: &mut Vec<char>, n: u64)
    ensures
        final(out)@ == old(out)@ + digits(n as nat),
    decreases n,
{
    let ghost start = out@;
    if n >= 10 {
        push_digits(out, n / 10);
    }
    out.push(((48 + n % 10) as u8) as char);
    assert(out@ =~= start + digits(n as nat));
}

/// `n` as a JSON number.
pub fn json_int_of(n: i32) -> (r: Vec<char>)
    ensures
        r@ == json_int(n as int),
{
    let mut out: Vec<char> = Vec::new();
    if n < 0 {
        out.push('-');
        let m: i64 = n as i64;
        push_digits(&mut out, (-m) as u64);
    } else {
        push_digits(&mut out, n as u64);
        assert(out@ =~= json_int(n as int));
    }
    out
}

/// One member of a JSON object: `key` and the encoded `value`.
pub fn field_of(key: &str, value: &Vec<char>) -> (r: Vec<char>)
    ensures
        r@ == json_field(key@, value@),
{
    let mut out = json_string_of(key);
    out.push(':');
    append_chars(&mut out, value);
    out
}

} // verus!
