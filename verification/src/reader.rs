use vstd::prelude::*;

verus! {

#[verifier::external_type_specification]
#[verifier::external_body]
pub struct ExIoError(std::io::Error);

/// Why a report configuration could not be read.
#[derive(Debug)]
pub enum ConfigError {
    IoError { error: std::io::Error },
}

impl ConfigError {
    /// The error for a failed read or write of a configuration file.
    pub fn from_io(error: std::io::Error) -> (r: ConfigError)
        ensures
            r == (ConfigError::IoError { error }),
    {
        ConfigError::IoError { error }
    }
}

/// The UTF-8 bytes of one line.
pub open spec fn line_bytes(s: String) -> Seq<u8> {
    vstd::utf8::encode_utf8(s@)
}

/// The byte stream of `lines`: each line's bytes followed by a newline.
pub open spec fn stream(ls: Seq<Seq<u8>>) -> Seq<u8>
    decreases ls.len(),
{
    if ls.len() == 0 {
        Seq::<u8>::empty()
    } else {
        stream(ls.drop_last()) + ls.last() + seq![10u8]
    }
}

/// The byte stream of a slice of lines.
pub open spec fn lines_stream(lines: Seq<String>) -> Seq<u8> {
    stream(lines.map_values(|s: String| line_bytes(s)))
}

proof fn lemma_stream_take_step(ls: Seq<Seq<u8>>, k: int)
    requires
        0 <= k < ls.len(),
    ensures
        stream(ls.take(k + 1)) == stream(ls.take(k)) + ls[k] + seq![10u8],
{
    assert(ls.take(k + 1).drop_last() =~= ls.take(k));
}

proof fn lemma_stream_prefix(ls: Seq<Seq<u8>>, k: int)
    requires
        0 <= k <= ls.len(),
    ensures
        stream(ls.take(k)).len() <= stream(ls).len(),
        stream(ls) =~= stream(ls.take(k)) + stream(ls).skip(stream(ls.take(k)).len() as int),
    decreases ls.len() - k,
{
    if k == ls.len() {
        assert(ls.take(k) =~= ls);
    } else {
        lemma_stream_prefix(ls, k + 1);
        lemma_stream_take_step(ls, k);
    }
}

proof fn lemma_stream_index(ls: Seq<Seq<u8>>, k: int, i: int)
    requires
        0 <= k < ls.len(),
        0 <= i <= ls[k].len(),
    ensures
        stream(ls.take(k)).len() + ls[k].len() + 1 <= stream(ls).len(),
        stream(ls)[stream(ls.take(k)).len() + i] == if i < ls[k].len() { ls[k][i] } else { 10u8 },
{
    lemma_stream_prefix(ls, k + 1);
    lemma_stream_take_step(ls, k);
    let pre = stream(ls.take(k + 1));
    assert(stream(ls)[stream(ls.take(k)).len() + i] == pre[stream(ls.take(k)).len() + i]);
}

/// Reads a list of lines as one byte stream, each line followed by a newline.
pub struct StringVecReader<'a> {
    lines: &'a [String],
    line_idx: usize,
    byte_idx: usize,
    emitted_newline: bool,
}

impl<'a> StringVecReader<'a> {
    /// The lines being read.
    pub closed spec fn lines(&self) -> Seq<String> {
        self.lines@
    }

    spec fn bytes_seq(&self) -> Seq<Seq<u8>> {
        self.lines@.map_values(|s: String| line_bytes(s))
    }

    /// The internal cursor is consistent with the lines.
    pub closed spec fn wf(&self) -> bool {
        &&& self.line_idx <= self.lines@.len()
        &&& self.line_idx < self.lines@.len() ==> self.byte_idx <= line_bytes(self.lines@[self.line_idx as int]).len()
        &&& self.line_idx < self.lines@.len() && self.emitted_newline ==> self.byte_idx == line_bytes(self.lines@[self.line_idx as int]).len()
        &&& self.line_idx == self.lines@.len() ==> self.byte_idx == 0 && !self.emitted_newline
    }

    /// How many bytes of the stream have been handed out so far.
    pub closed spec fn position(&self) -> int {
        stream(self.bytes_seq().take(self.line_idx as int)).len() + self.byte_idx + if self.emitted_newline { 1int } else { 0int }
    }

    /// A reader positioned at the start of `lines`.
    pub fn new(lines: &'a [String]) -> (r: Self)
        ensures
            r.wf(),
            r.lines() == lines@,
            r.position() == 0,
    {
        let r = Self { lines, line_idx: 0, byte_idx: 0, emitted_newline: false };
        assert(r.bytes_seq().take(0) =~= Seq::<Seq<u8>>::empty());
        r
    }

    /// Copies the next bytes of the stream into `buf`: as many as fit, or all that are left.
    pub fn read(&mut self, buf: &mut [u8]) -> (r: std::io::Result<usize>)
        requires
            old(self).wf(),
        ensures
            final(self).wf(),
            final(self).lines() == old(self).lines(),
            r is Ok,
            ({
                let n = r->Ok_0 as int;
                let pos = old(self).position();
                let s = lines_stream(old(self).lines());
                &&& n == if old(buf)@.len() <= s.len() - pos { old(buf)@.len() as int } else { s.len() - pos }
                &&& final(self).position() == pos + n
                &&& final(buf)@.len() == old(buf)@.len()
                &&& final(buf)@.take(n) == s.subrange(pos, pos + n)
                &&& final(buf)@.skip(n) == old(buf)@.skip(n)
            }),
    {
        let ghost ls = self.bytes_seq();
        let ghost pos0 = self.position();
        proof {
            lemma_stream_prefix(ls, self.line_idx as int);
            lemma_stream_prefix(ls, ls.len() as int);
            assert(ls.take(ls.len() as int) =~= ls);
            if self.line_idx < ls.len() {
                lemma_stream_prefix(ls, self.line_idx as int + 1);
                lemma_stream_take_step(ls, self.line_idx as int);
            }
        }
        let mut written: usize = 0;
        while written < buf.len() && self.line_idx < self.lines.len()
            invariant
                self.wf(),
                self.lines@ == old(self).lines@,
                ls == self.bytes_seq(),
                written <= buf@.len(),
                buf@.len() == old(buf)@.len(),
                self.position() == pos0 + written,
                0 <= pos0,
                self.position() <= stream(ls).len(),
                buf@.take(written as int) == stream(ls).subrange(pos0, pos0 + written),
                buf@.skip(written as int) == old(buf)@.skip(written as int),
            decreases buf@.len() - written, self.lines@.len() - self.line_idx,
        {
            proof {
                lemma_stream_prefix(ls, self.line_idx as int);
                lemma_stream_prefix(ls, self.line_idx as int + 1);
                lemma_stream_take_step(ls, self.line_idx as int);
            }
            let ghost off = stream(ls.take(self.line_idx as int)).len() as int;
            let bytes = self.lines[self.line_idx].as_str().as_bytes();
            assert(bytes@ == ls[self.line_idx as int]);
            if self.byte_idx < bytes.len() {
                let room = buf.len() - written;
                let left = bytes.len() - self.byte_idx;
                let to_copy = if room < left { room } else { left };
                let mut k: usize = 0;
                while k < to_copy
                    invariant
                        k <= to_copy,
                        written + to_copy <= buf.len(),
                        buf.len() == buf@.len(),
                        self.byte_idx + to_copy <= bytes.len(),
                        bytes.len() == bytes@.len(),
                        buf@.len() == old(buf)@.len(),
                        buf@.take(written as int) == stream(ls).subrange(pos0, pos0 + written),
                        buf@.skip(written + k) == old(buf)@.skip(written + k),
                        forall|j: int| written <= j < written + k ==> #[trigger] buf@[j] == bytes@[self.byte_idx + j - written],
                    decreases to_copy - k,
                {
                    let b = bytes[self.byte_idx + k];
                    let ghost prev = buf@;
                    buf[written + k] = b;
                    assert(buf@.take(written as int) =~= prev.take(written as int));
                    assert(buf@.skip(written + k + 1) =~= prev.skip(written + k + 1));
                    assert(prev.skip(written + k + 1) =~= old(buf)@.skip(written + k).skip(1));
                    assert(old(buf)@.skip(written + k).skip(1) =~= old(buf)@.skip(written + k + 1));
                    k = k + 1;
                }
                proof {
                    let s = stream(ls);
                    assert(self.position() == off + self.byte_idx);
                    lemma_stream_index(ls, self.line_idx as int, bytes@.len() as int);
                    assert(pos0 + written + to_copy <= s.len());
                    assert(0 <= pos0);
                    assert forall|j: int| 0 <= j < written + to_copy implies #[trigger] buf@.take(written + to_copy)[j] == s.subrange(pos0, pos0 + written + to_copy)[j] by {
                        assert(buf@.take(written + to_copy)[j] == buf@[j]);
                        assert(s.subrange(pos0, pos0 + written + to_copy)[j] == s[pos0 + j]);
                        if j < written {
                            assert(buf@[j] == buf@.take(written as int)[j]);
                            assert(buf@.take(written as int)[j] == s.subrange(pos0, pos0 + written)[j]);
                        } else {
                            let jj = j - written;
                            assert(buf@[j] == bytes@[self.byte_idx + jj]);
                            lemma_stream_index(ls, self.line_idx as int, self.byte_idx + jj);
                            assert(pos0 + j == off + self.byte_idx + jj);
                            assert(s[off + self.byte_idx + jj] == ls[self.line_idx as int][self.byte_idx + jj]);
                        }
                    }
                    assert(buf@.take(written + to_copy) =~= s.subrange(pos0, pos0 + written + to_copy));
                }
                self.byte_idx = self.byte_idx + to_copy;
                written = written + to_copy;
            } else if !self.emitted_newline {
                let ghost prev = buf@;
                buf[written] = 10u8;
                proof {
                    let s = stream(ls);
                    lemma_stream_index(ls, self.line_idx as int, bytes@.len() as int);
                    assert(s[off + bytes@.len()] == 10u8);
                    assert(self.position() == off + self.byte_idx);
                    assert(self.byte_idx == bytes@.len());
                    assert(pos0 + written == off + bytes@.len());
                    assert(prev.take(written as int) == s.subrange(pos0, pos0 + written));
                    assert forall|j: int| 0 <= j < written + 1 implies #[trigger] buf@.take(written + 1)[j] == s.subrange(pos0, pos0 + written + 1)[j] by {
                        if j < written {
                            assert(prev.take(written as int)[j] == s.subrange(pos0, pos0 + written)[j]);
                        }
                    }
                    assert(buf@.take(written + 1) =~= s.subrange(pos0, pos0 + written + 1));
                    assert(buf@.skip(written + 1) =~= prev.skip(written + 1));
                    assert(prev.skip(written + 1) =~= old(buf)@.skip(written as int).skip(1));
                    assert(old(buf)@.skip(written as int).skip(1) =~= old(buf)@.skip(written + 1));
                }
                written = written + 1;
                self.emitted_newline = true;
            } else {
                self.line_idx = self.line_idx + 1;
                self.byte_idx = 0;
                self.emitted_newline = false;
            }
        }
        proof {
            if self.line_idx == self.lines@.len() {
                assert(ls.take(self.line_idx as int) =~= ls);
            }
        }
        Ok(written)
    }
}

} // verus!
