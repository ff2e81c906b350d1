//! The debug log buffer: the lines that the client's logger writes, of
//! which the most recent `LOG_CAPACITY` are kept.
use vstd::prelude::*;
use crate::state::LOG_CAPACITY;
use crate::text::{chars_of, push_char};

verus! {

/// The text that lossy UTF-8 decoding makes of some bytes
/// (`String::from_utf8_lossy`): valid sequences decoded, each invalid one
/// replaced by U+FFFD.
pub uninterp spec fn lossy_utf8(bytes: Seq<u8>) -> Seq<char>;

/// Decodes bytes as UTF-8, replacing invalid sequences
/// (`String::from_utf8_lossy`). The decoding is named, not stated.
#[verifier::external_body]
fn decode_lossy(buf: &[u8]) -> (s: String)
    ensures
        s@ == lossy_utf8(buf@),
{
    String::from_utf8_lossy(buf).into_owned()
}

/// A line without the carriage return that may end it.
pub open spec fn strip_cr(l: Seq<char>) -> Seq<char> {
    if l.len() > 0 && l.last() == '\r' {
        l.drop_last()
    } else {
        l
    }
}

/// Reading text from the left: the lines completed by a newline so far
/// (each without its line ending) and the characters of the line begun.
pub open spec fn lines_so_far(s: Seq<char>) -> (Seq<Seq<char>>, Seq<char>)
    decreases s.len(),
{
    if s.len() == 0 {
        (Seq::empty(), Seq::empty())
    } else {
        let (done, cur) = lines_so_far(s.drop_last());
        if s.last() == '\n' {
            (done.push(strip_cr(cur)), Seq::empty())
        } else {
            (done, cur.push(s.last()))
        }
    }
}

/// The lines of a text, as `str::lines` gives them: split after each
/// newline, a line ending (`\n` or `\r\n`) removed from each line, and no
/// empty line after a final line ending.
pub open spec fn text_lines(s: Seq<char>) -> Seq<Seq<char>> {
    let (done, cur) = lines_so_far(s);
    if cur.len() == 0 {
        done
    } else {
        done.push(cur)
    }
}

/// The texts of a list of strings.
pub open spec fn texts(v: Seq<String>) -> Seq<Seq<char>> {
    v.map_values(|s: String| s@)
}

/// The last `n` entries of a sequence (all of them when there are fewer).
pub open spec fn keep_last<T>(s: Seq<T>, n: nat) -> Seq<T> {
    if s.len() > n {
        s.subrange(s.len() - n, s.len() as int)
    } else {
        s
    }
}

/// A string of the given characters.
fn string_of(chars: &Vec<char>) -> (s: String)
    ensures
        s@ == chars@,
{
    let mut s = String::new();
    let mut i: usize = 0;
    while i < chars.len()
        invariant
            i <= chars@.len(),
            s@ == chars@.subrange(0, i as int),
        decreases chars@.len() - i,
    {
        push_char(&mut s, chars[i]);
        i = i + 1;
        assert(chars@.subrange(0, i as int) =~= chars@.subrange(0, i - 1).push(chars@[i - 1]));
    }
    assert(chars@.subrange(0, i as int) =~= chars@);
    s
}

/// The lines of a text, as `str::lines` gives them.
pub fn split_lines(text: &str) -> (lines: Vec<String>)
    ensures
        texts(lines@) == text_lines(text@),
{
    let cs = chars_of(text);
    let mut lines: Vec<String> = Vec::new();
    let mut cur: Vec<char> = Vec::new();
    let mut i: usize = 0;
    while i < cs.len()
        invariant
            cs@ == text@,
            i <= cs@.len(),
            (texts(lines@), cur@) == lines_so_far(cs@.subrange(0, i as int)),
        decreases cs@.len() - i,
    {
        let c = cs[i];
        let ghost prefix = cs@.subrange(0, i + 1);
        assert(prefix.drop_last() =~= cs@.subrange(0, i as int));
        assert(prefix.last() == c);
        if c == '\n' {
            if cur.len() > 0 && cur[cur.len() - 1] == '\r' {
                cur.pop();
            }
            let line = string_of(&cur);
            let ghost before = lines@;
            lines.push(line);
            assert(texts(lines@) =~= texts(before).push(line@));
            cur = Vec::new();
        } else {
            cur.push(c);
        }
        i = i + 1;
    }
    assert(cs@.subrange(0, i as int) =~= text@);
    if cur.len() > 0 {
        let line = string_of(&cur);
        let ghost before = lines@;
        lines.push(line);
        assert(texts(lines@) =~= texts(before).push(line@));
    }
    lines
}

/// The debug log: its lines, oldest first.
pub struct LogWriter {
    pub logs: Vec<String>,
}

impl LogWriter {
    /// An empty log.
    pub fn new() -> (w: Self)
        ensures
            w.logs@.len() == 0,
    {
        LogWriter { logs: Vec::new() }
    }

    /// Adds the lines of a text to the log (split as `str::lines` splits
    /// them) and keeps only the most recent `LOG_CAPACITY` lines.
    pub fn push_text(&mut self, text: &str)
        ensures
            texts(final(self).logs@) == keep_last(
                texts(old(self).logs@) + text_lines(text@),
                LOG_CAPACITY as nat,
            ),
            final(self).logs@.len() <= LOG_CAPACITY,
    {
        let lines = split_lines(text);
        let ghost start = self.logs@;
        let mut i: usize = 0;
        while i < lines.len()
            invariant
                i <= lines@.len(),
                self.logs@ == start + lines@.subrange(0, i as int),
            decreases lines@.len() - i,
        {
            self.logs.push(lines[i].clone());
            i = i + 1;
            assert(self.logs@ =~= start + lines@.subrange(0, i as int));
        }
        assert(lines@.subrange(0, i as int) =~= lines@);
        assert(texts(self.logs@) =~= texts(start) + texts(lines@));
        let len = self.logs.len();
        if len > LOG_CAPACITY {
            let ghost all = self.logs@;
            let kept = self.logs.split_off(len - LOG_CAPACITY);
            self.logs = kept;
            assert(texts(self.logs@) =~= texts(all).subrange(len - LOG_CAPACITY, len as int));
        }
    }

    /// Writes bytes to the log: their lines (decoded lossily) are added,
    /// and only the most recent `LOG_CAPACITY` lines are kept. Every byte
    /// counts as written.
    pub fn write(&mut self, buf: &[u8]) -> (n: usize)
        ensures
            n == buf@.len(),
            texts(final(self).logs@) == keep_last(
                texts(old(self).logs@) + text_lines(lossy_utf8(buf@)),
                LOG_CAPACITY as nat,
            ),
            final(self).logs@.len() <= LOG_CAPACITY,
    {
        let text = decode_lossy(buf);
        self.push_text(text.as_str());
        buf.len()
    }

    /// Flushing has nothing to do: every line is in the log once written.
    pub fn flush(&mut self)
        ensures
            *final(self) == *old(self),
    {
    }
}

/// The log never holds more than `LOG_CAPACITY` lines, and after a write it
/// holds the most recent lines: what it held followed by the new lines,
/// less the oldest beyond the capacity.
pub proof fn law_log_keeps_newest(old_lines: Seq<Seq<char>>, new_lines: Seq<Seq<char>>)
    ensures
        keep_last(old_lines + new_lines, LOG_CAPACITY as nat).len() <= LOG_CAPACITY,
        (old_lines + new_lines).len() <= LOG_CAPACITY ==> keep_last(old_lines + new_lines, LOG_CAPACITY as nat)
            == old_lines + new_lines,
        new_lines.len() <= LOG_CAPACITY ==> keep_last(old_lines + new_lines, LOG_CAPACITY as nat).subrange(
            keep_last(old_lines + new_lines, LOG_CAPACITY as nat).len() - new_lines.len(),
            keep_last(old_lines + new_lines, LOG_CAPACITY as nat).len() as int,
        ) == new_lines,
{
    let all = old_lines + new_lines;
    let k = keep_last(all, LOG_CAPACITY as nat);
    if new_lines.len() <= LOG_CAPACITY {
        assert(k.subrange(k.len() - new_lines.len(), k.len() as int) =~= new_lines);
    }
}

} // verus!
