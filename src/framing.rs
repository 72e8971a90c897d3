//! Framing the bytes of a response body into lines.

use vstd::prelude::*;

verus! {

/// The line terminator.
pub const NEWLINE: u8 = 10;

/// The carriage return that may stand before a terminator.
pub const CARRIAGE_RETURN: u8 = 13;

/// A line's bytes without the carriage return that ended it, if any.
pub open spec fn strip_cr(s: Seq<u8>) -> Seq<u8> {
    if s.len() > 0 && s.last() == CARRIAGE_RETURN {
        s.drop_last()
    } else {
        s
    }
}

/// `i` is the position of the first terminator in `s`.
pub open spec fn first_newline_at(s: Seq<u8>, i: int) -> bool {
    &&& 0 <= i < s.len()
    &&& s[i] == NEWLINE
    &&& forall|j: int| 0 <= j < i ==> s[j] != NEWLINE
}

pub open spec fn has_newline(s: Seq<u8>) -> bool {
    exists|j: int| 0 <= j < s.len() && s[j] == NEWLINE
}

/// The text of a line, or `None` where its bytes are not UTF-8.
pub uninterp spec fn utf8_of(b: Seq<u8>) -> Option<Seq<char>>;

/// Relies on `String::from_utf8`: the text where the bytes are UTF-8.
#[verifier::external_body]
fn from_utf8(b: Vec<u8>) -> (r: Option<String>)
    ensures
        match r {
            Some(s) => utf8_of(b@) == Some(s@),
            None => utf8_of(b@).is_none(),
        },
{
    String::from_utf8(b).ok()
}

/// A line whose bytes are not UTF-8.
#[derive(Clone, Copy, Debug, PartialEq, Eq, Structural)]
pub struct InvalidUtf8;

/// The text of a framed line; an error where it is not UTF-8.
pub fn decode_line(b: Vec<u8>) -> (r: Result<String, InvalidUtf8>)
    ensures
        match r {
            Ok(s) => utf8_of(b@) == Some(s@),
            Err(_) => utf8_of(b@).is_none(),
        },
{
    match from_utf8(b) {
        Some(s) => Ok(s),
        None => Err(InvalidUtf8),
    }
}

/// Bytes received and not yet handed out as a line. A new framer holds
/// none, so nothing carries over from one connection to the next.
pub struct LineFramer {
    buffer: Vec<u8>,
}

impl View for LineFramer {
    type V = Seq<u8>;

    closed spec fn view(&self) -> Seq<u8> {
        self.buffer@
    }
}

fn copy_range(s: &Vec<u8>, from: usize, to: usize) -> (r: Vec<u8>)
    requires
        from <= to <= s@.len(),
    ensures
        r@ == s@.subrange(from as int, to as int),
{
    let mut out: Vec<u8> = Vec::new();
    let mut i: usize = from;
    while i < to
        invariant
            from <= i <= to <= s@.len(),
            out@ == s@.subrange(from as int, i as int),
        decreases to - i,
    {
        out.push(s[i]);
        i = i + 1;
        assert(out@ =~= s@.subrange(from as int, i as int));
    }
    out
}

impl LineFramer {
    /// A framer with nothing buffered.
    pub fn new() -> (r: LineFramer)
        ensures
            r@ == Seq::<u8>::empty(),
    {
        LineFramer { buffer: Vec::new() }
    }

    /// Appends bytes that arrived.
    pub fn push(&mut self, chunk: &[u8])
        ensures
            final(self)@ == old(self)@ + chunk@,
    {
        let mut i: usize = 0;
        while i < chunk.len()
            invariant
                i <= chunk@.len(),
                self@ == old(self)@ + chunk@.subrange(0, i as int),
            decreases chunk.len() - i,
        {
            self.buffer.push(chunk[i]);
            i = i + 1;
            assert(self@ =~= old(self)@ + chunk@.subrange(0, i as int));
        }
        assert(chunk@.subrange(0, chunk@.len() as int) =~= chunk@);
    }

    /// Takes the first complete line, without its terminator and without a
    /// carriage return before it; `None` while no terminator has arrived.
    pub fn next_line(&mut self) -> (r: Option<Vec<u8>>)
        ensures
            match r {
                Some(line) => exists|i: int|
                    first_newline_at(old(self)@, i) && line@ == strip_cr(old(self)@.subrange(0, i))
                        && final(self)@ == old(self)@.subrange(i + 1, old(self)@.len() as int),
                None => !has_newline(old(self)@) && final(self)@ == old(self)@,
            },
    {
        let n = self.buffer.len();
        let mut i: usize = 0;
        while i < n
            invariant
                n == self.buffer@.len(),
                self.buffer@ == old(self)@,
                i <= n,
                forall|j: int| 0 <= j < i ==> self.buffer@[j] != NEWLINE,
            decreases n - i,
        {
            if self.buffer[i] == NEWLINE {
                let end: usize = if i > 0 && self.buffer[i - 1] == CARRIAGE_RETURN {
                    i - 1
                } else {
                    i
                };
                let line = copy_range(&self.buffer, 0, end);
                let rest = copy_range(&self.buffer, i + 1, n);
                proof {
                    let s = self.buffer@;
                    assert(first_newline_at(s, i as int));
                    assert(line@ =~= strip_cr(s.subrange(0, i as int)));
                }
                self.buffer = rest;
                assert(first_newline_at(old(self)@, i as int) && line@ == strip_cr(
                    old(self)@.subrange(0, i as int),
                ) && self@ == old(self)@.subrange(i + 1, old(self)@.len() as int));
                return Some(line);
            }
            i = i + 1;
        }
        None
    }

    /// At the end of the stream: the bytes after the last terminator, where
    /// there are any, handed out as a last line.
    pub fn finish(&mut self) -> (r: Option<Vec<u8>>)
        ensures
            match r {
                Some(line) => old(self)@.len() > 0 && line@ == old(self)@,
                None => old(self)@.len() == 0,
            },
            final(self)@ == Seq::<u8>::empty(),
    {
        if self.buffer.len() == 0 {
            None
        } else {
            let line = copy_range(&self.buffer, 0, self.buffer.len());
            self.buffer = Vec::new();
            assert(line@ =~= old(self)@);
            Some(line)
        }
    }
}

} // verus!
