//! Accumulator for non-blocking, line-oriented reads.
//!
//! The recognizer pipe is read without blocking, so one response line may
//! arrive across several reads. Bytes are appended as they come; the
//! accumulator gives a line out only once its terminator has arrived, and
//! drops exactly the consumed line so unrelated responses never concatenate.

use vstd::prelude::*;
use crate::codec::NEWLINE;

verus! {

/// Splits off the first newline-terminated line: the line without its
/// terminator, and everything after the terminator. `None` while no
/// terminator has arrived.
pub open spec fn line_split_spec(s: Seq<u8>) -> Option<(Seq<u8>, Seq<u8>)>
    decreases s.len(),
{
    if s.len() == 0 {
        None
    } else if s[0] == NEWLINE {
        Some((Seq::empty(), s.drop_first()))
    } else {
        match line_split_spec(s.drop_first()) {
            None => None,
            Some(p) => Some((seq![s[0]] + p.0, p.1)),
        }
    }
}

/// When the first `i` bytes hold no newline and byte `i` is one, the split
/// is exactly at `i`.
proof fn lemma_line_split_at(s: Seq<u8>, i: int)
    requires
        0 <= i < s.len(),
        forall|k: int| 0 <= k < i ==> s[k] != NEWLINE,
        s[i] == NEWLINE,
    ensures
        line_split_spec(s) == Some((s.subrange(0, i), s.subrange(i + 1, s.len() as int))),
    decreases i,
{
    if i == 0 {
        assert(Seq::<u8>::empty() =~= s.subrange(0, 0));
        assert(s.drop_first() =~= s.subrange(1, s.len() as int));
    } else {
        let t = s.drop_first();
        lemma_line_split_at(t, i - 1);
        let p = line_split_spec(t).unwrap();
        assert(seq![s[0]] + t.subrange(0, i - 1) =~= s.subrange(0, i));
        assert(t.subrange(i, t.len() as int) =~= s.subrange(i + 1, s.len() as int));
    }
}

/// When no byte is a newline, there is no split.
proof fn lemma_line_split_none(s: Seq<u8>)
    requires
        forall|k: int| 0 <= k < s.len() ==> s[k] != NEWLINE,
    ensures
        line_split_spec(s) is None,
    decreases s.len(),
{
    if s.len() > 0 {
        lemma_line_split_none(s.drop_first());
    }
}

/// The read buffer that survives partial reads on the recognizer pipe.
#[derive(Debug)]
pub struct LineBuffer {
    buf: Vec<u8>,
}

impl View for LineBuffer {
    type V = Seq<u8>;

    closed spec fn view(&self) -> Seq<u8> {
        self.buf@
    }
}

impl LineBuffer {
    /// An empty accumulator.
    pub fn new() -> (b: LineBuffer)
        ensures
            b@ == Seq::<u8>::empty(),
    {
        let b = LineBuffer { buf: Vec::new() };
        proof {
            assert(b@ =~= Seq::<u8>::empty());
        }
        b
    }

    /// Append what one non-blocking read delivered, however little.
    pub fn feed(&mut self, chunk: &[u8])
        ensures
            final(self)@ == old(self)@ + chunk@,
    {
        let mut i: usize = 0;
        let len = chunk.len();
        while i < len
            invariant
                len == chunk@.len(),
                0 <= i <= len,
                self@ == old(self)@ + chunk@.subrange(0, i as int),
            decreases len - i,
        {
            let b = chunk[i];
            self.buf.push(b);
            proof {
                assert(old(self)@ + chunk@.subrange(0, i as int) + seq![chunk@[i as int]] =~= old(
                    self,
                )@ + chunk@.subrange(0, i + 1));
            }
            i = i + 1;
        }
        proof {
            assert(old(self)@ + chunk@.subrange(0, len as int) =~= old(self)@ + chunk@);
        }
    }

    /// Take the first completed line, if its terminator has arrived, and
    /// keep exactly the bytes after it. The line is handed out without its
    /// terminator.
    pub fn take_line(&mut self) -> (r: Option<Vec<u8>>)
        ensures
            match r {
                None => final(self)@ == old(self)@ && line_split_spec(old(self)@) is None,
                Some(line) => line_split_spec(old(self)@) == Some((line@, final(self)@)),
            },
    {
        let len = self.buf.len();
        let mut i: usize = 0;
        while i < len && self.buf[i] != NEWLINE
            invariant
                len == self.buf@.len(),
                0 <= i <= len,
                self.buf@ == old(self).buf@,
                forall|k: int| 0 <= k < i ==> self.buf@[k] != NEWLINE,
            decreases len - i,
        {
            i = i + 1;
        }
        if i == len {
            proof {
                lemma_line_split_none(self@);
            }
            return None;
        }
        proof {
            lemma_line_split_at(self@, i as int);
        }
        let mut line: Vec<u8> = Vec::new();
        let mut k: usize = 0;
        while k < i
            invariant
                i < len,
                len == self.buf@.len(),
                0 <= k <= i,
                self.buf@ == old(self).buf@,
                line@ == self.buf@.subrange(0, k as int),
            decreases i - k,
        {
            let b = self.buf[k];
            line.push(b);
            proof {
                assert(line@ =~= self.buf@.subrange(0, k + 1));
            }
            k = k + 1;
        }
        let mut rest: Vec<u8> = Vec::new();
        let mut k: usize = i + 1;
        while k < len
            invariant
                i < len,
                len == self.buf@.len(),
                i + 1 <= k <= len,
                self.buf@ == old(self).buf@,
                rest@ == self.buf@.subrange(i + 1, k as int),
            decreases len - k,
        {
            let b = self.buf[k];
            rest.push(b);
            proof {
                assert(rest@ =~= self.buf@.subrange(i + 1, k + 1));
            }
            k = k + 1;
        }
        proof {
            assert(Seq::<u8>::empty() =~= self.buf@.subrange(i + 1, (i + 1) as int));
        }
        self.buf = rest;
        Some(line)
    }
}

} // verus!
