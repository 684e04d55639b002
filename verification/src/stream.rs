//! The line streamer: splits the worker's captured output stream into
//! discrete lines, in stream order.
//!
//! The stream arrives as byte chunks of arbitrary size. A [`LineBuffer`]
//! accumulates them and hands back each line as soon as its terminating
//! newline has arrived; the bytes after the last newline stay pending until
//! either a later chunk completes them or the stream ends. The contract of
//! [`LineBuffer::feed`] pins the emitted lines to exactly the complete lines
//! of the bytes fed so far, in order, which is the order they appear in the
//! stream.

use vstd::prelude::*;

verus! {

/// The line separator: a single line-feed byte.
pub const NEWLINE: u8 = 10;

/// Splits `s` into its complete (newline-terminated) lines, without their
/// terminators, and the pending bytes after the last newline.
pub open spec fn line_split(s: Seq<u8>) -> (Seq<Seq<u8>>, Seq<u8>)
    decreases s.len(),
{
    if s.len() == 0 {
        (Seq::<Seq<u8>>::empty(), Seq::<u8>::empty())
    } else {
        let prev = line_split(s.drop_last());
        if s.last() == NEWLINE {
            (prev.0.push(prev.1), Seq::<u8>::empty())
        } else {
            (prev.0, prev.1.push(s.last()))
        }
    }
}

/// The complete lines of `s`, in stream order.
pub open spec fn complete_lines(s: Seq<u8>) -> Seq<Seq<u8>> {
    line_split(s).0
}

/// The bytes of `s` after its last newline.
pub open spec fn pending_tail(s: Seq<u8>) -> Seq<u8> {
    line_split(s).1
}

/// Accumulates stream chunks and emits each complete line exactly once.
pub struct LineBuffer {
    /// Bytes received after the last newline seen so far.
    pending: Vec<u8>,
    /// All bytes fed so far.
    history: Ghost<Seq<u8>>,
}

impl LineBuffer {
    /// All bytes fed to this buffer so far.
    pub closed spec fn fed(&self) -> Seq<u8> {
        self.history@
    }

    /// The buffer holds exactly the pending tail of the bytes fed so far.
    pub closed spec fn wf(&self) -> bool {
        self.pending@ == pending_tail(self.history@)
    }

    /// A buffer that has seen no bytes.
    pub fn new() -> (b: LineBuffer)
        ensures
            b.wf(),
            b.fed() == Seq::<u8>::empty(),
    {
        LineBuffer { pending: Vec::new(), history: Ghost(Seq::empty()) }
    }

    /// Feeds the next chunk of the stream and returns the lines it
    /// completed, in stream order: the lines emitted over all calls are
    /// exactly the complete lines of the bytes fed, in order.
    pub fn feed(&mut self, chunk: &Vec<u8>) -> (out: Vec<Vec<u8>>)
        requires
            old(self).wf(),
        ensures
            final(self).wf(),
            final(self).fed() == old(self).fed() + chunk@,
            complete_lines(old(self).fed()) + out@.map_values(|l: Vec<u8>| l@)
                == complete_lines(final(self).fed()),
    {
        let mut out: Vec<Vec<u8>> = Vec::new();
        let ghost start = self.history@;
        assert(self.history@ =~= start + chunk@.subrange(0, 0));
        assert(complete_lines(start) + out@.map_values(|l: Vec<u8>| l@)
            =~~= complete_lines(self.history@));
        let mut i: usize = 0;
        while i < chunk.len()
            invariant
                i <= chunk.len(),
                self.history@ == start + chunk@.subrange(0, i as int),
                self.pending@ == pending_tail(self.history@),
                complete_lines(start) + out@.map_values(|l: Vec<u8>| l@)
                    == complete_lines(self.history@),
            decreases chunk.len() - i,
        {
            let ghost before = self.history@;
            let ghost lines_before = out@.map_values(|l: Vec<u8>| l@);
            let b = chunk[i];
            self.history = Ghost(self.history@.push(b));
            proof {
                assert(self.history@.drop_last() =~= before);
                assert(self.history@.last() == b);
            }
            if b == NEWLINE {
                let mut line: Vec<u8> = Vec::new();
                core::mem::swap(&mut line, &mut self.pending);
                out.push(line);
                proof {
                    assert(out@.map_values(|l: Vec<u8>| l@)
                        =~~= lines_before.push(pending_tail(before)));
                    assert(complete_lines(start) + out@.map_values(|l: Vec<u8>| l@)
                        =~~= complete_lines(self.history@));
                }
            } else {
                self.pending.push(b);
                proof {
                    assert(complete_lines(start) + out@.map_values(|l: Vec<u8>| l@)
                        =~~= complete_lines(self.history@));
                }
            }
            i += 1;
            proof {
                assert(self.history@ =~= start + chunk@.subrange(0, i as int));
            }
        }
        proof {
            assert(chunk@.subrange(0, chunk@.len() as int) =~= chunk@);
        }
        out
    }

    /// Ends the stream: returns the final unterminated line, if the stream
    /// did not end with a newline, and nothing otherwise.
    pub fn into_pending(self) -> (r: Option<Vec<u8>>)
        requires
            self.wf(),
        ensures
            match r {
                Some(line) => line@ == pending_tail(self.fed()) && line@.len() > 0,
                None => pending_tail(self.fed()).len() == 0,
            },
    {
        if self.pending.len() == 0 {
            None
        } else {
            Some(self.pending)
        }
    }
}

} // verus!
