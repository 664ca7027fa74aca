//! The output capability of the machine: anything able to accept a sequence
//! of bytes and report success or failure. The machine never reads from a
//! sink; it only writes single characters (`out`) or ASCII decimal digit
//! sequences (`out_number`). An in-memory sink is provided here; callers may
//! implement the trait for real streams.

use vstd::prelude::*;

verus! {

/// A writable byte stream. `contents` is the sequence of bytes accepted so
/// far; a write either appends the whole slice and reports success, or
/// leaves the contents unchanged and reports failure.
pub trait Sink {
    spec fn contents(&self) -> Seq<u8>;

    fn write_bytes(&mut self, bytes: &[u8]) -> (ok: bool)
        ensures
            ok ==> final(self).contents() == old(self).contents() + bytes@,
            !ok ==> final(self).contents() == old(self).contents(),
    ;
}

/// A sink that collects everything written to it in memory. It never fails.
pub struct VecSink {
    buf: Vec<u8>,
}

impl VecSink {
    /// An empty sink.
    pub fn new() -> (r: VecSink)
        ensures
            r.contents() == Seq::<u8>::empty(),
    {
        VecSink { buf: Vec::new() }
    }

    /// The bytes accepted so far.
    pub fn bytes(&self) -> (r: &[u8])
        ensures
            r@ == self.contents(),
    {
        self.buf.as_slice()
    }
}

impl Sink for VecSink {
    closed spec fn contents(&self) -> Seq<u8> {
        self.buf@
    }

    fn write_bytes(&mut self, bytes: &[u8]) -> (ok: bool) {
        let mut i: usize = 0;
        assert(self.buf@ =~= old(self).buf@ + bytes@.subrange(0, 0));
        while i < bytes.len()
            invariant
                i <= bytes@.len(),
                self.buf@ == old(self).buf@ + bytes@.subrange(0, i as int),
            decreases bytes@.len() - i,
        {
            self.buf.push(bytes[i]);
            i = i + 1;
            assert(self.buf@ =~= old(self).buf@ + bytes@.subrange(0, i as int));
        }
        assert(self.buf@ =~= old(self).buf@ + bytes@);
        true
    }
}

} // verus!
