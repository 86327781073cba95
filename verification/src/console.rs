//! Console write buffer.
//!
//! A fixed-size byte sink that collects output before it is handed to a
//! transport: writes append as much as fits and report how much they took.

use vstd::prelude::*;

verus! {

/// Capacity of the console write buffer in bytes.
pub const CONSOLE_BUF_SIZE: usize = 500;

/// A fixed-size buffer that collects console output.
pub struct ConsoleWriter {
    /// Backing storage; only the first `size` bytes are meaningful.
    pub buf: Vec<u8>,
    /// Number of bytes written so far.
    pub size: usize,
}

impl ConsoleWriter {
    /// The backing storage has its fixed capacity and the fill level stays
    /// inside it.
    pub open spec fn wf(&self) -> bool {
        &&& self.buf@.len() == CONSOLE_BUF_SIZE
        &&& self.size <= CONSOLE_BUF_SIZE
    }

    /// The bytes written so far, in order.
    pub open spec fn contents(&self) -> Seq<u8> {
        self.buf@.take(self.size as int)
    }

    /// An empty console writer over a zero-filled backing buffer.
    pub fn new() -> (w: ConsoleWriter)
        ensures
            w.wf(),
            w.size == 0,
            w.contents() == Seq::<u8>::empty(),
            forall|i: int| 0 <= i < CONSOLE_BUF_SIZE ==> w.buf@[i] == 0u8,
    {
        let w = ConsoleWriter { buf: vec![0u8; CONSOLE_BUF_SIZE], size: 0 };
        proof {
            assert(w.contents() =~= Seq::<u8>::empty());
        }
        w
    }

    /// Discards everything written so far.
    pub fn clear(&mut self)
        requires
            old(self).wf(),
        ensures
            final(self).wf(),
            final(self).contents() == Seq::<u8>::empty(),
            final(self).buf == old(self).buf,
    {
        self.size = 0;
        proof {
            assert(self.contents() =~= Seq::<u8>::empty());
        }
    }

    /// Appends as much of `buffer` as fits and reports how many bytes were
    /// taken: the whole slice, or exactly the room that remained.
    pub fn write_buffer(&mut self, buffer: &[u8]) -> (r: Result<usize, ()>)
        requires
            old(self).wf(),
        ensures
            final(self).wf(),
            r matches Ok(n) && n == spec_write_len(old(self).size as int, buffer@.len() as int)
                && final(self).size == old(self).size + n && final(self).contents() == old(
                self,
            ).contents() + buffer@.take(n as int),
    {
        let ghost pre = *self;
        let start = self.size;
        let remaining = CONSOLE_BUF_SIZE - start;
        let to_send = if buffer.len() < remaining {
            buffer.len()
        } else {
            remaining
        };
        let mut i: usize = 0;
        while i < to_send
            invariant
                pre.wf(),
                i <= to_send,
                start == pre.size,
                to_send == spec_write_len(pre.size as int, buffer@.len() as int),
                start + to_send <= CONSOLE_BUF_SIZE,
                to_send <= buffer@.len(),
                self.size == pre.size,
                self.buf@.len() == CONSOLE_BUF_SIZE,
                forall|k: int| 0 <= k < start ==> self.buf@[k] == pre.buf@[k],
                forall|k: int| 0 <= k < i ==> self.buf@[start + k] == buffer@[k],
            decreases to_send - i,
        {
            let b = buffer[i];
            self.buf[start + i] = b;
            i = i + 1;
        }
        self.size = start + to_send;
        proof {
            assert(self.contents() =~= pre.contents() + buffer@.take(to_send as int));
        }
        Ok(to_send)
    }
}

/// How many bytes a write takes: the whole input, or the room that remains.
pub open spec fn spec_write_len(size: int, input_len: int) -> int {
    if input_len < CONSOLE_BUF_SIZE - size {
        input_len
    } else {
        CONSOLE_BUF_SIZE - size
    }
}

} // verus!
