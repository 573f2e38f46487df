//! The compiled program unit: byte-encoded instructions, a per-byte
//! source-line table, and a constant pool.

use vstd::prelude::*;

use crate::value::Value;

verus! {

/// The largest number of constants one chunk can hold: constant-pool
/// indices travel as a single inline operand byte.
pub const MAX_CONSTANTS: usize = 256;

/// The error of adding a constant to a chunk whose pool is full: the
/// pool is indexed by a single byte, so it holds at most 256 values.
#[derive(Clone, Copy, Debug, PartialEq, Eq, Structural)]
pub struct TooManyConstants;

/// An append-only container of encoded instructions. `code` holds the
/// byte stream, `lines` the 1-based source line of each byte of
/// `code` (always the same length as `code`), and `constants` the
/// pool of literal values that `Constant` instructions index.
#[derive(Debug)]
pub struct Chunk {
    pub code: Vec<u8>,
    pub constants: Vec<Value>,
    pub lines: Vec<usize>,
}

impl Chunk {
    /// The chunk's structural invariant: the source-line table runs
    /// in parallel with the instruction stream, one line per byte.
    pub open spec fn wf(self) -> bool {
        self.code@.len() == self.lines@.len()
    }

    /// The constant pool as the sequence of the values' encodings.
    pub open spec fn constants_bits(self) -> Seq<u64> {
        self.constants@.map_values(|v: Value| v.0)
    }

    /// An empty chunk: no instructions, no lines, no constants.
    pub fn new() -> (c: Chunk)
        ensures
            c.wf(),
            c.code@ == Seq::<u8>::empty(),
            c.lines@ == Seq::<usize>::empty(),
            c.constants@ == Seq::<Value>::empty(),
    {
        Chunk { code: Vec::new(), constants: Vec::new(), lines: Vec::new() }
    }

    /// The number of bytes in the instruction stream.
    pub fn len(&self) -> (n: usize)
        ensures
            n == self.code@.len(),
    {
        self.code.len()
    }

    /// Append one instruction or operand byte together with the
    /// 1-based source line it came from, keeping the line table in
    /// step with the code.
    pub fn write(&mut self, byte: u8, line: usize)
        requires
            old(self).wf(),
        ensures
            final(self).wf(),
            final(self).code@ == old(self).code@.push(byte),
            final(self).lines@ == old(self).lines@.push(line),
            final(self).constants@ == old(self).constants@,
    {
        self.code.push(byte);
        self.lines.push(line);
    }

    /// Append a value to the constant pool and return its index.
    /// Indices are assigned in insertion order starting at 0. Once
    /// the pool holds 256 values no further index would fit in the
    /// one operand byte, so the value is refused and the chunk left
    /// unchanged.
    pub fn add_constant(&mut self, value: Value) -> (r: Result<u8, TooManyConstants>)
        ensures
            old(self).constants@.len() < MAX_CONSTANTS ==> (r matches Ok(i)
                && i == old(self).constants@.len()
                && final(self).constants@ == old(self).constants@.push(value)),
            old(self).constants@.len() >= MAX_CONSTANTS ==> (r matches Err(e)
                && e == TooManyConstants
                && final(self).constants@ == old(self).constants@),
            final(self).code@ == old(self).code@,
            final(self).lines@ == old(self).lines@,
    {
        if self.constants.len() >= MAX_CONSTANTS {
            Err(TooManyConstants)
        } else {
            let index = self.constants.len();
            self.constants.push(value);
            Ok(index as u8)
        }
    }
}

impl Default for Chunk {
    /// An empty chunk, as `Chunk::new` builds it.
    fn default() -> (c: Chunk)
        ensures
            c.wf(),
            c.code@ == Seq::<u8>::empty(),
            c.lines@ == Seq::<usize>::empty(),
            c.constants@ == Seq::<Value>::empty(),
    {
        Chunk::new()
    }
}

} // verus!
