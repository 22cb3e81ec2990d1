//! Support for an `LLVM` `PcGuard`-style coverage runtime: the pure logic
//! behind the per-edge callbacks.
//!
//! The raw callbacks themselves live with the instrumentation glue outside
//! this crate; they delegate the n-gram history update and the edge-map
//! write to the functions here.

use vstd::prelude::*;

verus! {

/// The default number of entries of the edge-coverage map, and the
/// modulus of the reduced n-gram position.
pub const EDGES_MAP_DEFAULT_SIZE: usize = 65536;

/// An entry to the `sanitizer_cov` `pc_table`.
#[derive(Debug, Clone, Copy, PartialEq, Eq, Structural)]
pub struct PcTableEntry {
    addr: usize,
    flags: usize,
}

impl PcTableEntry {
    /// The program counter address of this entry.
    pub closed spec fn spec_addr(&self) -> usize {
        self.addr
    }

    /// The flag word of this entry.
    pub closed spec fn spec_flags(&self) -> usize {
        self.flags
    }

    /// An entry from the two words the instrumentation emits.
    pub fn new(addr: usize, flags: usize) -> (r: Self)
        ensures
            r.spec_addr() == addr,
            r.spec_flags() == flags,
    {
        PcTableEntry { addr, flags }
    }

    /// Returns whether the PC corresponds to a function entry point.
    pub fn is_function_entry(&self) -> (r: bool)
        ensures
            r == (self.spec_flags() == 1),
    {
        self.flags == 0x1
    }

    /// Returns the address associated with this PC.
    pub fn addr(&self) -> (r: usize)
        ensures
            r == self.spec_addr(),
    {
        self.addr
    }
}

/// The hook that maintains the n-gram history of the most recently seen
/// edges, reset before every run of the harness.  An edge position is
/// reduced against the history so that the same edge reached along
/// different paths lands on different map entries.
#[derive(Debug, Clone, Copy)]
pub struct NgramHook {
    /// The array holding the previous locs, for NGRAM-4 instrumentation.
    pub prev_array_4: [u32; 4],
    /// The array holding the previous locs, for NGRAM-8 instrumentation.
    pub prev_array_8: [u32; 8],
}

impl NgramHook {
    /// The constructor for this struct
    pub fn new() -> (r: Self)
        ensures
            forall|i: int| 0 <= i < 4 ==> r.prev_array_4@[i] == 0,
            forall|i: int| 0 <= i < 8 ==> r.prev_array_8@[i] == 0,
    {
        NgramHook { prev_array_4: [0, 0, 0, 0], prev_array_8: [0, 0, 0, 0, 0, 0, 0, 0] }
    }

    /// Reset the history before a run of the harness.
    pub fn pre_exec(&mut self)
        ensures
            forall|i: int| 0 <= i < 4 ==> final(self).prev_array_4@[i] == 0,
            forall|i: int| 0 <= i < 8 ==> final(self).prev_array_8@[i] == 0,
    {
        self.prev_array_4 = [0, 0, 0, 0];
        self.prev_array_8 = [0, 0, 0, 0, 0, 0, 0, 0];
    }

    /// Fold edge position `pos` into the 4-gram history: the history is
    /// rotated one to the right, every kept entry is doubled (shifted left
    /// by one), the newest slot takes `pos`, and the reduced position is
    /// the XOR of the history, brought into the edge map's range.
    pub fn update_ngram4(&mut self, pos: u32) -> (r: usize)
        ensures
            final(self).prev_array_4@ == seq![
                pos,
                old(self).prev_array_4@[0] << 1,
                old(self).prev_array_4@[1] << 1,
                old(self).prev_array_4@[2] << 1,
            ],
            final(self).prev_array_8 == old(self).prev_array_8,
            r == ((pos ^ (old(self).prev_array_4@[0] << 1) ^ (old(self).prev_array_4@[1] << 1) ^ (
            old(self).prev_array_4@[2] << 1)) as usize) % EDGES_MAP_DEFAULT_SIZE,
            r < EDGES_MAP_DEFAULT_SIZE,
    {
        let a0 = self.prev_array_4[0];
        let a1 = self.prev_array_4[1];
        let a2 = self.prev_array_4[2];
        self.prev_array_4 = [pos, a0 << 1, a1 << 1, a2 << 1];
        let reduced = pos ^ (a0 << 1) ^ (a1 << 1) ^ (a2 << 1);
        proof {
            assert(final(self).prev_array_4@ =~= seq![pos, a0 << 1, a1 << 1, a2 << 1]);
        }
        (reduced as usize) % EDGES_MAP_DEFAULT_SIZE
    }

    /// Fold edge position `pos` into the 8-gram history; see
    /// [`NgramHook::update_ngram4`].
    pub fn update_ngram8(&mut self, pos: u32) -> (r: usize)
        ensures
            final(self).prev_array_8@ == seq![
                pos,
                old(self).prev_array_8@[0] << 1,
                old(self).prev_array_8@[1] << 1,
                old(self).prev_array_8@[2] << 1,
                old(self).prev_array_8@[3] << 1,
                old(self).prev_array_8@[4] << 1,
                old(self).prev_array_8@[5] << 1,
                old(self).prev_array_8@[6] << 1,
            ],
            final(self).prev_array_4 == old(self).prev_array_4,
            r == ((pos ^ (old(self).prev_array_8@[0] << 1) ^ (old(self).prev_array_8@[1] << 1) ^ (
            old(self).prev_array_8@[2] << 1) ^ (old(self).prev_array_8@[3] << 1) ^ (old(
                self,
            ).prev_array_8@[4] << 1) ^ (old(self).prev_array_8@[5] << 1) ^ (old(
                self,
            ).prev_array_8@[6] << 1)) as usize) % EDGES_MAP_DEFAULT_SIZE,
            r < EDGES_MAP_DEFAULT_SIZE,
    {
        let a0 = self.prev_array_8[0];
        let a1 = self.prev_array_8[1];
        let a2 = self.prev_array_8[2];
        let a3 = self.prev_array_8[3];
        let a4 = self.prev_array_8[4];
        let a5 = self.prev_array_8[5];
        let a6 = self.prev_array_8[6];
        self.prev_array_8 = [
            pos,
            a0 << 1,
            a1 << 1,
            a2 << 1,
            a3 << 1,
            a4 << 1,
            a5 << 1,
            a6 << 1,
        ];
        let reduced = pos ^ (a0 << 1) ^ (a1 << 1) ^ (a2 << 1) ^ (a3 << 1) ^ (a4 << 1) ^ (a5 << 1)
            ^ (a6 << 1);
        proof {
            assert(final(self).prev_array_8@ =~= seq![
                pos,
                a0 << 1,
                a1 << 1,
                a2 << 1,
                a3 << 1,
                a4 << 1,
                a5 << 1,
                a6 << 1,
            ]);
        }
        (reduced as usize) % EDGES_MAP_DEFAULT_SIZE
    }
}

impl Default for NgramHook {
    fn default() -> (r: Self)
        ensures
            forall|i: int| 0 <= i < 4 ==> r.prev_array_4@[i] == 0,
            forall|i: int| 0 <= i < 8 ==> r.prev_array_8@[i] == 0,
    {
        NgramHook::new()
    }
}

/// The hook that clears the calling-context word before every run of the
/// harness.  The word itself lives with the instrumentation runtime; this
/// hook only marks the capability in the executor's hook list.
#[derive(Debug, Clone, Copy, PartialEq, Eq, Structural)]
pub struct CtxHook {
    /// The value the calling-context word is reset to before a run.
    pub reset_value: u32,
}

impl CtxHook {
    /// The constructor for this struct
    pub fn new() -> (r: Self)
        ensures
            r.reset_value == 0,
    {
        CtxHook { reset_value: 0 }
    }
}

impl Default for CtxHook {
    fn default() -> (r: Self)
        ensures
            r.reset_value == 0,
    {
        CtxHook::new()
    }
}

/// Mark edge `pos` of the coverage map as seen (the edge-presence flavor
/// of the `pc_guard` callback).
pub fn record_edge(edges: &mut Vec<u8>, pos: usize)
    requires
        pos < old(edges)@.len(),
    ensures
        final(edges)@ == old(edges)@.update(pos as int, 1u8),
{
    edges.set(pos, 1);
}

/// Bump the hit count of edge `pos` of the coverage map, wrapping at 255
/// (the hit-count flavor of the `pc_guard` callback).
pub fn record_hitcount(edges: &mut Vec<u8>, pos: usize)
    requires
        pos < old(edges)@.len(),
    ensures
        final(edges)@ == old(edges)@.update(pos as int, old(edges)@[pos as int].wrapping_add(1)),
{
    let val = edges[pos].wrapping_add(1);
    edges.set(pos, val);
}

} // verus!
