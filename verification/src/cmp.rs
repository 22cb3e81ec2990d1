//! Comparison-trace values and the recording surface they are logged into.
//!
//! A comparison "site" is one instrumented comparison instruction (or
//! call-argument comparison).  During an execution of the target, the
//! instrumentation logs the two operands of each hit site into a
//! [`CmpMap`]; after the execution the observer folds the map's contents
//! into long-lived metadata.

use vstd::prelude::*;
use vstd::pervasive::VecAdditionalExecFns;

use crate::Error;

verus! {

/// Depth of the per-site ring of logged operand pairs in [`StdCmpMap`].
pub const CMP_MAP_RING_DEPTH: usize = 32;

/// A bytes string for cmplog with up to 32 elements, stored inline so that
/// logging one side of a byte-string comparison needs no heap allocation.
///
/// Its view is the valid prefix: the first `len` bytes of the buffer.
#[derive(Debug, Copy, Clone, PartialEq, Eq)]
pub struct CmplogBytes {
    buf: [u8; 32],
    len: u8,
}

impl View for CmplogBytes {
    type V = Seq<u8>;

    closed spec fn view(&self) -> Seq<u8> {
        self.buf@.take(self.len as int)
    }
}

impl CmplogBytes {
    #[verifier::type_invariant]
    spec fn wf(self) -> bool {
        self.len <= 32
    }

    /// Creates a new [`CmplogBytes`] object from the provided buf and length.
    /// Lengths above 32 are illegal.
    pub fn from_buf_and_len(buf: [u8; 32], len: u8) -> (r: Self)
        requires
            len <= 32,
        ensures
            r@ == buf@.take(len as int),
    {
        CmplogBytes { buf, len }
    }

    /// The valid prefix of the buffer: exactly the first `len` bytes handed
    /// to [`CmplogBytes::from_buf_and_len`].
    pub fn as_slice(&self) -> (r: &[u8])
        ensures
            r@ == self@,
    {
        proof {
            use_type_invariant(self);
        }
        &self.buf.as_slice()[0..self.len as usize]
    }

    /// Number of valid bytes.
    pub fn len(&self) -> (r: usize)
        ensures
            r == self@.len(),
    {
        proof {
            use_type_invariant(self);
        }
        self.len as usize
    }

    /// True iff no byte is valid.
    pub fn is_empty(&self) -> (r: bool)
        ensures
            r == (self@.len() == 0),
    {
        self.len() == 0
    }
}

/// Compare values collected during a run: one observed comparison's two
/// operands.  Numeric variants hold same-width unsigned integer pairs;
/// `Bytes` holds two inline byte strings.
#[derive(Debug, Copy, Clone, PartialEq, Eq)]
pub enum CmpValues {
    /// Two u8 values
    U8((u8, u8)),
    /// Two u16 values
    U16((u16, u16)),
    /// Two u32 values
    U32((u32, u32)),
    /// Two u64 values
    U64((u64, u64)),
    /// Two byte strings
    Bytes((CmplogBytes, CmplogBytes)),
}

impl CmpValues {
    /// Both operands widened to 64 bits, or nothing for `Bytes`.
    pub open spec fn wide_pair(self) -> Option<(u64, u64)> {
        match self {
            CmpValues::U8(t) => Some((t.0 as u64, t.1 as u64)),
            CmpValues::U16(t) => Some((t.0 as u64, t.1 as u64)),
            CmpValues::U32(t) => Some((t.0 as u64, t.1 as u64)),
            CmpValues::U64(t) => Some(t),
            CmpValues::Bytes(_) => None,
        }
    }

    /// Returns if the values are numericals
    pub fn is_numeric(&self) -> (r: bool)
        ensures
            r == self.wide_pair() is Some,
    {
        matches!(
            self,
            CmpValues::U8(_) | CmpValues::U16(_) | CmpValues::U32(_) | CmpValues::U64(_)
        )
    }

    /// Converts the value to a u64 tuple: each numeric operand widened with
    /// no bit loss, or `None` for byte strings.
    pub fn to_u64_tuple(&self) -> (r: Option<(u64, u64)>)
        ensures
            r == self.wide_pair(),
    {
        match self {
            CmpValues::U8(t) => Some((t.0 as u64, t.1 as u64)),
            CmpValues::U16(t) => Some((t.0 as u64, t.1 as u64)),
            CmpValues::U32(t) => Some((t.0 as u64, t.1 as u64)),
            CmpValues::U64(t) => Some(*t),
            CmpValues::Bytes(_) => None,
        }
    }
}

/// A [`CmpMap`] traces comparisons during the current execution.
///
/// It is a fixed table of comparison sites; per site it counts how often
/// the site was hit (`executions_for`, which can exceed the logging
/// capacity) and retains a bounded number of logged operand pairs
/// (`usable_executions_for` many, readable through `values_of`).
pub trait CmpMap: Sized {
    /// Number of comparison sites in the table.
    spec fn spec_len(&self) -> usize;

    /// How often site `idx` was hit this run.
    spec fn spec_executions(&self, idx: int) -> usize;

    /// How many logged operand pairs site `idx` retains.
    spec fn spec_usable_executions(&self, idx: int) -> usize;

    /// The logged operand pair `j` of site `idx`, if available.
    spec fn spec_values(&self, idx: int, j: int) -> Option<CmpValues>;

    /// Get the number of cmps
    fn len(&self) -> (r: usize)
        ensures
            r == self.spec_len(),
    ;

    /// Get if it is empty
    fn is_empty(&self) -> (r: bool)
        ensures
            r == (self.spec_len() == 0),
    {
        self.len() == 0
    }

    /// Get the number of executions for a cmp
    fn executions_for(&self, idx: usize) -> (r: usize)
        requires
            idx < self.spec_len(),
        ensures
            r == self.spec_executions(idx as int),
    ;

    /// Get the number of logged executions for a cmp
    fn usable_executions_for(&self, idx: usize) -> (r: usize)
        requires
            idx < self.spec_len(),
        ensures
            r == self.spec_usable_executions(idx as int),
    ;

    /// Get the logged values for a cmp
    fn values_of(&self, idx: usize, execution: usize) -> (r: Option<CmpValues>)
        requires
            idx < self.spec_len(),
            execution < self.spec_usable_executions(idx as int),
        ensures
            r == self.spec_values(idx as int, execution as int),
    ;

    /// Reset the state for the next execution: afterwards every site has
    /// zero executions and zero logged pairs.
    fn reset(&mut self) -> (r: Result<(), Error>)
        ensures
            r is Ok ==> {
                &&& final(self).spec_len() == old(self).spec_len()
                &&& forall|i: int|
                    0 <= i < final(self).spec_len() ==> final(self).spec_executions(i) == 0
                        && final(self).spec_usable_executions(i) == 0
            },
    ;
}

/// Comparison header, used to describe a set of comparison values efficiently.
///
/// The layout matches the external instrumentation ABI bit for bit: the
/// fields are packed little-endian into a 2-byte record and must not be
/// reordered.
///
/// # Bitfields
///
/// - hits      (bits 0..=5):   the number of hits of a particular comparison
/// - shape     (bits 6..=10):  the operand byte width, 1..=32
/// - _type     (bit  11):      instruction compare vs function-call arguments
/// - attribute (bits 12..=15): OR-ed bitflags: `<`, `>`, `=`, `<=`, `>=`, transform
#[derive(Debug, Copy, Clone, PartialEq, Eq)]
pub struct AFLppCmpLogHeader {
    /// The header values
    pub data: [u8; 2],
}

impl AFLppCmpLogHeader {
    /// The hit count: bits 0..=5 of byte 0.
    pub open spec fn hits_spec(self) -> u32 {
        (self.data@[0] & 0x3f) as u32
    }

    /// The operand shape: bits 6..=7 of byte 0 and bits 0..=2 of byte 1.
    pub open spec fn shape_spec(self) -> u32 {
        ((self.data@[0] >> 6) | ((self.data@[1] & 0x07) << 2)) as u32
    }

    /// The record kind: bit 3 of byte 1.
    pub open spec fn type_spec(self) -> u8 {
        (self.data@[1] >> 3) & 0x01
    }

    /// The relational attribute flags: bits 4..=7 of byte 1.
    pub open spec fn attribute_spec(self) -> u32 {
        (self.data@[1] >> 4) as u32
    }

    /// A header from its packed bytes.
    pub fn new(data: [u8; 2]) -> (r: Self)
        ensures
            r.data == data,
    {
        AFLppCmpLogHeader { data }
    }

    /// The number of hits of the comparison, saturated by the runtime at 6
    /// bits.
    pub fn hits(&self) -> (r: u32)
        ensures
            r == self.hits_spec(),
    {
        (self.data[0] & 0x3f) as u32
    }

    /// Whether a comparison is u8/u8, u16/u16, etc.: the operand byte
    /// width encoded as width minus one.
    pub fn shape(&self) -> (r: u32)
        ensures
            r == self.shape_spec(),
    {
        ((self.data[0] >> 6) | ((self.data[1] & 0x07) << 2)) as u32
    }

    /// Whether the comparison value represents an instruction (like a
    /// `cmp`) or function call arguments.
    pub fn _type(&self) -> (r: u8)
        ensures
            r == self.type_spec(),
    {
        (self.data[1] >> 3) & 0x01
    }

    /// OR-ed bitflags describing whether the comparison is `<`, `>`, `=`,
    /// `<=`, `>=`, or transform.
    pub fn attribute(&self) -> (r: u32)
        ensures
            r == self.attribute_spec(),
    {
        (self.data[1] >> 4) as u32
    }
}

/// A [`CmpMap`] that additionally records, per site, the packed record
/// header of the external instrumentation ABI.
pub trait CmpMapHeaders: CmpMap {
    /// The header most recently recorded for site `idx`.
    spec fn spec_header(&self, idx: int) -> AFLppCmpLogHeader;

    /// Get the logged header for a cmp
    fn header_of(&self, idx: usize) -> (r: AFLppCmpLogHeader)
        requires
            idx < self.spec_len(),
        ensures
            r == self.spec_header(idx as int),
    ;
}

/// One comparison site of a [`StdCmpMap`]: a hit counter, a bounded ring
/// of the most recently logged operand pairs, and the packed record
/// header.
#[derive(Debug)]
struct CmpSiteLog {
    hits: usize,
    logged: Vec<CmpValues>,
    header: AFLppCmpLogHeader,
}

/// A fixed-size, heap-backed [`CmpMap`]: one concrete recording surface,
/// suitable when no instrumentation-specific layout is imposed.
///
/// Per site it keeps a ring of the [`CMP_MAP_RING_DEPTH`] most recently
/// logged operand pairs: once the ring is full, a new pair overwrites the
/// oldest slot.
#[derive(Debug)]
pub struct StdCmpMap {
    sites: Vec<CmpSiteLog>,
}

impl StdCmpMap {
    /// A map with `n` sites, none of them hit yet.
    pub fn with_sites(n: usize) -> (r: Self)
        ensures
            r.spec_len() == n,
            forall|i: int|
                0 <= i < n ==> r.spec_executions(i) == 0 && r.spec_usable_executions(i) == 0,
    {
        let mut sites: Vec<CmpSiteLog> = Vec::new();
        let mut k: usize = 0;
        while k < n
            invariant
                k <= n,
                sites@.len() == k,
                forall|i: int|
                    0 <= i < k ==> (#[trigger] sites@[i]).hits == 0 && sites@[i].logged@.len()
                        == 0,
            decreases n - k,
        {
            sites.push(
                CmpSiteLog {
                    hits: 0,
                    logged: Vec::new(),
                    header: AFLppCmpLogHeader { data: [0, 0] },
                },
            );
            k = k + 1;
        }
        StdCmpMap { sites }
    }

    /// Record one execution of site `idx` with operand pair `val`.
    ///
    /// The hit counter saturates at `usize::MAX`; the logged pair lands in
    /// the ring, overwriting the oldest slot once the ring is full.
    pub fn log(&mut self, idx: usize, val: CmpValues)
        requires
            idx < old(self).spec_len(),
        ensures
            final(self).spec_len() == old(self).spec_len(),
            final(self).spec_executions(idx as int) == if old(self).spec_executions(idx as int)
                < usize::MAX {
                old(self).spec_executions(idx as int) + 1
            } else {
                usize::MAX as int
            },
            old(self).spec_usable_executions(idx as int) < CMP_MAP_RING_DEPTH ==> {
                &&& final(self).spec_usable_executions(idx as int)
                    == old(self).spec_usable_executions(idx as int) + 1
                &&& final(self).spec_values(
                    idx as int,
                    old(self).spec_usable_executions(idx as int) as int,
                ) == Some(val)
                &&& forall|j: int|
                    0 <= j < old(self).spec_usable_executions(idx as int)
                        ==> final(self).spec_values(idx as int, j)
                        == old(self).spec_values(idx as int, j)
            },
            old(self).spec_usable_executions(idx as int) >= CMP_MAP_RING_DEPTH ==> {
                &&& final(self).spec_usable_executions(idx as int)
                    == old(self).spec_usable_executions(idx as int)
                &&& final(self).spec_values(
                    idx as int,
                    (old(self).spec_executions(idx as int) % CMP_MAP_RING_DEPTH) as int,
                ) == Some(val)
                &&& forall|j: int|
                    0 <= j < old(self).spec_usable_executions(idx as int) && j != old(
                        self,
                    ).spec_executions(idx as int) % CMP_MAP_RING_DEPTH
                        ==> final(self).spec_values(idx as int, j)
                        == old(self).spec_values(idx as int, j)
            },
            forall|i: int|
                0 <= i < old(self).spec_len() && i != idx
                    ==> final(self).spec_executions(i) == old(self).spec_executions(i)
                    && final(self).spec_usable_executions(i)
                    == old(self).spec_usable_executions(i),
            forall|i: int, j: int|
                0 <= i < old(self).spec_len() && i != idx ==> #[trigger] final(self).spec_values(
                    i,
                    j,
                ) == old(self).spec_values(i, j),
            forall|i: int|
                0 <= i < old(self).spec_len() ==> final(self).spec_header(i) == old(
                    self,
                ).spec_header(i),
    {
        let mut site = CmpSiteLog {
            hits: 0,
            logged: Vec::new(),
            header: AFLppCmpLogHeader { data: [0, 0] },
        };
        self.sites.set_and_swap(idx, &mut site);
        if site.logged.len() < CMP_MAP_RING_DEPTH {
            site.logged.push(val);
        } else {
            let pos = site.hits % CMP_MAP_RING_DEPTH;
            site.logged.set(pos, val);
        }
        if site.hits < usize::MAX {
            site.hits = site.hits + 1;
        }
        self.sites.set_and_swap(idx, &mut site);
    }

    /// Record the packed header of site `idx`, as the instrumentation
    /// runtime would.
    pub fn set_header(&mut self, idx: usize, header: AFLppCmpLogHeader)
        requires
            idx < old(self).spec_len(),
        ensures
            final(self).spec_len() == old(self).spec_len(),
            final(self).spec_header(idx as int) == header,
            forall|i: int|
                0 <= i < old(self).spec_len() && i != idx ==> final(self).spec_header(i) == old(
                    self,
                ).spec_header(i),
            forall|i: int|
                0 <= i < old(self).spec_len() ==> final(self).spec_executions(i) == old(
                    self,
                ).spec_executions(i) && final(self).spec_usable_executions(i) == old(
                    self,
                ).spec_usable_executions(i),
            forall|i: int, j: int|
                0 <= i < old(self).spec_len() ==> #[trigger] final(self).spec_values(i, j) == old(
                    self,
                ).spec_values(i, j),
    {
        let mut site = CmpSiteLog {
            hits: 0,
            logged: Vec::new(),
            header: AFLppCmpLogHeader { data: [0, 0] },
        };
        self.sites.set_and_swap(idx, &mut site);
        site.header = header;
        self.sites.set_and_swap(idx, &mut site);
    }
}

impl CmpMap for StdCmpMap {
    closed spec fn spec_len(&self) -> usize {
        self.sites@.len() as usize
    }

    closed spec fn spec_executions(&self, idx: int) -> usize {
        self.sites@[idx].hits
    }

    closed spec fn spec_usable_executions(&self, idx: int) -> usize {
        self.sites@[idx].logged@.len() as usize
    }

    closed spec fn spec_values(&self, idx: int, j: int) -> Option<CmpValues> {
        if 0 <= j < self.sites@[idx].logged@.len() {
            Some(self.sites@[idx].logged@[j])
        } else {
            None
        }
    }

    fn len(&self) -> (r: usize) {
        self.sites.len()
    }

    fn executions_for(&self, idx: usize) -> (r: usize) {
        self.sites[idx].hits
    }

    fn usable_executions_for(&self, idx: usize) -> (r: usize) {
        self.sites[idx].logged.len()
    }

    fn values_of(&self, idx: usize, execution: usize) -> (r: Option<CmpValues>) {
        Some(self.sites[idx].logged[execution])
    }

    fn reset(&mut self) -> (r: Result<(), Error>) {
        let n = self.sites.len();
        let mut fresh: Vec<CmpSiteLog> = Vec::new();
        let mut k: usize = 0;
        while k < n
            invariant
                k <= n,
                fresh@.len() == k,
                forall|i: int|
                    0 <= i < k ==> (#[trigger] fresh@[i]).hits == 0 && fresh@[i].logged@.len()
                        == 0,
            decreases n - k,
        {
            fresh.push(
                CmpSiteLog {
                    hits: 0,
                    logged: Vec::new(),
                    header: AFLppCmpLogHeader { data: [0, 0] },
                },
            );
            k = k + 1;
        }
        self.sites = fresh;
        Ok(())
    }
}

impl CmpMapHeaders for StdCmpMap {
    closed spec fn spec_header(&self, idx: int) -> AFLppCmpLogHeader {
        self.sites@[idx].header
    }

    fn header_of(&self, idx: usize) -> (r: AFLppCmpLogHeader) {
        self.sites[idx].header
    }
}

} // verus!
