use vstd::prelude::*;

verus! {

/// Flag bit: map the file into memory instead of copying it (zero-copy
/// access with OS paging).
pub const MEM_MAP_BITS: u16 = 1;

/// Flag bit: open the index read-only.
pub const READ_ONLY_BITS: u16 = 2;

/// Every flag bit the boundary understands.
pub const KNOWN_BITS: u16 = 3;

/// I/O configuration for reading an index from a file: a bitmask over two
/// independent axes, the storage strategy (resident or memory-mapped) and the
/// access mode (read-write or read-only). Configurations combine by bitwise
/// OR; the default — resident, read-write — is the zero mask and the identity
/// of that composition. The write path takes no flags: only reads do.
#[derive(Clone, Copy, Debug, PartialEq, Eq, Structural)]
pub struct IoFlags(u16);

impl IoFlags {
    /// The raw bitmask.
    pub closed spec fn bits(self) -> u16 {
        self.0
    }

    /// Only bits known to the boundary are set, so the code handed across is
    /// never one the boundary does not understand.
    pub open spec fn wf(self) -> bool {
        self.bits() <= KNOWN_BITS
    }

    /// Load the index fully into memory, read-write: the default strategy.
    pub fn mem_resident() -> (f: IoFlags)
        ensures
            f.bits() == 0,
            f.wf(),
    {
        IoFlags(0)
    }

    /// Memory-map the file rather than copy it into memory.
    pub fn mem_map() -> (f: IoFlags)
        ensures
            f.bits() == MEM_MAP_BITS,
            f.wf(),
    {
        IoFlags(MEM_MAP_BITS)
    }

    /// Open the index read-only.
    pub fn read_only() -> (f: IoFlags)
        ensures
            f.bits() == READ_ONLY_BITS,
            f.wf(),
    {
        IoFlags(READ_ONLY_BITS)
    }

    /// Combine two configurations: the bit patterns are ORed. Combining
    /// well-formed configurations never produces a code unknown to the
    /// boundary.
    pub fn or(self, other: IoFlags) -> (f: IoFlags)
        ensures
            f.bits() == (self.bits() | other.bits()),
            self.wf() && other.wf() ==> f.wf(),
    {
        proof {
            lemma_or_well_formed_bits(self.bits(), other.bits());
        }
        IoFlags(self.0 | other.0)
    }

    /// The single integer code the boundary's read call expects; the
    /// conversion is lossless.
    pub fn to_code(self) -> (c: i32)
        ensures
            c == self.bits() as i32,
    {
        self.0 as i32
    }
}

impl Default for IoFlags {
    /// The default configuration: resident, read-write — the zero mask.
    fn default() -> (f: Self)
        ensures
            f.bits() == 0,
            f.wf(),
    {
        IoFlags(0)
    }
}

/// Law: composition of flags is commutative.
pub proof fn lemma_or_commutative(a: IoFlags, b: IoFlags)
    ensures
        a.bits() | b.bits() == b.bits() | a.bits(),
{
    let x: u16 = a.bits();
    let y: u16 = b.bits();
    assert(x | y == y | x) by (bit_vector);
}

/// Law: composition of flags is associative.
pub proof fn lemma_or_associative(a: IoFlags, b: IoFlags, c: IoFlags)
    ensures
        (a.bits() | b.bits()) | c.bits() == a.bits() | (b.bits() | c.bits()),
{
    let x: u16 = a.bits();
    let y: u16 = b.bits();
    let z: u16 = c.bits();
    assert((x | y) | z == x | (y | z)) by (bit_vector);
}

/// Law: the default (zero) configuration is the identity of composition.
pub proof fn lemma_or_identity(a: IoFlags)
    ensures
        0u16 | a.bits() == a.bits(),
        a.bits() | 0u16 == a.bits(),
{
    let x: u16 = a.bits();
    assert(0u16 | x == x && x | 0u16 == x) by (bit_vector);
}

/// ORing two masks of known bits sets no bit outside them.
proof fn lemma_or_well_formed_bits(x: u16, y: u16)
    by (bit_vector)
    ensures
        x <= 3 && y <= 3 ==> (x | y) <= 3,
{
}

/// Law: combining well-formed configurations never produces a code unknown
/// to the boundary.
pub proof fn lemma_or_well_formed(a: IoFlags, b: IoFlags)
    requires
        a.wf(),
        b.wf(),
    ensures
        (a.bits() | b.bits()) <= KNOWN_BITS,
{
    lemma_or_well_formed_bits(a.bits(), b.bits());
}

/// Law: memory-mapped combined with read-only is a code distinct from either
/// flag alone and from the default.
pub proof fn lemma_composed_code_distinct()
    ensures
        MEM_MAP_BITS | READ_ONLY_BITS != MEM_MAP_BITS,
        MEM_MAP_BITS | READ_ONLY_BITS != READ_ONLY_BITS,
        MEM_MAP_BITS | READ_ONLY_BITS != 0,
{
    assert(1u16 | 2u16 == 3u16) by (bit_vector);
}

} // verus!
