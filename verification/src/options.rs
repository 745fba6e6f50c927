//! The set of toggles that controls one traversal pass: which object classes
//! are descended into and which verbose property groups are reported.
use vstd::prelude::*;

verus! {

/// Option bit: include box objects in the walk.
pub const INCLUDE_BOXES: u16 = 0x0001;

/// Option bit: include clock-device objects in the walk.
pub const INCLUDE_CLOCKS: u16 = 0x0002;

/// Option bit: include stream objects in the walk.
pub const INCLUDE_STREAMS: u16 = 0x0004;

/// Option bit: report the lists of available formats and sample rates.
pub const INCLUDE_FORMATS: u16 = 0x0008;

/// Option bit: report the expanded preferred channel layout.
pub const INCLUDE_CHANNELS: u16 = 0x0010;

/// Option bit: include control objects in the walk.
pub const INCLUDE_CONTROLS: u16 = 0x0020;

/// Option bit: include plug-in objects in the walk.
pub const INCLUDE_PLUGINS: u16 = 0x0040;

/// Option bit: include process objects in the walk.
pub const INCLUDE_PROCESSES: u16 = 0x0080;

/// Option bit: report failed property reads with their status code.
pub const DEBUG: u16 = 0x0100;

/// Every defined option bit, the debug bit included.
pub const ALL_OPTION_BITS: u16 = 0x01ff;

/// An immutable bit set of independent toggles, threaded unchanged through
/// every recursive call of one traversal pass.
#[derive(Clone, Copy, Debug, PartialEq, Eq, Hash, Structural)]
pub struct TraversalOptions {
    pub bits: u16,
}

impl TraversalOptions {
    /// Whether every bit of `flags` is set.
    pub open spec fn has(self, flags: u16) -> bool {
        self.bits & flags == flags
    }

    /// No toggle set: the default for every flag.
    pub fn empty() -> (r: TraversalOptions)
        ensures
            r.bits == 0,
    {
        TraversalOptions { bits: 0 }
    }

    /// Every defined toggle set, the debug toggle included.
    pub fn all() -> (r: TraversalOptions)
        ensures
            r.bits == ALL_OPTION_BITS,
    {
        TraversalOptions { bits: ALL_OPTION_BITS }
    }

    /// Sets every bit of `flags`, leaving the other bits as they were.
    pub fn insert(&mut self, flags: u16)
        ensures
            final(self).bits == old(self).bits | flags,
            final(self).has(flags),
    {
        let bits: u16 = self.bits | flags;
        proof {
            assert(forall|b: u16, f: u16| #[trigger] ((b | f) & f) == f) by (bit_vector);
        }
        self.bits = bits;
    }

    /// Clears every bit of `flags`, leaving the other bits as they were.
    pub fn remove(&mut self, flags: u16)
        ensures
            final(self).bits == old(self).bits & !flags,
    {
        self.bits = self.bits & !flags;
    }

    /// Whether every bit of `flags` is set.
    pub fn contains(&self, flags: u16) -> (r: bool)
        ensures
            r == self.has(flags),
    {
        self.bits & flags == flags
    }

    /// The all-inclusive preset: every class and verbose toggle set, debug
    /// mode off, whatever the prior state was.
    pub fn include_all(self) -> (r: TraversalOptions)
        ensures
            r.bits == ALL_OPTION_BITS & !DEBUG,
            r.has(INCLUDE_BOXES),
            r.has(INCLUDE_CLOCKS),
            r.has(INCLUDE_STREAMS),
            r.has(INCLUDE_FORMATS),
            r.has(INCLUDE_CHANNELS),
            r.has(INCLUDE_CONTROLS),
            r.has(INCLUDE_PLUGINS),
            r.has(INCLUDE_PROCESSES),
            !r.has(DEBUG),
    {
        let mut r = TraversalOptions::all();
        r.remove(DEBUG);
        proof {
            assert(0x01ffu16 & !0x0100u16 == 0x00ffu16) by (bit_vector);
            assert(0x00ffu16 & 0x0001u16 == 0x0001u16) by (bit_vector);
            assert(0x00ffu16 & 0x0002u16 == 0x0002u16) by (bit_vector);
            assert(0x00ffu16 & 0x0004u16 == 0x0004u16) by (bit_vector);
            assert(0x00ffu16 & 0x0008u16 == 0x0008u16) by (bit_vector);
            assert(0x00ffu16 & 0x0010u16 == 0x0010u16) by (bit_vector);
            assert(0x00ffu16 & 0x0020u16 == 0x0020u16) by (bit_vector);
            assert(0x00ffu16 & 0x0040u16 == 0x0040u16) by (bit_vector);
            assert(0x00ffu16 & 0x0080u16 == 0x0080u16) by (bit_vector);
            assert(0x00ffu16 & 0x0100u16 != 0x0100u16) by (bit_vector);
        }
        r
    }
}

} // verus!
