//! Events delivered by the host with each processing block, reduced to the
//! plain values that the core reads. Keys and parameter ids that the host
//! sends as "match anything" wildcards arrive as `None` and are ignored.
use vstd::prelude::*;

verus! {

/// One timestamped event out of the host's per-block batch, in delivery
/// order. Event kinds the instrument does not understand arrive as
/// `Unsupported` and are dropped silently: the audio path has no error
/// cases by design.
#[derive(Clone, Copy, PartialEq, Eq, Structural, Debug)]
pub enum Event {
    /// A key was pressed. `None` stands for a wildcard key match.
    NoteOn { key: Option<u8> },
    /// A key was released. `None` stands for a wildcard key match.
    NoteOff { key: Option<u8> },
    /// An automatable parameter changed. `None` stands for a wildcard
    /// parameter id. The value is the bit pattern of a single-precision
    /// float, carried exactly.
    ParamValue { param_id: Option<u32>, value_bits: u32 },
    /// Any event kind this instrument ignores.
    Unsupported,
}

} // verus!
