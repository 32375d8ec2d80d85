//! The instrument's fixed port and editor-surface geometry: one input
//! note port, one stereo output audio port, no others, and a 400 by 300
//! logical-unit editor surface.
use vstd::prelude::*;

verus! {

/// Width of the requested editor surface, in logical units.
pub const GUI_WIDTH: u32 = 400;

/// Height of the requested editor surface, in logical units.
pub const GUI_HEIGHT: u32 = 300;

/// Channels of the output audio port: stereo.
pub const OUTPUT_CHANNELS: u32 = 2;

/// How many note ports the instrument exposes on each side: one input,
/// no outputs.
pub fn note_port_count(is_input: bool) -> (r: u32)
    ensures
        r == (if is_input { 1u32 } else { 0u32 }),
{
    if is_input { 1 } else { 0 }
}

/// How many audio ports the instrument exposes on each side: one output,
/// no inputs.
pub fn audio_port_count(is_input: bool) -> (r: u32)
    ensures
        r == (if is_input { 0u32 } else { 1u32 }),
{
    if is_input { 0 } else { 1 }
}

/// The editor surface size the host should allocate, width then height.
pub fn get_size() -> (r: (u32, u32))
    ensures
        r == (GUI_WIDTH, GUI_HEIGHT),
{
    (GUI_WIDTH, GUI_HEIGHT)
}

} // verus!
