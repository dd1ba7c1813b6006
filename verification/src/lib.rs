//! Verified core of `rustream`, the Python bindings of a multi-modal stream fusion engine:
//! frames, detection signals, violations and events as the caller sees them, their
//! conversion to and from the fusion engine's records, the replay of recorded sessions, the
//! pipeline's lifecycle, and the errors raised.

pub mod engine;
pub mod errors;
pub mod events;
pub mod frame;
pub mod pipeline;
pub mod replay;
pub mod signals;
pub mod text;

pub use frame::{create_synthetic_frame, Frame, PyFrame};

use vstd::prelude::*;

verus! {

/// The execution provider inference runs on, and whether it is hardware accelerated: this
/// build runs on the CPU.
pub fn device_info() -> (info: (String, bool))
    ensures
        info.0@ == "CPU"@,
        !info.1,
{
    (String::from_str("CPU"), false)
}

} // verus!
