//! Power control for the x86-64 target: shutdown through the platform's
//! debug-exit port.
//!
//! The hardware thread writes a fixed value to a fixed I/O port; if that
//! write returns instead of powering the machine off, the thread falls back
//! to an infinite halt loop.  Control never returns to the caller.

use vstd::prelude::*;

verus! {

/// I/O port whose write requests power-off on the supported platform.
pub const SHUTDOWN_PORT: u16 = 0xf4;

/// Value written to the shutdown port.
pub const SHUTDOWN_VALUE: u32 = 0;

/// One step of the power-down sequence, performed by the runtime.
#[derive(Debug, Clone, Copy, PartialEq, Eq, Structural)]
pub enum PowerAction {
    /// Write this value to this I/O port; on success the machine powers
    /// off.
    PortWrite { port: u16, value: u32 },
    /// Halt until an interrupt arrives.
    Halt,
}

/// Where the power-down sequence stands.
#[derive(Debug, Clone, Copy, PartialEq, Eq, Structural)]
pub enum PowerStage {
    /// The port write has not been issued yet.
    Request,
    /// The port write was issued and returned — it failed — so the thread
    /// halts forever.
    Halted,
}

/// The power-down sequence of one hardware thread.
#[derive(Debug, Clone, Copy, PartialEq, Eq, Structural)]
pub struct PowerSequence {
    pub stage: PowerStage,
}

/// The next action of a sequence, and the sequence afterwards.
pub open spec fn next_action_spec(s: PowerSequence) -> (PowerSequence, PowerAction) {
    match s.stage {
        PowerStage::Request => (
            PowerSequence { stage: PowerStage::Halted },
            PowerAction::PortWrite { port: SHUTDOWN_PORT, value: SHUTDOWN_VALUE },
        ),
        PowerStage::Halted => (s, PowerAction::Halt),
    }
}

/// Begin shutting the system down.  On hardware this operation never
/// returns: the returned sequence is everything the thread does from here
/// on.
pub fn shutdown() -> (s: PowerSequence)
    ensures
        s.stage == PowerStage::Request,
{
    PowerSequence { stage: PowerStage::Request }
}

impl PowerSequence {
    /// The next action to perform.  The first action is the port write; if
    /// it returns — the platform ignored it — every further action is the
    /// halt, forever.
    pub fn next_action(&mut self) -> (a: PowerAction)
        ensures
            (*final(self), a) == next_action_spec(*old(self)),
            old(self).stage is Halted ==> a == PowerAction::Halt,
            final(self).stage is Halted,
    {
        match self.stage {
            PowerStage::Request => {
                self.stage = PowerStage::Halted;
                PowerAction::PortWrite { port: SHUTDOWN_PORT, value: SHUTDOWN_VALUE }
            },
            PowerStage::Halted => PowerAction::Halt,
        }
    }
}

} // verus!
