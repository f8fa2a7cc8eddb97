//! Power control: shutdown and reboot through the platform firmware.
//!
//! The hardware thread requests power-off or reset through one fixed
//! secure-monitor call.  If the firmware call returns instead of
//! transferring control away, the thread falls back to an infinite
//! low-power wait: control never returns to the caller in any case.  The
//! model is the sequence of actions the thread performs; the runtime
//! executes each action and asks for the next one when — and only when —
//! the previous one returned.

use vstd::prelude::*;

verus! {

/// Firmware function identifier requesting system power-off.
pub const PSCI_SYSTEM_OFF: u32 = 0x84000008;

/// Firmware function identifier requesting system reset.
pub const PSCI_SYSTEM_RESET: u32 = 0x84000009;

/// What the hardware thread asks the firmware for.
#[derive(Debug, Clone, Copy, PartialEq, Eq, Structural)]
pub enum PowerRequest {
    Off,
    Reset,
}

/// One step of the power-down sequence, performed by the runtime.
#[derive(Debug, Clone, Copy, PartialEq, Eq, Structural)]
pub enum PowerAction {
    /// Issue the secure-monitor call with this function identifier; on
    /// success the firmware never returns control.
    FirmwareCall(u32),
    /// Halt in a low-power state until an interrupt arrives.
    WaitForInterrupt,
}

/// Where the power-down sequence stands.
#[derive(Debug, Clone, Copy, PartialEq, Eq, Structural)]
pub enum PowerStage {
    /// The firmware call has not been issued yet.
    Request(PowerRequest),
    /// The firmware call was issued and returned — it failed — so the
    /// thread waits forever.
    Halted,
}

/// The power-down sequence of one hardware thread.  Once begun it is never
/// left: every action after the firmware call is the low-power wait.
#[derive(Debug, Clone, Copy, PartialEq, Eq, Structural)]
pub struct PowerSequence {
    pub stage: PowerStage,
}

/// The firmware function identifier of a request.
pub open spec fn firmware_function_id(r: PowerRequest) -> u32 {
    match r {
        PowerRequest::Off => PSCI_SYSTEM_OFF,
        PowerRequest::Reset => PSCI_SYSTEM_RESET,
    }
}

/// The next action of a sequence, and the sequence afterwards.
pub open spec fn next_action_spec(s: PowerSequence) -> (PowerSequence, PowerAction) {
    match s.stage {
        PowerStage::Request(r) => (
            PowerSequence { stage: PowerStage::Halted },
            PowerAction::FirmwareCall(firmware_function_id(r)),
        ),
        PowerStage::Halted => (s, PowerAction::WaitForInterrupt),
    }
}

/// Begin shutting the system down.  On hardware this operation never
/// returns: the returned sequence is everything the thread does from here
/// on.
pub fn shutdown() -> (s: PowerSequence)
    ensures
        s.stage == PowerStage::Request(PowerRequest::Off),
{
    PowerSequence { stage: PowerStage::Request(PowerRequest::Off) }
}

/// Begin rebooting the system.  On hardware this operation never returns.
pub fn reboot() -> (s: PowerSequence)
    ensures
        s.stage == PowerStage::Request(PowerRequest::Reset),
{
    PowerSequence { stage: PowerStage::Request(PowerRequest::Reset) }
}

impl PowerSequence {
    /// The next action to perform.  The first action is the firmware call;
    /// if it returns — the firmware failed — every further action is the
    /// low-power wait, forever.
    pub fn next_action(&mut self) -> (a: PowerAction)
        ensures
            (*final(self), a) == next_action_spec(*old(self)),
            old(self).stage is Halted ==> a == PowerAction::WaitForInterrupt,
            final(self).stage is Halted,
    {
        match self.stage {
            PowerStage::Request(r) => {
                self.stage = PowerStage::Halted;
                match r {
                    PowerRequest::Off => PowerAction::FirmwareCall(PSCI_SYSTEM_OFF),
                    PowerRequest::Reset => PowerAction::FirmwareCall(PSCI_SYSTEM_RESET),
                }
            },
            PowerStage::Halted => PowerAction::WaitForInterrupt,
        }
    }
}

/// The sequence after `n` further actions.
pub open spec fn run_actions(s: PowerSequence, n: nat) -> PowerSequence
    decreases n,
{
    if n == 0 {
        s
    } else {
        next_action_spec(run_actions(s, (n - 1) as nat)).0
    }
}

/// When the firmware call has failed, the hardware thread stays in the
/// low-power wait forever: after any number of further steps the sequence
/// is still halted and its next action is still the wait.  Control never
/// returns to the caller of `shutdown` or `reboot`.
pub proof fn lemma_halted_waits_forever(s: PowerSequence, n: nat)
    requires
        s.stage is Halted,
    ensures
        run_actions(s, n).stage is Halted,
        next_action_spec(run_actions(s, n)).1 == PowerAction::WaitForInterrupt,
    decreases n,
{
    if n > 0 {
        lemma_halted_waits_forever(s, (n - 1) as nat);
    }
}

} // verus!
