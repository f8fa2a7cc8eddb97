//! Power control: shutdown and reboot through the firmware's system-reset
//! extension.
//!
//! The hart requests power-off or reset with one fixed environment call.
//! If the call returns instead of transferring control away, the hart falls
//! back to an infinite low-power wait: control never returns to the caller
//! in any case.

use vstd::prelude::*;

use super::sbi;
use super::sbi::SbiCall;

verus! {

/// What the hart asks the firmware for.
#[derive(Debug, Clone, Copy, PartialEq, Eq, Structural)]
pub enum PowerRequest {
    Off,
    Reset,
}

/// One step of the power-down sequence, performed by the runtime.
#[derive(Debug, Clone, Copy, PartialEq, Eq, Structural)]
pub enum PowerAction {
    /// Issue this environment call; on success the firmware never returns
    /// control.
    FirmwareCall(SbiCall),
    /// Halt in a low-power state until an interrupt arrives.
    WaitForInterrupt,
}

/// Where the power-down sequence stands.
#[derive(Debug, Clone, Copy, PartialEq, Eq, Structural)]
pub enum PowerStage {
    /// The firmware call has not been issued yet.
    Request(PowerRequest),
    /// The firmware call was issued and returned — it failed — so the hart
    /// waits forever.
    Halted,
}

/// The power-down sequence of one hart.  Once begun it is never left:
/// every action after the firmware call is the low-power wait.
#[derive(Debug, Clone, Copy, PartialEq, Eq, Structural)]
pub struct PowerSequence {
    pub stage: PowerStage,
}

/// The environment call of a request.
pub open spec fn firmware_call_of(r: PowerRequest) -> SbiCall {
    match r {
        PowerRequest::Off => SbiCall {
            extension: sbi::SBI_SRST_EXTENSION,
            function: 0,
            arg0: sbi::SBI_RESET_TYPE_SHUTDOWN,
            arg1: 0,
            arg2: 0,
        },
        PowerRequest::Reset => SbiCall {
            extension: sbi::SBI_SRST_EXTENSION,
            function: 0,
            arg0: sbi::SBI_RESET_TYPE_COLD_REBOOT,
            arg1: 0,
            arg2: 0,
        },
    }
}

/// The next action of a sequence, and the sequence afterwards.
pub open spec fn next_action_spec(s: PowerSequence) -> (PowerSequence, PowerAction) {
    match s.stage {
        PowerStage::Request(r) => (
            PowerSequence { stage: PowerStage::Halted },
            PowerAction::FirmwareCall(firmware_call_of(r)),
        ),
        PowerStage::Halted => (s, PowerAction::WaitForInterrupt),
    }
}

/// Begin shutting the system down.  On hardware this operation never
/// returns: the returned sequence is everything the hart does from here
/// on.
pub fn shutdown() -> (s: PowerSequence)
    ensures
        s.stage == PowerStage::Request(PowerRequest::Off),
{
    PowerSequence { stage: PowerStage::Request(PowerRequest::Off) }
}

/// Begin rebooting the system.  On hardware this operation never returns.
pub fn reboot() -> (s: PowerSequence)
    ensures
        s.stage == PowerStage::Request(PowerRequest::Reset),
{
    PowerSequence { stage: PowerStage::Request(PowerRequest::Reset) }
}

impl PowerSequence {
    /// The next action to perform.  The first action is the firmware call;
    /// if it returns — the firmware failed — every further action is the
    /// low-power wait, forever.
    pub fn next_action(&mut self) -> (a: PowerAction)
        ensures
            (*final(self), a) == next_action_spec(*old(self)),
            old(self).stage is Halted ==> a == PowerAction::WaitForInterrupt,
            final(self).stage is Halted,
    {
        match self.stage {
            PowerStage::Request(r) => {
                self.stage = PowerStage::Halted;
                match r {
                    PowerRequest::Off => PowerAction::FirmwareCall(sbi::sbi_shutdown()),
                    PowerRequest::Reset => PowerAction::FirmwareCall(sbi::sbi_reboot()),
                }
            },
            PowerStage::Halted => PowerAction::WaitForInterrupt,
        }
    }
}

/// The sequence after `n` further actions.
pub open spec fn run_actions(s: PowerSequence, n: nat) -> PowerSequence
    decreases n,
{
    if n == 0 {
        s
    } else {
        next_action_spec(run_actions(s, (n - 1) as nat)).0
    }
}

/// When the firmware call has failed, the hart stays in the low-power wait
/// forever: after any number of further steps the sequence is still halted
/// and its next action is still the wait.
pub proof fn lemma_halted_waits_forever(s: PowerSequence, n: nat)
    requires
        s.stage is Halted,
    ensures
        run_actions(s, n).stage is Halted,
        next_action_spec(run_actions(s, n)).1 == PowerAction::WaitForInterrupt,
    decreases n,
{
    if n > 0 {
        lemma_halted_waits_forever(s, (n - 1) as nat);
    }
}

} // verus!
