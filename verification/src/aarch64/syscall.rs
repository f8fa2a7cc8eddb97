//! Syscall decode and completion.
//!
//! A supervisor call traps with the syscall number in `x8` and up to six
//! arguments in `x0`–`x5`.  This layer only decodes the request and writes
//! the completion back; the syscall table and per-call semantics belong to
//! the dispatch collaborator, which maps a request to a single-word result.
//! After completion the trapping instruction pointer has advanced past the
//! 4-byte supervisor-call instruction, so execution resumes after it, not
//! on it.

use vstd::prelude::*;

use super::Aarch64;
use super::exceptions::ExceptionContext;

verus! {

/// Byte length of the trapping supervisor-call instruction; the resume
/// pointer advances by exactly this much.
pub const SVC_INSTRUCTION_LEN: u64 = 4;

/// A decoded syscall: the number and the six argument registers, in the
/// shape the dispatch collaborator consumes.
#[derive(Debug, Clone, Copy, PartialEq, Eq, Structural)]
pub struct SyscallRequest {
    pub number: u64,
    pub arg0: u64,
    pub arg1: u64,
    pub arg2: u64,
    pub arg3: u64,
    pub arg4: u64,
    pub arg5: u64,
}

/// The syscall request encoded in a trap snapshot: the number from `x8`,
/// the arguments from `x0`–`x5`.
pub open spec fn request_of(ctx: ExceptionContext) -> SyscallRequest {
    SyscallRequest {
        number: ctx.x8,
        arg0: ctx.x0,
        arg1: ctx.x1,
        arg2: ctx.x2,
        arg3: ctx.x3,
        arg4: ctx.x4,
        arg5: ctx.x5,
    }
}

/// Initialize the syscall interface.  Supervisor calls arrive through the
/// trap vector installed by `early_init`; no further setup is needed.
pub fn init() {
}

/// Decode the syscall request from a trap snapshot.
pub fn decode_syscall(ctx: &ExceptionContext) -> (r: SyscallRequest)
    ensures
        r == request_of(*ctx),
{
    SyscallRequest {
        number: ctx.x8,
        arg0: ctx.x0,
        arg1: ctx.x1,
        arg2: ctx.x2,
        arg3: ctx.x3,
        arg4: ctx.x4,
        arg5: ctx.x5,
    }
}

/// Advance the trapping instruction pointer past the supervisor-call
/// instruction, so trap exit resumes after it.
pub fn handle_syscall(cpu: &mut Aarch64)
    requires
        old(cpu).elr_el1 + SVC_INSTRUCTION_LEN <= u64::MAX,
    ensures
        (*final(cpu) == Aarch64 {
            elr_el1: (old(cpu).elr_el1 + SVC_INSTRUCTION_LEN) as u64,
            ..*old(cpu)
        }),
{
    cpu.elr_el1 = cpu.elr_el1 + SVC_INSTRUCTION_LEN;
}

/// Complete a syscall whose `result` the dispatch collaborator computed:
/// write the result to the return register `x0` of the interrupted task and
/// advance the resume pointer past the trapping instruction.
pub fn syscall_handler_with_context(
    cpu: &mut Aarch64,
    ctx: &mut ExceptionContext,
    result: u64,
) -> (r: u64)
    requires
        old(cpu).elr_el1 + SVC_INSTRUCTION_LEN <= u64::MAX,
    ensures
        r == result,
        (*final(ctx) == ExceptionContext { x0: result, ..*old(ctx) }),
        (*final(cpu) == Aarch64 {
            elr_el1: (old(cpu).elr_el1 + SVC_INSTRUCTION_LEN) as u64,
            ..*old(cpu)
        }),
{
    ctx.x0 = result;
    handle_syscall(cpu);
    result
}

/// A synchronous trap whose cause is the supervisor-call class delivers to
/// the dispatch collaborator exactly the number in `x8` and the arguments
/// in `x0`–`x5` of the trapped task, and completing the call leaves the
/// resume instruction pointer at the trapping instruction pointer plus the
/// fixed instruction length.
pub proof fn lemma_syscall_dispatch(cpu: Aarch64, ctx: ExceptionContext, result: u64)
    requires
        super::exceptions::esr_exception_class(cpu.esr_el1) == super::exceptions::EC_SVC64,
        cpu.elr_el1 + SVC_INSTRUCTION_LEN <= u64::MAX,
    ensures
        super::exceptions::sync_disposition_spec(cpu, ctx)
            == super::exceptions::SyncDisposition::Syscall(request_of(ctx)),
        request_of(ctx).number == ctx.x8,
        request_of(ctx).arg0 == ctx.x0,
        (Aarch64 { elr_el1: (cpu.elr_el1 + SVC_INSTRUCTION_LEN) as u64, ..cpu }).elr_el1
            == cpu.elr_el1 + SVC_INSTRUCTION_LEN,
{
}

} // verus!
