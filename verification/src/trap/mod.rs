//! Trap handling: the saved context and the dispatcher that decides what a
//! trap leads to.

pub mod context;

pub use context::TrapContext;

use crate::batch::{
    context_size, launch_result, loaded_region, run_next_app, AppManager, KernelStack, Launch,
    UserStack, APP_BASE_ADDRESS, APP_SIZE_LIMIT,
};
use crate::trap::context::{lemma_user_sstatus, previous_privilege, Privilege, SP};
use riscv::interrupt::supervisor::{Exception, Interrupt};
use riscv::interrupt::Trap;
use riscv::register::scause::Scause;
use riscv::register::stvec::{Stvec, TrapMode};
use vstd::prelude::*;

verus! {

/// Value of `scause` for an illegal instruction.
pub const SCAUSE_ILLEGAL_INSTRUCTION: usize = 2;

/// Value of `scause` for a store to an address that cannot be written.
pub const SCAUSE_STORE_FAULT: usize = 7;

/// Value of `scause` for an environment call from user mode.
pub const SCAUSE_USER_ENV_CALL: usize = 8;

/// Value of `scause` for a store to a page that is not mapped.
pub const SCAUSE_STORE_PAGE_FAULT: usize = 15;

/// Length of the instruction that makes an environment call, in bytes.
pub const ECALL_LEN: usize = 4;

/// Index of the register that carries the first argument of a system call,
/// and its result (`a0`).
pub const A0: usize = 10;

/// Index of the register that carries the number of a system call (`a7`).
pub const A7: usize = 17;

/// The causes of a trap that the dispatcher tells apart.
#[derive(Clone, Copy, Debug, PartialEq, Eq, Structural)]
pub enum TrapCause {
    /// The application made a system call.
    UserEnvCall,
    /// The application stored to an address that cannot be written.
    StoreFault,
    /// The application stored to a page that is not mapped.
    StorePageFault,
    /// The application ran an instruction that is not one.
    IllegalInstruction,
    /// Any other exception, and every interrupt.
    Unsupported,
}

/// The fault for which an application is killed.
#[derive(Clone, Copy, Debug, PartialEq, Eq, Structural)]
pub enum Fault {
    /// A store that the memory refused.
    PageFault,
    /// An instruction that is not one.
    IllegalInstruction,
}

/// What the caller has to do after a trap.
#[derive(Clone, Copy, Debug, PartialEq, Eq)]
pub enum TrapAction {
    /// The application made system call `id` with the arguments `args`, and
    /// the saved program counter now points behind the call. The caller
    /// services the call and hands its result to `syscall_return`.
    Syscall { id: usize, args: [usize; 3] },
    /// Application `app_id` was killed for `fault`, and the sequencer was
    /// asked for the next one; `next` says what became of that.
    Killed { fault: Fault, app_id: usize, next: Launch },
    /// The kernel has no answer to this trap: the caller reports the cause
    /// and the fault detail, and stops.
    Unsupported { scause: usize, stval: usize },
}

/// The cause that the register value `scause` stands for.
pub open spec fn cause_of(scause: usize) -> TrapCause {
    if scause == SCAUSE_USER_ENV_CALL {
        TrapCause::UserEnvCall
    } else if scause == SCAUSE_STORE_FAULT {
        TrapCause::StoreFault
    } else if scause == SCAUSE_STORE_PAGE_FAULT {
        TrapCause::StorePageFault
    } else if scause == SCAUSE_ILLEGAL_INSTRUCTION {
        TrapCause::IllegalInstruction
    } else {
        TrapCause::Unsupported
    }
}

/// The fault that `cause` kills an application for, if it is one.
pub open spec fn fault_of(cause: TrapCause) -> Option<Fault> {
    match cause {
        TrapCause::StoreFault | TrapCause::StorePageFault => Some(Fault::PageFault),
        TrapCause::IllegalInstruction => Some(Fault::IllegalInstruction),
        _ => None,
    }
}

/// The register value that carries the result `result` of a system call: the
/// same number where it is not negative, its two's complement where it is.
pub open spec fn register_value(result: isize) -> usize {
    if result >= 0 {
        result as usize
    } else {
        (result + usize::MAX + 1) as usize
    }
}

/// Decodes a value of `scause` with `Scause::cause` of the crate `riscv`, and
/// turns the raw numbers into the standard causes with `Trap::try_into`.
///
/// Trusted: the highest bit of the register tells an interrupt from an
/// exception, the other bits are the code, and the codes 2, 7, 8 and 15 are
/// the exceptions named here. So each of the four is one value of the
/// register.
#[verifier::external_body]
fn decode_cause(scause: usize) -> (cause: TrapCause)
    ensures
        cause == cause_of(scause),
{
    match Scause::from_bits(scause).cause().try_into::<Interrupt, Exception>() {
        Ok(Trap::Exception(Exception::UserEnvCall)) => TrapCause::UserEnvCall,
        Ok(Trap::Exception(Exception::StoreFault)) => TrapCause::StoreFault,
        Ok(Trap::Exception(Exception::StorePageFault)) => TrapCause::StorePageFault,
        Ok(Trap::Exception(Exception::IllegalInstruction)) => TrapCause::IllegalInstruction,
        _ => TrapCause::Unsupported,
    }
}

/// Builds a value of `stvec` with `Stvec::try_new` of the crate `riscv`, in
/// the mode `TrapMode::Direct`, and reads its bits with `Stvec::bits`.
///
/// Trusted: an address that is not a multiple of four is refused; for any
/// other the register value is the address itself, the mode being zero.
#[verifier::external_body]
fn stvec_direct(address: usize) -> (bits: Option<usize>)
    ensures
        bits == if address % 4 == 0 { Some(address) } else { None::<usize> },
{
    match Stvec::try_new(address, TrapMode::Direct) {
        Ok(stvec) => Some(stvec.bits()),
        Err(_) => None,
    }
}

/// The value to write to `stvec` so that every trap enters the kernel at
/// `entry`; `None` where `entry` is not a multiple of four, which the
/// register cannot hold.
pub fn init(entry: usize) -> (stvec: Option<usize>)
    ensures
        stvec == if entry % 4 == 0 { Some(entry) } else { None::<usize> },
{
    stvec_direct(entry)
}

/// The context `after` is `before` on entry to a system call: the saved
/// program counter points behind the call, and nothing else has changed.
pub open spec fn syscall_entered(before: TrapContext, after: TrapContext) -> bool {
    &&& after.sepc == before.sepc + ECALL_LEN
    &&& after.x@ == before.x@
    &&& after.sstatus == before.sstatus
}

/// The context `after` is `before` with the result of a system call: the
/// register `a0` carries `result`, and nothing else has changed.
pub open spec fn syscall_returned(before: TrapContext, after: TrapContext, result: isize) -> bool {
    &&& after.x@ == before.x@.update(A0 as int, register_value(result))
    &&& after.sepc == before.sepc
    &&& after.sstatus == before.sstatus
}

/// Decides what the trap with the cause `scause` and the fault detail
/// `stval` leads to. The context of the application stands in the slot of
/// the kernel stack; `sstatus` is the current value of the status register.
///
/// - A system call: the saved program counter is moved behind the call, and
///   the caller is handed the number and the arguments of the call.
/// - A store that the memory refused, or an illegal instruction: the current
///   application is killed, and the next one is run as `run_next_app` does.
/// - Anything else: nothing is touched, and the caller is handed the cause
///   and the detail to report before it stops.
pub fn trap_handler(
    manager: &mut AppManager,
    kernel_stack: &mut KernelStack,
    user_stack: &UserStack,
    region: &mut [u8],
    scause: usize,
    stval: usize,
    sstatus: usize,
) -> (action: TrapAction)
    requires
        old(manager).wf(),
        old(manager).current() < old(manager).app_count(),
        old(kernel_stack).wf(),
        user_stack.wf(),
        old(region)@.len() == APP_SIZE_LIMIT,
        cause_of(scause) == TrapCause::UserEnvCall ==> old(kernel_stack).context().sepc + ECALL_LEN
            <= usize::MAX,
    ensures
        final(manager).wf(),
        final(manager).same_table_as(old(manager)),
        final(kernel_stack).wf(),
        final(kernel_stack).base() == old(kernel_stack).base(),
        cause_of(scause) == TrapCause::UserEnvCall ==> {
            &&& action matches TrapAction::Syscall { id, args }
            &&& id == old(kernel_stack).context().x[A7 as int]
            &&& args@ == old(kernel_stack).context().x@.subrange(A0 as int, A0 + 3)
            &&& syscall_entered(old(kernel_stack).context(), final(kernel_stack).context())
            &&& final(manager).current() == old(manager).current()
            &&& final(region)@ == old(region)@
        },
        fault_of(cause_of(scause)) matches Some(fault) ==> {
            &&& action matches TrapAction::Killed { fault: reported, app_id, next }
            &&& reported == fault
            &&& app_id == old(manager).current()
            &&& final(manager).is_next_of(old(manager))
            &&& launch_result(
                final(manager),
                final(manager).current(),
                user_stack,
                sstatus,
                *old(kernel_stack),
                *final(kernel_stack),
                old(region)@,
                final(region)@,
                next,
            )
        },
        cause_of(scause) == TrapCause::Unsupported ==> {
            &&& action == (TrapAction::Unsupported { scause, stval })
            &&& final(manager).current() == old(manager).current()
            &&& final(kernel_stack).context() == old(kernel_stack).context()
            &&& final(region)@ == old(region)@
        },
{
    match decode_cause(scause) {
        TrapCause::UserEnvCall => {
            let cx = kernel_stack.context_mut();
            cx.sepc += ECALL_LEN;
            let id: usize = cx.x[A7];
            let args: [usize; 3] = [cx.x[A0], cx.x[A0 + 1], cx.x[A0 + 2]];
            proof {
                assert(args@ =~= cx.x@.subrange(A0 as int, A0 + 3));
            }
            TrapAction::Syscall { id, args }
        },
        TrapCause::StoreFault | TrapCause::StorePageFault => {
            let app_id = manager.get_current_app();
            let next = run_next_app(manager, kernel_stack, user_stack, region, sstatus);
            TrapAction::Killed { fault: Fault::PageFault, app_id, next }
        },
        TrapCause::IllegalInstruction => {
            let app_id = manager.get_current_app();
            let next = run_next_app(manager, kernel_stack, user_stack, region, sstatus);
            TrapAction::Killed { fault: Fault::IllegalInstruction, app_id, next }
        },
        TrapCause::Unsupported => TrapAction::Unsupported { scause, stval },
    }
}

/// Completes a system call: writes its result to the register `a0` of the
/// context in the slot, and returns the address of the slot, from which the
/// caller restores the application.
pub fn syscall_return(kernel_stack: &mut KernelStack, result: isize) -> (cx_addr: usize)
    requires
        old(kernel_stack).wf(),
    ensures
        final(kernel_stack).wf(),
        final(kernel_stack).base() == old(kernel_stack).base(),
        syscall_returned(old(kernel_stack).context(), final(kernel_stack).context(), result),
        cx_addr == old(kernel_stack).top() - context_size(),
{
    let value: usize = if result >= 0 {
        result as usize
    } else {
        usize::MAX - (-(result + 1)) as usize
    };
    let cx = kernel_stack.context_mut();
    cx.x[A0] = value;
    kernel_stack.context_addr()
}

/// A system call that is entered and then completed resumes the application
/// behind the call, with the result of the call in the register `a0` and
/// every other register, and the status, as they were on entry to the trap.
pub proof fn lemma_syscall_round_trip(
    before: TrapContext,
    entered: TrapContext,
    resumed: TrapContext,
    result: isize,
)
    requires
        syscall_entered(before, entered),
        syscall_returned(entered, resumed, result),
    ensures
        resumed.sepc == before.sepc + ECALL_LEN,
        resumed.x[A0 as int] == register_value(result),
        forall|i: int| 0 <= i < 32 && i != A0 ==> resumed.x[i] == before.x[i],
        resumed.sstatus == before.sstatus,
{
}

/// Killing application `k` while another one is left after it runs that
/// one: the execution region holds the image of application `k + 1`, the
/// slot holds its initial context, and the caller is told to restore it.
pub proof fn lemma_kill_runs_next(
    manager: &AppManager,
    k: nat,
    user_stack: &UserStack,
    sstatus: usize,
    stack_before: KernelStack,
    stack_after: KernelStack,
    region_before: Seq<u8>,
    region_after: Seq<u8>,
    next: Launch,
)
    requires
        manager.wf(),
        user_stack.wf(),
        k + 1 < manager.app_count(),
        launch_result(
            manager,
            k + 1,
            user_stack,
            sstatus,
            stack_before,
            stack_after,
            region_before,
            region_after,
            next,
        ),
    ensures
        region_after == loaded_region(manager.image(k as int + 1)),
        stack_after.context().sepc == APP_BASE_ADDRESS,
        stack_after.context().x[SP as int] == user_stack.top(),
        previous_privilege(stack_after.context().sstatus) == Privilege::User,
        next matches Launch::Restore { app_id, cx_addr } && app_id == k + 1,
{
    lemma_user_sstatus(sstatus);
}

/// Killing the last application leaves the execution region and the slot as
/// they were, and tells the caller to halt the machine.
pub proof fn lemma_kill_last_halts(
    manager: &AppManager,
    k: nat,
    user_stack: &UserStack,
    sstatus: usize,
    stack_before: KernelStack,
    stack_after: KernelStack,
    region_before: Seq<u8>,
    region_after: Seq<u8>,
    next: Launch,
)
    requires
        manager.wf(),
        k + 1 == manager.app_count(),
        launch_result(
            manager,
            k + 1,
            user_stack,
            sstatus,
            stack_before,
            stack_after,
            region_before,
            region_after,
            next,
        ),
    ensures
        region_after == region_before,
        stack_after.context() == stack_before.context(),
        next == Launch::Shutdown,
{
}

} // verus!
