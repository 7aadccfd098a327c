//! The trap context: everything that is saved when an application traps into
//! the kernel, and reloaded when it is resumed.

use riscv::register::sstatus::{Sstatus, SPP};
use vstd::prelude::*;

verus! {

/// Index of the stack pointer (`sp`) among the general registers.
pub const SP: usize = 2;

/// The bit of `sstatus` that records the privilege level before the trap
/// (the field SPP): clear for user mode, set for supervisor mode.
pub const SSTATUS_SPP: usize = 0x100;

/// The privilege level that a trap came from, and that a restore returns to.
#[derive(Clone, Copy, Debug, PartialEq, Eq, Structural)]
pub enum Privilege {
    User,
    Supervisor,
}

/// The bits of `sstatus` that carry a field: the mask that the crate `riscv`
/// keeps of the register. Registers are 64 bits wide where `usize` is, and
/// 32 bits wide otherwise.
pub open spec fn sstatus_mask() -> usize {
    if usize::BITS == 64 {
        0x8000_0003_000d_e762u64 as usize
    } else {
        0x800d_e762
    }
}

/// The privilege level that the status bits `sstatus` record as the one before
/// the trap.
pub open spec fn previous_privilege(sstatus: usize) -> Privilege {
    if sstatus & SSTATUS_SPP == 0 {
        Privilege::User
    } else {
        Privilege::Supervisor
    }
}

/// The status bits `sstatus` with the previous privilege level set to user
/// mode, and every bit that carries no field cleared.
pub open spec fn user_sstatus(sstatus: usize) -> usize {
    sstatus & sstatus_mask() & !SSTATUS_SPP
}

/// Status bits that were set to user mode record user mode as the previous
/// privilege level.
pub proof fn lemma_user_sstatus(sstatus: usize)
    ensures
        previous_privilege(user_sstatus(sstatus)) == Privilege::User,
{
    let mask = sstatus_mask();
    assert((sstatus & mask & !0x100usize) & 0x100usize == 0) by (bit_vector);
}

/// Calls `Sstatus::set_spp` of the crate `riscv` with `SPP::User`, on the
/// register value made by `Sstatus::from_bits`, and reads the bits back with
/// `Sstatus::bits`.
///
/// Trusted: `from_bits` and `bits` keep the bits of the register's mask
/// (`sstatus_mask`) and drop the others, and `set_spp` with `SPP::User`
/// clears bit 8 and leaves the other bits as they are.
#[verifier::external_body]
fn sstatus_with_user_spp(sstatus: usize) -> (bits: usize)
    ensures
        bits == user_sstatus(sstatus),
{
    let mut status = Sstatus::from_bits(sstatus);
    status.set_spp(SPP::User);
    status.bits()
}

/// The saved state of an interrupted application.
#[derive(Clone, Copy, Debug, PartialEq, Eq)]
pub struct TrapContext {
    /// The general registers `x0` to `x31`.
    pub x: [usize; 32],
    /// The status register `sstatus` as it was on entry to the trap.
    pub sstatus: usize,
    /// The address at which the application resumes (`sepc`).
    pub sepc: usize,
}

impl TrapContext {
    /// This is the context from which an application starts: it resumes at
    /// `entry` in user mode, with its stack pointer at `sp` and every other
    /// register zero. `sstatus` is the status register that it was built
    /// from.
    pub open spec fn is_initial(&self, entry: usize, sp: usize, sstatus: usize) -> bool {
        &&& self.sepc == entry
        &&& self.x@ == Seq::new(32, |i: int| if i == SP { sp } else { 0usize })
        &&& self.sstatus == user_sstatus(sstatus)
    }

    /// Sets the stack pointer, register `x2`.
    pub fn set_sp(&mut self, sp: usize)
        ensures
            final(self).x@ == old(self).x@.update(SP as int, sp),
            final(self).sstatus == old(self).sstatus,
            final(self).sepc == old(self).sepc,
    {
        self.x[SP] = sp;
    }

    /// Builds the context from which an application starts.
    ///
    /// `sstatus` is the current value of the status register; the context
    /// keeps its fields, but for the previous privilege level, which is set
    /// to user mode so that a restore of this context enters user mode.
    pub fn app_init_context(entry: usize, sp: usize, sstatus: usize) -> (cx: Self)
        ensures
            cx.is_initial(entry, sp, sstatus),
            cx.sepc == entry,
            cx.x[SP as int] == sp,
            previous_privilege(cx.sstatus) == Privilege::User,
    {
        let status = sstatus_with_user_spp(sstatus);
        let mut cx = Self { x: [0; 32], sstatus: status, sepc: entry };
        cx.set_sp(sp);
        proof {
            lemma_user_sstatus(sstatus);
            assert(cx.x@ =~= Seq::new(32, |i: int| if i == SP { sp } else { 0usize }));
        }
        cx
    }
}

} // verus!
