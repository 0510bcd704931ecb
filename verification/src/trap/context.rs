use vstd::prelude::*;

use riscv::register::sstatus::{Sstatus, SPP};

verus! {

/// Bit 8 of `sstatus`: SPP, the privilege level a trap came from (0 for user mode).
pub const SSTATUS_SPP: usize = 0x100;

/// The `sstatus` fields other than SPP that sit at the same bits on 32- and
/// 64-bit targets: SIE (bit 1), SPIE (5), UBE (6), VS (9-10), FS (13-14),
/// XS (15-16), SUM (18) and MXR (19).
pub const SSTATUS_FIELDS: usize = 0x000d_e662;

/// On a 64-bit target, every `sstatus` field other than SPP: those of
/// `SSTATUS_FIELDS`, UXL (bits 32-33) and SD (bit 63).
pub const SSTATUS_FIELDS_64: u64 = 0x8000_0003_000d_e662;

/// On a 32-bit target, every `sstatus` field other than SPP: those of
/// `SSTATUS_FIELDS` and SD (bit 31).
pub const SSTATUS_FIELDS_32: u32 = 0x800d_e662;

/// The `sstatus` value `bits` with SPP set to user mode: every field keeps its
/// value, SPP becomes 0, and the bits that hold no field are 0.
pub open spec fn user_mode_sstatus(bits: usize) -> usize {
    if usize::BITS == 64 {
        ((bits as u64) & SSTATUS_FIELDS_64) as usize
    } else {
        ((bits as u32) & SSTATUS_FIELDS_32) as usize
    }
}

/// Setting SPP to user mode clears bit 8 and keeps every field of
/// `SSTATUS_FIELDS`.
pub proof fn lemma_user_mode_sstatus_fields(bits: usize)
    ensures
        user_mode_sstatus(bits) & SSTATUS_SPP == 0,
        user_mode_sstatus(bits) & SSTATUS_FIELDS == bits & SSTATUS_FIELDS,
{
    if usize::BITS == 64 {
        assert(((bits as u64) & 0x8000_0003_000d_e662u64) as usize & 0x100usize == 0) by (bit_vector)
            requires usize::BITS == 64;
        assert(((bits as u64) & 0x8000_0003_000d_e662u64) as usize & 0x000d_e662usize == bits
            & 0x000d_e662usize) by (bit_vector)
            requires usize::BITS == 64;
    } else {
        assert(((bits as u32) & 0x800d_e662u32) as usize & 0x100usize == 0) by (bit_vector)
            requires usize::BITS == 32;
        assert(((bits as u32) & 0x800d_e662u32) as usize & 0x000d_e662usize == bits
            & 0x000d_e662usize) by (bit_vector)
            requires usize::BITS == 32;
    }
}

/// The registers saved on a trap from user mode: the 32 general-purpose
/// registers, `sstatus`, and `sepc`, the address of the trapping instruction.
pub struct TrapContext {
    pub x: [usize; 32],
    pub sstatus: usize,
    pub sepc: usize,
}

/// `riscv::register::sstatus::Sstatus::set_spp`, given `SPP::User`, on the
/// value `Sstatus::from_bits(bits)`, read back with `Sstatus::bits`. The
/// contract claims what the crate's source shows: `from_bits` and `bits` keep
/// the bits of the register's mask (`0x8000_0003_000d_e762` on 64-bit
/// targets, `0x800d_e762` on riscv32), and `set_spp` clears bit 8 with
/// `bf_insert`. The crate does not build for other 32-bit targets.
#[verifier::external_body]
fn sstatus_set_spp_user(bits: usize) -> (r: usize)
    ensures
        r == user_mode_sstatus(bits),
{
    let mut s = Sstatus::from_bits(bits);
    s.set_spp(SPP::User);
    s.bits()
}

impl TrapContext {
    /// Sets the saved stack pointer, register `x2`.
    pub fn set_sp(&mut self, sp: usize)
        ensures
            final(self).x@ == old(self).x@.update(2, sp),
            final(self).sstatus == old(self).sstatus,
            final(self).sepc == old(self).sepc,
    {
        self.x[2] = sp;
    }

    /// Sets the value a system call returns to user mode, register `x10` (`a0`).
    pub fn set_syscall_return(&mut self, ret: isize)
        ensures
            final(self).x@ == old(self).x@.update(10, ret as usize),
            final(self).sstatus == old(self).sstatus,
            final(self).sepc == old(self).sepc,
    {
        self.x[10] = ret as usize;
    }

    /// The context a new application starts from: returning from the trap
    /// enters user mode at `entry` with stack pointer `user_sp`; all other
    /// registers are zero. `sstatus_bits` is the current value of `sstatus`:
    /// the context keeps every one of its fields but SPP, which is set to
    /// user mode.
    pub fn app_init_context(entry: usize, user_sp: usize, sstatus_bits: usize) -> (cx: Self)
        ensures
            cx.sepc == entry,
            cx.x@[2] == user_sp,
            forall|i: int| 0 <= i < 32 && i != 2 ==> #[trigger] cx.x@[i] == 0,
            cx.sstatus == user_mode_sstatus(sstatus_bits),
            cx.sstatus & SSTATUS_SPP == 0,
            cx.sstatus & SSTATUS_FIELDS == sstatus_bits & SSTATUS_FIELDS,
    {
        let sstatus = sstatus_set_spp_user(sstatus_bits);
        proof {
            lemma_user_mode_sstatus_fields(sstatus_bits);
        }
        let mut cx = Self { x: [0;32], sstatus, sepc: entry };
        cx.set_sp(user_sp);
        cx
    }
}

} // verus!
