//! Trap handling: what the kernel does with a trap from user mode.

pub mod context;

use vstd::prelude::*;

use riscv::interrupt::supervisor::Exception;
use riscv::interrupt::supervisor::Exception as E;
use riscv::interrupt::Trap;
use riscv::register::scause::Scause;
use riscv::ExceptionNumber;

use crate::trap::context::TrapContext;
use crate::trap::ExceptionKind as K;

verus! {

/// The standard RISC-V supervisor-mode exceptions.
#[derive(Debug, Copy, Clone, PartialEq, Eq, Structural)]
pub enum ExceptionKind {
    InstructionMisaligned,
    InstructionFault,
    IllegalInstruction,
    Breakpoint,
    LoadMisaligned,
    LoadFault,
    StoreMisaligned,
    StoreFault,
    UserEnvCall,
    SupervisorEnvCall,
    InstructionPageFault,
    LoadPageFault,
    StorePageFault,
}

/// The cause of a trap, as `scause` reports it.
#[derive(Debug, Copy, Clone, PartialEq, Eq, Structural)]
pub enum TrapCause {
    /// An interrupt, with its code.
    Interrupt(usize),
    /// A standard exception.
    Exception(ExceptionKind),
    /// An exception code that the standard does not assign.
    UnknownException(usize),
}

/// What the kernel does about a trap.
#[derive(Debug, Copy, Clone)]
pub enum TrapAction {
    /// Serve system call `id` with arguments `args`, store its result with
    /// `TrapContext::set_syscall_return`, and return to the application.
    Syscall { id: usize, args: (usize, usize, usize) },
    /// The application stored to a bad address: the kernel kills it.
    KillPageFault,
    /// The application ran an illegal instruction: the kernel kills it.
    KillIllegalInstruction,
    /// A trap the kernel does not handle: it stops with this cause and `stval`.
    Unsupported { cause: TrapCause, stval: usize },
}

/// The exception that standard code `code` stands for, if any.
pub open spec fn exception_of_code(code: usize) -> Option<ExceptionKind> {
    if code == 0 {
        Some(ExceptionKind::InstructionMisaligned)
    } else if code == 1 {
        Some(ExceptionKind::InstructionFault)
    } else if code == 2 {
        Some(ExceptionKind::IllegalInstruction)
    } else if code == 3 {
        Some(ExceptionKind::Breakpoint)
    } else if code == 4 {
        Some(ExceptionKind::LoadMisaligned)
    } else if code == 5 {
        Some(ExceptionKind::LoadFault)
    } else if code == 6 {
        Some(ExceptionKind::StoreMisaligned)
    } else if code == 7 {
        Some(ExceptionKind::StoreFault)
    } else if code == 8 {
        Some(ExceptionKind::UserEnvCall)
    } else if code == 9 {
        Some(ExceptionKind::SupervisorEnvCall)
    } else if code == 12 {
        Some(ExceptionKind::InstructionPageFault)
    } else if code == 13 {
        Some(ExceptionKind::LoadPageFault)
    } else if code == 15 {
        Some(ExceptionKind::StorePageFault)
    } else {
        None
    }
}

/// The code the RISC-V privileged specification assigns to exception `e`.
pub open spec fn exception_number(e: ExceptionKind) -> usize {
    match e {
        ExceptionKind::InstructionMisaligned => 0,
        ExceptionKind::InstructionFault => 1,
        ExceptionKind::IllegalInstruction => 2,
        ExceptionKind::Breakpoint => 3,
        ExceptionKind::LoadMisaligned => 4,
        ExceptionKind::LoadFault => 5,
        ExceptionKind::StoreMisaligned => 6,
        ExceptionKind::StoreFault => 7,
        ExceptionKind::UserEnvCall => 8,
        ExceptionKind::SupervisorEnvCall => 9,
        ExceptionKind::InstructionPageFault => 12,
        ExceptionKind::LoadPageFault => 13,
        ExceptionKind::StorePageFault => 15,
    }
}

/// The top bit of a register: `scause`'s interrupt flag.
pub open spec fn top_bit() -> int {
    usize::MAX / 2 + 1
}

/// The cause that the `scause` value `bits` reports: the top bit tells an
/// interrupt from an exception, the other bits give the code.
pub open spec fn cause_of(bits: usize) -> TrapCause {
    if bits >= top_bit() {
        TrapCause::Interrupt((bits - top_bit()) as usize)
    } else {
        match exception_of_code(bits) {
            Some(e) => TrapCause::Exception(e),
            None => TrapCause::UnknownException(bits),
        }
    }
}

/// `riscv::register::scause::Scause::cause` on `Scause::from_bits(bits)`,
/// as a pair (is an interrupt, code). The contract claims what the crate's
/// source shows: the flag is the top bit (bit 63, or bit 31 on riscv32) and
/// the code is the remaining bits.
#[verifier::external_body]
fn scause_cause(bits: usize) -> (r: (bool, usize))
    ensures
        r.0 == (bits >= top_bit()),
        r.1 == if r.0 {
            bits - top_bit()
        } else {
            bits as int
        },
{
    match Scause::from_bits(bits).cause() {
        Trap::Interrupt(code) => (true, code),
        Trap::Exception(code) => (false, code),
    }
}

/// `<riscv::interrupt::supervisor::Exception as ExceptionNumber>::from_number`,
/// each variant turned into the `ExceptionKind` of the same name. The
/// contract claims the crate's table of standard exception codes.
#[verifier::external_body]
fn exception_from_number(code: usize) -> (r: Option<ExceptionKind>)
    ensures
        r == exception_of_code(code),
{
    let e = Exception::from_number(code).ok()?;
    Some(match e {
        E::InstructionMisaligned => K::InstructionMisaligned, E::InstructionFault => K::InstructionFault,
        E::IllegalInstruction => K::IllegalInstruction, E::Breakpoint => K::Breakpoint,
        E::LoadMisaligned => K::LoadMisaligned, E::LoadFault => K::LoadFault,
        E::StoreMisaligned => K::StoreMisaligned, E::StoreFault => K::StoreFault,
        E::UserEnvCall => K::UserEnvCall, E::SupervisorEnvCall => K::SupervisorEnvCall,
        E::InstructionPageFault => K::InstructionPageFault, E::LoadPageFault => K::LoadPageFault,
        E::StorePageFault => K::StorePageFault,
    })
}

/// The cause of a trap, from the value of `scause`.
pub fn trap_cause(scause_bits: usize) -> (c: TrapCause)
    ensures
        c == cause_of(scause_bits),
{
    let (is_interrupt, code) = scause_cause(scause_bits);
    if is_interrupt {
        TrapCause::Interrupt(code)
    } else {
        match exception_from_number(code) {
            Some(e) => TrapCause::Exception(e),
            None => TrapCause::UnknownException(code),
        }
    }
}

/// Decoding `scause` loses nothing: with the top bit set the cause is the
/// interrupt whose code is the other bits; otherwise it is the exception to
/// which the standard assigns that code, and only when the standard assigns
/// it to none is it an unknown exception with that code. So two different
/// codes never decode to the same exception.
pub proof fn lemma_cause_of_gives_back_the_code(bits: usize)
    ensures
        bits >= top_bit() ==> cause_of(bits) == TrapCause::Interrupt((bits - top_bit()) as usize),
        bits < top_bit() ==> match cause_of(bits) {
            TrapCause::Exception(e) => exception_number(e) == bits,
            TrapCause::UnknownException(c) => c == bits && forall|e: ExceptionKind|
                #[trigger] exception_number(e) != bits,
            TrapCause::Interrupt(_) => false,
        },
{
    if bits < top_bit() {
        if let TrapCause::UnknownException(c) = cause_of(bits) {
            assert forall|e: ExceptionKind| #[trigger] exception_number(e) != bits by {
                match e {
                    ExceptionKind::InstructionMisaligned => {},
                    ExceptionKind::InstructionFault => {},
                    ExceptionKind::IllegalInstruction => {},
                    ExceptionKind::Breakpoint => {},
                    ExceptionKind::LoadMisaligned => {},
                    ExceptionKind::LoadFault => {},
                    ExceptionKind::StoreMisaligned => {},
                    ExceptionKind::StoreFault => {},
                    ExceptionKind::UserEnvCall => {},
                    ExceptionKind::SupervisorEnvCall => {},
                    ExceptionKind::InstructionPageFault => {},
                    ExceptionKind::LoadPageFault => {},
                    ExceptionKind::StorePageFault => {},
                }
            }
        }
    }
}

/// Every standard exception decodes from its own code.
pub proof fn lemma_each_exception_decodes_from_its_code(e: ExceptionKind)
    ensures
        cause_of(exception_number(e)) == TrapCause::Exception(e),
{
}

/// True when the `scause` value `scause_bits` reports a system call from
/// user mode.
pub fn cause_is_ecall(scause_bits: usize) -> (b: bool)
    ensures
        b == (cause_of(scause_bits) == TrapCause::Exception(ExceptionKind::UserEnvCall)),
{
    trap_cause(scause_bits) == TrapCause::Exception(ExceptionKind::UserEnvCall)
}

/// What the kernel does with the trap whose `scause` and `stval` values are
/// given, `cx` being the saved user context. A system call (`ecall` from user
/// mode) moves `sepc` past the 4-byte `ecall` instruction and asks for system
/// call `x17` with arguments `x10`, `x11`, `x12`; a store fault or store page
/// fault and an illegal instruction kill the application; any other trap is
/// not supported. Only a system call changes the context.
pub fn trap_handler(cx: &mut TrapContext, scause_bits: usize, stval: usize) -> (a: TrapAction)
    requires
        cause_of(scause_bits) == TrapCause::Exception(ExceptionKind::UserEnvCall) ==> old(
            cx,
        ).sepc <= usize::MAX - 4,
    ensures
        ({
            let cause = cause_of(scause_bits);
            if cause == TrapCause::Exception(ExceptionKind::UserEnvCall) {
                &&& final(cx).sepc == old(cx).sepc + 4
                &&& final(cx).x@ == old(cx).x@
                &&& final(cx).sstatus == old(cx).sstatus
                &&& a == (TrapAction::Syscall {
                    id: old(cx).x@[17],
                    args: (old(cx).x@[10], old(cx).x@[11], old(cx).x@[12]),
                })
            } else {
                &&& *final(cx) == *old(cx)
                &&& a == if cause == TrapCause::Exception(ExceptionKind::StoreFault) || cause
                    == TrapCause::Exception(ExceptionKind::StorePageFault) {
                    TrapAction::KillPageFault
                } else if cause == TrapCause::Exception(ExceptionKind::IllegalInstruction) {
                    TrapAction::KillIllegalInstruction
                } else {
                    TrapAction::Unsupported { cause, stval }
                }
            }
        }),
{
    let cause = trap_cause(scause_bits);
    match cause {
        TrapCause::Exception(ExceptionKind::UserEnvCall) => {
            cx.sepc = cx.sepc + 4;
            TrapAction::Syscall { id: cx.x[17], args: (cx.x[10], cx.x[11], cx.x[12]) }
        },
        TrapCause::Exception(ExceptionKind::StoreFault)
        | TrapCause::Exception(ExceptionKind::StorePageFault) => TrapAction::KillPageFault,
        TrapCause::Exception(ExceptionKind::IllegalInstruction) => TrapAction::KillIllegalInstruction,
        _ => TrapAction::Unsupported { cause, stval },
    }
}

} // verus!
