use os_kernel::trap::context::TrapContext;
use os_kernel::syscall::{syscall, SyscallRequest};
use os_kernel::trap::{cause_is_ecall, trap_cause, trap_handler, ExceptionKind, TrapAction, TrapCause};

const INTERRUPT_BIT: usize = 1 << (usize::BITS - 1);

fn user_context() -> TrapContext {
    let mut cx = TrapContext::app_init_context(0x8040_0000, 0x8020_6000, 0x1e2);
    cx.x[17] = 93;
    cx.x[10] = 7;
    cx.x[11] = 8;
    cx.x[12] = 9;
    cx
}

#[test]
fn app_init_context_enters_user_mode() {
    let cx = TrapContext::app_init_context(0x8040_0000, 0x8020_6000, 0x1e2);
    assert_eq!(cx.sepc, 0x8040_0000);
    assert_eq!(cx.x[2], 0x8020_6000);
    for i in 0..32 {
        if i != 2 {
            assert_eq!(cx.x[i], 0);
        }
    }
    assert_eq!(cx.sstatus, 0x062);
}

#[test]
fn app_init_context_keeps_every_other_sstatus_field() {
    let cx = TrapContext::app_init_context(0, 0, usize::MAX);
    assert_eq!(cx.sstatus & 0x100, 0);
    assert_eq!(cx.sstatus & 0x000d_e662, 0x000d_e662);
    if usize::BITS == 64 {
        assert_eq!(cx.sstatus as u64, 0x8000_0003_000d_e662);
    }
    let fs_sum_mxr = 0x6000 | 0x40000 | 0x80000 | 0x100;
    let cx = TrapContext::app_init_context(0, 0, fs_sum_mxr);
    assert_eq!(cx.sstatus, 0x6000 | 0x40000 | 0x80000);
}

#[test]
fn set_sp_and_return_value() {
    let mut cx = TrapContext::app_init_context(0, 0, 0);
    cx.set_sp(0x1234);
    assert_eq!(cx.x[2], 0x1234);
    cx.set_syscall_return(-1);
    assert_eq!(cx.x[10], usize::MAX);
    cx.set_syscall_return(42);
    assert_eq!(cx.x[10], 42);
}

#[test]
fn causes_are_decoded() {
    assert_eq!(trap_cause(8), TrapCause::Exception(ExceptionKind::UserEnvCall));
    assert_eq!(trap_cause(2), TrapCause::Exception(ExceptionKind::IllegalInstruction));
    assert_eq!(trap_cause(7), TrapCause::Exception(ExceptionKind::StoreFault));
    assert_eq!(trap_cause(15), TrapCause::Exception(ExceptionKind::StorePageFault));
    assert_eq!(trap_cause(13), TrapCause::Exception(ExceptionKind::LoadPageFault));
    assert_eq!(trap_cause(10), TrapCause::UnknownException(10));
    assert_eq!(trap_cause(INTERRUPT_BIT | 5), TrapCause::Interrupt(5));
}

#[test]
fn ecall_asks_for_a_syscall_and_skips_the_instruction() {
    let mut cx = user_context();
    match trap_handler(&mut cx, 8, 0) {
        TrapAction::Syscall { id, args } => {
            assert_eq!(id, 93);
            assert_eq!(args, (7, 8, 9));
        }
        other => panic!("unexpected {:?}", other),
    }
    assert_eq!(cx.sepc, 0x8040_0004);
    assert_eq!(cx.x[10], 7);
}

#[test]
fn store_faults_kill_the_app() {
    let mut cx = user_context();
    assert!(matches!(trap_handler(&mut cx, 7, 0), TrapAction::KillPageFault));
    assert!(matches!(trap_handler(&mut cx, 15, 0), TrapAction::KillPageFault));
    assert_eq!(cx.sepc, 0x8040_0000);
}

#[test]
fn illegal_instruction_kills_the_app() {
    let mut cx = user_context();
    assert!(matches!(trap_handler(&mut cx, 2, 0), TrapAction::KillIllegalInstruction));
    assert_eq!(cx.sepc, 0x8040_0000);
}

#[test]
fn other_traps_are_unsupported() {
    let mut cx = user_context();
    match trap_handler(&mut cx, 13, 0xbad) {
        TrapAction::Unsupported { cause, stval } => {
            assert_eq!(cause, TrapCause::Exception(ExceptionKind::LoadPageFault));
            assert_eq!(stval, 0xbad);
        }
        other => panic!("unexpected {:?}", other),
    }
    match trap_handler(&mut cx, INTERRUPT_BIT | 5, 0) {
        TrapAction::Unsupported { cause, .. } => assert_eq!(cause, TrapCause::Interrupt(5)),
        other => panic!("unexpected {:?}", other),
    }
    assert_eq!(cx.sepc, 0x8040_0000);
}

#[test]
fn ecall_cause_is_recognised() {
    assert!(cause_is_ecall(8));
    assert!(!cause_is_ecall(9));
    assert!(!cause_is_ecall(INTERRUPT_BIT | 8));
}

#[test]
fn syscall_numbers_are_decoded() {
    assert_eq!(syscall(93, (5, 0, 0)), SyscallRequest::Exit { exit_code: 5 });
    assert_eq!(syscall(93, (usize::MAX, 0, 0)), SyscallRequest::Exit { exit_code: -1 });
    assert_eq!(syscall(124, (1, 2, 3)), SyscallRequest::Yield);
    assert_eq!(syscall(64, (1, 0x8040_0100, 12)), SyscallRequest::WriteStdout { buf: 0x8040_0100, len: 12 });
    assert_eq!(syscall(64, (2, 0x8040_0100, 12)), SyscallRequest::UnsupportedFd { fd: 2 });
    assert_eq!(syscall(169, (1, 2, 3)), SyscallRequest::Unsupported { id: 169 });
}

#[test]
fn exit_code_travels_from_registers_to_the_syscall() {
    let mut cx = user_context();
    cx.x[10] = 3;
    match trap_handler(&mut cx, 8, 0) {
        TrapAction::Syscall { id, args } => {
            assert_eq!(syscall(id, args), SyscallRequest::Exit { exit_code: 3 })
        }
        other => panic!("unexpected {:?}", other),
    }
}
