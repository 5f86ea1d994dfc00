use larva::exec::alu::{div_s64, div_u64, mulh, mulhsu, mulhu, rem_s64, rem_u64};
use larva::exec::interp::RvInterpreterExecutor;
use larva::exec::mem::GuestMmu;
use larva::exec::state::{RvIsaState, StopReason};
use larva::exec::syscall::{classify_syscall, SyscallAction};

fn executor_with(image: Vec<u8>) -> (RvInterpreterExecutor, u64) {
    let mut mmu = GuestMmu::new(4096, 4096).unwrap();
    let entry = mmu.consume_host(image).unwrap().as_u64();
    let mut ex = RvInterpreterExecutor::new(64, RvIsaState::default(), mmu);
    ex.stack(64 * 1024).unwrap();
    (ex, entry)
}

#[test]
fn exit_program_requests_exit_with_123() {
    let image = vec![0x13, 0x05, 0xb0, 0x07, 0x93, 0x08, 0xd0, 0x05, 0x73, 0x00, 0x00, 0x00];
    let (mut ex, entry) = executor_with(image);
    assert_eq!(ex.exec(entry, 100), Some(StopReason::Ecall));
    let req = ex.syscall_request();
    assert_eq!(classify_syscall(&req), SyscallAction::ExitGroup { code: 123 });
    assert_eq!(ex.state().get_pc(), entry + 12);
}

#[test]
fn recursive_fibonacci_of_11_is_89() {
    let image = vec![
        0x13, 0x05, 0xb0, 0x00, 0xef, 0x00, 0xc0, 0x00, 0x93, 0x08, 0xd0, 0x05, 0x73, 0x00, 0x00,
        0x00, 0x13, 0x01, 0x01, 0xfe, 0x23, 0x3c, 0x11, 0x00, 0x23, 0x38, 0x81, 0x00, 0x23, 0x34,
        0x91, 0x00, 0x2a, 0x84, 0x93, 0x02, 0x20, 0x00, 0x63, 0x40, 0x55, 0x02, 0x13, 0x05, 0xf4,
        0xff, 0xef, 0xf0, 0x3f, 0xfe, 0x93, 0x04, 0x05, 0x00, 0x13, 0x05, 0xe4, 0xff, 0xef, 0xf0,
        0x7f, 0xfd, 0x33, 0x05, 0x95, 0x00, 0x6f, 0x00, 0x80, 0x00, 0x13, 0x05, 0x04, 0x00, 0x83,
        0x30, 0x81, 0x01, 0x03, 0x34, 0x01, 0x01, 0x83, 0x34, 0x81, 0x00, 0x13, 0x01, 0x01, 0x02,
        0x82, 0x80,
    ];
    let (mut ex, entry) = executor_with(image);
    assert_eq!(ex.exec(entry, 1_000_000), Some(StopReason::Ecall));
    assert_eq!(ex.state().get_x(10), 89);
    let req = ex.syscall_request();
    assert_eq!(classify_syscall(&req), SyscallAction::ExitGroup { code: 89 });
}

#[test]
fn hello_program_writes_then_exits() {
    let image = vec![
        0x05, 0x45, 0x97, 0x05, 0x00, 0x00, 0x93, 0x85, 0xe5, 0x01, 0x31, 0x46, 0x93, 0x08, 0x00,
        0x04, 0x73, 0x00, 0x00, 0x00, 0x13, 0x05, 0x00, 0x00, 0x93, 0x08, 0xd0, 0x05, 0x73, 0x00,
        0x00, 0x00, 0x68, 0x65, 0x6c, 0x6c, 0x6f, 0x20, 0x77, 0x6f, 0x72, 0x6c, 0x64, 0x0a,
    ];
    let (mut ex, entry) = executor_with(image);
    assert_eq!(ex.exec(entry, 100), Some(StopReason::Ecall));
    let req = ex.syscall_request();
    assert_eq!(
        classify_syscall(&req),
        SyscallAction::Write { fd: 1, buf: entry + 0x20, count: 12 }
    );
    ex.syscall_return(12);
    assert_eq!(ex.resume(100), Some(StopReason::Ecall));
    let req = ex.syscall_request();
    assert_eq!(classify_syscall(&req), SyscallAction::ExitGroup { code: 0 });
}

#[test]
fn unknown_syscall_gets_enosys() {
    // li a7,500; ecall; ebreak
    let image = vec![0x93, 0x08, 0x40, 0x1f, 0x73, 0x00, 0x00, 0x00, 0x73, 0x00, 0x10, 0x00];
    let (mut ex, entry) = executor_with(image);
    assert_eq!(ex.exec(entry, 100), Some(StopReason::Ecall));
    let req = ex.syscall_request();
    assert_eq!(classify_syscall(&req), SyscallAction::Unknown { nr: 500 });
    ex.syscall_unknown();
    assert_eq!(ex.state().get_x(10) as i64, -38);
    assert_eq!(ex.resume(100), Some(StopReason::Break));
}

#[test]
fn faults_and_reserved_words_stop_the_run() {
    // an undefined word
    let (mut ex, entry) = executor_with(vec![0x0b, 0x00, 0x00, 0x00]);
    assert_eq!(ex.exec(entry, 10), Some(StopReason::ReservedInsn));
    // sd zero,0(zero): a store to an unmapped address
    let (mut ex, entry) = executor_with(vec![0x23, 0x30, 0x00, 0x00]);
    assert_eq!(ex.exec(entry, 10), Some(StopReason::Segv { read: false, gaddr: 0 }));
    // running off the end of the image
    let (mut ex, entry) = executor_with(vec![0x13, 0x00, 0x00, 0x00]);
    assert_eq!(ex.exec(entry, 10), Some(StopReason::Segv { read: true, gaddr: entry + 4 }));
    // a floating-point add is decoded but not executed
    let (mut ex, entry) = executor_with(vec![0x53, 0xf5, 0xc5, 0x02]);
    assert_eq!(ex.exec(entry, 10), Some(StopReason::Unimplemented));
    // the budget runs out on an endless loop (j .)
    let (mut ex, entry) = executor_with(vec![0x6f, 0x00, 0x00, 0x00]);
    assert_eq!(ex.exec(entry, 50), None);
    assert_eq!(ex.state().get_pc(), entry);
}

#[test]
fn division_edge_cases_follow_the_isa() {
    let min = 0x8000_0000_0000_0000u64;
    assert_eq!(div_s64(min, u64::MAX), min);
    assert_eq!(rem_s64(min, u64::MAX), 0);
    assert_eq!(div_s64(7, 0), u64::MAX);
    assert_eq!(rem_s64(7, 0), 7);
    assert_eq!(div_u64(7, 0), u64::MAX);
    assert_eq!(rem_u64(7, 0), 7);
    assert_eq!(div_s64((-7i64) as u64, 2) as i64, -3);
    assert_eq!(rem_s64((-7i64) as u64, 2) as i64, -1);
    assert_eq!(div_s64(7, (-2i64) as u64) as i64, -3);
    assert_eq!(rem_s64(7, (-2i64) as u64) as i64, 1);
    assert_eq!(div_u64(u64::MAX, 2), u64::MAX / 2);
    assert_eq!(rem_u64(10, 3), 1);
}

#[test]
fn high_products() {
    assert_eq!(mulhu(u64::MAX, u64::MAX), u64::MAX - 1);
    assert_eq!(mulh(u64::MAX, u64::MAX), 0);
    assert_eq!(mulh((-2i64) as u64, 3), u64::MAX);
    assert_eq!(mulhsu(u64::MAX, u64::MAX), u64::MAX);
    assert_eq!(mulhsu(2, u64::MAX), 1);
    assert_eq!(mulhu(1 << 32, 1 << 32), 1);
}

#[test]
fn signed_and_unsigned_compare_differ_on_the_sign_bit() {
    // li t0,1; slli t0,t0,63; addi t1,t0,-1; slt a0,t0,t1; sltu a1,t0,t1; ebreak
    let image = vec![
        0x93, 0x02, 0x10, 0x00, 0x93, 0x92, 0xf2, 0x03, 0x13, 0x83, 0xf2, 0xff, 0x33, 0xa5, 0x62,
        0x00, 0xb3, 0xb5, 0x62, 0x00, 0x73, 0x00, 0x10, 0x00,
    ];
    let (mut ex, entry) = executor_with(image);
    assert_eq!(ex.exec(entry, 100), Some(StopReason::Break));
    assert_eq!(ex.state().get_x(5), 0x8000_0000_0000_0000);
    assert_eq!(ex.state().get_x(6), 0x7fff_ffff_ffff_ffff);
    assert_eq!(ex.state().get_x(10), 1);
    assert_eq!(ex.state().get_x(11), 0);
}

#[test]
fn stack_points_sp_at_the_top_of_a_fresh_region() {
    let mut mmu = GuestMmu::new(4096, 4096).unwrap();
    let _ = mmu.consume_host(vec![0x73, 0x00, 0x10, 0x00]).unwrap();
    let mut ex = RvInterpreterExecutor::new(64, RvIsaState::default(), mmu);
    assert_eq!(ex.stack(0), Err(larva::exec::mem::MmuError::InvalidLength));
    assert_eq!(ex.stack(usize::MAX - 1), Err(larva::exec::mem::MmuError::TooLarge));
    ex.stack(100).unwrap();
    let sp = ex.state().get_x(2);
    assert_eq!(ex.mmu().read_u8(sp - 1), Some(0));
    assert_eq!(ex.mmu().g2h(larva::exec::mem::GuestAddr(sp - 100)).map(|h| h.as_u64()), Some(sp - 100));
}
