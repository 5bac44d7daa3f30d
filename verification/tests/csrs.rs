use rvfm::hart::csrs::{CsrMStatus, CsrMTVec, InterruptBits, SharedCSRs, CSRs};
use rvfm::interrupt_controller::InterruptController;

fn fresh(hart: u32) -> (CSRs, InterruptController) {
    let shared = SharedCSRs::new();
    (CSRs::new(hart, &shared), InterruptController::new())
}

#[test]
fn plain_register_reads_back() {
    let (mut csrs, ic) = fresh(0);
    assert_eq!(csrs.w(0x340, 0x1234_5678, &ic), Ok(()));
    assert_eq!(csrs.r(0x340, &ic), Ok(0x1234_5678));
    assert_eq!(csrs.rw(0x341, 0xCAFE, &ic), Ok(0));
    assert_eq!(csrs.r(0x341, &ic), Ok(0xCAFE));
}

#[test]
fn masked_registers_keep_their_writable_bits() {
    let (mut csrs, ic) = fresh(0);
    assert_eq!(csrs.w(0x300, 0xFFFF_FFFF, &ic), Ok(()));
    assert_eq!(csrs.r(0x300, &ic), Ok(CsrMStatus::WRITE_MASK));
    assert_eq!(csrs.w(0x304, 0xFFFF_FFFF, &ic), Ok(()));
    assert_eq!(csrs.r(0x304, &ic), Ok(InterruptBits::MSI | InterruptBits::MTI | InterruptBits::MEI));
    assert_eq!(csrs.w(0x305, 0xFFFF_FFFF, &ic), Ok(()));
    assert_eq!(csrs.r(0x305, &ic), Ok(CsrMTVec::WRITE_MASK));
}

#[test]
fn set_then_clear_bits() {
    let (mut csrs, ic) = fresh(0);
    assert_eq!(csrs.rs(0x342, 0b1010, &ic), Ok(0));
    assert_eq!(csrs.rs(0x342, 0b0100, &ic), Ok(0b1010));
    assert_eq!(csrs.rc(0x342, 0b1000, &ic), Ok(0b1110));
    assert_eq!(csrs.r(0x342, &ic), Ok(0b0110));
}

#[test]
fn read_only_and_unknown_registers() {
    let (mut csrs, ic) = fresh(3);
    assert_eq!(csrs.r(0x301, &ic), Ok(CSRs::MISA));
    assert_eq!(csrs.r(0xF14, &ic), Ok(3));
    assert_eq!(csrs.hart_id(), 3);
    assert_eq!(csrs.w(0xF14, 9, &ic), Err(()));
    assert_eq!(csrs.r(0x7C0, &ic), Err(()));
    assert_eq!(csrs.rs(0x7C0, 1, &ic), Err(()));
}

#[test]
fn trap_entry_and_return() {
    let (mut csrs, ic) = fresh(0);
    assert_eq!(csrs.w(0x300, CsrMStatus::MIE, &ic), Ok(()));
    assert!(csrs.interrupts_enabled());
    csrs.mstatus.enter_interrupt();
    assert!(!csrs.interrupts_enabled());
    assert_eq!(csrs.r(0x300, &ic), Ok(CsrMStatus::MPIE));
    csrs.mstatus.exit_interrupt();
    assert!(csrs.interrupts_enabled());
    assert_eq!(csrs.r(0x300, &ic), Ok(CsrMStatus::MIE | CsrMStatus::MPIE));
}

#[test]
fn vector_addresses() {
    let mut mtvec = CsrMTVec::new();
    assert_eq!(mtvec.w(0x1000), Ok(()));
    assert_eq!(mtvec.get_vector_address(3), 0x1000);
    assert_eq!(mtvec.w(0x1001), Ok(()));
    assert_eq!(mtvec.get_vector_address(3), 0x100C);
}

#[test]
fn pending_bits_come_from_the_controller() {
    let (csrs, mut ic) = fresh(1);
    assert_eq!(csrs.r(0x344, &ic), Ok(0));
    ic.set_ihi_enabled(1, true);
    ic.trigger_ihi(1);
    assert_eq!(csrs.r(0x344, &ic), Ok(InterruptBits::MSI));
}

#[test]
fn counter_halves() {
    let (mut csrs, ic) = fresh(0);
    csrs.mcycle = 0x0000_0002_0000_0001;
    let low = csrs.r(0xB00, &ic).unwrap();
    let high = csrs.r(0xB80, &ic).unwrap();
    // Whatever the byte order, the two halves are the two words of the counter.
    assert!((low, high) == (1, 2) || (low, high) == (2, 1));
    assert_eq!(csrs.w(0xB02, 7, &ic), Ok(()));
    assert!(csrs.minstret == 7 || csrs.minstret == 7 << 32);
    assert_eq!(csrs.mcycle, 0x0000_0002_0000_0001);
}

#[test]
fn reset_clears_all_but_the_hart() {
    let (mut csrs, ic) = fresh(2);
    assert_eq!(csrs.w(0x340, 5, &ic), Ok(()));
    assert_eq!(csrs.w(0x305, 0x100, &ic), Ok(()));
    csrs.minstret = 10;
    csrs.reset();
    assert_eq!(csrs.r(0x340, &ic), Ok(0));
    assert_eq!(csrs.r(0x305, &ic), Ok(0));
    assert_eq!(csrs.minstret, 0);
    assert_eq!(csrs.hart_id(), 2);
}

#[test]
fn counter_read_modify_write() {
    let (mut csrs, ic) = fresh(0);
    csrs.mcycle = 0x0000_0002_0000_0001;
    // Reading the cycle counter the usual way: set no bits, get one half back.
    let half = csrs.rs(0xB00, 0, &ic).unwrap();
    assert!(half == 1 || half == 2);
    assert_eq!(csrs.mcycle, 0x0000_0002_0000_0001);
    // Setting bits in a half gives that half as it was and keeps the other.
    let before = csrs.rs(0xB00, 0x10, &ic).unwrap();
    assert!(csrs.mcycle == 0x0000_0002_0000_0011 || csrs.mcycle == 0x0000_0012_0000_0001);
    assert!(before == 1 || before == 2);
    // A swap gives the half as it was and puts the operand in its place.
    let (mut csrs, ic) = fresh(0);
    csrs.minstret = 0x0000_0005_0000_0003;
    let before = csrs.rw(0xB02, 9, &ic).unwrap();
    assert!((before, csrs.minstret) == (3, 0x0000_0005_0000_0009) || (before, csrs.minstret) == (5, 0x0000_0009_0000_0003));
    // Clearing bits.
    let before = csrs.rc(0xB82, 0xFFFF_FFFF, &ic).unwrap();
    assert!(before == 5 || before == 3 || before == 9);
    assert!(csrs.minstret >> 32 == 0 || csrs.minstret & 0xFFFF_FFFF == 0);
}
