//! The machine-mode control and status registers of a hart.

use vstd::prelude::*;
use std::sync::Arc;
use crate::interrupt_controller::InterruptController;

verus! {

/// What a read of a CSR gives: its value, or `Err` for a register that does not exist.
pub type CsrReadResult = Result<u32, ()>;
/// What a write of a CSR gives: `Err` for a register that does not exist or cannot be written.
pub type CsrWriteResult = Result<(), ()>;
/// What a read-modify-write of a CSR gives: the value before, or `Err` as for a write.
pub type CsrReadWriteResult = Result<u32, ()>;

/// Registers shared by all harts.
pub struct SharedCSRRegs {}

impl SharedCSRRegs {
    /// The shared registers (there are none yet).
    pub fn new() -> (r: Self)
        ensures
            r == (SharedCSRRegs {}),
    {
        SharedCSRRegs {}
    }
}

/// A handle on the registers shared by all harts.
pub struct SharedCSRs {
    regs: Arc<SharedCSRRegs>,
}

/// Another handle on the same shared registers (`Arc::clone`): it points to the same value.
#[verifier::external_body]
fn share_regs(regs: &Arc<SharedCSRRegs>) -> (r: Arc<SharedCSRRegs>)
    ensures
        r == *regs,
{
    Arc::clone(regs)
}

impl Clone for SharedCSRs {
    fn clone(&self) -> (r: Self) {
        SharedCSRs { regs: share_regs(&self.regs) }
    }
}

impl SharedCSRs {
    /// A new set of shared registers.
    pub fn new() -> (r: Self) {
        Self { regs: Arc::new(SharedCSRRegs::new()) }
    }

    /// No shared register can be read.
    pub fn r(&self, _csr: u16) -> (r: CsrReadResult)
        ensures
            r is Err,
    {
        Err(())
    }

    /// No shared register can be written.
    pub fn w(&self, _csr: u16, _val: u32) -> (r: CsrWriteResult)
        ensures
            r is Err,
    {
        Err(())
    }

    /// No shared register can be swapped.
    pub fn rw(&self, _csr: u16, _val: u32) -> (r: CsrReadWriteResult)
        ensures
            r is Err,
    {
        Err(())
    }

    /// No shared register can have bits set.
    pub fn rs(&self, _csr: u16, _val: u32) -> (r: CsrReadWriteResult)
        ensures
            r is Err,
    {
        Err(())
    }

    /// No shared register can have bits cleared.
    pub fn rc(&self, _csr: u16, _val: u32) -> (r: CsrReadWriteResult)
        ensures
            r is Err,
    {
        Err(())
    }
}

/// Bits of the interrupt-enable and interrupt-pending registers.
pub struct InterruptBits;

impl InterruptBits {
    /// Machine software (inter-hart) interrupt.
    pub const MSI: u32 = 0x8;
    /// Machine timer interrupt.
    pub const MTI: u32 = 0x80;
    /// Machine external interrupt.
    pub const MEI: u32 = 0x800;
}

/// Word `k` (0 the low half, 1 the high half) of a 64-bit counter.
pub open spec fn spec_word(v: u64, k: int) -> u32 {
    if k == 0 { v as u32 } else { (v >> 32u64) as u32 }
}

/// `v` with word `k` (0 low, 1 high) replaced by `w`.
pub open spec fn spec_with_word(v: u64, k: int, w: u32) -> u64 {
    if k == 0 {
        ((v >> 32u64) << 32u64) | (w as u64)
    } else {
        ((w as u64) << 32u64) | (v & 0xFFFF_FFFFu64)
    }
}

/// The two 32-bit words of a counter in memory order (`bytemuck::cast_slice`): which one
/// holds the low half depends on the machine's byte order, so either order is stated.
#[verifier::external_body]
fn counter_words(v: &u64) -> (r: (u32, u32))
    ensures
        (r.0 == spec_word(*v, 0) && r.1 == spec_word(*v, 1)) || (r.0 == spec_word(*v, 1) && r.1 == spec_word(*v, 0)),
{
    let words = bytemuck::cast_slice::<u64, u32>(core::slice::from_ref(v));
    (words[0], words[1])
}

/// Writes word `index` of a counter in memory order (`bytemuck::cast_slice_mut`); which half
/// that is depends on the machine's byte order, so either is stated.
#[verifier::external_body]
fn set_counter_word(v: &mut u64, index: usize, w: u32)
    requires
        index < 2,
    ensures
        *final(v) == spec_with_word(*old(v), index as int, w) || *final(v) == spec_with_word(*old(v), 1 - index, w),
{
    bytemuck::cast_slice_mut::<u64, u32>(core::slice::from_mut(v))[index] = w;
}

/// The four ways an instruction changes a CSR.
#[derive(Copy, Clone, Debug, PartialEq, Eq, Structural)]
pub enum CsrOp {
    /// Replace by the operand.
    Write,
    /// Replace by the operand, reporting the value before.
    Swap,
    /// Set the operand's bits.
    SetBits,
    /// Clear the operand's bits.
    ClearBits,
}

/// The new value of a register holding `old` whose writable bits are `mask`, under `op` with
/// operand `val`.
pub open spec fn spec_apply(op: CsrOp, old: u32, val: u32, mask: u32) -> u32 {
    match op {
        CsrOp::Write | CsrOp::Swap => val & mask,
        CsrOp::SetBits => old | (val & mask),
        CsrOp::ClearBits => old & !(val & mask),
    }
}

/// A counter access that reads half `a` of the counter `before` and writes half `b`: it
/// gives half `a` as it was, and the counter after it is `before` with half `b` replaced by
/// `op` applied to half `a` and the operand `val`.
pub open spec fn spec_counter_access(before: u64, after: u64, r: Result<u32, ()>, op: CsrOp, val: u32, a: int, b: int) -> bool {
    &&& r == Ok::<u32, ()>(spec_word(before, a))
    &&& after == spec_with_word(before, b, spec_apply(op, spec_word(before, a), val, 0xFFFF_FFFF))
}

/// What an access to a counter half does: it reads one half of the counter and writes one
/// half. Which half each reaches follows the machine's byte order, so every pairing is
/// allowed.
pub open spec fn spec_counter_changed(before: u64, after: u64, r: Result<u32, ()>, op: CsrOp, val: u32) -> bool {
    ||| spec_counter_access(before, after, r, op, val, 0, 0)
    ||| spec_counter_access(before, after, r, op, val, 0, 1)
    ||| spec_counter_access(before, after, r, op, val, 1, 0)
    ||| spec_counter_access(before, after, r, op, val, 1, 1)
}

/// Whether `csr` is one of the halves of the cycle and retired-instruction counters.
pub open spec fn spec_is_counter(csr: u16) -> bool {
    csr == 0xB00 || csr == 0xB02 || csr == 0xB80 || csr == 0xB82
}

/// Whether `csr` accepts writes.
pub open spec fn spec_writable(csr: u16) -> bool {
    csr == 0x300 || csr == 0x304 || csr == 0x305 || (0x340 <= csr <= 0x344) || spec_is_counter(csr)
}

/// `mstatus`: only the interrupt-enable bit MIE and its saved copy MPIE are kept.
pub struct CsrMStatus(pub u32);

impl CsrMStatus {
    /// Machine interrupt enable.
    pub const MIE: u32 = 0x8;
    /// Interrupt enable before the current trap.
    pub const MPIE: u32 = 0x80;
    /// The bits a write keeps.
    pub const WRITE_MASK: u32 = 0x88;

    /// The register's bits.
    pub open spec fn bits(&self) -> u32 {
        self.0
    }

    /// A cleared register.
    pub fn new() -> (r: Self)
        ensures
            r.bits() == 0,
    {
        Self(0)
    }

    /// Whether the hart takes interrupts.
    pub fn interrupts_enabled(&self) -> (r: bool)
        ensures
            r == (self.bits() & Self::MIE != 0),
    {
        (self.0 & Self::MIE) != 0
    }

    /// Entering a trap: interrupts off, MPIE set.
    pub fn enter_interrupt(&mut self)
        ensures
            final(self).bits() == Self::MPIE,
    {
        self.0 = Self::MPIE;
    }

    /// Leaving a trap: MIE takes the value of MPIE, and MPIE is set.
    pub fn exit_interrupt(&mut self)
        ensures
            final(self).bits() == (if old(self).bits() & Self::MPIE != 0 { Self::MIE } else { 0 }) | Self::MPIE,
    {
        let mpie = (self.0 & Self::MPIE) != 0;
        self.0 = (if mpie { Self::MIE } else { 0 }) | Self::MPIE;
    }

    /// Clears the register.
    pub fn reset(&mut self)
        ensures
            final(self).bits() == 0,
    {
        self.0 = 0;
    }

    /// Reads the register.
    pub fn r(&self) -> (r: CsrReadResult)
        ensures
            r == Ok::<u32, ()>(self.bits()),
    {
        Ok(self.0)
    }

    /// Writes the register, keeping the writable bits.
    pub fn w(&mut self, val: u32) -> (r: CsrWriteResult)
        ensures
            r is Ok,
            final(self).bits() == val & Self::WRITE_MASK,
    {
        self.0 = val & Self::WRITE_MASK;
        Ok(())
    }

    /// Swaps in `val`'s writable bits; gives the value before.
    pub fn rw(&mut self, val: u32) -> (r: CsrReadWriteResult)
        ensures
            r == Ok::<u32, ()>(old(self).bits()),
            final(self).bits() == val & Self::WRITE_MASK,
    {
        let old_value = self.0;
        self.0 = val & Self::WRITE_MASK;
        Ok(old_value)
    }

    /// Sets `val`'s writable bits; gives the value before.
    pub fn rs(&mut self, val: u32) -> (r: CsrReadWriteResult)
        ensures
            r == Ok::<u32, ()>(old(self).bits()),
            final(self).bits() == old(self).bits() | (val & Self::WRITE_MASK),
    {
        let old_value = self.0;
        self.0 = self.0 | (val & Self::WRITE_MASK);
        Ok(old_value)
    }

    /// Clears `val`'s writable bits; gives the value before.
    pub fn rc(&mut self, val: u32) -> (r: CsrReadWriteResult)
        ensures
            r == Ok::<u32, ()>(old(self).bits()),
            final(self).bits() == old(self).bits() & !(val & Self::WRITE_MASK),
    {
        let old_value = self.0;
        self.0 = self.0 & !(val & Self::WRITE_MASK);
        Ok(old_value)
    }
}

/// `mtvec`: the trap vector base (bits 31..2) and the vectored-mode bit (bit 0).
pub struct CsrMTVec(pub u32);

impl CsrMTVec {
    /// The base address bits.
    pub const VECTOR_BASE_BITS: u32 = 0xFFFF_FFFC;
    /// Vectored mode.
    pub const MODE_BIT: u32 = 1;
    /// The bits a write keeps.
    pub const WRITE_MASK: u32 = 0xFFFF_FFFD;

    /// The register's bits.
    pub open spec fn bits(&self) -> u32 {
        self.0
    }

    /// A cleared register.
    pub fn new() -> (r: Self)
        ensures
            r.bits() == 0,
    {
        Self(0)
    }

    /// Where a trap for `vector` goes: the base, plus four bytes per vector in vectored mode.
    pub fn get_vector_address(&self, vector: u32) -> (r: u32)
        requires
            self.bits() & Self::MODE_BIT != 0 ==> (self.bits() & Self::VECTOR_BASE_BITS) + vector * 4 <= u32::MAX,
        ensures
            r == (if self.bits() & Self::MODE_BIT != 0 {
                (self.bits() & Self::VECTOR_BASE_BITS) + vector * 4
            } else {
                (self.bits() & Self::VECTOR_BASE_BITS) as int
            }),
    {
        let vectored_mode = self.0 & Self::MODE_BIT != 0;
        let base_address = self.0 & Self::VECTOR_BASE_BITS;
        if vectored_mode {
            base_address + vector * 4
        } else {
            base_address
        }
    }

    /// Clears the register.
    pub fn reset(&mut self)
        ensures
            final(self).bits() == 0,
    {
        self.0 = 0;
    }

    /// Reads the register.
    pub fn r(&self) -> (r: CsrReadResult)
        ensures
            r == Ok::<u32, ()>(self.bits()),
    {
        Ok(self.0)
    }

    /// Writes the register, keeping the writable bits.
    pub fn w(&mut self, val: u32) -> (r: CsrWriteResult)
        ensures
            r is Ok,
            final(self).bits() == val & Self::WRITE_MASK,
    {
        self.0 = val & Self::WRITE_MASK;
        Ok(())
    }

    /// Swaps in `val`'s writable bits; gives the value before.
    pub fn rw(&mut self, val: u32) -> (r: CsrReadWriteResult)
        ensures
            r == Ok::<u32, ()>(old(self).bits()),
            final(self).bits() == val & Self::WRITE_MASK,
    {
        let old_value = self.0;
        self.0 = val & Self::WRITE_MASK;
        Ok(old_value)
    }

    /// Sets `val`'s writable bits; gives the value before.
    pub fn rs(&mut self, val: u32) -> (r: CsrReadWriteResult)
        ensures
            r == Ok::<u32, ()>(old(self).bits()),
            final(self).bits() == old(self).bits() | (val & Self::WRITE_MASK),
    {
        let old_value = self.0;
        self.0 = self.0 | (val & Self::WRITE_MASK);
        Ok(old_value)
    }

    /// Clears `val`'s writable bits; gives the value before.
    pub fn rc(&mut self, val: u32) -> (r: CsrReadWriteResult)
        ensures
            r == Ok::<u32, ()>(old(self).bits()),
            final(self).bits() == old(self).bits() & !(val & Self::WRITE_MASK),
    {
        let old_value = self.0;
        self.0 = self.0 & !(val & Self::WRITE_MASK);
        Ok(old_value)
    }
}

/// `mie`: which machine interrupts the hart takes.
pub struct CsrMIE(pub u32);

impl CsrMIE {
    /// The bits a write keeps: MSI, MTI and MEI.
    pub const WRITE_MASK: u32 = 0x888;

    /// The register's bits.
    pub open spec fn bits(&self) -> u32 {
        self.0
    }

    /// A cleared register.
    pub fn new() -> (r: Self)
        ensures
            r.bits() == 0,
    {
        Self(0)
    }

    /// The register's bits.
    pub fn value(&self) -> (r: u32)
        ensures
            r == self.bits(),
    {
        self.0
    }

    /// Clears the register.
    pub fn reset(&mut self)
        ensures
            final(self).bits() == 0,
    {
        self.0 = 0;
    }

    /// Reads the register.
    pub fn r(&self) -> (r: CsrReadResult)
        ensures
            r == Ok::<u32, ()>(self.bits()),
    {
        Ok(self.0)
    }

    /// Writes the register, keeping the writable bits.
    pub fn w(&mut self, val: u32) -> (r: CsrWriteResult)
        ensures
            r is Ok,
            final(self).bits() == val & Self::WRITE_MASK,
    {
        self.0 = val & Self::WRITE_MASK;
        Ok(())
    }

    /// Swaps in `val`'s writable bits; gives the value before.
    pub fn rw(&mut self, val: u32) -> (r: CsrReadWriteResult)
        ensures
            r == Ok::<u32, ()>(old(self).bits()),
            final(self).bits() == val & Self::WRITE_MASK,
    {
        let old_value = self.0;
        self.0 = val & Self::WRITE_MASK;
        Ok(old_value)
    }

    /// Sets `val`'s writable bits; gives the value before.
    pub fn rs(&mut self, val: u32) -> (r: CsrReadWriteResult)
        ensures
            r == Ok::<u32, ()>(old(self).bits()),
            final(self).bits() == old(self).bits() | (val & Self::WRITE_MASK),
    {
        let old_value = self.0;
        self.0 = self.0 | (val & Self::WRITE_MASK);
        Ok(old_value)
    }

    /// Clears `val`'s writable bits; gives the value before.
    pub fn rc(&mut self, val: u32) -> (r: CsrReadWriteResult)
        ensures
            r == Ok::<u32, ()>(old(self).bits()),
            final(self).bits() == old(self).bits() & !(val & Self::WRITE_MASK),
    {
        let old_value = self.0;
        self.0 = self.0 & !(val & Self::WRITE_MASK);
        Ok(old_value)
    }
}

/// `mip`: the interrupt-pending bits, which the interrupt controller keeps for the hart.
pub struct CsrMIP(pub u32);

impl CsrMIP {
    /// The register of hart `hart_id`.
    pub fn new(hart_id: u32) -> (r: Self)
        ensures
            r.hart() == hart_id,
    {
        Self(hart_id)
    }

    /// The hart whose bits the register shows.
    pub open spec fn hart(&self) -> u32 {
        self.0
    }

    /// The pending bits the controller holds for the register's hart.
    pub open spec fn spec_value(&self, controller: &InterruptController) -> u32 {
        if self.hart() < 4 { controller.mips@[self.hart() as int] } else { 0 }
    }

    /// The pending bits the controller holds for the register's hart.
    pub fn value(&self, controller: &InterruptController) -> (r: u32)
        ensures
            r == self.spec_value(controller),
    {
        controller.mip(self.0)
    }

    /// Nothing to reset: the controller holds the bits.
    pub fn reset(&mut self)
        ensures
            final(self).hart() == old(self).hart(),
    {
    }

    /// Reads the pending bits.
    pub fn r(&self, controller: &InterruptController) -> (r: CsrReadResult)
        ensures
            r == Ok::<u32, ()>(self.spec_value(controller)),
    {
        Ok(self.value(controller))
    }

    /// Writes are accepted and ignored.
    pub fn w(&mut self, _val: u32) -> (r: CsrWriteResult)
        ensures
            r is Ok,
            final(self).hart() == old(self).hart(),
    {
        Ok(())
    }

    /// Gives the pending bits; the write is ignored.
    pub fn rw(&mut self, _val: u32, controller: &InterruptController) -> (r: CsrReadWriteResult)
        ensures
            r == Ok::<u32, ()>(old(self).spec_value(controller)),
            final(self).hart() == old(self).hart(),
    {
        Ok(self.value(controller))
    }

    /// Gives the pending bits; the write is ignored.
    pub fn rs(&mut self, _val: u32, controller: &InterruptController) -> (r: CsrReadWriteResult)
        ensures
            r == Ok::<u32, ()>(old(self).spec_value(controller)),
            final(self).hart() == old(self).hart(),
    {
        Ok(self.value(controller))
    }

    /// Gives the pending bits; the write is ignored.
    pub fn rc(&mut self, _val: u32, controller: &InterruptController) -> (r: CsrReadWriteResult)
        ensures
            r == Ok::<u32, ()>(old(self).spec_value(controller)),
            final(self).hart() == old(self).hart(),
    {
        Ok(self.value(controller))
    }
}

/// The machine-mode CSRs of one hart.
pub struct CSRs {
    pub shared: SharedCSRs,
    pub mhartid: u32,
    pub mstatus: CsrMStatus,
    pub mtvec: CsrMTVec,
    pub mscratch: u32,
    pub mepc: u32,
    pub mcause: u32,
    pub mtval: u32,
    pub mie: CsrMIE,
    pub mip: CsrMIP,
    pub mcycle: u64,
    pub minstret: u64,
}

impl CSRs {
    /// Vendor id.
    pub const MVENDORID: u32 = 0;
    /// Architecture id.
    pub const MARCHID: u32 = 0;
    /// Implementation id.
    pub const MIMPID: u32 = 0;
    /// RV32 with the F, I and M extensions.
    pub const MISA: u32 = 0x8000_1120;

    /// The id of the hart.
    pub open spec fn spec_hart_id(&self) -> u32 {
        self.mhartid
    }

    /// The registers of hart `hart_id`, all cleared.
    pub fn new(hart_id: u32, shared_csrs: &SharedCSRs) -> (r: Self)
        ensures
            r.spec_hart_id() == hart_id,
            r.mip.hart() == hart_id,
            r.mstatus.bits() == 0,
            r.mtvec.bits() == 0,
            r.mie.bits() == 0,
            r.mscratch == 0 && r.mepc == 0 && r.mcause == 0 && r.mtval == 0,
            r.mcycle == 0 && r.minstret == 0,
    {
        CSRs {
            shared: shared_csrs.clone(),
            mhartid: hart_id,
            mstatus: CsrMStatus::new(),
            mtvec: CsrMTVec::new(),
            mcause: 0,
            mscratch: 0,
            mepc: 0,
            mtval: 0,
            mie: CsrMIE::new(),
            mip: CsrMIP::new(hart_id),
            mcycle: 0,
            minstret: 0,
        }
    }

    /// The id of the hart.
    pub fn hart_id(&self) -> (r: u32)
        ensures
            r == self.spec_hart_id(),
    {
        self.mhartid
    }

    /// Clears every register but the hart id.
    pub fn reset(&mut self)
        ensures
            final(self).spec_hart_id() == old(self).spec_hart_id(),
            final(self).mip.hart() == old(self).mip.hart(),
            final(self).mstatus.bits() == 0,
            final(self).mtvec.bits() == 0,
            final(self).mie.bits() == 0,
            final(self).mscratch == 0 && final(self).mepc == 0 && final(self).mcause == 0 && final(self).mtval == 0,
            final(self).mcycle == 0 && final(self).minstret == 0,
    {
        self.mstatus.reset();
        self.mtvec.reset();
        self.mcause = 0;
        self.mscratch = 0;
        self.mepc = 0;
        self.mtval = 0;
        self.mie.reset();
        self.mip.reset();
        self.mcycle = 0;
        self.minstret = 0;
    }

    /// What reading `csr` gives; for the counter halves, the half of that number.
    pub open spec fn spec_r(&self, csr: u16, controller: &InterruptController) -> CsrReadResult {
        if csr == 0x300 {
            Ok(self.mstatus.bits())
        } else if csr == 0x301 {
            Ok(Self::MISA)
        } else if csr == 0x304 {
            Ok(self.mie.bits())
        } else if csr == 0x305 {
            Ok(self.mtvec.bits())
        } else if csr == 0x340 {
            Ok(self.mscratch)
        } else if csr == 0x341 {
            Ok(self.mepc)
        } else if csr == 0x342 {
            Ok(self.mcause)
        } else if csr == 0x343 {
            Ok(self.mtval)
        } else if csr == 0x344 {
            Ok(self.mip.spec_value(controller))
        } else if csr == 0xB00 {
            Ok(spec_word(self.mcycle, 0))
        } else if csr == 0xB02 {
            Ok(spec_word(self.minstret, 0))
        } else if csr == 0xB80 {
            Ok(spec_word(self.mcycle, 1))
        } else if csr == 0xB82 {
            Ok(spec_word(self.minstret, 1))
        } else if csr == 0xF11 {
            Ok(Self::MVENDORID)
        } else if csr == 0xF12 {
            Ok(Self::MARCHID)
        } else if csr == 0xF13 {
            Ok(Self::MIMPID)
        } else if csr == 0xF14 {
            Ok(self.spec_hart_id())
        } else {
            Err(())
        }
    }

    /// The counter a counter half belongs to.
    pub open spec fn spec_counter(&self, csr: u16) -> u64 {
        if csr == 0xB00 || csr == 0xB80 { self.mcycle } else { self.minstret }
    }

    /// The registers after `op` with operand `val` on `csr`, which is no counter half.
    pub open spec fn spec_modify(self, csr: u16, op: CsrOp, val: u32) -> Self {
        if csr == 0x300 {
            CSRs { mstatus: CsrMStatus(spec_apply(op, self.mstatus.bits(), val, CsrMStatus::WRITE_MASK)), ..self }
        } else if csr == 0x304 {
            CSRs { mie: CsrMIE(spec_apply(op, self.mie.bits(), val, CsrMIE::WRITE_MASK)), ..self }
        } else if csr == 0x305 {
            CSRs { mtvec: CsrMTVec(spec_apply(op, self.mtvec.bits(), val, CsrMTVec::WRITE_MASK)), ..self }
        } else if csr == 0x340 {
            CSRs { mscratch: spec_apply(op, self.mscratch, val, 0xFFFF_FFFF), ..self }
        } else if csr == 0x341 {
            CSRs { mepc: spec_apply(op, self.mepc, val, 0xFFFF_FFFF), ..self }
        } else if csr == 0x342 {
            CSRs { mcause: spec_apply(op, self.mcause, val, 0xFFFF_FFFF), ..self }
        } else if csr == 0x343 {
            CSRs { mtval: spec_apply(op, self.mtval, val, 0xFFFF_FFFF), ..self }
        } else {
            self
        }
    }

    /// Whether `after` differs from `self` at most in the counter `csr` belongs to.
    pub open spec fn spec_same_but_counter(self, after: Self, csr: u16) -> bool {
        &&& after.mstatus == self.mstatus
        &&& after.mtvec == self.mtvec
        &&& after.mie == self.mie
        &&& after.mip == self.mip
        &&& after.mscratch == self.mscratch
        &&& after.mepc == self.mepc
        &&& after.mcause == self.mcause
        &&& after.mtval == self.mtval
        &&& after.mhartid == self.mhartid
        &&& (csr == 0xB00 || csr == 0xB80 ==> after.minstret == self.minstret)
        &&& (csr == 0xB02 || csr == 0xB82 ==> after.mcycle == self.mcycle)
    }

    /// Reads `csr`. A counter half is one of the two words of its counter in memory order,
    /// which depends on the machine's byte order.
    pub fn r(&self, csr: u16, controller: &InterruptController) -> (r: CsrReadResult)
        ensures
            !spec_is_counter(csr) ==> r == self.spec_r(csr, controller),
            spec_is_counter(csr) ==> ({
                let v = self.spec_counter(csr);
                r == Ok::<u32, ()>(spec_word(v, 0)) || r == Ok::<u32, ()>(spec_word(v, 1))
            }),
    {
        match csr {
            0x300 => self.mstatus.r(),
            0x301 => Ok(Self::MISA),
            0x304 => self.mie.r(),
            0x305 => self.mtvec.r(),
            0x340 => Ok(self.mscratch),
            0x341 => Ok(self.mepc),
            0x342 => Ok(self.mcause),
            0x343 => Ok(self.mtval),
            0x344 => self.mip.r(controller),
            0xB00 => Ok(counter_words(&self.mcycle).0),
            0xB02 => Ok(counter_words(&self.minstret).0),
            0xB80 => Ok(counter_words(&self.mcycle).1),
            0xB82 => Ok(counter_words(&self.minstret).1),
            0xF11 => Ok(Self::MVENDORID),
            0xF12 => Ok(Self::MARCHID),
            0xF13 => Ok(Self::MIMPID),
            0xF14 => Ok(self.mhartid),
            _ => Err(()),
        }
    }

    /// Applies `op` with operand `val` to `csr`; gives the value before, or `Err` for a
    /// register that does not exist or cannot be written.
    fn modify(&mut self, csr: u16, op: CsrOp, val: u32, controller: &InterruptController) -> (r: CsrReadWriteResult)
        ensures
            !spec_writable(csr) ==> r is Err && *final(self) == *old(self),
            spec_writable(csr) && !spec_is_counter(csr) ==> r == old(self).spec_r(csr, controller)
                && *final(self) == old(self).spec_modify(csr, op, val),
            spec_is_counter(csr) ==> r is Ok && old(self).spec_same_but_counter(*final(self), csr)
                && spec_counter_changed(old(self).spec_counter(csr), final(self).spec_counter(csr), r, op, val),
            spec_is_counter(csr) && op == CsrOp::Write ==> ({
                let k: int = if csr == 0xB00 || csr == 0xB02 { 0 } else { 1 };
                ||| final(self).spec_counter(csr) == spec_with_word(old(self).spec_counter(csr), k, val)
                ||| final(self).spec_counter(csr) == spec_with_word(old(self).spec_counter(csr), 1 - k, val)
            }),
    {
        proof {
            assert(forall|x: u32| #![trigger (x & 0xFFFF_FFFFu32)] (x & 0xFFFF_FFFFu32) == x) by (bit_vector);
        }
        match csr {
            0x300 => match op {
                CsrOp::Write => { let before = self.mstatus.0; let _ = self.mstatus.w(val); Ok(before) },
                CsrOp::Swap => self.mstatus.rw(val),
                CsrOp::SetBits => self.mstatus.rs(val),
                CsrOp::ClearBits => self.mstatus.rc(val),
            },
            0x304 => match op {
                CsrOp::Write => { let before = self.mie.0; let _ = self.mie.w(val); Ok(before) },
                CsrOp::Swap => self.mie.rw(val),
                CsrOp::SetBits => self.mie.rs(val),
                CsrOp::ClearBits => self.mie.rc(val),
            },
            0x305 => match op {
                CsrOp::Write => { let before = self.mtvec.0; let _ = self.mtvec.w(val); Ok(before) },
                CsrOp::Swap => self.mtvec.rw(val),
                CsrOp::SetBits => self.mtvec.rs(val),
                CsrOp::ClearBits => self.mtvec.rc(val),
            },
            0x340 => { let before = self.mscratch; self.mscratch = Self::apply_plain(op, before, val); Ok(before) },
            0x341 => { let before = self.mepc; self.mepc = Self::apply_plain(op, before, val); Ok(before) },
            0x342 => { let before = self.mcause; self.mcause = Self::apply_plain(op, before, val); Ok(before) },
            0x343 => { let before = self.mtval; self.mtval = Self::apply_plain(op, before, val); Ok(before) },
            0x344 => match op {
                CsrOp::Write => { let before = self.mip.value(controller); let _ = self.mip.w(val); Ok(before) },
                CsrOp::Swap => self.mip.rw(val, controller),
                CsrOp::SetBits => self.mip.rs(val, controller),
                CsrOp::ClearBits => self.mip.rc(val, controller),
            },
            0xB00 | 0xB80 => {
                let index: usize = if csr == 0xB00 { 0 } else { 1 };
                let words = counter_words(&self.mcycle);
                let before = if index == 0 { words.0 } else { words.1 };
                set_counter_word(&mut self.mcycle, index, Self::apply_plain(op, before, val));
                Ok(before)
            },
            0xB02 | 0xB82 => {
                let index: usize = if csr == 0xB02 { 0 } else { 1 };
                let words = counter_words(&self.minstret);
                let before = if index == 0 { words.0 } else { words.1 };
                set_counter_word(&mut self.minstret, index, Self::apply_plain(op, before, val));
                Ok(before)
            },
            _ => Err(()),
        }
    }

    /// `op` on a register whose bits are all writable.
    fn apply_plain(op: CsrOp, old: u32, val: u32) -> (r: u32)
        ensures
            r == spec_apply(op, old, val, 0xFFFF_FFFF),
    {
        proof {
            assert(val & 0xFFFF_FFFFu32 == val) by (bit_vector);
        }
        match op {
            CsrOp::Write | CsrOp::Swap => val,
            CsrOp::SetBits => old | val,
            CsrOp::ClearBits => old & !val,
        }
    }

    /// Writes `val` to `csr`.
    pub fn w(&mut self, csr: u16, val: u32, controller: &InterruptController) -> (r: CsrWriteResult)
        ensures
            r is Ok <==> spec_writable(csr),
            !spec_writable(csr) ==> *final(self) == *old(self),
            spec_writable(csr) && !spec_is_counter(csr) ==> *final(self) == old(self).spec_modify(csr, CsrOp::Write, val),
            spec_is_counter(csr) ==> old(self).spec_same_but_counter(*final(self), csr) && ({
                let k: int = if csr == 0xB00 || csr == 0xB02 { 0 } else { 1 };
                ||| final(self).spec_counter(csr) == spec_with_word(old(self).spec_counter(csr), k, val)
                ||| final(self).spec_counter(csr) == spec_with_word(old(self).spec_counter(csr), 1 - k, val)
            }),
    {
        match self.modify(csr, CsrOp::Write, val, controller) {
            Ok(_) => Ok(()),
            Err(_) => Err(()),
        }
    }

    /// Swaps `val` into `csr`; gives the value before.
    pub fn rw(&mut self, csr: u16, val: u32, controller: &InterruptController) -> (r: CsrReadWriteResult)
        ensures
            !spec_writable(csr) ==> r is Err && *final(self) == *old(self),
            spec_writable(csr) && !spec_is_counter(csr) ==> r == old(self).spec_r(csr, controller)
                && *final(self) == old(self).spec_modify(csr, CsrOp::Swap, val),
            spec_is_counter(csr) ==> r is Ok && old(self).spec_same_but_counter(*final(self), csr)
                && spec_counter_changed(old(self).spec_counter(csr), final(self).spec_counter(csr), r, CsrOp::Swap, val),
    {
        self.modify(csr, CsrOp::Swap, val, controller)
    }

    /// Sets the bits of `val` in `csr`; gives the value before.
    pub fn rs(&mut self, csr: u16, val: u32, controller: &InterruptController) -> (r: CsrReadWriteResult)
        ensures
            !spec_writable(csr) ==> r is Err && *final(self) == *old(self),
            spec_writable(csr) && !spec_is_counter(csr) ==> r == old(self).spec_r(csr, controller)
                && *final(self) == old(self).spec_modify(csr, CsrOp::SetBits, val),
            spec_is_counter(csr) ==> r is Ok && old(self).spec_same_but_counter(*final(self), csr)
                && spec_counter_changed(old(self).spec_counter(csr), final(self).spec_counter(csr), r, CsrOp::SetBits, val),
    {
        self.modify(csr, CsrOp::SetBits, val, controller)
    }

    /// Clears the bits of `val` in `csr`; gives the value before.
    pub fn rc(&mut self, csr: u16, val: u32, controller: &InterruptController) -> (r: CsrReadWriteResult)
        ensures
            !spec_writable(csr) ==> r is Err && *final(self) == *old(self),
            spec_writable(csr) && !spec_is_counter(csr) ==> r == old(self).spec_r(csr, controller)
                && *final(self) == old(self).spec_modify(csr, CsrOp::ClearBits, val),
            spec_is_counter(csr) ==> r is Ok && old(self).spec_same_but_counter(*final(self), csr)
                && spec_counter_changed(old(self).spec_counter(csr), final(self).spec_counter(csr), r, CsrOp::ClearBits, val),
    {
        self.modify(csr, CsrOp::ClearBits, val, controller)
    }

    /// Whether the hart takes interrupts.
    pub fn interrupts_enabled(&self) -> (r: bool)
        ensures
            r == (self.mstatus.bits() & CsrMStatus::MIE != 0),
    {
        self.mstatus.interrupts_enabled()
    }
}

/// A value written to one of `mscratch`, `mepc`, `mcause` and `mtval` reads back unchanged.
pub proof fn law_plain_csr_read_back(s: CSRs, csr: u16, val: u32, controller: &InterruptController)
    requires
        0x340 <= csr <= 0x343,
    ensures
        s.spec_modify(csr, CsrOp::Write, val).spec_r(csr, controller) == Ok::<u32, ()>(val),
{
    assert(val & 0xFFFF_FFFFu32 == val) by (bit_vector);
}

/// A value written to `mstatus`, `mie` or `mtvec` reads back with only its writable bits.
pub proof fn law_masked_csr_read_back(s: CSRs, val: u32, controller: &InterruptController)
    ensures
        s.spec_modify(0x300, CsrOp::Write, val).spec_r(0x300, controller) == Ok::<u32, ()>(val & 0x88),
        s.spec_modify(0x304, CsrOp::Write, val).spec_r(0x304, controller) == Ok::<u32, ()>(val & 0x888),
        s.spec_modify(0x305, CsrOp::Write, val).spec_r(0x305, controller) == Ok::<u32, ()>(val & 0xFFFF_FFFD),
{
}

/// Setting bits and then clearing the same bits of a plain register leaves it with those
/// bits clear and the others as they were.
pub proof fn law_set_then_clear(s: CSRs, csr: u16, val: u32, controller: &InterruptController)
    requires
        0x340 <= csr <= 0x343,
    ensures
        ({
            let before = s.spec_r(csr, controller).unwrap();
            s.spec_modify(csr, CsrOp::SetBits, val).spec_modify(csr, CsrOp::ClearBits, val).spec_r(csr, controller)
                == Ok::<u32, ()>(before & !val)
        }),
{
    let before = s.spec_r(csr, controller).unwrap();
    assert(((before | (val & 0xFFFF_FFFFu32)) & !(val & 0xFFFF_FFFFu32)) == before & !val) by (bit_vector);
}

/// A trap turns interrupts off, and returning from it turns them back on.
pub proof fn law_trap_round_trip(before: u32)
    ensures
        CsrMStatus::MPIE & CsrMStatus::MIE == 0,
        ({
            let inside = CsrMStatus::MPIE;
            let after = (if inside & CsrMStatus::MPIE != 0 { CsrMStatus::MIE } else { 0 }) | CsrMStatus::MPIE;
            after & CsrMStatus::MIE != 0
        }),
{
    assert(0x80u32 & 0x8u32 == 0 && 0x80u32 & 0x80u32 != 0 && (0x8u32 | 0x80u32) & 0x8u32 != 0) by (bit_vector);
}

} // verus!
