//! The interrupt controller: four external interrupt lines routed to the harts, one
//! inter-hart interrupt per hart, and the machine-interrupt-pending bits it keeps for them.

use vstd::prelude::*;
use crate::hart::csrs::InterruptBits;
use crate::machine::{ReadResult, WriteResult};

verus! {

/// Number of harts the controller serves.
pub const HART_COUNT: u32 = 4;

/// State of one external interrupt line.
#[derive(Copy, Clone, Debug, PartialEq, Eq, Structural)]
pub struct Interrupt {
    pub enabled: bool,
    pub flag: bool,
    pub hart: u32,
}

impl Interrupt {
    /// A disabled, clear line routed to hart 0.
    pub fn new() -> (r: Self)
        ensures
            r == (Interrupt { enabled: false, flag: false, hart: 0 }),
    {
        Self { enabled: false, flag: false, hart: 0 }
    }

    /// Whether the line is raised: enabled and flagged.
    pub open spec fn active(self) -> bool {
        self.enabled && self.flag
    }
}

/// State of the interrupt one hart can raise on another.
#[derive(Copy, Clone, Debug, PartialEq, Eq, Structural)]
pub struct InterHartInterrupt {
    pub enabled: bool,
    pub flag: bool,
}

impl InterHartInterrupt {
    /// A disabled, clear inter-hart interrupt.
    pub fn new() -> (r: Self)
        ensures
            r == (InterHartInterrupt { enabled: false, flag: false }),
    {
        Self { enabled: false, flag: false }
    }

    /// Whether it is raised: enabled and flagged.
    pub open spec fn active(self) -> bool {
        self.enabled && self.flag
    }
}

/// The devices that raise external interrupts.
#[derive(Copy, Clone, Debug, PartialEq, Eq, Structural)]
pub enum InterruptType {
    Gpu,
    Present,
    VSync,
    Spu,
}

impl InterruptType {
    /// The line number of the device: Gpu 0, Present 1, VSync 2, Spu 3.
    pub open spec fn spec_line(self) -> u32 {
        match self {
            InterruptType::Gpu => 0,
            InterruptType::Present => 1,
            InterruptType::VSync => 2,
            InterruptType::Spu => 3,
        }
    }

    /// The line number of the device: Gpu 0, Present 1, VSync 2, Spu 3.
    pub fn line(&self) -> (r: u32)
        ensures
            r == self.spec_line(),
    {
        match self {
            InterruptType::Gpu => 0,
            InterruptType::Present => 1,
            InterruptType::VSync => 2,
            InterruptType::Spu => 3,
        }
    }
}

/// The kind of interrupt waiting for a hart.
#[derive(Copy, Clone, Debug, PartialEq, Eq, Structural)]
pub enum PendingInterrupt {
    External,
    InterHart,
    Timer,
}

/// The controller's state.
///
/// `mips` holds each hart's machine-interrupt-pending bits as the controller last set them;
/// `wake_requests` has bit `h` set when hart `h` must be woken because one of its
/// interrupts was raised, until the owner takes the requests.
pub struct InterruptController {
    pub gpu_interrupt: Interrupt,
    pub present_interrupt: Interrupt,
    pub vsync_interrupt: Interrupt,
    pub spu_interrupt: Interrupt,
    pub ihis: [InterHartInterrupt; 4],
    pub mips: [u32; 4],
    pub wake_requests: u32,
}

/// `x` with its `bit` set or cleared.
pub open spec fn with_bit(x: u32, bit: u32, set: bool) -> u32 {
    if set { x | bit } else { x & !bit }
}

/// `after` is `before` with line `i` in state `new`, propagated: the pending bit MEI of the
/// line's (new) hart follows whether the line is raised, and a line that becomes raised asks
/// to wake that hart. The pending bits of other harts are left as they were.
pub open spec fn line_set(before: InterruptController, after: InterruptController, i: u32, new: Interrupt) -> bool {
    &&& after.spec_interrupt(i) == Some(new)
    &&& forall|j: u32| j != i ==> after.spec_interrupt(j) == before.spec_interrupt(j)
    &&& after.ihis == before.ihis
    &&& after.mips@ == before.mips@.update(new.hart as int, with_bit(before.mips@[new.hart as int], InterruptBits::MEI, new.active()))
    &&& after.wake_requests == (if new.active() && !before.spec_interrupt(i).unwrap().active() {
        before.wake_requests | (1u32 << new.hart)
    } else {
        before.wake_requests
    })
}

/// `after` is `before` with the inter-hart interrupt of `hart` in state `new`, propagated:
/// the pending bit MSI of the hart follows whether it is raised, and one that becomes raised
/// asks to wake the hart.
pub open spec fn ihi_set(before: InterruptController, after: InterruptController, hart: u32, new: InterHartInterrupt) -> bool {
    &&& forall|j: u32| after.spec_interrupt(j) == before.spec_interrupt(j)
    &&& after.ihis@ == before.ihis@.update(hart as int, new)
    &&& after.mips@ == before.mips@.update(hart as int, with_bit(before.mips@[hart as int], InterruptBits::MSI, new.active()))
    &&& after.wake_requests == (if new.active() && !before.ihis@[hart as int].active() {
        before.wake_requests | (1u32 << hart)
    } else {
        before.wake_requests
    })
}

impl InterruptController {
    /// Every line is routed to an existing hart.
    pub open spec fn wf(&self) -> bool {
        &&& self.gpu_interrupt.hart < HART_COUNT
        &&& self.present_interrupt.hart < HART_COUNT
        &&& self.vsync_interrupt.hart < HART_COUNT
        &&& self.spu_interrupt.hart < HART_COUNT
    }

    /// Line `i` (0 Gpu, 1 Present, 2 VSync, 3 Spu), if there is one.
    pub open spec fn spec_interrupt(&self, i: u32) -> Option<Interrupt> {
        if i == 0 {
            Some(self.gpu_interrupt)
        } else if i == 1 {
            Some(self.present_interrupt)
        } else if i == 2 {
            Some(self.vsync_interrupt)
        } else if i == 3 {
            Some(self.spu_interrupt)
        } else {
            None
        }
    }

    /// A fresh controller: every line disabled, clear and routed to hart 0, nothing pending.
    pub fn new() -> (r: Self)
        ensures
            r.wf(),
            forall|i: u32| i < 4 ==> r.spec_interrupt(i) == Some(Interrupt { enabled: false, flag: false, hart: 0 }),
            forall|h: int| 0 <= h < 4 ==> r.ihis@[h] == (InterHartInterrupt { enabled: false, flag: false }),
            forall|h: int| 0 <= h < 4 ==> r.mips@[h] == 0,
            r.wake_requests == 0,
    {
        Self {
            gpu_interrupt: Interrupt::new(),
            present_interrupt: Interrupt::new(),
            vsync_interrupt: Interrupt::new(),
            spu_interrupt: Interrupt::new(),
            ihis: [InterHartInterrupt::new(), InterHartInterrupt::new(), InterHartInterrupt::new(), InterHartInterrupt::new()],
            mips: [0, 0, 0, 0],
            wake_requests: 0,
        }
    }

    /// Copy of line `i`.
    fn get_interrupt(&self, interrupt: u32) -> (r: Option<Interrupt>)
        ensures
            r == self.spec_interrupt(interrupt),
    {
        match interrupt {
            0 => Some(self.gpu_interrupt),
            1 => Some(self.present_interrupt),
            2 => Some(self.vsync_interrupt),
            3 => Some(self.spu_interrupt),
            _ => None,
        }
    }

    /// Gives line `i` the state `new` and propagates it to the pending bits of its hart.
    fn update_and_propogate_interrupt(&mut self, i: u32, new: Interrupt)
        requires
            i < 4,
            new.hart < HART_COUNT,
            old(self).wf(),
        ensures
            final(self).wf(),
            line_set(*old(self), *final(self), i, new),
    {
        let previous_state = match self.get_interrupt(i) {
            Some(s) => s.enabled && s.flag,
            None => false,
        };
        match i {
            0 => { self.gpu_interrupt = new; },
            1 => { self.present_interrupt = new; },
            2 => { self.vsync_interrupt = new; },
            _ => { self.spu_interrupt = new; },
        }
        let state = new.enabled && new.flag;
        let h = new.hart as usize;
        if state {
            self.mips[h] = self.mips[h] | InterruptBits::MEI;
        } else {
            self.mips[h] = self.mips[h] & !InterruptBits::MEI;
        }
        if state && !previous_state {
            self.wake_requests = self.wake_requests | (1u32 << new.hart);
        }
        assert(self.mips@ =~= old(self).mips@.update(new.hart as int,
            with_bit(old(self).mips@[new.hart as int], InterruptBits::MEI, new.active())));
    }

    /// Enables or disables line `interrupt`; other numbers are ignored.
    pub fn set_interrupt_enabled(&mut self, interrupt: u32, enabled: bool)
        requires
            old(self).wf(),
        ensures
            final(self).wf(),
            interrupt >= 4 ==> *final(self) == *old(self),
            interrupt < 4 ==> line_set(*old(self), *final(self), interrupt, Interrupt {
                enabled, ..old(self).spec_interrupt(interrupt).unwrap()
            }),
    {
        if let Some(s) = self.get_interrupt(interrupt) {
            self.update_and_propogate_interrupt(interrupt, Interrupt { enabled, ..s });
        }
    }

    /// Whether line `interrupt` is enabled; false for other numbers.
    pub fn get_interrupt_enabled(&self, interrupt: u32) -> (r: bool)
        ensures
            r == (match self.spec_interrupt(interrupt) { Some(s) => s.enabled, None => false }),
    {
        match self.get_interrupt(interrupt) {
            Some(s) => s.enabled,
            None => false,
        }
    }

    /// Routes line `interrupt` to `hart`; other numbers are ignored.
    pub fn set_interrupt_hart(&mut self, interrupt: u32, hart: u32)
        requires
            old(self).wf(),
            hart < HART_COUNT,
        ensures
            final(self).wf(),
            interrupt >= 4 ==> *final(self) == *old(self),
            interrupt < 4 ==> line_set(*old(self), *final(self), interrupt, Interrupt {
                hart, ..old(self).spec_interrupt(interrupt).unwrap()
            }),
    {
        if let Some(s) = self.get_interrupt(interrupt) {
            self.update_and_propogate_interrupt(interrupt, Interrupt { hart, ..s });
        }
    }

    /// The hart line `interrupt` is routed to; 0 for other numbers.
    pub fn get_interrupt_hart(&self, interrupt: u32) -> (r: u32)
        ensures
            r == (match self.spec_interrupt(interrupt) { Some(s) => s.hart, None => 0 }),
    {
        match self.get_interrupt(interrupt) {
            Some(s) => s.hart,
            None => 0,
        }
    }

    /// Clears the flag of line `interrupt`; other numbers are ignored.
    pub fn clear_interrupt(&mut self, interrupt: u32)
        requires
            old(self).wf(),
        ensures
            final(self).wf(),
            interrupt >= 4 ==> *final(self) == *old(self),
            interrupt < 4 ==> line_set(*old(self), *final(self), interrupt, Interrupt {
                flag: false, ..old(self).spec_interrupt(interrupt).unwrap()
            }),
    {
        if let Some(s) = self.get_interrupt(interrupt) {
            self.update_and_propogate_interrupt(interrupt, Interrupt { flag: false, ..s });
        }
    }

    /// Raises the flag of the line of a device.
    pub fn trigger_interrupt(&mut self, interrupt: InterruptType)
        requires
            old(self).wf(),
        ensures
            final(self).wf(),
            line_set(*old(self), *final(self), interrupt.spec_line(), Interrupt {
                flag: true, ..old(self).spec_interrupt(interrupt.spec_line()).unwrap()
            }),
    {
        let i = interrupt.line();
        if let Some(s) = self.get_interrupt(i) {
            self.update_and_propogate_interrupt(i, Interrupt { flag: true, ..s });
        }
    }

    /// Whether line `interrupt` is raised for `hart`.
    pub open spec fn spec_check(s: Interrupt, hart: u32) -> bool {
        s.hart == hart && s.enabled && s.flag
    }

    /// The number reported for the first raised line of `hart`, checked in the order Gpu,
    /// VSync, Present, Spu (which report 0, 1, 2 and 3), then its inter-hart interrupt (0xFF).
    pub open spec fn spec_pending_number(&self, hart: u32) -> Option<u32> {
        if Self::spec_check(self.gpu_interrupt, hart) {
            Some(0)
        } else if Self::spec_check(self.vsync_interrupt, hart) {
            Some(1)
        } else if Self::spec_check(self.present_interrupt, hart) {
            Some(2)
        } else if Self::spec_check(self.spu_interrupt, hart) {
            Some(3)
        } else if self.ihis@[hart as int].active() {
            Some(0xFF)
        } else {
            None
        }
    }

    /// The kind of the first interrupt waiting for `hart`: external lines before its
    /// inter-hart interrupt.
    pub fn pending_interrupt(&self, hart: u32) -> (r: Option<PendingInterrupt>)
        requires
            hart < HART_COUNT,
        ensures
            r == (match self.spec_pending_number(hart) {
                None => None,
                Some(n) => if n == 0xFF { Some(PendingInterrupt::InterHart) } else { Some(PendingInterrupt::External) },
            }),
    {
        if Self::check_interrupt(&self.gpu_interrupt, hart) || Self::check_interrupt(&self.vsync_interrupt, hart)
            || Self::check_interrupt(&self.present_interrupt, hart) || Self::check_interrupt(&self.spu_interrupt, hart)
        {
            Some(PendingInterrupt::External)
        } else if self.check_ihi(hart) {
            Some(PendingInterrupt::InterHart)
        } else {
            None
        }
    }

    /// The number of the first interrupt waiting for `hart` (see `spec_pending_number`).
    pub fn pending_interrupt_number(&self, hart: u32) -> (r: Option<u32>)
        requires
            hart < HART_COUNT,
        ensures
            r == self.spec_pending_number(hart),
    {
        if Self::check_interrupt(&self.gpu_interrupt, hart) {
            return Some(0);
        }
        if Self::check_interrupt(&self.vsync_interrupt, hart) {
            return Some(1);
        }
        if Self::check_interrupt(&self.present_interrupt, hart) {
            return Some(2);
        }
        if Self::check_interrupt(&self.spu_interrupt, hart) {
            return Some(3);
        }
        if self.check_ihi(hart) {
            return Some(0xFF);
        }
        None
    }

    fn check_interrupt(interrupt: &Interrupt, hart: u32) -> (r: bool)
        ensures
            r == Self::spec_check(*interrupt, hart),
    {
        interrupt.hart == hart && interrupt.enabled && interrupt.flag
    }

    fn check_ihi(&self, hart: u32) -> (r: bool)
        requires
            hart < HART_COUNT,
        ensures
            r == self.ihis@[hart as int].active(),
    {
        let ihi = self.ihis[hart as usize];
        ihi.enabled && ihi.flag
    }

    /// Whether the flag of line `interrupt` is raised; false for other numbers.
    pub fn get_interrupt_flag(&self, interrupt: u32) -> (r: bool)
        ensures
            r == (match self.spec_interrupt(interrupt) { Some(s) => s.flag, None => false }),
    {
        match self.get_interrupt(interrupt) {
            Some(s) => s.flag,
            None => false,
        }
    }

    /// Gives the inter-hart interrupt of `hart` the state `new` and propagates it to the
    /// pending bit MSI of that hart; one that becomes raised asks to wake the hart.
    fn update_and_propogate_ihi(&mut self, hart: u32, new: InterHartInterrupt)
        requires
            hart < HART_COUNT,
            old(self).wf(),
        ensures
            final(self).wf(),
            ihi_set(*old(self), *final(self), hart, new),
    {
        let h = hart as usize;
        let previous_state = self.ihis[h].enabled && self.ihis[h].flag;
        self.ihis[h] = new;
        let state = new.enabled && new.flag;
        if state {
            self.mips[h] = self.mips[h] | InterruptBits::MSI;
        } else {
            self.mips[h] = self.mips[h] & !InterruptBits::MSI;
        }
        if state && !previous_state {
            self.wake_requests = self.wake_requests | (1u32 << hart);
        }
    }

    /// Enables or disables the inter-hart interrupt of `hart`; other harts are ignored.
    pub fn set_ihi_enabled(&mut self, hart: u32, enabled: bool)
        requires
            old(self).wf(),
        ensures
            final(self).wf(),
            hart >= HART_COUNT ==> *final(self) == *old(self),
            hart < HART_COUNT ==> ihi_set(*old(self), *final(self), hart,
                InterHartInterrupt { enabled, ..old(self).ihis@[hart as int] }),
    {
        if hart < HART_COUNT {
            let s = self.ihis[hart as usize];
            self.update_and_propogate_ihi(hart, InterHartInterrupt { enabled, ..s });
        }
    }

    /// Whether the inter-hart interrupt of `hart` is enabled; false for other harts.
    pub fn get_ihi_enabled(&self, hart: u32) -> (r: bool)
        ensures
            r == (hart < HART_COUNT && self.ihis@[hart as int].enabled),
    {
        if hart < HART_COUNT {
            self.ihis[hart as usize].enabled
        } else {
            false
        }
    }

    /// Whether the inter-hart interrupt of `hart` is flagged; false for other harts.
    pub fn get_ihi_flag(&self, hart: u32) -> (r: bool)
        ensures
            r == (hart < HART_COUNT && self.ihis@[hart as int].flag),
    {
        if hart < HART_COUNT {
            self.ihis[hart as usize].flag
        } else {
            false
        }
    }

    /// Clears the inter-hart interrupt flag of `hart`; other harts are ignored.
    pub fn clear_ihi(&mut self, hart: u32)
        requires
            old(self).wf(),
        ensures
            final(self).wf(),
            hart >= HART_COUNT ==> *final(self) == *old(self),
            hart < HART_COUNT ==> ihi_set(*old(self), *final(self), hart,
                InterHartInterrupt { flag: false, ..old(self).ihis@[hart as int] }),
    {
        if hart < HART_COUNT {
            let s = self.ihis[hart as usize];
            self.update_and_propogate_ihi(hart, InterHartInterrupt { flag: false, ..s });
        }
    }

    /// Raises the inter-hart interrupt flag of `hart`; other harts are ignored.
    pub fn trigger_ihi(&mut self, hart: u32)
        requires
            old(self).wf(),
        ensures
            final(self).wf(),
            hart >= HART_COUNT ==> *final(self) == *old(self),
            hart < HART_COUNT ==> ihi_set(*old(self), *final(self), hart,
                InterHartInterrupt { flag: true, ..old(self).ihis@[hart as int] }),
    {
        if hart < HART_COUNT {
            let s = self.ihis[hart as usize];
            self.update_and_propogate_ihi(hart, InterHartInterrupt { flag: true, ..s });
        }
    }

    /// The machine-interrupt-pending bits of `hart`; 0 for other harts.
    pub fn mip(&self, hart: u32) -> (r: u32)
        ensures
            r == (if hart < HART_COUNT { self.mips@[hart as int] } else { 0 }),
    {
        if hart < HART_COUNT {
            self.mips[hart as usize]
        } else {
            0
        }
    }

    /// Takes the wake requests: bit `h` set asks to wake hart `h`. None remain afterwards.
    pub fn take_wake_requests(&mut self) -> (r: u32)
        ensures
            r == old(self).wake_requests,
            final(self).wake_requests == 0,
            final(self).gpu_interrupt == old(self).gpu_interrupt,
            final(self).present_interrupt == old(self).present_interrupt,
            final(self).vsync_interrupt == old(self).vsync_interrupt,
            final(self).spu_interrupt == old(self).spu_interrupt,
            final(self).ihis == old(self).ihis,
            final(self).mips == old(self).mips,
    {
        let r = self.wake_requests;
        self.wake_requests = 0;
        r
    }
}

/// What a read of the controller's register at `offset` gives. The low four bits pick a
/// register, the rest an interrupt line; lines 0xFC to 0xFF hold per-hart registers, the
/// hart being the register number divided by four.
pub open spec fn spec_controller_read(c: &InterruptController, offset: u32) -> ReadResult<u32> {
    let register = offset & 0xF;
    let interrupt = offset >> 4u32;
    let hart = register >> 2u32;
    if interrupt == 0xFC {
        ReadResult::Success(match c.spec_pending_number(hart) { Some(n) => n, None => 0xFFFF_FFFF })
    } else if interrupt == 0xFD {
        ReadResult::Success(if c.ihis@[hart as int].enabled { 1 } else { 0 })
    } else if interrupt == 0xFE || interrupt == 0xFF {
        ReadResult::Success(if c.ihis@[hart as int].flag { 1 } else { 0 })
    } else if register == 0 {
        ReadResult::Success(match c.spec_interrupt(interrupt) { Some(s) => if s.enabled { 1 } else { 0 }, None => 0 })
    } else if register == 4 {
        ReadResult::Success(match c.spec_interrupt(interrupt) { Some(s) => s.hart, None => 0 })
    } else if register == 8 {
        ReadResult::Success(match c.spec_interrupt(interrupt) { Some(s) => if s.flag { 1 } else { 0 }, None => 0 })
    } else {
        ReadResult::InvalidAddress
    }
}

/// Whether a write at `offset` names a register of the controller.
pub open spec fn spec_controller_writable(offset: u32) -> bool {
    let register = offset & 0xF;
    let interrupt = offset >> 4u32;
    interrupt == 0xFD || interrupt == 0xFE || interrupt == 0xFF || register == 0 || register == 4 || register == 8
}

/// What a write of `value` at `offset` does to the controller (see
/// `interrupt_controller_write_u32`).
pub open spec fn spec_write_post(before: InterruptController, after: InterruptController, offset: u32, value: u32) -> bool {
    let register = offset & 0xF;
    let interrupt = offset >> 4u32;
    let hart = register >> 2u32;
    let line = before.spec_interrupt(interrupt).unwrap();
    let ihi = before.ihis@[hart as int];
    if interrupt == 0xFD {
        ihi_set(before, after, hart, InterHartInterrupt { enabled: value != 0, ..ihi })
    } else if interrupt == 0xFE && value & 1 != 0 {
        ihi_set(before, after, hart, InterHartInterrupt { flag: false, ..ihi })
    } else if interrupt == 0xFF && value & 1 != 0 {
        ihi_set(before, after, hart, InterHartInterrupt { flag: true, ..ihi })
    } else if interrupt < 4 && register == 0 {
        line_set(before, after, interrupt, Interrupt { enabled: value != 0, ..line })
    } else if interrupt < 4 && register == 4 {
        line_set(before, after, interrupt, Interrupt { hart: value & 3, ..line })
    } else if interrupt < 4 && register == 8 && value & 1 != 0 {
        line_set(before, after, interrupt, Interrupt { flag: false, ..line })
    } else {
        after == before
    }
}

/// Writes `value` to the controller's register at `offset`: line registers 0 (enable),
/// 4 (target hart, taken modulo 4) and 8 (writing bit 0 clears the flag); per-hart registers
/// 0xFD (inter-hart enable), 0xFE (bit 0 clears the inter-hart flag) and 0xFF (bit 0 raises it).
pub fn interrupt_controller_write_u32(controller: &mut InterruptController, offset: u32, value: u32) -> (r: WriteResult)
    requires
        old(controller).wf(),
    ensures
        final(controller).wf(),
        r == (if spec_controller_writable(offset) { WriteResult::Success } else { WriteResult::InvalidAddress }),
        spec_write_post(*old(controller), *final(controller), offset, value),
{
    let register = offset & 0xF;
    let interrupt = offset >> 4;
    let hart = register >> 2;
    assert(hart < 4) by (bit_vector) requires hart == (offset & 0xF) >> 2u32;
    if interrupt == 0xFD {
        controller.set_ihi_enabled(hart, value != 0);
        WriteResult::Success
    } else if interrupt == 0xFE {
        if (value & 1) != 0 {
            controller.clear_ihi(hart);
        }
        WriteResult::Success
    } else if interrupt == 0xFF {
        if (value & 1) != 0 {
            controller.trigger_ihi(hart);
        }
        WriteResult::Success
    } else if register == 0 {
        controller.set_interrupt_enabled(interrupt, value != 0);
        WriteResult::Success
    } else if register == 4 {
        assert(value & 3 < 4) by (bit_vector);
        controller.set_interrupt_hart(interrupt, value & 3);
        WriteResult::Success
    } else if register == 8 {
        if (value & 1) != 0 {
            controller.clear_interrupt(interrupt);
        }
        WriteResult::Success
    } else {
        WriteResult::InvalidAddress
    }
}

/// Writes a 16-bit value, widened, as `interrupt_controller_write_u32` does.
pub fn interrupt_controller_write_u16(controller: &mut InterruptController, offset: u32, value: u16) -> (r: WriteResult)
    requires
        old(controller).wf(),
    ensures
        final(controller).wf(),
        r == (if spec_controller_writable(offset) { WriteResult::Success } else { WriteResult::InvalidAddress }),
        spec_write_post(*old(controller), *final(controller), offset, value as u32),
{
    interrupt_controller_write_u32(controller, offset, value as u32)
}

/// Writes an 8-bit value, widened, as `interrupt_controller_write_u32` does.
pub fn interrupt_controller_write_u8(controller: &mut InterruptController, offset: u32, value: u8) -> (r: WriteResult)
    requires
        old(controller).wf(),
    ensures
        final(controller).wf(),
        r == (if spec_controller_writable(offset) { WriteResult::Success } else { WriteResult::InvalidAddress }),
        spec_write_post(*old(controller), *final(controller), offset, value as u32),
{
    interrupt_controller_write_u32(controller, offset, value as u32)
}

/// Reads the controller's register at `offset` (see `spec_controller_read`).
pub fn interrupt_controller_read_u32(controller: &InterruptController, offset: u32) -> (r: ReadResult<u32>)
    ensures
        r == spec_controller_read(controller, offset),
{
    let register = offset & 0x0F;
    let interrupt = offset >> 4;
    let hart = register >> 2;
    assert(hart < 4) by (bit_vector) requires hart == (offset & 0xF) >> 2u32;
    if interrupt == 0xFC {
        ReadResult::Success(match controller.pending_interrupt_number(hart) {
            Some(n) => n,
            None => 0xFFFF_FFFF,
        })
    } else if interrupt == 0xFD {
        ReadResult::Success(if controller.get_ihi_enabled(hart) { 1 } else { 0 })
    } else if interrupt == 0xFE || interrupt == 0xFF {
        ReadResult::Success(if controller.get_ihi_flag(hart) { 1 } else { 0 })
    } else if register == 0 {
        ReadResult::Success(if controller.get_interrupt_enabled(interrupt) { 1 } else { 0 })
    } else if register == 4 {
        ReadResult::Success(controller.get_interrupt_hart(interrupt))
    } else if register == 8 {
        ReadResult::Success(if controller.get_interrupt_flag(interrupt) { 1 } else { 0 })
    } else {
        ReadResult::InvalidAddress
    }
}

/// Reads a register and keeps its low 16 bits.
pub fn interrupt_controller_read_u16(controller: &InterruptController, offset: u32) -> (r: ReadResult<u16>)
    ensures
        r == (match spec_controller_read(controller, offset) {
            ReadResult::Success(x) => ReadResult::Success(x as u16),
            ReadResult::InvalidAddress => ReadResult::InvalidAddress,
        }),
{
    match interrupt_controller_read_u32(controller, offset) {
        ReadResult::Success(x) => ReadResult::Success(x as u16),
        ReadResult::InvalidAddress => ReadResult::InvalidAddress,
    }
}

/// Reads a register and keeps its low 8 bits.
pub fn interrupt_controller_read_u8(controller: &InterruptController, offset: u32) -> (r: ReadResult<u8>)
    ensures
        r == (match spec_controller_read(controller, offset) {
            ReadResult::Success(x) => ReadResult::Success(x as u8),
            ReadResult::InvalidAddress => ReadResult::InvalidAddress,
        }),
{
    match interrupt_controller_read_u32(controller, offset) {
        ReadResult::Success(x) => ReadResult::Success(x as u8),
        ReadResult::InvalidAddress => ReadResult::InvalidAddress,
    }
}

/// A value written to the enable register of a line reads back as 1 when it is not zero and
/// as 0 when it is.
pub proof fn law_enable_read_back(before: InterruptController, after: InterruptController, line: u32, value: u32)
    requires
        line < 4,
        before.wf(),
        spec_write_post(before, after, line << 4u32, value),
    ensures
        spec_controller_read(&after, line << 4u32) == ReadResult::Success(if value != 0 { 1u32 } else { 0u32 }),
{
    assert(((line << 4u32) & 0xF) == 0 && ((line << 4u32) >> 4u32) == line) by (bit_vector) requires line < 4;
}

/// The target hart written to a line reads back modulo 4.
pub proof fn law_hart_read_back(before: InterruptController, after: InterruptController, line: u32, value: u32)
    requires
        line < 4,
        before.wf(),
        spec_write_post(before, after, (line << 4u32) | 4, value),
    ensures
        spec_controller_read(&after, (line << 4u32) | 4) == ReadResult::Success(value & 3),
{
    assert((((line << 4u32) | 4) & 0xF) == 4 && (((line << 4u32) | 4) >> 4u32) == line) by (bit_vector) requires line < 4;
}

/// Writing bit 0 to the flag register of a line clears it: the flag then reads as 0.
pub proof fn law_clear_read_back(before: InterruptController, after: InterruptController, line: u32, value: u32)
    requires
        line < 4,
        before.wf(),
        value & 1 != 0,
        spec_write_post(before, after, (line << 4u32) | 8, value),
    ensures
        spec_controller_read(&after, (line << 4u32) | 8) == ReadResult::Success(0u32),
{
    assert((((line << 4u32) | 8) & 0xF) == 8 && (((line << 4u32) | 8) >> 4u32) == line) by (bit_vector) requires line < 4;
}

/// The inter-hart enable written for a hart reads back as 1 or 0.
pub proof fn law_ihi_enable_read_back(before: InterruptController, after: InterruptController, hart: u32, value: u32)
    requires
        hart < 4,
        spec_write_post(before, after, 0xFD0 | (hart << 2u32), value),
    ensures
        spec_controller_read(&after, 0xFD0 | (hart << 2u32)) == ReadResult::Success(if value != 0 { 1u32 } else { 0u32 }),
{
    assert(((0xFD0 | (hart << 2u32)) >> 4u32) == 0xFD && (((0xFD0 | (hart << 2u32)) & 0xF) >> 2u32) == hart)
        by (bit_vector) requires hart < 4;
}

/// Raising a hart's inter-hart interrupt is seen in its flag register, and clearing it too.
pub proof fn law_ihi_trigger_then_clear(
    c0: InterruptController,
    c1: InterruptController,
    c2: InterruptController,
    hart: u32,
)
    requires
        hart < 4,
        spec_write_post(c0, c1, 0xFF0 | (hart << 2u32), 1),
        spec_write_post(c1, c2, 0xFE0 | (hart << 2u32), 1),
    ensures
        spec_controller_read(&c1, 0xFE0 | (hart << 2u32)) == ReadResult::Success(1u32),
        spec_controller_read(&c2, 0xFE0 | (hart << 2u32)) == ReadResult::Success(0u32),
{
    assert(((0xFF0 | (hart << 2u32)) >> 4u32) == 0xFF && (((0xFF0 | (hart << 2u32)) & 0xF) >> 2u32) == hart
        && ((0xFE0 | (hart << 2u32)) >> 4u32) == 0xFE && (((0xFE0 | (hart << 2u32)) & 0xF) >> 2u32) == hart)
        by (bit_vector) requires hart < 4;
    assert(1u32 & 1 != 0) by (bit_vector);
}

/// A raised, enabled line is reported to its hart: the pending register of that hart then
/// names an external line (a number below 4), not "nothing pending".
pub proof fn law_raised_line_is_pending(c: InterruptController, line: u32)
    requires
        line < 4,
        c.wf(),
        c.spec_interrupt(line).unwrap().active(),
    ensures
        ({
            let hart = c.spec_interrupt(line).unwrap().hart;
            match spec_controller_read(&c, 0xFC0 | (hart << 2u32)) {
                ReadResult::Success(n) => n < 4,
                ReadResult::InvalidAddress => false,
            }
        }),
{
    let hart = c.spec_interrupt(line).unwrap().hart;
    assert(((0xFC0 | (hart << 2u32)) >> 4u32) == 0xFC && (((0xFC0 | (hart << 2u32)) & 0xF) >> 2u32) == hart)
        by (bit_vector) requires hart < 4;
}

} // verus!
