//! Device numbers and register addresses the SDK uses.

use vstd::prelude::*;

verus! {

/// The four harts.
#[derive(Copy, Clone, Debug, PartialEq, Eq, PartialOrd, Ord, Structural)]
pub enum Hart {
    Hart0,
    Hart1,
    Hart2,
    Hart3,
}

/// Base of the hart start trigger registers.
pub const HART_START_TRIGGER_BASE: u32 = 0x80020000;

impl Hart {
    /// The hart's number.
    pub open spec fn spec_to_u32(self) -> u32 {
        match self {
            Hart::Hart0 => 0,
            Hart::Hart1 => 1,
            Hart::Hart2 => 2,
            Hart::Hart3 => 3,
        }
    }

    /// The hart's number.
    pub fn to_u32(self) -> (r: u32)
        ensures
            r == self.spec_to_u32(),
    {
        match self {
            Hart::Hart0 => 0,
            Hart::Hart1 => 1,
            Hart::Hart2 => 2,
            Hart::Hart3 => 3,
        }
    }

    /// The hart of a number the machine reports, if it names one.
    pub fn from_id(id: u32) -> (r: Option<Hart>)
        ensures
            id < 4 ==> r is Some && r->Some_0.spec_to_u32() == id,
            id >= 4 ==> r is None,
    {
        match id {
            0 => Some(Hart::Hart0),
            1 => Some(Hart::Hart1),
            2 => Some(Hart::Hart2),
            3 => Some(Hart::Hart3),
            _ => None,
        }
    }

    /// The register a start address is written to: the base plus the hart's number, the sum
    /// shifted left by two (bits shifted past the top are lost).
    pub fn start_register(self) -> (r: u32)
        ensures
            r == ((HART_START_TRIGGER_BASE + self.spec_to_u32()) * 4) % 0x1_0000_0000,
    {
        let n = self.to_u32();
        let sum = HART_START_TRIGGER_BASE + n;
        assert((sum << 2u32) == (sum * 4) % 0x1_0000_0000) by (bit_vector);
        sum << 2
    }
}

/// The buttons of the controller.
#[derive(Copy, Clone, Debug, PartialEq, Eq, Structural)]
pub enum Button {
    Up,
    Down,
    Left,
    Right,
    A,
    B,
    X,
    Y,
    Start,
    Select,
}

impl Button {
    /// The button's number.
    pub open spec fn spec_to_u32(self) -> u32 {
        match self {
            Button::Up => 0,
            Button::Down => 1,
            Button::Left => 2,
            Button::Right => 3,
            Button::A => 4,
            Button::B => 5,
            Button::X => 6,
            Button::Y => 7,
            Button::Start => 8,
            Button::Select => 9,
        }
    }

    /// The button's number.
    pub fn to_u32(self) -> (r: u32)
        ensures
            r == self.spec_to_u32(),
    {
        match self {
            Button::Up => 0,
            Button::Down => 1,
            Button::Left => 2,
            Button::Right => 3,
            Button::A => 4,
            Button::B => 5,
            Button::X => 6,
            Button::Y => 7,
            Button::Start => 8,
            Button::Select => 9,
        }
    }

    /// The register that reads nonzero while the button is held.
    pub fn register(self) -> (r: u32)
        ensures
            r == 0x8005_0000 + self.spec_to_u32() * 4,
    {
        let n = self.to_u32();
        assert((n << 2u32) == n * 4) by (bit_vector) requires n < 10;
        0x8005_0000u32 + (n << 2)
    }
}

/// Base of the interrupt pending registers.
pub const INTERRUPT_PEND_BASE: u32 = 0x80030008;
/// Base of the interrupt target registers.
pub const INTERRUPT_TARGET_BASE: u32 = 0x80030004;
/// Base of the interrupt enable registers.
pub const INTERRUPT_ENABLE_BASE: u32 = 0x80030000;
/// Base of the per-hart pending interrupt registers.
pub const PENDING_INTERRUPT_BASE: u32 = 0x80030FC0;
/// Base of the inter-hart interrupt enable registers.
pub const IHI_ENABLE_BASE: u32 = 0x80030FD0;
/// Base of the inter-hart interrupt clear registers.
pub const IHI_CLEAR_BASE: u32 = 0x80030FE0;
/// Base of the inter-hart interrupt trigger registers.
pub const IHI_TRIGGER_BASE: u32 = 0x80030FF0;

/// The peripheral interrupt lines.
#[derive(Copy, Clone, Debug, PartialEq, Eq, Structural)]
pub enum Interrupt {
    GpuInterrupt,
    PresentInterrupt,
    VSyncInterrupt,
    SpuInterrupt,
}

/// What a pending interrupt register reports.
#[derive(Copy, Clone, Debug, PartialEq, Eq, Structural)]
pub enum PendingInterrupt {
    Peripheral(Interrupt),
    InterHart,
}

/// The inter-hart interrupt of one hart.
#[derive(Copy, Clone, Debug, PartialEq, Eq, Structural)]
pub struct InterHartInterrupt {
    pub hart: Hart,
}

/// The register of line `n` from `base`: the base plus the line's number, the sum shifted
/// left by four (bits shifted past the top are lost).
pub open spec fn spec_line_register(base: u32, n: u32) -> u32 {
    (((base + n) * 16) % 0x1_0000_0000) as u32
}

impl Interrupt {
    /// The line's number.
    pub open spec fn spec_to_u32(self) -> u32 {
        match self {
            Interrupt::GpuInterrupt => 0,
            Interrupt::PresentInterrupt => 1,
            Interrupt::VSyncInterrupt => 2,
            Interrupt::SpuInterrupt => 3,
        }
    }

    /// The line's number.
    pub fn to_u32(self) -> (r: u32)
        ensures
            r == self.spec_to_u32(),
    {
        match self {
            Interrupt::GpuInterrupt => 0,
            Interrupt::PresentInterrupt => 1,
            Interrupt::VSyncInterrupt => 2,
            Interrupt::SpuInterrupt => 3,
        }
    }

    /// The line a pending register's number names.
    pub fn from_u32(n: u32) -> (r: Option<Interrupt>)
        ensures
            n < 4 ==> r is Some && r->Some_0.spec_to_u32() == n,
            n >= 4 ==> r is None,
    {
        match n {
            0 => Some(Interrupt::GpuInterrupt),
            1 => Some(Interrupt::PresentInterrupt),
            2 => Some(Interrupt::VSyncInterrupt),
            3 => Some(Interrupt::SpuInterrupt),
            _ => None,
        }
    }

    /// The register of this line counted from `base` (see `spec_line_register`).
    pub fn register(self, base: u32) -> (r: u32)
        ensures
            r == spec_line_register(base, self.spec_to_u32()),
    {
        line_register(base, self.to_u32())
    }

    /// What the pending interrupt register of a hart reports: 0 to 3 name a peripheral line,
    /// 0xFF an inter-hart interrupt, and any other value nothing.
    pub fn pending_from(value: u32) -> (r: Option<PendingInterrupt>)
        ensures
            value < 4 ==> (r matches Some(PendingInterrupt::Peripheral(line)) && line.spec_to_u32() == value),
            value == 0xFF ==> r == Some(PendingInterrupt::InterHart),
            4 <= value && value != 0xFF ==> r is None,
    {
        match value {
            0xFF => Some(PendingInterrupt::InterHart),
            _ => match Interrupt::from_u32(value) {
                Some(line) => Some(PendingInterrupt::Peripheral(line)),
                None => None,
            },
        }
    }
}

/// `base` plus `n`, the sum shifted left by four (see `spec_line_register`).
fn line_register(base: u32, n: u32) -> (r: u32)
    ensures
        r == spec_line_register(base, n),
{
    let sum = base.wrapping_add(n);
    assert((sum << 4u32) == (((base as int + n as int) * 16) % 0x1_0000_0000) as u32) by (bit_vector)
        requires sum == base.wrapping_add(n);
    sum << 4
}

impl Hart {
    /// The register that reports this hart's pending interrupt: `PENDING_INTERRUPT_BASE` plus
    /// the hart's number, the sum shifted left by four.
    pub fn pending_register(self) -> (r: u32)
        ensures
            r == spec_line_register(PENDING_INTERRUPT_BASE, self.spec_to_u32()),
    {
        line_register(PENDING_INTERRUPT_BASE, self.to_u32())
    }
}

impl InterHartInterrupt {
    /// The register of this hart's inter-hart interrupt counted from `base` (one of
    /// `IHI_ENABLE_BASE`, `IHI_CLEAR_BASE` and `IHI_TRIGGER_BASE`): the base plus four times
    /// the hart's number.
    pub fn register(self, base: u32) -> (r: u32)
        requires
            base <= 0xFFFF_FFF0,
        ensures
            r == base + 4 * self.hart.spec_to_u32(),
    {
        base + 4 * self.hart.to_u32()
    }
}

/// What the debug port's status register reports.
#[derive(Copy, Clone, Debug, PartialEq, Eq, Structural)]
pub enum DebugError {
    MemoryAccess,
    BadUtf,
    Unknown,
}

/// The meaning of a debug status value: 0 is success.
pub fn debug_status(value: u32) -> (r: Result<(), DebugError>)
    ensures
        value == 0 ==> r is Ok,
        value == 1 ==> r == Err::<(), DebugError>(DebugError::MemoryAccess),
        value == 2 ==> r == Err::<(), DebugError>(DebugError::BadUtf),
        value > 2 ==> r == Err::<(), DebugError>(DebugError::Unknown),
{
    match value {
        0 => Ok(()),
        1 => Err(DebugError::MemoryAccess),
        2 => Err(DebugError::BadUtf),
        _ => Err(DebugError::Unknown),
    }
}

/// The writer behind the SDK's printing macros.
pub struct DebugWriter;

impl DebugWriter {
    /// A writer.
    pub fn new() -> (r: Self) {
        DebugWriter
    }
}

} // verus!
