//! Boot-time clock configuration and peripheral ownership for a Kinetis
//! microcontroller.
//!
//! The library models each memory-mapped register block as a value owned by
//! its driver, hands out at most one driver per physical peripheral, and
//! verifies the clock-tree state machine, the configuration validation, and
//! the ownership discipline against that model.

use vstd::prelude::*;

pub mod bits;
pub mod mcg;
pub mod mmio;
pub mod osc;
pub mod port;
pub mod sim;
pub mod uart;
pub mod watchdog;

verus! {

/// A fatal configuration error. The boot sequence has no local recovery: any
/// of these means the requested configuration was refused before a register
/// write could make the clock state unsafe.
#[derive(Clone, Copy, Debug, PartialEq, Eq, Structural)]
pub enum Error {
    /// The crystal load capacitance was odd or above 30 pF.
    InvalidCapacitance,
    /// The external-reference divisor is not in the legal table for the
    /// selected frequency range.
    InvalidDivisor,
    /// The PLL VCO multiplier was outside 24..=55.
    InvalidPllNumerator,
    /// The PLL reference divisor was outside 1..=25.
    InvalidPllDenominator,
    /// A core/bus/flash divide ratio does not fit its 4-bit register field.
    InvalidDivider,
    /// The baud-rate divisor was 8192 or more, or the fractional divisor 32
    /// or more.
    InvalidUartDivisor,
    /// No serial transceiver exists with the requested unit id.
    InvalidUartId,
    /// A receive/transmit capability was offered to a serial unit other than
    /// the one its pin is physically wired to.
    WrongUart,
    /// The pin is not wired to the requested peripheral function.
    WrongPin,
    /// The pin index was 32 or more, or a gate coordinate was out of range.
    InvalidIndex,
    /// The peripheral, pin, or clock gate is already owned elsewhere.
    InUse,
    /// The clock generator's live status bits match no known mode.
    UnknownClockMode,
}

/// The singleton peripheral classes, used to name which board slot an
/// acquisition or release may change.
#[derive(Clone, Copy, Debug, PartialEq, Eq, Structural)]
pub enum Peripheral {
    Watchdog,
    Sim,
    Mcg,
    Osc,
    PortB,
    PortC,
    Uart0,
}

/// The single entry point to the chip's peripherals. Each physical register
/// block exists exactly once, in its slot here; acquisition empties the
/// slot and release refills it, so at most one driver per peripheral is
/// live at any time and no two code paths can issue conflicting writes to
/// the same register set.
#[derive(Debug)]
pub struct Board {
    pub(crate) watchdog: Option<watchdog::Watchdog>,
    pub(crate) sim: Option<sim::Sim>,
    pub(crate) mcg: Option<mcg::Mcg>,
    pub(crate) osc: Option<osc::Osc>,
    pub(crate) port_b: Option<port::Port>,
    pub(crate) port_c: Option<port::Port>,
    pub(crate) uart0: Option<uart::UartRegs>,
}

impl Board {
    /// The watchdog slot: the driver, if nothing holds it.
    pub closed spec fn watchdog_slot(self) -> Option<watchdog::Watchdog> {
        self.watchdog
    }

    /// The system-integration slot: the driver, if nothing holds it.
    pub closed spec fn sim_slot(self) -> Option<sim::Sim> {
        self.sim
    }

    /// The clock-generator slot: the driver, if nothing holds it.
    pub closed spec fn mcg_slot(self) -> Option<mcg::Mcg> {
        self.mcg
    }

    /// The oscillator slot: the driver, if nothing holds it.
    pub closed spec fn osc_slot(self) -> Option<osc::Osc> {
        self.osc
    }

    /// The port B slot: the driver, if nothing holds it.
    pub closed spec fn port_b_slot(self) -> Option<port::Port> {
        self.port_b
    }

    /// The port C slot: the driver, if nothing holds it.
    pub closed spec fn port_c_slot(self) -> Option<port::Port> {
        self.port_c
    }

    /// The serial unit 0 slot: its register block, if nothing holds it.
    pub closed spec fn uart0_slot(self) -> Option<uart::UartRegs> {
        self.uart0
    }

    /// The slot of the named port.
    pub open spec fn port_slot(self, name: port::PortName) -> Option<port::Port> {
        match name {
            port::PortName::B => self.port_b_slot(),
            port::PortName::C => self.port_c_slot(),
        }
    }

    /// A board fresh out of power-on reset: every peripheral present in its
    /// slot, every register block in its documented reset state.
    pub fn new() -> (r: Board)
        ensures
            r.watchdog_slot() matches Some(w) && w.controlv() == 1 && w.unlockv() == 0,
            r.sim_slot() matches Some(s) && s.wf() && s.clkdiv1v() == 0 && (forall|i: int|
                0 <= i < 4 ==> s.scgcv(i) == 0),
            r.mcg_slot() matches Some(m) && m.synced() && m.is_fei() && m.c1v() == 4 && m.c2v()
                == 0 && m.c5v() == 0 && m.c6v() == 0,
            r.osc_slot() matches Some(o) && o.crv() == 0,
            r.port_b_slot() matches Some(p) && p.wf() && p.spec_name() == port::PortName::B && (
            forall|i: int| 0 <= i < 32 ==> !p.locked(i)) && (forall|i: int|
                0 <= i < 32 ==> p.pcr_at(i) == 0),
            r.port_c_slot() matches Some(p) && p.wf() && p.spec_name() == port::PortName::C && (
            forall|i: int| 0 <= i < 32 ==> !p.locked(i)) && (forall|i: int|
                0 <= i < 32 ==> p.pcr_at(i) == 0),
            r.uart0_slot() matches Some(u) && u.tx_idle() && u.bdhv() == 0 && u.bdlv() == 0
                && u.c2v() == 0 && u.c4v() == 0 && u.s1v() == 0xC0,
    {
        Board {
            watchdog: Some(watchdog::Watchdog::at_reset()),
            sim: Some(sim::Sim::at_reset()),
            mcg: Some(mcg::Mcg::at_reset()),
            osc: Some(osc::Osc::at_reset()),
            port_b: Some(port::Port::at_reset(port::PortName::B)),
            port_c: Some(port::Port::at_reset(port::PortName::C)),
            uart0: Some(uart::UartRegs::at_reset()),
        }
    }
}

/// The two board states agree on every peripheral slot except possibly the
/// named one.
pub open spec fn boards_agree_except(a: Board, b: Board, which: Peripheral) -> bool {
    &&& (which != Peripheral::Watchdog ==> a.watchdog_slot() == b.watchdog_slot())
    &&& (which != Peripheral::Sim ==> a.sim_slot() == b.sim_slot())
    &&& (which != Peripheral::Mcg ==> a.mcg_slot() == b.mcg_slot())
    &&& (which != Peripheral::Osc ==> a.osc_slot() == b.osc_slot())
    &&& (which != Peripheral::PortB ==> a.port_b_slot() == b.port_b_slot())
    &&& (which != Peripheral::PortC ==> a.port_c_slot() == b.port_c_slot())
    &&& (which != Peripheral::Uart0 ==> a.uart0_slot() == b.uart0_slot())
}

} // verus!
