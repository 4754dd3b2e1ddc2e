//! The system-integration module: gates power and clock to each peripheral
//! block, hands out exclusive clock-gate tokens, and programs the core, bus
//! and flash clock dividers.

use vstd::prelude::*;

use crate::bits::get_bit32;
use crate::bits::lemma_andnot_bit32;
use crate::bits::lemma_or_bit32;
use crate::Error;

verus! {

/// A peripheral whose clock this boot path gates on.
#[derive(Clone, Copy, Debug, PartialEq, Eq, Structural)]
pub enum Clock {
    PortB,
    PortC,
    Uart0,
}

/// The clock-gate coordinate of each gateable peripheral: the index of its
/// gate-control register (counting from the first one) and its bit offset
/// there.
pub open spec fn spec_gate_coord(c: Clock) -> (usize, usize) {
    match c {
        Clock::Uart0 => (0, 10),
        Clock::PortB => (1, 10),
        Clock::PortC => (1, 11),
    }
}

/// The clock-gate coordinate of each gateable peripheral.
#[verifier::when_used_as_spec(spec_gate_coord)]
pub fn gate_coord(c: Clock) -> (r: (usize, usize))
    ensures
        r == spec_gate_coord(c),
{
    match c {
        Clock::Uart0 => (0, 10),
        Clock::PortB => (1, 10),
        Clock::PortC => (1, 11),
    }
}

/// The core divide ratio field of the divider register, bits 28..32.
pub open spec fn clkdiv1_core(x: u32) -> u32 {
    (x >> 28) & 0xF
}

/// The bus divide ratio field of the divider register, bits 24..28.
pub open spec fn clkdiv1_bus(x: u32) -> u32 {
    (x >> 24) & 0xF
}

/// The flash divide ratio field of the divider register, bits 16..20.
pub open spec fn clkdiv1_flash(x: u32) -> u32 {
    (x >> 16) & 0xF
}

/// Each divider field of the assembled divider word reads back as itself,
/// and every gate-control register bit is untouched by divider writes.
proof fn lemma_divider_fields(x: u32, c: u32, b: u32, f: u32)
    requires
        c < 16,
        b < 16,
        f < 16,
    ensures
        clkdiv1_core((x & 0x00F0FFFFu32) | (c << 28) | (b << 24) | (f << 16)) == c,
        clkdiv1_bus((x & 0x00F0FFFFu32) | (c << 28) | (b << 24) | (f << 16)) == b,
        clkdiv1_flash((x & 0x00F0FFFFu32) | (c << 28) | (b << 24) | (f << 16)) == f,
{
    assert(((((x & 0x00F0FFFFu32) | (c << 28) | (b << 24) | (f << 16)) >> 28) & 0xF == c) && ((((x
        & 0x00F0FFFFu32) | (c << 28) | (b << 24) | (f << 16)) >> 24) & 0xF == b) && ((((x
        & 0x00F0FFFFu32) | (c << 28) | (b << 24) | (f << 16)) >> 16) & 0xF == f)) by (bit_vector)
        requires
            c < 16,
            b < 16,
            f < 16,
    ;
}

/// Exclusive control of the clock gate of one peripheral: a (gate register,
/// bit offset) pair, plus the bit-band alias address through which hardware
/// toggles that single bit atomically. At most one live token exists per
/// pair: [`Sim::gate`] refuses a coordinate whose gate bit is already set.
#[derive(Debug)]
pub struct ClockGate {
    reg: usize,
    bit: usize,
    addr: u32,
}

impl ClockGate {
    /// The index of its gate-control register, counting from the first one.
    pub closed spec fn reg_index(self) -> int {
        self.reg as int
    }

    /// The bit offset within its gate-control register.
    pub closed spec fn bit_index(self) -> int {
        self.bit as int
    }

    /// The bit-band alias address of this clock-gate bit.
    pub closed spec fn addrv(self) -> u32 {
        self.addr
    }

    /// A clock-gate token always points into the array of gate-control
    /// registers, and its alias address is the bit-band base plus the
    /// 128-byte register stride and the 4-bytes-per-bit offset.
    pub open spec fn wf(self) -> bool {
        &&& 0 <= self.reg_index() < 4
        &&& 0 <= self.bit_index() < 32
        &&& self.addrv() == 0x42900500 + self.reg_index() * 0x80 + self.bit_index() * 4
    }

    /// The bit-band alias address of this clock-gate bit.
    pub fn address(&self) -> (r: u32)
        ensures
            r == self.addrv(),
    {
        self.addr
    }

    /// The (gate register index, bit offset) coordinate.
    pub fn coordinate(&self) -> (r: (usize, usize))
        ensures
            r.0 == self.reg_index(),
            r.1 == self.bit_index(),
    {
        (self.reg, self.bit)
    }
}

/// The ownership law of the clock gates: any register state that a
/// successful gating of a coordinate leaves behind refuses gating it a
/// second time; any state that a release of that token leaves behind
/// admits gating it again; and neither step changes the availability of
/// any other coordinate.
pub proof fn lemma_gate_exclusive(before: Sim, held: Sim, released: Sim, reg: int, bit: int)
    requires
        before.gate_available(reg, bit),
        held.scgcv(reg) == before.scgcv(reg) | (1u32 << (bit as u32)),
        forall|j: int| 0 <= j < 4 && j != reg ==> held.scgcv(j) == before.scgcv(j),
        released.scgcv(reg) == held.scgcv(reg) & !(1u32 << (bit as u32)),
        forall|j: int| 0 <= j < 4 && j != reg ==> released.scgcv(j) == held.scgcv(j),
    ensures
        !held.gate_available(reg, bit),
        released.gate_available(reg, bit),
        forall|r2: int, b2: int|
            0 <= r2 < 4 && 0 <= b2 < 32 && (r2 != reg || b2 != bit)
                ==> released.gate_available(r2, b2) == before.gate_available(r2, b2),
{
    lemma_or_bit32(before.scgcv(reg), bit as u32, 0);
    lemma_andnot_bit32(held.scgcv(reg), bit as u32, 0);
    assert forall|r2: int, b2: int|
        0 <= r2 < 4 && 0 <= b2 < 32 && (r2 != reg || b2 != bit) implies released.gate_available(
        r2,
        b2,
    ) == before.gate_available(r2, b2) by {
        if r2 == reg {
            lemma_or_bit32(before.scgcv(reg), bit as u32, b2 as u32);
            lemma_andnot_bit32(held.scgcv(reg), bit as u32, b2 as u32);
        } else {
            assert(released.scgcv(r2) == held.scgcv(r2));
            assert(held.scgcv(r2) == before.scgcv(r2));
        }
    }
}

/// Exclusive driver for the system-integration register block (on silicon
/// at 0x40047000): the four gate-control registers and the clock divider
/// register.
#[derive(Debug)]
pub struct Sim {
    scgc: Vec<u32>,
    clkdiv1: u32,
}

impl Sim {
    /// Gate control register `i`, counting from the first one.
    pub closed spec fn scgcv(self, i: int) -> u32 {
        self.scgc@[i]
    }

    /// The clock divider register.
    pub closed spec fn clkdiv1v(self) -> u32 {
        self.clkdiv1
    }

    /// The driver holds all four gate control registers.
    pub closed spec fn wf(self) -> bool {
        self.scgc@.len() == 4
    }

    /// Gating a coordinate succeeds exactly when it lies within the
    /// register array and its bit is clear: no live token holds it.
    pub open spec fn gate_available(self, reg: int, bit: int) -> bool {
        0 <= reg < 4 && 0 <= bit < 32 && !get_bit32(self.scgcv(reg), bit as u32)
    }

    /// The register block in its power-on reset state: every gate closed,
    /// dividers clear.
    pub(crate) fn at_reset() -> (r: Sim)
        ensures
            r.wf(),
            forall|i: int| 0 <= i < 4 ==> r.scgcv(i) == 0,
            r.clkdiv1v() == 0,
    {
        let mut scgc: Vec<u32> = Vec::new();
        let mut i: usize = 0;
        while i < 4
            invariant
                i <= 4,
                scgc@.len() == i,
                forall|j: int| 0 <= j < i ==> scgc@[j] == 0,
            decreases 4 - i,
        {
            scgc.push(0);
            i = i + 1;
        }
        Sim { scgc, clkdiv1: 0 }
    }

    /// Gate on the clock of the peripheral at the given control-register
    /// index and bit offset, handing out the exclusive gate token. A
    /// coordinate outside the register array is a fatal configuration
    /// error; a gate bit that is already set means the peripheral is owned
    /// elsewhere, also fatal. Exactly one token can therefore be live per
    /// gate bit at any time.
    pub fn gate(&mut self, register_index: usize, bit_offset: usize) -> (r: Result<
        ClockGate,
        Error,
    >)
        requires
            old(self).wf(),
        ensures
            final(self).wf(),
            r is Ok <==> old(self).gate_available(register_index as int, bit_offset as int),
            r matches Ok(g) ==> ({
                &&& g.wf()
                &&& g.reg_index() == register_index
                &&& g.bit_index() == bit_offset
                &&& final(self).scgcv(register_index as int) == old(self).scgcv(
                    register_index as int,
                ) | (1u32 << (bit_offset as u32))
                &&& get_bit32(final(self).scgcv(register_index as int), bit_offset as u32)
                &&& forall|j: int|
                    0 <= j < 4 && j != register_index ==> final(self).scgcv(j) == old(self).scgcv(
                        j,
                    )
                &&& final(self).clkdiv1v() == old(self).clkdiv1v()
            }),
            r is Err ==> *final(self) == *old(self),
            (register_index >= 4 || bit_offset >= 32) ==> r is Err && r->Err_0
                == Error::InvalidIndex,
            (register_index < 4 && bit_offset < 32 && get_bit32(
                old(self).scgcv(register_index as int),
                bit_offset as u32,
            )) ==> r is Err && r->Err_0 == Error::InUse,
    {
        if register_index >= 4 || bit_offset >= 32 {
            return Err(Error::InvalidIndex);
        }
        let bit32: u32 = bit_offset as u32;
        let cur: u32 = self.scgc[register_index];
        if (cur >> bit32) & 1 == 1 {
            return Err(Error::InUse);
        }
        let updated: u32 = cur | (1u32 << bit32);
        proof {
            lemma_or_bit32(cur, bit32, 0);
            assert forall|j: u32| j < 32 && j != bit32 implies get_bit32(updated, j) == get_bit32(
                cur,
                j,
            ) by {
                lemma_or_bit32(cur, bit32, j);
            }
        }
        self.scgc.set(register_index, updated);
        let addr: u32 = 0x42900500u32 + (register_index as u32) * 0x80 + bit32 * 4;
        Ok(ClockGate { reg: register_index, bit: bit_offset, addr })
    }

    /// Gate on the clock of a named peripheral, at its fixed coordinate.
    pub fn enable_clock(&mut self, clock: Clock) -> (r: Result<ClockGate, Error>)
        requires
            old(self).wf(),
        ensures
            final(self).wf(),
            r is Ok <==> old(self).gate_available(
                spec_gate_coord(clock).0 as int,
                spec_gate_coord(clock).1 as int,
            ),
            r matches Ok(g) ==> ({
                &&& g.wf()
                &&& g.reg_index() == spec_gate_coord(clock).0
                &&& g.bit_index() == spec_gate_coord(clock).1
                &&& final(self).scgcv(spec_gate_coord(clock).0 as int) == old(self).scgcv(
                    spec_gate_coord(clock).0 as int,
                ) | (1u32 << (spec_gate_coord(clock).1 as u32))
                &&& get_bit32(
                    final(self).scgcv(spec_gate_coord(clock).0 as int),
                    spec_gate_coord(clock).1 as u32,
                )
                &&& forall|j: int|
                    0 <= j < 4 && j != spec_gate_coord(clock).0 ==> final(self).scgcv(j) == old(
                        self,
                    ).scgcv(j)
                &&& final(self).clkdiv1v() == old(self).clkdiv1v()
            }),
            r is Err ==> *final(self) == *old(self) && r->Err_0 == Error::InUse,
    {
        let coord: (usize, usize) = gate_coord(clock);
        self.gate(coord.0, coord.1)
    }

    /// Release a clock gate: clear its bit, returning the peripheral to its
    /// low-power ungated state and making that clock gate available again.
    pub fn release_gate(&mut self, g: ClockGate)
        requires
            old(self).wf(),
            g.wf(),
        ensures
            final(self).wf(),
            final(self).scgcv(g.reg_index()) == old(self).scgcv(g.reg_index()) & !(1u32 << (
            g.bit_index() as u32)),
            !get_bit32(final(self).scgcv(g.reg_index()), g.bit_index() as u32),
            final(self).gate_available(g.reg_index(), g.bit_index()),
            forall|j: int| 0 <= j < 4 && j != g.reg_index() ==> final(self).scgcv(j) == old(self).scgcv(j),
            final(self).clkdiv1v() == old(self).clkdiv1v(),
    {
        let bit32: u32 = g.bit as u32;
        let cur: u32 = self.scgc[g.reg];
        let updated: u32 = cur & !(1u32 << bit32);
        proof {
            lemma_andnot_bit32(cur, bit32, 0);
        }
        self.scgc.set(g.reg, updated);
    }

    /// Program the core, bus and flash clock divide ratios: each ratio is
    /// written as the value less one into its own 4-bit field of the
    /// divider register. The hardware has no bounds check, and an oversized
    /// value would silently corrupt the adjacent ratio fields, so a ratio
    /// of zero or above 16 is a fatal configuration error, refused before
    /// the write.
    pub fn set_dividers(&mut self, core: u32, bus: u32, flash: u32) -> (r: Result<(), Error>)
        requires
            old(self).wf(),
        ensures
            final(self).wf(),
            r is Ok <==> (1 <= core <= 16 && 1 <= bus <= 16 && 1 <= flash <= 16),
            r is Ok ==> ({
                &&& final(self).clkdiv1v() == (old(self).clkdiv1v() & 0x00F0FFFFu32) | (((core
                    - 1) as u32) << 28) | (((bus - 1) as u32) << 24) | (((flash - 1) as u32) << 16)
                &&& clkdiv1_core(final(self).clkdiv1v()) == core - 1
                &&& clkdiv1_bus(final(self).clkdiv1v()) == bus - 1
                &&& clkdiv1_flash(final(self).clkdiv1v()) == flash - 1
                &&& forall|i: int| 0 <= i < 4 ==> final(self).scgcv(i) == old(self).scgcv(i)
            }),
            r is Err ==> *final(self) == *old(self) && r->Err_0 == Error::InvalidDivider,
    {
        if core < 1 || core > 16 || bus < 1 || bus > 16 || flash < 1 || flash > 16 {
            return Err(Error::InvalidDivider);
        }
        let c: u32 = core - 1;
        let b: u32 = bus - 1;
        let f: u32 = flash - 1;
        let word: u32 = (self.clkdiv1 & 0x00F0FFFFu32) | (c << 28) | (b << 24) | (f << 16);
        proof {
            lemma_divider_fields(self.clkdiv1, c, b, f);
        }
        self.clkdiv1 = word;
        Ok(())
    }

    /// The clock divider register as the hardware holds it.
    pub fn read_clkdiv1(&self) -> (r: u32)
        ensures
            r == self.clkdiv1v(),
    {
        self.clkdiv1
    }

    /// Gate control register `i` as the hardware holds it.
    pub fn read_scgc(&self, i: usize) -> (r: u32)
        requires
            self.wf(),
            i < 4,
        ensures
            r == self.scgcv(i as int),
    {
        self.scgc[i]
    }
}

impl Sim {
    /// Acquire the system-integration singleton from the board. Fails
    /// fatally if it is already held elsewhere: a second driver would
    /// alias the register block.
    pub fn new(board: &mut crate::Board) -> (r: Result<Sim, Error>)
        ensures
            r is Ok <==> old(board).sim_slot() is Some,
            r matches Ok(s) ==> Some(s) == old(board).sim_slot() && final(board).sim_slot()
                is None,
            r is Err ==> r->Err_0 == Error::InUse && *final(board) == *old(board),
            crate::boards_agree_except(*old(board), *final(board), crate::Peripheral::Sim),
    {
        match board.sim.take() {
            Some(s) => Ok(s),
            None => Err(Error::InUse),
        }
    }

    /// Release the system-integration module back to the board, making it
    /// available again. The register block keeps its state.
    pub fn release(self, board: &mut crate::Board)
        ensures
            final(board).sim_slot() == Some(self),
            crate::boards_agree_except(*old(board), *final(board), crate::Peripheral::Sim),
    {
        board.sim = Some(self);
    }
}
} // verus!
