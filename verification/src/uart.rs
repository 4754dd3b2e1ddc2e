//! The serial transceiver controller: programs the baud-rate divisors and
//! enables the receive and transmit logic, consuming the pin capabilities
//! wired to the unit and the unit's clock gate.

use vstd::prelude::*;

use crate::bits::bf_set_bit8;
use crate::bits::bf_set_bits8;
use crate::bits::bf_get_bits16;
use crate::bits::get_bit8;
use crate::bits::get_bits8;
use crate::bits::get_bits16;
use crate::bits::lemma_fits8_of_bound;
use crate::bits::lemma_get_bits16_bounds;
use crate::bits::lemma_set_bit8_read_other;
use crate::bits::lemma_set_bit8_read_same;
use crate::bits::lemma_set_bits8_read_same;
use crate::bits::set_bit8;
use crate::bits::set_bits8;
use crate::mmio::confirm_bit8;
use crate::mmio::vol_new8;
use crate::mmio::vol_read8;
use crate::mmio::vol_u8;
use crate::mmio::vol_write8;
use crate::port::Rx;
use crate::port::Tx;
use crate::sim::ClockGate;
use crate::Error;

verus! {

/// The serial-unit register block (unit 0 on silicon at 0x4006A000). Only
/// the registers this driver touches are modeled: the two baud-divisor
/// registers, control registers 2 and 4, the data register and status
/// register 1.
#[derive(Debug)]
pub struct UartRegs {
    bdh: volatile::Volatile<u8>,
    bdl: volatile::Volatile<u8>,
    c2: volatile::Volatile<u8>,
    c4: volatile::Volatile<u8>,
    d: volatile::Volatile<u8>,
    s1: volatile::Volatile<u8>,
}

impl UartRegs {
    /// Baud divisor, high bits (bits 0..5).
    pub closed spec fn bdhv(self) -> u8 {
        vol_u8(self.bdh)
    }

    /// Baud divisor, low byte.
    pub closed spec fn bdlv(self) -> u8 {
        vol_u8(self.bdl)
    }

    /// Control register 2: receive enable (bit 2), transmit enable (bit 3).
    pub closed spec fn c2v(self) -> u8 {
        vol_u8(self.c2)
    }

    /// Control register 4: fractional divisor (bits 0..5).
    pub closed spec fn c4v(self) -> u8 {
        vol_u8(self.c4)
    }

    /// The data register as last written.
    pub closed spec fn dv(self) -> u8 {
        vol_u8(self.d)
    }

    /// Status register 1: transmit data register empty (bit 7),
    /// transmission complete (bit 6).
    pub closed spec fn s1v(self) -> u8 {
        vol_u8(self.s1)
    }

    /// The transmitter is idle: nothing buffered and nothing in flight. The
    /// modeled transmitter accepts every byte as soon as it is written, so
    /// this holds from reset on.
    pub open spec fn tx_idle(self) -> bool {
        get_bit8(self.s1v(), 7) && get_bit8(self.s1v(), 6)
    }

    /// The register block in its power-on reset state: divisors and
    /// control registers clear, the transmitter idle.
    pub(crate) fn at_reset() -> (r: UartRegs)
        ensures
            r.bdhv() == 0,
            r.bdlv() == 0,
            r.c2v() == 0,
            r.c4v() == 0,
            r.dv() == 0,
            r.s1v() == 0xC0,
            r.tx_idle(),
    {
        let regs = UartRegs {
            bdh: vol_new8(0),
            bdl: vol_new8(0),
            c2: vol_new8(0),
            c4: vol_new8(0),
            d: vol_new8(0),
            s1: vol_new8(0xC0),
        };
        proof {
            assert((0xC0u8 >> 7) & 1 == 1 && (0xC0u8 >> 6) & 1 == 1) by (bit_vector);
        }
        regs
    }
}

/// A configured serial transceiver, owning its register block, the pin
/// capabilities it was built from, its clock gate, and the transcript of
/// every byte handed to the wire.
#[derive(Debug)]
pub struct Uart {
    regs: UartRegs,
    rx: Option<Rx>,
    tx: Option<Tx>,
    gate: ClockGate,
    sent: Vec<u8>,
}

impl Uart {
    /// The owned register block.
    pub closed spec fn regs(self) -> UartRegs {
        self.regs
    }

    /// The receive capability consumed at configuration, if any.
    pub closed spec fn rx_cap(self) -> Option<Rx> {
        self.rx
    }

    /// The transmit capability consumed at configuration, if any.
    pub closed spec fn tx_cap(self) -> Option<Tx> {
        self.tx
    }

    /// The clock gate consumed at configuration.
    pub closed spec fn gate_token(self) -> ClockGate {
        self.gate
    }

    /// Every byte handed to the wire so far, oldest first.
    pub closed spec fn sent_bytes(self) -> Seq<u8> {
        self.sent@
    }

    /// The transmitter is ready for the next byte.
    pub open spec fn wf(self) -> bool {
        self.regs().tx_idle()
    }

    /// Configure serial unit `id`. Any supplied receive or transmit
    /// capability must record exactly this unit: a capability wired to
    /// another unit is a fatal configuration error. The baud divisor must
    /// fit its 13-bit field and the fractional divisor its 5-bit field,
    /// and the unit must exist (only unit 0 does). All of that is checked
    /// before any register write; then the divisor fields are programmed
    /// and the receive and transmit logic enabled exactly where a
    /// capability was supplied.
    pub fn new(
        board: &mut crate::Board,
        id: u8,
        rx: Option<Rx>,
        tx: Option<Tx>,
        clkdiv: (u16, u8),
        gate: ClockGate,
    ) -> (r: Result<Uart, Error>)
        requires
            old(board).uart0_slot() matches Some(u) ==> u.tx_idle(),
        ensures
            r is Ok <==> ({
                &&& (rx matches Some(x) ==> x.uart_id() == id)
                &&& (tx matches Some(x) ==> x.uart_id() == id)
                &&& clkdiv.0 < 8192
                &&& clkdiv.1 < 32
                &&& id == 0
                &&& old(board).uart0_slot() is Some
            }),
            r matches Ok(u) ==> ({
                let base = old(board).uart0_slot()->Some_0;
                &&& u.wf()
                &&& u.regs().c4v() == set_bits8(base.c4v(), 0, 5, clkdiv.1)
                &&& get_bits8(u.regs().c4v(), 0, 5) == clkdiv.1
                &&& u.regs().bdhv() == set_bits8(base.bdhv(), 0, 5, get_bits16(clkdiv.0, 8, 13) as u8)
                &&& get_bits8(u.regs().bdhv(), 0, 5) == get_bits16(clkdiv.0, 8, 13)
                &&& u.regs().bdlv() == get_bits16(clkdiv.0, 0, 8) as u8
                &&& u.regs().c2v() == set_bit8(set_bit8(base.c2v(), 2, rx is Some), 3, tx is Some)
                &&& get_bit8(u.regs().c2v(), 2) == rx is Some
                &&& get_bit8(u.regs().c2v(), 3) == tx is Some
                &&& u.regs().s1v() == base.s1v()
                &&& u.rx_cap() == rx
                &&& u.tx_cap() == tx
                &&& u.gate_token() == gate
                &&& u.sent_bytes() == Seq::<u8>::empty()
                &&& final(board).uart0_slot() is None
            }),
            r is Err ==> *final(board) == *old(board),
            (rx matches Some(x) && x.uart_id() != id) ==> r is Err && r->Err_0 == Error::WrongUart,
            ((rx matches Some(x) ==> x.uart_id() == id) && (tx matches Some(x) && x.uart_id()
                != id)) ==> r is Err && r->Err_0 == Error::WrongUart,
            ((rx matches Some(x) ==> x.uart_id() == id) && (tx matches Some(x) ==> x.uart_id()
                == id) && clkdiv.0 >= 8192) ==> r is Err && r->Err_0 == Error::InvalidUartDivisor,
            ((rx matches Some(x) ==> x.uart_id() == id) && (tx matches Some(x) ==> x.uart_id()
                == id) && clkdiv.0 < 8192 && clkdiv.1 >= 32) ==> r is Err && r->Err_0
                == Error::InvalidUartDivisor,
            ((rx matches Some(x) ==> x.uart_id() == id) && (tx matches Some(x) ==> x.uart_id()
                == id) && clkdiv.0 < 8192 && clkdiv.1 < 32 && id != 0) ==> r is Err && r->Err_0
                == Error::InvalidUartId,
            ((rx matches Some(x) ==> x.uart_id() == id) && (tx matches Some(x) ==> x.uart_id()
                == id) && clkdiv.0 < 8192 && clkdiv.1 < 32 && id == 0 && old(board).uart0_slot()
                is None) ==> r is Err && r->Err_0 == Error::InUse,
            crate::boards_agree_except(*old(board), *final(board), crate::Peripheral::Uart0),
    {
        if let Some(r0) = rx.as_ref() {
            if r0.uart() != id {
                return Err(Error::WrongUart);
            }
        }
        if let Some(t0) = tx.as_ref() {
            if t0.uart() != id {
                return Err(Error::WrongUart);
            }
        }
        if clkdiv.0 >= 8192 {
            return Err(Error::InvalidUartDivisor);
        }
        if clkdiv.1 >= 32 {
            return Err(Error::InvalidUartDivisor);
        }
        if id != 0 {
            return Err(Error::InvalidUartId);
        }
        let taken: Option<UartRegs> = board.uart0.take();
        match taken {
            None => Err(Error::InUse),
            Some(mut regs) => {
                proof {
                    lemma_fits8_of_bound(clkdiv.1);
                    lemma_get_bits16_bounds(clkdiv.0, 8, 13);
                    lemma_get_bits16_bounds(clkdiv.0, 0, 8);
                }
                let c4: u8 = vol_read8(&regs.c4);
                let c4_new: u8 = bf_set_bits8(c4, 0, 5, clkdiv.1);
                vol_write8(&mut regs.c4, c4_new);
                let divisor_high: u16 = bf_get_bits16(clkdiv.0, 8, 13);
                let high_bits: u8 = divisor_high as u8;
                proof {
                    lemma_fits8_of_bound(high_bits);
                }
                let bdh: u8 = vol_read8(&regs.bdh);
                let bdh_new: u8 = bf_set_bits8(bdh, 0, 5, high_bits);
                vol_write8(&mut regs.bdh, bdh_new);
                let divisor_low: u16 = bf_get_bits16(clkdiv.0, 0, 8);
                vol_write8(&mut regs.bdl, divisor_low as u8);
                let c2: u8 = vol_read8(&regs.c2);
                let c2_rx: u8 = bf_set_bit8(c2, 2, rx.is_some());
                let c2_both: u8 = bf_set_bit8(c2_rx, 3, tx.is_some());
                vol_write8(&mut regs.c2, c2_both);
                proof {
                    lemma_set_bits8_read_same(c4, 0, 5, clkdiv.1);
                    lemma_set_bits8_read_same(bdh, 0, 5, high_bits);
                    lemma_set_bit8_read_same(c2, 2, rx.is_some());
                    lemma_set_bit8_read_other(c2_rx, 3, tx.is_some(), 2);
                    lemma_set_bit8_read_same(c2_rx, 3, tx.is_some());
                }
                Ok(Uart { regs, rx, tx, gate, sent: Vec::new() })
            },
        }
    }

    /// Send one byte: busy-wait for the transmit-data-register-empty
    /// status bit, then write the data register. The modeled transmitter
    /// accepts the byte at once, so the wire transcript grows by exactly
    /// this byte.
    pub fn write_byte(&mut self, b: u8)
        requires
            old(self).wf(),
        ensures
            final(self).wf(),
            final(self).sent_bytes() == old(self).sent_bytes().push(b),
            final(self).regs().dv() == b,
            final(self).regs().bdhv() == old(self).regs().bdhv(),
            final(self).regs().bdlv() == old(self).regs().bdlv(),
            final(self).regs().c2v() == old(self).regs().c2v(),
            final(self).regs().c4v() == old(self).regs().c4v(),
            final(self).regs().s1v() == old(self).regs().s1v(),
            final(self).rx_cap() == old(self).rx_cap(),
            final(self).tx_cap() == old(self).tx_cap(),
            final(self).gate_token() == old(self).gate_token(),
    {
        confirm_bit8(&self.regs.s1, 7, true);
        vol_write8(&mut self.regs.d, b);
        self.sent.push(b);
    }

    /// Send a byte string, then busy-wait for the transmission-complete
    /// status bit: every byte reaches the wire, in order, none dropped and
    /// none reordered, as the transcript in the contract states.
    pub fn write_bytes(&mut self, bytes: &[u8])
        requires
            old(self).wf(),
        ensures
            final(self).wf(),
            final(self).sent_bytes() == old(self).sent_bytes() + bytes@,
            final(self).regs().bdhv() == old(self).regs().bdhv(),
            final(self).regs().bdlv() == old(self).regs().bdlv(),
            final(self).regs().c2v() == old(self).regs().c2v(),
            final(self).regs().c4v() == old(self).regs().c4v(),
            final(self).regs().s1v() == old(self).regs().s1v(),
            final(self).rx_cap() == old(self).rx_cap(),
            final(self).tx_cap() == old(self).tx_cap(),
            final(self).gate_token() == old(self).gate_token(),
    {
        let mut i: usize = 0;
        while i < bytes.len()
            invariant
                i <= bytes@.len(),
                self.wf(),
                self.sent_bytes() == old(self).sent_bytes() + bytes@.subrange(0, i as int),
                self.regs().bdhv() == old(self).regs().bdhv(),
                self.regs().bdlv() == old(self).regs().bdlv(),
                self.regs().c2v() == old(self).regs().c2v(),
                self.regs().c4v() == old(self).regs().c4v(),
                self.regs().s1v() == old(self).regs().s1v(),
                self.rx_cap() == old(self).rx_cap(),
                self.tx_cap() == old(self).tx_cap(),
                self.gate_token() == old(self).gate_token(),
            decreases bytes@.len() - i,
        {
            self.write_byte(bytes[i]);
            proof {
                assert(bytes@.subrange(0, i as int).push(bytes@[i as int]) =~= bytes@.subrange(
                    0,
                    i as int + 1,
                ));
            }
            i = i + 1;
        }
        proof {
            assert(bytes@.subrange(0, bytes@.len() as int) =~= bytes@);
        }
        confirm_bit8(&self.regs.s1, 6, true);
    }

    /// Tear the transceiver down: return its register block to the board
    /// and hand back the capabilities it consumed, so the pins and the
    /// clock gate can be released in turn.
    pub fn release(self, board: &mut crate::Board) -> (r: (Option<Rx>, Option<Tx>, ClockGate))
        ensures
            r.0 == self.rx_cap(),
            r.1 == self.tx_cap(),
            r.2 == self.gate_token(),
            final(board).uart0_slot() == Some(self.regs()),
            crate::boards_agree_except(*old(board), *final(board), crate::Peripheral::Uart0),
    {
        board.uart0 = Some(self.regs);
        (self.rx, self.tx, self.gate)
    }

    /// Baud divisor high register as the hardware holds it.
    pub fn read_bdh(&self) -> (r: u8)
        ensures
            r == self.regs().bdhv(),
    {
        vol_read8(&self.regs.bdh)
    }

    /// Baud divisor low register as the hardware holds it.
    pub fn read_bdl(&self) -> (r: u8)
        ensures
            r == self.regs().bdlv(),
    {
        vol_read8(&self.regs.bdl)
    }

    /// Control register 2 as the hardware holds it.
    pub fn read_c2(&self) -> (r: u8)
        ensures
            r == self.regs().c2v(),
    {
        vol_read8(&self.regs.c2)
    }

    /// Control register 4 as the hardware holds it.
    pub fn read_c4(&self) -> (r: u8)
        ensures
            r == self.regs().c4v(),
    {
        vol_read8(&self.regs.c4)
    }

    /// The wire transcript so far, oldest byte first.
    pub fn sent(&self) -> (r: &Vec<u8>)
        ensures
            r@ == self.sent_bytes(),
    {
        &self.sent
    }
}

} // verus!
