//! The crystal-oscillator controller: enables the external crystal with a
//! chosen load capacitance and issues the possession token that later clock
//! transitions demand as proof that the crystal is running.

use vstd::prelude::*;

use crate::bits::bf_get_bit8;
use crate::bits::bf_set_bit8;
use crate::bits::get_bit8;
use crate::bits::lemma_set_bit8_read_same;
use crate::bits::set_bit8;
use crate::mmio::vol_new8;
use crate::mmio::vol_read8;
use crate::mmio::vol_u8;
use crate::mmio::vol_write8;
use crate::Error;

verus! {

/// A load capacitance is legal when it is even and at most 30 pF.
pub open spec fn capacitance_ok(capacitance: u8) -> bool {
    capacitance % 2 == 0 && capacitance <= 30
}

/// The control byte written for a legal capacitance. The capacitance-select
/// bits are physically wired in reverse order relative to the logical
/// picofarad value, so each bit is remapped one by one; bit 7 enables the
/// oscillator.
pub open spec fn osc_cr(capacitance: u8) -> u8 {
    set_bit8(
        set_bit8(
            set_bit8(
                set_bit8(set_bit8(0, 3, get_bit8(capacitance, 1)), 2, get_bit8(capacitance, 2)),
                1,
                get_bit8(capacitance, 3),
            ),
            0,
            get_bit8(capacitance, 4),
        ),
        7,
        true,
    )
}

/// Exclusive driver for the oscillator register block (on silicon at
/// 0x40065000), holding its one control register.
#[derive(Debug)]
pub struct Osc {
    cr: volatile::Volatile<u8>,
}

/// Opaque, non-duplicable proof that the crystal oscillator has been
/// enabled. Only [`Osc::enable`] creates one, and the external-reference
/// clock transition consumes it.
#[derive(Debug)]
pub struct OscToken {
    _private: (),
}

impl OscToken {
    fn new() -> OscToken {
        OscToken { _private: () }
    }
}

impl Osc {
    /// The oscillator control byte as last written.
    pub closed spec fn crv(self) -> u8 {
        vol_u8(self.cr)
    }

    /// The register block in its power-on reset state.
    pub(crate) fn at_reset() -> (r: Osc)
        ensures
            r.crv() == 0,
    {
        Osc { cr: vol_new8(0) }
    }

    /// Enable the crystal oscillator with the given load capacitance in
    /// picofarads. An odd value, or one above 30, is a fatal configuration
    /// error, refused before any register write. On success the emitted
    /// control byte has the enable bit (bit 7) set and the capacitance bits
    /// remapped into their reversed hardware order, and the returned token
    /// proves the oscillator is running.
    pub fn enable(&mut self, capacitance: u8) -> (r: Result<OscToken, Error>)
        ensures
            r is Ok <==> capacitance_ok(capacitance),
            r is Ok ==> final(self).crv() == osc_cr(capacitance),
            r is Ok ==> get_bit8(final(self).crv(), 7),
            r is Err ==> *final(self) == *old(self) && r->Err_0 == Error::InvalidCapacitance,
    {
        if capacitance % 2 == 1 || capacitance > 30 {
            return Err(Error::InvalidCapacitance);
        }
        let mut cr: u8 = 0;
        cr = bf_set_bit8(cr, 3, bf_get_bit8(capacitance, 1));
        cr = bf_set_bit8(cr, 2, bf_get_bit8(capacitance, 2));
        cr = bf_set_bit8(cr, 1, bf_get_bit8(capacitance, 3));
        let before_enable: u8 = bf_set_bit8(cr, 0, bf_get_bit8(capacitance, 4));
        let enabled: u8 = bf_set_bit8(before_enable, 7, true);
        proof {
            lemma_set_bit8_read_same(before_enable, 7, true);
        }
        vol_write8(&mut self.cr, enabled);
        Ok(OscToken::new())
    }

    /// The oscillator control byte as the hardware holds it.
    pub fn read_cr(&self) -> (r: u8)
        ensures
            r == self.crv(),
    {
        vol_read8(&self.cr)
    }
}

impl Osc {
    /// Acquire the oscillator singleton from the board. Fails fatally if it
    /// is already held elsewhere: a second driver would alias the register
    /// block.
    pub fn new(board: &mut crate::Board) -> (r: Result<Osc, Error>)
        ensures
            r is Ok <==> old(board).osc_slot() is Some,
            r matches Ok(o) ==> Some(o) == old(board).osc_slot() && final(board).osc_slot()
                is None,
            r is Err ==> r->Err_0 == Error::InUse && *final(board) == *old(board),
            crate::boards_agree_except(*old(board), *final(board), crate::Peripheral::Osc),
    {
        match board.osc.take() {
            Some(o) => Ok(o),
            None => Err(Error::InUse),
        }
    }

    /// Release the oscillator back to the board, making it available again.
    /// The register block keeps its state.
    pub fn release(self, board: &mut crate::Board)
        ensures
            final(board).osc_slot() == Some(self),
            crate::boards_agree_except(*old(board), *final(board), crate::Peripheral::Osc),
    {
        board.osc = Some(self);
    }
}
} // verus!
