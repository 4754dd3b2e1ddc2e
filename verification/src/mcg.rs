//! The multipurpose clock generator: a one-way state machine that advances
//! the clock tree from the power-on internal-reference mode, through the
//! external-reference mode, to the phase-locked-loop mode.
//!
//! Each mode is a distinct type that exclusively owns the one clock-generator
//! register block, and each transition consumes its mode value, so a caller
//! can never act on a stale view of the hardware. Every transition validates
//! its configuration exhaustively before the first register write, then
//! waits for the hardware status bits to confirm the new mode.

use vstd::prelude::*;

use crate::bits::bf_get_bit8;
use crate::bits::bf_get_bits8;
use crate::bits::bf_set_bit8;
use crate::bits::bf_set_bits8;
use crate::bits::get_bit8;
use crate::bits::get_bits8;
use crate::bits::lemma_bound_of_fits8;
use crate::bits::lemma_fits8_of_bound;
use crate::bits::lemma_get_bits8_fits;
use crate::bits::lemma_set_bit8_read_bits;
use crate::bits::lemma_set_bit8_read_same;
use crate::bits::lemma_set_bits8_read_bit;
use crate::bits::lemma_set_bits8_read_other;
use crate::bits::lemma_set_bits8_read_same;
use crate::bits::set_bit8;
use crate::bits::set_bits8;
use crate::mmio::confirm_bit8;
use crate::mmio::confirm_bits8;
use crate::mmio::vol_new8;
use crate::mmio::vol_read8;
use crate::mmio::vol_u8;
use crate::mmio::vol_write8;
use crate::osc::OscToken;
use crate::Error;

verus! {

/// One of the three crystal-frequency bands. The band decides which divisor
/// table is legal for the external reference.
#[derive(Clone, Copy, Debug, PartialEq, Eq, Structural)]
pub enum OscRange {
    Low,
    High,
    VeryHigh,
}

/// The two-bit encoding of a frequency band in the range-select field.
pub open spec fn spec_range_bits(r: OscRange) -> u8 {
    match r {
        OscRange::Low => 0,
        OscRange::High => 1,
        OscRange::VeryHigh => 2,
    }
}

/// The two-bit encoding of a frequency band in the range-select field.
#[verifier::when_used_as_spec(spec_range_bits)]
pub fn range_bits(r: OscRange) -> (b: u8)
    ensures
        b == spec_range_bits(r),
{
    match r {
        OscRange::Low => 0,
        OscRange::High => 1,
        OscRange::VeryHigh => 2,
    }
}

/// The divider-field index for a legal (range, divisor) pair, or `None` for
/// a divisor outside the table. The low range admits the powers of two from
/// 1 to 128; the high and very-high ranges admit a sparse table from 32 to
/// 1536.
pub open spec fn spec_frdiv(low_range: bool, divide: u32) -> Option<u8> {
    if low_range {
        if divide == 1 {
            Some(0u8)
        } else if divide == 2 {
            Some(1u8)
        } else if divide == 4 {
            Some(2u8)
        } else if divide == 8 {
            Some(3u8)
        } else if divide == 16 {
            Some(4u8)
        } else if divide == 32 {
            Some(5u8)
        } else if divide == 64 {
            Some(6u8)
        } else if divide == 128 {
            Some(7u8)
        } else {
            None
        }
    } else {
        if divide == 32 {
            Some(0u8)
        } else if divide == 64 {
            Some(1u8)
        } else if divide == 128 {
            Some(2u8)
        } else if divide == 256 {
            Some(3u8)
        } else if divide == 512 {
            Some(4u8)
        } else if divide == 1024 {
            Some(5u8)
        } else if divide == 1280 {
            Some(6u8)
        } else if divide == 1536 {
            Some(7u8)
        } else {
            None
        }
    }
}

/// The divider-field index for a legal (range, divisor) pair.
#[verifier::when_used_as_spec(spec_frdiv)]
fn frdiv_for(low_range: bool, divide: u32) -> (r: Option<u8>)
    ensures
        r == spec_frdiv(low_range, divide),
{
    if low_range {
        if divide == 1 {
            Some(0u8)
        } else if divide == 2 {
            Some(1u8)
        } else if divide == 4 {
            Some(2u8)
        } else if divide == 8 {
            Some(3u8)
        } else if divide == 16 {
            Some(4u8)
        } else if divide == 32 {
            Some(5u8)
        } else if divide == 64 {
            Some(6u8)
        } else if divide == 128 {
            Some(7u8)
        } else {
            None
        }
    } else {
        if divide == 32 {
            Some(0u8)
        } else if divide == 64 {
            Some(1u8)
        } else if divide == 128 {
            Some(2u8)
        } else if divide == 256 {
            Some(3u8)
        } else if divide == 512 {
            Some(4u8)
        } else if divide == 1024 {
            Some(5u8)
        } else if divide == 1280 {
            Some(6u8)
        } else if divide == 1536 {
            Some(7u8)
        } else {
            None
        }
    }
}

/// `1` for a set flag, `0` for a clear one.
pub open spec fn flag_bit(b: bool) -> u8 {
    if b {
        1
    } else {
        0
    }
}

/// The clock-source status field reported for the given source-select field
/// and PLL-select bit. Source select 0 asks for whichever locked loop is
/// enabled; the status field distinguishes the FLL (0) from the PLL (3).
pub open spec fn clkst_of(clks: u8, pll: bool) -> u8 {
    if clks == 0 {
        if pll {
            3
        } else {
            0
        }
    } else {
        clks
    }
}

/// The status byte assembled from its fields: bit 1 oscillator initialized,
/// bits 2..4 the active clock source, bit 4 FLL internal reference, bit 5
/// PLL selected, bit 6 PLL locked.
pub open spec fn status_byte(osc_init: bool, clkst: u8, iref: bool, pll: bool) -> u8 {
    (flag_bit(osc_init) << 1) | (clkst << 2) | (flag_bit(iref) << 4) | (flag_bit(pll) << 5) | (
    flag_bit(pll) << 6)
}

/// The value a status read reports once the hardware has confirmed the
/// current control settings: the oscillator-initialized bit follows the
/// external-reference-select bit, the source status follows the
/// source-select field, and the PLL-select and PLL-lock bits follow the
/// PLL-enable bit.
pub open spec fn status_of(c1: u8, c2: u8, c6: u8) -> u8 {
    status_byte(
        get_bit8(c2, 2),
        clkst_of(get_bits8(c1, 6, 8), get_bit8(c6, 6)),
        get_bit8(c1, 2),
        get_bit8(c6, 6),
    )
}

/// Each field of a status byte assembled from numeric flags reads back as
/// itself.
proof fn lemma_status_byte_fields_raw(o: u8, k: u8, i: u8, p: u8)
    requires
        o < 2,
        k < 4,
        i < 2,
        p < 2,
    ensures
        get_bit8((o << 1) | (k << 2) | (i << 4) | (p << 5) | (p << 6), 1) == (o == 1),
        get_bits8((o << 1) | (k << 2) | (i << 4) | (p << 5) | (p << 6), 2, 4) == k,
        get_bit8((o << 1) | (k << 2) | (i << 4) | (p << 5) | (p << 6), 4) == (i == 1),
        get_bit8((o << 1) | (k << 2) | (i << 4) | (p << 5) | (p << 6), 5) == (p == 1),
        get_bit8((o << 1) | (k << 2) | (i << 4) | (p << 5) | (p << 6), 6) == (p == 1),
{
    assert((((((o << 1) | (k << 2) | (i << 4) | (p << 5) | (p << 6)) >> 1) & 1 == 1) == (o == 1))
        && ((((o << 1) | (k << 2) | (i << 4) | (p << 5) | (p << 6)) << ((8 - 4) as u8)) >> ((8
        - 4) as u8)) >> 2 == k && (((((o << 1) | (k << 2) | (i << 4) | (p << 5) | (p << 6)) >> 4)
        & 1 == 1) == (i == 1)) && (((((o << 1) | (k << 2) | (i << 4) | (p << 5) | (p << 6)) >> 5)
        & 1 == 1) == (p == 1)) && (((((o << 1) | (k << 2) | (i << 4) | (p << 5) | (p << 6)) >> 6)
        & 1 == 1) == (p == 1))) by (bit_vector)
        requires
            o < 2,
            k < 4,
            i < 2,
            p < 2,
    ;
}

/// Each field of the assembled status byte reads back as itself.
proof fn lemma_status_byte_fields(osc_init: bool, clkst: u8, iref: bool, pll: bool)
    requires
        clkst < 4,
    ensures
        get_bit8(status_byte(osc_init, clkst, iref, pll), 1) == osc_init,
        get_bits8(status_byte(osc_init, clkst, iref, pll), 2, 4) == clkst,
        get_bit8(status_byte(osc_init, clkst, iref, pll), 4) == iref,
        get_bit8(status_byte(osc_init, clkst, iref, pll), 5) == pll,
        get_bit8(status_byte(osc_init, clkst, iref, pll), 6) == pll,
{
    lemma_status_byte_fields_raw(flag_bit(osc_init), clkst, flag_bit(iref), flag_bit(pll));
}

/// Exclusive driver for the clock-generator register block (on silicon at
/// 0x40064000). Only the registers this boot path touches are modeled:
/// control registers 1, 2, 5 and 6 and the status register.
#[derive(Debug)]
pub struct Mcg {
    c1: volatile::Volatile<u8>,
    c2: volatile::Volatile<u8>,
    c5: volatile::Volatile<u8>,
    c6: volatile::Volatile<u8>,
    s: volatile::Volatile<u8>,
}

impl Mcg {
    /// Control register 1: source select (bits 6..8), external-reference
    /// divider (bits 3..6), internal-reference select (bit 2).
    pub closed spec fn c1v(self) -> u8 {
        vol_u8(self.c1)
    }

    /// Control register 2: frequency-range select (bits 4..6),
    /// external-reference select (bit 2).
    pub closed spec fn c2v(self) -> u8 {
        vol_u8(self.c2)
    }

    /// Control register 5: PLL reference divider (bits 0..5).
    pub closed spec fn c5v(self) -> u8 {
        vol_u8(self.c5)
    }

    /// Control register 6: PLL multiplier (bits 0..6), PLL enable (bit 6).
    pub closed spec fn c6v(self) -> u8 {
        vol_u8(self.c6)
    }

    /// The status register.
    pub closed spec fn sv(self) -> u8 {
        vol_u8(self.s)
    }

    /// The status register agrees with the control registers: the invariant
    /// the modeled hardware re-establishes after every confirmed control
    /// write.
    pub open spec fn synced(self) -> bool {
        self.sv() == status_of(self.c1v(), self.c2v(), self.c6v())
    }

    /// Internal-reference mode: FLL self-referenced, the power-on default.
    pub open spec fn is_fei(self) -> bool {
        &&& get_bit8(self.c1v(), 2)
        &&& !get_bit8(self.c6v(), 6)
        &&& get_bits8(self.c1v(), 6, 8) == 0
    }

    /// External-reference mode: FLL referenced to the divided crystal.
    pub open spec fn is_fbe(self) -> bool {
        &&& !get_bit8(self.c1v(), 2)
        &&& !get_bit8(self.c6v(), 6)
        &&& get_bits8(self.c1v(), 6, 8) == 2
    }

    /// PLL mode: the PLL is enabled and referenced to the crystal.
    pub open spec fn is_pbe(self) -> bool {
        &&& get_bit8(self.c6v(), 6)
        &&& get_bits8(self.c1v(), 6, 8) == 2
    }

    /// The register block in its power-on reset state: internal reference
    /// selected, everything else clear, status already reporting it.
    pub(crate) fn at_reset() -> (r: Mcg)
        ensures
            r.c1v() == 4,
            r.c2v() == 0,
            r.c5v() == 0,
            r.c6v() == 0,
            r.synced(),
            r.is_fei(),
    {
        let mut mcg = Mcg {
            c1: vol_new8(4),
            c2: vol_new8(0),
            c5: vol_new8(0),
            c6: vol_new8(0),
            s: vol_new8(0),
        };
        mcg.sync_status();
        proof {
            lemma_reset_bits();
        }
        mcg
    }

    /// Model of the hardware response: recompute the status register from
    /// the control registers, as the hardware does once the commanded
    /// transition settles.
    fn sync_status(&mut self)
        ensures
            final(self).c1v() == old(self).c1v(),
            final(self).c2v() == old(self).c2v(),
            final(self).c5v() == old(self).c5v(),
            final(self).c6v() == old(self).c6v(),
            final(self).synced(),
    {
        let c1: u8 = vol_read8(&self.c1);
        let c2: u8 = vol_read8(&self.c2);
        let c6: u8 = vol_read8(&self.c6);
        let osc_init: bool = bf_get_bit8(c2, 2);
        let clks: u8 = bf_get_bits8(c1, 6, 8);
        let iref: bool = bf_get_bit8(c1, 2);
        let pll: bool = bf_get_bit8(c6, 6);
        let clkst: u8 = if clks == 0 {
            if pll {
                3
            } else {
                0
            }
        } else {
            clks
        };
        let o: u8 = if osc_init {
            1
        } else {
            0
        };
        let i: u8 = if iref {
            1
        } else {
            0
        };
        let p: u8 = if pll {
            1
        } else {
            0
        };
        let status: u8 = (o << 1) | (clkst << 2) | (i << 4) | (p << 5) | (p << 6);
        vol_write8(&mut self.s, status);
    }

    /// What a synced status register reports of each control field.
    pub proof fn lemma_status_fields(self)
        requires
            self.synced(),
        ensures
            get_bit8(self.sv(), 1) == get_bit8(self.c2v(), 2),
            get_bits8(self.sv(), 2, 4) == clkst_of(get_bits8(self.c1v(), 6, 8), get_bit8(self.c6v(), 6)),
            get_bit8(self.sv(), 4) == get_bit8(self.c1v(), 2),
            get_bit8(self.sv(), 5) == get_bit8(self.c6v(), 6),
            get_bit8(self.sv(), 6) == get_bit8(self.c6v(), 6),
    {
        lemma_get_bits8_fits(self.c1v(), 6, 8);
        lemma_bound_of_fits8(get_bits8(self.c1v(), 6, 8));
        lemma_status_byte_fields(
            get_bit8(self.c2v(), 2),
            clkst_of(get_bits8(self.c1v(), 6, 8), get_bit8(self.c6v(), 6)),
            get_bit8(self.c1v(), 2),
            get_bit8(self.c6v(), 6),
        );
    }

    /// Classify the live hardware state as one of the known clock modes,
    /// consuming the raw driver. A status that matches no known mode is a
    /// fatal configuration error: no mode value exists for it, so no
    /// transition can ever act on it.
    pub fn clock(self) -> (r: Result<Clock, Error>)
        requires
            self.synced(),
        ensures
            r is Ok <==> (self.is_fei() || self.is_fbe() || self.is_pbe()),
            r matches Ok(c) ==> (match c {
                Clock::Fei(fei) => fei.regs() == self && self.is_fei(),
                Clock::Fbe(fbe) => fbe.regs() == self && self.is_fbe(),
                Clock::Pbe(pbe) => pbe.regs() == self && self.is_pbe(),
            }),
            r is Err ==> r->Err_0 == Error::UnknownClockMode,
    {
        let c1: u8 = vol_read8(&self.c1);
        let c6: u8 = vol_read8(&self.c6);
        let source: u8 = bf_get_bits8(c1, 6, 8);
        let fll_internal: bool = bf_get_bit8(c1, 2);
        let pll_enabled: bool = bf_get_bit8(c6, 6);
        if fll_internal && !pll_enabled && source == 0 {
            Ok(Clock::Fei(Fei { mcg: self }))
        } else if !fll_internal && !pll_enabled && source == 2 {
            Ok(Clock::Fbe(Fbe { mcg: self }))
        } else if pll_enabled && source == 2 {
            Ok(Clock::Pbe(Pbe { mcg: self }))
        } else {
            Err(Error::UnknownClockMode)
        }
    }

    /// The status register as the hardware reports it.
    pub fn read_status(&self) -> (r: u8)
        ensures
            r == self.sv(),
    {
        vol_read8(&self.s)
    }

    /// Control register 1 as last written.
    pub fn read_c1(&self) -> (r: u8)
        ensures
            r == self.c1v(),
    {
        vol_read8(&self.c1)
    }

    /// Control register 2 as last written.
    pub fn read_c2(&self) -> (r: u8)
        ensures
            r == self.c2v(),
    {
        vol_read8(&self.c2)
    }

    /// Control register 5 as last written.
    pub fn read_c5(&self) -> (r: u8)
        ensures
            r == self.c5v(),
    {
        vol_read8(&self.c5)
    }

    /// Control register 6 as last written.
    pub fn read_c6(&self) -> (r: u8)
        ensures
            r == self.c6v(),
    {
        vol_read8(&self.c6)
    }
}

/// The bit patterns of the reset state.
proof fn lemma_reset_bits()
    ensures
        get_bit8(4u8, 2),
        !get_bit8(0u8, 6),
        get_bits8(4u8, 6, 8) == 0,
{
    assert(((4u8 >> 2) & 1 == 1) && !((0u8 >> 6) & 1 == 1) && ((4u8 << ((8 - 8) as u8)) >> ((8
        - 8) as u8)) >> 6 == 0) by (bit_vector);
}

/// Internal-reference mode: the FLL runs from its internal reference. The
/// power-on state, and the only state an external reference can be
/// configured from.
#[derive(Debug)]
pub struct Fei {
    mcg: Mcg,
}

/// External-reference mode: the FLL runs from the divided crystal. The only
/// state the PLL can be configured from.
#[derive(Debug)]
pub struct Fbe {
    mcg: Mcg,
}

/// PLL mode: the PLL is locked to the crystal and can be selected as the
/// core clock source.
#[derive(Debug)]
pub struct Pbe {
    mcg: Mcg,
}

/// The live clock mode, holding exactly one of the three mode values.
#[derive(Debug)]
pub enum Clock {
    Fei(Fei),
    Fbe(Fbe),
    Pbe(Pbe),
}

impl Fei {
    /// The owned register block.
    pub closed spec fn regs(self) -> Mcg {
        self.mcg
    }

    /// The mode tag matches the live hardware bits.
    pub open spec fn wf(self) -> bool {
        self.regs().synced() && self.regs().is_fei()
    }

    /// Borrow the owned register block, for read-back.
    pub fn inner(&self) -> (r: &Mcg)
        ensures
            *r == self.regs(),
    {
        &self.mcg
    }

    /// Select the crystal frequency band and enable the external reference,
    /// then wait for the oscillator-initialized status bit. Requires the
    /// oscillator token: only a running crystal oscillator can serve as the
    /// external reference, and the token is the unforgeable proof of that.
    pub fn enable_xtal(&mut self, range: OscRange, token: OscToken)
        requires
            old(self).wf(),
        ensures
            final(self).wf(),
            final(self).regs().c2v() == set_bit8(
                set_bits8(old(self).regs().c2v(), 4, 6, spec_range_bits(range)),
                2,
                true,
            ),
            get_bits8(final(self).regs().c2v(), 4, 6) == spec_range_bits(range),
            get_bit8(final(self).regs().c2v(), 2),
            get_bit8(final(self).regs().sv(), 1),
            final(self).regs().c1v() == old(self).regs().c1v(),
            final(self).regs().c5v() == old(self).regs().c5v(),
            final(self).regs().c6v() == old(self).regs().c6v(),
    {
        let _ = token;
        let c2: u8 = vol_read8(&self.mcg.c2);
        let rb: u8 = range_bits(range);
        proof {
            lemma_fits8_of_bound(rb);
        }
        let c2a: u8 = bf_set_bits8(c2, 4, 6, rb);
        let c2b: u8 = bf_set_bit8(c2a, 2, true);
        vol_write8(&mut self.mcg.c2, c2b);
        self.mcg.sync_status();
        proof {
            lemma_set_bits8_read_same(c2, 4, 6, rb);
            lemma_set_bit8_read_bits(c2a, 2, true, 4, 6);
            lemma_set_bit8_read_same(c2a, 2, true);
            self.mcg.lemma_status_fields();
        }
        // Wait for the crystal oscillator to report itself initialized.
        confirm_bit8(&self.mcg.s, 1, true);
    }
}

impl Fei {
    /// Switch the FLL reference from internal to the divided external
    /// crystal. The divisor must come from the legal table for the
    /// frequency band previously selected in control register 2; any other
    /// divisor is a fatal configuration error, refused before any register
    /// write. On success the documented table index stands in the divider
    /// field, the source select reads external, and the status register has
    /// confirmed both.
    pub fn use_external(self, divide: u32) -> (r: Result<Fbe, Error>)
        requires
            self.wf(),
        ensures
            r is Ok <==> spec_frdiv(get_bits8(self.regs().c2v(), 4, 6) == 0, divide) is Some,
            r matches Ok(fbe) ==> ({
                let frdiv = spec_frdiv(get_bits8(self.regs().c2v(), 4, 6) == 0, divide)->Some_0;
                &&& fbe.wf()
                &&& fbe.regs().c1v() == set_bit8(
                    set_bits8(set_bits8(self.regs().c1v(), 6, 8, 2), 3, 6, frdiv),
                    2,
                    false,
                )
                &&& get_bits8(fbe.regs().c1v(), 3, 6) == frdiv
                &&& get_bits8(fbe.regs().c1v(), 6, 8) == 2
                &&& !get_bit8(fbe.regs().c1v(), 2)
                &&& fbe.regs().c2v() == self.regs().c2v()
                &&& fbe.regs().c5v() == self.regs().c5v()
                &&& fbe.regs().c6v() == self.regs().c6v()
                &&& get_bits8(fbe.regs().sv(), 2, 4) == 2
                &&& !get_bit8(fbe.regs().sv(), 4)
            }),
            r is Err ==> r->Err_0 == Error::InvalidDivisor,
    {
        let mut mcg = self.mcg;
        let c2: u8 = vol_read8(&mcg.c2);
        let osc: u8 = bf_get_bits8(c2, 4, 6);
        let low_range: bool = osc == 0;
        let frdiv_index: Option<u8> = frdiv_for(low_range, divide);
        match frdiv_index {
            None => Err(Error::InvalidDivisor),
            Some(frdiv) => {
                let c1: u8 = vol_read8(&mcg.c1);
                proof {
                    lemma_fits8_of_bound(frdiv);
                    lemma_fits8_of_bound(2u8);
                }
                let c1a: u8 = bf_set_bits8(c1, 6, 8, 2);
                let c1b: u8 = bf_set_bits8(c1a, 3, 6, frdiv);
                let c1c: u8 = bf_set_bit8(c1b, 2, false);
                vol_write8(&mut mcg.c1, c1c);
                mcg.sync_status();
                proof {
                    lemma_set_bits8_read_same(c1, 6, 8, 2);
                    lemma_set_bits8_read_other(c1a, 3, 6, frdiv, 6, 8);
                    lemma_set_bit8_read_bits(c1b, 2, false, 6, 8);
                    lemma_set_bits8_read_same(c1a, 3, 6, frdiv);
                    lemma_set_bit8_read_bits(c1b, 2, false, 3, 6);
                    lemma_set_bit8_read_same(c1b, 2, false);
                    mcg.lemma_status_fields();
                }
                // First wait for the FLL to leave its internal reference,
                // then for the crystal to read back as the selected source.
                confirm_bit8(&mcg.s, 4, false);
                confirm_bits8(&mcg.s, 2, 4, 2);
                Ok(Fbe { mcg })
            },
        }
    }
}

impl Fbe {
    /// The owned register block.
    pub closed spec fn regs(self) -> Mcg {
        self.mcg
    }

    /// The mode tag matches the live hardware bits.
    pub open spec fn wf(self) -> bool {
        self.regs().synced() && self.regs().is_fbe()
    }

    /// Borrow the owned register block, for read-back.
    pub fn inner(&self) -> (r: &Mcg)
        ensures
            *r == self.regs(),
    {
        &self.mcg
    }

    /// Configure and enable the PLL. The VCO multiplier must lie in
    /// 24..=55 and the reference divisor in 1..=25; anything else would
    /// command an out-of-spec VCO frequency and is a fatal configuration
    /// error, refused before any register write. On success the divider
    /// fields hold the multiplier less 24 and the divisor less 1, and the
    /// status register has confirmed the PLL enabled and locked.
    pub fn enable_pll(self, numerator: u8, denominator: u8) -> (r: Result<Pbe, Error>)
        requires
            self.wf(),
        ensures
            r is Ok <==> (24 <= numerator <= 55 && 1 <= denominator <= 25),
            r matches Ok(pbe) ==> ({
                &&& pbe.wf()
                &&& pbe.regs().c5v() == set_bits8(self.regs().c5v(), 0, 5, (denominator - 1) as u8)
                &&& pbe.regs().c6v() == set_bit8(
                    set_bits8(self.regs().c6v(), 0, 6, (numerator - 24) as u8),
                    6,
                    true,
                )
                &&& get_bits8(pbe.regs().c5v(), 0, 5) == denominator - 1
                &&& get_bits8(pbe.regs().c6v(), 0, 6) == numerator - 24
                &&& get_bit8(pbe.regs().c6v(), 6)
                &&& pbe.regs().c1v() == self.regs().c1v()
                &&& pbe.regs().c2v() == self.regs().c2v()
                &&& get_bit8(pbe.regs().sv(), 5)
                &&& get_bit8(pbe.regs().sv(), 6)
            }),
            (numerator < 24 || numerator > 55) ==> r is Err && r->Err_0
                == Error::InvalidPllNumerator,
            (24 <= numerator <= 55 && !(1 <= denominator <= 25)) ==> r is Err && r->Err_0
                == Error::InvalidPllDenominator,
    {
        if numerator < 24 || numerator > 55 {
            return Err(Error::InvalidPllNumerator);
        }
        if denominator < 1 || denominator > 25 {
            return Err(Error::InvalidPllDenominator);
        }
        let mut mcg = self.mcg;
        let prdiv: u8 = denominator - 1;
        let vdiv: u8 = numerator - 24;
        proof {
            lemma_fits8_of_bound(prdiv);
            lemma_fits8_of_bound(vdiv);
        }
        let c5: u8 = vol_read8(&mcg.c5);
        let c5a: u8 = bf_set_bits8(c5, 0, 5, prdiv);
        vol_write8(&mut mcg.c5, c5a);
        let c6: u8 = vol_read8(&mcg.c6);
        let c6a: u8 = bf_set_bits8(c6, 0, 6, vdiv);
        let c6b: u8 = bf_set_bit8(c6a, 6, true);
        vol_write8(&mut mcg.c6, c6b);
        mcg.sync_status();
        proof {
            lemma_set_bits8_read_same(c5, 0, 5, prdiv);
            lemma_set_bits8_read_same(c6, 0, 6, vdiv);
            lemma_set_bit8_read_bits(c6a, 6, true, 0, 6);
            lemma_set_bit8_read_same(c6a, 6, true);
            mcg.lemma_status_fields();
        }
        // Wait for the PLL to be enabled and referenced to the crystal,
        // then for it to report itself locked and stable.
        confirm_bit8(&mcg.s, 5, true);
        confirm_bit8(&mcg.s, 6, true);
        Ok(Pbe { mcg })
    }
}

impl Pbe {
    /// The owned register block.
    pub closed spec fn regs(self) -> Mcg {
        self.mcg
    }

    /// The mode tag matches the live hardware bits.
    pub open spec fn wf(self) -> bool {
        self.regs().synced() && self.regs().is_pbe()
    }

    /// Borrow the owned register block, for read-back.
    pub fn inner(&self) -> (r: &Mcg)
        ensures
            *r == self.regs(),
    {
        &self.mcg
    }

    /// Switch the core clock source to the locked loop and wait until the
    /// source-select status reads back the PLL-specific encoding (3,
    /// distinct from the plain external encoding used earlier). The boot
    /// sequence is complete after this; the raw driver is returned so the
    /// final state can be read back or the block released.
    pub fn use_pll(self) -> (r: Mcg)
        requires
            self.wf(),
        ensures
            r.synced(),
            r.c1v() == set_bits8(self.regs().c1v(), 6, 8, 0),
            get_bits8(r.sv(), 2, 4) == 3,
            r.c2v() == self.regs().c2v(),
            r.c5v() == self.regs().c5v(),
            r.c6v() == self.regs().c6v(),
    {
        let mut mcg = self.mcg;
        let c1: u8 = vol_read8(&mcg.c1);
        proof {
            lemma_fits8_of_bound(0u8);
        }
        let c1a: u8 = bf_set_bits8(c1, 6, 8, 0);
        vol_write8(&mut mcg.c1, c1a);
        mcg.sync_status();
        proof {
            lemma_set_bits8_read_same(c1, 6, 8, 0);
            lemma_set_bits8_read_bit(c1, 6, 8, 0, 2);
            mcg.lemma_status_fields();
        }
        // The source-select status differentiates the FLL (0) from the PLL
        // (3): wait for the PLL encoding.
        confirm_bits8(&mcg.s, 2, 4, 3);
        mcg
    }
}

impl Mcg {
    /// Acquire the clock-generator singleton from the board. Fails fatally
    /// if it is already held elsewhere: a second driver would alias the
    /// register block.
    pub fn new(board: &mut crate::Board) -> (r: Result<Mcg, Error>)
        ensures
            r is Ok <==> old(board).mcg_slot() is Some,
            r matches Ok(m) ==> Some(m) == old(board).mcg_slot() && final(board).mcg_slot()
                is None,
            r is Err ==> r->Err_0 == Error::InUse && *final(board) == *old(board),
            crate::boards_agree_except(*old(board), *final(board), crate::Peripheral::Mcg),
    {
        match board.mcg.take() {
            Some(m) => Ok(m),
            None => Err(Error::InUse),
        }
    }

    /// Release the clock generator back to the board, making it available
    /// again. The register block keeps its state.
    pub fn release(self, board: &mut crate::Board)
        ensures
            final(board).mcg_slot() == Some(self),
            crate::boards_agree_except(*old(board), *final(board), crate::Peripheral::Mcg),
    {
        board.mcg = Some(self);
    }
}
} // verus!
