//! The watchdog timer, specified only at its boundary: the fixed two-word
//! unlock sequence followed by clearing the enable bit of the control word.

use vstd::prelude::*;

verus! {

/// Exclusive driver for the watchdog register block (on silicon at
/// 0x40052000). Only the control word and the unlock register are modeled.
#[derive(Debug)]
pub struct Watchdog {
    stctrlh: u16,
    unlock: u16,
}

impl Watchdog {
    /// The control word; its bit 0 enables the watchdog.
    pub closed spec fn controlv(self) -> u16 {
        self.stctrlh
    }

    /// The unlock register as last written.
    pub closed spec fn unlockv(self) -> u16 {
        self.unlock
    }

    /// The watchdog out of reset: enabled (only the enable bit of the
    /// control word is modeled), unlock register clear.
    pub(crate) fn at_reset() -> (r: Watchdog)
        ensures
            r.controlv() == 1,
            r.unlockv() == 0,
    {
        Watchdog { stctrlh: 1, unlock: 0 }
    }

    /// Disable the watchdog: write the fixed two-word unlock sequence, then
    /// clear the enable bit of the control word, leaving its other bits as
    /// they were.
    pub fn disable(&mut self)
        ensures
            final(self).controlv() == old(self).controlv() & !1u16,
            final(self).controlv() & 1u16 == 0,
            final(self).unlockv() == 0xD928,
    {
        self.unlock = 0xC520;
        self.unlock = 0xD928;
        let ctrl: u16 = self.stctrlh;
        let cleared: u16 = ctrl & !1u16;
        proof {
            assert((ctrl & !1u16) & 1u16 == 0) by (bit_vector);
        }
        self.stctrlh = cleared;
    }

    /// The control word as the hardware holds it.
    pub fn read_control(&self) -> (r: u16)
        ensures
            r == self.controlv(),
    {
        self.stctrlh
    }

    /// The unlock register as last written.
    pub fn read_unlock(&self) -> (r: u16)
        ensures
            r == self.unlockv(),
    {
        self.unlock
    }
}

impl Watchdog {
    /// Acquire the watchdog singleton from the board. Fails fatally if it
    /// is already held elsewhere: a second driver would alias the register
    /// block.
    pub fn new(board: &mut crate::Board) -> (r: Result<Watchdog, crate::Error>)
        ensures
            r is Ok <==> old(board).watchdog_slot() is Some,
            r matches Ok(w) ==> Some(w) == old(board).watchdog_slot() && final(board).watchdog_slot() is None,
            r is Err ==> r->Err_0 == crate::Error::InUse && *final(board) == *old(board),
            crate::boards_agree_except(*old(board), *final(board), crate::Peripheral::Watchdog),
    {
        match board.watchdog.take() {
            Some(w) => Ok(w),
            None => Err(crate::Error::InUse),
        }
    }

    /// Release the watchdog back to the board, making it available again.
    /// The register block keeps its state.
    pub fn release(self, board: &mut crate::Board)
        ensures
            final(board).watchdog_slot() == Some(self),
            crate::boards_agree_except(*old(board), *final(board), crate::Peripheral::Watchdog),
    {
        board.watchdog = Some(self);
    }
}
} // verus!
