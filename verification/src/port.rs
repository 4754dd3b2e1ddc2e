//! The port and pin ownership manager: exclusive per-pin locks on a 32-pin
//! port, and the conversion of a locked pin into a GPIO, serial-receive or
//! serial-transmit capability, validated against the physical
//! pin-to-function wiring.

use vstd::prelude::*;

use crate::Error;

verus! {

/// The ports this boot path drives.
#[derive(Clone, Copy, Debug, PartialEq, Eq, Structural)]
pub enum PortName {
    B,
    C,
}

/// The three-bit function-select field of a pin control word, bits 8..11.
pub open spec fn pcr_mux(x: u32) -> u32 {
    (x >> 8) & 7
}

/// The rewritten pin control word reads its new function-select field back,
/// with every other bit preserved by the mask.
proof fn lemma_pcr_mux(x: u32, m: u32)
    ensures
        pcr_mux((x & 0xFFFFF8FFu32) | ((m & 7) << 8)) == m & 7,
        m < 8 ==> pcr_mux((x & 0xFFFFF8FFu32) | ((m & 7) << 8)) == m,
{
    assert(((((x & 0xFFFFF8FFu32) | ((m & 7) << 8)) >> 8) & 7 == (m & 7)) && (m < 8 ==> (((x
        & 0xFFFFF8FFu32) | ((m & 7) << 8)) >> 8) & 7 == m)) by (bit_vector);
}

/// The physical wiring map of serial receive lines: the one (port, pin)
/// wired to each serial unit's receive input.
pub open spec fn spec_rx_uart(port: PortName, pin: int) -> Option<u8> {
    if port is B && pin == 16 {
        Some(0u8)
    } else {
        None
    }
}

/// The physical wiring map of serial transmit lines: the one (port, pin)
/// wired to each serial unit's transmit output.
pub open spec fn spec_tx_uart(port: PortName, pin: int) -> Option<u8> {
    if port is B && pin == 17 {
        Some(0u8)
    } else {
        None
    }
}

/// Exclusive driver for one port (on silicon at 0x4004A000 for port B,
/// 0x4004B000 for port C): its 32 pin control words and the 32 boolean
/// ownership flags that guard them.
#[derive(Debug)]
pub struct Port {
    name: PortName,
    pcr: Vec<u32>,
    locks: Vec<bool>,
}

/// Exclusive ownership of one physical pin of a port. Created only while
/// the pin's lock flag is free; converting it into a function capability
/// consumes it, and releasing the capability frees the flag again.
#[derive(Debug)]
pub struct Pin {
    port: PortName,
    pin: usize,
}

/// A pin configured as a digital output line, owning the pin and the
/// bit-band words through which its direction and data bits are written
/// (on silicon at 0x43FE0800 for port B, 0x43FE1000 for port C).
#[derive(Debug)]
pub struct Gpio {
    port: PortName,
    pin: usize,
    pddr: u32,
    pdor: u32,
}

/// A pin configured as the receive line of the serial unit it is physically
/// wired to, recording that unit's id.
#[derive(Debug)]
pub struct Rx {
    uart: u8,
    port: PortName,
    pin: usize,
}

/// A pin configured as the transmit line of the serial unit it is
/// physically wired to, recording that unit's id.
#[derive(Debug)]
pub struct Tx {
    uart: u8,
    port: PortName,
    pin: usize,
}

impl Port {
    /// Which physical port this driver owns.
    pub closed spec fn spec_name(self) -> PortName {
        self.name
    }

    /// Pin control word `i`.
    pub closed spec fn pcr_at(self, i: int) -> u32 {
        self.pcr@[i]
    }

    /// Whether pin `i` is currently owned.
    pub closed spec fn locked(self, i: int) -> bool {
        self.locks@[i]
    }

    /// The driver holds all 32 pin control words and lock flags.
    pub closed spec fn wf(self) -> bool {
        self.pcr@.len() == 32 && self.locks@.len() == 32
    }

    /// A claim of pin `p` succeeds exactly when the index is in range and
    /// the pin's lock flag is free.
    pub open spec fn pin_claimable(self, p: int) -> bool {
        0 <= p < 32 && !self.locked(p)
    }

    /// The port in its power-on reset state: every control word clear and
    /// every pin free.
    pub(crate) fn at_reset(name: PortName) -> (r: Port)
        ensures
            r.wf(),
            r.spec_name() == name,
            forall|i: int| 0 <= i < 32 ==> r.pcr_at(i) == 0,
            forall|i: int| 0 <= i < 32 ==> !r.locked(i),
    {
        let mut pcr: Vec<u32> = Vec::new();
        let mut locks: Vec<bool> = Vec::new();
        let mut i: usize = 0;
        while i < 32
            invariant
                i <= 32,
                pcr@.len() == i,
                locks@.len() == i,
                forall|j: int| 0 <= j < i ==> pcr@[j] == 0,
                forall|j: int| 0 <= j < i ==> !locks@[j],
            decreases 32 - i,
        {
            pcr.push(0);
            locks.push(false);
            i = i + 1;
        }
        Port { name, pcr, locks }
    }

    /// Which physical port this driver owns.
    pub fn name(&self) -> (r: PortName)
        ensures
            r == self.spec_name(),
    {
        self.name
    }

    /// Claim exclusive ownership of pin `p`. An index of 32 or more is a
    /// fatal configuration error; a pin whose lock flag is already set is
    /// owned elsewhere, also fatal. On success the flag is set and the
    /// returned capability is the only live handle to the pin.
    pub fn pin(&mut self, p: usize) -> (r: Result<Pin, Error>)
        requires
            old(self).wf(),
        ensures
            final(self).wf(),
            final(self).spec_name() == old(self).spec_name(),
            forall|j: int| 0 <= j < 32 ==> final(self).pcr_at(j) == old(self).pcr_at(j),
            r is Ok <==> old(self).pin_claimable(p as int),
            r matches Ok(pin) ==> ({
                &&& pin.wf()
                &&& pin.port_name() == old(self).spec_name()
                &&& pin.index() == p
                &&& final(self).locked(p as int)
                &&& !final(self).pin_claimable(p as int)
                &&& forall|j: int|
                    0 <= j < 32 && j != p ==> final(self).locked(j) == old(self).locked(j)
            }),
            r is Err ==> *final(self) == *old(self),
            p >= 32 ==> r is Err && r->Err_0 == Error::InvalidIndex,
            (p < 32 && old(self).locked(p as int)) ==> r is Err && r->Err_0 == Error::InUse,
    {
        if p >= 32 {
            return Err(Error::InvalidIndex);
        }
        if self.locks[p] {
            return Err(Error::InUse);
        }
        self.locks.set(p, true);
        Ok(Pin { port: self.name, pin: p })
    }

    /// Rewrite the function-select field of pin `p`'s control word, leaving
    /// every other bit of the word unchanged.
    pub fn set_pin_mode(&mut self, p: usize, mode: u32)
        requires
            old(self).wf(),
            p < 32,
        ensures
            final(self).wf(),
            final(self).spec_name() == old(self).spec_name(),
            forall|j: int| 0 <= j < 32 ==> final(self).locked(j) == old(self).locked(j),
            final(self).pcr_at(p as int) == (old(self).pcr_at(p as int) & 0xFFFFF8FFu32) | ((mode
                & 7) << 8),
            pcr_mux(final(self).pcr_at(p as int)) == mode & 7,
            mode < 8 ==> pcr_mux(final(self).pcr_at(p as int)) == mode,
            forall|j: int| 0 <= j < 32 && j != p ==> final(self).pcr_at(j) == old(self).pcr_at(j),
    {
        let word: u32 = self.pcr[p];
        let rewritten: u32 = (word & 0xFFFFF8FFu32) | ((mode & 7) << 8);
        proof {
            lemma_pcr_mux(word, mode);
        }
        self.pcr.set(p, rewritten);
    }

    /// Release a claimed pin without configuring it, clearing its lock flag
    /// so the pin can be claimed again.
    pub fn release_pin(&mut self, pin: Pin)
        requires
            old(self).wf(),
            pin.wf(),
            pin.port_name() == old(self).spec_name(),
        ensures
            final(self).wf(),
            final(self).spec_name() == old(self).spec_name(),
            forall|j: int| 0 <= j < 32 ==> final(self).pcr_at(j) == old(self).pcr_at(j),
            !final(self).locked(pin.index()),
            final(self).pin_claimable(pin.index()),
            forall|j: int|
                0 <= j < 32 && j != pin.index() ==> final(self).locked(j) == old(self).locked(j),
    {
        self.locks.set(pin.pin, false);
    }

    /// Release a GPIO capability, clearing the originating pin's lock flag
    /// so the pin can be claimed again. The pin keeps its configured
    /// control word.
    pub fn release_gpio(&mut self, gpio: Gpio)
        requires
            old(self).wf(),
            gpio.wf(),
            gpio.port_name() == old(self).spec_name(),
        ensures
            final(self).wf(),
            final(self).spec_name() == old(self).spec_name(),
            forall|j: int| 0 <= j < 32 ==> final(self).pcr_at(j) == old(self).pcr_at(j),
            !final(self).locked(gpio.index()),
            final(self).pin_claimable(gpio.index()),
            forall|j: int|
                0 <= j < 32 && j != gpio.index() ==> final(self).locked(j) == old(self).locked(j),
    {
        self.locks.set(gpio.pin, false);
    }

    /// Release a serial-receive capability, clearing the originating pin's
    /// lock flag so the pin can be claimed again.
    pub fn release_rx(&mut self, rx: Rx)
        requires
            old(self).wf(),
            rx.wf(),
            rx.port_name() == old(self).spec_name(),
        ensures
            final(self).wf(),
            final(self).spec_name() == old(self).spec_name(),
            forall|j: int| 0 <= j < 32 ==> final(self).pcr_at(j) == old(self).pcr_at(j),
            !final(self).locked(rx.index()),
            final(self).pin_claimable(rx.index()),
            forall|j: int|
                0 <= j < 32 && j != rx.index() ==> final(self).locked(j) == old(self).locked(j),
    {
        self.locks.set(rx.pin, false);
    }

    /// Release a serial-transmit capability, clearing the originating pin's
    /// lock flag so the pin can be claimed again.
    pub fn release_tx(&mut self, tx: Tx)
        requires
            old(self).wf(),
            tx.wf(),
            tx.port_name() == old(self).spec_name(),
        ensures
            final(self).wf(),
            final(self).spec_name() == old(self).spec_name(),
            forall|j: int| 0 <= j < 32 ==> final(self).pcr_at(j) == old(self).pcr_at(j),
            !final(self).locked(tx.index()),
            final(self).pin_claimable(tx.index()),
            forall|j: int|
                0 <= j < 32 && j != tx.index() ==> final(self).locked(j) == old(self).locked(j),
    {
        self.locks.set(tx.pin, false);
    }

    /// Pin control word `p` as the hardware holds it.
    pub fn read_pcr(&self, p: usize) -> (r: u32)
        requires
            self.wf(),
            p < 32,
        ensures
            r == self.pcr_at(p as int),
    {
        self.pcr[p]
    }
}

/// The ownership law of the pin locks: any lock state that a successful
/// claim of pin `p` leaves behind refuses a second claim of `p`; any state
/// that a release of that claim leaves behind admits a new claim of `p`;
/// and neither step changes the claimability of any other pin.
pub proof fn lemma_pin_exclusive(before: Port, held: Port, released: Port, p: int)
    requires
        before.pin_claimable(p),
        held.locked(p),
        forall|j: int| 0 <= j < 32 && j != p ==> held.locked(j) == before.locked(j),
        !released.locked(p),
        forall|j: int| 0 <= j < 32 && j != p ==> released.locked(j) == held.locked(j),
    ensures
        !held.pin_claimable(p),
        released.pin_claimable(p),
        forall|j: int|
            0 <= j < 32 && j != p ==> released.pin_claimable(j) == before.pin_claimable(j),
{
    assert forall|j: int| 0 <= j < 32 && j != p implies released.pin_claimable(j)
        == before.pin_claimable(j) by {
        assert(released.locked(j) == held.locked(j));
        assert(held.locked(j) == before.locked(j));
    }
}

impl Pin {
    /// The port this pin belongs to.
    pub closed spec fn port_name(self) -> PortName {
        self.port
    }

    /// The pin index within its port.
    pub closed spec fn index(self) -> int {
        self.pin as int
    }

    /// A pin capability always indexes into its port's 32 pins.
    pub open spec fn wf(self) -> bool {
        0 <= self.index() < 32
    }

    /// Route the pin to its GPIO function (function select 1) and hand
    /// back the GPIO capability with its fresh bit-band view. The port must
    /// be the one the pin was claimed from.
    pub fn make_gpio(self, port: &mut Port) -> (r: Gpio)
        requires
            old(port).wf(),
            self.wf(),
            self.port_name() == old(port).spec_name(),
        ensures
            final(port).wf(),
            final(port).spec_name() == old(port).spec_name(),
            forall|j: int| 0 <= j < 32 ==> final(port).locked(j) == old(port).locked(j),
            pcr_mux(final(port).pcr_at(self.index())) == 1,
            forall|j: int|
                0 <= j < 32 && j != self.index() ==> final(port).pcr_at(j) == old(port).pcr_at(j),
            r.wf(),
            r.port_name() == self.port_name(),
            r.index() == self.index(),
            !r.is_output(),
            !r.is_high(),
    {
        port.set_pin_mode(self.pin, 1);
        Gpio { port: self.port, pin: self.pin, pddr: 0, pdor: 0 }
    }

    /// Route the pin to its serial-receive function (the alternate
    /// function, select 3), validating that this (port, pin) is the one
    /// physically wired to some serial unit's receive line; any other pin
    /// is a fatal configuration error, refused before the control word is
    /// touched. The port must be the one the pin was claimed from.
    pub fn make_rx(self, port: &mut Port) -> (r: Result<Rx, Error>)
        requires
            old(port).wf(),
            self.wf(),
            self.port_name() == old(port).spec_name(),
        ensures
            final(port).wf(),
            final(port).spec_name() == old(port).spec_name(),
            forall|j: int| 0 <= j < 32 ==> final(port).locked(j) == old(port).locked(j),
            r is Ok <==> spec_rx_uart(self.port_name(), self.index()) is Some,
            r matches Ok(rx) ==> ({
                &&& rx.wf()
                &&& rx.port_name() == self.port_name()
                &&& rx.index() == self.index()
                &&& rx.uart_id() == spec_rx_uart(self.port_name(), self.index())->Some_0
                &&& pcr_mux(final(port).pcr_at(self.index())) == 3
                &&& forall|j: int|
                    0 <= j < 32 && j != self.index() ==> final(port).pcr_at(j) == old(port).pcr_at(
                        j,
                    )
            }),
            r is Err ==> *final(port) == *old(port) && r->Err_0 == Error::WrongPin,
    {
        if !(self.port == PortName::B && self.pin == 16) {
            return Err(Error::WrongPin);
        }
        port.set_pin_mode(self.pin, 3);
        Ok(Rx { uart: 0, port: self.port, pin: self.pin })
    }

    /// Route the pin to its serial-transmit function (the alternate
    /// function, select 3), validating that this (port, pin) is the one
    /// physically wired to some serial unit's transmit line; any other pin
    /// is a fatal configuration error, refused before the control word is
    /// touched. The port must be the one the pin was claimed from.
    pub fn make_tx(self, port: &mut Port) -> (r: Result<Tx, Error>)
        requires
            old(port).wf(),
            self.wf(),
            self.port_name() == old(port).spec_name(),
        ensures
            final(port).wf(),
            final(port).spec_name() == old(port).spec_name(),
            forall|j: int| 0 <= j < 32 ==> final(port).locked(j) == old(port).locked(j),
            r is Ok <==> spec_tx_uart(self.port_name(), self.index()) is Some,
            r matches Ok(tx) ==> ({
                &&& tx.wf()
                &&& tx.port_name() == self.port_name()
                &&& tx.index() == self.index()
                &&& tx.uart_id() == spec_tx_uart(self.port_name(), self.index())->Some_0
                &&& pcr_mux(final(port).pcr_at(self.index())) == 3
                &&& forall|j: int|
                    0 <= j < 32 && j != self.index() ==> final(port).pcr_at(j) == old(port).pcr_at(
                        j,
                    )
            }),
            r is Err ==> *final(port) == *old(port) && r->Err_0 == Error::WrongPin,
    {
        if !(self.port == PortName::B && self.pin == 17) {
            return Err(Error::WrongPin);
        }
        port.set_pin_mode(self.pin, 3);
        Ok(Tx { uart: 0, port: self.port, pin: self.pin })
    }
}

impl Gpio {
    /// The port this capability's pin belongs to.
    pub closed spec fn port_name(self) -> PortName {
        self.port
    }

    /// The pin index within its port.
    pub closed spec fn index(self) -> int {
        self.pin as int
    }

    /// The pin's direction word in the bit-band region.
    pub closed spec fn direction_word(self) -> u32 {
        self.pddr
    }

    /// The pin's data-output word in the bit-band region.
    pub closed spec fn data_word(self) -> u32 {
        self.pdor
    }

    /// A GPIO capability always indexes into its port's 32 pins.
    pub open spec fn wf(self) -> bool {
        0 <= self.index() < 32
    }

    /// The pin is configured as an output.
    pub open spec fn is_output(self) -> bool {
        self.direction_word() == 1
    }

    /// The pin's output data bit is driven high.
    pub open spec fn is_high(self) -> bool {
        self.data_word() == 1
    }

    /// The bit-band view of one pin's GPIO words, initially clear: the pin
    /// is an input driving nothing.
    pub fn new(port: PortName, pin: usize) -> (r: Gpio)
        requires
            pin < 32,
        ensures
            r.wf(),
            r.port_name() == port,
            r.index() == pin,
            !r.is_output(),
            !r.is_high(),
    {
        Gpio { port, pin, pddr: 0, pdor: 0 }
    }

    /// Configure the pin as a digital output by writing its direction word.
    pub fn output(&mut self)
        ensures
            final(self).is_output(),
            final(self).data_word() == old(self).data_word(),
            final(self).port_name() == old(self).port_name(),
            final(self).index() == old(self).index(),
    {
        self.pddr = 1;
    }

    /// Drive the pin high through its set-output bit-band word.
    pub fn high(&mut self)
        ensures
            final(self).is_high(),
            final(self).direction_word() == old(self).direction_word(),
            final(self).port_name() == old(self).port_name(),
            final(self).index() == old(self).index(),
    {
        self.pdor = 1;
    }

    /// The direction word as the hardware holds it.
    pub fn read_direction(&self) -> (r: u32)
        ensures
            r == self.direction_word(),
    {
        self.pddr
    }

    /// The data-output word as the hardware holds it.
    pub fn read_data(&self) -> (r: u32)
        ensures
            r == self.data_word(),
    {
        self.pdor
    }
}

impl Rx {
    /// The port this capability's pin belongs to.
    pub closed spec fn port_name(self) -> PortName {
        self.port
    }

    /// The pin index within its port.
    pub closed spec fn index(self) -> int {
        self.pin as int
    }

    /// The serial unit this pin is wired to.
    pub closed spec fn uart_id(self) -> u8 {
        self.uart
    }

    /// A receive capability only exists for the pin wired to its unit.
    pub open spec fn wf(self) -> bool {
        spec_rx_uart(self.port_name(), self.index()) == Some(self.uart_id())
    }

    /// The serial unit this pin is wired to.
    pub fn uart(&self) -> (r: u8)
        ensures
            r == self.uart_id(),
    {
        self.uart
    }
}

impl Tx {
    /// The port this capability's pin belongs to.
    pub closed spec fn port_name(self) -> PortName {
        self.port
    }

    /// The pin index within its port.
    pub closed spec fn index(self) -> int {
        self.pin as int
    }

    /// The serial unit this pin is wired to.
    pub closed spec fn uart_id(self) -> u8 {
        self.uart
    }

    /// A transmit capability only exists for the pin wired to its unit.
    pub open spec fn wf(self) -> bool {
        spec_tx_uart(self.port_name(), self.index()) == Some(self.uart_id())
    }

    /// The serial unit this pin is wired to.
    pub fn uart(&self) -> (r: u8)
        ensures
            r == self.uart_id(),
    {
        self.uart
    }
}

impl Port {
    /// Acquire the named port from the board. Fails fatally if that port
    /// is already held elsewhere: a second driver would alias its register
    /// block.
    pub fn new(board: &mut crate::Board, name: PortName) -> (r: Result<Port, Error>)
        ensures
            r is Ok <==> old(board).port_slot(name) is Some,
            r matches Ok(p) ==> Some(p) == old(board).port_slot(name) && final(board).port_slot(name) is None,
            r is Err ==> r->Err_0 == Error::InUse && *final(board) == *old(board),
            crate::boards_agree_except(
                *old(board),
                *final(board),
                if name is B {
                    crate::Peripheral::PortB
                } else {
                    crate::Peripheral::PortC
                },
            ),
    {
        match name {
            PortName::B => match board.port_b.take() {
                Some(p) => Ok(p),
                None => Err(crate::Error::InUse),
            },
            PortName::C => match board.port_c.take() {
                Some(p) => Ok(p),
                None => Err(crate::Error::InUse),
            },
        }
    }

    /// Release the port back to the board, making it available again. Its
    /// control words and lock flags keep their state.
    pub fn release(self, board: &mut crate::Board)
        ensures
            final(board).port_slot(self.spec_name()) == Some(self),
            crate::boards_agree_except(
                *old(board),
                *final(board),
                if self.spec_name() is B {
                    crate::Peripheral::PortB
                } else {
                    crate::Peripheral::PortC
                },
            ),
    {
        match self.name {
            PortName::B => {
                board.port_b = Some(self);
            },
            PortName::C => {
                board.port_c = Some(self);
            },
        }
    }
}
} // verus!
