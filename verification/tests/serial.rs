//! The serial transceiver: validation, register programming, and the wire
//! transcript.

use kinetis_boot::port::Port;
use kinetis_boot::port::PortName;
use kinetis_boot::port::Rx;
use kinetis_boot::port::Tx;
use kinetis_boot::sim::Clock;
use kinetis_boot::sim::ClockGate;
use kinetis_boot::sim::Sim;
use kinetis_boot::uart::Uart;
use kinetis_boot::Board;
use kinetis_boot::Error;

/// Claim the serial pins of port B and the unit's clock gate.
fn serial_parts(board: &mut Board) -> (Rx, Tx, ClockGate, Sim, Port) {
    let mut sim = Sim::new(board).unwrap();
    let gate = sim.enable_clock(Clock::Uart0).unwrap();
    let mut port_b = Port::new(board, PortName::B).unwrap();
    let rx = port_b.pin(16).unwrap().make_rx(&mut port_b).unwrap();
    let tx = port_b.pin(17).unwrap().make_tx(&mut port_b).unwrap();
    (rx, tx, gate, sim, port_b)
}

#[test]
fn configuration_programs_divisors_and_enables() {
    let mut board = Board::new();
    let (rx, tx, gate, _sim, _port_b) = serial_parts(&mut board);
    let uart = Uart::new(&mut board, 0, Some(rx), Some(tx), (468, 24), gate).unwrap();
    assert_eq!(uart.read_c4() & 0x1F, 24, "the fractional divisor lands in control register 4");
    assert_eq!(uart.read_bdh(), 1, "the divisor's high bits land in the high register");
    assert_eq!(uart.read_bdl(), 212, "the divisor's low byte lands in the low register");
    assert_eq!(uart.read_c2() & 0x0C, 0x0C, "receive and transmit are both enabled");
}

#[test]
fn the_largest_legal_divisors_fit_their_fields() {
    let mut board = Board::new();
    let (rx, tx, gate, _sim, _port_b) = serial_parts(&mut board);
    let uart = Uart::new(&mut board, 0, Some(rx), Some(tx), (8191, 31), gate).unwrap();
    assert_eq!(uart.read_c4() & 0x1F, 31);
    assert_eq!(uart.read_bdh(), 0x1F);
    assert_eq!(uart.read_bdl(), 0xFF);
}

#[test]
fn enables_follow_the_supplied_capabilities() {
    let mut board = Board::new();
    let (_rx, tx, gate, _sim, _port_b) = serial_parts(&mut board);
    let uart = Uart::new(&mut board, 0, None, Some(tx), (468, 24), gate).unwrap();
    assert_eq!(uart.read_c2() & 0x04, 0, "no receive capability, no receive enable");
    assert_eq!(uart.read_c2() & 0x08, 0x08);
}

#[test]
fn wrong_unit_capabilities_and_bad_divisors_fail() {
    let mut board = Board::new();
    let (rx, tx, gate, mut sim, _port_b) = serial_parts(&mut board);
    // The pins are wired to unit 0; unit 1 must refuse them.
    assert_eq!(
        Uart::new(&mut board, 1, Some(rx), Some(tx), (468, 24), gate).unwrap_err(),
        Error::WrongUart
    );
    // An oversized divisor, then an oversized fractional divisor.
    let gate2 = sim.gate(2, 0).unwrap();
    assert_eq!(
        Uart::new(&mut board, 0, None, None, (8192, 0), gate2).unwrap_err(),
        Error::InvalidUartDivisor
    );
    let gate3 = sim.gate(2, 1).unwrap();
    assert_eq!(
        Uart::new(&mut board, 0, None, None, (0, 32), gate3).unwrap_err(),
        Error::InvalidUartDivisor
    );
    // A unit that does not exist.
    let gate4 = sim.gate(2, 2).unwrap();
    assert_eq!(
        Uart::new(&mut board, 1, None, None, (468, 24), gate4).unwrap_err(),
        Error::InvalidUartId
    );
}

#[test]
fn the_unit_itself_is_held_once() {
    let mut board = Board::new();
    let (rx, tx, gate, mut sim, _port_b) = serial_parts(&mut board);
    let uart = Uart::new(&mut board, 0, Some(rx), Some(tx), (468, 24), gate).unwrap();
    let gate2 = sim.gate(2, 3).unwrap();
    assert_eq!(
        Uart::new(&mut board, 0, None, None, (468, 24), gate2).unwrap_err(),
        Error::InUse
    );
    // Releasing the transceiver returns the register block and hands the
    // capabilities back.
    let (rx_back, tx_back, gate_back) = uart.release(&mut board);
    assert!(rx_back.is_some());
    assert!(tx_back.is_some());
    assert_eq!(gate_back.coordinate(), (0, 10));
    let gate3 = sim.gate(2, 4).unwrap();
    assert!(Uart::new(&mut board, 0, None, None, (468, 24), gate3).is_ok());
}

#[test]
fn bytes_reach_the_wire_in_order() {
    let mut board = Board::new();
    let (rx, tx, gate, _sim, _port_b) = serial_parts(&mut board);
    let mut uart = Uart::new(&mut board, 0, Some(rx), Some(tx), (468, 24), gate).unwrap();
    assert!(uart.sent().is_empty());
    uart.write_bytes(b"Hello, World");
    assert_eq!(uart.sent().as_slice(), b"Hello, World");
    uart.write_byte(b'!');
    uart.write_bytes(b"");
    assert_eq!(uart.sent().as_slice(), b"Hello, World!");
}
