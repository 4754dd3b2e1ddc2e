//! The ownership discipline: every peripheral, pin and clock gate is held
//! at most once, and becomes available again exactly on release.

use kinetis_boot::osc::Osc;
use kinetis_boot::port::Port;
use kinetis_boot::port::PortName;
use kinetis_boot::sim::Clock;
use kinetis_boot::sim::Sim;
use kinetis_boot::Board;
use kinetis_boot::Error;

#[test]
fn a_pin_is_held_once_and_freed_on_release() {
    let mut board = Board::new();
    let mut port = Port::new(&mut board, PortName::C).unwrap();
    let pin = port.pin(5).unwrap();
    assert_eq!(port.pin(5).unwrap_err(), Error::InUse);
    // Other pins stay available while pin 5 is held.
    let other = port.pin(6).unwrap();
    port.release_pin(other);
    port.release_pin(pin);
    assert!(port.pin(5).is_ok());
}

#[test]
fn a_pin_index_out_of_range_fails() {
    let mut board = Board::new();
    let mut port = Port::new(&mut board, PortName::C).unwrap();
    assert_eq!(port.pin(32).unwrap_err(), Error::InvalidIndex);
    assert_eq!(port.pin(1000).unwrap_err(), Error::InvalidIndex);
}

#[test]
fn the_oscillator_is_held_once_and_freed_on_release() {
    let mut board = Board::new();
    let osc = Osc::new(&mut board).unwrap();
    assert_eq!(Osc::new(&mut board).unwrap_err(), Error::InUse);
    osc.release(&mut board);
    assert!(Osc::new(&mut board).is_ok());
}

#[test]
fn a_port_is_held_once_and_freed_on_release() {
    let mut board = Board::new();
    let port_c = Port::new(&mut board, PortName::C).unwrap();
    assert_eq!(Port::new(&mut board, PortName::C).unwrap_err(), Error::InUse);
    // The other port is an independent resource.
    let port_b = Port::new(&mut board, PortName::B).unwrap();
    port_b.release(&mut board);
    port_c.release(&mut board);
    assert!(Port::new(&mut board, PortName::C).is_ok());
}

#[test]
fn a_clock_gate_is_held_once_and_freed_on_release() {
    let mut board = Board::new();
    let mut sim = Sim::new(&mut board).unwrap();
    let gate = sim.gate(1, 11).unwrap();
    assert_eq!(sim.gate(1, 11).unwrap_err(), Error::InUse);
    // A different bit of the same register is independent.
    let other = sim.gate(1, 10).unwrap();
    sim.release_gate(other);
    sim.release_gate(gate);
    assert!(sim.gate(1, 11).is_ok());
}

#[test]
fn named_clock_gates_follow_the_same_discipline() {
    let mut board = Board::new();
    let mut sim = Sim::new(&mut board).unwrap();
    let gate = sim.enable_clock(Clock::PortC).unwrap();
    assert_eq!(sim.enable_clock(Clock::PortC).unwrap_err(), Error::InUse);
    assert!(sim.enable_clock(Clock::PortB).is_ok());
    assert!(sim.enable_clock(Clock::Uart0).is_ok());
    sim.release_gate(gate);
    assert!(sim.enable_clock(Clock::PortC).is_ok());
}

#[test]
fn a_gate_coordinate_out_of_range_fails() {
    let mut board = Board::new();
    let mut sim = Sim::new(&mut board).unwrap();
    assert_eq!(sim.gate(4, 0).unwrap_err(), Error::InvalidIndex);
    assert_eq!(sim.gate(0, 32).unwrap_err(), Error::InvalidIndex);
}

#[test]
fn gate_bits_and_addresses_match_the_layout() {
    let mut board = Board::new();
    let mut sim = Sim::new(&mut board).unwrap();
    // Port C sits at bit 11 of the second gate register.
    let gate = sim.enable_clock(Clock::PortC).unwrap();
    assert_eq!(gate.coordinate(), (1, 11));
    assert_eq!(sim.read_scgc(1), 0x800);
    // The bit-band alias: base, plus one 128-byte register stride, plus
    // 4 bytes per bit.
    assert_eq!(gate.address(), 0x42900500 + 0x80 + 11 * 4);
    let uart_gate = sim.enable_clock(Clock::Uart0).unwrap();
    assert_eq!(uart_gate.coordinate(), (0, 10));
    assert_eq!(sim.read_scgc(0), 0x400);
    sim.release_gate(gate);
    assert_eq!(sim.read_scgc(1), 0);
}
