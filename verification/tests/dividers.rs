//! The clock divider register: field placement and validation.

use kinetis_boot::sim::Sim;
use kinetis_boot::Board;
use kinetis_boot::Error;

#[test]
fn dividers_round_trip_through_the_register() {
    let mut board = Board::new();
    let mut sim = Sim::new(&mut board).unwrap();
    sim.set_dividers(1, 2, 3).unwrap();
    let word: u32 = sim.read_clkdiv1();
    assert_eq!((word >> 28) & 0xF, 0, "core ratio 1 is stored as 0");
    assert_eq!((word >> 24) & 0xF, 1, "bus ratio 2 is stored as 1");
    assert_eq!((word >> 16) & 0xF, 2, "flash ratio 3 is stored as 2");
}

#[test]
fn extreme_legal_dividers_fit_their_fields() {
    let mut board = Board::new();
    let mut sim = Sim::new(&mut board).unwrap();
    sim.set_dividers(16, 16, 16).unwrap();
    let word: u32 = sim.read_clkdiv1();
    assert_eq!((word >> 28) & 0xF, 15);
    assert_eq!((word >> 24) & 0xF, 15);
    assert_eq!((word >> 16) & 0xF, 15);
    // Rewriting replaces the fields, not accumulates them.
    sim.set_dividers(1, 1, 1).unwrap();
    assert_eq!(sim.read_clkdiv1(), 0);
}

#[test]
fn oversized_or_zero_dividers_fail_before_any_write() {
    let mut board = Board::new();
    let mut sim = Sim::new(&mut board).unwrap();
    assert_eq!(sim.set_dividers(0, 2, 3).unwrap_err(), Error::InvalidDivider);
    assert_eq!(sim.set_dividers(1, 0, 3).unwrap_err(), Error::InvalidDivider);
    assert_eq!(sim.set_dividers(1, 2, 0).unwrap_err(), Error::InvalidDivider);
    assert_eq!(sim.set_dividers(17, 2, 3).unwrap_err(), Error::InvalidDivider);
    assert_eq!(sim.set_dividers(1, 17, 3).unwrap_err(), Error::InvalidDivider);
    assert_eq!(sim.set_dividers(1, 2, 17).unwrap_err(), Error::InvalidDivider);
    assert_eq!(sim.read_clkdiv1(), 0, "a refused call leaves the register untouched");
}
