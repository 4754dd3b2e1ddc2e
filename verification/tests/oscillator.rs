//! The oscillator controller: capacitance validation and the emitted
//! control byte.

use kinetis_boot::osc::Osc;
use kinetis_boot::Board;
use kinetis_boot::Error;

#[test]
fn every_even_capacitance_up_to_30_succeeds_with_enable_bit() {
    let mut cap: u8 = 0;
    while cap <= 30 {
        let mut board = Board::new();
        let mut osc = Osc::new(&mut board).unwrap();
        assert!(osc.enable(cap).is_ok(), "capacitance {} should be accepted", cap);
        let cr: u8 = osc.read_cr();
        assert_eq!(cr & 0x80, 0x80, "enable bit must be set for capacitance {}", cap);
        cap += 2;
    }
}

#[test]
fn odd_or_oversized_capacitance_fails() {
    let mut board = Board::new();
    let mut osc = Osc::new(&mut board).unwrap();
    let mut cap: u8 = 1;
    while cap <= 29 {
        assert_eq!(osc.enable(cap).unwrap_err(), Error::InvalidCapacitance);
        cap += 2;
    }
    assert_eq!(osc.enable(31).unwrap_err(), Error::InvalidCapacitance);
    assert_eq!(osc.enable(32).unwrap_err(), Error::InvalidCapacitance);
    assert_eq!(osc.enable(255).unwrap_err(), Error::InvalidCapacitance);
    // A refused value leaves the control register untouched.
    assert_eq!(osc.read_cr(), 0);
}

#[test]
fn capacitance_bits_are_reversed_into_the_control_byte() {
    // 10 pF = 0b01010: logical bits 1 and 3 map to control bits 3 and 1.
    let mut board = Board::new();
    let mut osc = Osc::new(&mut board).unwrap();
    osc.enable(10).unwrap();
    assert_eq!(osc.read_cr(), 0x8A);

    // 30 pF = 0b11110: all four select bits set.
    let mut board2 = Board::new();
    let mut osc2 = Osc::new(&mut board2).unwrap();
    osc2.enable(30).unwrap();
    assert_eq!(osc2.read_cr(), 0x8F);

    // 0 pF: only the enable bit.
    let mut board3 = Board::new();
    let mut osc3 = Osc::new(&mut board3).unwrap();
    osc3.enable(0).unwrap();
    assert_eq!(osc3.read_cr(), 0x80);
}
