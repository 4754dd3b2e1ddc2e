//! Pin function multiplexing, GPIO, and the watchdog boundary.

use kinetis_boot::port::Port;
use kinetis_boot::port::PortName;
use kinetis_boot::watchdog::Watchdog;
use kinetis_boot::Board;
use kinetis_boot::Error;

#[test]
fn gpio_routing_writes_function_select_one() {
    let mut board = Board::new();
    let mut port = Port::new(&mut board, PortName::C).unwrap();
    let pin = port.pin(5).unwrap();
    let mut gpio = pin.make_gpio(&mut port);
    assert_eq!((port.read_pcr(5) >> 8) & 7, 1);
    assert_eq!(gpio.read_direction(), 0);
    assert_eq!(gpio.read_data(), 0);
    gpio.output();
    gpio.high();
    assert_eq!(gpio.read_direction(), 1);
    assert_eq!(gpio.read_data(), 1);
    // Releasing the GPIO frees the pin; the control word keeps its mux.
    port.release_gpio(gpio);
    assert!(port.pin(5).is_ok());
    assert_eq!((port.read_pcr(5) >> 8) & 7, 1);
}

#[test]
fn pin_mode_rewrites_only_the_mux_field() {
    let mut board = Board::new();
    let mut port = Port::new(&mut board, PortName::C).unwrap();
    port.set_pin_mode(7, 3);
    assert_eq!(port.read_pcr(7), 3 << 8);
    assert_eq!(port.read_pcr(6), 0);
    port.set_pin_mode(7, 1);
    assert_eq!(port.read_pcr(7), 1 << 8);
}

#[test]
fn only_the_wired_pins_become_serial_lines() {
    let mut board = Board::new();
    let mut port_b = Port::new(&mut board, PortName::B).unwrap();
    let rx_pin = port_b.pin(16).unwrap();
    let rx = rx_pin.make_rx(&mut port_b).unwrap();
    assert_eq!(rx.uart(), 0);
    assert_eq!((port_b.read_pcr(16) >> 8) & 7, 3, "serial lines use the alternate function");
    let tx_pin = port_b.pin(17).unwrap();
    let tx = tx_pin.make_tx(&mut port_b).unwrap();
    assert_eq!(tx.uart(), 0);
    // The wrong pin on the right port, and pins of the wrong port, fail.
    let wrong = port_b.pin(15).unwrap();
    assert_eq!(wrong.make_rx(&mut port_b).unwrap_err(), Error::WrongPin);
    let swapped = port_b.pin(16).unwrap_err();
    assert_eq!(swapped, Error::InUse);
    let mut port_c = Port::new(&mut board, PortName::C).unwrap();
    let c_pin = port_c.pin(16).unwrap();
    assert_eq!(c_pin.make_rx(&mut port_c).unwrap_err(), Error::WrongPin);
    let c_pin2 = port_c.pin(17).unwrap();
    assert_eq!(c_pin2.make_tx(&mut port_c).unwrap_err(), Error::WrongPin);
    // Releasing the serial capabilities frees their pins.
    port_b.release_rx(rx);
    port_b.release_tx(tx);
    assert!(port_b.pin(16).is_ok());
    assert!(port_b.pin(17).is_ok());
}

#[test]
fn port_names_read_back() {
    let mut board = Board::new();
    let port_b = Port::new(&mut board, PortName::B).unwrap();
    let port_c = Port::new(&mut board, PortName::C).unwrap();
    assert_eq!(port_b.name(), PortName::B);
    assert_eq!(port_c.name(), PortName::C);
}

#[test]
fn watchdog_disable_unlocks_then_clears_the_enable_bit() {
    let mut board = Board::new();
    let mut wdog = Watchdog::new(&mut board).unwrap();
    assert_eq!(wdog.read_control() & 1, 1, "the watchdog is enabled out of reset");
    wdog.disable();
    assert_eq!(wdog.read_control() & 1, 0);
    assert_eq!(wdog.read_unlock(), 0xD928, "the unlock sequence ends with its second word");
    // The watchdog singleton follows the same ownership discipline.
    assert_eq!(Watchdog::new(&mut board).unwrap_err(), Error::InUse);
    wdog.release(&mut board);
    assert!(Watchdog::new(&mut board).is_ok());
}
