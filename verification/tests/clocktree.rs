//! The clock-generator state machine: divisor tables, PLL ratios, mode
//! classification and the end-to-end boot sequence.

use kinetis_boot::mcg::Clock;
use kinetis_boot::mcg::Fbe;
use kinetis_boot::mcg::Fei;
use kinetis_boot::mcg::Mcg;
use kinetis_boot::mcg::OscRange;
use kinetis_boot::osc::Osc;
use kinetis_boot::Board;
use kinetis_boot::Error;

/// Bring a fresh board's clock generator into internal-reference mode with
/// the crystal enabled in the given band.
fn fei_with_xtal(range: OscRange) -> Fei {
    let mut board = Board::new();
    let mut osc = Osc::new(&mut board).unwrap();
    let token = osc.enable(10).unwrap();
    let mcg = Mcg::new(&mut board).unwrap();
    let mut fei = match mcg.clock() {
        Ok(Clock::Fei(fei)) => fei,
        _ => panic!("a board out of reset must report internal-reference mode"),
    };
    fei.enable_xtal(range, token);
    fei
}

/// Bring a fresh board into external-reference mode.
fn fbe_with(range: OscRange, divide: u32) -> Fbe {
    fei_with_xtal(range).use_external(divide).unwrap()
}

#[test]
fn reset_state_reports_internal_reference_mode() {
    let mut board = Board::new();
    let mcg = Mcg::new(&mut board).unwrap();
    assert!(matches!(mcg.clock(), Ok(Clock::Fei(_))));
}

#[test]
fn low_range_divisor_table_maps_to_documented_indexes() {
    let table: [(u32, u8); 8] = [
        (1, 0),
        (2, 1),
        (4, 2),
        (8, 3),
        (16, 4),
        (32, 5),
        (64, 6),
        (128, 7),
    ];
    for (divide, index) in table {
        let fbe = fbe_with(OscRange::Low, divide);
        let c1: u8 = fbe.inner().read_c1();
        assert_eq!((c1 >> 3) & 7, index, "divisor {} must map to index {}", divide, index);
        assert_eq!((c1 >> 6) & 3, 2, "source select must read external");
        assert_eq!(c1 & 4, 0, "internal reference must be deselected");
    }
}

#[test]
fn high_range_divisor_table_maps_to_documented_indexes() {
    let table: [(u32, u8); 8] = [
        (32, 0),
        (64, 1),
        (128, 2),
        (256, 3),
        (512, 4),
        (1024, 5),
        (1280, 6),
        (1536, 7),
    ];
    for (divide, index) in table {
        for range in [OscRange::High, OscRange::VeryHigh] {
            let fbe = fbe_with(range, divide);
            let c1: u8 = fbe.inner().read_c1();
            assert_eq!((c1 >> 3) & 7, index, "divisor {} must map to index {}", divide, index);
        }
    }
}

#[test]
fn out_of_table_divisors_fail() {
    for divide in [0u32, 3, 5, 7, 9, 256, 512, 1536, 2048] {
        let fei = fei_with_xtal(OscRange::Low);
        assert_eq!(fei.use_external(divide).unwrap_err(), Error::InvalidDivisor);
    }
    for divide in [0u32, 1, 2, 4, 8, 16, 96, 768, 2048] {
        let fei = fei_with_xtal(OscRange::VeryHigh);
        assert_eq!(fei.use_external(divide).unwrap_err(), Error::InvalidDivisor);
    }
}

#[test]
fn every_legal_pll_ratio_writes_its_fields() {
    let mut numerator: u8 = 24;
    while numerator <= 55 {
        let mut denominator: u8 = 1;
        while denominator <= 25 {
            let fbe = fbe_with(OscRange::VeryHigh, 512);
            let pbe = fbe.enable_pll(numerator, denominator).unwrap();
            let c6: u8 = pbe.inner().read_c6();
            let c5: u8 = pbe.inner().read_c5();
            assert_eq!(c6 & 0x3F, numerator - 24);
            assert_eq!(c6 & 0x40, 0x40, "the PLL enable bit must be set");
            assert_eq!(c5 & 0x1F, denominator - 1);
            denominator += 1;
        }
        numerator += 1;
    }
}

#[test]
fn out_of_range_pll_ratios_fail() {
    for (numerator, denominator, expected) in [
        (23u8, 6u8, Error::InvalidPllNumerator),
        (0, 6, Error::InvalidPllNumerator),
        (56, 6, Error::InvalidPllNumerator),
        (255, 6, Error::InvalidPllNumerator),
        (27, 0, Error::InvalidPllDenominator),
        (27, 26, Error::InvalidPllDenominator),
        (27, 255, Error::InvalidPllDenominator),
    ] {
        let fbe = fbe_with(OscRange::VeryHigh, 512);
        assert_eq!(fbe.enable_pll(numerator, denominator).unwrap_err(), expected);
    }
}

#[test]
fn boot_sequence_ends_with_pll_selected() {
    // From reset: enable the crystal with 10 pF, divide the very-fast
    // crystal by 512, multiply 27/6, then move the core clock onto the PLL.
    let mut board = Board::new();
    let mut osc = Osc::new(&mut board).unwrap();
    let token = osc.enable(10).unwrap();
    let mcg = Mcg::new(&mut board).unwrap();
    let fei = match mcg.clock() {
        Ok(Clock::Fei(mut fei)) => {
            fei.enable_xtal(OscRange::VeryHigh, token);
            fei
        }
        _ => panic!("the clock was not in internal-reference mode"),
    };
    let fbe = fei.use_external(512).unwrap();
    let pbe = fbe.enable_pll(27, 6).unwrap();
    let mcg = pbe.use_pll();
    let status: u8 = mcg.read_status();
    assert_eq!((status >> 2) & 3, 3, "the source-select status must read the PLL encoding");
    // The full status byte: oscillator initialized, source select 3,
    // external reference, PLL selected and locked.
    assert_eq!(status, 0x6E);
}

#[test]
fn classification_tracks_each_transition() {
    let fbe = fbe_with(OscRange::VeryHigh, 512);
    // External-reference mode classifies as such when re-examined.
    let c1: u8 = fbe.inner().read_c1();
    assert_eq!((c1 >> 6) & 3, 2);
    let pbe = fbe.enable_pll(27, 6).unwrap();
    let done = pbe.use_pll();
    // With the PLL selected through source select 0, the state matches no
    // known mode value: classification reports the fatal mismatch.
    assert_eq!(done.clock().unwrap_err(), Error::UnknownClockMode);
}
