use lorawan_radio::types::{Bandwidth, CodingRate, RfConfig, RxQuality, SpreadingFactor, TxConfig};

fn rf_125_sf7_cr5() -> RfConfig {
    RfConfig {
        frequency: 868_100_000,
        bandwidth: Bandwidth::_125KHz,
        spreading_factor: SpreadingFactor::_7,
        coding_rate: CodingRate::_4_5,
    }
}

#[test]
fn golden_airtime() {
    let rf = rf_125_sf7_cr5();
    assert_eq!(rf.time_on_air_us(8, true, 10), 41216);
}

#[test]
fn airtime_deterministic() {
    let rf = rf_125_sf7_cr5();
    assert_eq!(rf.time_on_air_us(8, true, 10), rf.time_on_air_us(8, true, 10));
}

#[test]
fn airtime_monotone_in_length() {
    let rf = rf_125_sf7_cr5();
    let mut previous = 0u32;
    for length in 1..64u32 {
        let t = rf.time_on_air_us(8, true, length);
        assert!(t >= previous);
        previous = t;
    }
}

#[test]
fn detection_interval_without_preamble() {
    // With no preamble the estimate is the bare payload duration:
    // 28 payload symbols of 1024 us each.
    let rf = rf_125_sf7_cr5();
    assert_eq!(rf.time_on_air_us(0, true, 10), 28672);
}

#[test]
fn airtime_implicit_header() {
    // Implicit header: 23 payload symbols; (32 + 17 + 92) * 1024 / 4.
    let rf = rf_125_sf7_cr5();
    assert_eq!(rf.time_on_air_us(8, false, 10), 36096);
}

#[test]
fn airtime_sf12_low_data_rate() {
    // SF12 enables low-data-rate optimization: symbol of 32768 us,
    // 18 payload symbols; (32 + 17 + 72) * 32768 / 4.
    let rf = RfConfig {
        frequency: 868_100_000,
        bandwidth: Bandwidth::_125KHz,
        spreading_factor: SpreadingFactor::_12,
        coding_rate: CodingRate::_4_5,
    };
    assert_eq!(rf.time_on_air_us(8, true, 10), 991232);
}

#[test]
fn airtime_longer_payload() {
    // 43 payload symbols; (32 + 17 + 172) * 1024 / 4.
    let rf = rf_125_sf7_cr5();
    assert_eq!(rf.time_on_air_us(8, true, 20), 56576);
}

#[test]
fn bandwidth_in_hz() {
    assert_eq!(Bandwidth::_7KHz.hz(), 7810);
    assert_eq!(Bandwidth::_125KHz.hz(), 125_000);
    assert_eq!(Bandwidth::_250KHz.hz(), 250_000);
    assert_eq!(Bandwidth::_500KHz.hz(), 500_000);
}

#[test]
fn spreading_factor_values() {
    assert_eq!(SpreadingFactor::_7.factor(), 7);
    assert_eq!(SpreadingFactor::_12.factor(), 12);
    assert_eq!(SpreadingFactor::_7.chips(), 128);
    assert_eq!(SpreadingFactor::_12.chips(), 4096);
}

#[test]
fn coding_rate_denominators() {
    assert_eq!(CodingRate::_4_5.denom(), 5);
    assert_eq!(CodingRate::_4_6.denom(), 6);
    assert_eq!(CodingRate::_4_7.denom(), 7);
    assert_eq!(CodingRate::_4_8.denom(), 8);
}

#[test]
fn rx_quality_accessors() {
    let q = RxQuality::new(-87, 6);
    assert_eq!(q.rssi(), -87);
    assert_eq!(q.snr(), 6);
}

#[test]
fn configs_compare_structurally() {
    let rf = rf_125_sf7_cr5();
    let tx = TxConfig { pw: 14, rf };
    assert_eq!(rf, rf_125_sf7_cr5());
    assert_eq!(tx.rf, rf);
    assert_ne!(
        rf,
        RfConfig {
            spreading_factor: SpreadingFactor::_8,
            ..rf
        }
    );
}
