use blind_controller::system_time::{ClockConfig, SystemTime};

#[test]
fn fresh_clock_is_unconfigured() {
    let t = SystemTime::new();
    assert_eq!(t.get_boot_time_us(), 0);
    assert!(!t.configured());
    assert!(!t.ntp_synchronized());
    assert_eq!(t.offset(), 0);
    assert_eq!(t.calibration(), 0);
    assert_eq!(ClockConfig::new(), t.config);
}

#[test]
fn configure_stores_offset_and_calibration() {
    let mut t = SystemTime::new();
    t.configure(7200, 0x0019_F2A3);
    assert!(t.configured());
    assert_eq!(t.offset(), 7200);
    assert_eq!(t.calibration(), 0x0019_F2A3);
    t.set_ntp_synchronized(true);
    assert!(t.ntp_synchronized());
    t.set_offset(-3600);
    assert_eq!(t.offset(), -3600);
}

#[test]
fn get_time_is_boot_plus_rtc_without_wrap() {
    let mut t = SystemTime::new();
    t.set_time_us(1_000_000, 250);
    assert_eq!(t.get_boot_time_us(), 999_750);
    assert_eq!(t.get_time_us(250), 1_000_000);
    assert_eq!(t.get_time_us(1_250), 1_001_000);
}

#[test]
fn set_time_behind_rtc_wraps_through_max() {
    let mut t = SystemTime::new();
    t.set_time_us(100, 1_000);
    assert_eq!(t.get_boot_time_us(), u64::MAX - 1_000 + 100);
    assert_eq!(t.get_time_us(1_000), 100);
    assert_eq!(t.get_time_us(2_000), 1_100);
}

#[test]
fn update_boot_keeps_the_clock_reading() {
    let mut t = SystemTime::new();
    t.set_time_us(5_000_000, 400);
    let before = t.get_time_us(400);
    t.update_boot(400);
    assert_eq!(t.get_time_us(400), before);
    assert_eq!(t.get_boot_time_us(), 5_000_000 - 400);
}

#[test]
fn calibrated_us_drops_nineteen_fraction_bits() {
    let mut t = SystemTime::new();
    t.configure(0, 1);
    assert_eq!(t.get_rtc_time_cal_us(1 << 19), 1);
    assert_eq!(t.get_rtc_time_cal_us((1 << 19) - 1), 0);
    t.configure(0, 5);
    assert_eq!(t.get_rtc_time_cal_us(3 << 19), 15);
    assert_eq!(t.get_rtc_time_us(3 << 19), 15);
}

#[test]
fn calibrated_us_splits_high_ticks_without_overflow() {
    let mut t = SystemTime::new();
    let cal: u64 = (1 << 24) - 1;
    t.configure(0, cal as u32);
    let ticks: u64 = (1 << 48) - 1;
    let expected = ((ticks as u128 * cal as u128) >> 19) as u64;
    assert_eq!(t.get_rtc_time_cal_us(ticks), expected);
    let ticks: u64 = 1 << 32;
    t.configure(0, 1 << 20);
    assert_eq!(t.get_rtc_time_cal_us(ticks), 1 << 33);
}
