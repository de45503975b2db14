//! Wall-clock arithmetic over the RTC: the boot-time registers hold the
//! difference between wall-clock time and the time-since-boot counter, with a
//! deliberate wrap around `u64::MAX`, and the raw RTC tick counter is scaled
//! to microseconds by a 13.19 fixed-point calibration factor. The hardware
//! register and counter reads themselves happen outside this crate; every
//! function here takes those readings as plain values.

use vstd::prelude::*;
use vstd::arithmetic::div_mod::{lemma_fundamental_div_mod, lemma_fundamental_div_mod_converse};
use vstd::arithmetic::power2::{lemma2_to64, pow2};
use vstd::bits::{
    lemma_u64_low_bits_mask_is_mod, lemma_u64_shl_is_mul, lemma_u64_shr_is_div,
    lemma_low_bits_mask_values,
};

verus! {

/// Number of fractional bits in the RTC calibration factor.
pub const CAL_FRACT: u64 = 19;

/// The clock configuration the firmware keeps in RTC fast memory so it
/// survives deep sleep: held here as an explicit value owned by the caller.
#[derive(Debug, Clone, Copy, PartialEq, Eq, Structural)]
pub struct ClockConfig {
    pub configured: bool,
    pub offset_seconds: i32,
    pub calibration: u64,
    pub ntp_synchronized: bool,
}

impl ClockConfig {
    /// The configuration a device boots with before anyone configures it.
    pub fn new() -> (r: Self)
        ensures
            r == (ClockConfig {
                configured: false,
                offset_seconds: 0,
                calibration: 0,
                ntp_synchronized: false,
            }),
    {
        ClockConfig { configured: false, offset_seconds: 0, calibration: 0, ntp_synchronized: false }
    }
}

/// Wall-clock time derived from the boot-time value and the time since boot,
/// wrapping around `u64::MAX` the way the boot-time encoding calls for.
pub open spec fn spec_time_from_boot(boot_time_us: u64, rtc_time_us: u64) -> u64 {
    if boot_time_us + rtc_time_us <= u64::MAX {
        (boot_time_us + rtc_time_us) as u64
    } else {
        (boot_time_us + rtc_time_us - u64::MAX) as u64
    }
}

/// The boot-time value that makes the clock read `time_us` when the
/// time-since-boot counter reads `rtc_time_us`.
pub open spec fn spec_boot_for_time(time_us: u64, rtc_time_us: u64) -> u64 {
    if time_us >= rtc_time_us {
        (time_us - rtc_time_us) as u64
    } else {
        (u64::MAX - rtc_time_us + time_us) as u64
    }
}

/// Microseconds that `ticks` of the slow RTC clock represent under the
/// 13.19 fixed-point calibration factor `cal`.
pub open spec fn spec_calibrated_us(ticks: u64, cal: u64) -> int {
    (ticks * cal) / 0x80000
}

/// The system clock: the boot-time registers and the persistent clock
/// configuration, as plain owned values.
#[derive(Debug, Clone, Copy, PartialEq, Eq, Structural)]
pub struct SystemTime {
    /// What the two boot-time RTC store registers hold, as one value.
    pub boot_time_us: u64,
    pub config: ClockConfig,
}

impl SystemTime {
    /// The clock as a freshly powered device has it.
    pub fn new() -> (r: Self)
        ensures
            r.boot_time_us == 0,
            r.config == (ClockConfig {
                configured: false,
                offset_seconds: 0,
                calibration: 0,
                ntp_synchronized: false,
            }),
    {
        SystemTime { boot_time_us: 0, config: ClockConfig::new() }
    }

    /// The current value of the boot time registers in microseconds.
    pub fn get_boot_time_us(&self) -> (r: u64)
        ensures
            r == self.boot_time_us,
    {
        self.boot_time_us
    }

    fn set_boot_time_us(&mut self, boot_time_us: u64)
        ensures
            *final(self) == (SystemTime { boot_time_us, ..*old(self) }),
    {
        self.boot_time_us = boot_time_us;
    }

    /// Store the clock offset and remember the calibration the RTC reported,
    /// marking the clock configured.
    pub fn configure(&mut self, offset_seconds: i32, cal_val: u32)
        requires
            -93599 <= offset_seconds <= 93599,
        ensures
            final(self).boot_time_us == old(self).boot_time_us,
            final(self).config == (ClockConfig {
                configured: true,
                offset_seconds,
                calibration: cal_val as u64,
                ntp_synchronized: old(self).config.ntp_synchronized,
            }),
    {
        self.set_offset(offset_seconds);
        self.config.calibration = cal_val as u64;
        self.config.configured = true;
    }

    /// The stored calibration factor.
    pub fn calibration(&self) -> (r: u64)
        ensures
            r == self.config.calibration,
    {
        self.config.calibration
    }

    /// The stored clock offset in whole seconds.
    pub fn offset(&self) -> (r: i32)
        ensures
            r == self.config.offset_seconds,
    {
        self.config.offset_seconds
    }

    /// Store the clock offset in whole seconds; an offset is representable
    /// up to one second short of twenty-six hours in either direction.
    pub fn set_offset(&mut self, offset_seconds: i32)
        requires
            -93599 <= offset_seconds <= 93599,
        ensures
            *final(self) == (SystemTime {
                config: ClockConfig { offset_seconds, ..old(self).config },
                ..*old(self)
            }),
    {
        self.config.offset_seconds = offset_seconds;
    }

    pub fn ntp_synchronized(&self) -> (r: bool)
        ensures
            r == self.config.ntp_synchronized,
    {
        self.config.ntp_synchronized
    }

    pub fn set_ntp_synchronized(&mut self, ntp_synchronized: bool)
        ensures
            *final(self) == (SystemTime {
                config: ClockConfig { ntp_synchronized, ..old(self).config },
                ..*old(self)
            }),
    {
        self.config.ntp_synchronized = ntp_synchronized;
    }

    pub fn configured(&self) -> (r: bool)
        ensures
            r == self.config.configured,
    {
        self.config.configured
    }

    /// Time since boot in microseconds, from a raw reading of the RTC tick
    /// counter.
    pub fn get_rtc_time_us(&self, ticks: u64) -> (r: u64)
        requires
            self.config.calibration < 0x1000000,
            ticks < 0x1000000000000,
        ensures
            r == spec_calibrated_us(ticks, self.config.calibration),
    {
        self.get_rtc_time_cal_us(ticks)
    }

    /// Set the wall clock: current time is boot time plus time since boot,
    /// so the new boot time is the given time minus the time since boot,
    /// wrapping around `u64::MAX` when the clock is set to a value behind
    /// the time-since-boot counter.
    pub fn set_time_us(&mut self, time_us: u64, rtc_time_us: u64)
        ensures
            final(self).boot_time_us == spec_boot_for_time(time_us, rtc_time_us),
            final(self).config == old(self).config,
    {
        if time_us < rtc_time_us {
            self.set_boot_time_us(u64::MAX - rtc_time_us + time_us)
        } else {
            self.set_boot_time_us(time_us - rtc_time_us)
        }
    }

    /// Re-anchor the boot time to the current wall-clock reading, leaving
    /// the clock showing the same time.
    pub fn update_boot(&mut self, rtc_time_us: u64)
        ensures
            final(self).boot_time_us == spec_boot_for_time(
                spec_time_from_boot(old(self).boot_time_us, rtc_time_us),
                rtc_time_us,
            ),
            final(self).config == old(self).config,
    {
        let now = self.get_time_us(rtc_time_us);
        self.set_time_us(now, rtc_time_us);
    }

    /// The current wall-clock time in microseconds: boot time plus time
    /// since boot, undoing the wrap around `u64::MAX` if the boot time was
    /// stored wrapped.
    pub fn get_time_us(&self, rtc_time_us: u64) -> (r: u64)
        ensures
            r == spec_time_from_boot(self.boot_time_us, rtc_time_us),
    {
        let boot_time_us = self.get_boot_time_us();
        let wrapped_boot_time_us = u64::MAX - boot_time_us;
        if rtc_time_us > wrapped_boot_time_us {
            rtc_time_us - wrapped_boot_time_us
        } else {
            boot_time_us + rtc_time_us
        }
    }

    /// Time since boot in microseconds from raw RTC ticks: `ticks` times the
    /// calibration factor, dropping its 19 fractional bits. The
    /// multiplication is split into the low and high halves of `ticks` so
    /// that, with the counter at most 48 bits and the factor at most 24,
    /// neither partial product can overflow 64 bits.
    pub fn get_rtc_time_cal_us(&self, ticks: u64) -> (r: u64)
        requires
            self.config.calibration < 0x1000000,
            ticks < 0x1000000000000,
        ensures
            r == spec_calibrated_us(ticks, self.config.calibration),
    {
        let cal = self.calibration();
        let ticks_low = ticks & (u32::MAX as u64);
        let ticks_high = ticks >> 32;
        proof {
            lemma2_to64();
            lemma_low_bits_mask_values();
            lemma_u64_low_bits_mask_is_mod(ticks, 32);
            lemma_u64_shr_is_div(ticks, 32);
            lemma_fundamental_div_mod(ticks as int, 0x100000000);
            assert(ticks == ticks_high * 0x100000000 + ticks_low);
            assert(ticks_high < 0x10000);
            assert(ticks_low * cal < 0x100000000000000) by (nonlinear_arith)
                requires
                    ticks_low < 0x100000000,
                    cal < 0x1000000,
            ;
            assert(ticks_high * cal < 0x10000000000) by (nonlinear_arith)
                requires
                    ticks_high < 0x10000,
                    cal < 0x1000000,
            ;
        }
        let low_product = ticks_low * cal;
        let high_product = ticks_high * cal;
        let low_part = low_product >> CAL_FRACT;
        let high_part = high_product << (32 - CAL_FRACT);
        proof {
            lemma_u64_shr_is_div(low_product, CAL_FRACT);
            lemma_u64_shl_is_mul(high_product, (32 - CAL_FRACT) as u64);
            assert(low_part == low_product / 0x80000);
            assert(high_part == high_product * 0x2000);
            assert(low_part <= low_product);
            lemma_fundamental_div_mod(low_product as int, 0x80000);
            assert(ticks * cal == (ticks_high * 0x100000000 + ticks_low) * cal);
            assert((ticks_high * 0x100000000 + ticks_low) * cal == high_product * 0x100000000
                + low_product) by (nonlinear_arith)
                requires
                    high_product == ticks_high * cal,
                    low_product == ticks_low * cal,
            ;
            assert(high_product * 0x100000000 == (high_product * 0x2000) * 0x80000)
                by (nonlinear_arith);
            assert(ticks * cal == (high_part + low_product / 0x80000) * 0x80000 + (low_product
                % 0x80000)) by (nonlinear_arith)
                requires
                    ticks * cal == high_part * 0x80000 + low_product,
                    low_product == 0x80000 * (low_product / 0x80000) + low_product % 0x80000,
            ;
            lemma_fundamental_div_mod_converse(
                ticks * cal,
                0x80000,
                high_part + low_product / 0x80000,
                (low_product % 0x80000) as int,
            );
        }
        low_part + high_part
    }
}

/// Setting the clock and reading it back at the same time-since-boot reading
/// returns the time that was set, for any positive time (at time zero with a
/// running counter the wrap encoding reads back `u64::MAX` instead).
pub proof fn lemma_time_roundtrip(time_us: u64, rtc_time_us: u64)
    requires
        time_us > 0 || rtc_time_us == 0,
    ensures
        spec_time_from_boot(spec_boot_for_time(time_us, rtc_time_us), rtc_time_us) == time_us,
{
}

} // verus!
