use vstd::prelude::*;

verus! {

/// Channel width of a LoRa transmission, one of the fixed set of widths
/// the modulation supports. `hz` gives the exact width in Hz.
#[derive(Debug, Clone, Copy, PartialEq, Eq, Structural)]
pub enum Bandwidth {
    _7KHz,
    _10KHz,
    _15KHz,
    _20KHz,
    _31KHz,
    _41KHz,
    _62KHz,
    _125KHz,
    _250KHz,
    _500KHz,
}

impl Bandwidth {
    pub open spec fn spec_hz(self) -> u32 {
        match self {
            Bandwidth::_7KHz => 7810u32,
            Bandwidth::_10KHz => 10420u32,
            Bandwidth::_15KHz => 15630u32,
            Bandwidth::_20KHz => 20830u32,
            Bandwidth::_31KHz => 31250u32,
            Bandwidth::_41KHz => 41670u32,
            Bandwidth::_62KHz => 62500u32,
            Bandwidth::_125KHz => 125000u32,
            Bandwidth::_250KHz => 250000u32,
            Bandwidth::_500KHz => 500000u32,
        }
    }

    /// Exact channel width in Hz.
    pub fn hz(self) -> (r: u32)
        ensures
            r == self.spec_hz(),
    {
        match self {
            Bandwidth::_7KHz => 7810,
            Bandwidth::_10KHz => 10420,
            Bandwidth::_15KHz => 15630,
            Bandwidth::_20KHz => 20830,
            Bandwidth::_31KHz => 31250,
            Bandwidth::_41KHz => 41670,
            Bandwidth::_62KHz => 62500,
            Bandwidth::_125KHz => 125000,
            Bandwidth::_250KHz => 250000,
            Bandwidth::_500KHz => 500000,
        }
    }
}

/// LoRa spreading factor: trades symbol duration against range.
/// Each step up doubles the symbol duration.
#[derive(Debug, Clone, Copy, PartialEq, Eq, Structural)]
pub enum SpreadingFactor {
    _7,
    _8,
    _9,
    _10,
    _11,
    _12,
}

impl SpreadingFactor {
    pub open spec fn spec_factor(self) -> u32 {
        match self {
            SpreadingFactor::_7 => 7u32,
            SpreadingFactor::_8 => 8u32,
            SpreadingFactor::_9 => 9u32,
            SpreadingFactor::_10 => 10u32,
            SpreadingFactor::_11 => 11u32,
            SpreadingFactor::_12 => 12u32,
        }
    }

    /// Chips per symbol: two to the power of the spreading factor.
    pub open spec fn spec_chips(self) -> u32 {
        match self {
            SpreadingFactor::_7 => 128u32,
            SpreadingFactor::_8 => 256u32,
            SpreadingFactor::_9 => 512u32,
            SpreadingFactor::_10 => 1024u32,
            SpreadingFactor::_11 => 2048u32,
            SpreadingFactor::_12 => 4096u32,
        }
    }

    /// The spreading factor as a number (7 through 12).
    pub fn factor(self) -> (r: u32)
        ensures
            r == self.spec_factor(),
    {
        match self {
            SpreadingFactor::_7 => 7,
            SpreadingFactor::_8 => 8,
            SpreadingFactor::_9 => 9,
            SpreadingFactor::_10 => 10,
            SpreadingFactor::_11 => 11,
            SpreadingFactor::_12 => 12,
        }
    }

    /// Chips per symbol (`2^factor`).
    pub fn chips(self) -> (r: u32)
        ensures
            r == self.spec_chips(),
    {
        match self {
            SpreadingFactor::_7 => 128,
            SpreadingFactor::_8 => 256,
            SpreadingFactor::_9 => 512,
            SpreadingFactor::_10 => 1024,
            SpreadingFactor::_11 => 2048,
            SpreadingFactor::_12 => 4096,
        }
    }
}

/// Forward-error-correction rate 4/denom applied to a LoRa payload.
#[derive(Debug, Clone, Copy, PartialEq, Eq, Structural)]
pub enum CodingRate {
    _4_5,
    _4_6,
    _4_7,
    _4_8,
}

impl CodingRate {
    pub open spec fn spec_denom(self) -> u32 {
        match self {
            CodingRate::_4_5 => 5u32,
            CodingRate::_4_6 => 6u32,
            CodingRate::_4_7 => 7u32,
            CodingRate::_4_8 => 8u32,
        }
    }

    /// Denominator of the coding rate.
    pub fn denom(&self) -> (r: u32)
        ensures
            r == self.spec_denom(),
    {
        match self {
            CodingRate::_4_5 => 5,
            CodingRate::_4_6 => 6,
            CodingRate::_4_7 => 7,
            CodingRate::_4_8 => 8,
        }
    }
}

/// Mathematical ceiling of `a / b` for positive `b` (`/` on `int` rounds down).
pub open spec fn ceil_div(a: int, b: int) -> int {
    (a + b - 1) / b
}

/// Radio-frequency parameters of one transmission or receive window.
#[derive(Debug, Clone, Copy, PartialEq, Eq, Structural)]
pub struct RfConfig {
    pub frequency: u32,
    pub bandwidth: Bandwidth,
    pub spreading_factor: SpreadingFactor,
    pub coding_rate: CodingRate,
}

impl RfConfig {
    /// Duration of one symbol in microseconds: `2^SF * 1000 / bandwidthKHz`.
    pub open spec fn spec_t_sym_us(self) -> int {
        self.spreading_factor.spec_chips() * 1000 / (self.bandwidth.spec_hz() as int / 1000)
    }

    /// Number of payload symbols for a frame of `length` bytes. The
    /// coding-rate-scaled ratio is clamped to zero after the multiplication,
    /// not before the division.
    pub open spec fn spec_payload_symbols(self, explicit_header: bool, length: u32) -> int {
        let sf = self.spreading_factor.spec_factor() as int;
        let de: int = if sf >= 11 {
            1
        } else {
            0
        };
        let h: int = if explicit_header {
            0
        } else {
            1
        };
        let numerator = 8 * length - 4 * sf + 28 + 16 - 20 * h;
        let denominator = 4 * (sf - 2 * de);
        let scaled = ceil_div(numerator, denominator) * self.coding_rate.spec_denom();
        8 + (if scaled > 0 {
            scaled
        } else {
            0
        })
    }

    /// Time on air in microseconds. With `preamble == 0` this is the bare
    /// payload duration (used to size detection intervals); otherwise the
    /// full preamble-plus-payload airtime.
    pub open spec fn spec_time_on_air_us(
        self,
        preamble: u32,
        explicit_header: bool,
        length: u32,
    ) -> int {
        let t_sym = self.spec_t_sym_us();
        let n = self.spec_payload_symbols(explicit_header, length);
        if preamble == 0 {
            t_sym * n
        } else {
            (4 * preamble + 17 + 4 * n) * t_sym / 4
        }
    }

    /// Estimates how long a frame of `length` bytes occupies the channel,
    /// in microseconds.
    pub fn time_on_air_us(&self, preamble: u32, explicit_header: bool, length: u32) -> (r: u32)
        requires
            self.spec_time_on_air_us(preamble, explicit_header, length) <= u32::MAX,
        ensures
            r == self.spec_time_on_air_us(preamble, explicit_header, length),
    {
        let bw_khz: u32 = self.bandwidth.hz() / 1000;
        assert(7 <= bw_khz <= 500);
        let chips = self.spreading_factor.chips();
        let t_sym_us: u128 = (chips as u128) * 1000 / (bw_khz as u128);
        proof {
            vstd::arithmetic::div_mod::lemma_div_nonincreasing(chips * 1000, bw_khz as int);
        }
        assert(t_sym_us <= 4096000);

        let sf = self.spreading_factor.factor();
        let cr = self.coding_rate.denom();
        let de: u32 = if sf >= 11 {
            1
        } else {
            0
        };
        let h: u32 = if explicit_header {
            0
        } else {
            1
        };
        let denominator: u128 = 4 * ((sf as u128) - 2 * (de as u128));
        assert(28 <= denominator <= 40);
        let add_part: u128 = 8 * (length as u128) + 28 + 16;
        let sub_part: u128 = 4 * (sf as u128) + 20 * (h as u128);
        let ghost numerator: int = 8 * length - 4 * self.spreading_factor.spec_factor() + 28 + 16
            - 20 * (h as int);
        assert(numerator == add_part - sub_part);

        let ratio: u128 = if add_part <= sub_part {
            proof {
                vstd::arithmetic::div_mod::lemma_basic_div(
                    numerator + denominator - 1,
                    denominator as int,
                );
            }
            0
        } else {
            proof {
                vstd::arithmetic::div_mod::lemma_div_plus_one(numerator - 1, denominator as int);
                vstd::arithmetic::div_mod::lemma_div_nonincreasing(
                    numerator - 1,
                    denominator as int,
                );
            }
            (add_part - sub_part - 1) / denominator + 1
        };
        assert(ratio == ceil_div(numerator, denominator as int));
        assert(ratio <= add_part);

        proof {
            vstd::arithmetic::mul::lemma_mul_upper_bound(
                ratio as int,
                0x10_0000_0000u128 as int,
                cr as int,
                8,
            );
            if ratio > 0 {
                vstd::arithmetic::mul::lemma_mul_strictly_positive(ratio as int, cr as int);
            }
        }
        let scaled: u128 = ratio * (cr as u128);
        let n_payload: u128 = 8 + scaled;
        assert(n_payload == self.spec_payload_symbols(explicit_header, length));
        assert(n_payload <= 8 + 0x80_0000_0000);

        let toa: u128 = if preamble == 0 {
            proof {
                vstd::arithmetic::mul::lemma_mul_upper_bound(
                    t_sym_us as int,
                    4096000,
                    n_payload as int,
                    8int + 0x80_0000_0000,
                );
            }
            t_sym_us * n_payload
        } else {
            let inner: u128 = 4 * (preamble as u128) + 17 + 4 * n_payload;
            proof {
                vstd::arithmetic::mul::lemma_mul_upper_bound(
                    inner as int,
                    0x4000_0000_0000,
                    t_sym_us as int,
                    4096000,
                );
            }
            inner * t_sym_us / 4
        };
        assert(toa == self.spec_time_on_air_us(preamble, explicit_header, length));
        toa as u32
    }
}

/// Holding the RF parameters, preamble and header mode fixed, the
/// time-on-air estimate never decreases as the payload length grows.
/// (Being a function of its arguments alone, the estimate is also
/// deterministic.)
pub proof fn lemma_time_on_air_monotonic(
    rf: RfConfig,
    preamble: u32,
    explicit_header: bool,
    len1: u32,
    len2: u32,
)
    requires
        len1 <= len2,
    ensures
        rf.spec_time_on_air_us(preamble, explicit_header, len1) <= rf.spec_time_on_air_us(
            preamble,
            explicit_header,
            len2,
        ),
{
    let sf = rf.spreading_factor.spec_factor() as int;
    let de: int = if sf >= 11 {
        1
    } else {
        0
    };
    let h: int = if explicit_header {
        0
    } else {
        1
    };
    let den = 4 * (sf - 2 * de);
    assert(28 <= den <= 40);
    let num1 = 8 * len1 - 4 * sf + 28 + 16 - 20 * h;
    let num2 = 8 * len2 - 4 * sf + 28 + 16 - 20 * h;
    vstd::arithmetic::div_mod::lemma_div_is_ordered(num1 + den - 1, num2 + den - 1, den);
    let cr = rf.coding_rate.spec_denom() as int;
    vstd::arithmetic::mul::lemma_mul_inequality(ceil_div(num1, den), ceil_div(num2, den), cr);
    let n1 = rf.spec_payload_symbols(explicit_header, len1);
    let n2 = rf.spec_payload_symbols(explicit_header, len2);
    assert(n1 <= n2);

    let t = rf.spec_t_sym_us();
    assert(rf.bandwidth.spec_hz() as int / 1000 >= 7);
    vstd::arithmetic::div_mod::lemma_div_pos_is_pos(
        rf.spreading_factor.spec_chips() * 1000,
        rf.bandwidth.spec_hz() as int / 1000,
    );
    if preamble == 0 {
        vstd::arithmetic::mul::lemma_mul_inequality(n1, n2, t);
        vstd::arithmetic::mul::lemma_mul_is_commutative(t, n1);
        vstd::arithmetic::mul::lemma_mul_is_commutative(t, n2);
    } else {
        let i1 = 4 * preamble + 17 + 4 * n1;
        let i2 = 4 * preamble + 17 + 4 * n2;
        vstd::arithmetic::mul::lemma_mul_inequality(i1, i2, t);
        vstd::arithmetic::div_mod::lemma_div_is_ordered(i1 * t, i2 * t, 4);
    }
}

/// Transmit parameters: output power in dBm paired with the RF parameters.
#[derive(Debug, Clone, Copy, PartialEq, Eq, Structural)]
pub struct TxConfig {
    pub pw: i8,
    pub rf: RfConfig,
}

/// Quality figures of one received frame: signal strength (dBm-scaled)
/// and signal-to-noise ratio, fixed when the receive completes.
#[derive(Debug, Clone, Copy, PartialEq, Eq, Structural)]
pub struct RxQuality {
    rssi: i16,
    snr: i8,
}

impl RxQuality {
    pub closed spec fn spec_rssi(self) -> i16 {
        self.rssi
    }

    pub closed spec fn spec_snr(self) -> i8 {
        self.snr
    }

    pub fn new(rssi: i16, snr: i8) -> (q: RxQuality)
        ensures
            q.spec_rssi() == rssi,
            q.spec_snr() == snr,
    {
        RxQuality { rssi, snr }
    }

    pub fn rssi(self) -> (r: i16)
        ensures
            r == self.spec_rssi(),
    {
        self.rssi
    }

    pub fn snr(self) -> (r: i8)
        ensures
            r == self.spec_snr(),
    {
        self.snr
    }
}

} // verus!
