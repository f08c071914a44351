//! Calendar logic of the real-time clock: its source clock, its prescalers,
//! and the BCD layout of its time, date and sub-second registers.

use vstd::prelude::*;

verus! {

/// Source clock of the real-time clock.
#[derive(Clone, Copy, Debug, PartialEq, Eq, Hash, Structural)]
pub enum Clk {
    /// LSE oscillator.
    Lse,
    /// LSI oscillator.
    Lsi,
    /// HSE32 oscillator divided by 32.
    Hse,
}

impl Clk {
    /// Code of the clock in the RTC clock selection field.
    pub open spec fn spec_rtcsel(self) -> u8 {
        match self {
            Clk::Lse => 1,
            Clk::Lsi => 2,
            Clk::Hse => 3,
        }
    }

    /// Code of the clock in the RTC clock selection field.
    #[verifier::when_used_as_spec(spec_rtcsel)]
    pub fn rtcsel(self) -> (r: u8)
        ensures
            r == self.spec_rtcsel(),
    {
        match self {
            Clk::Lse => 1,
            Clk::Lsi => 2,
            Clk::Hse => 3,
        }
    }
}

/// Frequency in hertz of the clock selected by `rtcsel` (two bits; zero
/// selects no clock), with the LSI divided by 128 when `lsi_div128` holds.
pub open spec fn source_hz(rtcsel: u8, lsi_div128: bool) -> u32 {
    if rtcsel % 4 == 1 {
        32_768
    } else if rtcsel % 4 == 2 {
        if lsi_div128 {
            250
        } else {
            32_000
        }
    } else if rtcsel % 4 == 3 {
        1_000_000
    } else {
        0
    }
}

/// Source clock frequency in hertz.
pub fn hz(rtcsel: u8, lsi_div128: bool) -> (r: u32)
    ensures
        r == source_hz(rtcsel, lsi_div128),
{
    let sel: u8 = rtcsel % 4;
    if sel == 1 {
        32_768
    } else if sel == 2 {
        if lsi_div128 {
            250
        } else {
            32_000
        }
    } else if sel == 3 {
        1_000_000
    } else {
        0
    }
}

/// Prescaler pair for each source clock: LSE (127, 255), LSI (99, 319),
/// LSI divided by 128 (124, 1), HSE32 (99, 9999).
pub open spec fn prescaler_pair(clk: Clk, lsi_div128: bool) -> (u8, u16) {
    match clk {
        Clk::Lse => (127, 255),
        Clk::Lsi => if lsi_div128 {
            (124, 1)
        } else {
            (99, 319)
        },
        Clk::Hse => (99, 9_999),
    }
}

/// Asynchronous (7-bit) and synchronous (15-bit) prescalers that divide the
/// source clock down to 1 Hz, the asynchronous one as large as possible to
/// save power.
pub fn prescalers(clk: Clk, lsi_div128: bool) -> (r: (u8, u16))
    ensures
        r == prescaler_pair(clk, lsi_div128),
        r.0 < 128,
        r.1 < 32_768,
        (r.0 as int + 1) * (r.1 as int + 1) == source_hz(clk.rtcsel(), lsi_div128) as int,
{
    let r: (u8, u16) = match clk {
        Clk::Lse => (127, 255),
        Clk::Lsi => {
            if lsi_div128 {
                (124, 1)
            } else {
                (99, 319)
            }
        },
        Clk::Hse => (99, 9_999),
    };
    assert((r.0 as int + 1) * (r.1 as int + 1) == source_hz(clk.rtcsel(), lsi_div128) as int) by (nonlinear_arith)
        requires
            r == (127u8, 255u16) || r == (124u8, 1u16) || r == (99u8, 319u16) || r == (99u8, 9_999u16),
            r == (127u8, 255u16) ==> source_hz(clk.rtcsel(), lsi_div128) == 32_768,
            r == (124u8, 1u16) ==> source_hz(clk.rtcsel(), lsi_div128) == 250,
            r == (99u8, 319u16) ==> source_hz(clk.rtcsel(), lsi_div128) == 32_000,
            r == (99u8, 9_999u16) ==> source_hz(clk.rtcsel(), lsi_div128) == 1_000_000,
    ;
    r
}

/// Two BCD digits of `v`, tens in the high nibble.
pub open spec fn bcd(v: nat) -> nat {
    (v / 10) * 16 + v % 10
}

/// Time register for a 24-hour time.
pub open spec fn time_bits(hour: nat, minute: nat, second: nat) -> nat {
    bcd(second) + bcd(minute) * 0x100 + bcd(hour) * 0x1_0000
}

/// Date register: day, month, weekday (1 for Monday) and year of the century.
pub open spec fn date_bits(year: nat, month: nat, day: nat, weekday: nat) -> nat {
    bcd(day) + bcd(month) * 0x100 + weekday * 0x2000 + bcd(year) * 0x1_0000
}

/// Time register value for `hour:minute:second`, in 24-hour format.
pub fn time_register(hour: u8, minute: u8, second: u8) -> (r: u32)
    requires
        hour < 24,
        minute < 60,
        second < 60,
    ensures
        r as nat == time_bits(hour as nat, minute as nat, second as nat),
{
    let s: u32 = (second / 10) as u32 * 16 + (second % 10) as u32;
    let m: u32 = (minute / 10) as u32 * 16 + (minute % 10) as u32;
    let h: u32 = (hour / 10) as u32 * 16 + (hour % 10) as u32;
    s + m * 0x100 + h * 0x1_0000
}

/// Date register value; the calendar holds the years 2000 to 2099.
pub fn date_register(year: i32, month: u8, day: u8, weekday: u8) -> (r: u32)
    requires
        2000 <= year < 2100,
        1 <= month <= 12,
        1 <= day <= 31,
        1 <= weekday <= 7,
    ensures
        r as nat == date_bits((year - 2000) as nat, month as nat, day as nat, weekday as nat),
{
    let y: u32 = (year - 2000) as u32;
    let yb: u32 = (y / 10) * 16 + y % 10;
    let mb: u32 = (month / 10) as u32 * 16 + (month % 10) as u32;
    let db: u32 = (day / 10) as u32 * 16 + (day % 10) as u32;
    db + mb * 0x100 + weekday as u32 * 0x2000 + yb * 0x1_0000
}

/// A calendar date.
#[derive(Clone, Copy, Debug, PartialEq, Eq, Hash, Structural)]
pub struct CalendarDate {
    pub year: i32,
    pub month: u8,
    pub day: u8,
}

/// A time of day, with microseconds (up to two million in a leap second).
#[derive(Clone, Copy, Debug, PartialEq, Eq, Hash, Structural)]
pub struct CalendarTime {
    pub hour: u8,
    pub minute: u8,
    pub second: u8,
    pub micro: u32,
}

/// Whether `year` is a leap year of the Gregorian calendar.
pub open spec fn is_leap(year: int) -> bool {
    (year % 4 == 0 && year % 100 != 0) || year % 400 == 0
}

/// Number of days in `month` of `year`.
pub open spec fn days_in_month(year: int, month: int) -> int {
    if month == 2 {
        if is_leap(year) {
            29
        } else {
            28
        }
    } else if month == 4 || month == 6 || month == 9 || month == 11 {
        30
    } else {
        31
    }
}

/// Whether the date exists in the Gregorian calendar.
pub open spec fn valid_ymd(year: int, month: int, day: int) -> bool {
    1 <= month <= 12 && 1 <= day <= days_in_month(year, month)
}

/// Whether the time exists; a leap second runs the microseconds of second
/// 59 up to two million.
pub open spec fn valid_hms_micro(hour: int, minute: int, second: int, micro: int) -> bool {
    hour < 24 && minute < 60 && second < 60 && (micro < 1_000_000 || (second == 59 && micro
        < 2_000_000))
}

/// Relies on `chrono::NaiveDate::from_ymd_opt`: it makes a date exactly when
/// the month is 1 to 12 and the day is within that month of the Gregorian
/// calendar (years 1 to 9999 are inside its range).
#[verifier::external_body]
fn ymd_exists(year: i32, month: u32, day: u32) -> (r: bool)
    requires
        1 <= year <= 9999,
    ensures
        r == valid_ymd(year as int, month as int, day as int),
{
    chrono::NaiveDate::from_ymd_opt(year, month, day).is_some()
}

/// Relies on `chrono::NaiveTime::from_hms_micro_opt`: it makes a time exactly
/// when the hour, minute and second are in range and the microseconds are
/// below one million, or below two million in second 59 (a leap second).
#[verifier::external_body]
fn hms_micro_exists(hour: u32, minute: u32, second: u32, micro: u32) -> (r: bool)
    ensures
        r == valid_hms_micro(hour as int, minute as int, second as int, micro as int),
{
    chrono::NaiveTime::from_hms_micro_opt(hour, minute, second, micro).is_some()
}

/// The field of `bits` that starts at bit value `unit` and takes `size`
/// values.
pub open spec fn field(bits: u32, unit: int, size: int) -> int {
    (bits as int / unit) % size
}

/// Year, month and day that a date register holds.
pub open spec fn date_fields(dr: u32) -> (int, int, int) {
    (
        2000 + field(dr, 0x10_0000, 16) * 10 + field(dr, 0x1_0000, 16),
        field(dr, 0x1000, 2) * 10 + field(dr, 0x100, 16),
        field(dr, 0x10, 4) * 10 + field(dr, 1, 16),
    )
}

/// Hour, minute and second that a time register holds; the PM flag adds
/// twelve hours.
pub open spec fn time_fields(tr: u32) -> (int, int, int) {
    (
        field(tr, 0x10_0000, 4) * 10 + field(tr, 0x1_0000, 16) + if field(tr, 0x40_0000, 2) == 1 { 12int } else { 0int },
        field(tr, 0x1000, 8) * 10 + field(tr, 0x100, 16),
        field(tr, 0x10, 8) * 10 + field(tr, 1, 16),
    )
}

/// Microseconds of the second fraction `(pre_s - ss) / (pre_s + 1)`, in steps
/// of ten microseconds.
pub open spec fn fraction_micros(ss: int, pre_s: int) -> int {
    (((pre_s - ss) * 100_000) / (pre_s + 1)) * 10
}

/// Decodes the date register; `None` for a date that does not exist.
pub fn date_from_register(dr: u32) -> (r: Option<CalendarDate>)
    ensures
        ({
            let (y, m, d) = date_fields(dr);
            match r {
                Some(c) => valid_ymd(y, m, d) && c.year == y && c.month == m && c.day == d,
                None => !valid_ymd(y, m, d),
            }
        }),
{
    let yt: u32 = (dr / 0x10_0000) % 16;
    let yu: u32 = (dr / 0x1_0000) % 16;
    let mt: u32 = (dr / 0x1000) % 2;
    let mu: u32 = (dr / 0x100) % 16;
    let dt: u32 = (dr / 0x10) % 4;
    let du: u32 = dr % 16;
    let year: i32 = 2000 + (yt * 10 + yu) as i32;
    let month: u32 = mt * 10 + mu;
    let day: u32 = dt * 10 + du;
    if ymd_exists(year, month, day) {
        Some(CalendarDate { year, month: month as u8, day: day as u8 })
    } else {
        None
    }
}

/// Microseconds elapsed in the current second, from the sub-second register
/// `ss` (its low 16 bits) and the synchronous prescaler `pre_s`.
pub fn ss_to_us(ss: u32, pre_s: u32) -> (r: u32)
    requires
        pre_s < 32_768,
        ss % 0x1_0000 <= pre_s,
    ensures
        r as int == fraction_micros((ss % 0x1_0000) as int, pre_s as int),
        r < 1_000_000,
{
    let ss: u32 = ss % 0x1_0000;
    let n: u32 = (pre_s - ss) * 100_000;
    let q: u32 = n / (pre_s + 1);
    assert(q < 100_000) by (nonlinear_arith)
        requires
            q as int == n as int / (pre_s as int + 1),
            n as int == (pre_s as int - ss as int) * 100_000,
            ss <= pre_s,
    ;
    q * 10
}

/// Decodes the time and sub-second registers; `None` for a time that does
/// not exist.
pub fn time_from_registers(tr: u32, ss: u32, pre_s: u32) -> (r: Option<CalendarTime>)
    requires
        pre_s < 32_768,
        ss % 0x1_0000 <= pre_s,
    ensures
        ({
            let (h, m, s) = time_fields(tr);
            let us = fraction_micros((ss % 0x1_0000) as int, pre_s as int);
            match r {
                Some(t) => valid_hms_micro(h, m, s, us) && t.hour == h && t.minute == m && t.second
                    == s && t.micro == us,
                None => !valid_hms_micro(h, m, s, us),
            }
        }),
{
    let pm: u32 = (tr / 0x40_0000) % 2;
    let ht: u32 = (tr / 0x10_0000) % 4;
    let hu: u32 = (tr / 0x1_0000) % 16;
    let mnt: u32 = (tr / 0x1000) % 8;
    let mnu: u32 = (tr / 0x100) % 16;
    let st: u32 = (tr / 0x10) % 8;
    let su: u32 = tr % 16;
    let hour: u32 = ht * 10 + hu + if pm == 1 { 12 } else { 0 };
    let minute: u32 = mnt * 10 + mnu;
    let second: u32 = st * 10 + su;
    let micro: u32 = ss_to_us(ss, pre_s);
    if hms_micro_exists(hour, minute, second, micro) {
        Some(CalendarTime { hour: hour as u8, minute: minute as u8, second: second as u8, micro })
    } else {
        None
    }
}

/// Writing a date to the date register and decoding the register gives the
/// date back, for every date of the years 2000 to 2099.
pub proof fn lemma_date_register_round_trip(year: int, month: int, day: int, weekday: int)
    requires
        2000 <= year < 2100,
        1 <= month <= 12,
        1 <= day <= 31,
        1 <= weekday <= 7,
    ensures
        date_bits((year - 2000) as nat, month as nat, day as nat, weekday as nat) <= u32::MAX,
        date_fields(date_bits((year - 2000) as nat, month as nat, day as nat, weekday as nat) as u32)
            == (year, month, day),
{
    let y = year - 2000;
    let (f, g, c, e, a, b) = (y / 10, y % 10, month / 10, month % 10, day / 10, day % 10);
    let dr = b + 16 * a + 256 * e + 4096 * c + 8192 * weekday + 65536 * g + 1048576 * f;
    assert(date_bits(y as nat, month as nat, day as nat, weekday as nat) == dr);
    assert(0 <= f <= 9 && 0 <= g <= 9 && 0 <= c <= 1 && 0 <= e <= 9 && 0 <= a <= 3 && 0 <= b <= 9);
    let d = dr as u32;
    assert(d as int == dr);
    assert((dr / 0x10_0000) % 16 == f) by (nonlinear_arith)
        requires
            dr == b + 16 * a + 256 * e + 4096 * c + 8192 * weekday + 65536 * g + 1048576 * f,
            0 <= f <= 9, 0 <= g <= 9, 0 <= c <= 1, 0 <= e <= 9, 0 <= a <= 3, 0 <= b <= 9,
            1 <= weekday <= 7,
    ;
    assert((dr / 0x1_0000) % 16 == g) by (nonlinear_arith)
        requires
            dr == b + 16 * a + 256 * e + 4096 * c + 8192 * weekday + 65536 * g + 1048576 * f,
            0 <= f <= 9, 0 <= g <= 9, 0 <= c <= 1, 0 <= e <= 9, 0 <= a <= 3, 0 <= b <= 9,
            1 <= weekday <= 7,
    ;
    assert((dr / 0x1000) % 2 == c) by (nonlinear_arith)
        requires
            dr == b + 16 * a + 256 * e + 4096 * c + 8192 * weekday + 65536 * g + 1048576 * f,
            0 <= f <= 9, 0 <= g <= 9, 0 <= c <= 1, 0 <= e <= 9, 0 <= a <= 3, 0 <= b <= 9,
            1 <= weekday <= 7,
    ;
    assert((dr / 0x100) % 16 == e) by (nonlinear_arith)
        requires
            dr == b + 16 * a + 256 * e + 4096 * c + 8192 * weekday + 65536 * g + 1048576 * f,
            0 <= f <= 9, 0 <= g <= 9, 0 <= c <= 1, 0 <= e <= 9, 0 <= a <= 3, 0 <= b <= 9,
            1 <= weekday <= 7,
    ;
    assert((dr / 0x10) % 4 == a) by (nonlinear_arith)
        requires
            dr == b + 16 * a + 256 * e + 4096 * c + 8192 * weekday + 65536 * g + 1048576 * f,
            0 <= f <= 9, 0 <= g <= 9, 0 <= c <= 1, 0 <= e <= 9, 0 <= a <= 3, 0 <= b <= 9,
            1 <= weekday <= 7,
    ;
    assert(dr % 16 == b) by (nonlinear_arith)
        requires
            dr == b + 16 * a + 256 * e + 4096 * c + 8192 * weekday + 65536 * g + 1048576 * f,
            0 <= f <= 9, 0 <= g <= 9, 0 <= c <= 1, 0 <= e <= 9, 0 <= a <= 3, 0 <= b <= 9,
            1 <= weekday <= 7,
    ;
}

/// Writing a time to the time register and decoding the register gives the
/// time back, for every time of a 24-hour day.
pub proof fn lemma_time_register_round_trip(hour: int, minute: int, second: int)
    requires
        0 <= hour < 24,
        0 <= minute < 60,
        0 <= second < 60,
    ensures
        time_bits(hour as nat, minute as nat, second as nat) <= u32::MAX,
        time_fields(time_bits(hour as nat, minute as nat, second as nat) as u32) == (hour, minute, second),
{
    let (ht, hu, nt, nu, st, su) = (hour / 10, hour % 10, minute / 10, minute % 10, second / 10, second % 10);
    let tr = su + 16 * st + 256 * nu + 4096 * nt + 65536 * hu + 1048576 * ht;
    assert(time_bits(hour as nat, minute as nat, second as nat) == tr);
    let t = tr as u32;
    assert(t as int == tr);
    assert((tr / 0x40_0000) % 2 == 0) by (nonlinear_arith)
        requires
            tr == su + 16 * st + 256 * nu + 4096 * nt + 65536 * hu + 1048576 * ht,
            0 <= ht <= 2, 0 <= hu <= 9, 0 <= nt <= 5, 0 <= nu <= 9, 0 <= st <= 5, 0 <= su <= 9,
    ;
    assert((tr / 0x10_0000) % 4 == ht) by (nonlinear_arith)
        requires
            tr == su + 16 * st + 256 * nu + 4096 * nt + 65536 * hu + 1048576 * ht,
            0 <= ht <= 2, 0 <= hu <= 9, 0 <= nt <= 5, 0 <= nu <= 9, 0 <= st <= 5, 0 <= su <= 9,
    ;
    assert((tr / 0x1_0000) % 16 == hu) by (nonlinear_arith)
        requires
            tr == su + 16 * st + 256 * nu + 4096 * nt + 65536 * hu + 1048576 * ht,
            0 <= ht <= 2, 0 <= hu <= 9, 0 <= nt <= 5, 0 <= nu <= 9, 0 <= st <= 5, 0 <= su <= 9,
    ;
    assert((tr / 0x1000) % 8 == nt) by (nonlinear_arith)
        requires
            tr == su + 16 * st + 256 * nu + 4096 * nt + 65536 * hu + 1048576 * ht,
            0 <= ht <= 2, 0 <= hu <= 9, 0 <= nt <= 5, 0 <= nu <= 9, 0 <= st <= 5, 0 <= su <= 9,
    ;
    assert((tr / 0x100) % 16 == nu) by (nonlinear_arith)
        requires
            tr == su + 16 * st + 256 * nu + 4096 * nt + 65536 * hu + 1048576 * ht,
            0 <= ht <= 2, 0 <= hu <= 9, 0 <= nt <= 5, 0 <= nu <= 9, 0 <= st <= 5, 0 <= su <= 9,
    ;
    assert((tr / 0x10) % 8 == st) by (nonlinear_arith)
        requires
            tr == su + 16 * st + 256 * nu + 4096 * nt + 65536 * hu + 1048576 * ht,
            0 <= ht <= 2, 0 <= hu <= 9, 0 <= nt <= 5, 0 <= nu <= 9, 0 <= st <= 5, 0 <= su <= 9,
    ;
    assert(tr % 16 == su) by (nonlinear_arith)
        requires
            tr == su + 16 * st + 256 * nu + 4096 * nt + 65536 * hu + 1048576 * ht,
            0 <= ht <= 2, 0 <= hu <= 9, 0 <= nt <= 5, 0 <= nu <= 9, 0 <= st <= 5, 0 <= su <= 9,
    ;
}

} // verus!
