//! A status-line engine: a fixed set of independently sampled modules feeds
//! one aggregator, which merges their latest fragments into a single line in
//! a fixed display order.  The sampling edges (files, clock, audio server,
//! network link) live outside the library; everything that decides or
//! formats is here, with contracts.

pub mod engine;
pub mod error;
pub mod sound;
pub mod text;
pub mod wireless;

use vstd::prelude::*;
use vstd::string::StringExecFns;

use crate::error::Error;
use crate::text::dec_digits;
use crate::text::dec_i32;
use crate::text::push_char;

verus! {

/// One update from a module's sampling routine to the aggregator: the
/// module's key, an optional value and an optional label.  A value of
/// `None` means the module falls back to its placeholder.
pub struct ModuleMsg(pub char, pub Option<String>, pub Option<String>);

/// The whole configuration, merged from defaults and the user's file by the
/// caller; a read-only snapshot taken once at startup.
pub struct Config {
    pub sound: Option<crate::sound::Config>,
    pub wireless: Option<crate::wireless::Config>,
}

/// The built-in samplers' shared state: the output font and colour switch
/// tokens (opaque to the library, forwarded verbatim) and the previous cpu
/// counters, from which the next usage sample is a difference.
pub struct Bar {
    pub default_font: String,
    pub icon: String,
    pub default_color: String,
    pub red: String,
    pub green: String,
    pub prev_idle: i32,
    pub prev_total: i32,
}

/// The battery-state glyph for a charge state and level.
pub open spec fn battery_icon_spec(state: Seq<char>, level: u32) -> Seq<char> {
    if state == "Full"@ {
        "\u{f0079}"@
    } else if state == "Discharging"@ {
        if level <= 9 {
            "\u{f008e}"@
        } else if level <= 19 {
            "\u{f007a}"@
        } else if level <= 29 {
            "\u{f007b}"@
        } else if level <= 39 {
            "\u{f007c}"@
        } else if level <= 49 {
            "\u{f007d}"@
        } else if level <= 59 {
            "\u{f007e}"@
        } else if level <= 69 {
            "\u{f007f}"@
        } else if level <= 79 {
            "\u{f0080}"@
        } else if level <= 89 {
            "\u{f0081}"@
        } else if level <= 99 {
            "\u{f0082}"@
        } else if level == 100 {
            "\u{f0079}"@
        } else {
            "\u{f10cd}"@
        }
    } else if state == "Charging"@ {
        if level <= 9 {
            "\u{f089f}"@
        } else if level <= 19 {
            "\u{f089c}"@
        } else if level <= 29 {
            "\u{f0086}"@
        } else if level <= 39 {
            "\u{f0087}"@
        } else if level <= 49 {
            "\u{f0088}"@
        } else if level <= 59 {
            "\u{f089d}"@
        } else if level <= 69 {
            "\u{f0089}"@
        } else if level <= 79 {
            "\u{f089e}"@
        } else if level <= 89 {
            "\u{f008a}"@
        } else if level <= 99 {
            "\u{f008b}"@
        } else if level == 100 {
            "\u{f0085}"@
        } else {
            "\u{f10cd}"@
        }
    } else {
        "\u{f10cd}"@
    }
}

/// Picks the battery glyph for a charge state and level.
pub fn get_battery_icon(state: &str, level: u32) -> (r: &'static str)
    ensures
        r@ == battery_icon_spec(state@, level),
{
    if text::str_eq(state, "Full") {
        "\u{f0079}"
    } else if text::str_eq(state, "Discharging") {
        if level <= 9 {
            "\u{f008e}"
        } else if level <= 19 {
            "\u{f007a}"
        } else if level <= 29 {
            "\u{f007b}"
        } else if level <= 39 {
            "\u{f007c}"
        } else if level <= 49 {
            "\u{f007d}"
        } else if level <= 59 {
            "\u{f007e}"
        } else if level <= 69 {
            "\u{f007f}"
        } else if level <= 79 {
            "\u{f0080}"
        } else if level <= 89 {
            "\u{f0081}"
        } else if level <= 99 {
            "\u{f0082}"
        } else if level == 100 {
            "\u{f0079}"
        } else {
            "\u{f10cd}"
        }
    } else if text::str_eq(state, "Charging") {
        if level <= 9 {
            "\u{f089f}"
        } else if level <= 19 {
            "\u{f089c}"
        } else if level <= 29 {
            "\u{f0086}"
        } else if level <= 39 {
            "\u{f0087}"
        } else if level <= 49 {
            "\u{f0088}"
        } else if level <= 59 {
            "\u{f089d}"
        } else if level <= 69 {
            "\u{f0089}"
        } else if level <= 79 {
            "\u{f089e}"
        } else if level <= 89 {
            "\u{f008a}"
        } else if level <= 99 {
            "\u{f008b}"
        } else if level == 100 {
            "\u{f0085}"
        } else {
            "\u{f10cd}"
        }
    } else {
        "\u{f10cd}"
    }
}

/// The battery level as a whole percentage: energy now over design
/// capacity, each first cast to `u64`.
pub open spec fn spec_battery_level(energy_full_design: i32, energy_now: i32) -> int {
    100 * energy_now / ((energy_full_design as u64) as int)
}

/// The colour token for a battery fragment: green when full, red at ten
/// percent or below, the default otherwise.
pub open spec fn battery_color_spec(bar: Bar, status: Seq<char>, level: u32) -> Seq<char> {
    if status == "Full"@ {
        bar.green@
    } else if level <= 10 {
        bar.red@
    } else {
        bar.default_color@
    }
}

/// The full battery fragment: colour, icon font, glyph, default font and
/// colour, then the level as `NN%`.
pub open spec fn battery_fragment_spec(bar: Bar, status: Seq<char>, level: u32) -> Seq<char> {
    battery_color_spec(bar, status, level) + bar.icon@ + battery_icon_spec(status, level)
        + bar.default_font@ + bar.default_color@ + seq![' '] + dec_digits(level as nat)
        + seq!['%']
}

/// The sum of a sequence of counters.
pub open spec fn seq_sum(s: Seq<i32>) -> int
    decreases s.len(),
{
    if s.len() == 0 {
        0
    } else {
        seq_sum(s.drop_last()) + s.last()
    }
}

/// With non-negative entries, every prefix sum is between zero and the
/// whole sum.
pub proof fn lemma_seq_sum_take(s: Seq<i32>, i: int)
    requires
        0 <= i <= s.len(),
        forall|p: int| 0 <= p < s.len() ==> 0 <= #[trigger] s[p],
    ensures
        0 <= seq_sum(s.take(i)),
        seq_sum(s.take(i)) <= seq_sum(s),
    decreases s.len(),
{
    if s.len() == 0 {
        assert(s.take(i) =~= s);
    } else if i == s.len() {
        assert(s.take(i) =~= s);
        lemma_seq_sum_take(s.drop_last(), s.len() - 1);
        assert(s.drop_last().take(s.len() - 1) =~= s.drop_last());
    } else {
        assert(s.take(i) =~= s.drop_last().take(i));
        lemma_seq_sum_take(s.drop_last(), i);
    }
}

/// The cpu usage percentage computed from the counter differences since
/// the previous sample.
pub open spec fn spec_cpu_usage(
    total: int,
    idle: int,
    prev_total: int,
    prev_idle: int,
) -> int {
    (1000 * ((total - prev_total) - (idle - prev_idle)) / (total - prev_total)) / 10
}

/// The core-temperature average in whole degrees: the sum of four
/// millidegree readings over 4000, rounded half away from zero.
pub open spec fn rounded_avg_spec(sum: int) -> int {
    if sum >= 0 {
        (sum + 2000) / 4000
    } else {
        -((-sum + 2000) / 4000)
    }
}

/// The thermometer glyph for an average temperature.
pub open spec fn temp_icon_spec(avg: int) -> Seq<char> {
    if 0 <= avg <= 50 {
        "\u{f10c3}"@
    } else if 51 <= avg <= 70 {
        "\u{f050f}"@
    } else if 71 <= avg <= 100 {
        "\u{f10c2}"@
    } else {
        "\u{f0e01}"@
    }
}

/// The full core-temperature fragment: colour (red above 75 degrees), icon
/// font, glyph, default font and colour, then the average as `NN°`.
pub open spec fn temperature_fragment_spec(bar: Bar, avg: int) -> Seq<char> {
    (if avg > 75 {
        bar.red@
    } else {
        bar.default_color@
    }) + bar.icon@ + temp_icon_spec(avg) + bar.default_font@ + bar.default_color@ + seq![' ']
        + dec_i32(avg) + seq!['°']
}

/// The full brightness fragment: icon font, glyph, default font, then the
/// percentage as `NN%`.
pub open spec fn brightness_fragment_spec(bar: Bar, pct: int) -> Seq<char> {
    bar.icon@ + "\u{f00df}"@ + bar.default_font@ + seq![' '] + dec_digits(pct as nat) + seq!['%']
}

impl Bar {
    /// A bar with the fixed font and colour switch tokens and no previous
    /// cpu sample.
    pub fn new() -> (r: Bar)
        ensures
            r.default_font@ == "+@fn=0;"@,
            r.icon@ == "+@fn=1;"@,
            r.default_color@ == "+@fg=0;"@,
            r.red@ == "+@fg=1;"@,
            r.green@ == "+@fg=2;"@,
            r.prev_idle == 0,
            r.prev_total == 0,
    {
        Bar {
            default_font: String::from_str("+@fn=0;"),
            icon: String::from_str("+@fn=1;"),
            default_color: String::from_str("+@fg=0;"),
            red: String::from_str("+@fg=1;"),
            green: String::from_str("+@fg=2;"),
            prev_idle: 0,
            prev_total: 0,
        }
    }

    /// The battery fragment from the design capacity, the current energy
    /// and the charge state, as read from the power supply files.  Fails
    /// exactly when the computed level does not fit `u32`.
    pub fn battery(&self, energy_full_design: i32, energy_now: i32, status: &str) -> (r: Result<
        String,
        Error,
    >)
        requires
            energy_full_design != 0,
            0 <= energy_now,
        ensures
            r is Ok <==> spec_battery_level(energy_full_design, energy_now) <= u32::MAX,
            r matches Ok(s) ==> s@ == battery_fragment_spec(
                *self,
                status@,
                spec_battery_level(energy_full_design, energy_now) as u32,
            ),
            r matches Err(e) ==> e == Error::OutOfRange,
    {
        let capacity: u64 = energy_full_design as u64;
        assert(capacity != 0) by (bit_vector)
            requires
                capacity == energy_full_design as u64,
                energy_full_design != 0i32,
        ;
        let energy: u64 = energy_now as u64;
        let level64: u64 = 100 * energy / capacity;
        if level64 > u32::MAX as u64 {
            return Err(Error::OutOfRange);
        }
        let level: u32 = level64 as u32;
        let color: &str = if text::str_eq(status, "Full") {
            self.green.as_str()
        } else if level <= 10 {
            self.red.as_str()
        } else {
            self.default_color.as_str()
        };
        let glyph = get_battery_icon(status, level);
        let mut out = String::new();
        out.append(color);
        out.append(self.icon.as_str());
        out.append(glyph);
        out.append(self.default_font.as_str());
        out.append(self.default_color.as_str());
        push_char(&mut out, ' ');
        let digits = text::u32_string(level);
        out.append(digits.as_str());
        push_char(&mut out, '%');
        proof {
            assert(out@ =~= battery_fragment_spec(*self, status@, level));
        }
        Ok(out)
    }

    /// One cpu sample from the first `/proc/stat` line's counters: the
    /// usage percentage against the previous sample, and the fixed
    /// fragment text.  Updates the stored previous counters.  The bounds
    /// in `requires` exclude exactly the inputs on which the 32-bit
    /// arithmetic below would not fit.
    pub fn cpu(&mut self, times: &Vec<i32>) -> (r: (String, i32))
        requires
            times@.len() >= 5,
            forall|p: int| 0 <= p < times@.len() ==> 0 <= #[trigger] times@[p],
            seq_sum(times@) <= i32::MAX,
            times@[3] + times@[4] <= i32::MAX,
            0 <= old(self).prev_idle,
            0 <= old(self).prev_total,
            old(self).prev_idle <= times@[3] + times@[4],
            old(self).prev_total < seq_sum(times@),
            old(self).prev_total - old(self).prev_idle <= seq_sum(times@) - times@[3]
                - times@[4],
            1000 * (seq_sum(times@) - old(self).prev_total) <= i32::MAX,
        ensures
            r.0@ == "eheh"@,
            r.1 == spec_cpu_usage(
                seq_sum(times@),
                times@[3] + times@[4],
                old(self).prev_total as int,
                old(self).prev_idle as int,
            ),
            final(self).prev_idle == times@[3] + times@[4],
            final(self).prev_total == seq_sum(times@),
            final(self).default_font == old(self).default_font,
            final(self).icon == old(self).icon,
            final(self).default_color == old(self).default_color,
            final(self).red == old(self).red,
            final(self).green == old(self).green,
    {
        let idle: i32 = times[3] + times[4];
        let n = times.len();
        let mut total: i32 = 0;
        let mut i: usize = 0;
        proof {
            assert(times@.take(0) =~= Seq::<i32>::empty());
        }
        while i < n
            invariant
                i <= n,
                n == times@.len(),
                forall|p: int| 0 <= p < times@.len() ==> 0 <= #[trigger] times@[p],
                seq_sum(times@) <= i32::MAX,
                total == seq_sum(times@.take(i as int)),
                0 <= total,
            decreases n - i,
        {
            proof {
                lemma_seq_sum_take(times@, i + 1);
                assert(times@.take(i + 1).drop_last() =~= times@.take(i as int));
            }
            total = total + times[i];
            i += 1;
        }
        proof {
            assert(times@.take(n as int) =~= times@);
        }
        let diff_idle: i32 = idle - self.prev_idle;
        let diff_total: i32 = total - self.prev_total;
        let usage: i32 = (1000 * (diff_total - diff_idle) / diff_total) / 10;
        self.prev_idle = idle;
        self.prev_total = total;
        (String::from_str("eheh"), usage)
    }

    /// The core-temperature fragment from four millidegree readings.  The
    /// bounds in `requires` keep the sum and the rounding offset inside
    /// 32 bits, as the arithmetic below needs.
    pub fn core_temperature(&self, core_1: i32, core_2: i32, core_3: i32, core_4: i32) -> (r:
        String)
        requires
            i32::MIN <= core_1 + core_2 <= i32::MAX,
            i32::MIN <= core_1 + core_2 + core_3 <= i32::MAX,
            -(i32::MAX - 2000) <= core_1 + core_2 + core_3 + core_4 <= i32::MAX - 2000,
        ensures
            r@ == temperature_fragment_spec(
                *self,
                rounded_avg_spec(core_1 + core_2 + core_3 + core_4),
            ),
    {
        let sum: i32 = core_1 + core_2 + core_3 + core_4;
        let average: i32 = if sum >= 0 {
            (sum + 2000) / 4000
        } else {
            let pos: i32 = -sum;
            -((pos + 2000) / 4000)
        };
        let glyph: &str = if average >= 0 && average <= 50 {
            "\u{f10c3}"
        } else if average >= 51 && average <= 70 {
            "\u{f050f}"
        } else if average >= 71 && average <= 100 {
            "\u{f10c2}"
        } else {
            "\u{f0e01}"
        };
        let color: &str = if average > 75 {
            self.red.as_str()
        } else {
            self.default_color.as_str()
        };
        let mut out = String::new();
        out.append(color);
        out.append(self.icon.as_str());
        out.append(glyph);
        out.append(self.default_font.as_str());
        out.append(self.default_color.as_str());
        push_char(&mut out, ' ');
        let digits = text::i32_string(average);
        out.append(digits.as_str());
        push_char(&mut out, '°');
        proof {
            assert(out@ =~= temperature_fragment_spec(
                *self,
                rounded_avg_spec(core_1 + core_2 + core_3 + core_4),
            ));
        }
        out
    }

    /// The brightness fragment from the current and maximum backlight
    /// values.
    pub fn brightness(&self, brightness: i32, max_brightness: i32) -> (r: String)
        requires
            0 <= brightness,
            0 < max_brightness,
            100 * brightness <= i32::MAX,
        ensures
            r@ == brightness_fragment_spec(
                *self,
                100 * (brightness as int) / (max_brightness as int),
            ),
    {
        let percentage: i32 = 100 * brightness / max_brightness;
        let mut out = String::new();
        out.append(self.icon.as_str());
        out.append("\u{f00df}");
        out.append(self.default_font.as_str());
        push_char(&mut out, ' ');
        let digits = text::u32_string(percentage as u32);
        out.append(digits.as_str());
        push_char(&mut out, '%');
        proof {
            assert(out@ =~= brightness_fragment_spec(*self, percentage as int));
        }
        out
    }

    /// Composes the full status line from the four fragments, with the
    /// fixed separators between them.
    pub fn update(&self, temperature: &str, brightness: &str, battery: &str, date_time: &str) -> (r:
        String)
        ensures
            r@ == temperature@ + "  "@ + brightness@ + "  "@ + battery@ + "   "@ + date_time@,
    {
        let mut out = String::new();
        out.append(temperature);
        out.append("  ");
        out.append(brightness);
        out.append("  ");
        out.append(battery);
        out.append("   ");
        out.append(date_time);
        proof {
            assert(out@ =~= temperature@ + "  "@ + brightness@ + "  "@ + battery@ + "   "@
                + date_time@);
        }
        out
    }
}

/// Relies on chrono's `Local::now` and `DateTime::format`: renders the
/// current local time with a fixed format string whose literal text (the
/// dot, comma and hour separator) makes the result non-empty.
#[verifier::external_body]
fn local_date_time_line() -> (r: String)
    ensures
        r@.len() > 0,
{
    chrono::Local::now().format("%a. %-e %B %Y, %-kh%M").to_string()
}

/// The current local date and time, formatted for the status line.  The
/// result depends on the clock, so only its non-emptiness is promised.
pub fn date_time() -> (r: String)
    ensures
        r@.len() > 0,
{
    local_date_time_line()
}

} // verus!
