//! CPU load, shown as a cat that sleeps below a threshold and runs faster as
//! the load grows.
use crate::emojis::animated_emoji::{AnimatedEmoji, AnimatorError, SPEED_SCALE};
use crate::read_line::ReadLineError;
use crate::text::{
    chars_of, decimal, fields, fields_of, pad_left, parse_u64, parse_unsigned, push_char,
    push_decimal_padded,
};
use crate::Metric;
use vstd::prelude::*;
use vstd::string::*;

verus! {

/// Load below this percentage shows the sleeping cat.
pub const SLEEPING_THRESHOLD_PERCENT: u8 = 10;

/// Frequencies of the running cat, in millihertz.
pub const MAX_FREQUENCY: u32 = 7600;

pub const MIN_FREQUENCY: u32 = 500;

/// Frequencies of the sleeping cat, in millihertz.
pub const SLEEPING_MAX_FREQUENCY: u32 = 900;

pub const SLEEPING_MIN_FREQUENCY: u32 = 200;

/// First glyph and number of frames of the running cat.
pub const RUNNING_CAT_BASE: char = '\u{e300}';

pub const RUNNING_CAT_FRAMES: usize = 16;

/// First glyph and number of frames of the sleeping cat.
pub const SLEEPING_CAT_BASE: char = '\u{e000}';

pub const SLEEPING_CAT_FRAMES: usize = 15;

/// `v` is a Unicode scalar value: a code point that is not a surrogate.
pub open spec fn is_scalar_value(v: int) -> bool {
    (0 <= v < 0xd800) || (0xe000 <= v <= 0x10ffff)
}

/// The code point `i` places after `base` is a char.
pub open spec fn offset_is_char(base: char, i: int) -> bool {
    is_scalar_value(base as u32 + i)
}

/// Relies on `char::from_u32`: the char with code point `v`, if `v` is a
/// Unicode scalar value.
#[verifier::external_body]
fn char_from_u32(v: u32) -> (r: Option<char>)
    ensures
        r is Some <==> is_scalar_value(v as int),
        r matches Some(c) ==> c as u32 == v,
{
    char::from_u32(v)
}

/// The `count` consecutive chars from `base` on, or `None` when one of those
/// code points is not a char.
pub fn range_chars(base: char, count: usize) -> (r: Option<Vec<char>>)
    ensures
        r is Some <==> forall|i: int| 0 <= i < count ==> #[trigger] offset_is_char(base, i),
        r matches Some(v) ==> v@.len() == count && forall|i: int|
            0 <= i < count ==> (#[trigger] v@[i]) as u32 == base as u32 + i,
{
    let b = base as u32;
    let mut out: Vec<char> = Vec::new();
    let mut i: usize = 0;
    while i < count
        invariant
            i <= count,
            b == base as u32,
            out@.len() == i,
            forall|j: int| 0 <= j < i ==> #[trigger] offset_is_char(base, j),
            forall|j: int| 0 <= j < i ==> (#[trigger] out@[j]) as u32 == b + j,
        decreases count - i,
    {
        if i as u64 > 0x10ffff - b as u64 {
            assert(!offset_is_char(base, i as int));
            return None;
        }
        let c = char_from_u32(b + i as u32);
        match c {
            Some(c) => out.push(c),
            None => {
                assert(!offset_is_char(base, i as int));
                return None;
            },
        }
        i = i + 1;
    }
    Some(out)
}

/// Why the CPU load could not be read.
#[derive(Debug, Clone, Copy, PartialEq, Eq, Structural)]
pub enum CpuError {
    /// The line could not be read.
    ReadLine(ReadLineError),
    /// The line lacks the expected counters, or they overflow.
    MalformedCpuData,
}

/// A counter field: its value, or zero when it does not parse.
pub open spec fn field_number(f: Seq<char>) -> nat {
    match parse_unsigned(f, u64::MAX as nat) {
        Some(v) => v,
        None => 0,
    }
}

/// Total and idle time from the `cpu` line of `/proc/stat`: fields one to
/// five are user, nice, system, idle and iowait; idle time is idle plus
/// iowait. `None` when there are fewer fields.
pub open spec fn cpu_times(line: Seq<char>) -> Option<(nat, nat)> {
    let f = fields(line);
    if f.len() < 6 {
        None
    } else {
        let user = field_number(f[1]);
        let nice = field_number(f[2]);
        let system = field_number(f[3]);
        let idle = field_number(f[4]);
        let iowait = field_number(f[5]);
        Some((user + nice + system + idle + iowait, idle + iowait))
    }
}

pub open spec fn saturating_sub(a: int, b: int) -> int {
    if a > b {
        a - b
    } else {
        0
    }
}

/// Percentage of busy time between two readings; zero when no time passed.
pub open spec fn busy_percent(total: int, idle: int, prev_total: int, prev_idle: int) -> int {
    let dt = saturating_sub(total, prev_total);
    let di = saturating_sub(idle, prev_idle);
    if dt == 0 {
        0
    } else {
        (saturating_sub(dt, di) * 100) / dt
    }
}

/// Speed of the sleeping cat for a load below the threshold, in parts per
/// million: `load / threshold`.
pub open spec fn sleeping_speed(usage: int) -> int {
    usage * (SPEED_SCALE as int) / (SLEEPING_THRESHOLD_PERCENT as int)
}

/// Speed of the running cat for a load at or above the threshold, in parts
/// per million: `(load - threshold) / (100 - threshold)`.
pub open spec fn running_speed(usage: int) -> int {
    (usage - SLEEPING_THRESHOLD_PERCENT as int) * (SPEED_SCALE as int) / (100
        - SLEEPING_THRESHOLD_PERCENT as int)
}

/// How the two cats move when a load of `u` percent is shown at `now`:
/// the cat for that load advances, the other one starts over.
pub open spec fn cats_step(
    old_running: AnimatedEmoji,
    old_sleeping: AnimatedEmoji,
    new_running: AnimatedEmoji,
    new_sleeping: AnimatedEmoji,
    u: int,
    now: u64,
) -> bool {
    &&& new_running.spec_frames() == old_running.spec_frames()
    &&& new_sleeping.spec_frames() == old_sleeping.spec_frames()
    &&& u < SLEEPING_THRESHOLD_PERCENT ==> {
        &&& new_sleeping.spec_frame() == old_sleeping.spec_next_frame(sleeping_speed(u), now)
        &&& new_sleeping.spec_previous_update() == old_sleeping.spec_next_update(
            sleeping_speed(u),
            now,
        )
        &&& new_running.spec_frame() == 0
        &&& new_running.spec_previous_update() is None
    }
    &&& u >= SLEEPING_THRESHOLD_PERCENT ==> {
        &&& new_running.spec_frame() == old_running.spec_next_frame(running_speed(u), now)
        &&& new_running.spec_previous_update() == old_running.spec_next_update(
            running_speed(u),
            now,
        )
        &&& new_sleeping.spec_frame() == 0
        &&& new_sleeping.spec_previous_update() is None
    }
}

/// The glyph shown for a load of `u` percent: the current frame of the cat
/// for that load.
pub open spec fn cat_glyph(running: AnimatedEmoji, sleeping: AnimatedEmoji, u: int) -> char {
    if u < SLEEPING_THRESHOLD_PERCENT {
        sleeping.spec_frames()[sleeping.spec_frame()]
    } else {
        running.spec_frames()[running.spec_frame()]
    }
}

/// CPU load and the two cats that show it.
pub struct CpuMetric {
    cpu_usage: Option<u8>,
    total: u64,
    idle: u64,
    running_cat_emoji: AnimatedEmoji,
    sleeping_cat_emoji: AnimatedEmoji,
}

impl CpuMetric {
    pub closed spec fn spec_usage(&self) -> Option<u8> {
        self.cpu_usage
    }

    pub closed spec fn spec_total(&self) -> u64 {
        self.total
    }

    pub closed spec fn spec_idle(&self) -> u64 {
        self.idle
    }

    pub closed spec fn spec_running(&self) -> AnimatedEmoji {
        self.running_cat_emoji
    }

    pub closed spec fn spec_sleeping(&self) -> AnimatedEmoji {
        self.sleeping_cat_emoji
    }

    pub open spec fn wf(&self) -> bool {
        &&& self.spec_running().wf()
        &&& self.spec_sleeping().wf()
        &&& self.spec_usage() matches Some(u) ==> u <= 100
    }

    /// The state before any reading: no load known, counters at one, the
    /// running cat with its 16 glyphs from U+E300 at 0.5 to 7.6 Hz, the
    /// sleeping cat with its 15 glyphs from U+E000 at 0.2 to 0.9 Hz, both at
    /// frame 0 with no recorded advance.
    pub open spec fn spec_is_initial(&self) -> bool {
        &&& self.spec_usage() is None
        &&& self.spec_total() == 1
        &&& self.spec_idle() == 1
        &&& self.spec_running().spec_frames().len() == RUNNING_CAT_FRAMES
        &&& forall|i: int|
            0 <= i < RUNNING_CAT_FRAMES ==> (#[trigger] self.spec_running().spec_frames()[i]) as u32
                == RUNNING_CAT_BASE as u32 + i
        &&& self.spec_running().spec_max_frequency() == MAX_FREQUENCY
        &&& self.spec_running().spec_min_frequency() == MIN_FREQUENCY
        &&& self.spec_running().spec_frame() == 0
        &&& self.spec_running().spec_previous_update() is None
        &&& self.spec_sleeping().spec_frames().len() == SLEEPING_CAT_FRAMES
        &&& forall|i: int|
            0 <= i < SLEEPING_CAT_FRAMES ==> (#[trigger] self.spec_sleeping().spec_frames()[i])
                as u32 == SLEEPING_CAT_BASE as u32 + i
        &&& self.spec_sleeping().spec_max_frequency() == SLEEPING_MAX_FREQUENCY
        &&& self.spec_sleeping().spec_min_frequency() == SLEEPING_MIN_FREQUENCY
        &&& self.spec_sleeping().spec_frame() == 0
        &&& self.spec_sleeping().spec_previous_update() is None
    }

    /// No load known yet, counters at one, both cats at their first frame.
    pub fn new() -> (r: CpuMetric)
        ensures
            r.wf(),
            r.spec_is_initial(),
    {
        assert(RUNNING_CAT_BASE as u32 == 0xe300u32);
        assert(SLEEPING_CAT_BASE as u32 == 0xe000u32);
        let running_frames = match range_chars(RUNNING_CAT_BASE, RUNNING_CAT_FRAMES) {
            Some(f) => f,
            None => {
                return vstd::pervasive::unreached();
            },
        };
        let sleeping_frames = match range_chars(SLEEPING_CAT_BASE, SLEEPING_CAT_FRAMES) {
            Some(f) => f,
            None => {
                return vstd::pervasive::unreached();
            },
        };
        let running = AnimatedEmoji::builder().frames(running_frames).min_frequency(
            MIN_FREQUENCY,
        ).max_frequency(MAX_FREQUENCY).build();
        let sleeping = AnimatedEmoji::builder().frames(sleeping_frames).min_frequency(
            SLEEPING_MIN_FREQUENCY,
        ).max_frequency(SLEEPING_MAX_FREQUENCY).build();
        match (running, sleeping) {
            (Ok(running_cat_emoji), Ok(sleeping_cat_emoji)) => CpuMetric {
                cpu_usage: None,
                total: 1,
                idle: 1,
                running_cat_emoji,
                sleeping_cat_emoji,
            },
            _ => vstd::pervasive::unreached(),
        }
    }

    /// The glyph for a load of `cpu_usage` percent at time `now`: below the
    /// threshold the sleeping cat advances and the running one starts over,
    /// otherwise the other way round.
    fn get_emoji(&mut self, cpu_usage: u8, now: u64) -> (r: char)
        requires
            old(self).wf(),
            cpu_usage <= 100,
        ensures
            final(self).wf(),
            final(self).spec_usage() == old(self).spec_usage(),
            final(self).spec_total() == old(self).spec_total(),
            final(self).spec_idle() == old(self).spec_idle(),
            cats_step(
                old(self).spec_running(),
                old(self).spec_sleeping(),
                final(self).spec_running(),
                final(self).spec_sleeping(),
                cpu_usage as int,
                now,
            ),
            r == cat_glyph(final(self).spec_running(), final(self).spec_sleeping(), cpu_usage as int),
    {
        if cpu_usage < SLEEPING_THRESHOLD_PERCENT {
            let speed: u32 = (cpu_usage as u32) * SPEED_SCALE / (SLEEPING_THRESHOLD_PERCENT as u32);
            self.running_cat_emoji.reset();
            self.sleeping_cat_emoji.next_frame(speed, now)
        } else {
            let above: u32 = (cpu_usage - SLEEPING_THRESHOLD_PERCENT) as u32;
            assert((above as int) * 1_000_000 / 90 <= 1_000_000) by (nonlinear_arith)
                requires
                    above <= 90,
            ;
            let speed: u32 = above * SPEED_SCALE / (100 - SLEEPING_THRESHOLD_PERCENT as u32);
            self.sleeping_cat_emoji.reset();
            self.running_cat_emoji.next_frame(speed, now)
        }
    }

    /// Reads the `cpu` line of `/proc/stat`, returns the busy percentage since
    /// the previous reading and keeps this reading for the next one.
    pub fn read_percentage(&mut self, line: &str) -> (r: Result<u8, CpuError>)
        requires
            old(self).wf(),
        ensures
            final(self).wf(),
            final(self).spec_usage() == old(self).spec_usage(),
            final(self).spec_running() == old(self).spec_running(),
            final(self).spec_sleeping() == old(self).spec_sleeping(),
            match cpu_times(line@) {
                Some((total, idle)) => if total <= u64::MAX {
                    &&& r == Ok::<u8, CpuError>(
                        busy_percent(
                            total as int,
                            idle as int,
                            old(self).spec_total() as int,
                            old(self).spec_idle() as int,
                        ) as u8,
                    )
                    &&& final(self).spec_total() == total
                    &&& final(self).spec_idle() == idle
                } else {
                    &&& r == Err::<u8, CpuError>(CpuError::MalformedCpuData)
                    &&& final(self).spec_total() == old(self).spec_total()
                    &&& final(self).spec_idle() == old(self).spec_idle()
                },
                None => {
                    &&& r == Err::<u8, CpuError>(CpuError::MalformedCpuData)
                    &&& final(self).spec_total() == old(self).spec_total()
                    &&& final(self).spec_idle() == old(self).spec_idle()
                },
            },
            r matches Ok(p) ==> p <= 100,
    {
        let f = fields_of(&chars_of(line));
        if f.len() < 6 {
            return Err(CpuError::MalformedCpuData);
        }
        let mut values: Vec<u64> = Vec::new();
        let mut i: usize = 1;
        while i < 6
            invariant
                1 <= i <= 6,
                f@.len() >= 6,
                values@.len() == i - 1,
                forall|j: int|
                    0 <= j < i - 1 ==> (#[trigger] values@[j]) as nat == field_number(f@[j + 1]@),
            decreases 6 - i,
        {
            let v: u64 = match parse_u64(&f[i]) {
                Some(v) => v,
                None => 0,
            };
            values.push(v);
            i = i + 1;
        }
        assert(crate::text::views(f@)[1] == f@[1]@);
        assert(crate::text::views(f@)[2] == f@[2]@);
        assert(crate::text::views(f@)[3] == f@[3]@);
        assert(crate::text::views(f@)[4] == f@[4]@);
        assert(crate::text::views(f@)[5] == f@[5]@);
        let total_wide: u128 = values[0] as u128 + values[1] as u128 + values[2] as u128
            + values[3] as u128 + values[4] as u128;
        if total_wide > u64::MAX as u128 {
            return Err(CpuError::MalformedCpuData);
        }
        let total_new = total_wide as u64;
        let idle_new = values[3] + values[4];
        let delta_total: u64 = if total_new > self.total {
            total_new - self.total
        } else {
            0
        };
        let delta_idle: u64 = if idle_new > self.idle {
            idle_new - self.idle
        } else {
            0
        };
        let busy: u64 = if delta_total > delta_idle {
            delta_total - delta_idle
        } else {
            0
        };
        let percent: u128 = if delta_total == 0 {
            0
        } else {
            (busy as u128) * 100 / (delta_total as u128)
        };
        assert(percent <= 100) by (nonlinear_arith)
            requires
                busy <= delta_total,
                delta_total == 0 ==> percent == 0,
                delta_total > 0 ==> percent as int == (busy as int) * 100 / (delta_total as int),
        ;
        let percentage: u8 = if percent > 255 {
            100
        } else {
            percent as u8
        };
        self.total = total_new;
        self.idle = idle_new;
        Ok(percentage)
    }

    /// Takes the `cpu` line read from `/proc/stat`, or why it could not be
    /// read. On any failure the load becomes unknown.
    pub fn update(&mut self, line: Result<String, ReadLineError>) -> (r: Result<(), CpuError>)
        requires
            old(self).wf(),
        ensures
            final(self).wf(),
            line matches Err(e) ==> r == Err::<(), CpuError>(CpuError::ReadLine(e)),
            line is Err ==> final(self).spec_total() == old(self).spec_total()
                && final(self).spec_idle() == old(self).spec_idle(),
            final(self).spec_running() == old(self).spec_running(),
            final(self).spec_sleeping() == old(self).spec_sleeping(),
            r is Err ==> final(self).spec_usage() is None,
            line matches Ok(l) ==> match cpu_times(l@) {
                Some((total, idle)) => if total <= u64::MAX {
                    &&& r is Ok
                    &&& final(self).spec_usage() == Some(
                        busy_percent(
                            total as int,
                            idle as int,
                            old(self).spec_total() as int,
                            old(self).spec_idle() as int,
                        ) as u8,
                    )
                    &&& final(self).spec_total() == total
                    &&& final(self).spec_idle() == idle
                } else {
                    &&& r == Err::<(), CpuError>(CpuError::MalformedCpuData)
                    &&& final(self).spec_total() == old(self).spec_total()
                    &&& final(self).spec_idle() == old(self).spec_idle()
                },
                None => {
                    &&& r == Err::<(), CpuError>(CpuError::MalformedCpuData)
                    &&& final(self).spec_total() == old(self).spec_total()
                    &&& final(self).spec_idle() == old(self).spec_idle()
                },
            },
    {
        match line {
            Err(e) => {
                self.cpu_usage = None;
                Err(CpuError::ReadLine(e))
            },
            Ok(l) => match self.read_percentage(l.as_str()) {
                Ok(p) => {
                    self.cpu_usage = Some(p);
                    Ok(())
                },
                Err(e) => {
                    self.cpu_usage = None;
                    Err(e)
                },
            },
        }
    }

    /// The text at time `now`: the cat's glyph, the load right-aligned in two
    /// places, `% cpu`; empty while the load is unknown.
    pub fn text(&mut self, now: u64) -> (r: String)
        requires
            old(self).wf(),
        ensures
            final(self).wf(),
            final(self).spec_usage() == old(self).spec_usage(),
            old(self).spec_usage() is None ==> r@ == Seq::<char>::empty(),
            old(self).spec_usage() is None ==> final(self).spec_running() == old(self).spec_running()
                && final(self).spec_sleeping() == old(self).spec_sleeping(),
            old(self).spec_usage() matches Some(u) ==> {
                &&& cats_step(
                    old(self).spec_running(),
                    old(self).spec_sleeping(),
                    final(self).spec_running(),
                    final(self).spec_sleeping(),
                    u as int,
                    now,
                )
                &&& r@ == seq![cat_glyph(final(self).spec_running(), final(self).spec_sleeping(), u as int)]
                    + " "@ + pad_left(decimal(u as nat), 2) + "% cpu"@
            },
    {
        match self.cpu_usage {
            None => String::new(),
            Some(u) => {
                let g = self.get_emoji(u, now);
                let mut s = String::new();
                push_char(&mut s, g);
                s.append(" ");
                push_decimal_padded(&mut s, u as u64, 2);
                s.append("% cpu");
                assert(s@ =~= seq![g] + " "@ + pad_left(decimal(u as nat), 2) + "% cpu"@);
                s
            },
        }
    }
}

impl Default for CpuMetric {
    fn default() -> (r: Self)
        ensures
            r.wf(),
            r.spec_is_initial(),
    {
        CpuMetric::new()
    }
}

impl Metric for CpuMetric {
    open spec fn spec_name(&self) -> Seq<char> {
        "CPU"@
    }

    fn name(&self) -> (r: &'static str) {
        "CPU"
    }
}

} // verus!
