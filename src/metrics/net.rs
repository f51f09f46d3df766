//! Network throughput: bytes per second received and sent over the
//! interfaces that are up, from two consecutive readings of their counters.
use crate::emojis::animated_emoji::{elapsed, NANOS_PER_SEC};
use crate::text::{
    capped_push, chars_of, decimal, fixed_capacity, lines, lines_of, parse_u64, parse_unsigned,
    push_chars, push_decimal, string_of, views,
};
use crate::read_line::ReadLineError;
use crate::{CommandOutput, CommonError, Metric};
use vstd::prelude::*;
use vstd::string::*;

verus! {

/// Capacity of an interface's statistics path, in bytes.
pub const PATH_CAPACITY: usize = 256;

/// The unit after `pow` divisions by 1024.
pub open spec fn power_name(pow: nat) -> Seq<char> {
    if pow == 0 {
        "B"@
    } else if pow == 1 {
        "KiB"@
    } else if pow == 2 {
        "MiB"@
    } else if pow == 3 {
        "GiB"@
    } else if pow == 4 {
        "TiB"@
    } else {
        "PiB"@
    }
}

/// Divides by 1024 while the number exceeds 1024 and a larger unit is left,
/// keeping the hundredths of the last division: (number, unit, hundredths).
pub open spec fn scale(number: nat, pow: nat, rem: nat) -> (nat, nat, nat)
    decreases number,
{
    if number > 1024 && pow < 5 {
        scale(number / 1024, pow + 1, (number % 1024) * 100 / 1024)
    } else {
        (number, pow, rem)
    }
}

/// A byte count in the largest binary unit that keeps it above 1024, with
/// hundredths when there are any and the number is below 1000.
pub open spec fn human_bytes(n: nat) -> Seq<char> {
    let (number, pow, rem) = scale(n, 0, 0);
    if rem > 0 && number < 1000 {
        decimal(number) + "."@ + decimal(rem) + power_name(pow)
    } else {
        decimal(number) + power_name(pow)
    }
}

/// The statistics directory of `iface`, built in a buffer of
/// `PATH_CAPACITY` bytes where a piece that does not fit is left out.
pub open spec fn stats_dir(iface: Seq<char>) -> Seq<char> {
    let cap = PATH_CAPACITY as nat;
    capped_push(capped_push(capped_push(seq![], "/sys/class/net/"@, cap), iface, cap), "/statistics/"@, cap)
}

/// The paths of the received and sent byte counters of `iface`.
pub open spec fn counter_paths(iface: Seq<char>) -> (Seq<char>, Seq<char>) {
    let cap = PATH_CAPACITY as nat;
    (capped_push(stats_dir(iface), "rx_bytes"@, cap), capped_push(stats_dir(iface), "tx_bytes"@, cap))
}

/// Counter paths for each non-empty line of `ls`, in order.
pub open spec fn paths_of_lines(ls: Seq<Seq<char>>) -> Seq<(Seq<char>, Seq<char>)>
    decreases ls.len(),
{
    if ls.len() == 0 {
        seq![]
    } else {
        let p = paths_of_lines(ls.drop_last());
        if ls.last().len() > 0 {
            p.push(counter_paths(ls.last()))
        } else {
            p
        }
    }
}

/// Counter paths for every interface named on a line of `listing`.
pub open spec fn interface_counter_paths(listing: Seq<char>) -> Seq<(Seq<char>, Seq<char>)> {
    paths_of_lines(lines(listing))
}

/// The views of a sequence of string pairs.
pub open spec fn pair_views(p: Seq<(String, String)>) -> Seq<(Seq<char>, Seq<char>)> {
    p.map_values(|x: (String, String)| (x.0@, x.1@))
}

/// The text of a counter file, or `None` when it could not be read.
pub open spec fn read_text(r: Result<String, ReadLineError>) -> Option<Seq<char>> {
    match r {
        Ok(t) => Some(t@),
        Err(_) => None,
    }
}

/// The texts of pairs of counter files.
pub open spec fn read_views(p: Seq<(Result<String, ReadLineError>, Result<String, ReadLineError>)>) -> Seq<
    (Option<Seq<char>>, Option<Seq<char>>),
> {
    p.map_values(
        |x: (Result<String, ReadLineError>, Result<String, ReadLineError>)|
            (read_text(x.0), read_text(x.1)),
    )
}

/// The value of a counter file: its text as a `u64`; `None` when it could
/// not be read or does not parse.
pub open spec fn counter_value(t: Option<Seq<char>>) -> Option<nat> {
    match t {
        Some(x) => parse_unsigned(x, u64::MAX as nat),
        None => None,
    }
}

/// Received and sent totals over the interfaces whose two counters were both
/// read and both parse; the others are left out.
pub open spec fn counter_totals(counters: Seq<(Option<Seq<char>>, Option<Seq<char>>)>) -> (nat, nat)
    decreases counters.len(),
{
    if counters.len() == 0 {
        (0, 0)
    } else {
        let (rx, tx) = counter_totals(counters.drop_last());
        let (rx_text, tx_text) = counters.last();
        match (counter_value(rx_text), counter_value(tx_text)) {
            (Some(r), Some(t)) => (rx + r, tx + t),
            _ => (rx, tx),
        }
    }
}

pub open spec fn saturate(n: nat) -> u64 {
    if n > u64::MAX {
        u64::MAX
    } else {
        n as u64
    }
}

/// Builds `buf + piece` when it fits `PATH_CAPACITY` bytes.
fn push_path(buf: String, piece: &str) -> (r: String)
    ensures
        r@ == capped_push(buf@, piece@, PATH_CAPACITY as nat),
{
    let mut candidate = buf.clone();
    candidate.append(piece);
    match fixed_capacity::<256>(candidate.as_str()) {
        Some(s) => s,
        None => buf,
    }
}

/// Appends one unit name.
fn push_power(s: &mut String, pow: usize)
    requires
        pow <= 5,
    ensures
        final(s)@ == old(s)@ + power_name(pow as nat),
{
    if pow == 0 {
        s.append("B");
    } else if pow == 1 {
        s.append("KiB");
    } else if pow == 2 {
        s.append("MiB");
    } else if pow == 3 {
        s.append("GiB");
    } else if pow == 4 {
        s.append("TiB");
    } else {
        s.append("PiB");
    }
}

/// Formats a byte count with a binary unit, as `human_bytes` says.
pub fn num_fmt(n: u64) -> (r: String)
    ensures
        r@ == human_bytes(n as nat),
{
    let mut pow: usize = 0;
    let mut rem: u64 = 0;
    let mut number: u64 = n;
    while number > 1024 && pow < 5
        invariant
            pow <= 5,
            scale(n as nat, 0, 0) == scale(number as nat, pow as nat, rem as nat),
        decreases number,
    {
        rem = number % 1024 * 100 / 1024;
        number = number / 1024;
        pow = pow + 1;
    }
    let mut s = String::new();
    push_decimal(&mut s, number);
    if rem > 0 && number < 1000 {
        s.append(".");
        push_decimal(&mut s, rem);
    }
    push_power(&mut s, pow);
    s
}

/// Throughput and the counters it was computed from.
pub struct NetMetric {
    upload: u64,
    download: u64,
    rx_bytes: u64,
    tx_bytes: u64,
    previous_update: Option<u64>,
}

/// What a network metric holds.
pub struct NetView {
    pub upload: u64,
    pub download: u64,
    pub rx_bytes: u64,
    pub tx_bytes: u64,
    pub previous_update: Option<u64>,
}

impl View for NetMetric {
    type V = NetView;

    closed spec fn view(&self) -> NetView {
        NetView {
            upload: self.upload,
            download: self.download,
            rx_bytes: self.rx_bytes,
            tx_bytes: self.tx_bytes,
            previous_update: self.previous_update,
        }
    }
}

/// Whole seconds between the previous reading and `now`; zero before the
/// first reading.
pub open spec fn seconds_since(previous: Option<u64>, now: u64) -> int {
    match previous {
        None => 0,
        Some(p) => elapsed(p, now) / (NANOS_PER_SEC as int),
    }
}

/// A rate is computed only when time has passed, both counters grew, and
/// the previous counters were not zero (so the first reading and a counter
/// reset give no rate).
pub open spec fn rate_computable(s: NetView, rx: u64, tx: u64, now: u64) -> bool {
    &&& seconds_since(s.previous_update, now) > 0
    &&& rx > s.rx_bytes
    &&& tx > s.tx_bytes
    &&& s.tx_bytes != 0
    &&& s.rx_bytes != 0
}

/// The state after a reading of `rx` and `tx` total bytes at `now`.
pub open spec fn after_reading(s: NetView, rx: u64, tx: u64, now: u64) -> NetView {
    let secs = seconds_since(s.previous_update, now);
    NetView {
        upload: if rate_computable(s, rx, tx, now) {
            ((tx - s.tx_bytes) / secs) as u64
        } else {
            s.upload
        },
        download: if rate_computable(s, rx, tx, now) {
            ((rx - s.rx_bytes) / secs) as u64
        } else {
            s.download
        },
        rx_bytes: rx,
        tx_bytes: tx,
        previous_update: Some(now),
    }
}

impl NetMetric {
    /// No reading yet: rates and counters at zero.
    pub fn new() -> (r: NetMetric)
        ensures
            r@ == (NetView {
                upload: 0,
                download: 0,
                rx_bytes: 0,
                tx_bytes: 0,
                previous_update: None,
            }),
    {
        NetMetric { upload: 0, download: 0, rx_bytes: 0, tx_bytes: 0, previous_update: None }
    }

    /// The counter paths of the interfaces that the listing names, one per
    /// non-empty line, or the error of the listing command.
    pub fn for_zipped_xfiles(listing: Result<CommandOutput, CommonError>) -> (r: Result<
        Vec<(String, String)>,
        CommonError,
    >)
        ensures
            match listing {
                Err(e) => r == Err::<Vec<(String, String)>, CommonError>(e),
                Ok(out) => match out.stdout {
                    None => r == Err::<Vec<(String, String)>, CommonError>(CommonError::Utf8),
                    Some(text) => r matches Ok(paths) && pair_views(paths@)
                        == interface_counter_paths(text@),
                },
            },
    {
        let out = match listing {
            Err(e) => {
                return Err(e);
            },
            Ok(out) => out,
        };
        let text = match out.stdout {
            None => {
                return Err(CommonError::Utf8);
            },
            Some(t) => t,
        };
        let ls = lines_of(&chars_of(text.as_str()));
        let ghost all = lines(text@);
        let mut paths: Vec<(String, String)> = Vec::new();
        let mut i: usize = 0;
        while i < ls.len()
            invariant
                i <= ls@.len(),
                views(ls@) == all,
                pair_views(paths@) == paths_of_lines(all.subrange(0, i as int)),
            decreases ls@.len() - i,
        {
            let ghost pre = all.subrange(0, i as int);
            let ghost next = all.subrange(0, i + 1);
            assert(next.drop_last() =~= pre);
            assert(next.last() == ls@[i as int]@);
            assert(next =~= pre.push(ls@[i as int]@));
            if ls[i].len() > 0 {
                let iface = string_of(&ls[i]);
                let dir = push_path(
                    push_path(push_path(String::new(), "/sys/class/net/"), iface.as_str()),
                    "/statistics/",
                );
                let rx = push_path(dir.clone(), "rx_bytes");
                let tx = push_path(dir, "tx_bytes");
                let ghost old_paths = pair_views(paths@);
                paths.push((rx, tx));
                assert(pair_views(paths@) =~= old_paths.push((rx@, tx@)));
            }
            i = i + 1;
        }
        assert(all.subrange(0, ls@.len() as int) =~= all);
        Ok(paths)
    }

    /// Received and sent totals over the interfaces whose counter files were
    /// both read and both parse, saturating at `u64::MAX`.
    pub fn sum_counters(
        counters: &Vec<(Result<String, ReadLineError>, Result<String, ReadLineError>)>,
    ) -> (r: (u64, u64))
        ensures
            r.0 == saturate(counter_totals(read_views(counters@)).0),
            r.1 == saturate(counter_totals(read_views(counters@)).1),
    {
        let mut rx: u64 = 0;
        let mut tx: u64 = 0;
        let mut i: usize = 0;
        while i < counters.len()
            invariant
                i <= counters@.len(),
                rx == saturate(counter_totals(read_views(counters@.subrange(0, i as int))).0),
                tx == saturate(counter_totals(read_views(counters@.subrange(0, i as int))).1),
            decreases counters@.len() - i,
        {
            let ghost pre = read_views(counters@.subrange(0, i as int));
            let ghost next = read_views(counters@.subrange(0, i + 1));
            assert(next.drop_last() =~= pre);
            assert(next.last() == (read_text(counters@[i as int].0), read_text(counters@[i as int].1)));
            let r = match &counters[i].0 {
                Ok(text) => parse_u64(&chars_of(text.as_str())),
                Err(_) => None,
            };
            let t = match &counters[i].1 {
                Ok(text) => parse_u64(&chars_of(text.as_str())),
                Err(_) => None,
            };
            match (r, t) {
                (Some(r), Some(t)) => {
                    rx = if rx > u64::MAX - r {
                        u64::MAX
                    } else {
                        rx + r
                    };
                    tx = if tx > u64::MAX - t {
                        u64::MAX
                    } else {
                        tx + t
                    };
                },
                _ => {},
            }
            i = i + 1;
        }
        assert(counters@.subrange(0, counters@.len() as int) =~= counters@);
        (rx, tx)
    }

    /// Takes the counter totals read at `now` (nanoseconds): computes the
    /// rates when `rate_computable` holds, then keeps the totals and the time.
    pub fn update(&mut self, rx_bytes: u64, tx_bytes: u64, now: u64)
        ensures
            final(self)@ == after_reading(old(self)@, rx_bytes, tx_bytes, now),
    {
        let delta: u64 = match self.previous_update {
            None => 0,
            Some(p) => {
                let e: u64 = if now >= p {
                    now - p
                } else {
                    0
                };
                e / NANOS_PER_SEC
            },
        };
        if delta > 0 && rx_bytes > self.rx_bytes && tx_bytes > self.tx_bytes && self.tx_bytes != 0
            && self.rx_bytes != 0 {
            self.upload = (tx_bytes - self.tx_bytes) / delta;
            self.download = (rx_bytes - self.rx_bytes) / delta;
        }
        self.rx_bytes = rx_bytes;
        self.tx_bytes = tx_bytes;
        self.previous_update = Some(now);
    }

    /// Download rate, in bytes per second.
    pub fn download(&self) -> (r: u64)
        ensures
            r == self@.download,
    {
        self.download
    }

    /// Upload rate, in bytes per second.
    pub fn upload(&self) -> (r: u64)
        ensures
            r == self@.upload,
    {
        self.upload
    }

    /// The text: download rate, then upload rate.
    pub fn text(&self) -> (r: String)
        ensures
            r@ == "🔽"@ + human_bytes(self@.download as nat) + "/s 🔼"@ + human_bytes(
                self@.upload as nat,
            ) + "/s"@,
    {
        let mut s = String::new();
        s.append("🔽");
        let d = num_fmt(self.download);
        s.append(d.as_str());
        s.append("/s 🔼");
        let u = num_fmt(self.upload);
        s.append(u.as_str());
        s.append("/s");
        s
    }
}

impl Default for NetMetric {
    fn default() -> (r: Self)
        ensures
            r@ == (NetView {
                upload: 0,
                download: 0,
                rx_bytes: 0,
                tx_bytes: 0,
                previous_update: None,
            }),
    {
        NetMetric::new()
    }
}

impl Metric for NetMetric {
    open spec fn spec_name(&self) -> Seq<char> {
        "Net"@
    }

    fn name(&self) -> (r: &'static str) {
        "Net"
    }
}

} // verus!
