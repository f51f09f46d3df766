use barstatus::metrics::battery::{BatteryMetric, ChargeState, charge_state};
use barstatus::metrics::bluetooth::BluetoothChargeMetric;
use barstatus::metrics::cpu::{range_chars, CpuError, CpuMetric};
use barstatus::metrics::date::{format_date, DateMetric, DateTimeParts};
use barstatus::metrics::mem::MemMetric;
use barstatus::metrics::net::{num_fmt, NetMetric};
use barstatus::metrics::update::UpdatesMetric;
use barstatus::metrics::xkblayout::XkbLayoutMetric;
use barstatus::read_line::ReadLineError;
use barstatus::{CommandOutput, CommonError, Metric};

const SEC: u64 = 1_000_000_000;

fn out(code: Option<i32>, stdout: Option<&str>) -> CommandOutput {
    CommandOutput { code, stdout: stdout.map(|s| s.to_string()) }
}

#[test]
fn throughput_two_seconds_apart() {
    let mut net = NetMetric::new();
    net.update(1000, 1000, 10 * SEC);
    assert_eq!(net.download(), 0);
    net.update(3000, 3000, 12 * SEC);
    assert_eq!(net.download(), 1000);
    assert_eq!(net.upload(), 1000);
    assert_eq!(net.text(), "🔽1000B/s 🔼1000B/s");
}

#[test]
fn throughput_needs_previous_nonzero_counters_and_growth() {
    let mut net = NetMetric::new();
    net.update(0, 0, 0);
    net.update(5000, 5000, 2 * SEC);
    assert_eq!(net.download(), 0);
    net.update(4000, 9000, 4 * SEC);
    assert_eq!(net.download(), 0);
    assert_eq!(net.upload(), 0);
    net.update(4000, 9000, 4 * SEC + SEC / 2);
    net.update(6000, 11000, 5 * SEC);
    assert_eq!(net.download(), 0);
}

#[test]
fn human_readable_byte_counts() {
    assert_eq!(num_fmt(0), "0B");
    assert_eq!(num_fmt(1024), "1024B");
    assert_eq!(num_fmt(1025), "1KiB");
    assert_eq!(num_fmt(1536), "1.50KiB");
    assert_eq!(num_fmt(1024 * 1024 * 3 + 1024 * 512), "3.50MiB");
    assert_eq!(num_fmt(u64::MAX), "16383PiB");
    assert_eq!(num_fmt(1000 * 1024 + 1), "1000KiB");
}

#[test]
fn interface_paths_from_listing() {
    let paths = NetMetric::for_zipped_xfiles(Ok(out(Some(0), Some("eth0\n\nwlan0\r\n")))).unwrap();
    assert_eq!(
        paths,
        vec![
            (
                "/sys/class/net/eth0/statistics/rx_bytes".to_string(),
                "/sys/class/net/eth0/statistics/tx_bytes".to_string()
            ),
            (
                "/sys/class/net/wlan0/statistics/rx_bytes".to_string(),
                "/sys/class/net/wlan0/statistics/tx_bytes".to_string()
            ),
        ]
    );
    assert!(matches!(
        NetMetric::for_zipped_xfiles(Ok(out(Some(0), None))),
        Err(CommonError::Utf8)
    ));
    assert!(matches!(NetMetric::for_zipped_xfiles(Err(CommonError::Io)), Err(CommonError::Io)));
}

#[test]
fn counter_sums_skip_unparsable_pairs() {
    let pairs = vec![
        (Ok("100".to_string()), Ok("200".to_string())),
        (Ok("x".to_string()), Ok("5".to_string())),
        (Err(ReadLineError::Io), Ok("5".to_string())),
        (Ok("+7".to_string()), Ok("8".to_string())),
    ];
    assert_eq!(NetMetric::sum_counters(&pairs), (107, 208));
    let big = vec![
        (Ok(u64::MAX.to_string()), Ok("1".to_string())),
        (Ok("1".to_string()), Ok("1".to_string())),
    ];
    assert_eq!(NetMetric::sum_counters(&big), (u64::MAX, 2));
}

#[test]
fn cpu_percentage_from_proc_stat() {
    let mut cpu = CpuMetric::new();
    let p = cpu.read_percentage("cpu  100 0 100 800 0 0 0 0 0 0").unwrap();
    // total 1000, idle 800, against 1 and 1: busy 200 of 999.
    assert_eq!(p, 20);
    let p = cpu.read_percentage("cpu  150 0 150 900 0").unwrap();
    assert_eq!(p, 50);
    let p = cpu.read_percentage("cpu  150 0 150 900 0").unwrap();
    assert_eq!(p, 0);
    assert!(matches!(cpu.read_percentage("cpu 1 2 3"), Err(CpuError::MalformedCpuData)));
}

#[test]
fn cpu_text_and_failure() {
    let mut cpu = CpuMetric::new();
    assert_eq!(cpu.text(0), "");
    cpu.update(Ok("cpu  1 0 0 9 0".to_string())).unwrap();
    // total 10, idle 9 against 1, 1: busy 1 of 9 = 11%.
    let t = cpu.text(0);
    assert!(t.ends_with(" 11% cpu"), "{t}");
    let glyph = t.chars().next().unwrap() as u32;
    assert!((0xe300..0xe310).contains(&glyph));
    cpu.update(Ok("cpu  1 0 0 99 0".to_string())).unwrap();
    let t = cpu.text(SEC);
    assert!(t.ends_with("  0% cpu"), "{t}");
    let glyph = t.chars().next().unwrap() as u32;
    assert!((0xe000..0xe00f).contains(&glyph));
    assert!(cpu.update(Err(ReadLineError::Io)).is_err());
    assert_eq!(cpu.text(2 * SEC), "");
    assert_eq!(cpu.name(), "CPU");
}

#[test]
fn range_of_chars() {
    assert_eq!(range_chars('a', 3), Some(vec!['a', 'b', 'c']));
    assert_eq!(range_chars('\u{d7ff}', 2), None);
    assert_eq!(range_chars('\u{10ffff}', 1), Some(vec!['\u{10ffff}']));
    assert_eq!(range_chars('\u{10ffff}', 2), None);
}

#[test]
fn battery_below_threshold() {
    let mut b = BatteryMetric::new(80);
    assert_eq!(b.text(), "");
    b.update(Ok("Charging".to_string()), Ok(" 45 ".to_string())).unwrap();
    assert_eq!(b.text(), "🔌🔼 45%");
    b.update(Ok("Discharging".to_string()), Ok("79".to_string())).unwrap();
    assert_eq!(b.text(), "🔋🔽 79%");
    b.update(Ok("Full".to_string()), Ok("80".to_string())).unwrap();
    assert_eq!(b.text(), "");
    b.update(Ok("Not charging".to_string()), Ok("3".to_string())).unwrap();
    assert_eq!(b.text(), "🔋 3%");
    assert!(matches!(
        b.update(Ok("Charging".to_string()), Ok("300".to_string())),
        Err(CommonError::ParseInt)
    ));
    assert_eq!(b.text(), "");
    assert!(matches!(
        b.update(Err(ReadLineError::Io), Ok("3".to_string())),
        Err(CommonError::ReadLine(ReadLineError::Io))
    ));
    assert_eq!(charge_state("  Charging\n"), ChargeState::Charging);
    assert_eq!(b.name(), "Battery");
}

#[test]
fn bluetooth_charge() {
    let mut b = BluetoothChargeMetric::new();
    assert_eq!(b.text(), "");
    b.update(Some(out(Some(0), Some("85\n"))));
    assert_eq!(b.text(), "\u{1f3a7}\u{26a1}\u{fe0f} 85%");
    b.update(Some(out(Some(0), Some(""))));
    assert_eq!(b.text(), "");
    b.update(None);
    assert_eq!(b.text(), "");
    assert_eq!(b.name(), "Bluetooth Charge");
}

#[test]
fn keyboard_layout() {
    let mut x = XkbLayoutMetric::new();
    x.update(Ok(out(Some(0), Some("us\n")))).unwrap();
    assert_eq!(x.text(), "🌍 us");
    assert!(matches!(
        x.update(Ok(out(Some(1), Some("us\n")))),
        Err(CommonError::UnsuccessfullShell(Some(1)))
    ));
    assert_eq!(x.text(), "");
    let long = "x".repeat(33);
    assert!(matches!(x.update(Ok(out(Some(0), Some(&long)))), Err(CommonError::Capacity)));
    let fits = "y".repeat(32);
    x.update(Ok(out(Some(0), Some(&fits)))).unwrap();
    assert_eq!(x.text(), format!("🌍 {fits}"));
    assert!(matches!(x.update(Ok(out(Some(0), None))), Err(CommonError::Utf8)));
}

#[test]
fn memory_usage() {
    let mut m = MemMetric::new();
    assert_eq!(m.text(), "");
    m.update(Some(out(Some(0), Some("1.2Gi/7.6Gi\n"))));
    assert_eq!(m.text(), "📝 1.2Gi/7.6Gi");
    m.update(Some(out(Some(0), Some(&"z".repeat(25)))));
    assert_eq!(m.text(), "");
    m.update(Some(out(Some(0), Some(&format!("{}\n", "z".repeat(24))))));
    assert_eq!(m.text(), format!("📝 {}", "z".repeat(24)));
    m.update(None);
    assert_eq!(m.text(), "");
    assert_eq!(m.name(), "Mem");
}

#[test]
fn pending_updates() {
    let mut u = UpdatesMetric::new(60 * SEC);
    assert_eq!(u.get_timeout(), 60 * SEC);
    assert_eq!(u.text(), "");
    u.update(Some(out(Some(0), Some("linux 6.1 -> 6.2\nfoo 1 -> 2\n"))));
    assert_eq!(u.text(), "🔁! 2");
    u.update(Some(out(Some(0), Some("foo 1 -> 2\nbar 3 -> 4\nbaz"))));
    assert_eq!(u.text(), "🔁 3");
    u.update(Some(out(Some(2), Some("foo\n"))));
    assert_eq!(u.text(), "");
}

#[test]
fn date_format() {
    let t = DateTimeParts { weekday: 0, month: 1, day: 5, hour: 14, minute: 3, second: 9 };
    assert_eq!(format_date(&t), "Mon, Jan 05 14:03:09");
    let t = DateTimeParts { weekday: 6, month: 12, day: 31, hour: 0, minute: 59, second: 0 };
    assert_eq!(format_date(&t), "Sun, Dec 31 00:59:00");
    assert_eq!(DateMetric::new().name(), "DateTime");
    let t = DateTimeParts { weekday: 3, month: 7, day: 14, hour: 9, minute: 30, second: 5 };
    assert_eq!(DateMetric::new().text(&t), "Thu, Jul 14 09:30:05");
}
