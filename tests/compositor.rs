use barstatus::compose::compose;
use barstatus::render::{RenderLoop, RenderState, SEPARATOR, STATUS_WIDTH};
use barstatus::xsetroot::{exit_outcome, Error};

fn texts(items: &[&str]) -> Vec<String> {
    items.iter().map(|s| s.to_string()).collect()
}

#[test]
fn skips_empty_metrics_and_truncates_to_width() {
    let line = compose(&texts(&["cpu: 5%", "", "net: 1KiB/s"]), " | ", 20);
    assert_eq!(line, "cpu: 5% | net: 1KiB/");
    assert_eq!(line.len(), 20);
}

#[test]
fn pads_on_the_left_to_width() {
    let line = compose(&texts(&["cpu: 5%", "", "net: 1KiB/s"]), " | ", 25);
    assert_eq!(line, "    cpu: 5% | net: 1KiB/s");
}

#[test]
fn all_empty_gives_all_spaces() {
    assert_eq!(compose(&texts(&["", "", ""]), " | ", 7), "       ");
    assert_eq!(compose(&texts(&[]), " | ", 3), "   ");
}

#[test]
fn never_splits_a_multibyte_glyph() {
    let line = compose(&texts(&["ab\u{1f50b}c"]), " | ", 3);
    assert_eq!(line, "ab\u{1f50b}");
    let line = compose(&texts(&["ab\u{1f50b}c"]), " | ", 6);
    assert_eq!(line, "  ab\u{1f50b}c");
    assert_eq!(line.chars().count(), 6);
}

#[test]
fn multibyte_text_that_fits_is_kept_whole() {
    let text = "\u{e9}".repeat(47);
    let line = compose(&texts(&[&text]), " | ", 93);
    assert_eq!(line, format!("{}{}", " ".repeat(46), text));
}

#[test]
fn composing_twice_is_identical() {
    let t = texts(&["a", "b\u{e300}", "c"]);
    assert_eq!(compose(&t, SEPARATOR, STATUS_WIDTH), compose(&t, SEPARATOR, STATUS_WIDTH));
    assert_eq!(compose(&t, SEPARATOR, STATUS_WIDTH).chars().count(), STATUS_WIDTH);
}

#[test]
fn padding_counts_chars() {
    let line = compose(&texts(&["\u{e9}"]), " | ", 93);
    assert_eq!(line, format!("{}\u{e9}", " ".repeat(92)));
    assert_eq!(line.chars().count(), 93);
}

#[test]
fn zero_width_is_empty() {
    assert_eq!(compose(&texts(&["abc"]), " | ", 0), "");
}

#[test]
fn render_loop_stops_on_sink_failure() {
    let mut r = RenderLoop::new(10);
    let line = r.tick(&texts(&["a", "b"]), " | ");
    assert_eq!(line.as_deref(), Some("     a | b"));
    assert!(r.on_sink(Ok(())).is_ok());
    assert_eq!(r.state(), RenderState::Running);
    assert_eq!(r.on_sink(Err(Error::XSetRootCode(1))), Err(Error::XSetRootCode(1)));
    assert_eq!(r.state(), RenderState::Stopped);
    assert_eq!(r.tick(&texts(&["a"]), " | "), None);
}

#[test]
fn exit_codes_map_to_errors() {
    assert_eq!(exit_outcome(Some(0)), Ok(()));
    assert_eq!(exit_outcome(Some(2)), Err(Error::XSetRootCode(2)));
    assert_eq!(exit_outcome(None), Err(Error::XSetRootSignal));
}

#[test]
fn sink_error_messages() {
    assert_eq!(Error::XSetRootCode(3).message(), "xsetroot exited with code: 3");
    assert_eq!(Error::XSetRootCode(-2).message(), "xsetroot exited with code: -2");
    assert_eq!(
        Error::XSetRootCode(i32::MIN).message(),
        "xsetroot exited with code: -2147483648"
    );
    assert_eq!(Error::XSetRootSignal.message(), "xsetroot was killed by a signal");
    assert_eq!(Error::Io.message(), "IO error");
}
