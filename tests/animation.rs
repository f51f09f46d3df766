use barstatus::emojis::animated_emoji::{AnimatedEmoji, AnimatorError, SPEED_SCALE};
use barstatus::emojis::running_cat::RunningCat;

const MS: u64 = 1_000_000;

fn frames(n: u32) -> Vec<char> {
    (0..n).map(|i| char::from_u32('a' as u32 + i).unwrap()).collect()
}

fn animator(max: u32, min: u32, n: u32) -> AnimatedEmoji {
    AnimatedEmoji::builder()
        .frames(frames(n))
        .min_frequency(min)
        .max_frequency(max)
        .build()
        .unwrap()
}

#[test]
fn frame_index_stays_in_range_for_all_speeds() {
    let mut e = animator(7600, 500, 16);
    let mut now = 1_000 * MS;
    for step in 0..200u64 {
        let speed = ((step * 7919) % (SPEED_SCALE as u64 + 1)) as u32;
        now += (step % 13) * 37 * MS;
        let g = e.next_frame(speed, now);
        assert!(e.frame() < e.frame_count());
        assert_eq!(g, frames(16)[e.frame()]);
    }
}

#[test]
fn reset_then_query_shows_first_frame() {
    let mut e = animator(10_000, 0, 3);
    e.next_frame(SPEED_SCALE, 0);
    e.next_frame(SPEED_SCALE, 40 * MS);
    assert_ne!(e.frame(), 0);
    e.reset();
    assert_eq!(e.next_frame(SPEED_SCALE, 5_000 * MS), 'a');
    assert_eq!(e.frame(), 0);
}

#[test]
fn catch_up_after_one_full_cycle_returns_to_same_frame() {
    // 10 Hz, 5 frames: 50 frames per second, 20 ms per frame.
    let mut e = animator(10_000, 0, 5);
    let t0 = 7 * MS;
    assert_eq!(e.next_frame(SPEED_SCALE, t0), 'a');
    assert_eq!(e.next_frame(SPEED_SCALE, t0 + 40 * MS), 'c');
    // 100 ms later: exactly 5 frames, back to the same index.
    assert_eq!(e.next_frame(SPEED_SCALE, t0 + 140 * MS), 'c');
    assert_eq!(e.frame(), 2);
}

#[test]
fn single_frame_period_advances_one_frame() {
    let mut e = animator(10_000, 0, 5);
    e.next_frame(SPEED_SCALE, 0);
    assert_eq!(e.next_frame(SPEED_SCALE, 19 * MS), 'a');
    assert_eq!(e.next_frame(SPEED_SCALE, 20 * MS), 'b');
}

#[test]
fn zero_speed_uses_min_frequency() {
    // min 1 Hz, 4 frames: 4 frames per second, 250 ms per frame.
    let mut e = animator(8_000, 1_000, 4);
    e.next_frame(0, 0);
    assert_eq!(e.next_frame(0, 249 * MS), 'a');
    assert_eq!(e.next_frame(0, 250 * MS), 'b');
}

#[test]
fn clock_going_backwards_holds_the_frame() {
    let mut e = animator(10_000, 0, 5);
    e.next_frame(SPEED_SCALE, 100 * MS);
    assert_eq!(e.next_frame(SPEED_SCALE, 50 * MS), 'a');
}

#[test]
fn builder_rejects_invalid_parameters() {
    let empty = AnimatedEmoji::builder().frames(Vec::new()).max_frequency(5).build();
    assert!(matches!(empty, Err(AnimatorError::EmptyFrames)));
    let zero = AnimatedEmoji::builder().frames(frames(2)).max_frequency(0).build();
    assert!(matches!(zero, Err(AnimatorError::NonPositiveMaxFrequency)));
    let inverted = AnimatedEmoji::builder()
        .frames(frames(2))
        .min_frequency(9)
        .max_frequency(5)
        .build();
    assert!(matches!(inverted, Err(AnimatorError::MinAboveMax)));
    assert!(AnimatedEmoji::new(5, 5, frames(1)).is_ok());
}

#[test]
fn running_cat_sleeps_below_threshold_and_steps_once() {
    let mut cat = RunningCat::builder()
        .frames(vec!['x', 'y', 'z'])
        .sleep_frame('s')
        .speed_threshold(SPEED_SCALE / 10)
        .max_cycles_per_second(1_000)
        .build()
        .ok()
        .unwrap();
    assert_eq!(cat.get_frame(SPEED_SCALE / 20, 10_000 * MS), 's');
    // Full speed: 3 frames per second, period 333 ms; far past the epoch.
    assert_eq!(cat.get_frame(SPEED_SCALE, 10_000 * MS), 'y');
    assert_eq!(cat.get_frame(SPEED_SCALE, 10_300 * MS), 'y');
    assert_eq!(cat.get_frame(SPEED_SCALE, 10_334 * MS), 'z');
    assert_eq!(cat.get_frame(SPEED_SCALE, 20_000 * MS), 'x');
}

#[test]
fn running_cat_needs_frames_and_a_rate() {
    assert!(matches!(RunningCat::builder().build(), Err(AnimatorError::EmptyFrames)));
    let no_rate = RunningCat::builder().frames(vec!['x']).build();
    assert!(matches!(no_rate, Err(AnimatorError::NonPositiveMaxFrequency)));
}
