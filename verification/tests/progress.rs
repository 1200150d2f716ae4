use openrtx_companion::channel::ProgressChannel;
use openrtx_companion::progress::{Progress, Sample};

fn sample(transferred: usize, total: usize) -> Sample {
    Sample { transferred, total }
}

#[test]
fn zero_progress_is_zero_percent() {
    let p = Progress::zero();
    assert_eq!(p.percent(), 0);
    assert_eq!((p.done(), p.total()), (0, 1));
}

#[test]
fn full_progress_is_a_hundred_of_a_hundred() {
    let p = Progress::full();
    assert_eq!(p.percent(), 100);
    assert_eq!((p.done(), p.total()), (100, 100));
}

#[test]
fn progress_of_a_sample_is_its_ratio() {
    let p = Progress::from_sample(sample(50, 200));
    assert_eq!((p.done(), p.total()), (50, 200));
    assert_eq!(p.percent(), 25);
}

#[test]
fn percent_rounds_down() {
    assert_eq!(Progress::from_sample(sample(1, 3)).percent(), 33);
    assert_eq!(Progress::from_sample(sample(2, 3)).percent(), 66);
    assert_eq!(Progress::from_sample(sample(199, 200)).percent(), 99);
    assert_eq!(Progress::from_sample(sample(1, 1000)).percent(), 0);
}

#[test]
fn a_sample_beyond_its_total_counts_as_the_whole() {
    let p = Progress::from_sample(sample(300, 200));
    assert_eq!((p.done(), p.total()), (200, 200));
    assert_eq!(p.percent(), 100);
}

#[test]
fn a_sample_without_total_counts_for_nothing() {
    let p = Progress::from_sample(sample(7, 0));
    assert_eq!(p, Progress::zero());
    assert_eq!(p.percent(), 0);
    assert_eq!(Progress::from_sample(sample(0, 0)).percent(), 0);
}

#[test]
fn percent_of_the_largest_counts_does_not_overflow() {
    assert_eq!(Progress::from_sample(sample(usize::MAX, usize::MAX)).percent(), 100);
    assert_eq!(Progress::from_sample(sample(usize::MAX / 2, usize::MAX)).percent(), 49);
    assert_eq!(Progress::from_sample(sample(usize::MAX - 1, usize::MAX)).percent(), 99);
}

#[test]
fn order_compares_ratios_not_counts() {
    let quarter = Progress::from_sample(sample(50, 200));
    let half = Progress::from_sample(sample(1, 2));
    assert!(quarter.le(&half));
    assert!(!half.le(&quarter));
    let same = Progress::from_sample(sample(25, 100));
    assert!(quarter.le(&same));
    assert!(same.le(&quarter));
}

#[test]
fn order_holds_for_the_largest_counts() {
    let a = Progress::from_sample(sample(usize::MAX - 1, usize::MAX));
    let b = Progress::from_sample(sample(usize::MAX, usize::MAX));
    assert!(a.le(&b));
    assert!(!b.le(&a));
}

#[test]
fn later_picks_the_one_further_along() {
    let quarter = Progress::from_sample(sample(50, 200));
    let half = Progress::from_sample(sample(1, 2));
    assert_eq!(quarter.later(half), half);
    assert_eq!(half.later(quarter), half);
}

#[test]
fn later_keeps_the_first_of_two_level_ones() {
    let quarter = Progress::from_sample(sample(50, 200));
    let same = Progress::from_sample(sample(25, 100));
    assert_eq!(quarter.later(same), quarter);
    assert_eq!(same.later(quarter), same);
}

#[test]
fn fresh_channel_is_open_and_empty() {
    let mut channel = ProgressChannel::new();
    assert!(!channel.is_closed());
    assert_eq!(channel.pending(), 0);
    assert_eq!(channel.take_latest(), None);
}

#[test]
fn channel_hands_out_the_newest_sample_only() {
    let mut channel = ProgressChannel::new();
    channel.push(sample(1, 10));
    channel.push(sample(2, 10));
    channel.push(sample(3, 10));
    assert_eq!(channel.pending(), 3);
    assert_eq!(channel.take_latest(), Some(sample(3, 10)));
    assert_eq!(channel.pending(), 0);
    assert_eq!(channel.take_latest(), None);
}

#[test]
fn channel_keeps_the_order_of_production() {
    let mut channel = ProgressChannel::new();
    channel.push(sample(9, 10));
    channel.push(sample(1, 10));
    assert_eq!(channel.take_latest(), Some(sample(1, 10)));
    channel.push(sample(5, 10));
    assert_eq!(channel.take_latest(), Some(sample(5, 10)));
}

#[test]
fn closing_keeps_what_was_pushed_before() {
    let mut channel = ProgressChannel::new();
    channel.push(sample(4, 8));
    channel.close();
    assert!(channel.is_closed());
    assert_eq!(channel.pending(), 1);
    assert_eq!(channel.take_latest(), Some(sample(4, 8)));
    assert!(channel.is_closed());
}

#[test]
fn a_closed_channel_takes_no_more_samples() {
    let mut channel = ProgressChannel::new();
    channel.close();
    channel.push(sample(1, 2));
    assert_eq!(channel.pending(), 0);
    assert_eq!(channel.take_latest(), None);
}
