use roc_parse::parser::{Either, Progress};

use Progress::{MadeProgress, NoProgress};

#[test]
fn progress_from_lengths_reports_consumption() {
    assert_eq!(Progress::from_lengths(5, 5), NoProgress);
    assert_eq!(Progress::from_lengths(5, 2), MadeProgress);
    assert_eq!(Progress::from_lengths(0, 0), NoProgress);
}

#[test]
fn progress_from_consumed_is_made_for_any_byte() {
    assert_eq!(Progress::from_consumed(0), NoProgress);
    assert_eq!(Progress::from_consumed(1), MadeProgress);
    assert_eq!(Progress::from_consumed(usize::MAX), MadeProgress);
}

#[test]
fn progress_when_follows_the_flag() {
    assert_eq!(Progress::progress_when(true), MadeProgress);
    assert_eq!(Progress::progress_when(false), NoProgress);
}

#[test]
fn progress_or_is_made_when_either_is() {
    assert_eq!(MadeProgress.or(MadeProgress), MadeProgress);
    assert_eq!(MadeProgress.or(NoProgress), MadeProgress);
    assert_eq!(NoProgress.or(MadeProgress), MadeProgress);
    assert_eq!(NoProgress.or(NoProgress), NoProgress);
}

#[test]
fn progress_and_is_made_when_both_are() {
    assert_eq!(MadeProgress.and(MadeProgress), MadeProgress);
    assert_eq!(MadeProgress.and(NoProgress), NoProgress);
    assert_eq!(NoProgress.and(MadeProgress), NoProgress);
    assert_eq!(NoProgress.and(NoProgress), NoProgress);
}

#[test]
fn either_compares_by_side_and_value() {
    let a: Either<u8, u8> = Either::First(1);
    let b: Either<u8, u8> = Either::Second(1);
    assert_ne!(a, b);
    assert_eq!(a, Either::First(1));
    assert_eq!(a.clone(), a);
}
