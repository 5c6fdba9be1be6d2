use logroller::config::{LogRollerError, Rotation, RotationSize, TimeZone};
use logroller::engine::{LogRollerBuilder, LogRollerState};
use logroller::time::DateTime;

fn dt(year: i32, month: u8, day: u8, hour: u8, minute: u8, second: u8) -> DateTime {
    DateTime { year, month, day, hour, minute, second }
}

fn size_roller(threshold: u64) -> logroller::engine::LogRoller {
    let builder = LogRollerBuilder::new(b"logs".to_vec(), b"app.log".to_vec())
        .rotation(Rotation::SizeBased(RotationSize::Bytes(threshold)));
    builder
        .build_at(&dt(2024, 5, 6, 12, 0, 0), &Vec::new(), 0)
        .expect("construction succeeds")
}

#[test]
fn rotation_size_units() {
    assert_eq!(RotationSize::Bytes(5).bytes(), 5);
    assert_eq!(RotationSize::KB(2).bytes(), 2048);
    assert_eq!(RotationSize::MB(1).bytes(), 1024 * 1024);
    assert_eq!(RotationSize::GB(1).bytes(), 1024 * 1024 * 1024);
}

#[test]
fn scenario_threshold_ten() {
    let now = dt(2024, 5, 6, 12, 0, 0);
    let mut roller = size_roller(10);

    // 6 bytes: below the threshold, no rotation.
    assert!(roller.should_rollover(&now).is_none());
    roller.record_write(6);
    assert_eq!(roller.state.curr_file_size_bytes, 6);

    // 6 more: 6 < 10 before the write, so still no rotation; file reaches 12.
    assert!(roller.should_rollover(&now).is_none());
    roller.record_write(6);
    assert_eq!(roller.state.curr_file_size_bytes, 12);

    // 1 more: 12 >= 10, the rotation happens first.
    let target = roller.should_rollover(&now).expect("rotation is due");
    assert_eq!(target, b"logs/app.log.1".to_vec());
    roller.commit_rotation(&now);
    assert_eq!(roller.state.curr_file_size_bytes, 0);
    assert_eq!(roller.state.curr_file_path, b"logs/app.log".to_vec());
    roller.record_write(1);
    assert_eq!(roller.state.curr_file_size_bytes, 1);
    assert_eq!(roller.state.next_size_based_index, 2);
}

#[test]
fn no_rotation_below_threshold() {
    let now = dt(2024, 5, 6, 12, 0, 0);
    let mut roller = size_roller(10);
    for _ in 0..3 {
        assert!(roller.should_rollover(&now).is_none());
        roller.record_write(3);
    }
    assert!(roller.should_rollover(&now).is_none());
    assert_eq!(roller.state.curr_file_size_bytes, 9);
    assert_eq!(roller.state.next_size_based_index, 1);
}

#[test]
fn crossing_rotates_the_following_write() {
    let now = dt(2024, 5, 6, 12, 0, 0);
    let mut roller = size_roller(10);
    assert!(roller.should_rollover(&now).is_none());
    roller.record_write(4);
    // 4 < 10 before this write: it still lands in the old segment.
    assert!(roller.should_rollover(&now).is_none());
    roller.record_write(7);
    // Now 11 >= 10: the following write triggers exactly one rotation.
    let target = roller.should_rollover(&now).expect("rotation is due");
    assert_eq!(target, b"logs/app.log.1".to_vec());
    roller.commit_rotation(&now);
    assert_eq!(roller.state.next_size_based_index, 2);
    roller.record_write(2);
    assert!(roller.should_rollover(&now).is_none());
}

#[test]
fn sequential_rotations_use_increasing_suffixes() {
    let now = dt(2024, 5, 6, 12, 0, 0);
    let mut roller = size_roller(1);
    let mut seen = Vec::new();
    for _ in 0..3 {
        roller.record_write(1);
        let target = roller.should_rollover(&now).expect("each write fills a segment");
        seen.push(target);
        roller.commit_rotation(&now);
    }
    assert_eq!(
        seen,
        vec![
            b"logs/app.log.1".to_vec(),
            b"logs/app.log.2".to_vec(),
            b"logs/app.log.3".to_vec(),
        ]
    );
}

#[test]
fn restart_resumes_after_largest_suffix() {
    let entries = vec![
        b"app.log.3".to_vec(),
        b"app.log.12".to_vec(),
        b"app.log.7.gz".to_vec(), // compressed: the tail is not a bare number
        b"other.txt".to_vec(),
        b"app.log".to_vec(),
    ];
    assert_eq!(
        LogRollerState::get_next_size_based_index(&entries, &b"app.log".to_vec()),
        13
    );

    let builder = LogRollerBuilder::new(b"logs".to_vec(), b"app.log".to_vec())
        .rotation(Rotation::SizeBased(RotationSize::Bytes(4)));
    let mut roller = builder
        .build_at(&dt(2024, 5, 6, 12, 0, 0), &entries, 2)
        .expect("construction succeeds");
    // Resumed appends: the pre-existing canonical file seeds the counter.
    assert_eq!(roller.state.curr_file_size_bytes, 2);
    assert_eq!(roller.state.next_size_based_index, 13);
    roller.record_write(4);
    let target = roller
        .should_rollover(&dt(2024, 5, 6, 12, 0, 0))
        .expect("rotation is due");
    assert_eq!(target, b"logs/app.log.13".to_vec());
}

#[test]
fn construction_rejects_unrepresentable_year() {
    let builder = LogRollerBuilder::new(b"logs".to_vec(), b"app.log".to_vec());
    let r = builder.build_at(&dt(9999, 1, 1, 0, 0, 0), &Vec::new(), 0);
    assert_eq!(r.err(), Some(LogRollerError::GetNaiveTimeFailed));
}

#[test]
fn build_with_real_clock() {
    let builder = LogRollerBuilder::new(b"logs".to_vec(), b"app.log".to_vec())
        .time_zone(TimeZone::UTC);
    let roller = builder.build(&Vec::new(), 0).expect("the clock is in range");
    assert_eq!(roller.state.next_size_based_index, 1);
    assert_eq!(roller.state.curr_file_size_bytes, 0);
}

#[test]
fn clock_yields_calendar_fields() {
    let builder = LogRollerBuilder::new(b"logs".to_vec(), b"app.log".to_vec())
        .time_zone(TimeZone::Fix(3600));
    let now = builder.meta.now();
    assert!((1..=12).contains(&now.month));
    assert!((1..=31).contains(&now.day));
    assert!(now.hour < 24);
    assert!(now.minute < 60);
    assert!(now.second < 60);
    assert!(now.year >= 2000);
}
