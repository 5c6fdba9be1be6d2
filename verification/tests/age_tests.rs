use logroller::config::{Rotation, RotationAge, TimeZone};
use logroller::engine::LogRollerBuilder;
use logroller::time::DateTime;

fn dt(year: i32, month: u8, day: u8, hour: u8, minute: u8, second: u8) -> DateTime {
    DateTime { year, month, day, hour, minute, second }
}

fn daily_roller(now: &DateTime) -> logroller::engine::LogRoller {
    LogRollerBuilder::new(b"logs".to_vec(), b"app.log".to_vec())
        .time_zone(TimeZone::Fix(0))
        .rotation(Rotation::AgeBased(RotationAge::Daily))
        .build_at(now, &Vec::new(), 0)
        .expect("construction succeeds")
}

#[test]
fn day_boundary_rotation() {
    let mut roller = daily_roller(&dt(2024, 3, 10, 15, 30, 0));
    assert_eq!(roller.state.curr_file_path, b"logs/app.log.2024-03-10".to_vec());
    assert_eq!(roller.state.next_age_based_time, dt(2024, 3, 11, 0, 0, 0));

    // A write before the boundary appends to the pre-boundary segment.
    let before = dt(2024, 3, 10, 23, 59, 59);
    assert!(roller.should_rollover(&before).is_none());
    roller.record_write(5);

    // A write at the boundary rotates to a new date-named segment.
    let at = dt(2024, 3, 11, 0, 0, 0);
    let target = roller.should_rollover(&at).expect("rotation is due");
    assert_eq!(target, b"logs/app.log.2024-03-11".to_vec());
    let old_path = roller.state.curr_file_path.clone();
    roller.commit_rotation(&at);
    assert_eq!(roller.state.curr_file_path, b"logs/app.log.2024-03-11".to_vec());
    assert_ne!(roller.state.curr_file_path, old_path);
    assert_eq!(roller.state.next_age_based_time, dt(2024, 3, 12, 0, 0, 0));
    assert_eq!(roller.state.curr_file_size_bytes, 0);
}

#[test]
fn late_rotation_names_the_missed_deadline() {
    let mut roller = daily_roller(&dt(2024, 3, 10, 8, 0, 0));
    // No write for days: the next write still opens the segment named after
    // the deadline that passed, and the new deadline comes from `now`.
    let now = dt(2024, 3, 14, 9, 30, 0);
    let target = roller.should_rollover(&now).expect("rotation is long due");
    assert_eq!(target, b"logs/app.log.2024-03-11".to_vec());
    roller.commit_rotation(&now);
    assert_eq!(roller.state.next_age_based_time, dt(2024, 3, 15, 0, 0, 0));
}

#[test]
fn deadline_computation_by_granularity() {
    let meta = LogRollerBuilder::new(b"logs".to_vec(), b"app.log".to_vec()).meta;
    assert_eq!(
        meta.next_time(&dt(2024, 3, 10, 10, 59, 30), &RotationAge::Minutely).unwrap(),
        dt(2024, 3, 10, 11, 0, 0)
    );
    assert_eq!(
        meta.next_time(&dt(2024, 3, 10, 10, 15, 30), &RotationAge::Minutely).unwrap(),
        dt(2024, 3, 10, 10, 16, 0)
    );
    assert_eq!(
        meta.next_time(&dt(2024, 3, 10, 23, 10, 0), &RotationAge::Hourly).unwrap(),
        dt(2024, 3, 11, 0, 0, 0)
    );
    assert_eq!(
        meta.next_time(&dt(2024, 2, 28, 13, 0, 0), &RotationAge::Daily).unwrap(),
        dt(2024, 2, 29, 0, 0, 0) // leap year
    );
    assert_eq!(
        meta.next_time(&dt(2023, 2, 28, 13, 0, 0), &RotationAge::Daily).unwrap(),
        dt(2023, 3, 1, 0, 0, 0)
    );
    assert_eq!(
        meta.next_time(&dt(2023, 12, 31, 23, 59, 59), &RotationAge::Daily).unwrap(),
        dt(2024, 1, 1, 0, 0, 0)
    );
}

#[test]
fn age_paths_carry_the_granularity_timestamp() {
    let meta = LogRollerBuilder::new(b"logs".to_vec(), b"app.log".to_vec()).meta;
    let when = dt(2024, 3, 5, 7, 9, 42);
    assert_eq!(
        meta.get_next_age_based_log_path(&RotationAge::Daily, &when),
        b"logs/app.log.2024-03-05".to_vec()
    );
    assert_eq!(
        meta.get_next_age_based_log_path(&RotationAge::Hourly, &when),
        b"logs/app.log.2024-03-05-07".to_vec()
    );
    assert_eq!(
        meta.get_next_age_based_log_path(&RotationAge::Minutely, &when),
        b"logs/app.log.2024-03-05-07-09".to_vec()
    );
}
