//! The rotation engine: mutable bookkeeping, the rotation decision, the state
//! reset that follows a successful path transition, and construction-time
//! state recovery.
//!
//! The engine never touches the filesystem. The shell around it reads the
//! clock and the directory, asks `should_rollover` for a target, performs the
//! rename/create, and commits the rotation only if that succeeded — a failed
//! transition leaves the state untouched, so the rotation is retried on the
//! next write.

use vstd::prelude::*;
use crate::config::{LogRollerError, LogRollerMeta, Rotation, RotationAge, TimeZone};
use crate::time::{at_or_past, spec_next_time, lemma_next_time_advances, DateTime};
use crate::paths::{
    append_bytes, entry_suffix, push_decimal, push_timestamp, spec_join, spec_max_suffix,
    spec_suffix_name, spec_ts_name, DOT, SLASH,
};

verus! {

/// Mutable rotation bookkeeping for one roller.
pub struct LogRollerState {
    /// Size mode: the numeric suffix the next closed segment will receive.
    pub next_size_based_index: usize,
    /// Age mode: the deadline whose passing triggers the next rotation.
    pub next_age_based_time: DateTime,
    /// Path of the currently active segment.
    pub curr_file_path: Vec<u8>,
    /// Bytes appended to the active segment since it became active.
    pub curr_file_size_bytes: u64,
}

impl LogRollerState {
    /// Recover the next size-mode suffix from a directory listing: one past
    /// the largest suffix any `filename.N` entry carries, 1 if none does.
    /// Manually deleted segments leave gaps that are never reused.
    pub fn get_next_size_based_index(entries: &Vec<Vec<u8>>, filename: &Vec<u8>) -> (r: usize)
        requires
            spec_max_suffix(entries@, filename@) < usize::MAX,
        ensures
            r == spec_max_suffix(entries@, filename@) + 1,
    {
        let mut max_suffix: usize = 0;
        let mut i: usize = 0;
        while i < entries.len()
            invariant
                i <= entries.len(),
                max_suffix == spec_max_suffix(entries@.take(i as int), filename@),
            decreases entries.len() - i,
        {
            match entry_suffix(&entries[i], filename) {
                Some(v) => {
                    if v > max_suffix {
                        max_suffix = v;
                    }
                },
                None => {},
            }
            proof {
                assert(entries@.take(i + 1 as int).drop_last() =~= entries@.take(i as int));
                assert(entries@.take(i + 1 as int).last() == entries@[i as int]);
            }
            i = i + 1;
        }
        proof {
            assert(entries@.take(entries@.len() as int) =~= entries@);
        }
        max_suffix + 1
    }
}

/// The active-path choice for a policy: size mode always writes the canonical
/// `directory/filename`; age mode writes the segment named after `now`.
pub open spec fn spec_curr_log_path(meta: LogRollerMeta, now: DateTime) -> Seq<u8> {
    match meta.rotation {
        Rotation::SizeBased(_) => spec_join(meta.directory@, meta.filename@),
        Rotation::AgeBased(ra) => spec_join(meta.directory@, spec_ts_name(meta.filename@, now, ra)),
    }
}

impl LogRollerMeta {
    /// The full path of the age-based segment named after `datetime`.
    pub fn get_next_age_based_log_path(&self, rotation_age: &RotationAge, datetime: &DateTime) -> (r:
        Vec<u8>)
        requires
            datetime.dt_ok(),
        ensures
            r@ == spec_join(self.directory@, spec_ts_name(self.filename@, *datetime, *rotation_age)),
    {
        let mut p: Vec<u8> = Vec::new();
        append_bytes(&mut p, &self.directory);
        p.push(SLASH);
        append_bytes(&mut p, &self.filename);
        p.push(DOT);
        push_timestamp(&mut p, datetime, rotation_age);
        proof {
            assert(p@ =~= spec_join(
                self.directory@,
                spec_ts_name(self.filename@, *datetime, *rotation_age),
            ));
        }
        p
    }

    /// The path the active segment has under this policy at time `now`.
    pub fn get_curr_log_path(&self, now: &DateTime) -> (r: Vec<u8>)
        requires
            now.dt_ok(),
        ensures
            r@ == spec_curr_log_path(*self, *now),
    {
        match &self.rotation {
            Rotation::SizeBased(_) => {
                let mut p: Vec<u8> = Vec::new();
                append_bytes(&mut p, &self.directory);
                p.push(SLASH);
                append_bytes(&mut p, &self.filename);
                proof {
                    assert(p@ =~= spec_join(self.directory@, self.filename@));
                }
                p
            },
            Rotation::AgeBased(rotation_age) => self.get_next_age_based_log_path(rotation_age, now),
        }
    }
}

/// The verified rotation state machine: policy plus bookkeeping. The
/// unverified shell owns the open file handle and its lock.
pub struct LogRoller {
    pub meta: LogRollerMeta,
    pub state: LogRollerState,
}

impl LogRoller {
    /// Engine invariant: a runnable policy, and in age mode a well-formed
    /// deadline.
    pub open spec fn wf(&self) -> bool {
        &&& self.meta.wf()
        &&& match self.meta.rotation {
            Rotation::AgeBased(_) => self.state.next_age_based_time.dt_ok(),
            Rotation::SizeBased(_) => true,
        }
    }

    /// The rotation decision. Size mode: rotate exactly when the bytes
    /// already in the active segment reach the threshold (the pending write
    /// is not counted), closing it under `filename.<next suffix>`. Age mode:
    /// rotate exactly when `now` has reached the deadline, the new active
    /// segment being named after that deadline.
    pub open spec fn spec_should_rollover(&self, now: DateTime) -> Option<Seq<u8>> {
        match self.meta.rotation {
            Rotation::SizeBased(rs) => if self.state.curr_file_size_bytes >= rs.spec_bytes() {
                Some(
                    spec_join(
                        self.meta.directory@,
                        spec_suffix_name(
                            self.meta.filename@,
                            self.state.next_size_based_index as int,
                        ),
                    ),
                )
            } else {
                None
            },
            Rotation::AgeBased(ra) => if self.state.next_age_based_time.stamp() <= now.stamp() {
                Some(
                    spec_join(
                        self.meta.directory@,
                        spec_ts_name(self.meta.filename@, self.state.next_age_based_time, ra),
                    ),
                )
            } else {
                None
            },
        }
    }

    /// Whether a rotation is due before the next write, and if so the path
    /// the transition targets.
    pub fn should_rollover(&self, now: &DateTime) -> (r: Option<Vec<u8>>)
        requires
            self.wf(),
            now.dt_ok(),
        ensures
            (r is Some) == (self.spec_should_rollover(*now) is Some),
            r is Some ==> r.unwrap()@ == self.spec_should_rollover(*now).unwrap(),
    {
        match &self.meta.rotation {
            Rotation::SizeBased(rotation_size) => {
                if self.state.curr_file_size_bytes >= rotation_size.bytes() {
                    let mut p: Vec<u8> = Vec::new();
                    append_bytes(&mut p, &self.meta.directory);
                    p.push(SLASH);
                    append_bytes(&mut p, &self.meta.filename);
                    p.push(DOT);
                    push_decimal(&mut p, self.state.next_size_based_index);
                    proof {
                        assert(p@ =~= spec_join(
                            self.meta.directory@,
                            spec_suffix_name(
                                self.meta.filename@,
                                self.state.next_size_based_index as int,
                            ),
                        ));
                    }
                    Some(p)
                } else {
                    None
                }
            },
            Rotation::AgeBased(rotation_age) => {
                if at_or_past(now, &self.state.next_age_based_time) {
                    Some(
                        self.meta.get_next_age_based_log_path(
                            rotation_age,
                            &self.state.next_age_based_time,
                        ),
                    )
                } else {
                    None
                }
            },
        }
    }

    /// Reset the bookkeeping after a path transition succeeded. Size mode:
    /// the suffix just assigned is consumed and the canonical path becomes
    /// active again. Age mode: the segment named after the old deadline
    /// becomes active, and the new deadline is recomputed from `now` — so it
    /// is always strictly in `now`'s future.
    pub fn commit_rotation(&mut self, now: &DateTime)
        requires
            old(self).wf(),
            now.dt_ok(),
            match old(self).meta.rotation {
                Rotation::SizeBased(_) => old(self).state.next_size_based_index < usize::MAX,
                Rotation::AgeBased(_) => now.year <= 9998,
            },
        ensures
            final(self).meta == old(self).meta,
            final(self).wf(),
            final(self).state.curr_file_size_bytes == 0,
            match old(self).meta.rotation {
                Rotation::SizeBased(_) => {
                    &&& final(self).state.next_size_based_index == old(
                        self,
                    ).state.next_size_based_index + 1
                    &&& final(self).state.next_age_based_time == old(self).state.next_age_based_time
                    &&& final(self).state.curr_file_path@ == spec_join(
                        old(self).meta.directory@,
                        old(self).meta.filename@,
                    )
                },
                Rotation::AgeBased(ra) => {
                    &&& final(self).state.next_size_based_index == old(
                        self,
                    ).state.next_size_based_index
                    &&& final(self).state.next_age_based_time == spec_next_time(*now, ra)
                    &&& now.stamp() < final(self).state.next_age_based_time.stamp()
                    &&& final(self).state.curr_file_path@ == spec_join(
                        old(self).meta.directory@,
                        spec_ts_name(
                            old(self).meta.filename@,
                            old(self).state.next_age_based_time,
                            ra,
                        ),
                    )
                },
            },
    {
        match &self.meta.rotation {
            Rotation::SizeBased(_) => {
                let new_path = {
                    let mut p: Vec<u8> = Vec::new();
                    append_bytes(&mut p, &self.meta.directory);
                    p.push(SLASH);
                    append_bytes(&mut p, &self.meta.filename);
                    proof {
                        assert(p@ =~= spec_join(self.meta.directory@, self.meta.filename@));
                    }
                    p
                };
                self.state.curr_file_path = new_path;
                self.state.curr_file_size_bytes = 0;
                self.state.next_size_based_index = self.state.next_size_based_index + 1;
            },
            Rotation::AgeBased(rotation_age) => {
                let ra = *rotation_age;
                let new_path = self.meta.get_next_age_based_log_path(
                    &ra,
                    &self.state.next_age_based_time,
                );
                let new_deadline = match self.meta.next_time(now, &ra) {
                    Ok(t) => t,
                    Err(_) => {
                        proof {
                            assert(false);
                        }
                        *now
                    },
                };
                proof {
                    lemma_next_time_advances(*now, ra);
                }
                self.state.curr_file_path = new_path;
                self.state.curr_file_size_bytes = 0;
                self.state.next_age_based_time = new_deadline;
            },
        }
    }

    /// Count a completed append into the active segment.
    pub fn record_write(&mut self, len: u64)
        requires
            old(self).state.curr_file_size_bytes + len <= u64::MAX,
        ensures
            final(self).meta == old(self).meta,
            final(self).state.curr_file_size_bytes == old(self).state.curr_file_size_bytes + len,
            final(self).state.next_size_based_index == old(self).state.next_size_based_index,
            final(self).state.next_age_based_time == old(self).state.next_age_based_time,
            final(self).state.curr_file_path == old(self).state.curr_file_path,
            old(self).wf() ==> final(self).wf(),
    {
        self.state.curr_file_size_bytes = self.state.curr_file_size_bytes + len;
    }
}

/// The granularity construction seeds the first deadline with: the policy's
/// own in age mode, daily otherwise (the deadline is then unused).
pub open spec fn spec_seed_age(rotation: Rotation) -> RotationAge {
    match rotation {
        Rotation::AgeBased(ra) => ra,
        Rotation::SizeBased(_) => RotationAge::Daily,
    }
}

/// Builder for a roller: a policy accumulated field by field.
pub struct LogRollerBuilder {
    pub meta: LogRollerMeta,
}

impl LogRollerBuilder {
    /// A policy rolling `directory/filename` daily in local time, with no
    /// compression and no retention limit.
    pub fn new(directory: Vec<u8>, filename: Vec<u8>) -> (r: Self)
        ensures
            r.meta.directory == directory,
            r.meta.filename == filename,
            r.meta.rotation == Rotation::AgeBased(RotationAge::Daily),
            r.meta.time_zone == TimeZone::Local,
            r.meta.compression is None,
            r.meta.max_keep_files is None,
    {
        LogRollerBuilder {
            meta: LogRollerMeta {
                directory,
                filename,
                rotation: Rotation::AgeBased(RotationAge::Daily),
                time_zone: TimeZone::Local,
                compression: None,
                max_keep_files: None,
            },
        }
    }

    pub fn time_zone(self, time_zone: TimeZone) -> (r: Self)
        ensures
            r.meta == (LogRollerMeta { time_zone, ..self.meta }),
    {
        LogRollerBuilder { meta: LogRollerMeta { time_zone, ..self.meta } }
    }

    pub fn rotation(self, rotation: Rotation) -> (r: Self)
        ensures
            r.meta == (LogRollerMeta { rotation, ..self.meta }),
    {
        LogRollerBuilder { meta: LogRollerMeta { rotation, ..self.meta } }
    }

    pub fn compression(self, compression: crate::config::Compression) -> (r: Self)
        ensures
            r.meta == (LogRollerMeta { compression: Some(compression), ..self.meta }),
    {
        LogRollerBuilder { meta: LogRollerMeta { compression: Some(compression), ..self.meta } }
    }

    pub fn max_keep_files(self, max_keep_files: u64) -> (r: Self)
        ensures
            r.meta == (LogRollerMeta { max_keep_files: Some(max_keep_files), ..self.meta }),
    {
        LogRollerBuilder {
            meta: LogRollerMeta { max_keep_files: Some(max_keep_files), ..self.meta },
        }
    }

    /// Construct the engine state as of the instant `now`, from a directory
    /// listing and the size of any pre-existing canonical file (supporting
    /// resumed appends across restarts). Fails exactly when `now`'s year
    /// cannot seed a deadline the engine can format and advance.
    pub fn build_at(self, now: &DateTime, entries: &Vec<Vec<u8>>, curr_file_size: u64) -> (r:
        Result<LogRoller, LogRollerError>)
        requires
            self.meta.wf(),
            now.calendar_ok(),
            spec_max_suffix(entries@, self.meta.filename@) < usize::MAX,
        ensures
            (r is Ok) == (0 <= now.year <= 9998),
            !(0 <= now.year <= 9998) ==> r == Err::<LogRoller, LogRollerError>(
                LogRollerError::GetNaiveTimeFailed,
            ),
            r is Ok ==> ({
                let rl = r.unwrap();
                &&& rl.wf()
                &&& rl.meta == self.meta
                &&& rl.state.next_size_based_index == spec_max_suffix(
                    entries@,
                    self.meta.filename@,
                ) + 1
                &&& rl.state.next_age_based_time == spec_next_time(
                    *now,
                    spec_seed_age(self.meta.rotation),
                )
                &&& rl.state.curr_file_size_bytes == curr_file_size
                &&& rl.state.curr_file_path@ == spec_curr_log_path(self.meta, *now)
            }),
    {
        if now.year < 0 || now.year > 9998 {
            return Err(LogRollerError::GetNaiveTimeFailed);
        }
        let age = match &self.meta.rotation {
            Rotation::AgeBased(ra) => *ra,
            Rotation::SizeBased(_) => RotationAge::Daily,
        };
        let next_age_based_time = match self.meta.next_time(now, &age) {
            Ok(t) => t,
            Err(_) => {
                proof {
                    assert(false);
                }
                *now
            },
        };
        proof {
            lemma_next_time_advances(*now, age);
        }
        let curr_file_path = self.meta.get_curr_log_path(now);
        let next_size_based_index = LogRollerState::get_next_size_based_index(
            entries,
            &self.meta.filename,
        );
        Ok(
            LogRoller {
                meta: self.meta,
                state: LogRollerState {
                    next_size_based_index,
                    next_age_based_time,
                    curr_file_path,
                    curr_file_size_bytes: curr_file_size,
                },
            },
        )
    }

    /// Construct the engine state as of the current time in the policy's
    /// timezone.
    pub fn build(self, entries: &Vec<Vec<u8>>, curr_file_size: u64) -> (r: Result<
        LogRoller,
        LogRollerError,
    >)
        requires
            self.meta.wf(),
            spec_max_suffix(entries@, self.meta.filename@) < usize::MAX,
        ensures
            r is Ok ==> ({
                let rl = r.unwrap();
                &&& rl.wf()
                &&& rl.meta == self.meta
                &&& rl.state.next_size_based_index == spec_max_suffix(
                    entries@,
                    self.meta.filename@,
                ) + 1
                &&& rl.state.curr_file_size_bytes == curr_file_size
            }),
            r is Err ==> r == Err::<LogRoller, LogRollerError>(LogRollerError::GetNaiveTimeFailed),
    {
        let now = self.meta.now();
        if now.year < 0 || now.year > 9998 {
            return Err(LogRollerError::GetNaiveTimeFailed);
        }
        self.build_at(&now, entries, curr_file_size)
    }
}

} // verus!
