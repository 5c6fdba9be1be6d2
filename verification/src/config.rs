//! Policy types: rotation thresholds, timezone selection, compression and
//! retention settings, and the error taxonomy.

use vstd::prelude::*;

verus! {

/// Size threshold for size-based rotation, in one of several units.
#[derive(Debug, Clone, Copy)]
pub enum RotationSize {
    Bytes(u64),
    KB(u64),
    MB(u64),
    GB(u64),
}

impl RotationSize {
    /// The threshold in bytes, as unbounded mathematics.
    pub open spec fn spec_bytes(&self) -> int {
        match self {
            RotationSize::Bytes(b) => *b as int,
            RotationSize::KB(kb) => *kb * 1024,
            RotationSize::MB(mb) => *mb * 1024 * 1024,
            RotationSize::GB(gb) => *gb * 1024 * 1024 * 1024,
        }
    }

    /// The threshold in bytes.
    pub fn bytes(&self) -> (r: u64)
        requires
            self.spec_bytes() <= u64::MAX,
        ensures
            r == self.spec_bytes(),
    {
        match self {
            RotationSize::Bytes(b) => *b,
            RotationSize::KB(kb) => *kb * 1024,
            RotationSize::MB(mb) => *mb * 1024 * 1024,
            RotationSize::GB(gb) => *gb * 1024 * 1024 * 1024,
        }
    }
}

/// Compression algorithm selector. Only `Gzip` is realized; the other
/// selections deliberately leave closed segments uncompressed.
#[derive(Debug, Clone, Copy, PartialEq, Eq, Structural)]
pub enum Compression {
    Gzip,
    Bzip2,
    LZ4,
    Zstd,
    XZ,
    Snappy,
}

/// Timezone in which age-based boundaries are computed. A fixed offset is
/// given in seconds east of UTC.
#[derive(Debug, Clone, Copy, PartialEq, Eq, Structural)]
pub enum TimeZone {
    UTC,
    Local,
    Fix(i32),
}

impl TimeZone {
    /// A fixed offset must name a real offset: strictly less than one day,
    /// either side of UTC.
    pub open spec fn wf(&self) -> bool {
        match self {
            TimeZone::Fix(secs) => -86400 < *secs && *secs < 86400,
            _ => true,
        }
    }
}

/// Granularity of age-based rotation boundaries.
#[derive(Debug, Clone, Copy, PartialEq, Eq, Structural)]
pub enum RotationAge {
    Minutely,
    Hourly,
    Daily,
}

/// Rotation mode: by accumulated size or by wall-clock boundary.
#[derive(Debug, Clone, Copy)]
pub enum Rotation {
    SizeBased(RotationSize),
    AgeBased(RotationAge),
}

/// Errors surfaced by construction and by the write/rotate path.
#[derive(Debug, Clone, PartialEq, Eq)]
pub enum LogRollerError {
    CreateDirectoryFailed(String),
    CreateFileFailed(String),
    GetNaiveTimeFailed,
    InvalidRotationType,
    GetNextFilePathError,
    RenameFileError,
    FileIOError(String),
    ShouldNotRotate,
    InternalError(String),
}

/// Immutable policy for one roller: where segments live, how they are named,
/// when to rotate, and what happens to closed segments.
#[derive(Debug, Clone)]
pub struct LogRollerMeta {
    /// Directory holding all segments, as path bytes without a trailing
    /// separator.
    pub directory: Vec<u8>,
    /// Base segment file name, as path bytes.
    pub filename: Vec<u8>,
    pub rotation: Rotation,
    pub time_zone: TimeZone,
    pub compression: Option<Compression>,
    pub max_keep_files: Option<u64>,
}

impl LogRollerMeta {
    /// A policy the engine can run: a size threshold that fits in a byte
    /// counter, and a real timezone offset.
    pub open spec fn wf(&self) -> bool {
        &&& match self.rotation {
                Rotation::SizeBased(rs) => rs.spec_bytes() <= u64::MAX,
                Rotation::AgeBased(_) => true,
            }
        &&& self.time_zone.wf()
    }
}

} // verus!
