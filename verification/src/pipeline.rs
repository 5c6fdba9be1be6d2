//! The post-rotation pipeline's decisions: which bytes a closed segment is
//! replaced with when compression is configured, and which directory entries
//! retention deletes.
//!
//! The pipeline's filesystem side (reading the closed segment, writing the
//! `.gz` copy, deleting files) lives in the unverified shell; this module
//! computes over the bytes and the listing the shell hands in.

use vstd::prelude::*;
use crate::config::{Compression, LogRollerError, Rotation};
use crate::paths::{
    append_bytes, is_age_match, is_size_match, spec_age_match, spec_size_match, DOT, LETTER_G,
    LETTER_Z,
};

verus! {

/// The bytes `flate2`'s gzip encoder produces at the default level. The
/// stream is a function of the input alone: the encoder writes a fixed
/// header (zero mtime, a constant operating-system byte) before the
/// deterministic deflate body and checksum.
pub uninterp spec fn gzip_of(data: Seq<u8>) -> Seq<u8>;

/// Relies on `flate2::write::GzEncoder` (default level) writing into a
/// `Vec<u8>`: `write_all` then `finish` yield the gzip encoding of exactly
/// the bytes written. Encoding into memory always succeeds: the sink is a
/// `Vec`, whose `Write` never errors, and the deflate backend reports none.
#[verifier::external_body]
fn gzip_compress(data: &Vec<u8>) -> (r: Result<Vec<u8>, LogRollerError>)
    ensures
        r is Ok,
        r matches Ok(c) ==> c@ == gzip_of(data@),
{
    let mut encoder = flate2::write::GzEncoder::new(Vec::new(), flate2::Compression::default());
    if let Err(err) = std::io::Write::write_all(&mut encoder, data.as_slice()) {
        return Err(LogRollerError::FileIOError(err.to_string()));
    }
    match encoder.finish() {
        Ok(out) => Ok(out),
        Err(err) => Err(LogRollerError::FileIOError(err.to_string())),
    }
}

/// What compression replaces a closed segment's bytes with: the gzip stream
/// under `Compression::Gzip`, and nothing at all — the segment stays as it
/// is, with no error — under no compression or a selector that is not
/// realized.
pub fn compress(compression: &Option<Compression>, data: &Vec<u8>) -> (r: Result<
    Option<Vec<u8>>,
    LogRollerError,
>)
    ensures
        match *compression {
            Some(Compression::Gzip) => r matches Ok(c) && c matches Some(gz) && gz@ == gzip_of(
                data@,
            ),
            _ => r matches Ok(c) && c is None,
        },
{
    match compression {
        Some(Compression::Gzip) => match gzip_compress(data) {
            Ok(c) => Ok(Some(c)),
            Err(e) => Err(e),
        },
        Some(_) => Ok(None),
        None => Ok(None),
    }
}

/// The path a compressed copy of `path` is written to: `<path>.gz`.
pub fn gz_path(path: &Vec<u8>) -> (r: Vec<u8>)
    ensures
        r@ == path@ + seq![DOT, LETTER_G, LETTER_Z],
{
    let mut p: Vec<u8> = Vec::new();
    append_bytes(&mut p, path);
    p.push(DOT);
    p.push(LETTER_G);
    p.push(LETTER_Z);
    proof {
        assert(p@ =~= path@ + seq![DOT, LETTER_G, LETTER_Z]);
    }
    p
}

/// One directory entry offered to retention: its file name and a creation
/// order key (only the order of the keys matters).
pub struct FileEntry {
    pub name: Vec<u8>,
    pub created: u64,
}

/// Whether a file name belongs to this roller under the rotation mode's
/// naming pattern.
pub open spec fn spec_entry_matches(name: Seq<u8>, filename: Seq<u8>, rotation: Rotation) -> bool {
    match rotation {
        Rotation::SizeBased(_) => spec_size_match(name, filename),
        Rotation::AgeBased(ra) => spec_age_match(name, filename, ra),
    }
}

/// Whether `name` belongs to this roller.
pub fn matches_pattern(name: &Vec<u8>, filename: &Vec<u8>, rotation: &Rotation) -> (r: bool)
    ensures
        r == spec_entry_matches(name@, filename@, *rotation),
{
    match rotation {
        Rotation::SizeBased(_) => is_size_match(name, filename),
        Rotation::AgeBased(ra) => is_age_match(name, filename, ra),
    }
}

/// How many entries belong to the roller.
pub open spec fn spec_match_count(entries: Seq<FileEntry>, filename: Seq<u8>, rotation: Rotation) -> int
    decreases entries.len(),
{
    if entries.len() == 0 {
        0
    } else {
        spec_match_count(entries.drop_last(), filename, rotation) + if spec_entry_matches(
            entries.last().name@,
            filename,
            rotation,
        ) {
            1int
        } else {
            0int
        }
    }
}

/// Retention: with a limit of `k` and `m` matching entries, the `m - k`
/// oldest matching entries (none if `m < k`) are selected for deletion, so
/// that exactly the `k` newest remain. Returns the indices to delete.
pub fn prune(
    entries: &Vec<FileEntry>,
    filename: &Vec<u8>,
    rotation: &Rotation,
    max_keep_files: Option<u64>,
) -> (r: Vec<usize>)
    ensures
        max_keep_files is None ==> r.len() == 0,
        forall|a: int|
            0 <= a < r.len() ==> (#[trigger] r@[a] as int) < entries@.len() && spec_entry_matches(
                entries@[r@[a] as int].name@,
                filename@,
                *rotation,
            ),
        forall|a: int, b: int| 0 <= a < b < r.len() ==> r@[a] != r@[b],
        match max_keep_files {
            Some(k) => r.len() as int == (if spec_match_count(entries@, filename@, *rotation)
                < k {
                0int
            } else {
                spec_match_count(entries@, filename@, *rotation) - k
            }),
            None => true,
        },
        forall|a: int, j: int|
            0 <= a < r.len() && 0 <= j < entries@.len() && spec_entry_matches(
                (#[trigger] entries@[j]).name@,
                filename@,
                *rotation,
            ) && !r@.contains(j as usize) ==> entries@[(#[trigger] r@[a]) as int].created
                <= entries@[j].created,
{
    let k: u64 = match max_keep_files {
        Some(k) => k,
        None => {
            return Vec::new();
        },
    };
    let mut cand: Vec<usize> = Vec::new();
    let mut i: usize = 0;
    while i < entries.len()
        invariant
            i <= entries.len(),
            cand@.len() == spec_match_count(entries@.take(i as int), filename@, *rotation),
            forall|a: int|
                0 <= a < cand@.len() ==> (#[trigger] cand@[a] as int) < i && spec_entry_matches(
                    entries@[cand@[a] as int].name@,
                    filename@,
                    *rotation,
                ),
            forall|a: int, b: int| 0 <= a < b < cand@.len() ==> cand@[a] != cand@[b],
            forall|j: int|
                0 <= j < i && spec_entry_matches(
                    (#[trigger] entries@[j]).name@,
                    filename@,
                    *rotation,
                ) ==> cand@.contains(j as usize),
        decreases entries.len() - i,
    {
        let ghost oldcand = cand@;
        let matched = matches_pattern(&entries[i].name, filename, rotation);
        if matched {
            cand.push(i);
        }
        proof {
            assert(entries@.take(i + 1 as int).drop_last() =~= entries@.take(i as int));
            assert(entries@.take(i + 1 as int).last() == entries@[i as int]);
            assert forall|j: int|
                0 <= j < i + 1 && spec_entry_matches(
                    (#[trigger] entries@[j]).name@,
                    filename@,
                    *rotation,
                ) implies cand@.contains(j as usize) by {
                if j < i {
                    let a = choose|a: int| 0 <= a < oldcand.len() && oldcand[a] == j as usize;
                    assert(cand@[a] == j as usize);
                } else {
                    assert(matched);
                    assert(cand@[cand@.len() - 1] == i);
                }
            }
        }
        i = i + 1;
    }
    proof {
        assert(entries@.take(entries@.len() as int) =~= entries@);
    }
    let ghost m = cand@.len() as int;
    if (cand.len() as u64) < k {
        return Vec::new();
    }
    let kk: usize = k as usize;
    proof {
        assert(kk == k);
    }
    let d: usize = cand.len() - kk;
    let mut out: Vec<usize> = Vec::new();
    let mut t: usize = 0;
    while t < d
        invariant
            t <= d,
            d == m - kk,
            out@.len() == t as int,
            out@.len() + cand@.len() == m,
            forall|a: int|
                0 <= a < out@.len() ==> (#[trigger] out@[a] as int) < entries@.len()
                    && spec_entry_matches(entries@[out@[a] as int].name@, filename@, *rotation),
            forall|a: int|
                0 <= a < cand@.len() ==> (#[trigger] cand@[a] as int) < entries@.len()
                    && spec_entry_matches(entries@[cand@[a] as int].name@, filename@, *rotation),
            forall|a: int, b: int| 0 <= a < b < out@.len() ==> out@[a] != out@[b],
            forall|a: int, b: int| 0 <= a < b < cand@.len() ==> cand@[a] != cand@[b],
            forall|a: int, b: int|
                0 <= a < out@.len() && 0 <= b < cand@.len() ==> out@[a] != cand@[b],
            forall|j: int|
                0 <= j < entries@.len() && spec_entry_matches(
                    (#[trigger] entries@[j]).name@,
                    filename@,
                    *rotation,
                ) ==> out@.contains(j as usize) || cand@.contains(j as usize),
            forall|a: int, b: int|
                0 <= a < out@.len() && 0 <= b < cand@.len() ==> entries@[out@[a] as int].created
                    <= entries@[cand@[b] as int].created,
        decreases d - t,
    {
        let mut p: usize = 0;
        let mut q: usize = 1;
        while q < cand.len()
            invariant
                0 < cand@.len(),
                p < q <= cand@.len(),
                forall|w: int|
                    0 <= w < q ==> entries@[cand@[p as int] as int].created
                        <= entries@[(#[trigger] cand@[w]) as int].created,
                forall|a: int|
                    0 <= a < cand@.len() ==> (#[trigger] cand@[a] as int) < entries@.len(),
            decreases cand@.len() - q,
        {
            if entries[cand[q]].created < entries[cand[p]].created {
                p = q;
            }
            q = q + 1;
        }
        let ghost oldcand = cand@;
        let ghost oldout = out@;
        let chosen = cand[p];
        out.push(chosen);
        cand.remove(p);
        proof {
            assert(cand@ =~= oldcand.remove(p as int));
            assert forall|j: int|
                0 <= j < entries@.len() && spec_entry_matches(
                    (#[trigger] entries@[j]).name@,
                    filename@,
                    *rotation,
                ) implies out@.contains(j as usize) || cand@.contains(j as usize) by {
                if oldout.contains(j as usize) {
                    let a = choose|a: int| 0 <= a < oldout.len() && oldout[a] == j as usize;
                    assert(out@[a] == j as usize);
                } else {
                    let a = choose|a: int| 0 <= a < oldcand.len() && oldcand[a] == j as usize;
                    if a == p {
                        assert(out@[out@.len() - 1] == j as usize);
                    } else if a < p {
                        assert(cand@[a] == j as usize);
                    } else {
                        assert(cand@[a - 1] == j as usize);
                    }
                }
            }
            assert forall|a: int, b: int|
                0 <= a < out@.len() && 0 <= b < cand@.len() implies out@[a] != cand@[b] by {
                if b < p {
                    assert(cand@[b] == oldcand[b]);
                } else {
                    assert(cand@[b] == oldcand[b + 1]);
                }
            }
            assert forall|a: int, b: int|
                0 <= a < out@.len() && 0 <= b < cand@.len() implies entries@[out@[a] as int].created
                <= entries@[cand@[b] as int].created by {
                if b < p {
                    assert(cand@[b] == oldcand[b]);
                } else {
                    assert(cand@[b] == oldcand[b + 1]);
                }
            }
        }
        t = t + 1;
    }
    proof {
        assert forall|a: int, j: int|
            0 <= a < out@.len() && 0 <= j < entries@.len() && spec_entry_matches(
                (#[trigger] entries@[j]).name@,
                filename@,
                *rotation,
            ) && !out@.contains(j as usize) implies entries@[(#[trigger] out@[a]) as int].created
            <= entries@[j].created by {
            assert(cand@.contains(j as usize));
            let b = choose|b: int| 0 <= b < cand@.len() && cand@[b] == j as usize;
            assert(entries@[out@[a] as int].created <= entries@[cand@[b] as int].created);
        }
    }
    out
}

} // verus!
