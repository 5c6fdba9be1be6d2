//! Segment naming: decimal suffixes, timestamp formatting, directory joins,
//! suffix recovery parsing, and the filename patterns that select which
//! directory entries belong to a roller.
//!
//! Paths are plain byte strings; the directory is joined to a file name with
//! a single separator byte.

use vstd::prelude::*;
use crate::config::RotationAge;
use crate::time::DateTime;

verus! {

pub const DOT: u8 = 46;
pub const SLASH: u8 = 47;
pub const HYPHEN: u8 = 45;
pub const LETTER_G: u8 = 103;
pub const LETTER_Z: u8 = 122;

pub open spec fn is_digit(c: u8) -> bool {
    48 <= c <= 57
}

/// Every byte of `s` in positions `a..b` is an ASCII digit.
pub open spec fn digits_in(s: Seq<u8>, a: int, b: int) -> bool {
    forall|i: int| a <= i < b ==> is_digit(#[trigger] s[i])
}

pub open spec fn all_digits(s: Seq<u8>) -> bool {
    digits_in(s, 0, s.len() as int)
}

/// The digit byte for `n` in `0..=9`.
pub open spec fn d1(n: int) -> u8 {
    (48 + n) as u8
}

/// `n` in `0..=99` as two digit bytes.
pub open spec fn pad2(n: int) -> Seq<u8> {
    seq![d1(n / 10), d1(n % 10)]
}

/// `n` in `0..=9999` as four digit bytes.
pub open spec fn pad4(n: int) -> Seq<u8> {
    seq![d1(n / 1000), d1((n / 100) % 10), d1((n / 10) % 10), d1(n % 10)]
}

/// The timestamp carried in an age-based segment name: `YYYY-MM-DD`,
/// `YYYY-MM-DD-HH` or `YYYY-MM-DD-HH-mm` by granularity.
pub open spec fn spec_timestamp(dt: DateTime, rotation_age: RotationAge) -> Seq<u8> {
    let date = pad4(dt.year as int) + seq![HYPHEN] + pad2(dt.month as int) + seq![HYPHEN] + pad2(
        dt.day as int,
    );
    match rotation_age {
        RotationAge::Daily => date,
        RotationAge::Hourly => date + seq![HYPHEN] + pad2(dt.hour as int),
        RotationAge::Minutely => date + seq![HYPHEN] + pad2(dt.hour as int) + seq![HYPHEN] + pad2(
            dt.minute as int,
        ),
    }
}

/// `n >= 0` in decimal, most significant digit first, no leading zeros
/// (a single zero for 0).
pub open spec fn spec_dec(n: int) -> Seq<u8>
    decreases n,
{
    if n < 10 {
        seq![d1(n)]
    } else {
        spec_dec(n / 10) + seq![d1(n % 10)]
    }
}

/// A directory joined to a file name.
pub open spec fn spec_join(dir: Seq<u8>, name: Seq<u8>) -> Seq<u8> {
    dir + seq![SLASH] + name
}

/// `filename.N` for a size-based closed segment.
pub open spec fn spec_suffix_name(filename: Seq<u8>, idx: int) -> Seq<u8> {
    filename + seq![DOT] + spec_dec(idx)
}

/// `filename.<timestamp>` for an age-based segment.
pub open spec fn spec_ts_name(filename: Seq<u8>, dt: DateTime, rotation_age: RotationAge) -> Seq<
    u8,
> {
    filename + seq![DOT] + spec_timestamp(dt, rotation_age)
}

fn push_pad2(v: &mut Vec<u8>, n: u8)
    requires
        n < 100,
    ensures
        final(v)@ == old(v)@ + pad2(n as int),
{
    v.push(48 + n / 10);
    v.push(48 + n % 10);
    proof {
        assert(v@ =~= old(v)@ + pad2(n as int));
    }
}

fn push_pad4(v: &mut Vec<u8>, n: i32)
    requires
        0 <= n <= 9999,
    ensures
        final(v)@ == old(v)@ + pad4(n as int),
{
    v.push(48 + (n / 1000) as u8);
    v.push(48 + ((n / 100) % 10) as u8);
    v.push(48 + ((n / 10) % 10) as u8);
    v.push(48 + (n % 10) as u8);
    proof {
        assert(v@ =~= old(v)@ + pad4(n as int));
    }
}

/// Append the timestamp for `dt` at the given granularity.
pub fn push_timestamp(v: &mut Vec<u8>, dt: &DateTime, rotation_age: &RotationAge)
    requires
        dt.dt_ok(),
    ensures
        final(v)@ == old(v)@ + spec_timestamp(*dt, *rotation_age),
{
    push_pad4(v, dt.year);
    v.push(HYPHEN);
    push_pad2(v, dt.month);
    v.push(HYPHEN);
    push_pad2(v, dt.day);
    match rotation_age {
        RotationAge::Daily => {},
        RotationAge::Hourly => {
            v.push(HYPHEN);
            push_pad2(v, dt.hour);
        },
        RotationAge::Minutely => {
            v.push(HYPHEN);
            push_pad2(v, dt.hour);
            v.push(HYPHEN);
            push_pad2(v, dt.minute);
        },
    }
    proof {
        assert(v@ =~= old(v)@ + spec_timestamp(*dt, *rotation_age));
    }
}

/// Append `n` in decimal.
pub fn push_decimal(v: &mut Vec<u8>, n: usize)
    ensures
        final(v)@ == old(v)@ + spec_dec(n as int),
    decreases n,
{
    if n >= 10 {
        push_decimal(v, n / 10);
    }
    v.push(48 + (n % 10) as u8);
    proof {
        assert(v@ =~= old(v)@ + spec_dec(n as int));
    }
}

/// Append all of `src`.
pub fn append_bytes(v: &mut Vec<u8>, src: &Vec<u8>)
    ensures
        final(v)@ == old(v)@ + src@,
{
    let mut i: usize = 0;
    while i < src.len()
        invariant
            i <= src.len(),
            v@ == old(v)@ + src@.take(i as int),
        decreases src.len() - i,
    {
        v.push(src[i]);
        i = i + 1;
        proof {
            assert(v@ =~= old(v)@ + src@.take(i as int));
        }
    }
    proof {
        assert(v@ =~= old(v)@ + src@);
    }
}

/// The value of a run of digit bytes.
pub open spec fn dec_val(s: Seq<u8>) -> int
    decreases s.len(),
{
    if s.len() == 0 {
        0
    } else {
        dec_val(s.drop_last()) * 10 + (s.last() - 48)
    }
}

pub proof fn lemma_dec_val_nonneg(s: Seq<u8>)
    requires
        all_digits(s),
    ensures
        dec_val(s) >= 0,
    decreases s.len(),
{
    if s.len() > 0 {
        assert(all_digits(s.drop_last())) by {
            assert(forall|i: int|
                0 <= i < s.len() - 1 ==> #[trigger] s.drop_last()[i] == s[i]);
        }
        lemma_dec_val_nonneg(s.drop_last());
        assert(is_digit(s.last()));
    }
}

/// A digit run is worth at least any of its prefixes.
pub proof fn lemma_dec_val_prefix_le(s: Seq<u8>, n: int)
    requires
        all_digits(s),
        0 <= n <= s.len(),
    ensures
        dec_val(s.take(n)) <= dec_val(s),
    decreases s.len(),
{
    if n == s.len() {
        assert(s.take(n) =~= s);
    } else {
        assert(all_digits(s.drop_last())) by {
            assert(forall|i: int|
                0 <= i < s.len() - 1 ==> #[trigger] s.drop_last()[i] == s[i]);
        }
        assert(s.take(n) =~= s.drop_last().take(n));
        lemma_dec_val_prefix_le(s.drop_last(), n);
        lemma_dec_val_nonneg(s.drop_last());
        assert(is_digit(s.last()));
    }
}

/// What `filename.<digits>` parses to: the digits' value, if the whole tail
/// is a nonempty digit run that fits the machine word.
pub open spec fn spec_parse_dec(s: Seq<u8>) -> Option<usize> {
    if s.len() > 0 && all_digits(s) && dec_val(s) <= usize::MAX {
        Some(dec_val(s) as usize)
    } else {
        None
    }
}

/// Parse the decimal run at `s[from..]`.
pub fn parse_decimal(s: &Vec<u8>, from: usize) -> (r: Option<usize>)
    requires
        from <= s.len(),
    ensures
        r == spec_parse_dec(s@.skip(from as int)),
{
    let ghost tail = s@.skip(from as int);
    if from == s.len() {
        return None;
    }
    let mut acc: usize = 0;
    let mut i: usize = from;
    while i < s.len()
        invariant
            from <= i <= s.len(),
            s@.skip(from as int) == tail,
            digits_in(s@, from as int, i as int),
            acc == dec_val(s@.subrange(from as int, i as int)),
        decreases s.len() - i,
    {
        let c = s[i];
        if c < 48 || c > 57 {
            proof {
                assert(!is_digit(tail[i - from]));
            }
            return None;
        }
        let d = (c - 48) as usize;
        proof {
            assert(s@.subrange(from as int, i + 1 as int).drop_last() =~= s@.subrange(
                from as int,
                i as int,
            ));
            assert(s@.subrange(from as int, i + 1 as int).last() == c);
        }
        if acc > (usize::MAX - d) / 10 {
            proof {
                assert(acc * 10 + d > usize::MAX);
                assert(dec_val(s@.subrange(from as int, i + 1 as int)) > usize::MAX);
                if all_digits(tail) {
                    assert(tail.take(i + 1 - from as int) =~= s@.subrange(
                        from as int,
                        i + 1 as int,
                    ));
                    lemma_dec_val_prefix_le(tail, i + 1 - from as int);
                }
            }
            return None;
        }
        acc = acc * 10 + d;
        i = i + 1;
    }
    proof {
        assert(s@.subrange(from as int, s@.len() as int) =~= tail);
        assert(forall|j: int|
            0 <= j < tail.len() ==> #[trigger] tail[j] == s@[from + j]);
    }
    Some(acc)
}

/// `name` begins with `filename` (positionally).
pub open spec fn bytes_prefix(name: Seq<u8>, filename: Seq<u8>) -> bool {
    name.len() >= filename.len() && forall|i: int|
        0 <= i < filename.len() ==> name[i] == #[trigger] filename[i]
}

/// Whether `name` starts with all of `filename`.
pub fn has_prefix(name: &Vec<u8>, filename: &Vec<u8>) -> (r: bool)
    ensures
        r == bytes_prefix(name@, filename@),
{
    if name.len() < filename.len() {
        return false;
    }
    let mut j: usize = 0;
    while j < filename.len()
        invariant
            j <= filename.len() <= name.len(),
            forall|i: int| 0 <= i < j ==> name@[i] == #[trigger] filename@[i],
        decreases filename.len() - j,
    {
        if name[j] != filename[j] {
            return false;
        }
        j = j + 1;
    }
    true
}

fn digits_in_range(name: &Vec<u8>, a: usize, b: usize) -> (r: bool)
    requires
        a <= b <= name.len(),
    ensures
        r == digits_in(name@, a as int, b as int),
{
    let mut j: usize = a;
    while j < b
        invariant
            a <= j <= b <= name.len(),
            digits_in(name@, a as int, j as int),
        decreases b - j,
    {
        let c = name[j];
        if c < 48 || c > 57 {
            return false;
        }
        j = j + 1;
    }
    true
}

/// The numeric suffix a directory entry carries, if `name` is exactly
/// `filename.<digits>`.
pub open spec fn spec_suffix_num(name: Seq<u8>, filename: Seq<u8>) -> Option<int> {
    if name.len() > filename.len() + 1 && bytes_prefix(name, filename) && name[filename.len() as int]
        == DOT && all_digits(name.skip(filename.len() as int + 1)) {
        Some(dec_val(name.skip(filename.len() as int + 1)))
    } else {
        None
    }
}

/// The suffix counted by startup recovery: entries whose value does not fit
/// the machine word are ignored, like any other non-matching name.
pub open spec fn counted_suffix(name: Seq<u8>, filename: Seq<u8>) -> int {
    match spec_suffix_num(name, filename) {
        Some(v) => if v <= usize::MAX {
            v
        } else {
            0
        },
        None => 0,
    }
}

/// The largest counted suffix among the directory entries (0 if none).
pub open spec fn spec_max_suffix(entries: Seq<Vec<u8>>, filename: Seq<u8>) -> int
    decreases entries.len(),
{
    if entries.len() == 0 {
        0
    } else {
        let rest = spec_max_suffix(entries.drop_last(), filename);
        let v = counted_suffix(entries.last()@, filename);
        if v > rest {
            v
        } else {
            rest
        }
    }
}

/// The suffix `name` contributes to recovery, if any.
pub fn entry_suffix(name: &Vec<u8>, filename: &Vec<u8>) -> (r: Option<usize>)
    ensures
        match r {
            Some(v) => spec_suffix_num(name@, filename@) == Some(v as int),
            None => counted_suffix(name@, filename@) == 0,
        },
{
    if name.len() <= filename.len() {
        return None;
    }
    if !has_prefix(name, filename) {
        return None;
    }
    if name[filename.len()] != DOT {
        return None;
    }
    let r = parse_decimal(name, filename.len() + 1);
    proof {
        let tail = name@.skip(filename@.len() as int + 1);
        if name@.len() > filename@.len() + 1 && all_digits(tail) {
            lemma_dec_val_nonneg(tail);
        }
    }
    r
}

// -------------------------------------------------------------------------
// Patterns selecting the directory entries that belong to a roller.
// -------------------------------------------------------------------------

/// `name[..upto]` is `filename` alone or `filename.<digits>`.
pub open spec fn spec_size_stem_match(name: Seq<u8>, upto: int, filename: Seq<u8>) -> bool {
    &&& upto <= name.len()
    &&& bytes_prefix(name, filename)
    &&& (upto == filename.len() || (upto > filename.len() + 1 && name[filename.len() as int] == DOT
        && digits_in(name, filename.len() as int + 1, upto)))
}

/// `name` ends in `.gz`.
pub open spec fn ends_with_gz(name: Seq<u8>) -> bool {
    name.len() >= 3 && name[name.len() - 3] == DOT && name[name.len() - 2] == LETTER_G && name[name.len()
        - 1] == LETTER_Z
}

/// The size-mode retention pattern: `filename`, `filename.N`, either
/// optionally followed by `.gz`.
pub open spec fn spec_size_match(name: Seq<u8>, filename: Seq<u8>) -> bool {
    spec_size_stem_match(name, name.len() as int, filename) || (ends_with_gz(name)
        && spec_size_stem_match(name, name.len() - 3, filename))
}

fn size_stem_match(name: &Vec<u8>, upto: usize, filename: &Vec<u8>) -> (r: bool)
    requires
        upto <= name.len(),
    ensures
        r == spec_size_stem_match(name@, upto as int, filename@),
{
    if !has_prefix(name, filename) {
        return false;
    }
    if upto == filename.len() {
        return true;
    }
    if upto <= filename.len() || upto - filename.len() < 2 {
        return false;
    }
    if name[filename.len()] != DOT {
        return false;
    }
    digits_in_range(name, filename.len() + 1, upto)
}

fn gz_tail(name: &Vec<u8>) -> (r: bool)
    ensures
        r == ends_with_gz(name@),
{
    name.len() >= 3 && name[name.len() - 3] == DOT && name[name.len() - 2] == LETTER_G
        && name[name.len() - 1] == LETTER_Z
}

/// Whether `name` matches the size-mode retention pattern.
pub fn is_size_match(name: &Vec<u8>, filename: &Vec<u8>) -> (r: bool)
    ensures
        r == spec_size_match(name@, filename@),
{
    if size_stem_match(name, name.len(), filename) {
        return true;
    }
    gz_tail(name) && size_stem_match(name, name.len() - 3, filename)
}

/// Length of the timestamp for a granularity.
pub open spec fn ts_len(rotation_age: RotationAge) -> int {
    match rotation_age {
        RotationAge::Daily => 10,
        RotationAge::Hourly => 13,
        RotationAge::Minutely => 16,
    }
}

/// A granularity timestamp shape starting at `at`: digit and hyphen bytes in
/// the `YYYY-MM-DD[-HH[-mm]]` layout.
pub open spec fn spec_ts_shape_at(name: Seq<u8>, at: int, rotation_age: RotationAge) -> bool {
    &&& digits_in(name, at, at + 4)
    &&& name[at + 4] == HYPHEN
    &&& digits_in(name, at + 5, at + 7)
    &&& name[at + 7] == HYPHEN
    &&& digits_in(name, at + 8, at + 10)
    &&& match rotation_age {
        RotationAge::Daily => true,
        RotationAge::Hourly => name[at + 10] == HYPHEN && digits_in(name, at + 11, at + 13),
        RotationAge::Minutely => name[at + 10] == HYPHEN && digits_in(name, at + 11, at + 13)
            && name[at + 13] == HYPHEN && digits_in(name, at + 14, at + 16),
    }
}

/// `name[..upto]` is `filename.<timestamp>` for the granularity.
pub open spec fn spec_age_stem_match(
    name: Seq<u8>,
    upto: int,
    filename: Seq<u8>,
    rotation_age: RotationAge,
) -> bool {
    &&& upto <= name.len()
    &&& upto == filename.len() + 1 + ts_len(rotation_age)
    &&& bytes_prefix(name, filename)
    &&& name[filename.len() as int] == DOT
    &&& spec_ts_shape_at(name, filename.len() as int + 1, rotation_age)
}

/// The age-mode retention pattern: `filename.<timestamp>`, optionally
/// followed by `.gz`.
pub open spec fn spec_age_match(name: Seq<u8>, filename: Seq<u8>, rotation_age: RotationAge) -> bool {
    spec_age_stem_match(name, name.len() as int, filename, rotation_age) || (ends_with_gz(name)
        && spec_age_stem_match(name, name.len() - 3, filename, rotation_age))
}

fn ts_shape_at(name: &Vec<u8>, at: usize, rotation_age: &RotationAge) -> (r: bool)
    requires
        at + ts_len(*rotation_age) <= name.len(),
    ensures
        r == spec_ts_shape_at(name@, at as int, *rotation_age),
{
    if !digits_in_range(name, at, at + 4) {
        return false;
    }
    if name[at + 4] != HYPHEN {
        return false;
    }
    if !digits_in_range(name, at + 5, at + 7) {
        return false;
    }
    if name[at + 7] != HYPHEN {
        return false;
    }
    if !digits_in_range(name, at + 8, at + 10) {
        return false;
    }
    match rotation_age {
        RotationAge::Daily => true,
        RotationAge::Hourly => name[at + 10] == HYPHEN && digits_in_range(name, at + 11, at + 13),
        RotationAge::Minutely => name[at + 10] == HYPHEN && digits_in_range(name, at + 11, at + 13)
            && name[at + 13] == HYPHEN && digits_in_range(name, at + 14, at + 16),
    }
}

fn age_stem_match(name: &Vec<u8>, upto: usize, filename: &Vec<u8>, rotation_age: &RotationAge) -> (r:
    bool)
    requires
        upto <= name.len(),
    ensures
        r == spec_age_stem_match(name@, upto as int, filename@, *rotation_age),
{
    let tsl: usize = match rotation_age {
        RotationAge::Daily => 10,
        RotationAge::Hourly => 13,
        RotationAge::Minutely => 16,
    };
    if upto < tsl + 1 || upto - tsl - 1 != filename.len() {
        return false;
    }
    if !has_prefix(name, filename) {
        return false;
    }
    if name[filename.len()] != DOT {
        return false;
    }
    ts_shape_at(name, filename.len() + 1, rotation_age)
}

/// Whether `name` matches the age-mode retention pattern.
pub fn is_age_match(name: &Vec<u8>, filename: &Vec<u8>, rotation_age: &RotationAge) -> (r: bool)
    ensures
        r == spec_age_match(name@, filename@, *rotation_age),
{
    if age_stem_match(name, name.len(), filename, rotation_age) {
        return true;
    }
    gz_tail(name) && age_stem_match(name, name.len() - 3, filename, rotation_age)
}

} // verus!
