use logroller::config::{Compression, Rotation, RotationAge, RotationSize};
use logroller::paths::{is_age_match, is_size_match, parse_decimal, push_decimal};
use logroller::pipeline::{compress, gz_path, prune, FileEntry};
use std::io::Read;

fn entry(name: &[u8], created: u64) -> FileEntry {
    FileEntry { name: name.to_vec(), created }
}

#[test]
fn gzip_round_trip() {
    let data = b"rolling segment payload, repeated: abcabcabcabcabc".to_vec();
    let gz = compress(&Some(Compression::Gzip), &data)
        .expect("encoding into memory succeeds")
        .expect("gzip is realized");
    assert_ne!(gz, data);
    let mut decoder = flate2::read::GzDecoder::new(&gz[..]);
    let mut plain = Vec::new();
    decoder.read_to_end(&mut plain).expect("the stream decodes");
    assert_eq!(plain, data);
}

#[test]
fn unrealized_compression_is_a_silent_no_op() {
    let data = b"bytes".to_vec();
    assert_eq!(compress(&Some(Compression::Zstd), &data).unwrap(), None);
    assert_eq!(compress(&Some(Compression::LZ4), &data).unwrap(), None);
    assert_eq!(compress(&None, &data).unwrap(), None);
}

#[test]
fn gz_path_appends_the_extension() {
    assert_eq!(gz_path(&b"logs/app.log.1".to_vec()), b"logs/app.log.1.gz".to_vec());
}

#[test]
fn retention_keeps_the_newest_k() {
    let entries = vec![
        entry(b"app.log.1", 10),
        entry(b"app.log.2", 20),
        entry(b"app.log.3", 30),
        entry(b"app.log", 5),
        entry(b"junk.txt", 1),
    ];
    let rotation = Rotation::SizeBased(RotationSize::Bytes(10));
    let mut doomed = prune(&entries, &b"app.log".to_vec(), &rotation, Some(2));
    doomed.sort();
    // Four entries match; the two oldest (created 5 and 10) go.
    assert_eq!(doomed, vec![0, 3]);
}

#[test]
fn retention_under_the_limit_deletes_nothing() {
    let entries = vec![entry(b"app.log.1", 10), entry(b"app.log.2", 20)];
    let rotation = Rotation::SizeBased(RotationSize::Bytes(10));
    assert!(prune(&entries, &b"app.log".to_vec(), &rotation, Some(10)).is_empty());
    assert!(prune(&entries, &b"app.log".to_vec(), &rotation, None).is_empty());
}

#[test]
fn retention_at_the_limit_deletes_nothing() {
    let entries = vec![entry(b"app.log.1", 10), entry(b"app.log.2", 20)];
    let rotation = Rotation::SizeBased(RotationSize::Bytes(10));
    assert!(prune(&entries, &b"app.log".to_vec(), &rotation, Some(2)).is_empty());
}

#[test]
fn retention_with_equal_creation_times() {
    let entries = vec![
        entry(b"app.log.1", 7),
        entry(b"app.log.2", 7),
        entry(b"app.log.3", 7),
    ];
    let rotation = Rotation::SizeBased(RotationSize::Bytes(10));
    let doomed = prune(&entries, &b"app.log".to_vec(), &rotation, Some(1));
    assert_eq!(doomed.len(), 2);
    assert!(doomed.iter().all(|i| *i < 3));
    assert_ne!(doomed[0], doomed[1]);
}

#[test]
fn size_pattern_selection() {
    let f = b"app.log".to_vec();
    assert!(is_size_match(&b"app.log".to_vec(), &f));
    assert!(is_size_match(&b"app.log.gz".to_vec(), &f));
    assert!(is_size_match(&b"app.log.12".to_vec(), &f));
    assert!(is_size_match(&b"app.log.12.gz".to_vec(), &f));
    assert!(!is_size_match(&b"app.log.x2".to_vec(), &f));
    assert!(!is_size_match(&b"app.log2".to_vec(), &f));
    assert!(!is_size_match(&b"app.lo".to_vec(), &f));
    assert!(!is_size_match(&b"app.log.".to_vec(), &f));
}

#[test]
fn age_pattern_selection() {
    let f = b"app.log".to_vec();
    assert!(is_age_match(&b"app.log.2024-03-10".to_vec(), &f, &RotationAge::Daily));
    assert!(is_age_match(&b"app.log.2024-03-10.gz".to_vec(), &f, &RotationAge::Daily));
    assert!(!is_age_match(&b"app.log.2024-3-10".to_vec(), &f, &RotationAge::Daily));
    assert!(!is_age_match(&b"app.log.2024-03-10-12".to_vec(), &f, &RotationAge::Daily));
    assert!(!is_age_match(&b"app.log".to_vec(), &f, &RotationAge::Daily));
    assert!(is_age_match(&b"app.log.2024-03-10-12".to_vec(), &f, &RotationAge::Hourly));
    assert!(is_age_match(&b"app.log.2024-03-10-12-05".to_vec(), &f, &RotationAge::Minutely));
    assert!(!is_age_match(&b"app.log.2024-03-10-12-05".to_vec(), &f, &RotationAge::Hourly));
}

#[test]
fn age_retention_counts_only_its_pattern() {
    let entries = vec![
        entry(b"app.log.2024-03-10", 10),
        entry(b"app.log.2024-03-11.gz", 20),
        entry(b"app.log.20240310", 3),
        entry(b"app.log.1", 4),
    ];
    let rotation = Rotation::AgeBased(RotationAge::Daily);
    let mut doomed = prune(&entries, &b"app.log".to_vec(), &rotation, Some(0));
    doomed.sort();
    assert_eq!(doomed, vec![0, 1]);
}

#[test]
fn decimal_formatting_and_parsing() {
    let mut v = Vec::new();
    push_decimal(&mut v, 0);
    assert_eq!(v, b"0".to_vec());
    let mut v = Vec::new();
    push_decimal(&mut v, 1234);
    assert_eq!(v, b"1234".to_vec());

    assert_eq!(parse_decimal(&b"123".to_vec(), 0), Some(123));
    assert_eq!(parse_decimal(&b"xx123".to_vec(), 2), Some(123));
    assert_eq!(parse_decimal(&b"12a".to_vec(), 0), None);
    assert_eq!(parse_decimal(&b"".to_vec(), 0), None);
    assert_eq!(
        parse_decimal(&b"99999999999999999999999999".to_vec(), 0),
        None
    );
}
