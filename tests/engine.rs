use asset_validator::crypto::{ContentHasher, Crypto, FileHash, HashResult};
use asset_validator::meta::{MetaData, MetaDataError};
use asset_validator::timestamp::Timestamp;
use asset_validator::update::Update;
use asset_validator::validate::{
    AssetError, AssetReport, Invalid, LogLevel, Outcome, Pending, Step, Valid, Validate,
    ValidateOptions,
};

const ABC_SHA256: &str = "BA7816BF8F01CFEA414140DE5DAE2223B00361A396177A9CB410FF61F20015AD";

fn options(contents: bool, dry_run: bool) -> ValidateOptions {
    ValidateOptions { contents, dry_run, log_level: LogLevel::Default }
}

fn digest(bytes: &[u8]) -> String {
    let mut h = ContentHasher::new();
    h.update(bytes);
    h.finish()
}

fn record(entries: &[(i64, &str)]) -> MetaData {
    let history = entries
        .iter()
        .map(|(s, d)| FileHash { last_modified_time: Timestamp::new(*s, 0), sha256: d.to_string() })
        .collect();
    MetaData::from_parts("0b5e3f8e-8c5a-4b7e-9a57-3f1c2d4e5f60".to_string(), history)
}

fn expect_hash(step: Step) -> Pending {
    match step {
        Step::Hash(p) => p,
        other => panic!("expected a hash request, got {:?}", other),
    }
}

fn expect_report(step: Step) -> AssetReport {
    match step {
        Step::Report(r) => r,
        other => panic!("expected a report, got {:?}", other),
    }
}

/// Runs one asset's pass against in-memory content and a sidecar slot.
fn run_pass(
    observed: Timestamp,
    content: &[u8],
    sidecar: &mut Option<MetaData>,
    opts: &ValidateOptions,
) -> (AssetReport, usize) {
    let read = match sidecar {
        Some(m) => Ok(m.clone()),
        None => Err(MetaDataError::NotFound),
    };
    let mut writes = 0;
    let mut step = Validate::validate_file("a.bin".to_string(), observed, read, opts);
    loop {
        step = match step {
            Step::Hash(p) => Validate::hashed("a.bin".to_string(), p, Crypto::sha256(observed, Ok(digest(content)), observed), opts),
            Step::Persist { record, outcome } => {
                *sidecar = Some(record);
                writes += 1;
                return (Validate::written("a.bin".to_string(), outcome, Ok(())), writes);
            }
            Step::Report(r) => return (r, writes),
        }
    }
}

#[test]
fn missing_sidecar_creates_record_end_to_end() {
    let mtime = Timestamp::new(1_700_000_000, 123);
    let mut sidecar = None;
    let (report, writes) = run_pass(mtime, b"abc", &mut sidecar, &options(false, false));
    assert_eq!(writes, 1);
    assert!(report.persisted);
    assert_eq!(report.asset_id, "a.bin");
    assert_eq!(report.summary(), "missing metadata -> created");
    let created = sidecar.expect("record persisted");
    assert_eq!(created.id().len(), 36);
    assert_eq!(created.history().len(), 1);
    assert_eq!(created.history()[0].last_modified_time, mtime);
    assert_eq!(created.history()[0].sha256, ABC_SHA256);
    assert_eq!(MetaData::path_for_metadata_file("a.bin"), "a.bin.meta");
}

#[test]
fn second_pass_on_unchanged_asset_writes_nothing() {
    let mtime = Timestamp::new(500, 0);
    let mut sidecar = None;
    let opts = options(false, false);
    run_pass(mtime, b"payload", &mut sidecar, &opts);
    let (first, w1) = run_pass(mtime, b"payload", &mut sidecar, &opts);
    let (second, w2) = run_pass(mtime, b"payload", &mut sidecar, &opts);
    assert_eq!((w1, w2), (0, 0));
    for r in [&first, &second] {
        assert!(matches!(r.outcome, Ok(Outcome::Valid(Valid::TimestampMatches))));
        assert!(!r.persisted);
        assert_eq!(r.summary(), "✓ timestamp");
    }
    assert_eq!(sidecar.unwrap().history().len(), 1);
}

#[test]
fn forced_content_check_on_unchanged_asset_is_valid_both_times() {
    let mtime = Timestamp::new(500, 0);
    let mut sidecar = Some(record(&[(500, &digest(b"payload"))]));
    let opts = options(true, false);
    for _ in 0..2 {
        let (r, _) = run_pass(mtime, b"payload", &mut sidecar, &opts);
        assert!(matches!(r.outcome, Ok(Outcome::Valid(Valid::HashAndTimestampMatches { .. }))));
        assert_eq!(r.summary(), "✓ hash ✓ timestamp -> updated");
    }
}

#[test]
fn timestamp_advance_with_same_content_refreshes_the_record() {
    let digest_now = digest(b"same");
    let mut sidecar = Some(record(&[(10, &digest_now)]));
    let (r, writes) = run_pass(Timestamp::new(20, 0), b"same", &mut sidecar, &options(false, false));
    assert_eq!(writes, 1);
    assert!(matches!(r.outcome, Ok(Outcome::Valid(Valid::HashAndTimestampMatches { .. }))));
    let h = sidecar.unwrap();
    assert_eq!(h.history().len(), 2);
    assert_eq!(h.history()[0].last_modified_time, Timestamp::new(10, 0));
    assert_eq!(h.history()[1].last_modified_time, Timestamp::new(20, 0));
    assert_eq!(h.history()[1].sha256, digest_now);
}

#[test]
fn hash_mismatch_is_reported_and_never_written() {
    for dry_run in [false, true] {
        let mut sidecar = Some(record(&[(10, "00")]));
        let (r, writes) = run_pass(Timestamp::new(20, 0), b"changed", &mut sidecar, &options(false, dry_run));
        assert_eq!(writes, 0);
        assert!(!r.persisted);
        match &r.outcome {
            Ok(Outcome::Invalid(Invalid::HashMismatch { metadata, file_hash })) => {
                assert_eq!(metadata.history().len(), 1);
                assert_eq!(file_hash.sha256, digest(b"changed"));
            }
            other => panic!("unexpected {:?}", other),
        }
        assert_eq!(r.summary(), "hash mismatch");
        assert_eq!(sidecar.unwrap().history().len(), 1);
    }
}

#[test]
fn forced_check_with_equal_timestamp_detects_corruption() {
    let mut sidecar = Some(record(&[(10, &digest(b"original"))]));
    let (r, writes) = run_pass(Timestamp::new(10, 0), b"corrupted", &mut sidecar, &options(true, false));
    assert_eq!(writes, 0);
    assert!(matches!(r.outcome, Ok(Outcome::Invalid(Invalid::HashMismatch { .. }))));
}

#[test]
fn dry_run_reports_would_be_record_without_writing() {
    let mtime = Timestamp::new(42, 7);
    let mut sidecar = None;
    let opts = options(false, true);
    let (r, writes) = run_pass(mtime, b"abc", &mut sidecar, &opts);
    assert_eq!(writes, 0);
    assert!(sidecar.is_none());
    assert!(!r.persisted);
    assert_eq!(r.summary(), "missing metadata");
    let outcome = r.outcome.expect("classified");
    assert!(matches!(outcome, Outcome::Invalid(Invalid::MissingMetadata { .. })));
    assert!(Update::update_meta_file(&outcome, &opts).is_none());
    let would_be = Update::synchronized(&outcome).expect("would-be record");
    assert_eq!(would_be.history().len(), 1);
    assert_eq!(would_be.history()[0].last_modified_time, mtime);
    assert_eq!(would_be.history()[0].sha256, ABC_SHA256);
}

#[test]
fn race_during_hash_commits_nothing() {
    let opts = options(false, false);
    let pending = expect_hash(Validate::validate_file("a.bin".to_string(), Timestamp::new(5, 0), Err(MetaDataError::NotFound), &opts));
    let race = Crypto::sha256(Timestamp::new(5, 0), Ok(ABC_SHA256.to_string()), Timestamp::new(6, 0));
    let r = expect_report(Validate::hashed("a.bin".to_string(), pending, race, &opts));
    assert!(!r.persisted);
    match r.outcome {
        Err(AssetError::FileChangedDuringHash { before, after }) => {
            assert_eq!(before, Timestamp::new(5, 0));
            assert_eq!(after, Timestamp::new(6, 0));
        }
        other => panic!("unexpected {:?}", other),
    }
}

#[test]
fn empty_history_is_filled_with_fresh_fingerprint() {
    let mut sidecar = Some(record(&[]));
    let (r, writes) = run_pass(Timestamp::new(9, 0), b"abc", &mut sidecar, &options(false, false));
    assert_eq!(writes, 1);
    assert_eq!(r.summary(), "missing metadata history -> updated");
    let m = sidecar.unwrap();
    assert_eq!(m.id(), "0b5e3f8e-8c5a-4b7e-9a57-3f1c2d4e5f60");
    assert_eq!(m.history().len(), 1);
    assert_eq!(m.history()[0].sha256, ABC_SHA256);
}

#[test]
fn file_older_than_record_is_an_error() {
    let opts = options(false, false);
    let r = expect_report(Validate::validate_file("a.bin".to_string(), Timestamp::new(5, 0), Ok(record(&[(1, "AA"), (9, "BB")])), &opts));
    match &r.outcome {
        Err(AssetError::ImpossiblePast { recorded, observed }) => {
            assert_eq!(*recorded, Timestamp::new(9, 0));
            assert_eq!(*observed, Timestamp::new(5, 0));
        }
        other => panic!("unexpected {:?}", other),
    }
    assert_eq!(r.summary(), "metadata timestamp is later than file timestamp");
}

#[test]
fn unreadable_or_malformed_sidecar_is_not_treated_as_missing() {
    let opts = options(false, false);
    let t = Timestamp::new(1, 0);
    let r = expect_report(Validate::validate_file("a.bin".to_string(), t, Err(MetaDataError::ReadError { error: "denied".to_string() }), &opts));
    assert!(matches!(r.outcome, Err(AssetError::ReadFailure { .. })));
    assert_eq!(r.summary(), "read error: denied");
    let r = expect_report(Validate::validate_file("a.bin".to_string(), t, Err(MetaDataError::ParseError { error: "bad yaml".to_string() }), &opts));
    assert!(matches!(r.outcome, Err(AssetError::ParseFailure { .. })));
    assert_eq!(r.summary(), "parse error: bad yaml");
}

#[test]
fn unreadable_content_is_reported() {
    let opts = options(false, false);
    let t = Timestamp::new(1, 0);
    let pending = expect_hash(Validate::validate_file("a.bin".to_string(), t, Err(MetaDataError::NotFound), &opts));
    let r = expect_report(Validate::hashed("a.bin".to_string(), pending, HashResult::Error { message: "eio".to_string() }, &opts));
    assert!(matches!(r.outcome, Err(AssetError::IoFailure { .. })));
    assert_eq!(r.summary(), "io error: eio");
}

#[test]
fn failed_write_is_reported_as_error() {
    let outcome = Outcome::Valid(Valid::TimestampMatches);
    let r = Validate::written("a.bin".to_string(), outcome, Err("disk full".to_string()));
    assert!(!r.persisted);
    assert!(matches!(r.outcome, Err(AssetError::WriteFailure { .. })));
    assert_eq!(r.summary(), "write error: disk full");
}

#[test]
fn stale_record_is_synchronized_by_policy() {
    let fresh = FileHash { last_modified_time: Timestamp::new(30, 0), sha256: "CC".to_string() };
    let outcome = Outcome::Invalid(Invalid::FileModified { metadata: record(&[(10, "AA")]), file_hash: fresh });
    let synced = Update::update_meta_file(&outcome, &options(false, false)).expect("record to write");
    assert_eq!(synced.history().len(), 2);
    assert_eq!(synced.history()[1].sha256, "CC");
    let r = Validate::written("a.bin".to_string(), outcome, Ok(()));
    assert_eq!(r.summary(), "file modified -> updated");
}

#[test]
fn batch_policy_follows_each_outcome() {
    let fresh = || FileHash { last_modified_time: Timestamp::new(3, 0), sha256: "FF".to_string() };
    let outcomes = vec![
        Outcome::Valid(Valid::TimestampMatches),
        Outcome::Invalid(Invalid::HashMismatch { metadata: record(&[(1, "AA")]), file_hash: fresh() }),
        Outcome::Invalid(Invalid::MissingMetadataHistory { metadata: record(&[]), file_hash: fresh() }),
    ];
    let writes = Update::update_meta_files(&outcomes, &options(false, false));
    assert_eq!(writes.len(), 3);
    assert!(writes[0].is_none());
    assert!(writes[1].is_none());
    assert_eq!(writes[2].as_ref().unwrap().history().len(), 1);
    let dry = Update::update_meta_files(&outcomes, &options(false, true));
    assert!(dry.iter().all(|w| w.is_none()));
}

#[test]
fn valid_texts() {
    assert_eq!(Valid::TimestampMatches.to_string(), "✓ timestamp");
    let v = Valid::HashAndTimestampMatches {
        metadata: record(&[]),
        file_hash: FileHash { last_modified_time: Timestamp::new(0, 0), sha256: String::new() },
    };
    assert_eq!(v.to_string(), "✓ hash ✓ timestamp");
}
