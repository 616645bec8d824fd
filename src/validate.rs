use vstd::prelude::*;
use crate::crypto::{FileHash, HashResult};
use crate::meta::{
    fresh_uuid_bits, timestamp_comparison, uuid_hyphenated, MetaData, MetaDataError, MetadataTimestampComparison,
};
use crate::timestamp::Timestamp;
use crate::update::{synced_view, Update};

verus! {

/// How much a run reports.
#[derive(Debug, Clone, Copy, PartialEq, Eq, Structural)]
pub enum LogLevel {
    Minimal,
    Default,
    Verbose,
}

/// The configuration of one run.
#[derive(Debug, Clone, Copy, PartialEq, Eq, Structural)]
pub struct ValidateOptions {
    /// Re-hash content even when the timestamp matches the record.
    pub contents: bool,
    /// Classify and report, but never persist.
    pub dry_run: bool,
    pub log_level: LogLevel,
}

/// An asset whose record agrees with its content file.
#[derive(Debug)]
pub enum Valid {
    /// The modification time equals the recorded one; nothing was hashed.
    TimestampMatches,
    /// A fresh digest equals the recorded one; `file_hash` is the fresh fingerprint.
    HashAndTimestampMatches { metadata: MetaData, file_hash: FileHash },
}

/// An asset whose record does not (yet) agree with its content file. Each
/// variant carries the record as it stands and a freshly computed fingerprint.
#[derive(Debug)]
pub enum Invalid {
    /// No sidecar existed; `metadata` is a freshly minted, empty record.
    MissingMetadata { metadata: MetaData, file_hash: FileHash },
    /// The record exists but holds no fingerprint.
    MissingMetadataHistory { metadata: MetaData, file_hash: FileHash },
    /// The modification time moved past the recorded one. The engine itself
    /// hashes on every timestamp advance and so reports such assets as
    /// `HashAndTimestampMatches` or `HashMismatch`.
    FileModified { metadata: MetaData, file_hash: FileHash },
    /// The fresh digest differs from the recorded one.
    HashMismatch { metadata: MetaData, file_hash: FileHash },
}

/// The classification of one asset.
#[derive(Debug)]
pub enum Outcome {
    Valid(Valid),
    Invalid(Invalid),
}

/// Why one asset could not be classified or synchronized this pass.
#[derive(Debug)]
pub enum AssetError {
    /// The sidecar exists but could not be read.
    ReadFailure { error: String },
    /// The sidecar does not hold a record.
    ParseFailure { error: String },
    /// The file claims to be older than its last recorded fingerprint.
    ImpossiblePast { recorded: Timestamp, observed: Timestamp },
    /// The file was modified while it was being hashed.
    FileChangedDuringHash { before: Timestamp, after: Timestamp },
    /// The content could not be read.
    IoFailure { message: String },
    /// The synchronized record could not be persisted.
    WriteFailure { message: String },
}

/// A record that awaits a fresh fingerprint of its content file.
#[derive(Debug)]
pub enum Pending {
    /// No sidecar existed: a freshly minted record.
    New(MetaData),
    /// The record read from the sidecar.
    Existing(MetaData),
}

/// The result of one asset's pass.
#[derive(Debug)]
pub struct AssetReport {
    /// The asset's identity.
    pub asset_id: String,
    pub outcome: Result<Outcome, AssetError>,
    /// Whether a record was written to storage.
    pub persisted: bool,
}

/// What the engine asks for next while it validates one asset.
#[derive(Debug)]
pub enum Step {
    /// Hash the content file, then hand the result to `Validate::hashed`.
    Hash(Pending),
    /// Write `record` to the sidecar, then hand the result to `Validate::written`.
    Persist { record: MetaData, outcome: Outcome },
    /// The pass over this asset is over.
    Report(AssetReport),
}

pub open spec fn report(asset_id: String, outcome: Result<Outcome, AssetError>) -> Step {
    Step::Report(AssetReport { asset_id, outcome, persisted: false })
}

/// The first step for an asset whose file was observed with modification
/// time `observed` and whose sidecar read came to `read`.
pub open spec fn first_step(asset_id: String, observed: Timestamp, read: Result<MetaData, MetaDataError>, options: ValidateOptions, r: Step) -> bool {
    match read {
        Err(MetaDataError::NotFound) => r matches Step::Hash(Pending::New(record))
            && record@.history.len() == 0 && exists|bits: u128| record@.id == uuid_hyphenated(bits),
        Err(MetaDataError::ReadError { error }) => r == report(asset_id, Err(AssetError::ReadFailure { error })),
        Err(MetaDataError::ParseError { error }) => r == report(asset_id, Err(AssetError::ParseFailure { error })),
        Ok(record) => if record@.history.len() == 0 {
            r == Step::Hash(Pending::Existing(record))
        } else {
            let recorded = record@.history.last();
            match timestamp_comparison(recorded, observed) {
                MetadataTimestampComparison::ImpossiblePast => r == report(asset_id,
                    Err(AssetError::ImpossiblePast { recorded: recorded.last_modified_time, observed }),
                ),
                MetadataTimestampComparison::Equal if !options.contents => r == report(asset_id,
                    Ok(Outcome::Valid(Valid::TimestampMatches)),
                ),
                _ => r == Step::Hash(Pending::Existing(record)),
            }
        },
    }
}

/// The classification of a pending record given a fresh fingerprint.
pub open spec fn classify(pending: Pending, file_hash: FileHash) -> Outcome {
    match pending {
        Pending::New(metadata) => Outcome::Invalid(Invalid::MissingMetadata { metadata, file_hash }),
        Pending::Existing(metadata) => if metadata@.history.len() == 0 {
            Outcome::Invalid(Invalid::MissingMetadataHistory { metadata, file_hash })
        } else if file_hash.sha256@ == metadata@.history.last().sha256@ {
            Outcome::Valid(Valid::HashAndTimestampMatches { metadata, file_hash })
        } else {
            Outcome::Invalid(Invalid::HashMismatch { metadata, file_hash })
        },
    }
}

/// The step that follows a classification: persist the synchronized record
/// unless there is none or the run is dry.
pub open spec fn settle(asset_id: String, outcome: Outcome, options: ValidateOptions, r: Step) -> bool {
    match synced_view(outcome) {
        Some(v) if !options.dry_run => r matches Step::Persist { record, outcome: o }
            && record@ == v && o == outcome,
        _ => r == report(asset_id, Ok(outcome)),
    }
}

/// The step that follows hashing the content of a pending record.
pub open spec fn step_after_hash(asset_id: String, pending: Pending, hash: HashResult, options: ValidateOptions, r: Step) -> bool {
    match hash {
        HashResult::FileModified { before, after } => r == report(asset_id,
            Err(AssetError::FileChangedDuringHash { before, after }),
        ),
        HashResult::Error { message } => r == report(asset_id, Err(AssetError::IoFailure { message })),
        HashResult::Success { last_modified_time, sha256 } => settle(
            asset_id,
            classify(pending, FileHash { last_modified_time, sha256 }),
            options,
            r,
        ),
    }
}

/// The report once the write of a synchronized record came to `write`.
pub open spec fn report_after_write(asset_id: String, outcome: Outcome, write: Result<(), String>) -> AssetReport {
    match write {
        Ok(()) => AssetReport { asset_id, outcome: Ok(outcome), persisted: true },
        Err(message) => AssetReport { asset_id, outcome: Err(AssetError::WriteFailure { message }), persisted: false },
    }
}

pub struct Validate {}

impl Validate {
    /// Starts the pass over one asset: classifies it from its observed
    /// modification time and its sidecar read, or asks for a fresh hash.
    pub fn validate_file(asset_id: String, observed: Timestamp, read: Result<MetaData, MetaDataError>, options: &ValidateOptions) -> (r: Step)
        ensures
            first_step(asset_id, observed, read, *options, r),
    {
        let metadata = match read {
            Ok(metadata) => metadata,
            Err(MetaDataError::NotFound) => {
                return Step::Hash(Pending::New(MetaData::new(fresh_uuid_bits())));
            },
            Err(MetaDataError::ReadError { error }) => {
                return Step::Report(AssetReport { asset_id, outcome: Err(AssetError::ReadFailure { error }), persisted: false });
            },
            Err(MetaDataError::ParseError { error }) => {
                return Step::Report(AssetReport { asset_id, outcome: Err(AssetError::ParseFailure { error }), persisted: false });
            },
        };
        let latest = match metadata.last_file_hash() {
            None => {
                return Step::Hash(Pending::Existing(metadata));
            },
            Some(latest) => latest,
        };
        let recorded = latest.last_modified_time;
        match MetaData::compare_timestamp(latest, observed) {
            MetadataTimestampComparison::ImpossiblePast => Step::Report(AssetReport {
                asset_id,
                outcome: Err(AssetError::ImpossiblePast { recorded, observed }),
                persisted: false,
            }),
            MetadataTimestampComparison::Equal if !options.contents => Step::Report(AssetReport {
                asset_id,
                outcome: Ok(Outcome::Valid(Valid::TimestampMatches)),
                persisted: false,
            }),
            _ => Step::Hash(Pending::Existing(metadata)),
        }
    }

    /// Continues the pass once the content of a pending record was hashed.
    pub fn hashed(asset_id: String, pending: Pending, hash: HashResult, options: &ValidateOptions) -> (r: Step)
        ensures
            step_after_hash(asset_id, pending, hash, *options, r),
    {
        let file_hash = match hash {
            HashResult::Success { last_modified_time, sha256 } => FileHash { last_modified_time, sha256 },
            HashResult::FileModified { before, after } => {
                return Step::Report(AssetReport {
                    asset_id,
                    outcome: Err(AssetError::FileChangedDuringHash { before, after }),
                    persisted: false,
                });
            },
            HashResult::Error { message } => {
                return Step::Report(AssetReport { asset_id, outcome: Err(AssetError::IoFailure { message }), persisted: false });
            },
        };
        let outcome = Self::classify(pending, file_hash);
        match Update::update_meta_file(&outcome, options) {
            Some(record) => Step::Persist { record, outcome },
            None => Step::Report(AssetReport { asset_id, outcome: Ok(outcome), persisted: false }),
        }
    }

    fn classify(pending: Pending, file_hash: FileHash) -> (r: Outcome)
        ensures
            r == classify(pending, file_hash),
    {
        match pending {
            Pending::New(metadata) => Outcome::Invalid(Invalid::MissingMetadata { metadata, file_hash }),
            Pending::Existing(metadata) => {
                let matches = match metadata.last_file_hash() {
                    None => None,
                    Some(recorded) => Some(file_hash.sha256 == recorded.sha256),
                };
                match matches {
                    None => Outcome::Invalid(Invalid::MissingMetadataHistory { metadata, file_hash }),
                    Some(true) => Outcome::Valid(Valid::HashAndTimestampMatches { metadata, file_hash }),
                    Some(false) => Outcome::Invalid(Invalid::HashMismatch { metadata, file_hash }),
                }
            },
        }
    }

    /// Ends the pass once the synchronized record was written, or failed to be.
    pub fn written(asset_id: String, outcome: Outcome, write: Result<(), String>) -> (r: AssetReport)
        ensures
            r == report_after_write(asset_id, outcome, write),
    {
        match write {
            Ok(()) => AssetReport { asset_id, outcome: Ok(outcome), persisted: true },
            Err(message) => AssetReport { asset_id, outcome: Err(AssetError::WriteFailure { message }), persisted: false },
        }
    }
}

/// The text that reports a valid asset.
pub open spec fn valid_text(v: Valid) -> Seq<char> {
    match v {
        Valid::TimestampMatches => "✓ timestamp"@,
        Valid::HashAndTimestampMatches { .. } => "✓ hash ✓ timestamp"@,
    }
}

/// The text that reports an invalid asset.
pub open spec fn invalid_text(i: Invalid) -> Seq<char> {
    match i {
        Invalid::MissingMetadata { .. } => "missing metadata"@,
        Invalid::MissingMetadataHistory { .. } => "missing metadata history"@,
        Invalid::FileModified { .. } => "file modified"@,
        Invalid::HashMismatch { .. } => "hash mismatch"@,
    }
}

/// The text that names an error.
pub open spec fn error_text(e: AssetError) -> Seq<char> {
    match e {
        AssetError::ReadFailure { .. } => "read error"@,
        AssetError::ParseFailure { .. } => "parse error"@,
        AssetError::ImpossiblePast { .. } => "metadata timestamp is later than file timestamp"@,
        AssetError::FileChangedDuringHash { .. } => "file modified while hashing"@,
        AssetError::IoFailure { .. } => "io error"@,
        AssetError::WriteFailure { .. } => "write error"@,
    }
}

/// The detail an error carries from the failed operation, if any.
pub open spec fn error_detail(e: AssetError) -> Option<Seq<char>> {
    match e {
        AssetError::ReadFailure { error } => Some(error@),
        AssetError::ParseFailure { error } => Some(error@),
        AssetError::IoFailure { message } => Some(message@),
        AssetError::WriteFailure { message } => Some(message@),
        _ => None,
    }
}

/// The one-line summary of an asset's pass.
pub open spec fn summary_text(rep: AssetReport) -> Seq<char> {
    match rep.outcome {
        Ok(Outcome::Valid(v)) => valid_text(v) + if rep.persisted {
            " -> updated"@
        } else {
            Seq::empty()
        },
        Ok(Outcome::Invalid(i)) => invalid_text(i) + if !rep.persisted {
            Seq::empty()
        } else if i is MissingMetadata {
            " -> created"@
        } else {
            " -> updated"@
        },
        Err(e) => error_text(e) + match error_detail(e) {
            Some(d) => ": "@ + d,
            None => Seq::empty(),
        },
    }
}

impl Valid {
    pub fn to_string(&self) -> (r: &'static str)
        ensures
            r@ == valid_text(*self),
    {
        match self {
            Valid::TimestampMatches => "✓ timestamp",
            Valid::HashAndTimestampMatches { .. } => "✓ hash ✓ timestamp",
        }
    }
}

impl Invalid {
    pub fn to_string(&self) -> (r: &'static str)
        ensures
            r@ == invalid_text(*self),
    {
        match self {
            Invalid::MissingMetadata { .. } => "missing metadata",
            Invalid::MissingMetadataHistory { .. } => "missing metadata history",
            Invalid::FileModified { .. } => "file modified",
            Invalid::HashMismatch { .. } => "hash mismatch",
        }
    }
}

impl AssetError {
    pub fn to_string(&self) -> (r: &'static str)
        ensures
            r@ == error_text(*self),
    {
        match self {
            AssetError::ReadFailure { .. } => "read error",
            AssetError::ParseFailure { .. } => "parse error",
            AssetError::ImpossiblePast { .. } => "metadata timestamp is later than file timestamp",
            AssetError::FileChangedDuringHash { .. } => "file modified while hashing",
            AssetError::IoFailure { .. } => "io error",
            AssetError::WriteFailure { .. } => "write error",
        }
    }
}

impl AssetReport {
    /// One line that says how the pass over the asset ended.
    pub fn summary(&self) -> (r: String)
        ensures
            r@ == summary_text(*self),
    {
        match &self.outcome {
            Ok(Outcome::Valid(v)) => {
                let mut line = String::from_str(v.to_string());
                if self.persisted {
                    line.append(" -> updated");
                }
                assert(line@ =~= summary_text(*self));
                line
            },
            Ok(Outcome::Invalid(i)) => {
                let mut line = String::from_str(i.to_string());
                if self.persisted {
                    match i {
                        Invalid::MissingMetadata { .. } => line.append(" -> created"),
                        _ => line.append(" -> updated"),
                    }
                }
                assert(line@ =~= summary_text(*self));
                line
            },
            Err(e) => {
                let mut line = String::from_str(e.to_string());
                match e {
                    AssetError::ReadFailure { error: d }
                    | AssetError::ParseFailure { error: d }
                    | AssetError::IoFailure { message: d }
                    | AssetError::WriteFailure { message: d } => {
                        line.append(": ");
                        line.append(d.as_str());
                    },
                    _ => {},
                }
                assert(line@ =~= summary_text(*self));
                line
            },
        }
    }
}

} // verus!
