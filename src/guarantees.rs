//! Laws of the validation engine, stated over the contracts of its steps.
use vstd::prelude::*;
use crate::crypto::{hash_verdict, hex_upper, sha256_of, FileHash, HashResult};
use crate::meta::{uuid_hyphenated, MetaData, MetaDataError, MetaDataView};
use crate::timestamp::Timestamp;
use crate::update::synced_view;
use crate::validate::{
    first_step, report, step_after_hash, AssetError, Invalid, Outcome, Pending, Step, Valid,
    ValidateOptions,
};

verus! {

/// An asset whose file still carries the recorded modification time is
/// settled without hashing and without a write, unless the run re-verifies
/// content; then a fresh digest equal to the recorded one classifies it as
/// valid. Nothing in either pass changes what the next pass reads, so a
/// second pass comes to the same.
pub proof fn settled_asset_stays_settled(
    asset_id: String,
    record: MetaData,
    options: ValidateOptions,
    sha256: String,
    r1: Step,
    r2: Step,
)
    requires
        record@.history.len() > 0,
        first_step(asset_id, record@.history.last().last_modified_time, Ok(record), options, r1),
        sha256@ == record@.history.last().sha256@,
        step_after_hash(
            asset_id,
            Pending::Existing(record),
            HashResult::Success { last_modified_time: record@.history.last().last_modified_time, sha256 },
            options,
            r2,
        ),
    ensures
        !options.contents ==> r1 == report(asset_id, Ok(Outcome::Valid(Valid::TimestampMatches))),
        options.contents ==> r1 == Step::Hash(Pending::Existing(record)),
        match r2 {
            Step::Persist { outcome, .. } => outcome matches Outcome::Valid(Valid::HashAndTimestampMatches { .. }),
            Step::Report(rep) => !rep.persisted && rep.outcome matches Ok(Outcome::Valid(Valid::HashAndTimestampMatches { .. })),
            Step::Hash(_) => false,
        },
{
}

/// Once a fresh fingerprint was persisted, a later pass that reads the
/// persisted record back while the file is unchanged settles the asset
/// without a write, or, re-verifying content, classifies it as valid.
pub proof fn synchronized_asset_is_settled(
    asset_id: String,
    pending: Pending,
    observed: Timestamp,
    sha256: String,
    options: ValidateOptions,
    record: MetaData,
    outcome: Outcome,
    read_back: MetaData,
    next_options: ValidateOptions,
    r: Step,
)
    requires
        step_after_hash(
            asset_id,
            pending,
            HashResult::Success { last_modified_time: observed, sha256 },
            options,
            Step::Persist { record, outcome },
        ),
        read_back@ == record@,
        first_step(asset_id, observed, Ok(read_back), next_options, r),
    ensures
        !next_options.contents ==> r == report(asset_id, Ok(Outcome::Valid(Valid::TimestampMatches))),
        next_options.contents ==> r == Step::Hash(Pending::Existing(read_back)),
        forall|r2: Step|
            step_after_hash(
                asset_id,
                Pending::Existing(read_back),
                HashResult::Success { last_modified_time: observed, sha256 },
                next_options,
                r2,
            ) ==> (match r2 {
                Step::Persist { outcome, .. } => outcome matches Outcome::Valid(Valid::HashAndTimestampMatches { .. }),
                Step::Report(rep) => rep.outcome matches Ok(Outcome::Valid(Valid::HashAndTimestampMatches { .. })),
                Step::Hash(_) => false,
            }),
{
    assert(read_back@.history.last() == FileHash { last_modified_time: observed, sha256 });
}

/// A content file without a sidecar gets exactly one new record, with a
/// fresh uuid's text as its identity, whose only fingerprint carries the
/// observed time and the digest of the file's bytes.
pub proof fn new_asset_gets_one_record(
    asset_id: String,
    observed: Timestamp,
    bytes: Seq<u8>,
    digest: String,
    options: ValidateOptions,
    r1: Step,
    minted: MetaData,
    r2: Step,
)
    requires
        !options.dry_run,
        digest@ == hex_upper(sha256_of(bytes)),
        first_step(asset_id, observed, Err(MetaDataError::NotFound), options, r1),
        r1 == Step::Hash(Pending::New(minted)),
        step_after_hash(asset_id, Pending::New(minted), hash_verdict(observed, Ok(digest), observed), options, r2),
    ensures
        exists|bits: u128| minted@.id == uuid_hyphenated(bits),
        r2 is Persist,
        r2->record@.id == minted@.id,
        r2->record@.history.len() == 1,
        r2->record@.history[0].last_modified_time == observed,
        r2->record@.history[0].sha256@ == hex_upper(sha256_of(bytes)),
        r2->outcome == Outcome::Invalid(Invalid::MissingMetadata {
            metadata: minted,
            file_hash: FileHash { last_modified_time: observed, sha256: digest },
        }),
{
    let fresh = FileHash { last_modified_time: observed, sha256: digest };
    assert(r2->record@.history == minted@.history.push(fresh));
    assert(r2->record@.history[0] == fresh);
}

/// A file whose modification time moved while it was hashed yields no
/// digest, and the engine commits nothing for it this pass.
pub proof fn race_commits_nothing(
    asset_id: String,
    before: Timestamp,
    digest: String,
    after: Timestamp,
    pending: Pending,
    options: ValidateOptions,
    r: Step,
)
    requires
        before != after,
        step_after_hash(asset_id, pending, hash_verdict(before, Ok(digest), after), options, r),
    ensures
        hash_verdict(before, Ok(digest), after) == (HashResult::FileModified { before, after }),
        r == report(asset_id, Err(AssetError::FileChangedDuringHash { before, after })),
{
}

/// A fresh digest that differs from the recorded one is reported as a
/// mismatch and never written back, dry run or not.
pub proof fn mismatch_is_never_healed(
    asset_id: String,
    record: MetaData,
    fresh: FileHash,
    options: ValidateOptions,
    r: Step,
)
    requires
        record@.history.len() > 0,
        fresh.sha256@ != record@.history.last().sha256@,
        step_after_hash(
            asset_id,
            Pending::Existing(record),
            HashResult::Success { last_modified_time: fresh.last_modified_time, sha256: fresh.sha256 },
            options,
            r,
        ),
    ensures
        r == report(asset_id, Ok(Outcome::Invalid(Invalid::HashMismatch { metadata: record, file_hash: fresh }))),
        synced_view(Outcome::Invalid(Invalid::HashMismatch { metadata: record, file_hash: fresh })) is None,
{
}

/// A dry run never asks for a write: no step of a pass persists anything.
pub proof fn dry_run_never_persists(
    asset_id: String,
    observed: Timestamp,
    read: Result<MetaData, MetaDataError>,
    pending: Pending,
    hash: HashResult,
    options: ValidateOptions,
    r1: Step,
    r2: Step,
)
    requires
        options.dry_run,
        first_step(asset_id, observed, read, options, r1),
        step_after_hash(asset_id, pending, hash, options, r2),
    ensures
        !(r1 is Persist),
        !(r2 is Persist),
{
}

/// On a dry run, a content file without a sidecar is reported as missing
/// its metadata together with the record that would have been created:
/// the fresh identity and the fresh fingerprint as its only entry.
pub proof fn dry_run_reports_would_be_record(
    asset_id: String,
    observed: Timestamp,
    digest: String,
    options: ValidateOptions,
    r1: Step,
    minted: MetaData,
    r2: Step,
)
    requires
        options.dry_run,
        first_step(asset_id, observed, Err(MetaDataError::NotFound), options, r1),
        r1 == Step::Hash(Pending::New(minted)),
        step_after_hash(asset_id, Pending::New(minted), hash_verdict(observed, Ok(digest), observed), options, r2),
    ensures
        exists|bits: u128| minted@.id == uuid_hyphenated(bits),
        r2 == report(asset_id, Ok(Outcome::Invalid(Invalid::MissingMetadata {
            metadata: minted,
            file_hash: FileHash { last_modified_time: observed, sha256: digest },
        }))),
        synced_view(Outcome::Invalid(Invalid::MissingMetadata {
            metadata: minted,
            file_hash: FileHash { last_modified_time: observed, sha256: digest },
        })) == Some(MetaDataView {
            id: minted@.id,
            history: seq![FileHash { last_modified_time: observed, sha256: digest }],
        }),
{
    assert(minted@.history.push(FileHash { last_modified_time: observed, sha256: digest })
        =~= seq![FileHash { last_modified_time: observed, sha256: digest }]);
}

} // verus!
