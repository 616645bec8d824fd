use vstd::prelude::*;
use crate::meta::{MetaData, MetaDataView};
use crate::validate::{Invalid, Outcome, Valid, ValidateOptions};

verus! {

/// The record a classification calls for: the fresh fingerprint appended to
/// the record, or none where nothing may be written.
pub open spec fn synced_view(outcome: Outcome) -> Option<MetaDataView> {
    match outcome {
        Outcome::Valid(Valid::TimestampMatches) => None,
        Outcome::Invalid(Invalid::HashMismatch { .. }) => None,
        Outcome::Valid(Valid::HashAndTimestampMatches { metadata, file_hash })
        | Outcome::Invalid(Invalid::MissingMetadata { metadata, file_hash })
        | Outcome::Invalid(Invalid::MissingMetadataHistory { metadata, file_hash })
        | Outcome::Invalid(Invalid::FileModified { metadata, file_hash }) => Some(
            MetaDataView { id: metadata@.id, history: metadata@.history.push(file_hash) },
        ),
    }
}

/// The synchronization policy: what a classification writes back.
pub struct Update {}

impl Update {
    /// The record that `outcome` calls for, whether or not the run persists it.
    pub fn synchronized(outcome: &Outcome) -> (r: Option<MetaData>)
        ensures
            r is Some <==> synced_view(*outcome) is Some,
            r matches Some(record) ==> Some(record@) == synced_view(*outcome),
    {
        let (metadata, file_hash) = match outcome {
            Outcome::Valid(Valid::TimestampMatches) => {
                return None;
            },
            Outcome::Invalid(Invalid::HashMismatch { .. }) => {
                return None;
            },
            Outcome::Valid(Valid::HashAndTimestampMatches { metadata, file_hash }) => (metadata, file_hash),
            Outcome::Invalid(Invalid::MissingMetadata { metadata, file_hash }) => (metadata, file_hash),
            Outcome::Invalid(Invalid::MissingMetadataHistory { metadata, file_hash }) => (metadata, file_hash),
            Outcome::Invalid(Invalid::FileModified { metadata, file_hash }) => (metadata, file_hash),
        };
        let mut record = metadata.clone();
        record.with_file_hash(file_hash.clone());
        Some(record)
    }

    /// The record to persist for `outcome`: none on a dry run.
    pub fn update_meta_file(outcome: &Outcome, options: &ValidateOptions) -> (r: Option<MetaData>)
        ensures
            r is Some <==> (!options.dry_run && synced_view(*outcome) is Some),
            r matches Some(record) ==> Some(record@) == synced_view(*outcome),
    {
        if options.dry_run {
            None
        } else {
            Self::synchronized(outcome)
        }
    }

    /// The records to persist for a run's classifications, one per asset.
    pub fn update_meta_files(outcomes: &Vec<Outcome>, options: &ValidateOptions) -> (r: Vec<Option<MetaData>>)
        ensures
            r@.len() == outcomes@.len(),
            forall|i: int| 0 <= i < r@.len() ==> (#[trigger] r@[i] is Some <==> (!options.dry_run
                && synced_view(outcomes@[i]) is Some)),
            forall|i: int| 0 <= i < r@.len() ==> (#[trigger] r@[i] matches Some(record) ==> Some(record@)
                == synced_view(outcomes@[i])),
    {
        let mut writes: Vec<Option<MetaData>> = Vec::new();
        let mut i: usize = 0;
        while i < outcomes.len()
            invariant
                i <= outcomes@.len(),
                writes@.len() == i,
                forall|k: int| 0 <= k < i ==> (#[trigger] writes@[k] is Some <==> (!options.dry_run
                    && synced_view(outcomes@[k]) is Some)),
                forall|k: int| 0 <= k < i ==> (#[trigger] writes@[k] matches Some(record) ==> Some(record@)
                    == synced_view(outcomes@[k])),
            decreases outcomes@.len() - i,
        {
            writes.push(Self::update_meta_file(&outcomes[i], options));
            i = i + 1;
        }
        writes
    }
}

} // verus!
