use vstd::prelude::*;
use crate::crypto::FileHash;
use crate::timestamp::Timestamp;

verus! {

/// Lower-case hexadecimal digits, indexed by value.
pub open spec fn lower_hex_digits() -> Seq<char> {
    seq!['0', '1', '2', '3', '4', '5', '6', '7', '8', '9', 'a', 'b', 'c', 'd', 'e', 'f']
}

pub open spec fn pow16(n: nat) -> int
    decreases n,
{
    if n == 0 {
        1
    } else {
        16 * pow16((n - 1) as nat)
    }
}

/// Nibble `k` of a 128-bit value, counted from the most significant (`k` in 0..32).
pub open spec fn uuid_nibble(bits: u128, k: int) -> int {
    (bits as int / pow16((31 - k) as nat)) % 16
}

/// How many hyphens precede position `i` of the hyphenated form.
pub open spec fn hyphens_before(i: int) -> int {
    if i < 8 {
        0
    } else if i < 13 {
        1
    } else if i < 18 {
        2
    } else if i < 23 {
        3
    } else {
        4
    }
}

/// The hyphenated text of a uuid given as its 128 bits: 32 lower-case hex
/// digits, most significant first, with hyphens after the 8th, 12th, 16th
/// and 20th digit.
pub open spec fn uuid_hyphenated(bits: u128) -> Seq<char> {
    Seq::new(
        36,
        |i: int|
            if i == 8 || i == 13 || i == 18 || i == 23 {
                '-'
            } else {
                lower_hex_digits()[uuid_nibble(bits, i - hyphens_before(i))]
            },
    )
}

/// Relies on `Uuid::new_v4` and `Uuid::as_u128`: the bits of a random
/// identifier; nothing is promised of their value.
#[verifier::external_body]
pub(crate) fn fresh_uuid_bits() -> u128 {
    uuid::Uuid::new_v4().as_u128()
}

/// Relies on `Uuid::from_u128` (the bits, big-endian) and `Uuid`'s `Display`
/// (the hyphenated form, high nibble of each byte first, lower case).
#[verifier::external_body]
fn uuid_text(bits: u128) -> (r: String)
    ensures
        r@ == uuid_hyphenated(bits),
{
    uuid::Uuid::from_u128(bits).to_string()
}

/// The suffix that turns a content file's path into its sidecar's path.
pub open spec fn sidecar_suffix() -> Seq<char> {
    seq!['.', 'm', 'e', 't', 'a']
}

/// The abstract content of a metadata record.
pub ghost struct MetaDataView {
    pub id: Seq<char>,
    pub history: Seq<FileHash>,
}

/// A sidecar metadata record: an identity assigned once, and the
/// append-only history of fingerprints; the last entry is the current one.
#[derive(Debug)]
pub struct MetaData {
    id: String,
    history: Vec<FileHash>,
}

/// Why a record could not be read.
#[derive(Debug)]
pub enum MetaDataError {
    /// No sidecar exists: the asset was never tracked.
    NotFound,
    /// The sidecar exists but could not be read.
    ReadError { error: String },
    /// The sidecar was read but does not hold a record.
    ParseError { error: String },
}

/// How an observed modification time relates to a recorded fingerprint.
#[derive(Debug, Clone, Copy, PartialEq, Eq, Structural)]
pub enum MetadataTimestampComparison {
    Equal,
    /// The file was modified after the fingerprint was taken.
    FileModified,
    /// The file claims to be older than its last recorded observation.
    ImpossiblePast,
}

/// The comparison of `observed` with the time recorded in `recorded`.
pub open spec fn timestamp_comparison(recorded: FileHash, observed: Timestamp) -> MetadataTimestampComparison {
    if observed == recorded.last_modified_time {
        MetadataTimestampComparison::Equal
    } else if observed.earlier_than(recorded.last_modified_time) {
        MetadataTimestampComparison::ImpossiblePast
    } else {
        MetadataTimestampComparison::FileModified
    }
}

impl View for MetaData {
    type V = MetaDataView;

    closed spec fn view(&self) -> MetaDataView {
        MetaDataView { id: self.id@, history: self.history@ }
    }
}

impl Clone for MetaData {
    fn clone(&self) -> (r: Self)
        ensures
            r@ == self@,
    {
        let history = self.history.clone();
        assert(history@ =~= self.history@);
        MetaData { id: self.id.clone(), history }
    }
}

impl MetaData {
    /// A record whose identity is the uuid with the given bits, with no
    /// fingerprint yet.
    pub fn new(id: u128) -> (r: MetaData)
        ensures
            r@.id == uuid_hyphenated(id),
            r@.history.len() == 0,
    {
        MetaData { id: uuid_text(id), history: Vec::new() }
    }

    /// A record with the given identity and history, as read from storage.
    pub fn from_parts(id: String, history: Vec<FileHash>) -> (r: MetaData)
        ensures
            r@.id == id@,
            r@.history == history@,
    {
        MetaData { id, history }
    }

    pub fn id(&self) -> (r: &String)
        ensures
            r@ == self@.id,
    {
        &self.id
    }

    pub fn history(&self) -> (r: &Vec<FileHash>)
        ensures
            r@ == self@.history,
    {
        &self.history
    }

    /// The current fingerprint, if any was ever recorded.
    pub fn last_file_hash(&self) -> (r: Option<&FileHash>)
        ensures
            r is None <==> self@.history.len() == 0,
            r matches Some(f) ==> *f == self@.history.last(),
    {
        self.history.last()
    }

    /// Appends a fingerprint to the history.
    pub fn with_file_hash(&mut self, file_hash: FileHash) -> (r: &mut Self)
        ensures
            r@.id == old(self)@.id,
            r@.history == old(self)@.history.push(file_hash),
            *final(self) == *final(r),
    {
        self.history.push(file_hash);
        self
    }

    /// Compares an observed modification time with a recorded fingerprint.
    pub fn compare_timestamp(file_hash: &FileHash, observed: Timestamp) -> (r: MetadataTimestampComparison)
        ensures
            r == timestamp_comparison(*file_hash, observed),
    {
        if observed == file_hash.last_modified_time {
            MetadataTimestampComparison::Equal
        } else if observed.is_earlier_than(&file_hash.last_modified_time) {
            MetadataTimestampComparison::ImpossiblePast
        } else {
            MetadataTimestampComparison::FileModified
        }
    }

    /// The path of the sidecar that holds the record of the content file at
    /// `path`: the suffix is appended to the full name.
    pub fn path_for_metadata_file(path: &str) -> (r: String)
        ensures
            r@ == path@ + sidecar_suffix(),
    {
        let mut p = String::from_str(path);
        let suffix = ".meta";
        proof {
            reveal_strlit(".meta");
        }
        assert(suffix@ =~= sidecar_suffix());
        p.append(suffix);
        p
    }
}

} // verus!
