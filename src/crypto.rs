use vstd::prelude::*;
use sha2::Digest;
use crate::timestamp::Timestamp;

verus! {

/// Upper-case hexadecimal digits, indexed by value.
pub open spec fn hex_digits() -> Seq<char> {
    seq!['0', '1', '2', '3', '4', '5', '6', '7', '8', '9', 'A', 'B', 'C', 'D', 'E', 'F']
}

/// The value of the nibble that character `j` of the hex text of `bytes` spells.
pub open spec fn nibble_at(bytes: Seq<u8>, j: int) -> int {
    if j % 2 == 0 {
        bytes[j / 2] as int / 16
    } else {
        bytes[j / 2] as int % 16
    }
}

/// Upper-case hexadecimal text of `bytes`: two digits per byte, high nibble first.
pub open spec fn hex_upper(bytes: Seq<u8>) -> Seq<char> {
    Seq::new(2 * bytes.len(), |j: int| hex_digits()[nibble_at(bytes, j)])
}

/// Upper-case hexadecimal text of `bytes`.
pub fn hex_upper_of(bytes: &[u8]) -> (r: String)
    ensures
        r@ == hex_upper(bytes@),
{
    let digits = "0123456789ABCDEF";
    proof {
        reveal_strlit("0123456789ABCDEF");
    }
    assert(digits@ == hex_digits());
    let mut out = String::new();
    let mut i: usize = 0;
    while i < bytes.len()
        invariant
            i <= bytes@.len(),
            digits@ == hex_digits(),
            out@.len() == 2 * i,
            forall|j: int| 0 <= j < 2 * i ==> out@[j] == hex_digits()[nibble_at(bytes@, j)],
        decreases bytes@.len() - i,
    {
        let b: u8 = bytes[i];
        let hi: usize = (b / 16) as usize;
        let lo: usize = (b % 16) as usize;
        let h = digits.substring_char(hi, hi + 1);
        let l = digits.substring_char(lo, lo + 1);
        out.append(h);
        out.append(l);
        assert forall|j: int| 0 <= j < 2 * (i + 1) implies out@[j] == hex_digits()[nibble_at(bytes@, j)] by {
            if j >= 2 * i {
                assert((2 * i) / 2 == i as int);
                assert((2 * i + 1) / 2 == i as int);
                assert((2 * i) % 2 == 0);
                assert((2 * i + 1) % 2 == 1);
            }
        }
        i = i + 1;
    }
    assert(out@ =~= hex_upper(bytes@));
    out
}

/// Streaming SHA-256 over the bytes of one content file.
#[verifier::external_body]
pub struct ContentHasher {
    state: sha2::Sha256,
}

/// The bytes a hasher has absorbed so far, in order.
pub uninterp spec fn absorbed(h: ContentHasher) -> Seq<u8>;

/// The SHA-256 digest of a byte sequence.
pub uninterp spec fn sha256_of(data: Seq<u8>) -> Seq<u8>;

/// Relies on `Sha256::new`: a fresh hasher has absorbed nothing.
#[verifier::external_body]
fn sha256_new() -> (r: ContentHasher)
    ensures
        absorbed(r) == Seq::<u8>::empty(),
{
    ContentHasher { state: sha2::Sha256::new() }
}

/// Relies on `Digest::update`: the chunk is appended to the absorbed input.
#[verifier::external_body]
fn sha256_update(h: &mut ContentHasher, chunk: &[u8])
    ensures
        absorbed(*final(h)) == absorbed(*old(h)) + chunk@,
{
    h.state.update(chunk)
}

/// Relies on `Digest::finalize`: the 32-byte SHA-256 digest of all absorbed input.
#[verifier::external_body]
fn sha256_finalize(h: ContentHasher) -> (r: Vec<u8>)
    ensures
        r@ == sha256_of(absorbed(h)),
        r@.len() == 32,
{
    h.state.finalize().to_vec()
}

impl ContentHasher {
    /// A hasher that has absorbed nothing yet.
    pub fn new() -> (r: ContentHasher)
        ensures
            absorbed(r) == Seq::<u8>::empty(),
    {
        sha256_new()
    }

    /// Absorbs the next chunk of the content stream.
    pub fn update(&mut self, chunk: &[u8])
        ensures
            absorbed(*final(self)) == absorbed(*old(self)) + chunk@,
    {
        sha256_update(self, chunk)
    }

    /// The digest of all absorbed input, as upper-case hexadecimal text.
    pub fn finish(self) -> (r: String)
        ensures
            r@ == hex_upper(sha256_of(absorbed(self))),
            r@.len() == 64,
    {
        let bytes = sha256_finalize(self);
        hex_upper_of(bytes.as_slice())
    }
}

/// One observation of a content file: when it was last modified, and the
/// hex SHA-256 digest of its bytes at that instant.
#[derive(Debug)]
pub struct FileHash {
    pub last_modified_time: Timestamp,
    pub sha256: String,
}

impl Clone for FileHash {
    fn clone(&self) -> (r: Self)
        ensures
            r == *self,
    {
        FileHash { last_modified_time: self.last_modified_time, sha256: self.sha256.clone() }
    }
}

/// What hashing one content file came to.
#[derive(Debug)]
pub enum HashResult {
    Success { last_modified_time: Timestamp, sha256: String },
    /// The modification time moved while the bytes were being read.
    FileModified { before: Timestamp, after: Timestamp },
    /// The bytes could not be read.
    Error { message: String },
}

/// The content hasher's verdict, from the modification time seen before the
/// bytes were streamed, the digest of the stream (or why it failed), and the
/// modification time seen after.
pub open spec fn hash_verdict(before: Timestamp, streamed: Result<String, String>, after: Timestamp) -> HashResult {
    match streamed {
        Err(message) => HashResult::Error { message },
        Ok(sha256) => if before == after {
            HashResult::Success { last_modified_time: before, sha256 }
        } else {
            HashResult::FileModified { before, after }
        },
    }
}

pub struct Crypto {}

impl Crypto {
    /// Brackets a streamed digest by the file's modification time before and
    /// after the stream: a digest is only trusted when the two agree.
    pub fn sha256(before: Timestamp, streamed: Result<String, String>, after: Timestamp) -> (r: HashResult)
        ensures
            r == hash_verdict(before, streamed, after),
    {
        match streamed {
            Err(message) => HashResult::Error { message },
            Ok(sha256) => {
                if before == after {
                    HashResult::Success { last_modified_time: before, sha256 }
                } else {
                    HashResult::FileModified { before, after }
                }
            },
        }
    }
}

} // verus!
