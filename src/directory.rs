use vstd::prelude::*;
use crate::meta::sidecar_suffix;

verus! {

/// One entry of a recursive scan of the asset root.
#[derive(Debug)]
pub struct ScannedFile {
    pub path: String,
    /// A regular file, as opposed to a directory or anything else.
    pub is_file: bool,
}

/// How the index treats one scanned entry.
#[derive(Debug)]
pub enum EntryKind {
    /// Not a regular file.
    Skip,
    /// A content file; its identity is its path.
    Content,
    /// A sidecar of the asset with the given identity.
    Sidecar { id: String },
}

/// The path names a sidecar: it ends with the reserved suffix.
pub open spec fn is_sidecar_path(p: Seq<char>) -> bool {
    p.len() >= sidecar_suffix().len() && p.subrange(p.len() - sidecar_suffix().len(), p.len() as int) == sidecar_suffix()
}

/// The identity of the asset a sidecar belongs to: its path minus the suffix.
pub open spec fn sidecar_owner(p: Seq<char>) -> Seq<char> {
    p.subrange(0, p.len() - sidecar_suffix().len())
}

pub struct Directory {}

impl Directory {
    /// Sorts one scanned entry into the index's categories.
    pub fn classify(file: &ScannedFile) -> (r: EntryKind)
        ensures
            !file.is_file ==> r is Skip,
            file.is_file && !is_sidecar_path(file.path@) ==> r is Content,
            file.is_file && is_sidecar_path(file.path@) ==> (r matches EntryKind::Sidecar { id }
                && id@ == sidecar_owner(file.path@)),
    {
        if !file.is_file {
            return EntryKind::Skip;
        }
        let p = file.path.as_str();
        let n = p.unicode_len();
        if n < 5 {
            return EntryKind::Content;
        }
        let sidecar = p.get_char(n - 5) == '.' && p.get_char(n - 4) == 'm' && p.get_char(n - 3) == 'e'
            && p.get_char(n - 2) == 't' && p.get_char(n - 1) == 'a';
        if sidecar {
            assert(p@.subrange(n - 5, n as int) =~= sidecar_suffix());
            EntryKind::Sidecar { id: String::from_str(p.substring_char(0, n - 5)) }
        } else {
            assert(p@.subrange(n - 5, n as int) != sidecar_suffix() ) by {
                let t = p@.subrange(n - 5, n as int);
                if t == sidecar_suffix() {
                    assert(t[0] == '.' && t[1] == 'm' && t[2] == 'e' && t[3] == 't' && t[4] == 'a');
                }
            }
            EntryKind::Content
        }
    }
}

} // verus!
