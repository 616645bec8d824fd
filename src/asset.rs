use vstd::prelude::*;
use crate::directory::{is_sidecar_path, sidecar_owner, Directory, EntryKind, ScannedFile};
use crate::meta::{sidecar_suffix, MetaData};

verus! {

/// The texts of a sequence of strings.
pub open spec fn texts(v: Seq<String>) -> Seq<Seq<char>> {
    v.map_values(|s: String| s@)
}

/// Holds of the identities that have no sidecar.
pub open spec fn lacks_sidecar(meta: Seq<Seq<char>>) -> spec_fn(Seq<char>) -> bool {
    |x: Seq<char>| !meta.contains(x)
}

/// Some regular file among `files` is a content file at path `x`.
pub open spec fn scanned_content(files: Seq<ScannedFile>, x: Seq<char>) -> bool {
    exists|k: int|
        0 <= k < files.len() && (#[trigger] files[k]).is_file && !is_sidecar_path(files[k].path@)
            && files[k].path@ == x
}

/// Some regular file among `files` is a sidecar of the asset `x`.
pub open spec fn scanned_sidecar(files: Seq<ScannedFile>, x: Seq<char>) -> bool {
    exists|k: int|
        0 <= k < files.len() && (#[trigger] files[k]).is_file && is_sidecar_path(files[k].path@)
            && sidecar_owner(files[k].path@) == x
}

/// One asset of the index: its identity, which is also its content file's
/// path, and the path of its sidecar where one exists.
#[derive(Debug)]
pub struct AssetEntry {
    pub id: String,
    pub metadata: Option<String>,
}

/// The assets of one run, built once from a scan of the asset root.
#[derive(Debug)]
pub struct Assets {
    /// Identities of the content files, each once.
    pub file_map: Vec<String>,
    /// Identities that have a sidecar, each once.
    pub meta_map: Vec<String>,
}

proof fn lemma_texts_push(v: Seq<String>, s: String)
    ensures
        texts(v.push(s)) == texts(v).push(s@),
{
    assert(texts(v.push(s)) =~= texts(v).push(s@));
}

/// Whether `v` holds a string with the text of `s`.
fn holds_text(v: &Vec<String>, s: &String) -> (r: bool)
    ensures
        r == texts(v@).contains(s@),
{
    let mut i: usize = 0;
    while i < v.len()
        invariant
            i <= v@.len(),
            forall|k: int| 0 <= k < i ==> v@[k]@ != s@,
        decreases v@.len() - i,
    {
        if v[i] == *s {
            assert(texts(v@)[i as int] == s@);
            return true;
        }
        i = i + 1;
    }
    assert(!texts(v@).contains(s@)) by {
        if texts(v@).contains(s@) {
            let k = choose|k: int| 0 <= k < texts(v@).len() && texts(v@)[k] == s@;
            assert(v@[k]@ == s@);
        }
    }
    false
}

/// Adds `s` to `v` unless a string with its text is there already.
fn insert_text(v: &mut Vec<String>, s: String)
    requires
        texts(old(v)@).no_duplicates(),
    ensures
        texts(final(v)@).no_duplicates(),
        forall|x: Seq<char>| #[trigger] texts(final(v)@).contains(x) <==> (texts(old(v)@).contains(x) || x == s@),
{
    if !holds_text(v, &s) {
        proof {
            lemma_texts_push(v@, s);
        }
        v.push(s);
        assert forall|x: Seq<char>| #[trigger] texts(v@).contains(x) <==> (texts(old(v)@).contains(x) || x == s@) by {
            if texts(v@).contains(x) {
                let k = choose|k: int| 0 <= k < texts(v@).len() && texts(v@)[k] == x;
                if k < texts(old(v)@).len() {
                    assert(texts(old(v)@)[k] == x);
                }
            }
            if texts(old(v)@).contains(x) {
                let k = choose|k: int| 0 <= k < texts(old(v)@).len() && texts(old(v)@)[k] == x;
                assert(texts(v@)[k] == x);
            }
            if x == s@ {
                assert(texts(v@)[texts(old(v)@).len() as int] == x);
            }
        }
    }
}

impl Assets {
    /// Builds the index from a flat scan: regular files are sorted into
    /// content files and sidecars, and sidecars are joined to assets by
    /// identity. Other entries are skipped.
    pub fn new(files: &Vec<ScannedFile>) -> (r: Assets)
        ensures
            texts(r.file_map@).no_duplicates(),
            texts(r.meta_map@).no_duplicates(),
            forall|x: Seq<char>| #[trigger] texts(r.file_map@).contains(x) <==> scanned_content(files@, x),
            forall|x: Seq<char>| #[trigger] texts(r.meta_map@).contains(x) <==> scanned_sidecar(files@, x),
    {
        let mut file_map: Vec<String> = Vec::new();
        let mut meta_map: Vec<String> = Vec::new();
        assert(texts(file_map@) =~= Seq::<Seq<char>>::empty());
        assert(texts(meta_map@) =~= Seq::<Seq<char>>::empty());
        let mut i: usize = 0;
        while i < files.len()
            invariant
                i <= files@.len(),
                texts(file_map@).no_duplicates(),
                texts(meta_map@).no_duplicates(),
                forall|x: Seq<char>| #[trigger] texts(file_map@).contains(x) <==> scanned_content(files@.take(i as int), x),
                forall|x: Seq<char>| #[trigger] texts(meta_map@).contains(x) <==> scanned_sidecar(files@.take(i as int), x),
            decreases files@.len() - i,
        {
            let ghost before = files@.take(i as int);
            let ghost after = files@.take(i + 1);
            assert(after =~= before.push(files@[i as int]));
            let f = &files[i];
            match Directory::classify(f) {
                EntryKind::Skip => {},
                EntryKind::Content => {
                    insert_text(&mut file_map, f.path.clone());
                },
                EntryKind::Sidecar { id } => {
                    insert_text(&mut meta_map, id);
                },
            }
            assert forall|x: Seq<char>| #[trigger] texts(file_map@).contains(x) <==> scanned_content(after, x) by {
                if scanned_content(after, x) {
                    let k = choose|k: int| 0 <= k < after.len() && (#[trigger] after[k]).is_file
                        && !is_sidecar_path(after[k].path@) && after[k].path@ == x;
                    if k < before.len() {
                        assert(before[k] == after[k]);
                        assert(scanned_content(before, x));
                    }
                }
                if scanned_content(before, x) {
                    let k = choose|k: int| 0 <= k < before.len() && (#[trigger] before[k]).is_file
                        && !is_sidecar_path(before[k].path@) && before[k].path@ == x;
                    assert(after[k] == before[k]);
                }
                if f.is_file && !is_sidecar_path(f.path@) && x == f.path@ {
                    assert(after[i as int] == *f);
                }
            }
            assert forall|x: Seq<char>| #[trigger] texts(meta_map@).contains(x) <==> scanned_sidecar(after, x) by {
                if scanned_sidecar(after, x) {
                    let k = choose|k: int| 0 <= k < after.len() && (#[trigger] after[k]).is_file
                        && is_sidecar_path(after[k].path@) && sidecar_owner(after[k].path@) == x;
                    if k < before.len() {
                        assert(before[k] == after[k]);
                        assert(scanned_sidecar(before, x));
                    }
                }
                if scanned_sidecar(before, x) {
                    let k = choose|k: int| 0 <= k < before.len() && (#[trigger] before[k]).is_file
                        && is_sidecar_path(before[k].path@) && sidecar_owner(before[k].path@) == x;
                    assert(after[k] == before[k]);
                }
                if f.is_file && is_sidecar_path(f.path@) && x == sidecar_owner(f.path@) {
                    assert(after[i as int] == *f);
                }
            }
            i = i + 1;
        }
        assert(files@.take(files@.len() as int) =~= files@);
        Assets { file_map, meta_map }
    }

    /// The content files that have no sidecar, in index order.
    pub fn missing_meta_files(&self) -> (r: Vec<String>)
        ensures
            texts(r@) == texts(self.file_map@).filter(lacks_sidecar(texts(self.meta_map@))),
            forall|x: Seq<char>| #[trigger] texts(r@).contains(x) <==> (texts(self.file_map@).contains(x)
                && !texts(self.meta_map@).contains(x)),
            texts(self.file_map@).no_duplicates() ==> texts(r@).no_duplicates(),
    {
        let ghost pred = lacks_sidecar(texts(self.meta_map@));
        let mut missing: Vec<String> = Vec::new();
        let mut i: usize = 0;
        assert(texts(missing@) =~= Seq::<Seq<char>>::empty());
        proof {
            reveal(Seq::filter);
            assert(texts(self.file_map@.take(0)) =~= Seq::<Seq<char>>::empty());
        }
        while i < self.file_map.len()
            invariant
                i <= self.file_map@.len(),
                pred == lacks_sidecar(texts(self.meta_map@)),
                texts(missing@) == texts(self.file_map@.take(i as int)).filter(pred),
                forall|x: Seq<char>| #[trigger] texts(missing@).contains(x) <==> (texts(self.file_map@.take(i as int)).contains(x)
                    && !texts(self.meta_map@).contains(x)),
                texts(self.file_map@).no_duplicates() ==> texts(missing@).no_duplicates(),
            decreases self.file_map@.len() - i,
        {
            let ghost before = texts(self.file_map@.take(i as int));
            let ghost after = texts(self.file_map@.take(i + 1));
            assert(after =~= before.push(self.file_map@[i as int]@));
            let id = &self.file_map[i];
            let ghost old_missing = texts(missing@);
            proof {
                reveal(Seq::filter);
                assert(after.drop_last() =~= before);
                assert(after.last() == id@);
            }
            if !holds_text(&self.meta_map, id) {
                proof {
                    lemma_texts_push(missing@, *id);
                }
                missing.push(id.clone());
                proof {
                    if texts(self.file_map@).no_duplicates() {
                        assert(!old_missing.contains(id@)) by {
                            if old_missing.contains(id@) {
                                assert(before.contains(id@));
                                let k = choose|k: int| 0 <= k < before.len() && before[k] == id@;
                                assert(texts(self.file_map@)[k] == texts(self.file_map@)[i as int]);
                            }
                        }
                        assert forall|p: int, q: int|
                            0 <= p < texts(missing@).len() && 0 <= q < texts(missing@).len() && p != q
                            implies texts(missing@)[p] != texts(missing@)[q] by {
                            if p == old_missing.len() {
                                assert(old_missing[q] == texts(missing@)[q]);
                            } else if q == old_missing.len() {
                                assert(old_missing[p] == texts(missing@)[p]);
                            } else {
                                assert(old_missing[p] == texts(missing@)[p]);
                                assert(old_missing[q] == texts(missing@)[q]);
                            }
                        }
                    }
                }
            }
            assert forall|x: Seq<char>| #[trigger] texts(missing@).contains(x) <==> (after.contains(x)
                && !texts(self.meta_map@).contains(x)) by {
                if after.contains(x) {
                    let k = choose|k: int| 0 <= k < after.len() && after[k] == x;
                    if k < before.len() {
                        assert(before[k] == x);
                    }
                }
                if before.contains(x) {
                    let k = choose|k: int| 0 <= k < before.len() && before[k] == x;
                    assert(after[k] == x);
                }
                if texts(missing@).contains(x) {
                    let k = choose|k: int| 0 <= k < texts(missing@).len() && texts(missing@)[k] == x;
                    if k < old_missing.len() {
                        assert(old_missing[k] == x);
                    }
                }
                if old_missing.contains(x) {
                    let k = choose|k: int| 0 <= k < old_missing.len() && old_missing[k] == x;
                    assert(texts(missing@)[k] == x);
                }
                if x == id@ && !texts(self.meta_map@).contains(x) {
                    assert(texts(missing@)[old_missing.len() as int] == x);
                    assert(after[i as int] == x);
                }
            }
            i = i + 1;
        }
        assert(self.file_map@.take(self.file_map@.len() as int) =~= self.file_map@);
        missing
    }

    /// The index's assets in order, each with its sidecar's path where the
    /// scan found one.
    pub fn entries(&self) -> (r: Vec<AssetEntry>)
        ensures
            r@.len() == self.file_map@.len(),
            forall|i: int| 0 <= i < r@.len() ==> (#[trigger] r@[i]).id@ == self.file_map@[i]@,
            forall|i: int| 0 <= i < r@.len() ==> ((#[trigger] r@[i]).metadata is Some
                <==> texts(self.meta_map@).contains(self.file_map@[i]@)),
            forall|i: int| 0 <= i < r@.len() ==> ((#[trigger] r@[i]).metadata matches Some(p)
                ==> p@ == self.file_map@[i]@ + sidecar_suffix()),
    {
        let mut entries: Vec<AssetEntry> = Vec::new();
        let mut i: usize = 0;
        while i < self.file_map.len()
            invariant
                i <= self.file_map@.len(),
                entries@.len() == i,
                forall|k: int| 0 <= k < i ==> (#[trigger] entries@[k]).id@ == self.file_map@[k]@,
                forall|k: int| 0 <= k < i ==> ((#[trigger] entries@[k]).metadata is Some
                    <==> texts(self.meta_map@).contains(self.file_map@[k]@)),
                forall|k: int| 0 <= k < i ==> ((#[trigger] entries@[k]).metadata matches Some(p)
                    ==> p@ == self.file_map@[k]@ + sidecar_suffix()),
            decreases self.file_map@.len() - i,
        {
            let id = &self.file_map[i];
            let metadata = if holds_text(&self.meta_map, id) {
                Some(MetaData::path_for_metadata_file(id.as_str()))
            } else {
                None
            };
            entries.push(AssetEntry { id: id.clone(), metadata });
            i = i + 1;
        }
        entries
    }
}

} // verus!
