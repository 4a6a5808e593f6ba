//! A model of the files directory.
//!
//! The service keeps no record of what it has written: the filesystem is the
//! only state.  To state what an upload leaves behind, this module models a
//! directory as the map from path to content that a sequence of writes
//! produces, a later write to the same path replacing the earlier one.
//! [`FileStore::write_file`] is the persist step of the upload handler and
//! [`FileStore::read_file`] the lookup the static file services perform; both
//! are specified against that map.

use vstd::prelude::*;

verus! {

/// One write that has been performed: a destination path and the bytes.
pub struct StoredFile {
    pub path: String,
    pub data: Vec<u8>,
}

/// The files directory, modelled as the sequence of writes applied to it.
pub struct FileStore {
    entries: Vec<StoredFile>,
}

/// The map from path to content that a sequence of writes leaves behind:
/// each write inserts its entry, so the last write to a path wins.
pub open spec fn entries_map(s: Seq<StoredFile>) -> Map<Seq<char>, Seq<u8>>
    decreases s.len(),
{
    if s.len() == 0 {
        Map::empty()
    } else {
        entries_map(s.drop_last()).insert(s.last().path@, s.last().data@)
    }
}

/// A path absent from every entry is absent from the map.
proof fn lemma_no_match_absent(s: Seq<StoredFile>, p: Seq<char>)
    requires
        forall|j: int| 0 <= j < s.len() ==> s[j].path@ != p,
    ensures
        !entries_map(s).contains_key(p),
    decreases s.len(),
{
    if s.len() > 0 {
        lemma_no_match_absent(s.drop_last(), p);
    }
}

/// The map holds, at a path, the content of the last entry written to it.
proof fn lemma_last_match(s: Seq<StoredFile>, p: Seq<char>, i: int)
    requires
        0 <= i < s.len(),
        s[i].path@ == p,
        forall|j: int| i < j < s.len() ==> s[j].path@ != p,
    ensures
        entries_map(s).contains_key(p),
        entries_map(s)[p] == s[i].data@,
    decreases s.len(),
{
    if i < s.len() - 1 {
        lemma_last_match(s.drop_last(), p, i);
    }
}

impl View for FileStore {
    type V = Map<Seq<char>, Seq<u8>>;

    closed spec fn view(&self) -> Map<Seq<char>, Seq<u8>> {
        entries_map(self.entries@)
    }
}

impl FileStore {
    /// An empty directory: no paths, no content.
    pub fn new() -> (s: FileStore)
        ensures
            s@ == Map::<Seq<char>, Seq<u8>>::empty(),
    {
        FileStore { entries: Vec::new() }
    }

    /// Persist one file: afterwards the path holds exactly these bytes.
    /// Writing to a path that already exists replaces its content and is not
    /// an error.
    pub fn write_file(&mut self, path: String, data: Vec<u8>)
        ensures
            final(self)@ == old(self)@.insert(path@, data@),
    {
        let ghost before = self.entries@;
        let ghost p = path@;
        let ghost d = data@;
        self.entries.push(StoredFile { path, data });
        proof {
            assert(self.entries@.drop_last() =~= before);
        }
    }

    /// Look a path up: the bytes the last write to it stored, or `None` if
    /// nothing was ever written there.  Serving a static file is this lookup;
    /// a `None` is the 404 case, and reading writes nothing.
    pub fn read_file(&self, path: &str) -> (r: Option<&Vec<u8>>)
        ensures
            match r {
                Some(d) => self@.contains_key(path@) && d@ == self@[path@],
                None => !self@.contains_key(path@),
            },
    {
        let target: String = path.to_owned();
        let n = self.entries.len();
        let mut i: usize = n;
        while i > 0
            invariant
                n == self.entries@.len(),
                i <= n,
                target@ == path@,
                forall|j: int| i <= j < n ==> self.entries@[j].path@ != path@,
            decreases i,
        {
            i = i - 1;
            let entry = &self.entries[i];
            if entry.path == target {
                proof {
                    lemma_last_match(self.entries@, path@, i as int);
                }
                return Some(&entry.data);
            }
        }
        proof {
            lemma_no_match_absent(self.entries@, path@);
        }
        None
    }
}

} // verus!
