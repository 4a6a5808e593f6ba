//! The upload handler.
//!
//! A request is an ordered batch of file parts — each a client-declared name
//! and its bytes — plus one destination sub-path.  The handler rejects a
//! request whose total size exceeds the configured limit before anything is
//! persisted, validates the sub-path and every file name, and only then writes
//! each file, in arrival order, to the literal concatenation of the files
//! directory, the sub-path and the file name.  Success is a `303 See Other`
//! back to `/`; every failure is an explicit error and leaves the store
//! untouched.

use vstd::prelude::*;
use crate::host::Redirect;
use crate::paths::{
    safe_file_name,
    safe_upload_path,
    upload_dest,
    upload_destination,
    validate_file_name,
    validate_upload_path,
};
use crate::store::FileStore;

verus! {

/// HTTP status of the redirect a successful upload answers with.
pub const SEE_OTHER: u16 = 303;

/// One `file` part of a multipart upload: the file name the client declared,
/// if any, and the uploaded bytes.
pub struct UploadPart {
    pub file_name: Option<String>,
    pub data: Vec<u8>,
}

/// Why an upload request was rejected.
#[derive(Clone, Copy, Debug, PartialEq, Eq, Structural)]
pub enum UploadError {
    /// The request body exceeds the configured total size limit.
    TooLarge,
    /// A file part declared no file name.
    MissingFileName,
    /// The destination sub-path or a file name would escape the files
    /// directory, or a file name is empty.
    UnsafePath,
}

/// The number of bytes an upload request carries, over all its parts.
pub open spec fn total_size(s: Seq<UploadPart>) -> nat
    decreases s.len(),
{
    if s.len() == 0 {
        0
    } else {
        total_size(s.drop_last()) + s.last().data@.len()
    }
}

/// A prefix of a batch never carries more bytes than the whole batch.
proof fn lemma_total_size_take(s: Seq<UploadPart>, j: int)
    requires
        0 <= j <= s.len(),
    ensures
        total_size(s.take(j)) <= total_size(s),
    decreases s.len(),
{
    if j == s.len() {
        assert(s.take(j) =~= s);
    } else {
        lemma_total_size_take(s.drop_last(), j);
        assert(s.drop_last().take(j) =~= s.take(j));
    }
}

/// Decide whether a batch exceeds the size limit, without ever persisting.
pub fn exceeds_limit(parts: &Vec<UploadPart>, limit: u64) -> (b: bool)
    ensures
        b == (total_size(parts@) > limit),
{
    let n = parts.len();
    let mut remaining: u64 = limit;
    let mut i: usize = 0;
    while i < n
        invariant
            n == parts@.len(),
            i <= n,
            remaining <= limit,
            total_size(parts@.take(i as int)) + remaining == limit,
        decreases n - i,
    {
        let len = parts[i].data.len();
        proof {
            assert(parts@.take(i + 1).drop_last() =~= parts@.take(i as int));
        }
        if (len as u128) > (remaining as u128) {
            proof {
                lemma_total_size_take(parts@, i + 1);
            }
            return true;
        }
        remaining = remaining - (len as u64);
        i += 1;
    }
    proof {
        assert(parts@.take(n as int) =~= parts@);
    }
    false
}

/// What is wrong with one file part, if anything.
pub open spec fn part_flaw(p: UploadPart) -> Option<UploadError> {
    if p.file_name is None {
        Some(UploadError::MissingFileName)
    } else if !safe_file_name(p.file_name->0@) {
        Some(UploadError::UnsafePath)
    } else {
        None
    }
}

/// The flaw of the first flawed part of a batch, in arrival order.
pub open spec fn first_part_flaw(s: Seq<UploadPart>) -> Option<UploadError>
    decreases s.len(),
{
    if s.len() == 0 {
        None
    } else if part_flaw(s[0]) is Some {
        part_flaw(s[0])
    } else {
        first_part_flaw(s.drop_first())
    }
}

/// Why a whole request is rejected: an unsafe sub-path first, otherwise the
/// first flawed part.
pub open spec fn request_flaw(upload_path: Seq<char>, s: Seq<UploadPart>) -> Option<UploadError> {
    if !safe_upload_path(upload_path) {
        Some(UploadError::UnsafePath)
    } else {
        first_part_flaw(s)
    }
}

/// When every part before `i` is flawless, the first flaw of the batch is the
/// flaw of part `i` — or nothing, when `i` is the whole batch.
proof fn lemma_first_flaw_at(s: Seq<UploadPart>, i: int)
    requires
        0 <= i <= s.len(),
        forall|j: int| 0 <= j < i ==> part_flaw(s[j]) is None,
    ensures
        i < s.len() && part_flaw(s[i]) is Some ==> first_part_flaw(s) == part_flaw(s[i]),
        i == s.len() ==> first_part_flaw(s) is None,
    decreases i,
{
    if i > 0 {
        assert(part_flaw(s[0]) is None);
        lemma_first_flaw_at(s.drop_first(), i - 1);
    }
}

/// The destination of one part, once it is known to carry a name.
pub open spec fn part_dest(upload_path: Seq<char>, p: UploadPart) -> Seq<char>
    recommends
        p.file_name is Some,
{
    upload_dest(upload_path, p.file_name->0@)
}

/// The map a directory holds after a batch is persisted into it, in arrival
/// order: each part inserts its bytes at its destination, so of two parts
/// with the same destination the later one wins.
pub open spec fn apply_parts(
    m: Map<Seq<char>, Seq<u8>>,
    upload_path: Seq<char>,
    s: Seq<UploadPart>,
) -> Map<Seq<char>, Seq<u8>>
    decreases s.len(),
{
    if s.len() == 0 {
        m
    } else {
        apply_parts(m, upload_path, s.drop_last()).insert(
            part_dest(upload_path, s.last()),
            s.last().data@,
        )
    }
}

/// Handle one upload request against a directory.
///
/// An oversized request is rejected before anything is persisted; so is a
/// request with an unsafe sub-path, a missing or unsafe file name.  A
/// flawless request within the limit persists every part, in arrival order,
/// and answers with `303 See Other` to `/`.
pub fn handle_upload(
    store: &mut FileStore,
    upload_path: &str,
    parts: Vec<UploadPart>,
    total_limit: u64,
) -> (r: Result<Redirect, UploadError>)
    ensures
        total_size(parts@) > total_limit ==> r == Err::<Redirect, UploadError>(
            UploadError::TooLarge,
        ) && final(store)@ == old(store)@,
        total_size(parts@) <= total_limit && request_flaw(upload_path@, parts@) is Some ==> r
            == Err::<Redirect, UploadError>(request_flaw(upload_path@, parts@)->0)
            && final(store)@ == old(store)@,
        total_size(parts@) <= total_limit && request_flaw(upload_path@, parts@) is None ==> (
        r matches Ok(rd) && rd.status == SEE_OTHER && rd.location@ == "/"@) && final(store)@
            == apply_parts(old(store)@, upload_path@, parts@),
{
    if exceeds_limit(&parts, total_limit) {
        return Err(UploadError::TooLarge);
    }
    if !validate_upload_path(upload_path) {
        return Err(UploadError::UnsafePath);
    }
    let n = parts.len();
    let mut dests: Vec<String> = Vec::new();
    let mut i: usize = 0;
    while i < n
        invariant
            n == parts@.len(),
            i <= n,
            total_size(parts@) <= total_limit,
            safe_upload_path(upload_path@),
            dests@.len() == i,
            forall|j: int| 0 <= j < i ==> part_flaw(parts@[j]) is None,
            forall|j: int| 0 <= j < i ==> dests@[j]@ == part_dest(upload_path@, parts@[j]),
        decreases n - i,
    {
        match &parts[i].file_name {
            None => {
                proof {
                    lemma_first_flaw_at(parts@, i as int);
                }
                return Err(UploadError::MissingFileName);
            },
            Some(name) => {
                if !validate_file_name(name.as_str()) {
                    proof {
                        lemma_first_flaw_at(parts@, i as int);
                    }
                    return Err(UploadError::UnsafePath);
                }
                dests.push(upload_destination(upload_path, name.as_str()));
            },
        }
        i += 1;
    }
    proof {
        lemma_first_flaw_at(parts@, n as int);
    }
    let ghost all = parts@;
    let ghost base = store@;
    let mut rest = parts;
    let mut k: usize = 0;
    while k < n
        invariant
            n == all.len(),
            k <= n,
            base == old(store)@,
            rest@ == all.skip(k as int),
            dests@.len() == n,
            forall|j: int| 0 <= j < n ==> part_flaw(all[j]) is None,
            forall|j: int| 0 <= j < n ==> dests@[j]@ == part_dest(upload_path@, all[j]),
            store@ == apply_parts(base, upload_path@, all.take(k as int)),
        decreases n - k,
    {
        let part = rest.remove(0);
        let dest = dests[k].clone();
        proof {
            assert(part == all[k as int]);
            assert(all.take(k + 1).drop_last() =~= all.take(k as int));
            assert(all.take(k + 1).last() == all[k as int]);
        }
        store.write_file(dest, part.data);
        proof {
            assert(rest@ =~= all.skip(k + 1));
        }
        k += 1;
    }
    proof {
        assert(all.take(n as int) =~= all);
    }
    Ok(Redirect { status: SEE_OTHER, location: "/".to_owned() })
}

/// A file whose destination nothing later in the batch reuses ends up stored
/// at that destination with exactly its bytes — whatever the directory held
/// there before: a collision with an existing file overwrites it, later
/// writes win, and the collision itself is no error.
pub proof fn lemma_upload_stores_last(
    m: Map<Seq<char>, Seq<u8>>,
    upload_path: Seq<char>,
    s: Seq<UploadPart>,
    k: int,
)
    requires
        forall|j: int| 0 <= j < s.len() ==> part_flaw(s[j]) is None,
        0 <= k < s.len(),
        forall|j: int| k < j < s.len() ==> part_dest(upload_path, s[j]) != part_dest(
            upload_path,
            s[k],
        ),
    ensures
        apply_parts(m, upload_path, s).contains_key(part_dest(upload_path, s[k])),
        apply_parts(m, upload_path, s)[part_dest(upload_path, s[k])] == s[k].data@,
    decreases s.len(),
{
    if k < s.len() - 1 {
        lemma_upload_stores_last(m, upload_path, s.drop_last(), k);
    }
}

/// After a flawless upload of a batch whose destinations are pairwise
/// distinct, every file of the batch is stored at its own destination with
/// byte-identical content.
pub proof fn lemma_upload_stores_all(
    m: Map<Seq<char>, Seq<u8>>,
    upload_path: Seq<char>,
    s: Seq<UploadPart>,
)
    requires
        forall|j: int| 0 <= j < s.len() ==> part_flaw(s[j]) is None,
        forall|j: int, k: int|
            0 <= j < s.len() && 0 <= k < s.len() && j != k ==> part_dest(upload_path, s[j])
                != part_dest(upload_path, s[k]),
    ensures
        forall|k: int|
            0 <= k < s.len() ==> apply_parts(m, upload_path, s).contains_key(
                #[trigger] part_dest(upload_path, s[k]),
            ) && apply_parts(m, upload_path, s)[part_dest(upload_path, s[k])] == s[k].data@,
{
    assert forall|k: int|
        0 <= k < s.len() implies apply_parts(m, upload_path, s).contains_key(
        #[trigger] part_dest(upload_path, s[k]),
    ) && apply_parts(m, upload_path, s)[part_dest(upload_path, s[k])] == s[k].data@ by {
        lemma_upload_stores_last(m, upload_path, s, k);
    }
}

} // verus!
