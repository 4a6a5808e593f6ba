//! Destination paths for uploads and static files.
//!
//! The original service built the destination of an upload by literal
//! concatenation of `./files/`, the client-supplied sub-path and the
//! client-declared file name, which permits escaping the files directory.
//! Here both client-supplied pieces are checked first: a sub-path may not be
//! absolute and may not contain a `..` segment, and a file name may not be
//! empty, contain `/`, or be `..`.  The paths themselves are still the same
//! literal concatenation.

use vstd::prelude::*;
use vstd::string::StrSliceExecFns;
use vstd::string::StringExecFns;

verus! {

/// The directory uploads are persisted under, also served at `/files`.
pub fn files_dir() -> (s: &'static str)
    ensures
        s@ == "./files"@,
{
    "./files"
}

/// The characters of `s`, as an indexable vector.
fn chars_of(s: &str) -> (v: Vec<char>)
    ensures
        v@ == s@,
{
    let n = s.unicode_len();
    let mut v: Vec<char> = Vec::new();
    let mut i: usize = 0;
    while i < n
        invariant
            n == s@.len(),
            i <= n,
            v@ == s@.take(i as int),
        decreases n - i,
    {
        v.push(s.get_char(i));
        proof {
            assert(v@ =~= s@.take(i + 1));
        }
        i += 1;
    }
    proof {
        assert(v@ =~= s@);
    }
    v
}

/// A `..` path segment stands at position `i` of `s`: two dots delimited on
/// each side by a slash or by the end of the string.
pub open spec fn dotdot_at(s: Seq<char>, i: int) -> bool {
    &&& 0 <= i
    &&& i + 2 <= s.len()
    &&& s[i] == '.'
    &&& s[i + 1] == '.'
    &&& (i == 0 || s[i - 1] == '/')
    &&& (i + 2 == s.len() || s[i + 2] == '/')
}

/// `s` contains a `..` path segment somewhere.
pub open spec fn has_dotdot_segment(s: Seq<char>) -> bool {
    exists|i: int| dotdot_at(s, i)
}

/// A client-supplied destination sub-path is safe to append under the files
/// directory: not absolute, and free of `..` segments.  The empty sub-path is
/// allowed and means the files directory itself.
pub open spec fn safe_upload_path(s: Seq<char>) -> bool {
    &&& (s.len() > 0 ==> s[0] != '/')
    &&& !has_dotdot_segment(s)
}

/// A client-declared file name is safe to use as the final path component:
/// non-empty, without `/`, and not the `..` segment.
pub open spec fn safe_file_name(s: Seq<char>) -> bool {
    &&& s.len() > 0
    &&& (forall|i: int| 0 <= i < s.len() ==> s[i] != '/')
    &&& s != seq!['.', '.']
}

/// Check a destination sub-path against [`safe_upload_path`].
pub fn validate_upload_path(p: &str) -> (b: bool)
    ensures
        b == safe_upload_path(p@),
{
    let v = chars_of(p);
    if v.len() > 0 && v[0] == '/' {
        return false;
    }
    let n = v.len();
    let mut i: usize = 0;
    while i < n
        invariant
            n == v@.len(),
            v@ == p@,
            i <= n,
            forall|j: int| 0 <= j < i ==> !dotdot_at(p@, j),
        decreases n - i,
    {
        if i + 1 < n && v[i] == '.' && v[i + 1] == '.' && (i == 0 || v[i - 1] == '/') && (i + 2 == n
            || v[i + 2] == '/') {
            proof {
                assert(dotdot_at(p@, i as int));
            }
            return false;
        }
        proof {
            assert(!dotdot_at(p@, i as int));
        }
        i += 1;
    }
    proof {
        assert(forall|j: int| dotdot_at(p@, j) ==> 0 <= j < n);
    }
    true
}

/// Check a file name against [`safe_file_name`].
pub fn validate_file_name(name: &str) -> (b: bool)
    ensures
        b == safe_file_name(name@),
{
    let v = chars_of(name);
    let n = v.len();
    if n == 0 {
        return false;
    }
    if n == 2 && v[0] == '.' && v[1] == '.' {
        proof {
            assert(name@ =~= seq!['.', '.']);
        }
        return false;
    }
    proof {
        assert(name@ != seq!['.', '.']) by {
            if name@ =~= seq!['.', '.'] {
                assert(n == 2 && v@[0] == '.' && v@[1] == '.');
            }
        }
    }
    let mut i: usize = 0;
    while i < n
        invariant
            n == v@.len(),
            v@ == name@,
            i <= n,
            forall|j: int| 0 <= j < i ==> name@[j] != '/',
        decreases n - i,
    {
        if v[i] == '/' {
            return false;
        }
        i += 1;
    }
    true
}

/// Where an uploaded file lands: the files directory, then the sub-path, then
/// the file name, concatenated literally.
pub open spec fn upload_dest(upload_path: Seq<char>, name: Seq<char>) -> Seq<char> {
    "./files/"@ + upload_path + name
}

/// Build the destination path of one uploaded file.
pub fn upload_destination(upload_path: &str, name: &str) -> (p: String)
    ensures
        p@ == upload_dest(upload_path@, name@),
{
    let mut p: String = "./files/".to_owned();
    p.append(upload_path);
    p.append(name);
    p
}

/// The fixed path the favicon is served from, under the site root.
pub fn favicon_path(site_root: &str) -> (p: String)
    ensures
        p@ == site_root@ + "/favicon.ico"@,
{
    let mut p: String = site_root.to_owned();
    p.append("/favicon.ico");
    p
}

/// The directory JS/WASM/CSS bundles are served from, under the site root.
pub fn pkg_dir(site_root: &str) -> (p: String)
    ensures
        p@ == site_root@ + "/pkg"@,
{
    let mut p: String = site_root.to_owned();
    p.append("/pkg");
    p
}

} // verus!
