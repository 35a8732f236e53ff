//! String and path-name logic: deriving the file extension from a URL,
//! building the dated file name, and joining directory and file names.

use vstd::prelude::*;
use vstd::string::StrSliceExecFns;
use vstd::string::StringExecFns;
use vstd::string::StringSliceAdditionalSpecFns;
use crate::error::ApodError;

verus! {

/// The extension of the final path segment of `s`: the characters after the
/// last `.` of the segment after the last `/`, or `None` when that segment
/// holds no `.`.
pub open spec fn extension_of(s: Seq<char>) -> Option<Seq<char>>
    decreases s.len(),
{
    if s.len() == 0 {
        None
    } else if s.last() == '.' {
        Some(Seq::empty())
    } else if s.last() == '/' {
        None
    } else {
        match extension_of(s.drop_last()) {
            Some(e) => Some(e.push(s.last())),
            None => None,
        }
    }
}

/// When position `k` holds a `.` and nothing after it is a `.` or `/`, the
/// extension is exactly the characters after `k`.
proof fn lemma_extension_after_dot(s: Seq<char>, k: int)
    requires
        0 <= k < s.len(),
        s[k] == '.',
        forall|j: int| k < j < s.len() ==> s[j] != '.' && s[j] != '/',
    ensures
        extension_of(s) == Some(s.subrange(k + 1, s.len() as int)),
    decreases s.len(),
{
    if k == s.len() - 1 {
        assert(s.last() == '.');
        assert(s.subrange(k + 1, s.len() as int) =~= Seq::<char>::empty());
    } else {
        assert(s.last() != '.' && s.last() != '/');
        lemma_extension_after_dot(s.drop_last(), k);
        let e = s.drop_last().subrange(k + 1, s.len() - 1);
        assert(extension_of(s) == Some(e.push(s.last())));
        assert(e.push(s.last()) =~= s.subrange(k + 1, s.len() as int));
    }
}

/// When position `k` holds a `/` and nothing after it is a `.` or `/`, the
/// final segment holds no `.` and there is no extension.
proof fn lemma_extension_after_slash(s: Seq<char>, k: int)
    requires
        0 <= k < s.len(),
        s[k] == '/',
        forall|j: int| k < j < s.len() ==> s[j] != '.' && s[j] != '/',
    ensures
        extension_of(s) is None,
    decreases s.len(),
{
    if k < s.len() - 1 {
        lemma_extension_after_slash(s.drop_last(), k);
    }
}

/// A string without any `.` or `/` has no extension.
proof fn lemma_extension_plain(s: Seq<char>)
    requires
        forall|j: int| 0 <= j < s.len() ==> s[j] != '.' && s[j] != '/',
    ensures
        extension_of(s) is None,
    decreases s.len(),
{
    if s.len() > 0 {
        lemma_extension_plain(s.drop_last());
    }
}

/// Derives the file extension of a URL: the part of its final path segment
/// after the last `.`. Fails with `ExtensionError` when that segment has no
/// `.`, which is exactly when `extension_of` gives `None`.
pub fn get_file_extension(url: &str) -> (r: Result<&str, ApodError>)
    ensures
        match r {
            Ok(e) => extension_of(url@) == Some(e@),
            Err(err) => err == ApodError::ExtensionError && extension_of(url@) is None,
        },
{
    let n = url.unicode_len();
    let mut i: usize = n;
    while i > 0
        invariant
            0 <= i <= n,
            n == url@.len(),
            forall|j: int| i <= j < n ==> url@[j] != '.' && url@[j] != '/',
        decreases i,
    {
        let c = url.get_char(i - 1);
        if c == '.' {
            proof {
                lemma_extension_after_dot(url@, i - 1);
            }
            return Ok(url.substring_char(i, n));
        }
        if c == '/' {
            proof {
                lemma_extension_after_slash(url@, i - 1);
            }
            return Err(ApodError::ExtensionError);
        }
        i = i - 1;
    }
    proof {
        lemma_extension_plain(url@);
    }
    Err(ApodError::ExtensionError)
}

/// The dated file name under which the day's image is stored: `{date}.{ext}`.
pub fn image_file_name(date: &str, ext: &str) -> (r: String)
    ensures
        r@ == date@ + "."@ + ext@,
{
    let mut s = String::from_str(date);
    s.append(".");
    s.append(ext);
    s
}

/// Joins a directory and a file name with a single `/`.
pub fn join_path(dir: &str, name: &str) -> (r: String)
    ensures
        r@ == dir@ + "/"@ + name@,
{
    let mut s = String::from_str(dir);
    s.append("/");
    s.append(name);
    s
}

/// Joins a directory and a raw file name, as bytes, with a single `/`.
/// Directory entries are handled as raw bytes, so the joined paths are too.
pub fn join_path_bytes(dir: &str, name: &Vec<u8>) -> (r: Vec<u8>)
    ensures
        r@ == dir.spec_bytes() + seq![47u8] + name@,
{
    let mut v = dir.as_bytes_vec();
    v.push(47u8);
    let mut k: usize = 0;
    while k < name.len()
        invariant
            0 <= k <= name@.len(),
            v@ == dir.spec_bytes() + seq![47u8] + name@.take(k as int),
        decreases name@.len() - k,
    {
        v.push(name[k]);
        proof {
            assert(name@.take(k + 1) =~= name@.take(k as int).push(name@[k as int]));
            assert(v@ =~= dir.spec_bytes() + seq![47u8] + name@.take(k + 1));
        }
        k = k + 1;
    }
    proof {
        assert(name@.take(name@.len() as int) =~= name@);
    }
    v
}

/// Character-wise string equality, decided against the views.
pub fn str_eq(a: &str, b: &str) -> (r: bool)
    ensures
        r == (a@ == b@),
{
    let na = a.unicode_len();
    let nb = b.unicode_len();
    if na != nb {
        return false;
    }
    let mut i: usize = 0;
    while i < na
        invariant
            0 <= i <= na,
            na == a@.len(),
            na == b@.len(),
            forall|j: int| 0 <= j < i ==> a@[j] == b@[j],
        decreases na - i,
    {
        if a.get_char(i) != b.get_char(i) {
            return false;
        }
        i = i + 1;
    }
    proof {
        assert(a@ =~= b@);
    }
    true
}

} // verus!
