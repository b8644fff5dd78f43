//! String helpers, and the address of an account picture.
use vstd::prelude::*;
use vstd::string::{StrSliceExecFns, StringExecFns};
use crate::config::{DEFAULT_FILE_URL, FILE_URL};

verus! {

/// Relies on `String::push`: `c` is appended to `s`.
#[verifier::external_body]
pub(crate) fn push_char(s: &mut String, c: char)
    ensures
        final(s)@ == old(s)@.push(c),
{
    s.push(c)
}

/// Whether `s` begins with `prefix`.
pub open spec fn has_prefix(s: Seq<char>, prefix: Seq<char>) -> bool {
    prefix.len() <= s.len() && s.subrange(0, prefix.len() as int) == prefix
}

/// Whether `s` begins with `prefix`.
pub fn starts_with(s: &str, prefix: &str) -> (r: bool)
    ensures
        r == has_prefix(s@, prefix@),
{
    let n = prefix.unicode_len();
    if n > s.unicode_len() {
        return false;
    }
    let mut i: usize = 0;
    while i < n
        invariant
            n == prefix@.len(),
            n <= s@.len(),
            0 <= i <= n,
            forall|j: int| 0 <= j < i ==> s@[j] == prefix@[j],
        decreases n - i,
    {
        if s.get_char(i) != prefix.get_char(i) {
            assert(s@.subrange(0, n as int)[i as int] != prefix@[i as int]);
            return false;
        }
        i = i + 1;
    }
    assert(s@.subrange(0, n as int) =~= prefix@);
    true
}

/// The address of an account's picture stored at `path`: the default picture
/// for an empty path, the path itself when it is already an `http://` or
/// `https://` address, and otherwise the path under the file server.
pub open spec fn photo_url(path: Seq<char>) -> Seq<char> {
    if path.len() == 0 {
        DEFAULT_FILE_URL@
    } else if has_prefix(path, "http://"@) || has_prefix(path, "https://"@) {
        path
    } else {
        FILE_URL@ + path
    }
}

/// The address of an account's picture stored at `photo_path`.
pub fn get_photo_or_default(photo_path: &str) -> (r: String)
    ensures
        r@ == photo_url(photo_path@),
{
    if photo_path.unicode_len() > 0 {
        if starts_with(photo_path, "http://") || starts_with(photo_path, "https://") {
            return String::from_str(photo_path);
        }
        let mut file_url = String::from_str(FILE_URL);
        file_url.append(photo_path);
        return file_url;
    }
    String::from_str(DEFAULT_FILE_URL)
}

} // verus!
