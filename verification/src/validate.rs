use vstd::prelude::*;
use vstd::string::*;

use crate::error::Ros2wsError;

verus! {

/// A path string names an absolute location exactly when it starts with the
/// root separator `/`; the empty string, `.`- and `..`-relative paths and
/// bare names all fail this.
pub open spec fn is_abs_path(s: Seq<char>) -> bool {
    s.len() > 0 && s[0] == '/'
}

/// Checks the path-absoluteness rule that every mutation, read and write
/// operation applies to the paths it is given.
pub fn ensure_abs_path(path: &str) -> (r: Result<(), Ros2wsError>)
    ensures
        r is Ok <==> is_abs_path(path@),
        !is_abs_path(path@) ==> (r matches Err(e) && e matches Ros2wsError::NotAbsolutePath(p)
            && p@ == path@),
{
    if path.unicode_len() > 0 && path.get_char(0) == '/' {
        Ok(())
    } else {
        Err(Ros2wsError::NotAbsolutePath(String::from_str(path)))
    }
}

/// Character-for-character equality of two strings.
pub fn str_eq(a: &str, b: &str) -> (r: bool)
    ensures
        r == (a@ == b@),
{
    let a_len = a.unicode_len();
    let b_len = b.unicode_len();
    if a_len != b_len {
        return false;
    }
    let mut i: usize = 0;
    while i < a_len
        invariant
            a_len == a@.len(),
            b_len == b@.len(),
            a_len == b_len,
            i <= a_len,
            forall|j: int| 0 <= j < i ==> a@[j] == b@[j],
        decreases a_len - i,
    {
        if a.get_char(i) != b.get_char(i) {
            return false;
        }
        i += 1;
    }
    proof {
        assert(a@ =~= b@);
    }
    true
}

} // verus!
