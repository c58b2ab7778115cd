//! The path of a request, as it is held against the secret.

use vstd::prelude::*;
use vstd::utf8::{encode_utf8, encode_utf8_decode_utf8};

verus! {

/// The path without its leading slash: one `/` at the front is dropped, and
/// nothing else is touched. A second slash, a slash at the end and the
/// segments in between stay as they are.
pub open spec fn bare_path(path: Seq<char>) -> Seq<char> {
    if path.len() > 0 && path[0] == '/' {
        path.drop_first()
    } else {
        path
    }
}

/// Drops one leading `/` from `path`, if it has one.
pub fn strip_leading_slash(path: &str) -> (bare: &str)
    ensures
        bare@ == bare_path(path@),
{
    if !path.is_empty() && path.get_char(0) == '/' {
        path.substring_char(1, path.unicode_len())
    } else {
        path
    }
}

/// Two strings hold the same characters exactly when their UTF-8 bytes agree.
pub proof fn lemma_same_bytes_same_text(left: Seq<char>, right: Seq<char>)
    ensures
        (encode_utf8(left) == encode_utf8(right)) <==> (left == right),
{
    encode_utf8_decode_utf8(left);
    encode_utf8_decode_utf8(right);
}

/// Tells whether two strings are the same, byte for byte.
pub fn same_text(left: &str, right: &str) -> (same: bool)
    ensures
        same == (left@ == right@),
{
    let a = left.as_bytes();
    let b = right.as_bytes();
    proof {
        lemma_same_bytes_same_text(left@, right@);
    }
    if a.len() != b.len() {
        return false;
    }
    let mut i: usize = 0;
    while i < a.len()
        invariant
            i <= a.len(),
            a.len() == b.len(),
            (a@ == b@) <==> (left@ == right@),
            forall|k: int| 0 <= k < i ==> a@[k] == b@[k],
        decreases a.len() - i,
    {
        if a[i] != b[i] {
            return false;
        }
        i += 1;
    }
    assert(a@ =~= b@);
    true
}

} // verus!
