//! Where an asset is stored: the asset root joined with the content hash.

use vstd::prelude::*;

verus! {

/// The directory, relative to the working directory, that holds every asset.
pub open spec fn asset_root() -> Seq<char> {
    "content/"@
}

/// A hash may name an asset only as one path segment inside the asset root: it is
/// not empty, holds no path separator and no `..`.
pub open spec fn is_safe_segment(h: Seq<char>) -> bool {
    &&& h.len() > 0
    &&& forall|i: int| 0 <= i < h.len() ==> h[i] != '/' && h[i] != '\\'
    &&& !exists|i: int| 0 <= i < h.len() - 1 && #[trigger] h[i] == '.' && h[i + 1] == '.'
}

/// Checks that `hash` is a single safe path segment.
pub fn is_safe_hash(hash: &String) -> (r: bool)
    ensures
        r == is_safe_segment(hash@),
{
    let s = hash.as_str();
    let n = s.unicode_len();
    if n == 0 {
        return false;
    }
    let mut i: usize = 0;
    let mut prev_dot = false;
    while i < n
        invariant
            n == hash@.len(),
            s@ == hash@,
            i <= n,
            prev_dot == (i > 0 && hash@[i - 1] == '.'),
            forall|j: int| 0 <= j < i ==> hash@[j] != '/' && hash@[j] != '\\',
            !exists|j: int| 0 <= j < i as int - 1 && #[trigger] hash@[j] == '.' && hash@[j + 1] == '.',
        decreases n - i,
    {
        let c = s.get_char(i);
        if c == '/' || c == '\\' {
            return false;
        }
        if c == '.' && prev_dot {
            assert(hash@[i - 1] == '.' && hash@[(i - 1) + 1] == '.');
            return false;
        }
        prev_dot = c == '.';
        i = i + 1;
    }
    true
}

/// The path of the asset stored under `hash`, or `None` where the hash could
/// leave the asset root.
pub fn asset_path(hash: &String) -> (r: Option<String>)
    ensures
        is_safe_segment(hash@) <==> r is Some,
        r matches Some(p) ==> p@ == asset_root() + hash@,
{
    if is_safe_hash(hash) {
        let mut p = String::from_str("content/");
        p.append(hash.as_str());
        Some(p)
    } else {
        None
    }
}

} // verus!
