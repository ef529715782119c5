//! JSON text: string literals come from serde_json, the framing is built here.

use vstd::prelude::*;

verus! {

/// The JSON string literal that serde_json writes for `s`: quotes and escapes included.
pub uninterp spec fn json_quoted(s: Seq<char>) -> Seq<char>;

/// Relies on `serde_json::to_string` applied to a string slice, which writes the
/// JSON string literal for it. Serialising a `str` into memory cannot fail, so the
/// fallback of `unwrap_or_default` is never taken.
#[verifier::external_body]
pub(crate) fn quote(s: &str) -> (r: String)
    ensures
        r@ == json_quoted(s@),
{
    serde_json::to_string(s).unwrap_or_default()
}

/// The views of a sequence of strings.
pub open spec fn views(items: Seq<String>) -> Seq<Seq<char>> {
    items.map_values(|s: String| s@)
}

/// The items separated by commas.
pub open spec fn joined(items: Seq<Seq<char>>) -> Seq<char>
    decreases items.len(),
{
    if items.len() == 0 {
        Seq::empty()
    } else if items.len() == 1 {
        items[0]
    } else {
        joined(items.drop_last()) + ","@ + items.last()
    }
}

/// A JSON array whose elements are the given JSON texts, in order.
pub open spec fn array_json(items: Seq<Seq<char>>) -> Seq<char> {
    "["@ + joined(items) + "]"@
}

/// Writes the JSON texts in `items` as the elements of one JSON array.
pub fn json_array(items: &Vec<String>) -> (r: String)
    ensures
        r@ == array_json(views(items@)),
{
    let mut r = String::from_str("[");
    let n = items.len();
    let mut i: usize = 0;
    while i < n
        invariant
            n == items@.len(),
            i <= n,
            r@ == "["@ + joined(views(items@).take(i as int)),
        decreases n - i,
    {
        proof {
            let all = views(items@);
            assert(all.take(i as int + 1).drop_last() =~= all.take(i as int));
        }
        if i > 0 {
            r.append(",");
        }
        r.append(items[i].as_str());
        i = i + 1;
    }
    assert(views(items@).take(n as int) =~= views(items@));
    r.append("]");
    r
}

} // verus!
