//! Paths under the installation root, built as text.
use vstd::prelude::*;

verus! {

/// Whether `c` separates path components.
pub open spec fn is_separator(c: char) -> bool {
    c == '/' || c == '\\'
}

/// `leaf` appended to `base` as a new component: a separator goes between
/// them unless `base` is empty or already ends with one.
pub open spec fn join_path(base: Seq<char>, leaf: Seq<char>) -> Seq<char> {
    if base.len() == 0 {
        leaf
    } else if is_separator(base.last()) {
        base + leaf
    } else {
        base + seq!['/'] + leaf
    }
}

/// Appends `leaf` to `base` as a new path component.
pub fn join(base: &str, leaf: &str) -> (r: String)
    ensures
        r@ == join_path(base@, leaf@),
{
    let n = base.unicode_len();
    let mut out = String::from_str(base);
    if n > 0 {
        let last = base.get_char(n - 1);
        if !(last == '/' || last == '\\') {
            proof {
                reveal_strlit("/");
            }
            out.append("/");
        }
    }
    out.append(leaf);
    proof {
        if n > 0 {
            assert(base@.last() == base@[n - 1]);
        } else {
            assert(base@ + leaf@ =~= leaf@);
        }
    }
    out
}

} // verus!
