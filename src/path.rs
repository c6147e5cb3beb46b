//! Joining a relative component onto a path, by a platform's separator rules.
use vstd::prelude::*;

use crate::platform::Platform;

verus! {

/// Whether `c` separates path components on platform `p`: `/` everywhere,
/// and `\` on Windows too.
pub open spec fn is_separator(c: char, p: Platform) -> bool {
    c == '/' || (p == Platform::Windows && c == '\\')
}

/// The separator that a join inserts on platform `p`.
pub open spec fn separator(p: Platform) -> char {
    if p == Platform::Windows {
        '\\'
    } else {
        '/'
    }
}

/// `base` joined with the relative component `part`: a separator goes between
/// the two unless `base` is empty or already ends in one.
pub open spec fn path_join(base: Seq<char>, part: Seq<char>, p: Platform) -> Seq<char> {
    if base.len() == 0 || is_separator(base.last(), p) {
        base + part
    } else {
        base.push(separator(p)) + part
    }
}

/// `base` joined with `parts`, in order.
pub open spec fn path_join_all(base: Seq<char>, parts: Seq<Seq<char>>, p: Platform) -> Seq<
    char,
>
    decreases parts.len(),
{
    if parts.len() == 0 {
        base
    } else {
        path_join(path_join_all(base, parts.drop_last(), p), parts.last(), p)
    }
}

/// Joins the relative component `part` onto `base`.
pub fn join(base: &str, part: &str, platform: Platform) -> (r: String)
    ensures
        r@ == path_join(base@, part@, platform),
{
    let n = base.unicode_len();
    let mut r = String::from_str(base);
    if n > 0 {
        let c = base.get_char(n - 1);
        if !(c == '/' || (platform == Platform::Windows && c == '\\')) {
            if platform == Platform::Windows {
                proof {
                    reveal_strlit("\\");
                }
                r.append("\\");
            } else {
                proof {
                    reveal_strlit("/");
                }
                r.append("/");
            }
        }
    }
    r.append(part);
    assert(base@.len() > 0 ==> base@.last() == base@[n - 1]);
    proof {
        if base@.len() > 0 && !is_separator(base@.last(), platform) {
            assert(base@.push(separator(platform)) =~= base@ + seq![separator(platform)]);
        }
    }
    r
}

} // verus!
