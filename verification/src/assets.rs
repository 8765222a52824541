//! Paths of assets, relative to the directory that the engine loads from.

use vstd::prelude::*;
use vstd::string::*;

verus! {

/// `s` without the copies of `c` that it starts with.
pub open spec fn without_leading(s: Seq<char>, c: char) -> Seq<char>
    decreases s.len(),
{
    if s.len() > 0 && s[0] == c {
        without_leading(s.skip(1), c)
    } else {
        s
    }
}

/// `s` without the copies of `prefix` that it starts with, one after the other.
pub open spec fn without_leading_copies(s: Seq<char>, prefix: Seq<char>) -> Seq<char>
    decreases s.len(),
{
    if prefix.len() > 0 && prefix.is_prefix_of(s) {
        without_leading_copies(s.skip(prefix.len() as int), prefix)
    } else {
        s
    }
}

/// The path as the engine wants it: without leading slashes, and then without
/// any leading `assets/`, since the engine adds the directory itself.
pub open spec fn normalized_asset_path(path: Seq<char>) -> Seq<char> {
    without_leading_copies(without_leading(path, '/'), "assets/"@)
}

/// Whether `prefix` stands in `s` at position `start`.
fn has_prefix_at(s: &str, n: usize, start: usize, prefix: &str, m: usize) -> (found: bool)
    requires
        n == s@.len(),
        m == prefix@.len(),
        start <= n,
    ensures
        found == prefix@.is_prefix_of(s@.skip(start as int)),
{
    if m > n - start {
        return false;
    }
    let mut i: usize = 0;
    while i < m
        invariant
            n == s@.len(),
            m == prefix@.len(),
            start <= n,
            m <= n - start,
            i <= m,
            forall|k: int| 0 <= k < i ==> prefix@[k] == s@[start + k],
        decreases m - i,
    {
        if prefix.get_char(i) != s.get_char(start + i) {
            return false;
        }
        i = i + 1;
    }
    true
}

/// Normalises an asset path: leading slashes go, and then every leading
/// `assets/`. What is left is the path below the asset directory.
pub fn asset_path(path: &str) -> (out: String)
    ensures
        out@ == normalized_asset_path(path@),
{
    let n: usize = path.unicode_len();
    let mut start: usize = 0;
    assert(path@.skip(0) =~= path@);
    while start < n && path.get_char(start) == '/'
        invariant
            n == path@.len(),
            start <= n,
            without_leading(path@.skip(start as int), '/') == without_leading(path@, '/'),
        decreases n - start,
    {
        assert(path@.skip(start as int).skip(1) =~= path@.skip(start + 1));
        start = start + 1;
    }
    let ghost trimmed = path@.skip(start as int);
    let prefix = "assets/";
    let m: usize = prefix.unicode_len();
    if m > 0 {
        while has_prefix_at(path, n, start, prefix, m)
            invariant
                n == path@.len(),
                m == prefix@.len(),
                m > 0,
                start <= n,
                without_leading_copies(path@.skip(start as int), prefix@)
                    == without_leading_copies(trimmed, prefix@),
            decreases n - start,
        {
            assert(path@.skip(start as int).skip(m as int) =~= path@.skip(start + m));
            start = start + m;
        }
    }
    let out = path.substring_char(start, n).to_owned();
    out
}

} // verus!
