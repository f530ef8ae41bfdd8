//! Paths as text: absolute or not, and one path under another.

use crate::text::chars_of;
use vstd::prelude::*;

verus! {

/// Whether `p` starts at the root.
pub open spec fn is_absolute(p: Seq<char>) -> bool {
    p.len() > 0 && p[0] == '/'
}

/// How many `/` stand at the beginning of `p`.
pub open spec fn leading_slashes(p: Seq<char>) -> int
    decreases p.len(),
{
    if p.len() > 0 && p[0] == '/' {
        1 + leading_slashes(p.skip(1))
    } else {
        0
    }
}

/// `p` without the `/` at its beginning.
pub open spec fn relative_part(p: Seq<char>) -> Seq<char> {
    p.skip(leading_slashes(p))
}

/// `rest` under `base`: an absolute `rest` stands for itself; otherwise the
/// two are joined by one `/`, which an empty `base` or one that ends in `/`
/// does not need.
pub open spec fn joined_path(base: Seq<char>, rest: Seq<char>) -> Seq<char> {
    if is_absolute(rest) {
        rest
    } else if base.len() == 0 || base.last() == '/' {
        base + rest
    } else {
        base + seq!['/'] + rest
    }
}

/// Where the container's path `dest` lies on the host, under `rootfs`.
pub open spec fn inside_root(rootfs: Seq<char>, dest: Seq<char>) -> Seq<char> {
    joined_path(rootfs, relative_part(dest))
}

/// Whether `p` starts at the root.
pub fn absolute(p: &[char]) -> (r: bool)
    ensures
        r == is_absolute(p@),
{
    p.len() > 0 && p[0] == '/'
}

/// `rest` under `base`.
pub fn join(base: &[char], rest: &[char]) -> (r: Vec<char>)
    ensures
        r@ == joined_path(base@, rest@),
{
    let mut r: Vec<char> = Vec::new();
    if !absolute(rest) {
        let mut i: usize = 0;
        while i < base.len()
            invariant
                i <= base.len(),
                r@ == base@.take(i as int),
            decreases base.len() - i,
        {
            r.push(base[i]);
            assert(r@ =~= base@.take(i + 1));
            i += 1;
        }
        assert(base@.take(i as int) =~= base@);
        if base.len() > 0 && base[base.len() - 1] != '/' {
            r.push('/');
        }
    }
    let ghost head = r@;
    let mut j: usize = 0;
    while j < rest.len()
        invariant
            j <= rest.len(),
            r@ == head + rest@.take(j as int),
        decreases rest.len() - j,
    {
        r.push(rest[j]);
        assert(r@ =~= head + rest@.take(j + 1));
        j += 1;
    }
    assert(rest@.take(j as int) =~= rest@);
    assert(r@ =~= joined_path(base@, rest@));
    r
}

/// `p` without the `/` at its beginning.
pub fn strip_root(p: &[char]) -> (r: Vec<char>)
    ensures
        r@ == relative_part(p@),
{
    let mut from: usize = 0;
    assert(p@.skip(0) =~= p@);
    while from < p.len() && p[from] == '/'
        invariant
            from <= p.len(),
            leading_slashes(p@) == from + leading_slashes(p@.skip(from as int)),
        decreases p.len() - from,
    {
        assert(p@.skip(from as int).skip(1) =~= p@.skip(from + 1));
        from += 1;
    }
    let mut r: Vec<char> = Vec::new();
    let mut i: usize = from;
    while i < p.len()
        invariant
            from <= i <= p.len(),
            r@ == p@.subrange(from as int, i as int),
        decreases p.len() - i,
    {
        r.push(p[i]);
        assert(r@ =~= p@.subrange(from as int, i + 1));
        i += 1;
    }
    assert(r@ =~= p@.skip(from as int));
    r
}

/// Where the container's path `dest` lies on the host, under `rootfs`.
pub fn under_root(rootfs: &str, dest: &str) -> (r: String)
    ensures
        r@ == inside_root(rootfs@, dest@),
{
    let base = chars_of(rootfs);
    let path = chars_of(dest);
    let rest = strip_root(path.as_slice());
    let joined = join(base.as_slice(), rest.as_slice());
    crate::text::string_of(joined.as_slice())
}

} // verus!
