//! Unix paths as byte strings: the absolute test, joining, and the parent.
//!
//! A path here is the byte content of a Unix path. `join` follows the rule of
//! `PathBuf::push`: an absolute right side replaces the left, otherwise one
//! separator is put between them unless the left is empty or already ends in
//! one. `parent` removes the last component of a path written without
//! repeated or trailing separators, the form the working directory has.
use vstd::prelude::*;

verus! {

/// The separator byte `/`.
pub open spec fn sep() -> u8 {
    47u8
}

/// A path is absolute when it starts at the root.
pub open spec fn is_absolute(p: Seq<u8>) -> bool {
    p.len() > 0 && p[0] == sep()
}

/// `base` joined with `rel`.
pub open spec fn join(base: Seq<u8>, rel: Seq<u8>) -> Seq<u8> {
    if is_absolute(rel) {
        rel
    } else if base.len() == 0 || base.last() == sep() {
        base + rel
    } else {
        base + seq![sep()] + rel
    }
}

/// The position of the last separator in `p`, or -1 where it has none.
pub open spec fn last_sep(p: Seq<u8>) -> int
    decreases p.len(),
{
    if p.len() == 0 {
        -1
    } else if p.last() == sep() {
        p.len() - 1
    } else {
        last_sep(p.drop_last())
    }
}

/// The path without its last component: none for the empty path and the
/// root, the empty path for a single relative component, the root for a
/// component right under it.
pub open spec fn parent(p: Seq<u8>) -> Option<Seq<u8>> {
    if p.len() == 0 || p == seq![sep()] {
        None
    } else if last_sep(p) < 0 {
        Some(Seq::empty())
    } else if last_sep(p) == 0 {
        Some(seq![sep()])
    } else {
        Some(p.take(last_sep(p)))
    }
}

pub proof fn lemma_last_sep(p: Seq<u8>)
    ensures
        -1 <= last_sep(p) < p.len(),
        last_sep(p) >= 0 ==> p[last_sep(p)] == sep(),
        forall|j: int| last_sep(p) < j < p.len() ==> p[j] != sep(),
    decreases p.len(),
{
    if p.len() > 0 && p.last() != sep() {
        lemma_last_sep(p.drop_last());
        assert forall|j: int| last_sep(p) < j < p.len() implies p[j] != sep() by {
            if j < p.len() - 1 {
                assert(p[j] == p.drop_last()[j]);
            }
        }
    }
}

/// A parent is shorter than its child.
pub proof fn lemma_parent_shorter(p: Seq<u8>)
    ensures
        parent(p) matches Some(q) ==> q.len() < p.len(),
{
    lemma_last_sep(p);
    assert(p.len() == 1 ==> p =~= seq![p[0]]);
}

/// Whether `p` is absolute.
pub fn path_is_absolute(p: &[u8]) -> (r: bool)
    ensures
        r == is_absolute(p@),
{
    p.len() > 0 && p[0] == 47u8
}

/// `base` joined with `rel`, as a new path.
pub fn path_join(base: &[u8], rel: &[u8]) -> (r: Vec<u8>)
    ensures
        r@ == join(base@, rel@),
{
    if path_is_absolute(rel) {
        return crate::bytes::copy(rel);
    }
    let mut out = crate::bytes::copy(base);
    if base.len() > 0 && base[base.len() - 1] != 47u8 {
        out.push(47u8);
    }
    crate::bytes::append(&mut out, rel);
    out
}

/// The parent of `p`, as a new path.
pub fn path_parent(p: &[u8]) -> (r: Option<Vec<u8>>)
    ensures
        match r {
            Some(q) => parent(p@) == Some(q@),
            None => parent(p@) is None,
        },
{
    if p.len() == 0 || (p.len() == 1 && p[0] == 47u8) {
        assert(p@.len() == 1 ==> p@ =~= seq![sep()]);
        return None;
    }
    assert(p@ != seq![sep()]);
    let mut i: usize = p.len();
    assert(p@.take(p@.len() as int) =~= p@);
    while i > 0 && p[i - 1] != 47u8
        invariant
            0 <= i <= p@.len(),
            last_sep(p@) == last_sep(p@.take(i as int)),
        decreases i,
    {
        assert(p@.take(i as int).drop_last() =~= p@.take(i - 1));
        i = i - 1;
    }
    assert(p@.take(p@.len() as int) =~= p@);
    if i == 0 {
        assert(p@.take(0) =~= Seq::<u8>::empty());
        Some(Vec::new())
    } else if i == 1 {
        let mut q: Vec<u8> = Vec::new();
        q.push(47u8);
        assert(q@ =~= seq![sep()]);
        Some(q)
    } else {
        let mut q: Vec<u8> = Vec::new();
        let mut k: usize = 0;
        while k < i - 1
            invariant
                1 < i <= p@.len(),
                0 <= k <= i - 1,
                q@ == p@.take(k as int),
            decreases i - 1 - k,
        {
            q.push(p[k]);
            k = k + 1;
            assert(q@ =~= p@.take(k as int));
        }
        Some(q)
    }
}

} // verus!
