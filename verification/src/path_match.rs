use vstd::prelude::*;
use vstd::string::*;

verus! {

/// One path is a component-wise prefix of another: either the two are equal,
/// or the shorter is a leading piece of the longer that ends exactly at a
/// component boundary (the next character of the longer path is a slash, or
/// the prefix itself ends with a slash).
pub open spec fn is_path_prefix(p: Seq<char>, q: Seq<char>) -> bool {
    p == q || (p.len() < q.len() && q.subrange(0, p.len() as int) == p && (q[p.len() as int]
        == '/' || (p.len() > 0 && p[p.len() - 1] == '/')))
}

/// A component-wise prefix never extends past the path it prefixes.
pub proof fn lemma_path_prefix_len(p: Seq<char>, q: Seq<char>)
    requires
        is_path_prefix(p, q),
    ensures
        p.len() <= q.len(),
{
}

/// Two component-wise prefixes of the same path with the same length are the
/// same path.
pub proof fn lemma_path_prefix_same_len(p1: Seq<char>, p2: Seq<char>, q: Seq<char>)
    requires
        is_path_prefix(p1, q),
        is_path_prefix(p2, q),
        p1.len() == p2.len(),
    ensures
        p1 == p2,
{
    if p1.len() < q.len() {
        assert(q.subrange(0, p1.len() as int) == p1);
        assert(q.subrange(0, p2.len() as int) == p2);
    }
}

/// Sharing a string prefix without a component boundary is not a path match:
/// the shorter path's rule must not govern the longer one.
pub proof fn lemma_string_prefix_not_path_prefix(p: Seq<char>, q: Seq<char>)
    requires
        p.len() < q.len(),
        q.subrange(0, p.len() as int) == p,
        q[p.len() as int] != '/',
        p.len() > 0,
        p[p.len() - 1] != '/',
    ensures
        !is_path_prefix(p, q),
{
}

/// Does the request path `q` start with the declared path `p`, component-wise?
pub fn path_starts_with(p: &str, q: &str) -> (b: bool)
    ensures
        b == is_path_prefix(p@, q@),
{
    let plen: usize = p.unicode_len();
    let qlen: usize = q.unicode_len();
    if plen > qlen {
        return false;
    }
    let mut i: usize = 0;
    while i < plen
        invariant
            plen == p@.len(),
            qlen == q@.len(),
            plen <= qlen,
            i <= plen,
            forall|j: int| 0 <= j < i ==> p@[j] == q@[j],
        decreases plen - i,
    {
        if p.get_char(i) != q.get_char(i) {
            proof {
                if p@.len() < q@.len() && q@.subrange(0, p@.len() as int) == p@ {
                    assert(q@.subrange(0, p@.len() as int)[i as int] == q@[i as int]);
                }
            }
            return false;
        }
        i += 1;
    }
    proof {
        assert(q@.subrange(0, plen as int) =~= p@);
    }
    if plen == qlen {
        proof {
            assert(p@ =~= q@);
        }
        true
    } else if q.get_char(plen) == '/' {
        true
    } else if plen > 0 && p.get_char(plen - 1) == '/' {
        true
    } else {
        false
    }
}

} // verus!
