use vstd::prelude::*;

verus! {

/// `host` is `domain` itself or lies below it (`a.b.example` under `b.example`).
pub open spec fn domain_matches(host: Seq<char>, domain: Seq<char>) -> bool {
    host == domain || (host.len() > domain.len() && host[host.len() - domain.len() - 1] == '.'
        && host.subrange(host.len() - domain.len(), host.len() as int) == domain)
}

/// Whether `host` equals `domain` or is one of its subdomains.
pub fn host_matches(host: &str, domain: &str) -> (r: bool)
    ensures
        r == domain_matches(host@, domain@),
{
    let hl = host.unicode_len();
    let dl = domain.unicode_len();
    if hl < dl {
        return false;
    }
    let off: usize = hl - dl;
    if hl > dl && host.get_char(off - 1) != '.' {
        return false;
    }
    let mut i: usize = 0;
    while i < dl
        invariant
            hl == host@.len(),
            dl == domain@.len(),
            off + dl == hl,
            i <= dl,
            forall|k: int| 0 <= k < i ==> host@[off + k] == domain@[k],
        decreases dl - i,
    {
        if host.get_char(off + i) != domain.get_char(i) {
            proof {
                assert(host@.subrange(off as int, hl as int)[i as int] != domain@[i as int]);
            }
            return false;
        }
        i = i + 1;
    }
    proof {
        assert(host@.subrange(off as int, hl as int) =~= domain@);
        if hl == dl {
            assert(host@ =~= domain@);
        }
    }
    true
}

} // verus!

verus! {

/// Whether two texts are equal.
pub fn same_text(a: &str, b: &str) -> (r: bool)
    ensures
        r == (a@ == b@),
{
    a.unicode_len() == b.unicode_len() && host_matches(a, b)
}

} // verus!
