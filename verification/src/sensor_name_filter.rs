//! The overview search filter's matching rule: an empty filter admits every
//! sensor; otherwise a sensor matches iff it has a label and the label
//! begins with the filter text.

use vstd::prelude::*;
use vstd::string::StringSliceAdditionalSpecFns;

verus! {

/// `p` is a byte-wise prefix of `s`; on valid UTF-8 that is exactly the
/// textual prefix relation.
pub open spec fn is_prefix_of(p: Seq<u8>, s: Seq<u8>) -> bool {
    p.len() <= s.len() && s.subrange(0, p.len() as int) == p
}

fn bytes_start_with(s: &[u8], p: &[u8]) -> (r: bool)
    ensures
        r == is_prefix_of(p@, s@),
{
    if p.len() > s.len() {
        assert(!is_prefix_of(p@, s@));
        return false;
    }
    let n = p.len();
    let mut i: usize = 0;
    while i < n
        invariant
            i <= n,
            n == p@.len() <= s@.len(),
            forall|j: int| 0 <= j < i ==> s@[j] == p@[j],
        decreases n - i,
    {
        if s[i] != p[i] {
            assert(s@.subrange(0, n as int)[i as int] != p@[i as int]);
            return false;
        }
        i += 1;
    }
    assert(s@.subrange(0, n as int) =~= p@);
    true
}

/// Whether a sensor with this label passes the search filter.
pub fn sensor_matches_filter(filter: &str, label: Option<&str>) -> (r: bool)
    ensures
        filter@.len() == 0 ==> r,
        filter@.len() != 0 ==> r == (match label {
            Some(l) => is_prefix_of(filter.spec_bytes(), l.spec_bytes()),
            None => false,
        }),
{
    if filter.is_empty() {
        return true;
    }
    match label {
        Some(l) => bytes_start_with(l.as_bytes(), filter.as_bytes()),
        None => false,
    }
}

} // verus!
