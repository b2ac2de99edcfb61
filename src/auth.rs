//! Reading the bearer token out of an `Authorization` header value.
use vstd::prelude::*;
use crate::text::{chars_of, string_from};

verus! {

/// The token an `Authorization` header value carries, if it has the
/// `Bearer ` scheme: everything after that prefix.
pub open spec fn bearer_of(header: Seq<char>) -> Option<Seq<char>> {
    if header.len() >= 7 && header.subrange(0, 7) == "Bearer "@ {
        Some(header.subrange(7, header.len() as int))
    } else {
        None
    }
}

/// The token in an `Authorization` header value of the `Bearer ` scheme.
pub fn bearer_token(header: &str) -> (r: Option<String>)
    ensures
        match bearer_of(header@) {
            None => r is None,
            Some(t) => r matches Some(s) && s@ == t,
        },
{
    let hv = chars_of(header);
    let prefix = chars_of("Bearer ");
    proof {
        reveal_strlit("Bearer ");
    }
    assert(prefix@.len() == 7);
    if hv.len() < 7 {
        return None;
    }
    let mut i: usize = 0;
    while i < 7
        invariant
            i <= 7,
            hv.len() >= 7,
            hv@ == header@,
            prefix@ == "Bearer "@,
            prefix.len() == 7,
            forall|j: int| 0 <= j < i ==> hv@[j] == prefix@[j],
        decreases 7 - i,
    {
        if hv[i] != prefix[i] {
            assert(hv@.subrange(0, 7)[i as int] != prefix@[i as int]);
            return None;
        }
        i += 1;
    }
    assert(hv@.subrange(0, 7) =~= prefix@);
    let mut rest: Vec<char> = Vec::new();
    let mut k: usize = 7;
    while k < hv.len()
        invariant
            7 <= k <= hv.len(),
            hv@ == header@,
            rest@ == hv@.subrange(7, k as int),
        decreases hv.len() - k,
    {
        rest.push(hv[k]);
        k += 1;
        assert(rest@ =~= hv@.subrange(7, k as int));
    }
    Some(string_from(&rest))
}

} // verus!
