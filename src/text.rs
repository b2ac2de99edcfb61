//! Character-level string helpers with exact contracts.
use vstd::prelude::*;
use vstd::std_specs::iter::IteratorSpec;
use vstd::string::*;

verus! {

/// `s` with each occurrence of `pat`, found left to right without overlap,
/// replaced by `rep`.
pub open spec fn replaced(s: Seq<char>, pat: Seq<char>, rep: Seq<char>) -> Seq<char>
    decreases s.len(),
{
    if pat.len() == 0 || s.len() < pat.len() {
        s
    } else if s.subrange(0, pat.len() as int) == pat {
        rep + replaced(s.subrange(pat.len() as int, s.len() as int), pat, rep)
    } else {
        seq![s[0]] + replaced(s.subrange(1, s.len() as int), pat, rep)
    }
}

/// `s` with every character `from` turned into `to`.
pub open spec fn swapped(s: Seq<char>, from: char, to: char) -> Seq<char> {
    s.map_values(|c: char| if c == from { to } else { c })
}

/// The characters of `s` in order.
pub(crate) fn chars_of(s: &str) -> (r: Vec<char>)
    ensures
        r@ == s@,
{
    broadcast use vstd::string::group_string_axioms;

    let mut it = s.chars();
    let mut r: Vec<char> = Vec::new();
    loop
        invariant
            it.obeys_prophetic_iter_laws(),
            it.decrease() is Some,
            r@ + it.remaining() == s@,
        ensures
            r@ == s@,
        decreases it.decrease()->0,
    {
        let ghost before = it.remaining();
        match it.next() {
            Some(c) => {
                r.push(c);
                assert(r@ + it.remaining() =~= s@);
            },
            None => {
                assert(before.len() == 0);
                assert(r@ =~= s@);
                break;
            },
        }
    }
    r
}

/// Relies on `String::push`: it appends one character.
#[verifier::external_body]
fn push_char(s: &mut String, c: char)
    ensures
        final(s)@ == old(s)@.push(c),
{
    s.push(c)
}

/// The string made of `v`'s characters.
pub(crate) fn string_from(v: &Vec<char>) -> (r: String)
    ensures
        r@ == v@,
{
    let mut r = String::new();
    let mut i: usize = 0;
    while i < v.len()
        invariant
            i <= v.len(),
            r@ == v@.subrange(0, i as int),
        decreases v.len() - i,
    {
        push_char(&mut r, v[i]);
        i += 1;
        assert(r@ =~= v@.subrange(0, i as int));
    }
    assert(v@.subrange(0, v.len() as int) =~= v@);
    r
}

/// `a` followed by `b`.
pub fn joined(a: &str, b: &str) -> (r: String)
    ensures
        r@ == a@ + b@,
{
    let mut r = a.to_owned();
    r.append(b);
    r
}

/// `a`, then `b`, then `c`.
pub fn joined3(a: &str, b: &str, c: &str) -> (r: String)
    ensures
        r@ == a@ + b@ + c@,
{
    let mut r = a.to_owned();
    r.append(b);
    r.append(c);
    r
}

/// Whether `p` occurs in `s` at position `i`.
fn occurs_at(s: &Vec<char>, i: usize, p: &Vec<char>) -> (r: bool)
    requires
        i <= s.len(),
    ensures
        r == (p.len() <= s.len() - i && s@.subrange(i as int, i + p.len()) == p@),
{
    if p.len() > s.len() - i {
        return false;
    }
    let mut k: usize = 0;
    while k < p.len()
        invariant
            k <= p.len(),
            i <= s.len(),
            p.len() <= s.len() - i,
            forall|j: int| 0 <= j < k ==> s@[i + j] == p@[j],
        decreases p.len() - k,
    {
        if s[i + k] != p[k] {
            assert(s@.subrange(i as int, i + p.len())[k as int] != p@[k as int]);
            return false;
        }
        k += 1;
    }
    assert(s@.subrange(i as int, i + p.len()) =~= p@);
    true
}

proof fn lemma_replaced_at(s: Seq<char>, i: int, pat: Seq<char>, rep: Seq<char>)
    requires
        0 <= i < s.len(),
        pat.len() > 0,
    ensures
        i + pat.len() <= s.len() && s.subrange(i, i + pat.len()) == pat ==> replaced(
            s.subrange(i, s.len() as int),
            pat,
            rep,
        ) == rep + replaced(s.subrange(i + pat.len(), s.len() as int), pat, rep),
        !(i + pat.len() <= s.len() && s.subrange(i, i + pat.len()) == pat) ==> replaced(
            s.subrange(i, s.len() as int),
            pat,
            rep,
        ) == seq![s[i]] + replaced(s.subrange(i + 1, s.len() as int), pat, rep),
{
    let t = s.subrange(i, s.len() as int);
    assert(t.subrange(0, pat.len() as int) =~= s.subrange(i, i + pat.len()) || t.len()
        < pat.len());
    assert(t.subrange(pat.len() as int, t.len() as int) =~= s.subrange(
        i + pat.len(),
        s.len() as int,
    ) || t.len() < pat.len());
    assert(t.subrange(1, t.len() as int) =~= s.subrange(i + 1, s.len() as int));
    if t.len() < pat.len() {
        let u = s.subrange(i + 1, s.len() as int);
        assert(replaced(u, pat, rep) == u);
        assert(t =~= seq![s[i]] + u);
    }
}

/// `s` with each left-to-right, non-overlapping occurrence of `pat` replaced by `rep`.
pub fn replace_all(s: &str, pat: &str, rep: &str) -> (r: String)
    requires
        pat@.len() > 0,
    ensures
        r@ == replaced(s@, pat@, rep@),
{
    let sv = chars_of(s);
    let pv = chars_of(pat);
    let rv = chars_of(rep);
    let mut out: Vec<char> = Vec::new();
    let mut i: usize = 0;
    assert(sv@.subrange(0, sv@.len() as int) =~= sv@);
    while i < sv.len()
        invariant
            i <= sv.len(),
            pv@.len() > 0,
            out@ + replaced(sv@.subrange(i as int, sv.len() as int), pv@, rv@) == replaced(
                sv@,
                pv@,
                rv@,
            ),
        decreases sv.len() - i,
    {
        proof {
            lemma_replaced_at(sv@, i as int, pv@, rv@);
        }
        if occurs_at(&sv, i, &pv) {
            let ghost before = out@;
            let mut k: usize = 0;
            while k < rv.len()
                invariant
                    k <= rv.len(),
                    out@ == before + rv@.subrange(0, k as int),
                decreases rv.len() - k,
            {
                out.push(rv[k]);
                k += 1;
                assert(out@ =~= before + rv@.subrange(0, k as int));
            }
            assert(rv@.subrange(0, rv.len() as int) =~= rv@);
            assert(out@ == before + rv@);
            i = i + pv.len();
            assert(before + rv@ + replaced(sv@.subrange(i as int, sv.len() as int), pv@, rv@)
                =~= out@ + replaced(sv@.subrange(i as int, sv.len() as int), pv@, rv@));
        } else {
            let ghost before = out@;
            out.push(sv[i]);
            i = i + 1;
            assert(before + (seq![sv@[i - 1]] + replaced(
                sv@.subrange(i as int, sv.len() as int),
                pv@,
                rv@,
            )) =~= out@ + replaced(sv@.subrange(i as int, sv.len() as int), pv@, rv@));
        }
    }
    assert(sv@.subrange(i as int, sv.len() as int) =~= Seq::<char>::empty());
    assert(out@ =~= replaced(sv@, pv@, rv@));
    string_from(&out)
}

/// `s` with every character `from` turned into `to`.
pub fn swap_char(s: &str, from: char, to: char) -> (r: String)
    ensures
        r@ == swapped(s@, from, to),
{
    let sv = chars_of(s);
    let mut out: Vec<char> = Vec::new();
    let mut i: usize = 0;
    while i < sv.len()
        invariant
            i <= sv.len(),
            out@ == swapped(sv@.subrange(0, i as int), from, to),
        decreases sv.len() - i,
    {
        let c = sv[i];
        if c == from {
            out.push(to);
        } else {
            out.push(c);
        }
        i += 1;
        assert(out@ =~= swapped(sv@.subrange(0, i as int), from, to));
    }
    assert(sv@.subrange(0, sv.len() as int) =~= sv@);
    string_from(&out)
}

} // verus!
