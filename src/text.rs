use vstd::prelude::*;

verus! {

/// `p` occurs in `t` starting at index `i`.
pub open spec fn occurs_at(t: Seq<char>, p: Seq<char>, i: int) -> bool {
    0 <= i && i + p.len() <= t.len() && t.subrange(i, i + p.len()) == p
}

pub open spec fn contains(t: Seq<char>, p: Seq<char>) -> bool {
    exists|i: int| #[trigger] occurs_at(t, p, i)
}

/// What `str::to_lowercase` makes of a text.
pub uninterp spec fn lower_of(s: Seq<char>) -> Seq<char>;

/// Relies on `str::to_lowercase`: its lowercase mapping depends on the characters alone.
#[verifier::external_body]
pub(crate) fn to_lower(s: &str) -> (r: String)
    ensures
        r@ == lower_of(s@),
{
    s.to_lowercase()
}

/// Whether `p` occurs as a substring of `t`.
pub fn contains_text(t: &str, p: &str) -> (r: bool)
    ensures
        r == contains(t@, p@),
{
    let n = t.unicode_len();
    let m = p.unicode_len();
    if m > n {
        assert forall|i: int| !occurs_at(t@, p@, i) by {}
        return false;
    }
    let mut i: usize = 0;
    while i <= n - m
        invariant
            n == t@.len(),
            m == p@.len(),
            m <= n,
            i <= n - m + 1,
            forall|k: int| 0 <= k < i ==> !#[trigger] occurs_at(t@, p@, k),
        decreases n - m + 1 - i,
    {
        let mut j: usize = 0;
        let mut same = true;
        while j < m && same
            invariant
                n == t@.len(),
                m == p@.len(),
                i + m <= n,
                j <= m,
                same ==> forall|q: int| 0 <= q < j ==> t@[i + q] == p@[q],
                !same ==> exists|q: int| 0 <= q < m && t@[i + q] != p@[q],
            decreases m - j + (if same { 1int } else { 0int }),
        {
            if t.get_char(i + j) != p.get_char(j) {
                same = false;
            } else {
                j = j + 1;
            }
        }
        if same {
            assert(t@.subrange(i as int, i + m) =~= p@);
            assert(occurs_at(t@, p@, i as int));
            return true;
        }
        proof {
            let q = choose|q: int| 0 <= q < m && t@[i + q] != p@[q];
            if occurs_at(t@, p@, i as int) {
                assert(t@.subrange(i as int, i + m)[q] == t@[i + q]);
            }
        }
        i = i + 1;
    }
    assert forall|k: int| !occurs_at(t@, p@, k) by {}
    false
}

} // verus!
