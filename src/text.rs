use vstd::prelude::*;

verus! {

/// The characters of `s` after Unicode lowercasing.
pub uninterp spec fn lower_of(s: Seq<char>) -> Seq<char>;

/// Relies on `str::to_lowercase`: the lowercased form depends on the characters alone.
#[verifier::external_body]
fn lowercase_chars(s: &str) -> (r: Vec<char>)
    ensures
        r@ == lower_of(s@),
{
    s.to_lowercase().chars().collect()
}

/// `q` occurs as a contiguous run inside `t`.
pub open spec fn occurs_in(q: Seq<char>, t: Seq<char>) -> bool {
    exists|i: int| 0 <= i && i + q.len() <= t.len() && #[trigger] t.subrange(i, i + q.len()) == q
}

/// Whether `q` occurs inside `t`, on characters already folded by the caller.
pub fn contains_chars(t: &Vec<char>, q: &Vec<char>) -> (r: bool)
    ensures
        r == occurs_in(q@, t@),
{
    let tl = t.len();
    let n = q.len();
    if n > tl {
        return false;
    }
    if n == 0 {
        assert(t@.subrange(0, 0 + q@.len() as int) =~= q@);
        return true;
    }
    let last = tl - n;
    let mut i: usize = 0;
    while i <= last
        invariant
            n == q@.len(),
            last + n == t@.len(),
            tl == t@.len(),
            n > 0,
            i <= last + 1,
            forall|k: int| 0 <= k < i ==> #[trigger] t@.subrange(k, k + n) != q@,
        decreases last + 1 - i,
    {
        let mut j: usize = 0;
        let mut same = true;
        while j < n
            invariant
                n == q@.len(),
                last + n == t@.len(),
                tl == t@.len(),
                i <= last,
                j <= n,
                same == (forall|m: int| 0 <= m < j ==> t@[i + m] == q@[m]),
            decreases n - j,
        {
            if t[i + j] != q[j] {
                same = false;
            }
            j += 1;
        }
        if same {
            assert(t@.subrange(i as int, i + n) =~= q@);
            return true;
        }
        proof {
            let m = choose|m: int| 0 <= m < n && t@[i + m] != q@[m];
            assert(t@.subrange(i as int, i + n)[m] == t@[i + m]);
        }
        i += 1;
    }
    proof {
        assert forall|k: int| 0 <= k && k + q@.len() <= t@.len() implies #[trigger] t@.subrange(k, k + q@.len()) != q@ by {
            assert(k < i);
        }
    }
    false
}

/// Case-insensitive substring test: whether `query` occurs in `text` once both
/// are lowercased.
pub fn contains_folded(text: &str, query: &str) -> (r: bool)
    ensures
        r == occurs_in(lower_of(query@), lower_of(text@)),
{
    let t = lowercase_chars(text);
    let q = lowercase_chars(query);
    contains_chars(&t, &q)
}

} // verus!
