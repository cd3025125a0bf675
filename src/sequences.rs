//! Cyclic sequences and the search of a window inside them.
use vstd::prelude::*;
use crate::integer::ints;
use vstd::arithmetic::div_mod::*;

verus! {

/// The values of a sequence of `i8` as integers.
pub open spec fn small_ints(s: Seq<i8>) -> Seq<int> {
    s.map_values(|v: i8| v as int)
}

/// `s` followed by its first `order - 1` entries: every cyclic window of
/// length `order` is a contiguous window of the result.
pub open spec fn cyclic(s: Seq<i8>, order: int) -> Seq<i8> {
    s + s.subrange(0, order - 1)
}

/// `needle` stands in `hay` from index `i` on.
pub open spec fn occurs_at(hay: Seq<int>, needle: Seq<int>, i: int) -> bool {
    &&& 0 <= i
    &&& i + needle.len() <= hay.len()
    &&& hay.subrange(i, i + needle.len()) == needle
}

/// The first index at or after `i` where `needle` stands in `hay`.
pub open spec fn locate_from(hay: Seq<int>, needle: Seq<int>, i: int) -> Option<int>
    decreases hay.len() + 1 - i,
{
    if i < 0 || i + needle.len() > hay.len() {
        None
    } else if occurs_at(hay, needle, i) {
        Some(i)
    } else {
        locate_from(hay, needle, i + 1)
    }
}

/// The first index where `needle` stands in `hay`, if any.
pub open spec fn locate(hay: Seq<int>, needle: Seq<int>) -> Option<int> {
    locate_from(hay, needle, 0)
}

pub proof fn lemma_locate_from_bounds(hay: Seq<int>, needle: Seq<int>, i: int)
    ensures
        locate_from(hay, needle, i) is Some ==> {
            let p = locate_from(hay, needle, i)->Some_0;
            &&& i <= p
            &&& occurs_at(hay, needle, p)
        },
    decreases hay.len() + 1 - i,
{
    if !(i < 0 || i + needle.len() > hay.len()) && !occurs_at(hay, needle, i) {
        lemma_locate_from_bounds(hay, needle, i + 1);
    }
}

/// Where `locate` finds a window, it stands there, and the index leaves room for it.
pub proof fn lemma_locate_bounds(hay: Seq<int>, needle: Seq<int>)
    ensures
        locate(hay, needle) is Some ==> {
            let p = locate(hay, needle)->Some_0;
            &&& 0 <= p
            &&& p + needle.len() <= hay.len()
            &&& occurs_at(hay, needle, p)
        },
{
    lemma_locate_from_bounds(hay, needle, 0);
}

/// The cyclic window of length `order` of `s` that starts at `p`.
pub open spec fn cyclic_window(s: Seq<i8>, order: int, p: int) -> Seq<int> {
    Seq::new(order as nat, |i: int| s[(p + i) % (s.len() as int)] as int)
}

/// Every cyclic window of length `order` occurs at most once in `s`.
pub open spec fn windows_unique(s: Seq<i8>, order: int) -> bool {
    forall|p: int, q: int|
        0 <= p < s.len() && 0 <= q < s.len() && #[trigger] cyclic_window(s, order, p)
            == #[trigger] cyclic_window(s, order, q) ==> p == q
}

proof fn lemma_locate_first(hay: Seq<int>, needle: Seq<int>, p: int, i: int)
    requires
        0 <= i <= p,
        occurs_at(hay, needle, p),
        forall|q: int| i <= q < p ==> !occurs_at(hay, needle, q),
    ensures
        locate_from(hay, needle, i) == Some(p),
    decreases p - i,
{
    if i < p {
        lemma_locate_first(hay, needle, p, i + 1);
    }
}

/// The cyclic window of `s` at `p` stands at `p` in the cyclic extension of `s`.
pub proof fn lemma_cyclic_window_occurs(s: Seq<i8>, order: int, p: int)
    requires
        1 <= order,
        order - 1 <= s.len(),
        0 <= p < s.len(),
    ensures
        occurs_at(small_ints(cyclic(s, order)), cyclic_window(s, order, p), p),
{
    let hay = small_ints(cyclic(s, order));
    let w = cyclic_window(s, order, p);
    let len = s.len() as int;
    assert forall|i: int| 0 <= i < order implies #[trigger] hay.subrange(p, p + order)[i]
        == w[i] by {
        if p + i < len {
            lemma_small_mod((p + i) as nat, len as nat);
        } else {
            lemma_fundamental_div_mod_converse_mod(p + i, len, 1, p + i - len);
        }
    }
    assert(hay.subrange(p, p + order) =~= w);
}

/// Where cyclic windows are unique, a cyclic window is located at its start.
pub proof fn lemma_locate_cyclic_window(s: Seq<i8>, order: int, p: int)
    requires
        1 <= order,
        order - 1 <= s.len(),
        0 <= p < s.len(),
        windows_unique(s, order),
    ensures
        locate(small_ints(cyclic(s, order)), cyclic_window(s, order, p)) == Some(p),
{
    let hay = small_ints(cyclic(s, order));
    let w = cyclic_window(s, order, p);
    lemma_cyclic_window_occurs(s, order, p);
    assert forall|q: int| 0 <= q < p implies !occurs_at(hay, w, q) by {
        if occurs_at(hay, w, q) {
            lemma_cyclic_window_occurs(s, order, q);
            assert(cyclic_window(s, order, q) == w);
        }
    }
    lemma_locate_first(hay, w, p, 0);
}

/// Appends the first order-1 entries to make cyclic positions locatable.
pub fn make_cyclic(seq: &[i8], order: usize) -> (r: Vec<i8>)
    requires
        1 <= order,
        order - 1 <= seq@.len(),
    ensures
        r@ == cyclic(seq@, order as int),
{
    let mut r: Vec<i8> = Vec::new();
    let mut i: usize = 0;
    while i < seq.len()
        invariant
            0 <= i <= seq@.len(),
            r@ == seq@.subrange(0, i as int),
        decreases seq@.len() - i,
    {
        r.push(seq[i]);
        i = i + 1;
        proof {
            assert(r@ =~= seq@.subrange(0, i as int));
        }
    }
    let mut j: usize = 0;
    while j < order - 1
        invariant
            order - 1 <= seq@.len(),
            0 <= j <= order - 1,
            r@ == seq@ + seq@.subrange(0, j as int),
        decreases order - 1 - j,
    {
        r.push(seq[j]);
        j = j + 1;
        proof {
            assert(r@ =~= seq@ + seq@.subrange(0, j as int));
        }
    }
    proof {
        assert(seq@.subrange(0, seq@.len() as int) =~= seq@);
    }
    r
}

/// The first index where `needle` stands in `haystack`, or `None`.
pub fn find_subsequence(haystack: &[i8], needle: &[i64]) -> (r: Option<usize>)
    ensures
        r is Some <==> locate(small_ints(haystack@), ints(needle@))
            is Some,
        r is Some ==> r->Some_0 as int == locate(
            small_ints(haystack@),
            ints(needle@),
        )->Some_0,
{
    let ghost hay = small_ints(haystack@);
    let ghost nd = ints(needle@);
    if needle.len() > haystack.len() {
        return None;
    }
    let hl = haystack.len();
    let last = hl - needle.len();
    let mut i: usize = 0;
    while i <= last
        invariant
            hay == small_ints(haystack@),
            nd == ints(needle@),
            hl == haystack@.len(),
            last == haystack@.len() - needle@.len(),
            0 <= i <= last + 1,
            locate(hay, nd) == locate_from(hay, nd, i as int),
        decreases last + 1 - i,
    {
        let mut k: usize = 0;
        let mut same = true;
        while k < needle.len()
            invariant
                hay == small_ints(haystack@),
                nd == ints(needle@),
                i <= last,
                hl == haystack@.len(),
                last == haystack@.len() - needle@.len(),
                0 <= k <= needle@.len(),
                same ==> forall|t: int| 0 <= t < k ==> hay[i + t] == #[trigger] nd[t],
                !same ==> exists|t: int| 0 <= t < needle@.len() && hay[i + t] != #[trigger] nd[t],
            decreases needle@.len() - k,
        {
            assert(i + k < hl);
            if haystack[i + k] as i64 != needle[k] {
                same = false;
                proof {
                    assert(hay[i + k] != nd[k as int]);
                }
            }
            k = k + 1;
        }
        if same {
            proof {
                assert(hay.subrange(i as int, i + nd.len()) =~= nd);
            }
            return Some(i);
        }
        proof {
            let t = choose|t: int| 0 <= t < needle@.len() && hay[i + t] != #[trigger] nd[t];
            assert(hay.subrange(i as int, i + nd.len())[t] != nd[t]);
        }
        if i == last {
            proof {
                assert(locate_from(hay, nd, i + 1) is None);
            }
            return None;
        }
        i = i + 1;
    }
    None
}

} // verus!
