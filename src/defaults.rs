//! Default codec configurations.
use vstd::prelude::*;
use crate::anoto_sequences::{a1, a1_seq, a2, a2_seq, a3, a3_seq, a4, a4_alt, a4_alt_seq, a4_seq, mns, mns_seq};
use crate::codec::{lengths_of, sns_digits_valid, valid_config, AnotoCodec};
use crate::sequences::windows_unique;
use crate::integer::{gcd, moduli_coprime, prod_prefix};
use crate::window_tables::{
    lemma_a1_windows_unique,
    lemma_a2_windows_unique,
    lemma_a3_windows_unique,
    lemma_a4_alt_windows_unique,
    lemma_mns_windows_unique,
};

verus! {

/// Every entry of `s` lies in [0, `p`).
pub open spec fn digits_below(s: Seq<i8>, p: i8) -> bool {
    forall|t: int| 0 <= t < s.len() ==> 0 <= #[trigger] s[t] < p
}

/// What the 6x6 codec built with the fourth secondary sequence `fourth` holds.
pub open spec fn is_6x6_codec(c: AnotoCodec, fourth: Seq<i8>) -> bool {
    &&& c.wf()
    &&& c.mns@ == mns_seq()
    &&& c.mns_order == 6
    &&& c.sns@.len() == 4
    &&& c.sns@[0]@ == a1_seq()
    &&& c.sns@[1]@ == a2_seq()
    &&& c.sns@[2]@ == a3_seq()
    &&& c.sns@[3]@ == fourth
    &&& c.sns_lengths@ == seq![236usize, 233, 31, 241]
    &&& c.num_basis.pfactors@ == seq![3i64, 3, 2, 3]
    &&& c.delta_range == (5i64, 58i64)
}

proof fn lemma_default_lengths_coprime()
    ensures
        gcd(236, 1740743) == 1,
        gcd(233, 1763156) == 1,
        gcd(31, 13252108) == 1,
        gcd(241, 1704628) == 1,
{
    reveal_with_fuel(gcd, 8);
}

/// The 6x6 codec: the main sequence of order 6, the secondary sequences
/// A1, A2, A3 and the given fourth one, prime factors (3, 3, 2, 3) and
/// deltas in 5..=58.
fn anoto_6x6_with(fourth: Vec<i8>) -> (r: Result<AnotoCodec, String>)
    requires
        fourth@.len() == 241,
        digits_below(fourth@, 3),
    ensures
        r is Ok,
        is_6x6_codec(r->Ok_0, fourth@),
{
    let m = mns();
    let first = a1();
    let second = a2();
    let third = a3();
    let ghost fourth_view = fourth@;
    let sns: Vec<Vec<i8>> = vec![first, second, third, fourth];
    let pfactors: Vec<i64> = vec![3, 3, 2, 3];
    proof {
        let pf = pfactors@;
        assert(pf == seq![3i64, 3, 2, 3]);
        assert(prod_prefix(pf, 0) == 1);
        assert(prod_prefix(pf, 1) == 3);
        assert(prod_prefix(pf, 2) == 9);
        assert(prod_prefix(pf, 3) == 18);
        assert(prod_prefix(pf, 4) == 54);
        let ls = lengths_of(sns@);
        assert(sns@[0]@ == a1_seq());
        assert(sns@[1]@ == a2_seq());
        assert(sns@[2]@ == a3_seq());
        assert(sns@[3]@ == fourth_view);
        assert(sns@[0]@.len() == 236);
        assert(sns@[1]@.len() == 233);
        assert(sns@[2]@.len() == 31);
        assert(sns@[3]@.len() == 241);
        assert(ls[0] == 236 && ls[1] == 233 && ls[2] == 31 && ls[3] == 241);
        assert(prod_prefix(ls, 0) == 1);
        assert(prod_prefix(ls, 1) == 236);
        assert(prod_prefix(ls, 2) == 54988);
        assert(prod_prefix(ls, 3) == 1704628);
        assert(prod_prefix(ls, 4) == 410815348);
        lemma_default_lengths_coprime();
        assert(moduli_coprime(ls));
        assert(digits_below(a1_seq(), 3));
        assert(digits_below(a2_seq(), 3));
        assert(digits_below(a3_seq(), 2));
        assert forall|i: int, t: int|
            0 <= i < sns@.len() && 0 <= t < sns@[i]@.len() implies 0 <= #[trigger] sns@[i]@[t]
            < pf[i] by {
            if i == 0 {
                assert(0 <= a1_seq()[t] < 3);
            } else if i == 1 {
                assert(0 <= a2_seq()[t] < 3);
            } else if i == 2 {
                assert(0 <= a3_seq()[t] < 2);
            } else {
                assert(0 <= fourth_view[t] < 3);
            }
        }
        assert(sns_digits_valid(sns@, pf));
        assert(m@.len() == 63);
        assert(valid_config(m@, 6, sns@, pf, (5, 58)));
    }
    let r = AnotoCodec::new(m.as_slice(), 6, sns.as_slice(), pfactors.as_slice(), (5, 58));
    proof {
        let c = r->Ok_0;
        assert(c.sns@[0]@ == sns@[0]@);
        assert(c.sns@[1]@ == sns@[1]@);
        assert(c.sns@[2]@ == sns@[2]@);
        assert(c.sns@[3]@ == sns@[3]@);
        assert(c.sns_lengths@[0] == 236 && c.sns_lengths@[1] == 233);
        assert(c.sns_lengths@[2] == 31 && c.sns_lengths@[3] == 241);
        assert(c.sns_lengths@ =~= seq![236usize, 233, 31, 241]);
    }
    r
}

/// Creates the default Anoto 6x6 codec with the published A4 sequence.
///
/// Note: the published A4 sequence has some De Bruijn property issues.
pub fn anoto_6x6() -> (r: AnotoCodec)
    ensures
        is_6x6_codec(r, a4_seq()),
{
    let fourth = a4();
    proof {
        assert(digits_below(a4_seq(), 3));
    }
    anoto_6x6_with(fourth).unwrap()
}

/// Creates the default Anoto 6x6 codec with fixed A4 sequence.
///
/// This uses the alternative A4 sequence (A4_ALT) which properly maintains
/// the De Bruijn property.
pub fn anoto_6x6_a4_fixed() -> (r: AnotoCodec)
    ensures
        is_6x6_codec(r, a4_alt_seq()),
        r.quasi_de_bruijn(),
{
    let fourth = a4_alt();
    proof {
        assert(digits_below(a4_alt_seq(), 3));
    }
    let r = anoto_6x6_with(fourth).unwrap();
    proof {
        lemma_mns_windows_unique();
        lemma_a1_windows_unique();
        lemma_a2_windows_unique();
        lemma_a3_windows_unique();
        lemma_a4_alt_windows_unique();
        assert forall|i: int| 0 <= i < r.sns@.len() implies windows_unique(
            #[trigger] r.sns@[i]@,
            r.mns_order - 1,
        ) by {
            if i == 0 {
            } else if i == 1 {
            } else if i == 2 {
            } else {
            }
        }
        assert(r.mns_length == 63);
    }
    r
}

} // verus!
