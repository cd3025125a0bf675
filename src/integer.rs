//! Integer tools of the codec: the extended Euclidean algorithm, a mixed-radix
//! number basis and a Chinese Remainder solver.
use vstd::prelude::*;
use vstd::arithmetic::div_mod::*;
use vstd::slice::slice_to_vec;

verus! {

/// Greatest common divisor, by Euclid's recursion.
pub open spec fn gcd(a: nat, b: nat) -> nat
    decreases a,
{
    if a == 0 {
        b
    } else {
        gcd(b % a, a)
    }
}

/// `n`, or 1 where `n` is smaller than 1.
pub open spec fn at_least_one(n: int) -> int {
    if n >= 1 {
        n
    } else {
        1
    }
}

/// Product of the first `k` entries of `s`.
pub open spec fn prod_prefix(s: Seq<i64>, k: int) -> int
    decreases k,
{
    if k <= 0 {
        1
    } else {
        prod_prefix(s, k - 1) * s[k - 1]
    }
}

/// Product of the entries of `s` below index `k`, leaving out index `j`.
pub open spec fn prod_except(s: Seq<i64>, j: int, k: int) -> int
    decreases k,
{
    if k <= 0 {
        1
    } else if k - 1 == j {
        prod_except(s, j, k - 1)
    } else {
        prod_except(s, j, k - 1) * s[k - 1]
    }
}

pub open spec fn all_positive(s: Seq<i64>) -> bool {
    forall|i: int| 0 <= i < s.len() ==> #[trigger] s[i] >= 1
}

pub open spec fn ints(s: Seq<i64>) -> Seq<int> {
    s.map_values(|v: i64| v as int)
}

/// Computes the extended Euclidean algorithm.
///
/// Returns (gcd, r, s) such that gcd = r*a + s*b.
pub fn extended_euclid(a: i64, b: i64) -> (res: (i64, i64, i64))
    requires
        0 <= a,
        0 <= b,
    ensures
        res.0 == gcd(a as nat, b as nat),
        res.0 == res.1 * a + res.2 * b,
        a == 0 ==> res.1 == 0 && res.2 == 1,
        -at_least_one(b as int) <= res.1 <= at_least_one(b as int),
        -at_least_one(a as int) <= res.2 <= at_least_one(a as int),
    decreases a,
{
    if a == 0 {
        return (b, 0, 1);
    }
    let c = b % a;
    let q = b / a;
    let (g, x1, y1) = extended_euclid(c, a);
    proof {
        lemma_fundamental_div_mod(b as int, a as int);
        assert(q * a <= b) by (nonlinear_arith)
            requires
                b == a * q + c,
                c >= 0,
        ;
        if c != 0 {
            assert(-(q * a) <= q * x1 <= q * a) by (nonlinear_arith)
                requires
                    -a <= x1 <= a,
                    q >= 0,
            ;
        }
    }
    let x = y1 - q * x1;
    proof {
        assert(g == x * a + x1 * b) by (nonlinear_arith)
            requires
                g == x1 * c + y1 * a,
                b == a * q + c,
                x == y1 - q * x1,
        ;
    }
    (g, x, x1)
}

pub proof fn lemma_prod_prefix_mono(s: Seq<i64>, i: int, j: int)
    requires
        all_positive(s),
        0 <= i <= j <= s.len(),
    ensures
        1 <= prod_prefix(s, i) <= prod_prefix(s, j),
    decreases j,
{
    if j > 0 {
        let i2 = if i == j {
            j - 1
        } else {
            i
        };
        lemma_prod_prefix_mono(s, i2, j - 1);
        let p = prod_prefix(s, j - 1);
        let f = s[j - 1] as int;
        assert(p * f >= p) by (nonlinear_arith)
            requires
                p >= 1,
                f >= 1,
        ;
    }
}

proof fn lemma_prod_except_beyond(s: Seq<i64>, j: int, k: int)
    requires
        0 <= k <= j,
    ensures
        prod_except(s, j, k) == prod_prefix(s, k),
    decreases k,
{
    if k > 0 {
        lemma_prod_except_beyond(s, j, k - 1);
    }
}

proof fn lemma_prod_except_split(s: Seq<i64>, j: int, k: int)
    requires
        0 <= j < k <= s.len(),
    ensures
        prod_prefix(s, k) == prod_except(s, j, k) * s[j],
    decreases k,
{
    if k - 1 == j {
        lemma_prod_except_beyond(s, j, j);
    } else {
        lemma_prod_except_split(s, j, k - 1);
        let a = prod_except(s, j, k - 1);
        let b = s[j] as int;
        let c = s[k - 1] as int;
        assert((a * b) * c == (a * c) * b) by (nonlinear_arith);
    }
}

proof fn lemma_prod_except_divisible(s: Seq<i64>, j: int, i: int, k: int)
    requires
        all_positive(s),
        0 <= i < k <= s.len(),
        i != j,
    ensures
        prod_except(s, j, k) % (s[i] as int) == 0,
    decreases k,
{
    let m = s[i] as int;
    if k - 1 == i {
        lemma_mod_multiples_basic(prod_except(s, j, k - 1), m);
    } else if k - 1 == j {
        lemma_prod_except_divisible(s, j, i, k - 1);
    } else {
        lemma_prod_except_divisible(s, j, i, k - 1);
        let x = prod_except(s, j, k - 1);
        let y = s[k - 1] as int;
        lemma_mul_mod_noop_left(x, y, m);
        lemma_small_mod(0, m as nat);
        assert((x % m) * y == 0);
    }
}

/// Product of the first `k` entries, divided by entry `j`, leaves out entry `j`.
proof fn lemma_prod_quotient(s: Seq<i64>, j: int, k: int)
    requires
        all_positive(s),
        0 <= j < k <= s.len(),
    ensures
        prod_prefix(s, k) / (s[j] as int) == prod_except(s, j, k),
        prod_prefix(s, k) == (s[j] as int) * (prod_prefix(s, k) / (s[j] as int)),
{
    lemma_prod_except_split(s, j, k);
    lemma_div_multiples_vanish(prod_except(s, j, k), s[j] as int);
}

/// Coefficient `i` of `n` in the mixed radix of the factors `pf`.
pub open spec fn digit(pf: Seq<i64>, n: int, i: int) -> int {
    (n / prod_prefix(pf, i)) % (pf[i] as int)
}

/// The coefficients of `n` in the mixed radix of the factors `pf`.
pub open spec fn digits_of(pf: Seq<i64>, n: int) -> Seq<int> {
    Seq::new(pf.len(), |i: int| digit(pf, n, i))
}

/// `c[0]*B[0] + ... + c[k-1]*B[k-1]`, where `B[i]` is the product of the factors below `i`.
pub open spec fn weighted_sum(c: Seq<int>, pf: Seq<i64>, k: int) -> int
    decreases k,
{
    if k <= 0 {
        0
    } else {
        weighted_sum(c, pf, k - 1) + c[k - 1] * prod_prefix(pf, k - 1)
    }
}

/// Each `c[i]` is a digit of radix `pf[i]`.
pub open spec fn valid_digits(c: Seq<int>, pf: Seq<i64>) -> bool {
    &&& c.len() == pf.len()
    &&& forall|i: int| 0 <= i < c.len() ==> 0 <= #[trigger] c[i] < pf[i]
}

pub proof fn lemma_weighted_sum_bound(c: Seq<int>, pf: Seq<i64>, k: int)
    requires
        all_positive(pf),
        valid_digits(c, pf),
        0 <= k <= pf.len(),
    ensures
        0 <= weighted_sum(c, pf, k) < prod_prefix(pf, k),
    decreases k,
{
    if k > 0 {
        lemma_weighted_sum_bound(c, pf, k - 1);
        lemma_prod_prefix_mono(pf, k - 1, k - 1);
        let w = weighted_sum(c, pf, k - 1);
        let p = prod_prefix(pf, k - 1);
        let d = c[k - 1];
        let f = pf[k - 1] as int;
        assert(0 <= w + d * p < p * f) by (nonlinear_arith)
            requires
                0 <= w < p,
                0 <= d < f,
                p >= 1,
        ;
    }
}

proof fn lemma_weighted_sum_digits(pf: Seq<i64>, n: int, k: int)
    requires
        all_positive(pf),
        0 <= n,
        0 <= k <= pf.len(),
    ensures
        weighted_sum(digits_of(pf, n), pf, k) == n % prod_prefix(pf, k),
    decreases k,
{
    if k == 0 {
        lemma_mod_multiples_basic(n, 1);
    } else {
        lemma_weighted_sum_digits(pf, n, k - 1);
        lemma_prod_prefix_mono(pf, k - 1, k - 1);
        let p = prod_prefix(pf, k - 1);
        let f = pf[k - 1] as int;
        lemma_mod_breakdown(n, p, f);
        assert(digits_of(pf, n)[k - 1] * p == p * ((n / p) % f)) by (nonlinear_arith)
            requires
                digits_of(pf, n)[k - 1] == (n / p) % f,
        ;
    }
}

/// Reconstructing the coefficients of a number in [0, U) gives back that number,
/// U being the product of the factors.
pub proof fn lemma_reconstruct_project(pf: Seq<i64>, n: int)
    requires
        all_positive(pf),
        0 <= n < prod_prefix(pf, pf.len() as int),
    ensures
        weighted_sum(digits_of(pf, n), pf, pf.len() as int) == n,
{
    lemma_weighted_sum_digits(pf, n, pf.len() as int);
    lemma_small_mod(n as nat, prod_prefix(pf, pf.len() as int) as nat);
}

proof fn lemma_digit_bound(pf: Seq<i64>, n: int, i: int)
    requires
        all_positive(pf),
        0 <= n,
        0 <= i < pf.len(),
    ensures
        0 <= digit(pf, n, i) < pf[i],
{
    lemma_prod_prefix_mono(pf, i, i);
    lemma_div_pos_is_pos(n, prod_prefix(pf, i));
    lemma_mod_bound(n / prod_prefix(pf, i), pf[i] as int);
}

/// Two digit sequences with the same weighted sum agree below `k`.
proof fn lemma_weighted_sum_injective(c: Seq<int>, d: Seq<int>, pf: Seq<i64>, k: int)
    requires
        all_positive(pf),
        valid_digits(c, pf),
        valid_digits(d, pf),
        0 <= k <= pf.len(),
        weighted_sum(c, pf, k) == weighted_sum(d, pf, k),
    ensures
        forall|i: int| 0 <= i < k ==> c[i] == d[i],
    decreases k,
{
    if k > 0 {
        let b = prod_prefix(pf, k - 1);
        lemma_prod_prefix_mono(pf, k - 1, k - 1);
        lemma_weighted_sum_bound(c, pf, k - 1);
        lemma_weighted_sum_bound(d, pf, k - 1);
        let w = weighted_sum(c, pf, k);
        lemma_fundamental_div_mod_converse(w, b, c[k - 1], weighted_sum(c, pf, k - 1));
        lemma_fundamental_div_mod_converse(w, b, d[k - 1], weighted_sum(d, pf, k - 1));
        lemma_weighted_sum_injective(c, d, pf, k - 1);
    }
}

/// Projecting the number that valid digits `c` reconstruct gives back `c`.
pub proof fn lemma_project_reconstruct(c: Seq<int>, pf: Seq<i64>)
    requires
        all_positive(pf),
        valid_digits(c, pf),
    ensures
        digits_of(pf, weighted_sum(c, pf, pf.len() as int)) == c,
{
    let k = pf.len() as int;
    let n = weighted_sum(c, pf, k);
    lemma_weighted_sum_bound(c, pf, k);
    lemma_reconstruct_project(pf, n);
    let ds = digits_of(pf, n);
    assert forall|i: int| 0 <= i < ds.len() implies 0 <= #[trigger] ds[i] < pf[i] by {
        lemma_digit_bound(pf, n, i);
    }
    lemma_weighted_sum_injective(ds, c, pf, k);
    assert(ds =~= c);
}

/// Represents numbers in a basis defined by prime factors.
pub struct NumberBasis {
    pub upper: i64,
    pub lower: i64,
    pub bases: Vec<i64>,
    pub rbases: Vec<i64>,
    pub pfactors: Vec<i64>,
}

impl NumberBasis {
    pub open spec fn wf(&self) -> bool {
        let pf = self.pfactors@;
        &&& all_positive(pf)
        &&& prod_prefix(pf, pf.len() as int) <= i64::MAX
        &&& self.upper == prod_prefix(pf, pf.len() as int)
        &&& self.lower == 0
        &&& self.bases@.len() == pf.len()
        &&& forall|i: int| 0 <= i < pf.len() ==> self.bases@[i] == prod_prefix(pf, i)
        &&& self.rbases@.len() == pf.len()
        &&& forall|i: int|
            0 <= i < pf.len() ==> self.rbases@[i] == self.bases@[pf.len() - 1 - i]
    }

    /// Initialize basis from prime-factors.
    ///
    /// Given prime-factors p1,...,pn the integer interval [0,p1*...*pn)
    /// can be represented uniquely using n coefficients (one for each basis).
    pub fn new(pfactors: &[i64]) -> (r: NumberBasis)
        requires
            all_positive(pfactors@),
            prod_prefix(pfactors@, pfactors@.len() as int) <= i64::MAX,
        ensures
            r.wf(),
            r.pfactors@ == pfactors@,
    {
        let ghost pf = pfactors@;
        let mut bases: Vec<i64> = Vec::new();
        let mut cumulative: i64 = 1;
        let mut i: usize = 0;
        while i < pfactors.len()
            invariant
                pf == pfactors@,
                all_positive(pf),
                prod_prefix(pf, pf.len() as int) <= i64::MAX,
                0 <= i <= pf.len(),
                cumulative == prod_prefix(pf, i as int),
                bases@.len() == i,
                forall|j: int| 0 <= j < i ==> bases@[j] == prod_prefix(pf, j),
            decreases pf.len() - i,
        {
            bases.push(cumulative);
            proof {
                lemma_prod_prefix_mono(pf, i + 1, pf.len() as int);
            }
            cumulative = cumulative * pfactors[i];
            i = i + 1;
        }
        let mut rbases: Vec<i64> = Vec::new();
        let mut k: usize = bases.len();
        while k > 0
            invariant
                0 <= k <= bases@.len(),
                rbases@.len() == bases@.len() - k,
                forall|j: int|
                    0 <= j < rbases@.len() ==> rbases@[j] == bases@[bases@.len() - 1 - j],
            decreases k,
        {
            k = k - 1;
            rbases.push(bases[k]);
        }
        NumberBasis { upper: cumulative, lower: 0, bases, rbases, pfactors: slice_to_vec(pfactors) }
    }

    /// The coefficients of one number `n` in [0, upper).
    pub fn project_one(&self, n: i64) -> (r: Vec<i64>)
        requires
            self.wf(),
            0 <= n < self.upper,
        ensures
            ints(r@) == digits_of(self.pfactors@, n as int),
            valid_digits(ints(r@), self.pfactors@),
    {
        let ghost pf = self.pfactors@;
        let mut r: Vec<i64> = Vec::new();
        let mut i: usize = 0;
        while i < self.bases.len()
            invariant
                self.wf(),
                pf == self.pfactors@,
                0 <= n,
                0 <= i <= pf.len(),
                r@.len() == i,
                forall|j: int| 0 <= j < i ==> r@[j] == digit(pf, n as int, j),
            decreases pf.len() - i,
        {
            proof {
                lemma_prod_prefix_mono(pf, i as int, i as int);
            }
            let d = (n / self.bases[i]) % self.pfactors[i];
            r.push(d);
            i = i + 1;
        }
        proof {
            assert forall|j: int| 0 <= j < pf.len() implies 0 <= #[trigger] digit(pf, n as int, j) < pf[j] by {
                lemma_digit_bound(pf, n as int, j);
            }
            assert(ints(r@) =~= digits_of(pf, n as int));
        }
        r
    }

    /// Returns coefficients for prime bases for each number.
    ///
    /// Every number must lie in [0, upper); row `j` of the result holds the
    /// coefficients of `n[j]`, one for each basis.
    pub fn project(&self, n: &[i64]) -> (r: Vec<Vec<i64>>)
        requires
            self.wf(),
            forall|j: int| 0 <= j < n@.len() ==> 0 <= #[trigger] n@[j] < self.upper,
        ensures
            r@.len() == n@.len(),
            forall|j: int|
                0 <= j < n@.len() ==> ints(#[trigger] r@[j]@) == digits_of(
                    self.pfactors@,
                    n@[j] as int,
                ),
    {
        let mut r: Vec<Vec<i64>> = Vec::new();
        let mut j: usize = 0;
        while j < n.len()
            invariant
                self.wf(),
                forall|t: int| 0 <= t < n@.len() ==> 0 <= #[trigger] n@[t] < self.upper,
                0 <= j <= n@.len(),
                r@.len() == j,
                forall|t: int|
                    0 <= t < j ==> ints(#[trigger] r@[t]@) == digits_of(
                        self.pfactors@,
                        n@[t] as int,
                    ),
            decreases n@.len() - j,
        {
            let row = self.project_one(n[j]);
            r.push(row);
            j = j + 1;
        }
        r
    }

    /// The number whose coefficients are `c`.
    pub fn reconstruct_one(&self, c: &[i64]) -> (r: i64)
        requires
            self.wf(),
            valid_digits(ints(c@), self.pfactors@),
        ensures
            r == weighted_sum(ints(c@), self.pfactors@, self.pfactors@.len() as int),
            0 <= r < self.upper,
    {
        let ghost pf = self.pfactors@;
        let ghost cs = ints(c@);
        let mut sum: i64 = 0;
        let mut i: usize = 0;
        while i < c.len()
            invariant
                self.wf(),
                pf == self.pfactors@,
                cs == ints(c@),
                valid_digits(cs, pf),
                0 <= i <= pf.len(),
                sum == weighted_sum(cs, pf, i as int),
            decreases pf.len() - i,
        {
            proof {
                assert(cs[i as int] == c@[i as int] as int);
                assert(self.bases@[i as int] == prod_prefix(pf, i as int));
                assert(weighted_sum(cs, pf, i + 1) == sum + cs[i as int] * prod_prefix(pf, i as int));
                lemma_weighted_sum_bound(cs, pf, i as int);
                lemma_weighted_sum_bound(cs, pf, i + 1);
                lemma_prod_prefix_mono(pf, i + 1, pf.len() as int);
                lemma_prod_prefix_mono(pf, i as int, i as int);
                let d = cs[i as int];
                let p = prod_prefix(pf, i as int);
                assert(0 <= d * p) by (nonlinear_arith)
                    requires
                        0 <= d,
                        1 <= p,
                ;
                assert((c@[i as int] as int) * (self.bases@[i as int] as int) <= i64::MAX);
            }
            sum = sum + c[i] * self.bases[i];
            i = i + 1;
        }
        proof {
            lemma_weighted_sum_bound(cs, pf, pf.len() as int);
        }
        sum
    }

    /// Reconstruct integers from coefficients.
    ///
    /// Each number x can be represented as x = b1*c1 + b2*c2 + ... + bn*cn.
    pub fn reconstruct(&self, coeffs: &[Vec<i64>]) -> (r: Vec<i64>)
        requires
            self.wf(),
            forall|j: int|
                0 <= j < coeffs@.len() ==> valid_digits(
                    ints(#[trigger] coeffs@[j]@),
                    self.pfactors@,
                ),
        ensures
            r@.len() == coeffs@.len(),
            forall|j: int|
                0 <= j < coeffs@.len() ==> #[trigger] r@[j] == weighted_sum(
                    ints(coeffs@[j]@),
                    self.pfactors@,
                    self.pfactors@.len() as int,
                ),
    {
        let mut r: Vec<i64> = Vec::new();
        let mut j: usize = 0;
        while j < coeffs.len()
            invariant
                self.wf(),
                forall|t: int|
                    0 <= t < coeffs@.len() ==> valid_digits(
                        ints(#[trigger] coeffs@[t]@),
                        self.pfactors@,
                    ),
                0 <= j <= coeffs@.len(),
                r@.len() == j,
                forall|t: int|
                    0 <= t < j ==> #[trigger] r@[t] == weighted_sum(
                        ints(coeffs@[t]@),
                        self.pfactors@,
                        self.pfactors@.len() as int,
                    ),
            decreases coeffs@.len() - j,
        {
            let v = self.reconstruct_one(coeffs[j].as_slice());
            r.push(v);
            j = j + 1;
        }
        r
    }
}

/// Every modulus is coprime to the product of the others.
pub open spec fn moduli_coprime(s: Seq<i64>) -> bool {
    forall|i: int|
        0 <= i < s.len() ==> gcd(s[i] as nat, (prod_prefix(s, s.len() as int) / (s[i] as int)) as nat)
            == 1
}

/// Chinese Remainder Theorem solver.
///
/// Solves for simultaneous congruences using the Chinese Remainder Theorem (CRT).
pub struct CRT {
    pub lengths: Vec<i64>,
    pub l: i64,
    pub qs: Vec<i64>,
    pub es: Vec<i64>,
}

/// What the coefficients `qs` and `es` satisfy for the moduli `s` with product `l`.
pub open spec fn crt_coefficients(s: Seq<i64>, l: int, qs: Seq<i64>, es: Seq<i64>) -> bool {
    &&& qs.len() == s.len()
    &&& es.len() == s.len()
    &&& forall|i: int|
        0 <= i < s.len() ==> {
            &&& 0 <= #[trigger] qs[i] < s[i]
            &&& es[i] == qs[i] * (l / (s[i] as int))
            &&& 0 <= es[i] < l
            &&& (es[i] as int) % (s[i] as int) == 1int % (s[i] as int)
        }
    &&& forall|i: int, j: int|
        0 <= i < s.len() && 0 <= j < s.len() && i != j ==> (#[trigger] es[j] as int) % (
        #[trigger] s[i] as int) == 0
}

impl CRT {
    pub open spec fn wf(&self) -> bool {
        let s = self.lengths@;
        &&& all_positive(s)
        &&& prod_prefix(s, s.len() as int) <= i64::MAX
        &&& self.l == prod_prefix(s, s.len() as int)
        &&& crt_coefficients(s, self.l as int, self.qs@, self.es@)
    }

    /// `r[0]*e[0] + ... + r[k-1]*e[k-1]`.
    pub open spec fn combination(&self, r: Seq<i64>, k: int) -> int
        decreases k,
    {
        if k <= 0 {
            0
        } else {
            self.combination(r, k - 1) + r[k - 1] * self.es@[k - 1]
        }
    }

    /// The value `solve` returns for the remainders `r`.
    pub open spec fn solution(&self, r: Seq<i64>) -> int {
        self.combination(r, self.lengths@.len() as int) % (self.l as int)
    }

    /// Each remainder lies in [0, L_i).
    pub open spec fn valid_remainders(&self, r: Seq<i64>) -> bool {
        &&& r.len() == self.lengths@.len()
        &&& forall|i: int| 0 <= i < r.len() ==> 0 <= #[trigger] r[i] < self.lengths@[i]
    }

    /// Initialize CRT solver with lengths that must be relatively prime.
    pub fn new(lengths: &[i64]) -> (r: Result<CRT, String>)
        requires
            all_positive(lengths@),
            prod_prefix(lengths@, lengths@.len() as int) <= i64::MAX,
        ensures
            r is Ok <==> moduli_coprime(lengths@),
            r is Ok ==> r->Ok_0.wf() && r->Ok_0.lengths@ == lengths@,
    {
        let ghost s = lengths@;
        let mut l: i64 = 1;
        let mut i: usize = 0;
        while i < lengths.len()
            invariant
                s == lengths@,
                all_positive(s),
                prod_prefix(s, s.len() as int) <= i64::MAX,
                0 <= i <= s.len(),
                l == prod_prefix(s, i as int),
            decreases s.len() - i,
        {
            proof {
                lemma_prod_prefix_mono(s, i + 1, s.len() as int);
            }
            l = l * lengths[i];
            i = i + 1;
        }
        let qs = match Self::compute_qs(lengths, l) {
            Ok(qs) => qs,
            Err(e) => {
                return Err(e);
            },
        };
        let mut es: Vec<i64> = Vec::new();
        let mut i: usize = 0;
        while i < lengths.len()
            invariant
                s == lengths@,
                all_positive(s),
                l == prod_prefix(s, s.len() as int),
                qs@.len() == s.len(),
                forall|t: int| 0 <= t < s.len() ==> 0 <= #[trigger] qs@[t] < s[t],
                0 <= i <= s.len(),
                es@.len() == i,
                forall|t: int| 0 <= t < i ==> #[trigger] es@[t] == qs@[t] * (l / s[t]),
            decreases s.len() - i,
        {
            proof {
                lemma_prod_quotient(s, i as int, s.len() as int);
                let q = qs@[i as int] as int;
                let m = (l / s[i as int]) as int;
                let li = s[i as int] as int;
                lemma_prod_prefix_mono(s, 0, s.len() as int);
                assert(m >= 1) by (nonlinear_arith)
                    requires
                        l == li * m,
                        l >= 1,
                        li >= 1,
                ;
                assert(0 <= q * m < li * m) by (nonlinear_arith)
                    requires
                        0 <= q < li,
                        m >= 1,
                ;
            }
            es.push(qs[i] * (l / lengths[i]));
            i = i + 1;
        }
        proof {
            lemma_crt_coefficients(s, l as int, qs@, es@);
        }
        Ok(CRT { lengths: slice_to_vec(lengths), l, qs, es })
    }

    /// Returns the smallest non-negative number solving the remainder congruences.
    ///
    /// `remainders[i]` is the wanted value of x mod `lengths[i]`.
    pub fn solve(&self, remainders: &[i64]) -> (x: i64)
        requires
            self.wf(),
            self.valid_remainders(remainders@),
        ensures
            x == self.solution(remainders@),
            0 <= x < self.l,
    {
        let ghost r = remainders@;
        let ghost s = self.lengths@;
        proof {
            lemma_prod_prefix_mono(s, 0, s.len() as int);
            lemma_small_mod(0, self.l as nat);
        }
        let mut sum: i64 = 0;
        let mut i: usize = 0;
        while i < remainders.len()
            invariant
                self.wf(),
                r == remainders@,
                s == self.lengths@,
                self.valid_remainders(r),
                self.l >= 1,
                0 <= i <= r.len(),
                sum == self.combination(r, i as int) % (self.l as int),
                0 <= sum < self.l,
            decreases r.len() - i,
        {
            proof {
                lemma_prod_quotient(s, i as int, s.len() as int);
                let li = s[i as int] as int;
                let rv = r[i as int] as int;
                let ev = self.es@[i as int] as int;
                let l = self.l as int;
                assert(0 <= self.qs@[i as int] < s[i as int]);
                assert(li <= l) by (nonlinear_arith)
                    requires
                        l == li * (l / li),
                        l >= 1,
                        li >= 1,
                ;
                assert(0 <= rv * ev < l * l) by (nonlinear_arith)
                    requires
                        0 <= rv < l,
                        0 <= ev < l,
                ;
                assert(l * l <= 0x7fff_ffff_ffff_ffff * 0x7fff_ffff_ffff_ffff) by (nonlinear_arith)
                    requires
                        0 <= l <= 0x7fff_ffff_ffff_ffff,
                ;
                lemma_add_mod_noop(self.combination(r, i as int), rv * ev, l);
                lemma_mod_twice(self.combination(r, i as int), l);
            }
            let term: i128 = ((remainders[i] as i128) * (self.es[i] as i128)) % (self.l as i128);
            sum = (((sum as i128) + term) % (self.l as i128)) as i64;
            i = i + 1;
        }
        sum
    }

    fn compute_qs(lengths: &[i64], l: i64) -> (r: Result<Vec<i64>, String>)
        requires
            all_positive(lengths@),
            l == prod_prefix(lengths@, lengths@.len() as int),
            l <= i64::MAX,
        ensures
            r is Ok <==> moduli_coprime(lengths@),
            r is Ok ==> {
                let qs = r->Ok_0@;
                &&& qs.len() == lengths@.len()
                &&& forall|i: int|
                    0 <= i < qs.len() ==> {
                        &&& 0 <= #[trigger] qs[i] < lengths@[i]
                        &&& ((qs[i] as int) * ((l as int) / (lengths@[i] as int))) % (lengths@[i] as int)
                            == 1int % (lengths@[i] as int)
                    }
            },
    {
        let ghost s = lengths@;
        let mut qs: Vec<i64> = Vec::new();
        let mut i: usize = 0;
        while i < lengths.len()
            invariant
                s == lengths@,
                all_positive(s),
                l == prod_prefix(s, s.len() as int),
                0 <= i <= s.len(),
                qs@.len() == i,
                forall|t: int|
                    0 <= t < i ==> gcd(s[t] as nat, ((l as int) / (s[t] as int)) as nat) == 1,
                forall|t: int|
                    0 <= t < i ==> {
                        &&& 0 <= #[trigger] qs@[t] < s[t]
                        &&& ((qs@[t] as int) * ((l as int) / (s[t] as int))) % (s[t] as int) == 1int % (
                        s[t] as int)
                    },
            decreases s.len() - i,
        {
            let li = lengths[i];
            proof {
                lemma_prod_quotient(s, i as int, s.len() as int);
                lemma_prod_prefix_mono(s, 0, s.len() as int);
                assert(l / li >= 1) by (nonlinear_arith)
                    requires
                        l == li * (l / li),
                        l >= 1,
                        li >= 1,
                ;
            }
            let m = l / li;
            let (g, rr, ss) = extended_euclid(li, m);
            if g != 1 {
                return Err(String::from_str("List lengths must be relatively prime."));
            }
            // The least non-negative residue of ss modulo li.
            let q: i64 = if ss >= 0 {
                ss % li
            } else {
                let t = (-ss) % li;
                if t == 0 {
                    0
                } else {
                    li - t
                }
            };
            proof {
                let (liv, mv, rv, sv) = (li as int, m as int, rr as int, ss as int);
                if sv < 0 {
                    let t = (-sv) % liv;
                    let d = (-sv) / liv;
                    lemma_fundamental_div_mod(-sv, liv);
                    lemma_mod_bound(-sv, liv);
                    if t == 0 {
                        assert(sv == (-d) * liv + 0) by (nonlinear_arith)
                            requires
                                -sv == liv * d + t,
                                t == 0,
                        ;
                        lemma_fundamental_div_mod_converse_mod(sv, liv, -d, 0);
                    } else {
                        assert(sv == (-d - 1) * liv + (liv - t)) by (nonlinear_arith)
                            requires
                                -sv == liv * d + t,
                        ;
                        lemma_fundamental_div_mod_converse_mod(sv, liv, -d - 1, liv - t);
                    }
                }
                assert(q == sv % liv);
                lemma_mul_mod_noop_left(sv, mv, liv);
                assert(sv * mv == liv * (-rv) + 1) by (nonlinear_arith)
                    requires
                        1 == rv * liv + sv * mv,
                ;
                lemma_mod_multiples_vanish(-rv, 1, liv);
            }
            qs.push(q);
            i = i + 1;
        }
        Ok(qs)
    }
}

proof fn lemma_crt_coefficients(s: Seq<i64>, l: int, qs: Seq<i64>, es: Seq<i64>)
    requires
        all_positive(s),
        l == prod_prefix(s, s.len() as int),
        l <= i64::MAX,
        qs.len() == s.len(),
        es.len() == s.len(),
        forall|t: int|
            0 <= t < s.len() ==> {
                &&& 0 <= #[trigger] qs[t] < s[t]
                &&& ((qs[t] as int) * (l / (s[t] as int))) % (s[t] as int) == 1int % (s[t] as int)
            },
        forall|t: int| 0 <= t < s.len() ==> #[trigger] es[t] == qs[t] * (l / (s[t] as int)),
    ensures
        crt_coefficients(s, l, qs, es),
{
    assert forall|t: int| 0 <= t < s.len() implies 0 <= #[trigger] es[t] < l by {
        lemma_prod_quotient(s, t, s.len() as int);
        let q = qs[t] as int;
        let li = s[t] as int;
        let m = l / li;
        lemma_prod_prefix_mono(s, 0, s.len() as int);
        assert(0 <= q * m < l) by (nonlinear_arith)
            requires
                0 <= q < li,
                l == li * m,
                l >= 1,
                li >= 1,
        ;
    }
    assert forall|i: int, j: int|
        0 <= i < s.len() && 0 <= j < s.len() && i != j implies (#[trigger] es[j] as int) % (
    #[trigger] s[i] as int) == 0 by {
        lemma_prod_quotient(s, j, s.len() as int);
        lemma_prod_except_divisible(s, j, i, s.len() as int);
        let m = s[i] as int;
        lemma_mul_mod_noop_right(qs[j] as int, l / (s[j] as int), m);
        lemma_small_mod(0, m as nat);
        assert((qs[j] as int) * 0 == 0);
    }
}

proof fn lemma_combination_mod(crt: &CRT, r: Seq<i64>, i: int, k: int)
    requires
        crt.wf(),
        crt.valid_remainders(r),
        0 <= i < r.len(),
        0 <= k <= r.len(),
    ensures
        crt.combination(r, k) % (crt.lengths@[i] as int) == (if i < k {
            r[i] as int
        } else {
            0
        }) % (crt.lengths@[i] as int),
    decreases k,
{
    let m = crt.lengths@[i] as int;
    if k == 0 {
        lemma_small_mod(0, m as nat);
    } else {
        lemma_combination_mod(crt, r, i, k - 1);
        let a = crt.combination(r, k - 1);
        let rv = r[k - 1] as int;
        let ev = crt.es@[k - 1] as int;
        lemma_add_mod_noop(a, rv * ev, m);
        lemma_mul_mod_noop_right(rv, ev, m);
        if k - 1 == i {
            assert(0 <= crt.qs@[i] < crt.lengths@[i]);
            lemma_mul_mod_noop_right(rv, 1, m);
            lemma_small_mod(0, m as nat);
            lemma_mod_twice(rv, m);
        } else {
            assert(ev % m == 0);
            lemma_small_mod(0, m as nat);
            lemma_mod_twice(a, m);
        }
    }
}

/// Whatever remainders r_i in [0, L_i) are given, the solution leaves remainder
/// r_i when divided by L_i.
pub proof fn lemma_solve_residues(crt: &CRT, r: Seq<i64>)
    requires
        crt.wf(),
        crt.valid_remainders(r),
    ensures
        forall|i: int|
            0 <= i < r.len() ==> crt.solution(r) % (#[trigger] crt.lengths@[i] as int) == r[i],
{
    let s = crt.lengths@;
    assert forall|i: int| 0 <= i < r.len() implies crt.solution(r) % (
    #[trigger] crt.lengths@[i] as int) == r[i] by {
        let m = s[i] as int;
        lemma_prod_quotient(s, i, s.len() as int);
        lemma_combination_mod(crt, r, i, r.len() as int);
        lemma_prod_prefix_mono(s, 0, s.len() as int);
        let l = crt.l as int;
        assert(l / m >= 1) by (nonlinear_arith)
            requires
                l == m * (l / m),
                l >= 1,
                m >= 1,
        ;
        lemma_mod_mod(crt.combination(r, r.len() as int), m, l / m);
        lemma_small_mod(r[i] as nat, m as nat);
    }
}

proof fn lemma_prod_except_prefix_divides(s: Seq<i64>, j: int, k: int)
    requires
        all_positive(s),
        0 <= j <= k <= s.len(),
    ensures
        prod_except(s, j, k) % prod_prefix(s, j) == 0,
    decreases k,
{
    let p = prod_prefix(s, j);
    lemma_prod_prefix_mono(s, j, j);
    if k == j {
        lemma_prod_except_beyond(s, j, j);
        lemma_mod_self_0(p);
    } else {
        lemma_prod_except_prefix_divides(s, j, k - 1);
        if k - 1 != j {
            let x = prod_except(s, j, k - 1);
            let y = s[k - 1] as int;
            lemma_mul_mod_noop_left(x, y, p);
            lemma_small_mod(0, p as nat);
            assert((x % p) * y == 0);
        }
    }
}

/// A number that every modulus divides is divisible by the product of the first `k`.
proof fn lemma_crt_divides(crt: &CRT, z: int, k: int)
    requires
        crt.wf(),
        0 <= k <= crt.lengths@.len(),
        forall|i: int| 0 <= i < crt.lengths@.len() ==> z % (#[trigger] crt.lengths@[i] as int) == 0,
    ensures
        z % prod_prefix(crt.lengths@, k) == 0,
    decreases k,
{
    let s = crt.lengths@;
    if k == 0 {
        lemma_mod_multiples_basic(z, 1);
    } else {
        lemma_crt_divides(crt, z, k - 1);
        let p = prod_prefix(s, k - 1);
        let m = s[k - 1] as int;
        lemma_prod_prefix_mono(s, k - 1, k - 1);
        let l = crt.l as int;
        lemma_prod_quotient(s, k - 1, s.len() as int);
        let big_m = l / m;
        lemma_prod_except_prefix_divides(s, k - 1, s.len() as int);
        lemma_fundamental_div_mod(big_m, p);
        let r = big_m / p;
        assert(0 <= crt.qs@[k - 1] < s[k - 1]);
        let q = crt.qs@[k - 1] as int;
        let e = crt.es@[k - 1] as int;
        assert(e == q * big_m);
        lemma_fundamental_div_mod(e, m);
        let t = e / m;
        lemma_fundamental_div_mod(z, p);
        let a = z / p;
        lemma_fundamental_div_mod(z, m);
        let b = z / m;
        if m == 1 {
            assert(p * m == p);
        } else {
            lemma_small_mod(1, m as nat);
            let mt = m * t;
            assert(e - mt == 1);
            assert(z == z * e - z * mt) by (nonlinear_arith)
                requires
                    e - mt == 1,
            ;
            assert(z * e == (p * m) * (q * r * b)) by (nonlinear_arith)
                requires
                    z == m * b + 0,
                    e == q * big_m,
                    big_m == p * r + 0,
            ;
            assert(z * mt == (p * m) * (t * a)) by (nonlinear_arith)
                requires
                    z == p * a + 0,
                    mt == m * t,
            ;
            let pm = p * m;
            let u = q * r * b;
            let v = t * a;
            assert(pm * u - pm * v == pm * (u - v)) by (nonlinear_arith);
            assert(z == (p * m) * (q * r * b - t * a));
            assert(p * m > 0) by (nonlinear_arith)
                requires
                    p >= 1,
                    m >= 1,
            ;
            lemma_mod_multiples_basic(q * r * b - t * a, p * m);
            assert((q * r * b - t * a) * (p * m) == (p * m) * (q * r * b - t * a)) by (
            nonlinear_arith);
        }
    }
}

/// Two numbers in [0, L) that leave the same remainder modulo every L_i are equal.
pub proof fn lemma_crt_unique(crt: &CRT, x: int, y: int)
    requires
        crt.wf(),
        0 <= x < crt.l,
        0 <= y < crt.l,
        forall|i: int|
            0 <= i < crt.lengths@.len() ==> x % (#[trigger] crt.lengths@[i] as int) == y % (
            crt.lengths@[i] as int),
    ensures
        x == y,
{
    let s = crt.lengths@;
    let z = x - y;
    assert forall|i: int| 0 <= i < s.len() implies z % (#[trigger] crt.lengths@[i] as int) == 0 by {
        let m = s[i] as int;
        lemma_sub_mod_noop(x, y, m);
        lemma_small_mod(0, m as nat);
    }
    lemma_crt_divides(crt, z, s.len() as int);
    let l = crt.l as int;
    lemma_fundamental_div_mod(z, l);
    let w = z / l;
    assert(z == 0) by (nonlinear_arith)
        requires
            z == l * w + 0,
            -l < z < l,
            l >= 1,
    ;
}

} // verus!
