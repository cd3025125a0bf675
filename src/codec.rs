//! Anoto codec implementation for encoding and decoding dot patterns.
use vstd::prelude::*;
use vstd::arithmetic::div_mod::*;
use crate::bitmatrix::BitMatrix;
use crate::exceptions::{DecodeFailure, DecodingError};
use crate::helpers::{
    code_of,
    is_rotation_of,
    lemma_rotated_bit_compose,
    rot90,
    rot_source,
    rotated_bit,
    turn_code,
    unpacked,
};
use crate::integer::{
    all_positive,
    digit,
    ints,
    lemma_prod_prefix_mono,
    moduli_coprime,
    prod_prefix,
    weighted_sum,
    CRT,
    NumberBasis,
};
use crate::sequences::{
    cyclic,
    find_subsequence,
    lemma_locate_bounds,
    locate,
    make_cyclic,
    small_ints,
};

verus! {

/// The lengths of the secondary sequences.
pub open spec fn lengths_of(sns: Seq<Vec<i8>>) -> Seq<i64> {
    Seq::new(sns.len(), |i: int| sns[i]@.len() as i64)
}

/// Every entry of the `i`-th secondary sequence is a digit of radix `pfactors[i]`.
pub open spec fn sns_digits_valid(sns: Seq<Vec<i8>>, pfactors: Seq<i64>) -> bool {
    forall|i: int, t: int|
        0 <= i < sns.len() && 0 <= t < sns[i]@.len() ==> 0 <= #[trigger] sns[i]@[t] < pfactors[i]
}

/// The configurations the codec can be built from.
pub open spec fn valid_config(
    mns: Seq<i8>,
    mns_order: int,
    sns: Seq<Vec<i8>>,
    pfactors: Seq<i64>,
    delta_range: (i64, i64),
) -> bool {
    &&& mns_order >= 2
    &&& mns.len() >= mns_order
    &&& forall|i: int| 0 <= i < sns.len() ==> #[trigger] sns[i]@.len() >= mns_order - 1
    &&& pfactors.len() == sns.len()
    &&& prod_prefix(pfactors, pfactors.len() as int) == delta_range.1 - delta_range.0 + 1
    &&& moduli_coprime(lengths_of(sns))
    &&& sns_digits_valid(sns, pfactors)
}

/// The `n` columns of channel 0 of the top-left `n` by `n` window, each read downwards.
pub open spec fn x_lines(b: &BitMatrix, n: int) -> Seq<Seq<int>> {
    Seq::new(n as nat, |c: int| Seq::new(n as nat, |i: int| b.at(i, c, 0) as int))
}

/// The `n` rows of channel 1 of the top-left `n` by `n` window, each read rightwards.
pub open spec fn y_lines(b: &BitMatrix, n: int) -> Seq<Seq<int>> {
    Seq::new(n as nat, |r: int| Seq::new(n as nat, |j: int| b.at(r, j, 1) as int))
}

/// Lines of integers.
pub open spec fn lines_view(lines: Seq<Vec<i64>>) -> Seq<Seq<int>> {
    lines.map_values(|v: Vec<i64>| ints(v@))
}

/// Entry (`a`, `c`, `ch`) of the `k`-fold rotation of the top-left `m` by `m` square of `b`.
pub open spec fn square_rot_bit(b: &BitMatrix, m: int, k: int, a: int, c: int, ch: int) -> int {
    let (i, j) = rot_source(m, m, k, a, c);
    unpacked(turn_code(code_of(b.at(i, j, 0), b.at(i, j, 1)), k), ch)
}

/// The columns of channel 0 of the `k`-fold rotation of the top-left `m` by `m` square.
pub open spec fn rot_col_lines(b: &BitMatrix, m: int, k: int) -> Seq<Seq<int>> {
    Seq::new(m as nat, |i: int| Seq::new(m as nat, |a: int| square_rot_bit(b, m, k, a, i, 0)))
}

/// The rows of channel 1 of the `k`-fold rotation of the top-left `m` by `m` square.
pub open spec fn rot_row_lines(b: &BitMatrix, m: int, k: int) -> Seq<Seq<int>> {
    Seq::new(m as nat, |i: int| Seq::new(m as nat, |c: int| square_rot_bit(b, m, k, i, c, 1)))
}

/// The columns of channel 0 of an `m` by `m` matrix.
pub open spec fn col_lines(b: &BitMatrix, m: int) -> Seq<Seq<int>> {
    Seq::new(m as nat, |i: int| Seq::new(m as nat, |a: int| b.at(a, i, 0) as int))
}

/// The rows of channel 1 of an `m` by `m` matrix.
pub open spec fn row_lines(b: &BitMatrix, m: int) -> Seq<Seq<int>> {
    Seq::new(m as nat, |i: int| Seq::new(m as nat, |c: int| b.at(i, c, 1) as int))
}

pub open spec fn min_usize(a: usize, b: usize) -> usize {
    if a <= b {
        a
    } else {
        b
    }
}

/// A window with fewer rows or fewer columns than the order of the main sequence
/// fails to decode with a shape error.
pub proof fn lemma_short_axis_shape_error(c: &AnotoCodec, b: &BitMatrix)
    requires
        c.wf(),
        b.rows < c.mns_order || b.cols < c.mns_order,
    ensures
        c.position_of(b) == Err::<(int, int), DecodeFailure>(DecodeFailure::Shape),
{
}

/// A window whose third axis does not hold exactly two channels fails to decode
/// with a shape error.
pub proof fn lemma_channel_count_shape_error(c: &AnotoCodec, b: &BitMatrix)
    requires
        c.wf(),
        b.chans != 2,
    ensures
        c.position_of(b) == Err::<(int, int), DecodeFailure>(DecodeFailure::Shape),
{
}

/// A window of the right shape whose columns of channel 0 are all found in the
/// main sequence, the first two at offsets whose cyclic difference lies outside
/// the delta range, fails to decode with an out-of-range-delta error.
pub proof fn lemma_first_delta_out_of_range(c: &AnotoCodec, b: &BitMatrix)
    requires
        c.wf(),
        c.shape_ok(b, c.mns_order as int),
        c.lines_found(x_lines(b, c.mns_order as int)),
        c.line_delta(x_lines(b, c.mns_order as int), 0) < c.delta_range.0 || c.line_delta(
            x_lines(b, c.mns_order as int),
            0,
        ) > c.delta_range.1,
    ensures
        c.position_of(b) == Err::<(int, int), DecodeFailure>(DecodeFailure::OutOfRangeDelta),
{
    assert(!c.deltas_ok(x_lines(b, c.mns_order as int)));
}

/// A square window, at least as wide as the order, whose unturned reading passes
/// the detector's threshold still passes it after `k` quarter turns when turned
/// back by `(4 - k) % 4`; so decoding the rotation of the turned window succeeds.
pub proof fn lemma_turned_window_passes(c: &AnotoCodec, w: &BitMatrix, r: &BitMatrix, k: int)
    requires
        c.wf(),
        w.wf(),
        w.chans == 2,
        w.rows == w.cols,
        w.rows >= c.mns_order,
        c.rotation_passes(w, w.rows as int, 0),
        0 <= k < 4,
        is_rotation_of(r, w, k),
    ensures
        c.rotation_passes(r, r.rows as int, (4 - k) % 4),
        c.rotation_of(r) is Ok,
{
    let m = w.rows as int;
    let j = (4 - k) % 4;
    assert(r.rows == m && r.cols == m);
    assert forall|i: int| 0 <= i < m implies #[trigger] rot_col_lines(r, m, j)[i] =~= rot_col_lines(
        w,
        m,
        0,
    )[i] by {
        assert forall|a: int| 0 <= a < m implies rot_col_lines(r, m, j)[i][a] == rot_col_lines(
            w,
            m,
            0,
        )[i][a] by {
            lemma_rotated_bit_compose(w, r, k, j, a, i, 0);
        }
    }
    assert forall|i: int| 0 <= i < m implies #[trigger] rot_row_lines(r, m, j)[i] =~= rot_row_lines(
        w,
        m,
        0,
    )[i] by {
        assert forall|a: int| 0 <= a < m implies rot_row_lines(r, m, j)[i][a] == rot_row_lines(
            w,
            m,
            0,
        )[i][a] by {
            lemma_rotated_bit_compose(w, r, k, j, i, a, 1);
        }
    }
    assert(rot_col_lines(r, m, j) =~= rot_col_lines(w, m, 0));
    assert(rot_row_lines(r, m, j) =~= rot_row_lines(w, m, 0));
}

/// `(a + b) % m` for `a`, `b` in [0, m).
fn add_mod(a: usize, b: usize, m: usize) -> (r: usize)
    requires
        a < m,
        b < m,
    ensures
        r as int == (a + b) % (m as int),
        r < m,
{
    if a >= m - b {
        proof {
            lemma_fundamental_div_mod_converse_mod(a + b, m as int, 1, a + b - m);
        }
        a - (m - b)
    } else {
        proof {
            lemma_small_mod((a + b) as nat, m as nat);
        }
        a + b
    }
}

/// `d % m` (Euclidean), for any sign of `d`.
fn mod_len(d: i64, m: usize) -> (r: usize)
    requires
        m > 0,
    ensures
        r as int == (d as int) % (m as int),
        r < m,
{
    if d >= 0 {
        ((d as u64) % (m as u64)) as usize
    } else {
        let nd: u128 = (-(d as i128)) as u128;
        let t: u128 = nd % (m as u128);
        proof {
            let (dv, mv, tv) = (d as int, m as int, t as int);
            let q = (-dv) / mv;
            lemma_fundamental_div_mod(-dv, mv);
            if tv == 0 {
                assert(dv == (-q) * mv + 0) by (nonlinear_arith)
                    requires
                        -dv == mv * q + tv,
                        tv == 0,
                ;
                lemma_fundamental_div_mod_converse_mod(dv, mv, -q, 0);
            } else {
                assert(dv == (-q - 1) * mv + (mv - tv)) by (nonlinear_arith)
                    requires
                        -dv == mv * q + tv,
                ;
                lemma_fundamental_div_mod_converse_mod(dv, mv, -q - 1, mv - tv);
            }
        }
        if t == 0 {
            0
        } else {
            m - (t as usize)
        }
    }
}

/// `(a - b) % m` (Euclidean) for `a`, `b` in [0, m).
fn sub_mod(a: usize, b: usize, m: usize) -> (r: usize)
    requires
        a < m,
        b < m,
    ensures
        r as int == (a - b) % (m as int),
        r < m,
{
    if a >= b {
        proof {
            lemma_small_mod((a - b) as nat, m as nat);
        }
        a - b
    } else {
        proof {
            lemma_fundamental_div_mod_converse_mod(a - b, m as int, -1, a - b + m);
        }
        a + (m - b)
    }
}

/// A generalized implementation of the Anoto coding.
///
/// An instance of this struct supports encoding and decoding
/// of Anoto patterns. Given a bit-matrix of shape (M,M,2) the provided
/// methods decode:
/// - a) the position coordinate (x,y)
/// - b) the section coordinates (u,v)
/// - c) the pattern orientation
pub struct AnotoCodec {
    pub mns: Vec<i8>,
    pub mns_length: usize,
    pub mns_cyclic: Vec<i8>,
    pub mns_order: usize,
    pub sns_order: usize,
    pub sns: Vec<Vec<i8>>,
    pub sns_lengths: Vec<usize>,
    pub sns_cyclic: Vec<Vec<i8>>,
    pub num_basis: NumberBasis,
    pub crt: CRT,
    pub delta_range: (i64, i64),
}

impl AnotoCodec {
    pub open spec fn wf(&self) -> bool {
        let n = self.mns_order as int;
        let k = self.sns@.len();
        &&& n >= 2
        &&& self.mns_length == self.mns@.len()
        &&& self.mns@.len() >= n
        &&& self.mns_cyclic@ == cyclic(self.mns@, n)
        &&& self.sns_order == n - 1
        &&& self.sns_lengths@.len() == k
        &&& self.sns_cyclic@.len() == k
        &&& forall|i: int|
            0 <= i < k ==> {
                &&& #[trigger] self.sns_lengths@[i] == self.sns@[i]@.len()
                &&& self.crt.lengths@[i] as int == self.sns@[i]@.len()
                &&& self.sns@[i]@.len() >= n - 1
                &&& self.sns_cyclic@[i]@ == cyclic(self.sns@[i]@, n - 1)
            }
        &&& self.num_basis.wf()
        &&& self.num_basis.pfactors@.len() == k
        &&& self.crt.wf()
        &&& self.crt.lengths@ == lengths_of(self.sns@)
        &&& self.crt.l <= usize::MAX
        &&& self.delta_range.1 - self.delta_range.0 + 1 == self.num_basis.upper
        &&& sns_digits_valid(self.sns@, self.num_basis.pfactors@)
    }

    /// The digits read from the secondary sequences at index `t`, each sequence taken cyclically.
    pub open spec fn sns_digits(&self, t: int) -> Seq<int> {
        Seq::new(
            self.sns@.len(),
            |i: int| self.sns@[i]@[t % (self.sns@[i]@.len() as int)] as int,
        )
    }

    /// The difference between the rolls of the main sequence at indices `t` and `t + 1`.
    pub open spec fn delta_at(&self, t: int) -> int {
        self.delta_range.0 + weighted_sum(
            self.sns_digits(t),
            self.num_basis.pfactors@,
            self.sns@.len() as int,
        )
    }

    /// The sum of the differences at the indices below `t`.
    pub open spec fn delta_sum(&self, t: int) -> int
        decreases t,
    {
        if t <= 0 {
            0
        } else {
            self.delta_sum(t - 1) + self.delta_at(t - 1)
        }
    }

    /// Channel `ch` at row `y` and column `x` of the pattern of `section`.
    pub open spec fn encoded_bit(&self, section: (usize, usize), y: int, x: int, ch: int) -> i8 {
        let m = self.mns_length as int;
        if ch == 0 {
            self.mns@[(y + section.0 + self.delta_sum(x)) % m]
        } else {
            self.mns@[(x + section.1 + self.delta_sum(y)) % m]
        }
    }

    /// Where `line` stands in the cyclic main sequence.
    pub open spec fn mns_loc(&self, line: Seq<int>) -> Option<int> {
        locate(small_ints(self.mns_cyclic@), line)
    }

    pub open spec fn lines_found(&self, lines: Seq<Seq<int>>) -> bool {
        forall|l: int| 0 <= l < lines.len() ==> (#[trigger] self.mns_loc(lines[l])) is Some
    }

    /// The cyclic difference between the offsets of lines `l + 1` and `l`.
    pub open spec fn line_delta(&self, lines: Seq<Seq<int>>, l: int) -> int {
        (self.mns_loc(lines[l + 1])->Some_0 - self.mns_loc(lines[l])->Some_0) % (
        self.mns_length as int)
    }

    pub open spec fn deltas_ok(&self, lines: Seq<Seq<int>>) -> bool {
        forall|l: int|
            0 <= l < lines.len() - 1 ==> self.delta_range.0 <= #[trigger] self.line_delta(lines, l)
                <= self.delta_range.1
    }

    /// Digit `i` of each difference, the lower end of the range taken off.
    pub open spec fn digit_column(&self, lines: Seq<Seq<int>>, i: int) -> Seq<int> {
        Seq::new(
            (lines.len() - 1) as nat,
            |l: int|
                digit(
                    self.num_basis.pfactors@,
                    self.line_delta(lines, l) - self.delta_range.0,
                    i,
                ),
        )
    }

    /// Where digit column `i` stands in the `i`-th cyclic secondary sequence.
    pub open spec fn sns_loc(&self, lines: Seq<Seq<int>>, i: int) -> Option<int> {
        locate(small_ints(self.sns_cyclic@[i]@), self.digit_column(lines, i))
    }

    pub open spec fn digits_found(&self, lines: Seq<Seq<int>>) -> bool {
        forall|i: int| 0 <= i < self.sns@.len() ==> (#[trigger] self.sns_loc(lines, i)) is Some
    }

    pub open spec fn axis_remainders(&self, lines: Seq<Seq<int>>) -> Seq<i64> {
        Seq::new(self.sns@.len(), |i: int| self.sns_loc(lines, i)->Some_0 as i64)
    }

    /// The coordinate that the lines of one axis decode to, or the stage that fails.
    pub open spec fn decode_axis(&self, lines: Seq<Seq<int>>) -> Result<int, DecodeFailure> {
        if !self.lines_found(lines) {
            Err(DecodeFailure::MnsLookupMiss)
        } else if !self.deltas_ok(lines) {
            Err(DecodeFailure::OutOfRangeDelta)
        } else if !self.digits_found(lines) {
            Err(DecodeFailure::SnsLookupMiss)
        } else {
            Ok(self.crt.solution(self.axis_remainders(lines)))
        }
    }

    /// The window has at least `min` rows and columns, and two channels.
    pub open spec fn shape_ok(&self, b: &BitMatrix, min: int) -> bool {
        b.rows >= min && b.cols >= min && b.chans == 2
    }

    /// The position (x, y) that `decode_position` gives for `b`, or the stage that fails.
    pub open spec fn position_of(&self, b: &BitMatrix) -> Result<(int, int), DecodeFailure> {
        let n = self.mns_order as int;
        if !self.shape_ok(b, n) {
            Err(DecodeFailure::Shape)
        } else {
            match self.decode_axis(x_lines(b, n)) {
                Err(e) => Err(e),
                Ok(x) => match self.decode_axis(y_lines(b, n)) {
                    Err(e) => Err(e),
                    Ok(y) => Ok((x, y)),
                },
            }
        }
    }

    /// The section (u, v) that `decode_section` gives for `b` at position `pos`,
    /// or the stage that fails.
    pub open spec fn section_of(&self, b: &BitMatrix, pos: (usize, usize)) -> Result<
        (int, int),
        DecodeFailure,
    > {
        let n = self.mns_order as int;
        let m = self.mns_length as int;
        if !self.shape_ok(b, n) {
            Err(DecodeFailure::Shape)
        } else if self.mns_loc(x_lines(b, n)[0]) is None || self.mns_loc(y_lines(b, n)[0]) is None {
            Err(DecodeFailure::MnsLookupMiss)
        } else {
            let mu = self.mns_loc(x_lines(b, n)[0])->Some_0;
            let mv = self.mns_loc(y_lines(b, n)[0])->Some_0;
            Ok(
                (
                    (mu - pos.1 - self.delta_sum(pos.0 as int)) % m,
                    (mv - pos.0 - self.delta_sum(pos.1 as int)) % m,
                ),
            )
        }
    }

    /// How many of the first `upto` lines stand in the cyclic main sequence.
    pub open spec fn count_found(&self, lines: Seq<Seq<int>>, upto: int) -> int
        decreases upto,
    {
        if upto <= 0 {
            0
        } else {
            self.count_found(lines, upto - 1) + if self.mns_loc(lines[upto - 1]) is Some {
                1int
            } else {
                0int
            }
        }
    }

    /// At least half of the columns of channel 0 and half of the rows of channel 1
    /// of the `k`-fold rotation of the top-left `m` by `m` square stand in the main sequence.
    pub open spec fn rotation_passes(&self, b: &BitMatrix, m: int, k: int) -> bool {
        &&& self.count_found(rot_col_lines(b, m, k), m) >= m / 2
        &&& self.count_found(rot_row_lines(b, m, k), m) >= m / 2
    }

    /// The rotation that `decode_rotation` gives for `b`, or the stage that fails.
    pub open spec fn rotation_of(&self, b: &BitMatrix) -> Result<int, DecodeFailure> {
        let m = min_usize(b.rows, b.cols) as int;
        if b.chans != 2 || m < self.mns_order {
            Err(DecodeFailure::Shape)
        } else if self.rotation_passes(b, m, 0) {
            Ok(0)
        } else if self.rotation_passes(b, m, 1) {
            Ok(3)
        } else if self.rotation_passes(b, m, 2) {
            Ok(2)
        } else if self.rotation_passes(b, m, 3) {
            Ok(1)
        } else {
            Err(DecodeFailure::RotationUndetermined)
        }
    }

    /// Initialize the Anoto codec.
    ///
    /// # Arguments
    /// * `mns` - A binary quasi de Bruijn sequence QB(2,n,m) of order n and
    ///   length m that acts as the main number sequence (MNS).
    /// * `mns_order` - The order of the MNS.
    /// * `sns` - A list of secondary number sequences which are also
    ///   quasi de Bruijn sequences of order n-1.
    /// * `pfactors` - The sequence of prime factors to decompose difference values.
    /// * `delta_range` - A range of possible difference values (inclusive).
    pub fn new(
        mns: &[i8],
        mns_order: usize,
        sns: &[Vec<i8>],
        pfactors: &[i64],
        delta_range: (i64, i64),
    ) -> (r: Result<AnotoCodec, String>)
        requires
            all_positive(pfactors@),
            prod_prefix(pfactors@, pfactors@.len() as int) <= i64::MAX,
            forall|i: int| 0 <= i < sns@.len() ==> (#[trigger] sns@[i])@.len() <= i64::MAX,
            prod_prefix(lengths_of(sns@), sns@.len() as int) <= i64::MAX,
            prod_prefix(lengths_of(sns@), sns@.len() as int) <= usize::MAX,
        ensures
            r is Ok <==> valid_config(mns@, mns_order as int, sns@, pfactors@, delta_range),
            r is Ok ==> {
                let c = r->Ok_0;
                &&& c.wf()
                &&& c.mns@ == mns@
                &&& c.mns_order == mns_order
                &&& c.sns@.len() == sns@.len()
                &&& forall|i: int| 0 <= i < sns@.len() ==> (#[trigger] c.sns@[i])@ == sns@[i]@
                &&& c.num_basis.pfactors@ == pfactors@
                &&& c.delta_range == delta_range
            },
    {
        if mns_order < 2 {
            return Err(String::from_str("The order of the main number sequence must be at least 2."));
        }
        if mns.len() < mns_order {
            return Err(String::from_str("The main number sequence is shorter than its order."));
        }
        let sns_order = mns_order - 1;
        let mut i: usize = 0;
        while i < sns.len()
            invariant
                0 <= i <= sns@.len(),
                sns_order == mns_order - 1,
                forall|t: int| 0 <= t < i ==> (#[trigger] sns@[t])@.len() >= sns_order,
            decreases sns@.len() - i,
        {
            if sns[i].len() < sns_order {
                return Err(
                    String::from_str("A secondary number sequence is shorter than its order."),
                );
            }
            i = i + 1;
        }
        if pfactors.len() != sns.len() {
            return Err(
                String::from_str("There must be one prime factor for each secondary sequence."),
            );
        }
        let mut product: i64 = 1;
        let mut j: usize = 0;
        while j < pfactors.len()
            invariant
                all_positive(pfactors@),
                prod_prefix(pfactors@, pfactors@.len() as int) <= i64::MAX,
                0 <= j <= pfactors@.len(),
                product == prod_prefix(pfactors@, j as int),
            decreases pfactors@.len() - j,
        {
            proof {
                lemma_prod_prefix_mono(pfactors@, j + 1, pfactors@.len() as int);
            }
            product = product * pfactors[j];
            j = j + 1;
        }
        if (product as i128) != (delta_range.1 as i128) - (delta_range.0 as i128) + 1 {
            return Err(
                String::from_str("The product of the prime factors must equal the size of the delta range."),
            );
        }
        let mut t: usize = 0;
        while t < sns.len()
            invariant
                0 <= t <= sns@.len(),
                pfactors@.len() == sns@.len(),
                forall|a: int, b: int|
                    0 <= a < t && 0 <= b < sns@[a]@.len() ==> 0 <= #[trigger] sns@[a]@[b]
                        < pfactors@[a],
            decreases sns@.len() - t,
        {
            let mut u: usize = 0;
            while u < sns[t].len()
                invariant
                    0 <= t < sns@.len(),
                    pfactors@.len() == sns@.len(),
                    0 <= u <= sns@[t as int]@.len(),
                    forall|b: int|
                        0 <= b < u ==> 0 <= #[trigger] sns@[t as int]@[b] < pfactors@[t as int],
                decreases sns@[t as int]@.len() - u,
            {
                if sns[t][u] < 0 || sns[t][u] as i64 >= pfactors[t] {
                    return Err(
                        String::from_str("A secondary sequence holds a value outside its digit range."),
                    );
                }
                u = u + 1;
            }
            t = t + 1;
        }
        let mut lengths: Vec<i64> = Vec::new();
        let mut sns_lengths: Vec<usize> = Vec::new();
        let mut sns_vecs: Vec<Vec<i8>> = Vec::new();
        let mut sns_cyclic: Vec<Vec<i8>> = Vec::new();
        let mut i: usize = 0;
        while i < sns.len()
            invariant
                0 <= i <= sns@.len(),
                sns_order == mns_order - 1,
                sns_order >= 1,
                forall|t: int| 0 <= t < sns@.len() ==> (#[trigger] sns@[t])@.len() >= sns_order,
                forall|t: int| 0 <= t < sns@.len() ==> (#[trigger] sns@[t])@.len() <= i64::MAX,
                lengths@ == lengths_of(sns@).subrange(0, i as int),
                sns_lengths@.len() == i,
                sns_vecs@.len() == i,
                sns_cyclic@.len() == i,
                forall|t: int| 0 <= t < i ==> #[trigger] sns_lengths@[t] == sns@[t]@.len(),
                forall|t: int| 0 <= t < i ==> (#[trigger] sns_vecs@[t])@ == sns@[t]@,
                forall|t: int|
                    0 <= t < i ==> (#[trigger] sns_cyclic@[t])@ == cyclic(
                        sns@[t]@,
                        sns_order as int,
                    ),
            decreases sns@.len() - i,
        {
            let s = sns[i].as_slice();
            lengths.push(s.len() as i64);
            sns_lengths.push(s.len());
            sns_cyclic.push(make_cyclic(s, sns_order));
            sns_vecs.push(vstd::slice::slice_to_vec(s));
            i = i + 1;
            proof {
                assert(lengths@ =~= lengths_of(sns@).subrange(0, i as int));
            }
        }
        proof {
            assert(lengths@ =~= lengths_of(sns@));
            assert forall|t: int| 0 <= t < lengths@.len() implies #[trigger] lengths@[t] >= 1 by {
                assert(sns@[t]@.len() >= sns_order);
            }
        }
        let crt = match CRT::new(lengths.as_slice()) {
            Ok(c) => c,
            Err(e) => {
                return Err(e);
            },
        };
        let num_basis = NumberBasis::new(pfactors);
        let codec = AnotoCodec {
            mns: vstd::slice::slice_to_vec(mns),
            mns_length: mns.len(),
            mns_cyclic: make_cyclic(mns, mns_order),
            mns_order,
            sns_order,
            sns: sns_vecs,
            sns_lengths,
            sns_cyclic,
            num_basis,
            crt,
            delta_range,
        };
        proof {
            assert(codec.sns@.len() == sns@.len());
            assert forall|a: int| 0 <= a < sns@.len() implies (#[trigger] codec.sns@[a])@
                == sns@[a]@ by {
                assert(sns_vecs@[a]@ == sns@[a]@);
            }
            assert(lengths_of(codec.sns@) =~= lengths_of(sns@));
            assert forall|a: int| 0 <= a < codec.sns@.len() implies #[trigger] codec.crt.lengths@[a]
                as int == codec.sns@[a]@.len() by {
                assert(lengths@[a] == sns@[a]@.len() as i64);
            }
            assert(sns_digits_valid(codec.sns@, codec.num_basis.pfactors@));
        }
        Ok(codec)
    }

    /// The difference of rolls between index `pos` and `pos + 1`.
    pub fn delta(&self, pos: usize) -> (r: i64)
        requires
            self.wf(),
        ensures
            r == self.delta_at(pos as int),
            self.delta_range.0 <= r <= self.delta_range.1,
    {
        let ghost pf = self.num_basis.pfactors@;
        let mut coeffs: Vec<i64> = Vec::new();
        let mut i: usize = 0;
        while i < self.sns.len()
            invariant
                self.wf(),
                pf == self.num_basis.pfactors@,
                0 <= i <= self.sns@.len(),
                coeffs@.len() == i,
                forall|t: int|
                    0 <= t < i ==> #[trigger] coeffs@[t] as int == self.sns_digits(pos as int)[t],
                forall|t: int| 0 <= t < i ==> 0 <= #[trigger] coeffs@[t] < pf[t],
            decreases self.sns@.len() - i,
        {
            let len = self.sns_lengths[i];
            let idx = pos % len;
            proof {
                assert(self.sns_lengths@[i as int] == self.sns@[i as int]@.len());
                assert(self.sns_cyclic@[i as int]@[idx as int] == self.sns@[i as int]@[idx as int]);
                assert(0 <= self.sns@[i as int]@[idx as int] < pf[i as int]);
            }
            coeffs.push(self.sns_cyclic[i][idx] as i64);
            i = i + 1;
        }
        proof {
            assert(ints(coeffs@) =~= self.sns_digits(pos as int));
        }
        let v = self.num_basis.reconstruct_one(coeffs.as_slice());
        v + self.delta_range.0
    }

    /// The roll at index `pos`, given the roll `prev_roll` at index `pos - 1`
    /// (or, at index 0, the first roll itself).
    fn next_roll(&self, pos: usize, prev_roll: usize) -> (r: usize)
        requires
            self.wf(),
            prev_roll < self.mns_length,
        ensures
            r < self.mns_length,
            r as int == if pos == 0 {
                prev_roll as int
            } else {
                (prev_roll + self.delta_at(pos - 1)) % (self.mns_length as int)
            },
    {
        if pos == 0 {
            return prev_roll;
        }
        let m = self.mns_length;
        let d = self.delta(pos - 1);
        let dm = mod_len(d, m);
        let r = add_mod(prev_roll, dm, m);
        proof {
            lemma_add_mod_noop(prev_roll as int, d as int, m as int);
            lemma_small_mod(prev_roll as nat, m as nat);
        }
        r
    }

    /// The main sequence rotated so that its entry 0 is the entry at `roll`.
    fn roll_mns(&self, roll: usize) -> (r: Vec<i8>)
        requires
            self.wf(),
            roll < self.mns_length,
        ensures
            r@.len() == self.mns_length,
            forall|i: int|
                0 <= i < self.mns_length ==> #[trigger] r@[i] == self.mns@[(i + roll) % (
                self.mns_length as int)],
    {
        let m = self.mns_length;
        let mut r: Vec<i8> = Vec::new();
        let mut i: usize = 0;
        while i < m
            invariant
                self.wf(),
                m == self.mns_length,
                roll < m,
                0 <= i <= m,
                r@.len() == i,
                forall|t: int| 0 <= t < i ==> #[trigger] r@[t] == self.mns@[(t + roll) % (m as int)],
            decreases m - i,
        {
            r.push(self.mns[add_mod(i, roll, m)]);
            i = i + 1;
        }
        r
    }

    /// The rolls at indices 0..count, the roll at index 0 being `first` modulo the
    /// length of the main sequence.
    fn rolls(&self, first: usize, count: usize) -> (r: Vec<usize>)
        requires
            self.wf(),
        ensures
            r@.len() == count,
            forall|t: int|
                0 <= t < count ==> #[trigger] r@[t] as int == (first + self.delta_sum(t)) % (
                self.mns_length as int),
            forall|t: int| 0 <= t < count ==> #[trigger] r@[t] < self.mns_length,
    {
        let m = self.mns_length;
        let mut roll = first % m;
        let mut r: Vec<usize> = Vec::new();
        let mut x: usize = 0;
        while x < count
            invariant
                self.wf(),
                m == self.mns_length,
                0 <= x <= count,
                roll < m,
                roll as int == (first + self.delta_sum(if x == 0 {
                    0
                } else {
                    x - 1
                })) % (m as int),
                r@.len() == x,
                forall|t: int|
                    0 <= t < x ==> #[trigger] r@[t] as int == (first + self.delta_sum(t)) % (
                    m as int),
                forall|t: int| 0 <= t < x ==> #[trigger] r@[t] < m,
            decreases count - x,
        {
            let ghost before = roll;
            roll = self.next_roll(x, roll);
            proof {
                if x > 0 {
                    lemma_add_mod_noop(
                        first + self.delta_sum(x - 1),
                        self.delta_at(x - 1),
                        m as int,
                    );
                    lemma_mod_twice(first + self.delta_sum(x - 1), m as int);
                    lemma_mod_bound(self.delta_at(x - 1), m as int);
                    lemma_add_mod_noop(before as int, self.delta_at(x - 1), m as int);
                    lemma_small_mod(before as nat, m as nat);
                }
            }
            r.push(roll);
            x = x + 1;
        }
        r
    }

    /// Generates a (H,W,2) bitmatrix given section coordinates (u,v).
    ///
    /// # Arguments
    /// * `shape` - (H,W) pattern shape
    /// * `section` - section coordinates to use
    ///
    /// # Returns
    /// bits: (H,W,2) matrix of encoded position coordinates.
    pub fn encode_bitmatrix(&self, shape: (usize, usize), section: (usize, usize)) -> (r: BitMatrix)
        requires
            self.wf(),
        ensures
            r.wf(),
            r.rows == shape.0,
            r.cols == shape.1,
            r.chans == 2,
            forall|y: int, x: int, ch: int|
                0 <= y < shape.0 && 0 <= x < shape.1 && 0 <= ch < 2 ==> #[trigger] r.at(y, x, ch)
                    == self.encoded_bit(section, y, x, ch),
    {
        let (h, w) = shape;
        let m = self.mns_length;
        let xr = self.rolls(section.0, w);
        let yr = self.rolls(section.1, h);
        let xs = self.rolled_sequences(&xr);
        let ys = self.rolled_sequences(&yr);
        let mut cells: Vec<Vec<Vec<i8>>> = Vec::new();
        let mut y: usize = 0;
        while y < h
            invariant
                self.wf(),
                m == self.mns_length,
                xr@.len() == w,
                yr@.len() == h,
                forall|t: int|
                    0 <= t < w ==> #[trigger] xr@[t] as int == (section.0 + self.delta_sum(t)) % (
                    m as int),
                forall|t: int|
                    0 <= t < h ==> #[trigger] yr@[t] as int == (section.1 + self.delta_sum(t)) % (
                    m as int),
                xs@.len() == w,
                ys@.len() == h,
                forall|t: int| 0 <= t < w ==> (#[trigger] xs@[t])@.len() == m,
                forall|t: int| 0 <= t < h ==> (#[trigger] ys@[t])@.len() == m,
                forall|t: int, i: int|
                    0 <= t < w && 0 <= i < m ==> #[trigger] xs@[t]@[i] == self.mns@[(i + xr@[t])
                        % (m as int)],
                forall|t: int, i: int|
                    0 <= t < h && 0 <= i < m ==> #[trigger] ys@[t]@[i] == self.mns@[(i + yr@[t])
                        % (m as int)],
                0 <= y <= h,
                cells@.len() == y,
                forall|a: int| 0 <= a < y ==> (#[trigger] cells@[a])@.len() == w,
                forall|a: int, b: int|
                    0 <= a < y && 0 <= b < w ==> (#[trigger] cells@[a]@[b])@.len() == 2,
                forall|a: int, b: int, c: int|
                    0 <= a < y && 0 <= b < w && 0 <= c < 2 ==> #[trigger] cells@[a]@[b]@[c]
                        == self.encoded_bit(section, a, b, c),
            decreases h - y,
        {
            let mut row: Vec<Vec<i8>> = Vec::new();
            let mut x: usize = 0;
            while x < w
                invariant
                    self.wf(),
                    m == self.mns_length,
                    xr@.len() == w,
                    yr@.len() == h,
                    forall|t: int|
                        0 <= t < w ==> #[trigger] xr@[t] as int == (section.0 + self.delta_sum(t))
                            % (m as int),
                    forall|t: int|
                        0 <= t < h ==> #[trigger] yr@[t] as int == (section.1 + self.delta_sum(t))
                            % (m as int),
                    xs@.len() == w,
                    ys@.len() == h,
                    forall|t: int| 0 <= t < w ==> (#[trigger] xs@[t])@.len() == m,
                    forall|t: int| 0 <= t < h ==> (#[trigger] ys@[t])@.len() == m,
                    forall|t: int, i: int|
                        0 <= t < w && 0 <= i < m ==> #[trigger] xs@[t]@[i] == self.mns@[(i
                            + xr@[t]) % (m as int)],
                    forall|t: int, i: int|
                        0 <= t < h && 0 <= i < m ==> #[trigger] ys@[t]@[i] == self.mns@[(i
                            + yr@[t]) % (m as int)],
                    y < h,
                    0 <= x <= w,
                    row@.len() == x,
                    forall|b: int| 0 <= b < x ==> (#[trigger] row@[b])@.len() == 2,
                    forall|b: int, c: int|
                        0 <= b < x && 0 <= c < 2 ==> #[trigger] row@[b]@[c] == self.encoded_bit(
                            section,
                            y as int,
                            b,
                            c,
                        ),
                decreases w - x,
            {
                let i0 = y % m;
                let i1 = x % m;
                proof {
                    lemma_mod_bound(y as int, m as int);
                    lemma_mod_bound(x as int, m as int);
                    lemma_add_mod_noop(y as int, section.0 + self.delta_sum(x as int), m as int);
                    lemma_add_mod_noop(x as int, section.1 + self.delta_sum(y as int), m as int);
                    lemma_mod_twice(section.0 + self.delta_sum(x as int), m as int);
                    lemma_mod_twice(section.1 + self.delta_sum(y as int), m as int);
                }
                let mut cell: Vec<i8> = Vec::new();
                cell.push(xs[x][i0]);
                cell.push(ys[y][i1]);
                row.push(cell);
                x = x + 1;
            }
            cells.push(row);
            y = y + 1;
        }
        BitMatrix { rows: h, cols: w, chans: 2, cells }
    }

    /// For each roll, the main sequence rotated by it.
    fn rolled_sequences(&self, rolls: &Vec<usize>) -> (r: Vec<Vec<i8>>)
        requires
            self.wf(),
            forall|t: int| 0 <= t < rolls@.len() ==> #[trigger] rolls@[t] < self.mns_length,
        ensures
            r@.len() == rolls@.len(),
            forall|t: int| 0 <= t < rolls@.len() ==> (#[trigger] r@[t])@.len() == self.mns_length,
            forall|t: int, i: int|
                0 <= t < rolls@.len() && 0 <= i < self.mns_length ==> #[trigger] r@[t]@[i]
                    == self.mns@[(i + rolls@[t]) % (self.mns_length as int)],
    {
        let mut r: Vec<Vec<i8>> = Vec::new();
        let mut t: usize = 0;
        while t < rolls.len()
            invariant
                self.wf(),
                forall|a: int| 0 <= a < rolls@.len() ==> #[trigger] rolls@[a] < self.mns_length,
                0 <= t <= rolls@.len(),
                r@.len() == t,
                forall|a: int| 0 <= a < t ==> (#[trigger] r@[a])@.len() == self.mns_length,
                forall|a: int, i: int|
                    0 <= a < t && 0 <= i < self.mns_length ==> #[trigger] r@[a]@[i]
                        == self.mns@[(i + rolls@[a]) % (self.mns_length as int)],
            decreases rolls@.len() - t,
        {
            r.push(self.roll_mns(rolls[t]));
            t = t + 1;
        }
        r
    }

    /// Checks that `bits` has at least `min_size` (by default the MNS order) rows
    /// and columns, and two channels.
    pub fn assert_bitmatrix_shape(&self, bits: &BitMatrix, min_size: Option<usize>) -> (r: Result<
        (),
        DecodingError,
    >)
        ensures
            r is Ok <==> self.shape_ok(
                bits,
                match min_size {
                    Some(s) => s as int,
                    None => self.mns_order as int,
                },
            ),
            r is Err ==> r->Err_0.kind == DecodeFailure::Shape,
    {
        let min = match min_size {
            Some(s) => s,
            None => self.mns_order,
        };
        if bits.rows < min || bits.cols < min || bits.chans != 2 {
            return Err(
                DecodingError::new(
                    DecodeFailure::Shape,
                    "Expected a matrix of at least (order, order, 2) entries.",
                ),
            );
        }
        Ok(())
    }

    /// Where `seq` stands in the cyclic main sequence.
    fn find_in_mns_cyclic(&self, seq: &[i64]) -> (r: Result<usize, DecodingError>)
        requires
            self.wf(),
        ensures
            r is Ok <==> self.mns_loc(ints(seq@)) is Some,
            r is Ok ==> r->Ok_0 as int == self.mns_loc(ints(seq@))->Some_0,
            r is Err ==> r->Err_0.kind == DecodeFailure::MnsLookupMiss,
    {
        match find_subsequence(self.mns_cyclic.as_slice(), seq) {
            Some(p) => Ok(p),
            None => Err(
                DecodingError::new(
                    DecodeFailure::MnsLookupMiss,
                    "Failed to find partial sequence in MNS",
                ),
            ),
        }
    }

    /// Where `seq` stands in the `sns_idx`-th cyclic secondary sequence.
    fn find_in_sns_cyclic(&self, sns_idx: usize, seq: &[i64]) -> (r: Result<usize, DecodingError>)
        requires
            self.wf(),
            sns_idx < self.sns@.len(),
        ensures
            r is Ok <==> locate(small_ints(self.sns_cyclic@[sns_idx as int]@), ints(seq@)) is Some,
            r is Ok ==> r->Ok_0 as int == locate(
                small_ints(self.sns_cyclic@[sns_idx as int]@),
                ints(seq@),
            )->Some_0,
            r is Err ==> r->Err_0.kind == DecodeFailure::SnsLookupMiss,
    {
        match find_subsequence(self.sns_cyclic[sns_idx].as_slice(), seq) {
            Some(p) => Ok(p),
            None => Err(
                DecodingError::new(
                    DecodeFailure::SnsLookupMiss,
                    "Failed to find partial sequence in SNS",
                ),
            ),
        }
    }

    /// Decodes the coordinate of one axis from its `mns_order` lines.
    fn decode_position_along_direction(&self, lines: &Vec<Vec<i64>>) -> (r: Result<
        usize,
        DecodingError,
    >)
        requires
            self.wf(),
            lines@.len() == self.mns_order,
            forall|l: int| 0 <= l < lines@.len() ==> (#[trigger] lines@[l])@.len() == self.mns_order,
        ensures
            match r {
                Ok(v) => self.decode_axis(lines_view(lines@)) == Ok::<int, DecodeFailure>(v as int),
                Err(e) => self.decode_axis(lines_view(lines@)) == Err::<int, DecodeFailure>(e.kind),
            },
    {
        let ghost lv = lines_view(lines@);
        let n = self.mns_order;
        let m = self.mns_length;
        let mut locs: Vec<usize> = Vec::new();
        let mut c: usize = 0;
        while c < n
            invariant
                self.wf(),
                lv == lines_view(lines@),
                n == self.mns_order,
                m == self.mns_length,
                lines@.len() == n,
                forall|l: int| 0 <= l < lines@.len() ==> (#[trigger] lines@[l])@.len() == n,
                0 <= c <= n,
                locs@.len() == c,
                forall|l: int|
                    0 <= l < c ==> (#[trigger] self.mns_loc(lv[l])) == Some(locs@[l] as int),
                forall|l: int| 0 <= l < c ==> #[trigger] locs@[l] < m,
            decreases n - c,
        {
            let p = match self.find_in_mns_cyclic(lines[c].as_slice()) {
                Ok(p) => p,
                Err(e) => {
                    proof {
                        assert(lv[c as int] == ints(lines@[c as int]@));
                        assert(self.mns_loc(lv[c as int]) is None);
                    }
                    return Err(e);
                },
            };
            proof {
                assert(lv[c as int] == ints(lines@[c as int]@));
                lemma_locate_bounds(small_ints(self.mns_cyclic@), lv[c as int]);
            }
            locs.push(p);
            c = c + 1;
        }
        proof {
            lemma_prod_prefix_mono(
                self.num_basis.pfactors@,
                0,
                self.num_basis.pfactors@.len() as int,
            );
        }
        let mut shifted: Vec<i64> = Vec::new();
        let mut l: usize = 0;
        while l < n - 1
            invariant
                self.wf(),
                lv == lines_view(lines@),
                n == self.mns_order,
                m == self.mns_length,
                lv.len() == n,
                self.lines_found(lv),
                self.delta_range.0 <= self.delta_range.1,
                locs@.len() == n,
                forall|t: int| 0 <= t < n ==> (#[trigger] self.mns_loc(lv[t])) == Some(locs@[t] as int),
                forall|t: int| 0 <= t < n ==> #[trigger] locs@[t] < m,
                0 <= l <= n - 1,
                shifted@.len() == l,
                forall|t: int|
                    0 <= t < l ==> #[trigger] shifted@[t] == self.line_delta(lv, t)
                        - self.delta_range.0,
                forall|t: int|
                    0 <= t < l ==> self.delta_range.0 <= #[trigger] self.line_delta(lv, t)
                        <= self.delta_range.1,
            decreases n - 1 - l,
        {
            let d = sub_mod(locs[l + 1], locs[l], m) as i128;
            if d < self.delta_range.0 as i128 || d > self.delta_range.1 as i128 {
                proof {
                    assert(d == self.line_delta(lv, l as int));
                    assert(!self.deltas_ok(lv));
                }
                return Err(
                    DecodingError::new(
                        DecodeFailure::OutOfRangeDelta,
                        "At least one delta value is not within required range",
                    ),
                );
            }
            proof {
                assert(d == self.line_delta(lv, l as int));
            }
            shifted.push((d - self.delta_range.0 as i128) as i64);
            l = l + 1;
        }
        proof {
            assert(self.deltas_ok(lv));
        }
        let coeffs = self.num_basis.project(shifted.as_slice());
        let k = self.sns.len();
        let mut ps: Vec<i64> = Vec::new();
        let mut i: usize = 0;
        while i < k
            invariant
                self.wf(),
                lv == lines_view(lines@),
                n == self.mns_order,
                k == self.sns@.len(),
                lv.len() == n,
                self.lines_found(lv),
                self.deltas_ok(lv),
                shifted@.len() == n - 1,
                forall|t: int|
                    0 <= t < n - 1 ==> #[trigger] shifted@[t] == self.line_delta(lv, t)
                        - self.delta_range.0,
                coeffs@.len() == n - 1,
                forall|j: int|
                    0 <= j < n - 1 ==> ints(#[trigger] coeffs@[j]@) == crate::integer::digits_of(
                        self.num_basis.pfactors@,
                        shifted@[j] as int,
                    ),
                0 <= i <= k,
                ps@.len() == i,
                forall|t: int|
                    0 <= t < i ==> (#[trigger] self.sns_loc(lv, t)) == Some(ps@[t] as int),
                forall|t: int| 0 <= t < i ==> 0 <= #[trigger] ps@[t] < self.crt.lengths@[t],
            decreases k - i,
        {
            let mut column: Vec<i64> = Vec::new();
            let mut j: usize = 0;
            while j < n - 1
                invariant
                    self.wf(),
                    n == self.mns_order,
                    k == self.sns@.len(),
                    i < k,
                    coeffs@.len() == n - 1,
                    forall|a: int|
                        0 <= a < n - 1 ==> ints(#[trigger] coeffs@[a]@)
                            == crate::integer::digits_of(
                            self.num_basis.pfactors@,
                            shifted@[a] as int,
                        ),
                    0 <= j <= n - 1,
                    column@.len() == j,
                    forall|a: int|
                        0 <= a < j ==> #[trigger] column@[a] as int == crate::integer::digits_of(
                            self.num_basis.pfactors@,
                            shifted@[a] as int,
                        )[i as int],
                decreases n - 1 - j,
            {
                proof {
                    assert(ints(coeffs@[j as int]@).len() == self.sns@.len());
                }
                column.push(coeffs[j][i]);
                j = j + 1;
            }
            proof {
                assert(ints(column@) =~= self.digit_column(lv, i as int));
            }
            let p = match self.find_in_sns_cyclic(i, column.as_slice()) {
                Ok(p) => p,
                Err(e) => {
                    proof {
                        assert(self.sns_loc(lv, i as int) is None);
                        assert(!self.digits_found(lv));
                    }
                    return Err(e);
                },
            };
            proof {
                lemma_locate_bounds(small_ints(self.sns_cyclic@[i as int]@), ints(column@));
                assert(self.sns_lengths@[i as int] == self.sns@[i as int]@.len());
                assert(small_ints(self.sns_cyclic@[i as int]@).len() == self.sns@[i as int]@.len()
                    + n - 2);
                assert(p < self.crt.lengths@[i as int]);
                assert(self.sns_loc(lv, i as int) == Some(p as int));
            }
            ps.push(p as i64);
            i = i + 1;
        }
        proof {
            assert(ps@ =~= self.axis_remainders(lv));
        }
        let x = self.crt.solve(ps.as_slice());
        Ok(x as usize)
    }

    /// Decodes the (N,M,2) bitmatrix into a 2D location.
    ///
    /// The location is with respect to the section tile. Only the top-left
    /// (order, order) window is read.
    pub fn decode_position(&self, bits: &BitMatrix) -> (r: Result<(usize, usize), DecodingError>)
        requires
            self.wf(),
            bits.wf(),
        ensures
            match r {
                Ok(p) => self.position_of(bits) == Ok::<(int, int), DecodeFailure>(
                    (p.0 as int, p.1 as int),
                ),
                Err(e) => self.position_of(bits) == Err::<(int, int), DecodeFailure>(e.kind),
            },
    {
        match self.assert_bitmatrix_shape(bits, None) {
            Ok(()) => {},
            Err(e) => {
                return Err(e);
            },
        }
        let x_bits = self.lines_of(bits, 0);
        let y_bits = self.lines_of(bits, 1);
        let x = match self.decode_position_along_direction(&x_bits) {
            Ok(x) => x,
            Err(e) => {
                return Err(e);
            },
        };
        let y = match self.decode_position_along_direction(&y_bits) {
            Ok(y) => y,
            Err(e) => {
                return Err(e);
            },
        };
        Ok((x, y))
    }

    /// The lines read on one channel of the top-left window: the columns of
    /// channel 0, or the rows of channel 1.
    fn lines_of(&self, bits: &BitMatrix, ch: usize) -> (r: Vec<Vec<i64>>)
        requires
            self.wf(),
            bits.wf(),
            self.shape_ok(bits, self.mns_order as int),
            ch < 2,
        ensures
            r@.len() == self.mns_order,
            forall|l: int| 0 <= l < r@.len() ==> (#[trigger] r@[l])@.len() == self.mns_order,
            lines_view(r@) == if ch == 0 {
                x_lines(bits, self.mns_order as int)
            } else {
                y_lines(bits, self.mns_order as int)
            },
    {
        let n = self.mns_order;
        let ghost want = if ch == 0 {
            x_lines(bits, n as int)
        } else {
            y_lines(bits, n as int)
        };
        let mut r: Vec<Vec<i64>> = Vec::new();
        let mut a: usize = 0;
        while a < n
            invariant
                bits.wf(),
                self.shape_ok(bits, n as int),
                ch < 2,
                want == if ch == 0 {
                    x_lines(bits, n as int)
                } else {
                    y_lines(bits, n as int)
                },
                0 <= a <= n,
                r@.len() == a,
                forall|l: int| 0 <= l < a ==> (#[trigger] r@[l])@.len() == n,
                forall|l: int| 0 <= l < a ==> ints(#[trigger] r@[l]@) == want[l],
            decreases n - a,
        {
            let mut line: Vec<i64> = Vec::new();
            let mut b: usize = 0;
            while b < n
                invariant
                    bits.wf(),
                    self.shape_ok(bits, n as int),
                    ch < 2,
                    a < n,
                    0 <= b <= n,
                    line@.len() == b,
                    forall|t: int|
                        0 <= t < b ==> #[trigger] line@[t] as int == if ch == 0 {
                            bits.at(t, a as int, 0) as int
                        } else {
                            bits.at(a as int, t, 1) as int
                        },
                decreases n - b,
            {
                if ch == 0 {
                    line.push(bits.cells[b][a][0] as i64);
                } else {
                    line.push(bits.cells[a][b][1] as i64);
                }
                b = b + 1;
            }
            proof {
                assert(ints(line@) =~= want[a as int]);
            }
            r.push(line);
            a = a + 1;
        }
        proof {
            assert(lines_view(r@) =~= want);
        }
        r
    }

    /// The sum of the differences at the indices below `pos`, plus `first_roll`,
    /// modulo the length of the main sequence.
    fn integrate_roll(&self, pos: usize, first_roll: usize) -> (r: usize)
        requires
            self.wf(),
            first_roll < self.mns_length,
        ensures
            r as int == (first_roll + self.delta_sum(pos as int)) % (self.mns_length as int),
            r < self.mns_length,
    {
        let m = self.mns_length;
        let mut r = first_roll;
        let mut i: usize = 0;
        proof {
            lemma_small_mod(first_roll as nat, m as nat);
        }
        while i < pos
            invariant
                self.wf(),
                m == self.mns_length,
                first_roll < m,
                0 <= i <= pos,
                r < m,
                r as int == (first_roll + self.delta_sum(i as int)) % (m as int),
            decreases pos - i,
        {
            let d = self.delta(i);
            let dm = mod_len(d, m);
            let ghost before = r;
            r = add_mod(r, dm, m);
            proof {
                lemma_add_mod_noop(before as int, d as int, m as int);
                lemma_small_mod(before as nat, m as nat);
                lemma_add_mod_noop(first_roll + self.delta_sum(i as int), d as int, m as int);
                lemma_mod_twice(first_roll + self.delta_sum(i as int), m as int);
            }
            i = i + 1;
        }
        r
    }

    /// Computes the section coordinates from an observed bits matrix.
    ///
    /// # Arguments
    /// * `bits` - (M,M,2) matrix of observed bits
    /// * `pos` - position coordinates (x,y)
    ///
    /// # Returns
    /// section coordinates (u,v)
    pub fn decode_section(&self, bits: &BitMatrix, pos: (usize, usize)) -> (r: Result<
        (usize, usize),
        DecodingError,
    >)
        requires
            self.wf(),
            bits.wf(),
        ensures
            match r {
                Ok(s) => self.section_of(bits, pos) == Ok::<(int, int), DecodeFailure>(
                    (s.0 as int, s.1 as int),
                ),
                Err(e) => self.section_of(bits, pos) == Err::<(int, int), DecodeFailure>(e.kind),
            },
    {
        match self.assert_bitmatrix_shape(bits, None) {
            Ok(()) => {},
            Err(e) => {
                return Err(e);
            },
        }
        let m = self.mns_length;
        let x_bits = self.lines_of(bits, 0);
        let y_bits = self.lines_of(bits, 1);
        proof {
            assert(lines_view(x_bits@)[0] == ints(x_bits@[0]@));
            assert(lines_view(y_bits@)[0] == ints(y_bits@[0]@));
        }
        let px_mns = match self.find_in_mns_cyclic(x_bits[0].as_slice()) {
            Ok(p) => p,
            Err(e) => {
                return Err(e);
            },
        };
        let py_mns = match self.find_in_mns_cyclic(y_bits[0].as_slice()) {
            Ok(p) => p,
            Err(e) => {
                return Err(e);
            },
        };
        proof {
            lemma_locate_bounds(small_ints(self.mns_cyclic@), ints(x_bits@[0]@));
            lemma_locate_bounds(small_ints(self.mns_cyclic@), ints(y_bits@[0]@));
        }
        let sx = self.integrate_roll(pos.0, 0);
        let sy = self.integrate_roll(pos.1, 0);
        let u = sub_mod(sub_mod(px_mns, pos.1 % m, m), sx, m);
        let v = sub_mod(sub_mod(py_mns, pos.0 % m, m), sy, m);
        proof {
            let mi = m as int;
            lemma_small_mod(px_mns as nat, m as nat);
            lemma_small_mod(py_mns as nat, m as nat);
            lemma_sub_mod_noop(px_mns as int, pos.1 as int, mi);
            lemma_sub_mod_noop(py_mns as int, pos.0 as int, mi);
            lemma_sub_mod_noop(px_mns - pos.1, self.delta_sum(pos.0 as int), mi);
            lemma_sub_mod_noop(py_mns - pos.0, self.delta_sum(pos.1 as int), mi);
            lemma_mod_twice(px_mns - pos.1, mi);
            lemma_mod_twice(py_mns - pos.0, mi);
        }
        Ok((u, v))
    }

    /// Whether at least half of the columns of channel 0 and half of the rows of
    /// channel 1 of the `m` by `m` matrix `rotbits` stand in the main sequence.
    fn check_rotation(&self, rotbits: &BitMatrix, m: usize) -> (r: bool)
        requires
            self.wf(),
            rotbits.wf(),
            rotbits.rows == m,
            rotbits.cols == m,
            rotbits.chans == 2,
        ensures
            r == (self.count_found(col_lines(rotbits, m as int), m as int) >= m / 2
                && self.count_found(row_lines(rotbits, m as int), m as int) >= m / 2),
    {
        let mut xcol_correct: usize = 0;
        let mut yrow_correct: usize = 0;
        let mut i: usize = 0;
        while i < m
            invariant
                self.wf(),
                rotbits.wf(),
                rotbits.rows == m,
                rotbits.cols == m,
                rotbits.chans == 2,
                0 <= i <= m,
                xcol_correct == self.count_found(col_lines(rotbits, m as int), i as int),
                yrow_correct == self.count_found(row_lines(rotbits, m as int), i as int),
                xcol_correct <= i,
                yrow_correct <= i,
            decreases m - i,
        {
            let mut xcol: Vec<i64> = Vec::new();
            let mut ycol: Vec<i64> = Vec::new();
            let mut a: usize = 0;
            while a < m
                invariant
                    rotbits.wf(),
                    rotbits.rows == m,
                    rotbits.cols == m,
                    rotbits.chans == 2,
                    i < m,
                    0 <= a <= m,
                    xcol@.len() == a,
                    ycol@.len() == a,
                    forall|t: int| 0 <= t < a ==> #[trigger] xcol@[t] == rotbits.at(t, i as int, 0),
                    forall|t: int| 0 <= t < a ==> #[trigger] ycol@[t] == rotbits.at(i as int, t, 1),
                decreases m - a,
            {
                xcol.push(rotbits.cells[a][i][0] as i64);
                ycol.push(rotbits.cells[i][a][1] as i64);
                a = a + 1;
            }
            proof {
                assert(ints(xcol@) =~= col_lines(rotbits, m as int)[i as int]);
                assert(ints(ycol@) =~= row_lines(rotbits, m as int)[i as int]);
            }
            if self.find_in_mns_cyclic(xcol.as_slice()).is_ok() {
                xcol_correct = xcol_correct + 1;
            }
            if self.find_in_mns_cyclic(ycol.as_slice()).is_ok() {
                yrow_correct = yrow_correct + 1;
            }
            i = i + 1;
        }
        xcol_correct >= m / 2 && yrow_correct >= m / 2
    }

    /// Determines the rotation of pattern in 90° steps (ccw).
    ///
    /// Returns 0-3 where 0 is canonical orientation.
    pub fn decode_rotation(&self, bits: &BitMatrix) -> (r: Result<usize, DecodingError>)
        requires
            self.wf(),
            bits.wf(),
        ensures
            match r {
                Ok(k) => self.rotation_of(bits) == Ok::<int, DecodeFailure>(k as int),
                Err(e) => self.rotation_of(bits) == Err::<int, DecodeFailure>(e.kind),
            },
    {
        let m = if bits.rows <= bits.cols {
            bits.rows
        } else {
            bits.cols
        };
        if bits.chans != 2 || m < self.mns_order {
            return Err(
                DecodingError::new(
                    DecodeFailure::Shape,
                    "Expected a matrix of at least (order, order, 2) entries.",
                ),
            );
        }
        let square = bits.window(0, 0, m, m);
        let mut k: i32 = 0;
        while k < 4
            invariant
                self.wf(),
                bits.wf(),
                bits.chans == 2,
                m == min_usize(bits.rows, bits.cols),
                m >= self.mns_order,
                square.wf(),
                square.rows == m,
                square.cols == m,
                square.chans == 2,
                forall|i: int, j: int, c: int|
                    0 <= i < m && 0 <= j < m && 0 <= c < 2 ==> #[trigger] square.at(i, j, c)
                        == bits.at(i, j, c),
                0 <= k <= 4,
                forall|t: int| 0 <= t < k ==> !self.rotation_passes(bits, m as int, t),
            decreases 4 - k,
        {
            let rotbits = rot90(&square, k);
            proof {
                lemma_small_mod(k as nat, 4);
                assert(col_lines(&rotbits, m as int) =~= rot_col_lines(bits, m as int, k as int))
                    by {
                    assert forall|i: int| 0 <= i < m implies #[trigger] col_lines(
                        &rotbits,
                        m as int,
                    )[i] =~= rot_col_lines(bits, m as int, k as int)[i] by {
                        assert forall|a: int| 0 <= a < m implies col_lines(&rotbits, m as int)[i][a]
                            == rot_col_lines(bits, m as int, k as int)[i][a] by {
                            assert(rotbits.at(a, i, 0) as int == rotated_bit(
                                &square,
                                k as int,
                                a,
                                i,
                                0,
                            ));
                        }
                    }
                }
                assert(row_lines(&rotbits, m as int) =~= rot_row_lines(bits, m as int, k as int))
                    by {
                    assert forall|i: int| 0 <= i < m implies #[trigger] row_lines(
                        &rotbits,
                        m as int,
                    )[i] =~= rot_row_lines(bits, m as int, k as int)[i] by {
                        assert forall|c: int| 0 <= c < m implies row_lines(&rotbits, m as int)[i][c]
                            == rot_row_lines(bits, m as int, k as int)[i][c] by {
                            assert(rotbits.at(i, c, 1) as int == rotated_bit(
                                &square,
                                k as int,
                                i,
                                c,
                                1,
                            ));
                        }
                    }
                }
            }
            if self.check_rotation(&rotbits, m) {
                return Ok(((4 - k) % 4) as usize);
            }
            k = k + 1;
        }
        Err(DecodingError::new(DecodeFailure::RotationUndetermined, "Failed to determine pattern orientation."))
    }
}

} // verus!
