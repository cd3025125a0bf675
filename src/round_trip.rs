//! Decoding a window of an encoded pattern gives back its position and its section.
use vstd::prelude::*;
use vstd::arithmetic::div_mod::*;
use crate::bitmatrix::BitMatrix;
use crate::codec::{x_lines, y_lines, AnotoCodec};
use crate::exceptions::DecodeFailure;
use crate::integer::{
    digits_of,
    lemma_crt_unique,
    lemma_prod_prefix_mono,
    lemma_project_reconstruct,
    lemma_solve_residues,
    lemma_weighted_sum_bound,
    valid_digits,
    weighted_sum,
};
use crate::sequences::{cyclic_window, lemma_locate_cyclic_window, windows_unique};

verus! {

impl AnotoCodec {
    /// The main sequence and each secondary sequence have unique cyclic windows
    /// of their orders, and every admissible delta is a non-negative offset shorter
    /// than the main sequence.
    pub open spec fn quasi_de_bruijn(&self) -> bool {
        &&& windows_unique(self.mns@, self.mns_order as int)
        &&& forall|i: int|
            0 <= i < self.sns@.len() ==> windows_unique(
                #[trigger] self.sns@[i]@,
                self.mns_order - 1,
            )
        &&& 0 <= self.delta_range.0
        &&& self.delta_range.1 < self.mns_length
    }
}

proof fn lemma_delta_bounds(c: &AnotoCodec, t: int)
    requires
        c.wf(),
    ensures
        valid_digits(c.sns_digits(t), c.num_basis.pfactors@),
        c.delta_range.0 <= c.delta_at(t) <= c.delta_range.1,
{
    let pf = c.num_basis.pfactors@;
    let ds = c.sns_digits(t);
    assert forall|i: int| 0 <= i < ds.len() implies 0 <= #[trigger] ds[i] < pf[i] by {
        let len = c.sns@[i]@.len() as int;
        assert(c.sns_lengths@[i] == c.sns@[i]@.len());
        lemma_mod_bound(t, len);
        assert(0 <= c.sns@[i]@[t % len] < pf[i]);
    }
    lemma_weighted_sum_bound(ds, pf, pf.len() as int);
}

/// Lines that read the main sequence from offset `a + delta_sum(b + l)` decode to `b`.
proof fn lemma_decode_encoded_axis(c: &AnotoCodec, lines: Seq<Seq<int>>, a: int, b: int)
    requires
        c.wf(),
        c.quasi_de_bruijn(),
        0 <= b < c.crt.l,
        lines.len() == c.mns_order,
        forall|l: int|
            0 <= l < lines.len() ==> #[trigger] lines[l] == cyclic_window(
                c.mns@,
                c.mns_order as int,
                (a + c.delta_sum(b + l)) % (c.mns_length as int),
            ),
    ensures
        c.decode_axis(lines) == Ok::<int, DecodeFailure>(b),
{
    let n = c.mns_order as int;
    let m = c.mns_length as int;
    let pf = c.num_basis.pfactors@;
    assert forall|l: int| 0 <= l < n implies #[trigger] c.mns_loc(lines[l]) == Some(
        (a + c.delta_sum(b + l)) % m,
    ) by {
        lemma_mod_bound(a + c.delta_sum(b + l), m);
        lemma_locate_cyclic_window(c.mns@, n, (a + c.delta_sum(b + l)) % m);
    }
    assert(c.lines_found(lines));
    assert forall|l: int| 0 <= l < n - 1 implies #[trigger] c.line_delta(lines, l) == c.delta_at(
        b + l,
    ) by {
        let d0 = a + c.delta_sum(b + l);
        let d1 = a + c.delta_sum(b + l + 1);
        assert(c.mns_loc(lines[l]) == Some(d0 % m));
        assert(c.mns_loc(lines[l + 1]) == Some(d1 % m));
        lemma_sub_mod_noop(d1, d0, m);
        assert(d1 - d0 == c.delta_at(b + l));
        lemma_delta_bounds(c, b + l);
        lemma_small_mod(c.delta_at(b + l) as nat, m as nat);
    }
    assert forall|l: int| 0 <= l < lines.len() - 1 implies c.delta_range.0 <= #[trigger] c.line_delta(
        lines,
        l,
    ) <= c.delta_range.1 by {
        lemma_delta_bounds(c, b + l);
    }
    assert(c.deltas_ok(lines));
    let k = c.sns@.len();
    assert forall|i: int| 0 <= i < k implies #[trigger] c.sns_loc(lines, i) == Some(
        b % (c.sns@[i]@.len() as int),
    ) by {
        let li = c.sns@[i]@.len() as int;
        assert(c.sns_lengths@[i] == c.sns@[i]@.len());
        let w = cyclic_window(c.sns@[i]@, n - 1, b % li);
        assert forall|l: int| 0 <= l < n - 1 implies #[trigger] c.digit_column(lines, i)[l] == w[l] by {
            lemma_delta_bounds(c, b + l);
            lemma_project_reconstruct(c.sns_digits(b + l), pf);
            assert(digits_of(pf, weighted_sum(c.sns_digits(b + l), pf, pf.len() as int))[i]
                == c.sns_digits(b + l)[i]);
            lemma_small_mod(l as nat, li as nat);
            lemma_add_mod_noop(b, l, li);
        }
        assert(c.digit_column(lines, i) =~= w);
        lemma_mod_bound(b, li);
        lemma_locate_cyclic_window(c.sns@[i]@, n - 1, b % li);
    }
    assert(c.digits_found(lines));
    let r = c.axis_remainders(lines);
    assert forall|i: int| 0 <= i < r.len() implies 0 <= #[trigger] r[i] < c.crt.lengths@[i] by {
        let li = c.sns@[i]@.len() as int;
        assert(c.sns_lengths@[i] == c.sns@[i]@.len());
        lemma_mod_bound(b, li);
    }
    assert(c.crt.valid_remainders(r));
    lemma_solve_residues(&c.crt, r);
    lemma_prod_prefix_mono(c.crt.lengths@, 0, c.crt.lengths@.len() as int);
    lemma_mod_bound(c.crt.combination(r, k as int), c.crt.l as int);
    assert forall|i: int| 0 <= i < c.crt.lengths@.len() implies c.crt.solution(r) % (
    #[trigger] c.crt.lengths@[i] as int) == b % (c.crt.lengths@[i] as int) by {
        assert(c.sns_lengths@[i] == c.sns@[i]@.len());
    }
    lemma_crt_unique(&c.crt, c.crt.solution(r), b);
}

/// Each `n`-by-`n` window of a pattern encoded for `section` whose top-left
/// entry lies at row `y` and column `x` (both below the product of the secondary
/// lengths) decodes to the position (x, y), and to the section taken modulo the
/// length of the main sequence, where the codec's sequences have unique windows.
pub proof fn lemma_encode_decode_round_trip(
    c: &AnotoCodec,
    section: (usize, usize),
    x: int,
    y: int,
    sub: &BitMatrix,
)
    requires
        c.wf(),
        c.quasi_de_bruijn(),
        0 <= x < c.crt.l,
        0 <= y < c.crt.l,
        sub.wf(),
        sub.rows == c.mns_order,
        sub.cols == c.mns_order,
        sub.chans == 2,
        forall|i: int, j: int, ch: int|
            0 <= i < c.mns_order && 0 <= j < c.mns_order && 0 <= ch < 2 ==> #[trigger] sub.at(
                i,
                j,
                ch,
            ) == c.encoded_bit(section, y + i, x + j, ch),
    ensures
        c.position_of(sub) == Ok::<(int, int), DecodeFailure>((x, y)),
        c.section_of(sub, (x as usize, y as usize)) == Ok::<(int, int), DecodeFailure>(
            ((section.0 as int) % (c.mns_length as int), (section.1 as int) % (c.mns_length as int)),
        ),
{
    let n = c.mns_order as int;
    let m = c.mns_length as int;
    let xl = x_lines(sub, n);
    let yl = y_lines(sub, n);
    assert forall|l: int| 0 <= l < n implies #[trigger] xl[l] == cyclic_window(
        c.mns@,
        n,
        (y + section.0 + c.delta_sum(x + l)) % m,
    ) by {
        let big_a = y + section.0 + c.delta_sum(x + l);
        assert forall|i: int| 0 <= i < n implies #[trigger] xl[l][i] == cyclic_window(
            c.mns@,
            n,
            big_a % m,
        )[i] by {
            assert(sub.at(i, l, 0) == c.encoded_bit(section, y + i, x + l, 0));
            lemma_small_mod(i as nat, m as nat);
            lemma_add_mod_noop(big_a, i, m);
            assert(y + i + section.0 + c.delta_sum(x + l) == big_a + i);
        }
        assert(xl[l] =~= cyclic_window(c.mns@, n, big_a % m));
    }
    assert forall|l: int| 0 <= l < n implies #[trigger] yl[l] == cyclic_window(
        c.mns@,
        n,
        (x + section.1 + c.delta_sum(y + l)) % m,
    ) by {
        let big_a = x + section.1 + c.delta_sum(y + l);
        assert forall|j: int| 0 <= j < n implies #[trigger] yl[l][j] == cyclic_window(
            c.mns@,
            n,
            big_a % m,
        )[j] by {
            assert(sub.at(l, j, 1) == c.encoded_bit(section, y + l, x + j, 1));
            lemma_small_mod(j as nat, m as nat);
            lemma_add_mod_noop(big_a, j, m);
            assert(x + j + section.1 + c.delta_sum(y + l) == big_a + j);
        }
        assert(yl[l] =~= cyclic_window(c.mns@, n, big_a % m));
    }
    lemma_decode_encoded_axis(c, xl, y + section.0, x);
    lemma_decode_encoded_axis(c, yl, x + section.1, y);
    let au = y + section.0 + c.delta_sum(x);
    let av = x + section.1 + c.delta_sum(y);
    assert(xl[0] == cyclic_window(c.mns@, n, au % m));
    assert(yl[0] == cyclic_window(c.mns@, n, av % m));
    lemma_mod_bound(au, m);
    lemma_mod_bound(av, m);
    lemma_locate_cyclic_window(c.mns@, n, au % m);
    lemma_locate_cyclic_window(c.mns@, n, av % m);
    lemma_fundamental_div_mod(au, m);
    lemma_fundamental_div_mod(av, m);
    lemma_mod_multiples_vanish(-(au / m), section.0 as int, m);
    lemma_mod_multiples_vanish(-(av / m), section.1 as int, m);
    let (qu, ru, du) = (au / m, au % m, c.delta_sum(x));
    let (qv, rv, dv) = (av / m, av % m, c.delta_sum(y));
    let (s0, s1) = (section.0 as int, section.1 as int);
    assert(ru - y - du == m * (-qu) + s0) by (nonlinear_arith)
        requires
            au == m * qu + ru,
            au == y + s0 + du,
    ;
    assert(rv - x - dv == m * (-qv) + s1) by (nonlinear_arith)
        requires
            av == m * qv + rv,
            av == x + s1 + dv,
    ;
}

/// The top-left `n`-by-`n` window of an encoded pattern decodes to the position
/// (0, 0) and to its section (modulo the length of the main sequence), where the
/// codec's sequences have unique windows.
pub proof fn lemma_top_left_window(c: &AnotoCodec, section: (usize, usize), sub: &BitMatrix)
    requires
        c.wf(),
        c.quasi_de_bruijn(),
        sub.wf(),
        sub.rows == c.mns_order,
        sub.cols == c.mns_order,
        sub.chans == 2,
        forall|i: int, j: int, ch: int|
            0 <= i < c.mns_order && 0 <= j < c.mns_order && 0 <= ch < 2 ==> #[trigger] sub.at(
                i,
                j,
                ch,
            ) == c.encoded_bit(section, i, j, ch),
    ensures
        c.position_of(sub) == Ok::<(int, int), DecodeFailure>((0, 0)),
        c.section_of(sub, (0, 0)) == Ok::<(int, int), DecodeFailure>(
            ((section.0 as int) % (c.mns_length as int), (section.1 as int) % (c.mns_length as int)),
        ),
{
    lemma_prod_prefix_mono(c.crt.lengths@, 0, c.crt.lengths@.len() as int);
    assert forall|i: int, j: int, ch: int|
        0 <= i < c.mns_order && 0 <= j < c.mns_order && 0 <= ch < 2 implies #[trigger] sub.at(
        i,
        j,
        ch,
    ) == c.encoded_bit(section, 0 + i, 0 + j, ch) by {
        assert(0 + i == i && 0 + j == j);
    }
    lemma_encode_decode_round_trip(c, section, 0, 0, sub);
}

} // verus!
