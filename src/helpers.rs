//! Helper functions for bit manipulation and rotation.
use vstd::prelude::*;
use vstd::arithmetic::div_mod::*;
use crate::bitmatrix::BitMatrix;

verus! {

/// A channel entry read as a bit: zero is 0, anything else is 1.
pub open spec fn bit_of(x: i8) -> int {
    if x == 0 {
        0
    } else {
        1
    }
}

/// The dot-direction code of a cell: the x bit, plus twice the y bit.
pub open spec fn code_of(x: i8, y: i8) -> int {
    bit_of(x) + 2 * bit_of(y)
}

/// Channel `k` (0 or 1) of the cell whose code is `v`.
pub open spec fn unpacked(v: int, k: int) -> int {
    if k == 0 {
        v % 2
    } else {
        (v / 2) % 2
    }
}

/// Every entry of `b` is 0 or 1.
pub open spec fn is_binary(b: &BitMatrix) -> bool {
    forall|i: int, j: int, k: int|
        0 <= i < b.rows && 0 <= j < b.cols && 0 <= k < b.chans ==> #[trigger] b.at(i, j, k) == 0
            || b.at(i, j, k) == 1
}

/// The codes of a two-channel matrix, row by row.
pub open spec fn packed(b: &BitMatrix) -> Seq<Seq<int>> {
    Seq::new(
        b.rows as nat,
        |i: int| Seq::new(b.cols as nat, |j: int| code_of(b.at(i, j, 0), b.at(i, j, 1))),
    )
}

/// A grid of codes as integers.
pub open spec fn codes_view(m: Seq<Vec<u8>>) -> Seq<Seq<int>> {
    m.map_values(|row: Vec<u8>| row@.map_values(|v: u8| v as int))
}

/// Every row of `m` has `cols` entries.
pub open spec fn is_rect(m: Seq<Vec<u8>>, cols: int) -> bool {
    forall|i: int| 0 <= i < m.len() ==> (#[trigger] m[i])@.len() == cols
}

/// Maps from displacement direction d to canonical direction c.
pub open spec fn num2dir(d: int) -> int {
    if d == 0 {
        0
    } else if d == 1 {
        3
    } else if d == 2 {
        1
    } else {
        2
    }
}

/// Reverse of `num2dir`.
pub open spec fn dir2num(c: int) -> int {
    if c == 0 {
        0
    } else if c == 1 {
        2
    } else if c == 2 {
        3
    } else {
        1
    }
}

/// The code that a dot with code `d` shows after the pattern turned `k` quarter turns.
pub open spec fn turn_code(d: int, k: int) -> int {
    dir2num((num2dir(d) - k) % 4)
}

/// The shape of an `h` by `w` array after `k` quarter turns.
pub open spec fn rot_dims(h: int, w: int, k: int) -> (int, int) {
    if k % 2 == 1 {
        (w, h)
    } else {
        (h, w)
    }
}

/// The cell of an `h` by `w` array that lands at (`a`, `c`) after `k`
/// counterclockwise quarter turns, `k` in 0..4.
pub open spec fn rot_source(h: int, w: int, k: int, a: int, c: int) -> (int, int) {
    if k == 0 {
        (a, c)
    } else if k == 1 {
        (c, w - 1 - a)
    } else if k == 2 {
        (h - 1 - a, w - 1 - c)
    } else {
        (h - 1 - c, a)
    }
}

/// Entry (`a`, `c`, `ch`) of the `k`-fold rotation of `b`, symbols remapped.
pub open spec fn rotated_bit(b: &BitMatrix, k: int, a: int, c: int, ch: int) -> int {
    let (i, j) = rot_source(b.rows as int, b.cols as int, k, a, c);
    unpacked(turn_code(code_of(b.at(i, j, 0), b.at(i, j, 1)), k), ch)
}

/// `r` holds the `k`-fold rotation of `b`, `k` in 0..4, symbols remapped.
pub open spec fn is_rotation_of(r: &BitMatrix, b: &BitMatrix, k: int) -> bool {
    &&& r.wf()
    &&& r.chans == 2
    &&& (r.rows as int, r.cols as int) == rot_dims(b.rows as int, b.cols as int, k)
    &&& forall|a: int, c: int, ch: int|
        0 <= a < r.rows && 0 <= c < r.cols && 0 <= ch < 2 ==> #[trigger] r.at(a, c, ch) as int
            == rotated_bit(b, k, a, c, ch)
}

proof fn lemma_turn_compose(d: int, k: int, j: int)
    requires
        0 <= d < 4,
        0 <= k < 4,
        0 <= j < 4,
    ensures
        0 <= turn_code(d, k) < 4,
        turn_code(turn_code(d, k), j) == turn_code(d, (k + j) % 4),
{
}

proof fn lemma_source_compose(h: int, w: int, k: int, j: int, a: int, c: int)
    requires
        0 <= k < 4,
        0 <= j < 4,
    ensures
        rot_dims(rot_dims(h, w, k).0, rot_dims(h, w, k).1, j) == rot_dims(h, w, (k + j) % 4),
        ({
            let (h1, w1) = rot_dims(h, w, k);
            let (i1, j1) = rot_source(h1, w1, j, a, c);
            rot_source(h, w, k, i1, j1) == rot_source(h, w, (k + j) % 4, a, c)
        }),
{
}

/// Entry (`a`, `c`, `ch`) of the `j`-fold rotation of the `k`-fold rotation of `b`
/// is entry (`a`, `c`, `ch`) of its `(k + j) % 4`-fold rotation.
pub proof fn lemma_rotated_bit_compose(
    b: &BitMatrix,
    r1: &BitMatrix,
    k: int,
    j: int,
    a: int,
    c: int,
    ch: int,
)
    requires
        0 <= k < 4,
        0 <= j < 4,
        is_rotation_of(r1, b, k),
        0 <= a < rot_dims(r1.rows as int, r1.cols as int, j).0,
        0 <= c < rot_dims(r1.rows as int, r1.cols as int, j).1,
        0 <= ch < 2,
    ensures
        rotated_bit(r1, j, a, c, ch) == rotated_bit(b, (k + j) % 4, a, c, ch),
{
    let (h, w) = (b.rows as int, b.cols as int);
    lemma_source_compose(h, w, k, j, a, c);
    let (i1, j1) = rot_source(r1.rows as int, r1.cols as int, j, a, c);
    let (i0, j0) = rot_source(h, w, k, i1, j1);
    let d = code_of(b.at(i0, j0, 0), b.at(i0, j0, 1));
    let v = turn_code(d, k);
    lemma_turn_compose(d, k, j);
    assert(r1.at(i1, j1, 0) as int == unpacked(v, 0));
    assert(r1.at(i1, j1, 1) as int == unpacked(v, 1));
    assert(code_of(r1.at(i1, j1, 0), r1.at(i1, j1, 1)) == v);
}

/// Turning a two-channel matrix by `k` quarter turns and then by `j` more gives
/// its turn by `(k + j) % 4` quarter turns.
pub proof fn lemma_rot90_compose(b: &BitMatrix, r1: &BitMatrix, r2: &BitMatrix, k: int, j: int)
    requires
        0 <= k < 4,
        0 <= j < 4,
        is_rotation_of(r1, b, k),
        is_rotation_of(r2, r1, j),
    ensures
        is_rotation_of(r2, b, (k + j) % 4),
{
    let (h, w) = (b.rows as int, b.cols as int);
    lemma_source_compose(h, w, k, j, 0, 0);
    assert forall|a: int, c: int, ch: int|
        0 <= a < r2.rows && 0 <= c < r2.cols && 0 <= ch < 2 implies #[trigger] r2.at(a, c, ch)
        as int == rotated_bit(b, (k + j) % 4, a, c, ch) by {
        lemma_rotated_bit_compose(b, r1, k, j, a, c, ch);
    }
}

/// The rotation by no quarter turn of a binary two-channel matrix is that matrix.
pub proof fn lemma_rotation_by_zero(b: &BitMatrix, r: &BitMatrix)
    requires
        b.wf(),
        b.chans == 2,
        is_binary(b),
        is_rotation_of(r, b, 0),
    ensures
        r.rows == b.rows,
        r.cols == b.cols,
        forall|a: int, c: int, ch: int|
            0 <= a < r.rows && 0 <= c < r.cols && 0 <= ch < 2 ==> #[trigger] r.at(a, c, ch)
                == b.at(a, c, ch),
{
    assert forall|a: int, c: int, ch: int|
        0 <= a < r.rows && 0 <= c < r.cols && 0 <= ch < 2 implies #[trigger] r.at(a, c, ch)
        == b.at(a, c, ch) by {
        assert(b.at(a, c, 0) == 0 || b.at(a, c, 0) == 1);
        assert(b.at(a, c, 1) == 0 || b.at(a, c, 1) == 1);
        assert(r.at(a, c, ch) as int == rotated_bit(b, 0, a, c, ch));
    }
}

/// Packing the two channels of a binary matrix into codes, and unpacking a code,
/// gives back each entry; and unpacking a code in 0..4 and packing it again gives
/// back the code.
pub proof fn lemma_bits_num_round_trip(b: &BitMatrix, v: int)
    requires
        b.wf(),
        b.chans == 2,
        is_binary(b),
        0 <= v < 4,
    ensures
        forall|i: int, j: int, k: int|
            0 <= i < b.rows && 0 <= j < b.cols && 0 <= k < 2 ==> #[trigger] unpacked(
                packed(b)[i][j],
                k,
            ) == b.at(i, j, k),
        code_of(unpacked(v, 0) as i8, unpacked(v, 1) as i8) == v,
{
    assert forall|i: int, j: int, k: int|
        0 <= i < b.rows && 0 <= j < b.cols && 0 <= k < 2 implies #[trigger] unpacked(
        packed(b)[i][j],
        k,
    ) == b.at(i, j, k) by {
        assert(b.at(i, j, 0) == 0 || b.at(i, j, 0) == 1);
        assert(b.at(i, j, 1) == 0 || b.at(i, j, 1) == 1);
    }
}

/// Convert bit matrix to numeric representation.
///
/// Packs the bits using little-endian order.
pub fn bits_to_num(bitmatrix: &BitMatrix) -> (r: Vec<Vec<u8>>)
    requires
        bitmatrix.wf(),
        bitmatrix.chans == 2,
    ensures
        codes_view(r@) == packed(bitmatrix),
        is_rect(r@, bitmatrix.cols as int),
{
    let mut r: Vec<Vec<u8>> = Vec::new();
    let mut i: usize = 0;
    while i < bitmatrix.rows
        invariant
            bitmatrix.wf(),
            bitmatrix.chans == 2,
            0 <= i <= bitmatrix.rows,
            r@.len() == i,
            forall|a: int| 0 <= a < i ==> (#[trigger] r@[a])@.len() == bitmatrix.cols,
            forall|a: int, c: int|
                0 <= a < i && 0 <= c < bitmatrix.cols ==> #[trigger] r@[a]@[c] as int == code_of(
                    bitmatrix.at(a, c, 0),
                    bitmatrix.at(a, c, 1),
                ),
        decreases bitmatrix.rows - i,
    {
        let mut row: Vec<u8> = Vec::new();
        let mut j: usize = 0;
        while j < bitmatrix.cols
            invariant
                bitmatrix.wf(),
                bitmatrix.chans == 2,
                i < bitmatrix.rows,
                0 <= j <= bitmatrix.cols,
                row@.len() == j,
                forall|c: int|
                    0 <= c < j ==> #[trigger] row@[c] as int == code_of(
                        bitmatrix.at(i as int, c, 0),
                        bitmatrix.at(i as int, c, 1),
                    ),
            decreases bitmatrix.cols - j,
        {
            let x: u8 = if bitmatrix.cells[i][j][0] == 0 {
                0
            } else {
                1
            };
            let y: u8 = if bitmatrix.cells[i][j][1] == 0 {
                0
            } else {
                1
            };
            row.push(x + 2 * y);
            j = j + 1;
        }
        r.push(row);
        i = i + 1;
    }
    proof {
        assert forall|a: int| 0 <= a < r@.len() implies #[trigger] codes_view(r@)[a] =~= packed(
            bitmatrix,
        )[a] by {}
        assert(codes_view(r@) =~= packed(bitmatrix));
    }
    r
}

/// Unpacks a `rows` by `cols` grid of codes into a two-channel matrix.
fn unpack_codes(codes: &[Vec<u8>], rows: usize, cols: usize) -> (r: BitMatrix)
    requires
        codes@.len() == rows,
        is_rect(codes@, cols as int),
    ensures
        r.wf(),
        r.rows == rows,
        r.cols == cols,
        r.chans == 2,
        forall|i: int, j: int, k: int|
            0 <= i < rows && 0 <= j < cols && 0 <= k < 2 ==> #[trigger] r.at(i, j, k) as int
                == unpacked(codes@[i]@[j] as int, k),
{
    let mut cells: Vec<Vec<Vec<i8>>> = Vec::new();
    let mut i: usize = 0;
    while i < rows
        invariant
            codes@.len() == rows,
            is_rect(codes@, cols as int),
            0 <= i <= rows,
            cells@.len() == i,
            forall|a: int| 0 <= a < i ==> (#[trigger] cells@[a])@.len() == cols,
            forall|a: int, b: int|
                0 <= a < i && 0 <= b < cols ==> (#[trigger] cells@[a]@[b])@.len() == 2,
            forall|a: int, b: int, k: int|
                0 <= a < i && 0 <= b < cols && 0 <= k < 2 ==> #[trigger] cells@[a]@[b]@[k] as int
                    == unpacked(codes@[a]@[b] as int, k),
        decreases rows - i,
    {
        let mut row: Vec<Vec<i8>> = Vec::new();
        let mut j: usize = 0;
        while j < cols
            invariant
                codes@.len() == rows,
                is_rect(codes@, cols as int),
                i < rows,
                0 <= j <= cols,
                row@.len() == j,
                forall|b: int| 0 <= b < j ==> (#[trigger] row@[b])@.len() == 2,
                forall|b: int, k: int|
                    0 <= b < j && 0 <= k < 2 ==> #[trigger] row@[b]@[k] as int == unpacked(
                        codes@[i as int]@[b] as int,
                        k,
                    ),
            decreases cols - j,
        {
            let v = codes[i][j];
            let mut cell: Vec<i8> = Vec::new();
            cell.push((v % 2) as i8);
            cell.push(((v / 2) % 2) as i8);
            row.push(cell);
            j = j + 1;
        }
        cells.push(row);
        i = i + 1;
    }
    BitMatrix { rows, cols, chans: 2, cells }
}

/// Convert a numeric matrix of `cols` columns back to bit representation.
pub fn num_to_bits(num_matrix: &[Vec<u8>], cols: usize) -> (r: BitMatrix)
    requires
        is_rect(num_matrix@, cols as int),
    ensures
        r.wf(),
        r.rows == num_matrix@.len(),
        r.cols == cols,
        r.chans == 2,
        forall|i: int, j: int, k: int|
            0 <= i < r.rows && 0 <= j < r.cols && 0 <= k < 2 ==> #[trigger] r.at(i, j, k) as int
                == unpacked(num_matrix@[i]@[j] as int, k),
{
    unpack_codes(num_matrix, num_matrix.len(), cols)
}

/// Packing a binary two-channel matrix into codes and unpacking them, with its
/// column count, gives back a matrix of the same shape and entries; and packing
/// the unpacked form of a grid of codes in 0..4 gives back the grid.
pub proof fn lemma_pack_unpack_matrices(
    b: &BitMatrix,
    codes: Seq<Vec<u8>>,
    back: &BitMatrix,
    g: Seq<Vec<u8>>,
    unpacked_g: &BitMatrix,
    g_cols: int,
)
    requires
        b.wf(),
        b.chans == 2,
        is_binary(b),
        codes_view(codes) == packed(b),
        back.rows == codes.len(),
        back.cols == b.cols,
        back.chans == 2,
        forall|i: int, j: int, k: int|
            0 <= i < back.rows && 0 <= j < back.cols && 0 <= k < 2 ==> #[trigger] back.at(i, j, k)
                as int == unpacked(codes[i]@[j] as int, k),
        is_rect(g, g_cols),
        forall|i: int, j: int| 0 <= i < g.len() && 0 <= j < g_cols ==> #[trigger] g[i]@[j] < 4,
        unpacked_g.rows == g.len(),
        unpacked_g.cols == g_cols,
        unpacked_g.chans == 2,
        forall|i: int, j: int, k: int|
            0 <= i < unpacked_g.rows && 0 <= j < unpacked_g.cols && 0 <= k < 2
                ==> #[trigger] unpacked_g.at(i, j, k) as int == unpacked(g[i]@[j] as int, k),
    ensures
        back.rows == b.rows,
        forall|i: int, j: int, k: int|
            0 <= i < b.rows && 0 <= j < b.cols && 0 <= k < 2 ==> #[trigger] back.at(i, j, k)
                == b.at(i, j, k),
        packed(unpacked_g) == codes_view(g),
{
    assert(codes.len() == codes_view(codes).len());
    assert forall|i: int, j: int, k: int|
        0 <= i < b.rows && 0 <= j < b.cols && 0 <= k < 2 implies #[trigger] back.at(i, j, k)
        == b.at(i, j, k) by {
        assert(codes_view(codes)[i] == packed(b)[i]);
        assert(codes_view(codes)[i].len() == b.cols);
        assert(codes_view(codes)[i] == codes[i]@.map_values(|v: u8| v as int));
        assert(codes[i]@.len() == b.cols);
        assert(codes_view(codes)[i][j] == codes[i]@[j] as int);
        assert(b.at(i, j, 0) == 0 || b.at(i, j, 0) == 1);
        assert(b.at(i, j, 1) == 0 || b.at(i, j, 1) == 1);
    }
    assert forall|i: int| 0 <= i < g.len() implies #[trigger] packed(unpacked_g)[i] =~= codes_view(
        g,
    )[i] by {
        assert forall|j: int| 0 <= j < g_cols implies packed(unpacked_g)[i][j] == codes_view(g)[i][j] by {
            assert(g[i]@[j] < 4);
            assert(unpacked_g.at(i, j, 0) as int == unpacked(g[i]@[j] as int, 0));
            assert(unpacked_g.at(i, j, 1) as int == unpacked(g[i]@[j] as int, 1));
        }
    }
    assert(packed(unpacked_g) =~= codes_view(g));
}

/// Rotate a 2D array of `w` columns by k * 90 degrees counterclockwise.
pub fn rotate_array(arr: &[Vec<u8>], w: usize, k: i32) -> (r: Vec<Vec<u8>>)
    requires
        is_rect(arr@, w as int),
    ensures
        ({
            let h = arr@.len() as int;
            let kn = (k as int) % 4;
            &&& r@.len() == rot_dims(h, w as int, kn).0
            &&& is_rect(r@, rot_dims(h, w as int, kn).1)
            &&& forall|a: int, c: int|
                0 <= a < rot_dims(h, w as int, kn).0 && 0 <= c < rot_dims(h, w as int, kn).1
                    ==> #[trigger] r@[a]@[c] == arr@[rot_source(h, w as int, kn, a, c).0]@[rot_source(
                    h,
                    w as int,
                    kn,
                    a,
                    c,
                ).1]
        }),
{
    rotate_quarters(arr, arr.len(), w, quarter_turns(k))
}

fn rotate_quarters(arr: &[Vec<u8>], h: usize, w: usize, k: u8) -> (r: Vec<Vec<u8>>)
    requires
        arr@.len() == h,
        is_rect(arr@, w as int),
        k < 4,
    ensures
        r@.len() == rot_dims(h as int, w as int, k as int).0,
        is_rect(r@, rot_dims(h as int, w as int, k as int).1),
        forall|a: int, c: int|
            0 <= a < rot_dims(h as int, w as int, k as int).0 && 0 <= c < rot_dims(
                h as int,
                w as int,
                k as int,
            ).1 ==> #[trigger] r@[a]@[c] == arr@[rot_source(h as int, w as int, k as int, a, c).0]@[rot_source(
                h as int,
                w as int,
                k as int,
                a,
                c,
            ).1],
{
    let (rh, rw) = if k % 2 == 1 {
        (w, h)
    } else {
        (h, w)
    };
    let mut r: Vec<Vec<u8>> = Vec::new();
    let mut a: usize = 0;
    while a < rh
        invariant
            arr@.len() == h,
            is_rect(arr@, w as int),
            k < 4,
            (rh as int, rw as int) == rot_dims(h as int, w as int, k as int),
            0 <= a <= rh,
            r@.len() == a,
            is_rect(r@, rw as int),
            forall|x: int, c: int|
                0 <= x < a && 0 <= c < rw ==> #[trigger] r@[x]@[c] == arr@[rot_source(
                    h as int,
                    w as int,
                    k as int,
                    x,
                    c,
                ).0]@[rot_source(h as int, w as int, k as int, x, c).1],
        decreases rh - a,
    {
        let mut row: Vec<u8> = Vec::new();
        let mut c: usize = 0;
        while c < rw
            invariant
                arr@.len() == h,
                is_rect(arr@, w as int),
                k < 4,
                (rh as int, rw as int) == rot_dims(h as int, w as int, k as int),
                a < rh,
                0 <= c <= rw,
                row@.len() == c,
                forall|y: int|
                    0 <= y < c ==> #[trigger] row@[y] == arr@[rot_source(
                        h as int,
                        w as int,
                        k as int,
                        a as int,
                        y,
                    ).0]@[rot_source(h as int, w as int, k as int, a as int, y).1],
            decreases rw - c,
        {
            let v = if k == 0 {
                arr[a][c]
            } else if k == 1 {
                arr[c][w - 1 - a]
            } else if k == 2 {
                arr[h - 1 - a][w - 1 - c]
            } else {
                arr[h - 1 - c][a]
            };
            row.push(v);
            c = c + 1;
        }
        r.push(row);
        a = a + 1;
    }
    r
}

fn num2dir_exec(d: u8) -> (r: u8)
    ensures
        r as int == num2dir(d as int),
{
    if d == 0 {
        0
    } else if d == 1 {
        3
    } else if d == 2 {
        1
    } else {
        2
    }
}

fn dir2num_exec(c: u8) -> (r: u8)
    ensures
        r as int == dir2num(c as int),
{
    if c == 0 {
        0
    } else if c == 1 {
        2
    } else if c == 2 {
        3
    } else {
        1
    }
}

/// `k` modulo 4, in 0..4.
fn quarter_turns(k: i32) -> (r: u8)
    ensures
        r as int == (k as int) % 4,
        r < 4,
{
    if k >= 0 {
        (k % 4) as u8
    } else {
        let t = (-(k + 1)) % 4;
        proof {
            let d = (-(k + 1)) / 4;
            lemma_fundamental_div_mod(-(k + 1), 4);
            assert(k == (-d - 1) * 4 + (3 - t)) by (nonlinear_arith)
                requires
                    -(k + 1) == 4 * d + t,
            ;
            lemma_fundamental_div_mod_converse_mod(k as int, 4, -d - 1, 3 - t);
        }
        (3 - t) as u8
    }
}

/// Simulates 90° rotation of the bitmatrix applied k-times.
///
/// When k is positive applies a counterclockwise rotation,
/// else clockwise. Each cell's code is remapped to the direction
/// its dot shows after the turn.
pub fn rot90(bitmatrix: &BitMatrix, k: i32) -> (r: BitMatrix)
    requires
        bitmatrix.wf(),
        bitmatrix.chans == 2,
    ensures
        is_rotation_of(&r, bitmatrix, (k as int) % 4),
{
    let m = bits_to_num(bitmatrix);
    let kn = quarter_turns(k);
    let h = bitmatrix.rows;
    let w = bitmatrix.cols;
    proof {
        assert(m@.len() == codes_view(m@).len());
    }
    let m_rot = rotate_array(m.as_slice(), w, k);
    let ghost rh = rot_dims(h as int, w as int, kn as int).0;
    let ghost rw = rot_dims(h as int, w as int, kn as int).1;
    let (rows, cols) = if kn % 2 == 1 {
        (w, h)
    } else {
        (h, w)
    };
    proof {
        assert forall|x: int, c: int| 0 <= x < rh && 0 <= c < rw implies #[trigger] m_rot@[x]@[c]
            < 4 by {
            let (i, j) = rot_source(h as int, w as int, kn as int, x, c);
            assert(0 <= i < h && 0 <= j < w);
            assert(m_rot@[x]@[c] == m@[i]@[j]);
            assert(codes_view(m@)[i][j] == packed(bitmatrix)[i][j]);
            assert(codes_view(m@)[i][j] == m@[i]@[j] as int);
        }
    }
    let mut turned: Vec<Vec<u8>> = Vec::new();
    let mut a: usize = 0;
    while a < rows
        invariant
            rows == rh,
            cols == rw,
            kn < 4,
            m_rot@.len() == rh,
            is_rect(m_rot@, rw),
            forall|x: int, c: int| 0 <= x < rh && 0 <= c < rw ==> #[trigger] m_rot@[x]@[c] < 4,
            0 <= a <= rows,
            turned@.len() == a,
            is_rect(turned@, cols as int),
            forall|x: int, c: int|
                0 <= x < a && 0 <= c < cols ==> #[trigger] turned@[x]@[c] as int == turn_code(
                    m_rot@[x]@[c] as int,
                    kn as int,
                ),
        decreases rows - a,
    {
        let mut row: Vec<u8> = Vec::new();
        let mut c: usize = 0;
        while c < cols
            invariant
                rows == rh,
                cols == rw,
                kn < 4,
                m_rot@.len() == rh,
                is_rect(m_rot@, rw),
                forall|x: int, c: int| 0 <= x < rh && 0 <= c < rw ==> #[trigger] m_rot@[x]@[c] < 4,
                a < rows,
                0 <= c <= cols,
                row@.len() == c,
                forall|y: int|
                    0 <= y < c ==> #[trigger] row@[y] as int == turn_code(
                        m_rot@[a as int]@[y] as int,
                        kn as int,
                    ),
            decreases cols - c,
        {
            let d = num2dir_exec(m_rot[a][c]);
            assert(d < 4);
            let t = (d + 4 - kn) % 4;
            proof {
                lemma_mod_add_multiples_vanish(d - kn, 4);
            }
            row.push(dir2num_exec(t));
            c = c + 1;
        }
        turned.push(row);
        a = a + 1;
    }
    let r = unpack_codes(turned.as_slice(), rows, cols);
    proof {
        assert forall|x: int, c: int, ch: int|
            0 <= x < r.rows && 0 <= c < r.cols && 0 <= ch < 2 implies #[trigger] r.at(x, c, ch) as int
                == rotated_bit(bitmatrix, (k as int) % 4, x, c, ch) by {
            let (i, j) = rot_source(h as int, w as int, kn as int, x, c);
            assert(0 <= i < h && 0 <= j < w);
            assert(m_rot@[x]@[c] == m@[i]@[j]);
            assert(codes_view(m@)[i][j] == packed(bitmatrix)[i][j]);
            assert(codes_view(m@)[i][j] == m@[i]@[j] as int);
            assert(turned@[x]@[c] as int == turn_code(m_rot@[x]@[c] as int, kn as int));
        }
    }
    r
}

} // verus!
