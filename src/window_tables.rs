//! The default sequences have unique cyclic windows.
use vstd::prelude::*;
use crate::anoto_sequences::{a1_seq, a2_seq, a3_seq, a4_alt_seq, mns_seq};
use crate::sequences::{cyclic_window, windows_unique};

verus! {

/// `w[i] + base * w[i + 1] + base^2 * w[i + 2] + ...`.
pub open spec fn seq_code_from(w: Seq<int>, base: int, i: int) -> int
    decreases w.len() - i,
{
    if i < 0 || i >= w.len() {
        0
    } else {
        w[i] + base * seq_code_from(w, base, i + 1)
    }
}

/// `w[0] + base * w[1] + base^2 * w[2] + ...`.
pub open spec fn seq_code(w: Seq<int>, base: int) -> int {
    seq_code_from(w, base, 0)
}

spec fn mns_window_index(c: int) -> int {
    if c == 0 {
        0
    } else if c == 32 {
        1
    } else if c == 16 {
        2
    } else if c == 8 {
        3
    } else if c == 36 {
        4
    } else if c == 50 {
        5
    } else if c == 57 {
        6
    } else if c == 60 {
        7
    } else if c == 62 {
        8
    } else if c == 31 {
        9
    } else if c == 47 {
        10
    } else if c == 23 {
        11
    } else if c == 11 {
        12
    } else if c == 37 {
        13
    } else if c == 18 {
        14
    } else if c == 9 {
        15
    } else if c == 4 {
        16
    } else if c == 2 {
        17
    } else if c == 33 {
        18
    } else if c == 48 {
        19
    } else if c == 56 {
        20
    } else if c == 28 {
        21
    } else if c == 46 {
        22
    } else if c == 55 {
        23
    } else if c == 59 {
        24
    } else if c == 29 {
        25
    } else if c == 14 {
        26
    } else if c == 39 {
        27
    } else if c == 19 {
        28
    } else if c == 41 {
        29
    } else if c == 20 {
        30
    } else if c == 42 {
        31
    } else if c == 21 {
        32
    } else if c == 10 {
        33
    } else if c == 5 {
        34
    } else if c == 34 {
        35
    } else if c == 17 {
        36
    } else if c == 40 {
        37
    } else if c == 52 {
        38
    } else if c == 26 {
        39
    } else if c == 45 {
        40
    } else if c == 54 {
        41
    } else if c == 27 {
        42
    } else if c == 13 {
        43
    } else if c == 38 {
        44
    } else if c == 51 {
        45
    } else if c == 25 {
        46
    } else if c == 44 {
        47
    } else if c == 22 {
        48
    } else if c == 43 {
        49
    } else if c == 53 {
        50
    } else if c == 58 {
        51
    } else if c == 61 {
        52
    } else if c == 30 {
        53
    } else if c == 15 {
        54
    } else if c == 7 {
        55
    } else if c == 35 {
        56
    } else if c == 49 {
        57
    } else if c == 24 {
        58
    } else if c == 12 {
        59
    } else if c == 6 {
        60
    } else if c == 3 {
        61
    } else if c == 1 {
        62
    } else {
        -1
    }
}

#[verifier::rlimit(100)]
proof fn lemma_mns_codes_0()
    ensures
        forall|p: int|
            0 <= p < 30 ==> mns_window_index(
                #[trigger] seq_code(cyclic_window(mns_seq(), 6, p), 2),
            ) == p,
{
    let s = mns_seq();
    reveal_with_fuel(seq_code_from, 8);
    assert(cyclic_window(s, 6, 0) =~= seq![0int, 0, 0, 0, 0, 0]);
    assert(seq_code(cyclic_window(s, 6, 0), 2) == 0);
    assert(cyclic_window(s, 6, 1) =~= seq![0int, 0, 0, 0, 0, 1]);
    assert(seq_code(cyclic_window(s, 6, 1), 2) == 32);
    assert(cyclic_window(s, 6, 2) =~= seq![0int, 0, 0, 0, 1, 0]);
    assert(seq_code(cyclic_window(s, 6, 2), 2) == 16);
    assert(cyclic_window(s, 6, 3) =~= seq![0int, 0, 0, 1, 0, 0]);
    assert(seq_code(cyclic_window(s, 6, 3), 2) == 8);
    assert(cyclic_window(s, 6, 4) =~= seq![0int, 0, 1, 0, 0, 1]);
    assert(seq_code(cyclic_window(s, 6, 4), 2) == 36);
    assert(cyclic_window(s, 6, 5) =~= seq![0int, 1, 0, 0, 1, 1]);
    assert(seq_code(cyclic_window(s, 6, 5), 2) == 50);
    assert(cyclic_window(s, 6, 6) =~= seq![1int, 0, 0, 1, 1, 1]);
    assert(seq_code(cyclic_window(s, 6, 6), 2) == 57);
    assert(cyclic_window(s, 6, 7) =~= seq![0int, 0, 1, 1, 1, 1]);
    assert(seq_code(cyclic_window(s, 6, 7), 2) == 60);
    assert(cyclic_window(s, 6, 8) =~= seq![0int, 1, 1, 1, 1, 1]);
    assert(seq_code(cyclic_window(s, 6, 8), 2) == 62);
    assert(cyclic_window(s, 6, 9) =~= seq![1int, 1, 1, 1, 1, 0]);
    assert(seq_code(cyclic_window(s, 6, 9), 2) == 31);
    assert(cyclic_window(s, 6, 10) =~= seq![1int, 1, 1, 1, 0, 1]);
    assert(seq_code(cyclic_window(s, 6, 10), 2) == 47);
    assert(cyclic_window(s, 6, 11) =~= seq![1int, 1, 1, 0, 1, 0]);
    assert(seq_code(cyclic_window(s, 6, 11), 2) == 23);
    assert(cyclic_window(s, 6, 12) =~= seq![1int, 1, 0, 1, 0, 0]);
    assert(seq_code(cyclic_window(s, 6, 12), 2) == 11);
    assert(cyclic_window(s, 6, 13) =~= seq![1int, 0, 1, 0, 0, 1]);
    assert(seq_code(cyclic_window(s, 6, 13), 2) == 37);
    assert(cyclic_window(s, 6, 14) =~= seq![0int, 1, 0, 0, 1, 0]);
    assert(seq_code(cyclic_window(s, 6, 14), 2) == 18);
    assert(cyclic_window(s, 6, 15) =~= seq![1int, 0, 0, 1, 0, 0]);
    assert(seq_code(cyclic_window(s, 6, 15), 2) == 9);
    assert(cyclic_window(s, 6, 16) =~= seq![0int, 0, 1, 0, 0, 0]);
    assert(seq_code(cyclic_window(s, 6, 16), 2) == 4);
    assert(cyclic_window(s, 6, 17) =~= seq![0int, 1, 0, 0, 0, 0]);
    assert(seq_code(cyclic_window(s, 6, 17), 2) == 2);
    assert(cyclic_window(s, 6, 18) =~= seq![1int, 0, 0, 0, 0, 1]);
    assert(seq_code(cyclic_window(s, 6, 18), 2) == 33);
    assert(cyclic_window(s, 6, 19) =~= seq![0int, 0, 0, 0, 1, 1]);
    assert(seq_code(cyclic_window(s, 6, 19), 2) == 48);
    assert(cyclic_window(s, 6, 20) =~= seq![0int, 0, 0, 1, 1, 1]);
    assert(seq_code(cyclic_window(s, 6, 20), 2) == 56);
    assert(cyclic_window(s, 6, 21) =~= seq![0int, 0, 1, 1, 1, 0]);
    assert(seq_code(cyclic_window(s, 6, 21), 2) == 28);
    assert(cyclic_window(s, 6, 22) =~= seq![0int, 1, 1, 1, 0, 1]);
    assert(seq_code(cyclic_window(s, 6, 22), 2) == 46);
    assert(cyclic_window(s, 6, 23) =~= seq![1int, 1, 1, 0, 1, 1]);
    assert(seq_code(cyclic_window(s, 6, 23), 2) == 55);
    assert(cyclic_window(s, 6, 24) =~= seq![1int, 1, 0, 1, 1, 1]);
    assert(seq_code(cyclic_window(s, 6, 24), 2) == 59);
    assert(cyclic_window(s, 6, 25) =~= seq![1int, 0, 1, 1, 1, 0]);
    assert(seq_code(cyclic_window(s, 6, 25), 2) == 29);
    assert(cyclic_window(s, 6, 26) =~= seq![0int, 1, 1, 1, 0, 0]);
    assert(seq_code(cyclic_window(s, 6, 26), 2) == 14);
    assert(cyclic_window(s, 6, 27) =~= seq![1int, 1, 1, 0, 0, 1]);
    assert(seq_code(cyclic_window(s, 6, 27), 2) == 39);
    assert(cyclic_window(s, 6, 28) =~= seq![1int, 1, 0, 0, 1, 0]);
    assert(seq_code(cyclic_window(s, 6, 28), 2) == 19);
    assert(cyclic_window(s, 6, 29) =~= seq![1int, 0, 0, 1, 0, 1]);
    assert(seq_code(cyclic_window(s, 6, 29), 2) == 41);
    assert forall|p: int| 0 <= p < 30 implies mns_window_index(
        #[trigger] seq_code(cyclic_window(s, 6, p), 2),
    ) == p by {
        assert(p == 0 || p == 1 || p == 2 || p == 3 || p == 4 || p == 5 || p == 6 || p == 7 || p == 8 || p == 9 || p == 10 || p == 11 || p == 12 || p == 13 || p == 14 || p == 15 || p == 16 || p == 17 || p == 18 || p == 19 || p == 20 || p == 21 || p == 22 || p == 23 || p == 24 || p == 25 || p == 26 || p == 27 || p == 28 || p == 29);
    }
}

#[verifier::rlimit(100)]
proof fn lemma_mns_codes_1()
    ensures
        forall|p: int|
            30 <= p < 60 ==> mns_window_index(
                #[trigger] seq_code(cyclic_window(mns_seq(), 6, p), 2),
            ) == p,
{
    let s = mns_seq();
    reveal_with_fuel(seq_code_from, 8);
    assert(cyclic_window(s, 6, 30) =~= seq![0int, 0, 1, 0, 1, 0]);
    assert(seq_code(cyclic_window(s, 6, 30), 2) == 20);
    assert(cyclic_window(s, 6, 31) =~= seq![0int, 1, 0, 1, 0, 1]);
    assert(seq_code(cyclic_window(s, 6, 31), 2) == 42);
    assert(cyclic_window(s, 6, 32) =~= seq![1int, 0, 1, 0, 1, 0]);
    assert(seq_code(cyclic_window(s, 6, 32), 2) == 21);
    assert(cyclic_window(s, 6, 33) =~= seq![0int, 1, 0, 1, 0, 0]);
    assert(seq_code(cyclic_window(s, 6, 33), 2) == 10);
    assert(cyclic_window(s, 6, 34) =~= seq![1int, 0, 1, 0, 0, 0]);
    assert(seq_code(cyclic_window(s, 6, 34), 2) == 5);
    assert(cyclic_window(s, 6, 35) =~= seq![0int, 1, 0, 0, 0, 1]);
    assert(seq_code(cyclic_window(s, 6, 35), 2) == 34);
    assert(cyclic_window(s, 6, 36) =~= seq![1int, 0, 0, 0, 1, 0]);
    assert(seq_code(cyclic_window(s, 6, 36), 2) == 17);
    assert(cyclic_window(s, 6, 37) =~= seq![0int, 0, 0, 1, 0, 1]);
    assert(seq_code(cyclic_window(s, 6, 37), 2) == 40);
    assert(cyclic_window(s, 6, 38) =~= seq![0int, 0, 1, 0, 1, 1]);
    assert(seq_code(cyclic_window(s, 6, 38), 2) == 52);
    assert(cyclic_window(s, 6, 39) =~= seq![0int, 1, 0, 1, 1, 0]);
    assert(seq_code(cyclic_window(s, 6, 39), 2) == 26);
    assert(cyclic_window(s, 6, 40) =~= seq![1int, 0, 1, 1, 0, 1]);
    assert(seq_code(cyclic_window(s, 6, 40), 2) == 45);
    assert(cyclic_window(s, 6, 41) =~= seq![0int, 1, 1, 0, 1, 1]);
    assert(seq_code(cyclic_window(s, 6, 41), 2) == 54);
    assert(cyclic_window(s, 6, 42) =~= seq![1int, 1, 0, 1, 1, 0]);
    assert(seq_code(cyclic_window(s, 6, 42), 2) == 27);
    assert(cyclic_window(s, 6, 43) =~= seq![1int, 0, 1, 1, 0, 0]);
    assert(seq_code(cyclic_window(s, 6, 43), 2) == 13);
    assert(cyclic_window(s, 6, 44) =~= seq![0int, 1, 1, 0, 0, 1]);
    assert(seq_code(cyclic_window(s, 6, 44), 2) == 38);
    assert(cyclic_window(s, 6, 45) =~= seq![1int, 1, 0, 0, 1, 1]);
    assert(seq_code(cyclic_window(s, 6, 45), 2) == 51);
    assert(cyclic_window(s, 6, 46) =~= seq![1int, 0, 0, 1, 1, 0]);
    assert(seq_code(cyclic_window(s, 6, 46), 2) == 25);
    assert(cyclic_window(s, 6, 47) =~= seq![0int, 0, 1, 1, 0, 1]);
    assert(seq_code(cyclic_window(s, 6, 47), 2) == 44);
    assert(cyclic_window(s, 6, 48) =~= seq![0int, 1, 1, 0, 1, 0]);
    assert(seq_code(cyclic_window(s, 6, 48), 2) == 22);
    assert(cyclic_window(s, 6, 49) =~= seq![1int, 1, 0, 1, 0, 1]);
    assert(seq_code(cyclic_window(s, 6, 49), 2) == 43);
    assert(cyclic_window(s, 6, 50) =~= seq![1int, 0, 1, 0, 1, 1]);
    assert(seq_code(cyclic_window(s, 6, 50), 2) == 53);
    assert(cyclic_window(s, 6, 51) =~= seq![0int, 1, 0, 1, 1, 1]);
    assert(seq_code(cyclic_window(s, 6, 51), 2) == 58);
    assert(cyclic_window(s, 6, 52) =~= seq![1int, 0, 1, 1, 1, 1]);
    assert(seq_code(cyclic_window(s, 6, 52), 2) == 61);
    assert(cyclic_window(s, 6, 53) =~= seq![0int, 1, 1, 1, 1, 0]);
    assert(seq_code(cyclic_window(s, 6, 53), 2) == 30);
    assert(cyclic_window(s, 6, 54) =~= seq![1int, 1, 1, 1, 0, 0]);
    assert(seq_code(cyclic_window(s, 6, 54), 2) == 15);
    assert(cyclic_window(s, 6, 55) =~= seq![1int, 1, 1, 0, 0, 0]);
    assert(seq_code(cyclic_window(s, 6, 55), 2) == 7);
    assert(cyclic_window(s, 6, 56) =~= seq![1int, 1, 0, 0, 0, 1]);
    assert(seq_code(cyclic_window(s, 6, 56), 2) == 35);
    assert(cyclic_window(s, 6, 57) =~= seq![1int, 0, 0, 0, 1, 1]);
    assert(seq_code(cyclic_window(s, 6, 57), 2) == 49);
    assert(cyclic_window(s, 6, 58) =~= seq![0int, 0, 0, 1, 1, 0]);
    assert(seq_code(cyclic_window(s, 6, 58), 2) == 24);
    assert(cyclic_window(s, 6, 59) =~= seq![0int, 0, 1, 1, 0, 0]);
    assert(seq_code(cyclic_window(s, 6, 59), 2) == 12);
    assert forall|p: int| 30 <= p < 60 implies mns_window_index(
        #[trigger] seq_code(cyclic_window(s, 6, p), 2),
    ) == p by {
        assert(p == 30 || p == 31 || p == 32 || p == 33 || p == 34 || p == 35 || p == 36 || p == 37 || p == 38 || p == 39 || p == 40 || p == 41 || p == 42 || p == 43 || p == 44 || p == 45 || p == 46 || p == 47 || p == 48 || p == 49 || p == 50 || p == 51 || p == 52 || p == 53 || p == 54 || p == 55 || p == 56 || p == 57 || p == 58 || p == 59);
    }
}

#[verifier::rlimit(100)]
proof fn lemma_mns_codes_2()
    ensures
        forall|p: int|
            60 <= p < 63 ==> mns_window_index(
                #[trigger] seq_code(cyclic_window(mns_seq(), 6, p), 2),
            ) == p,
{
    let s = mns_seq();
    reveal_with_fuel(seq_code_from, 8);
    assert(cyclic_window(s, 6, 60) =~= seq![0int, 1, 1, 0, 0, 0]);
    assert(seq_code(cyclic_window(s, 6, 60), 2) == 6);
    assert(cyclic_window(s, 6, 61) =~= seq![1int, 1, 0, 0, 0, 0]);
    assert(seq_code(cyclic_window(s, 6, 61), 2) == 3);
    assert(cyclic_window(s, 6, 62) =~= seq![1int, 0, 0, 0, 0, 0]);
    assert(seq_code(cyclic_window(s, 6, 62), 2) == 1);
    assert forall|p: int| 60 <= p < 63 implies mns_window_index(
        #[trigger] seq_code(cyclic_window(s, 6, p), 2),
    ) == p by {
        assert(p == 60 || p == 61 || p == 62);
    }
}

/// Every cyclic window of order 6 occurs at most once in the main sequence.
pub proof fn lemma_mns_windows_unique()
    ensures
        windows_unique(mns_seq(), 6),
{
    let s = mns_seq();
    lemma_mns_codes_0();
    lemma_mns_codes_1();
    lemma_mns_codes_2();
    assert forall|p: int, q: int|
        0 <= p < s.len() && 0 <= q < s.len() && #[trigger] cyclic_window(s, 6, p)
            == #[trigger] cyclic_window(s, 6, q) implies p == q by {
        assert(mns_window_index(seq_code(cyclic_window(s, 6, p), 2)) == p);
        assert(mns_window_index(seq_code(cyclic_window(s, 6, q), 2)) == q);
    }
}

spec fn a1_window_index(c: int) -> int {
    if c == 0 {
        0
    } else if c == 81 {
        1
    } else if c == 27 {
        2
    } else if c == 9 {
        3
    } else if c == 3 {
        4
    } else if c == 1 {
        5
    } else if c == 162 {
        6
    } else if c == 54 {
        7
    } else if c == 99 {
        8
    } else if c == 33 {
        9
    } else if c == 11 {
        10
    } else if c == 84 {
        11
    } else if c == 28 {
        12
    } else if c == 90 {
        13
    } else if c == 30 {
        14
    } else if c == 10 {
        15
    } else if c == 165 {
        16
    } else if c == 55 {
        17
    } else if c == 18 {
        18
    } else if c == 6 {
        19
    } else if c == 83 {
        20
    } else if c == 108 {
        21
    } else if c == 36 {
        22
    } else if c == 12 {
        23
    } else if c == 4 {
        24
    } else if c == 82 {
        25
    } else if c == 189 {
        26
    } else if c == 63 {
        27
    } else if c == 21 {
        28
    } else if c == 88 {
        29
    } else if c == 29 {
        30
    } else if c == 171 {
        31
    } else if c == 57 {
        32
    } else if c == 19 {
        33
    } else if c == 168 {
        34
    } else if c == 56 {
        35
    } else if c == 180 {
        36
    } else if c == 60 {
        37
    } else if c == 101 {
        38
    } else if c == 114 {
        39
    } else if c == 38 {
        40
    } else if c == 93 {
        41
    } else if c == 31 {
        42
    } else if c == 91 {
        43
    } else if c == 111 {
        44
    } else if c == 37 {
        45
    } else if c == 174 {
        46
    } else if c == 58 {
        47
    } else if c == 100 {
        48
    } else if c == 195 {
        49
    } else if c == 65 {
        50
    } else if c == 102 {
        51
    } else if c == 34 {
        52
    } else if c == 92 {
        53
    } else if c == 192 {
        54
    } else if c == 64 {
        55
    } else if c == 183 {
        56
    } else if c == 142 {
        57
    } else if c == 47 {
        58
    } else if c == 15 {
        59
    } else if c == 86 {
        60
    } else if c == 109 {
        61
    } else if c == 117 {
        62
    } else if c == 39 {
        63
    } else if c == 94 {
        64
    } else if c == 112 {
        65
    } else if c == 118 {
        66
    } else if c == 120 {
        67
    } else if c == 40 {
        68
    } else if c == 175 {
        69
    } else if c == 139 {
        70
    } else if c == 46 {
        71
    } else if c == 96 {
        72
    } else if c == 32 {
        73
    } else if c == 172 {
        74
    } else if c == 138 {
        75
    } else if c == 127 {
        76
    } else if c == 42 {
        77
    } else if c == 14 {
        78
    } else if c == 85 {
        79
    } else if c == 190 {
        80
    } else if c == 144 {
        81
    } else if c == 48 {
        82
    } else if c == 97 {
        83
    } else if c == 113 {
        84
    } else if c == 199 {
        85
    } else if c == 66 {
        86
    } else if c == 22 {
        87
    } else if c == 7 {
        88
    } else if c == 164 {
        89
    } else if c == 135 {
        90
    } else if c == 45 {
        91
    } else if c == 177 {
        92
    } else if c == 59 {
        93
    } else if c == 181 {
        94
    } else if c == 141 {
        95
    } else if c == 128 {
        96
    } else if c == 123 {
        97
    } else if c == 41 {
        98
    } else if c == 13 {
        99
    } else if c == 166 {
        100
    } else if c == 136 {
        101
    } else if c == 207 {
        102
    } else if c == 69 {
        103
    } else if c == 104 {
        104
    } else if c == 115 {
        105
    } else if c == 119 {
        106
    } else if c == 201 {
        107
    } else if c == 67 {
        108
    } else if c == 184 {
        109
    } else if c == 61 {
        110
    } else if c == 20 {
        111
    } else if c == 87 {
        112
    } else if c == 110 {
        113
    } else if c == 198 {
        114
    } else if c == 147 {
        115
    } else if c == 49 {
        116
    } else if c == 16 {
        117
    } else if c == 5 {
        118
    } else if c == 163 {
        119
    } else if c == 216 {
        120
    } else if c == 72 {
        121
    } else if c == 105 {
        122
    } else if c == 35 {
        123
    } else if c == 173 {
        124
    } else if c == 219 {
        125
    } else if c == 73 {
        126
    } else if c == 24 {
        127
    } else if c == 89 {
        128
    } else if c == 191 {
        129
    } else if c == 225 {
        130
    } else if c == 75 {
        131
    } else if c == 187 {
        132
    } else if c == 62 {
        133
    } else if c == 182 {
        134
    } else if c == 222 {
        135
    } else if c == 155 {
        136
    } else if c == 51 {
        137
    } else if c == 98 {
        138
    } else if c == 194 {
        139
    } else if c == 145 {
        140
    } else if c == 210 {
        141
    } else if c == 151 {
        142
    } else if c == 50 {
        143
    } else if c == 178 {
        144
    } else if c == 140 {
        145
    } else if c == 208 {
        146
    } else if c == 150 {
        147
    } else if c == 131 {
        148
    } else if c == 43 {
        149
    } else if c == 176 {
        150
    } else if c == 220 {
        151
    } else if c == 154 {
        152
    } else if c == 213 {
        153
    } else if c == 152 {
        154
    } else if c == 212 {
        155
    } else if c == 70 {
        156
    } else if c == 185 {
        157
    } else if c == 223 {
        158
    } else if c == 74 {
        159
    } else if c == 186 {
        160
    } else if c == 224 {
        161
    } else if c == 236 {
        162
    } else if c == 78 {
        163
    } else if c == 107 {
        164
    } else if c == 116 {
        165
    } else if c == 200 {
        166
    } else if c == 228 {
        167
    } else if c == 157 {
        168
    } else if c == 133 {
        169
    } else if c == 44 {
        170
    } else if c == 95 {
        171
    } else if c == 193 {
        172
    } else if c == 226 {
        173
    } else if c == 237 {
        174
    } else if c == 241 {
        175
    } else if c == 161 {
        176
    } else if c == 215 {
        177
    } else if c == 71 {
        178
    } else if c == 23 {
        179
    } else if c == 169 {
        180
    } else if c == 218 {
        181
    } else if c == 153 {
        182
    } else if c == 132 {
        183
    } else if c == 206 {
        184
    } else if c == 149 {
        185
    } else if c == 211 {
        186
    } else if c == 232 {
        187
    } else if c == 158 {
        188
    } else if c == 52 {
        189
    } else if c == 179 {
        190
    } else if c == 221 {
        191
    } else if c == 235 {
        192
    } else if c == 240 {
        193
    } else if c == 242 {
        194
    } else if c == 80 {
        195
    } else if c == 188 {
        196
    } else if c == 143 {
        197
    } else if c == 209 {
        198
    } else if c == 231 {
        199
    } else if c == 239 {
        200
    } else if c == 160 {
        201
    } else if c == 134 {
        202
    } else if c == 125 {
        203
    } else if c == 203 {
        204
    } else if c == 148 {
        205
    } else if c == 130 {
        206
    } else if c == 205 {
        207
    } else if c == 68 {
        208
    } else if c == 103 {
        209
    } else if c == 196 {
        210
    } else if c == 227 {
        211
    } else if c == 156 {
        212
    } else if c == 214 {
        213
    } else if c == 233 {
        214
    } else if c == 77 {
        215
    } else if c == 106 {
        216
    } else if c == 197 {
        217
    } else if c == 146 {
        218
    } else if c == 129 {
        219
    } else if c == 124 {
        220
    } else if c == 122 {
        221
    } else if c == 202 {
        222
    } else if c == 229 {
        223
    } else if c == 238 {
        224
    } else if c == 79 {
        225
    } else if c == 26 {
        226
    } else if c == 170 {
        227
    } else if c == 137 {
        228
    } else if c == 126 {
        229
    } else if c == 204 {
        230
    } else if c == 230 {
        231
    } else if c == 76 {
        232
    } else if c == 25 {
        233
    } else if c == 8 {
        234
    } else if c == 2 {
        235
    } else {
        -1
    }
}

#[verifier::rlimit(100)]
proof fn lemma_a1_codes_0()
    ensures
        forall|p: int|
            0 <= p < 30 ==> a1_window_index(
                #[trigger] seq_code(cyclic_window(a1_seq(), 5, p), 3),
            ) == p,
{
    let s = a1_seq();
    reveal_with_fuel(seq_code_from, 7);
    assert(cyclic_window(s, 5, 0) =~= seq![0int, 0, 0, 0, 0]);
    assert(seq_code(cyclic_window(s, 5, 0), 3) == 0);
    assert(cyclic_window(s, 5, 1) =~= seq![0int, 0, 0, 0, 1]);
    assert(seq_code(cyclic_window(s, 5, 1), 3) == 81);
    assert(cyclic_window(s, 5, 2) =~= seq![0int, 0, 0, 1, 0]);
    assert(seq_code(cyclic_window(s, 5, 2), 3) == 27);
    assert(cyclic_window(s, 5, 3) =~= seq![0int, 0, 1, 0, 0]);
    assert(seq_code(cyclic_window(s, 5, 3), 3) == 9);
    assert(cyclic_window(s, 5, 4) =~= seq![0int, 1, 0, 0, 0]);
    assert(seq_code(cyclic_window(s, 5, 4), 3) == 3);
    assert(cyclic_window(s, 5, 5) =~= seq![1int, 0, 0, 0, 0]);
    assert(seq_code(cyclic_window(s, 5, 5), 3) == 1);
    assert(cyclic_window(s, 5, 6) =~= seq![0int, 0, 0, 0, 2]);
    assert(seq_code(cyclic_window(s, 5, 6), 3) == 162);
    assert(cyclic_window(s, 5, 7) =~= seq![0int, 0, 0, 2, 0]);
    assert(seq_code(cyclic_window(s, 5, 7), 3) == 54);
    assert(cyclic_window(s, 5, 8) =~= seq![0int, 0, 2, 0, 1]);
    assert(seq_code(cyclic_window(s, 5, 8), 3) == 99);
    assert(cyclic_window(s, 5, 9) =~= seq![0int, 2, 0, 1, 0]);
    assert(seq_code(cyclic_window(s, 5, 9), 3) == 33);
    assert(cyclic_window(s, 5, 10) =~= seq![2int, 0, 1, 0, 0]);
    assert(seq_code(cyclic_window(s, 5, 10), 3) == 11);
    assert(cyclic_window(s, 5, 11) =~= seq![0int, 1, 0, 0, 1]);
    assert(seq_code(cyclic_window(s, 5, 11), 3) == 84);
    assert(cyclic_window(s, 5, 12) =~= seq![1int, 0, 0, 1, 0]);
    assert(seq_code(cyclic_window(s, 5, 12), 3) == 28);
    assert(cyclic_window(s, 5, 13) =~= seq![0int, 0, 1, 0, 1]);
    assert(seq_code(cyclic_window(s, 5, 13), 3) == 90);
    assert(cyclic_window(s, 5, 14) =~= seq![0int, 1, 0, 1, 0]);
    assert(seq_code(cyclic_window(s, 5, 14), 3) == 30);
    assert(cyclic_window(s, 5, 15) =~= seq![1int, 0, 1, 0, 0]);
    assert(seq_code(cyclic_window(s, 5, 15), 3) == 10);
    assert(cyclic_window(s, 5, 16) =~= seq![0int, 1, 0, 0, 2]);
    assert(seq_code(cyclic_window(s, 5, 16), 3) == 165);
    assert(cyclic_window(s, 5, 17) =~= seq![1int, 0, 0, 2, 0]);
    assert(seq_code(cyclic_window(s, 5, 17), 3) == 55);
    assert(cyclic_window(s, 5, 18) =~= seq![0int, 0, 2, 0, 0]);
    assert(seq_code(cyclic_window(s, 5, 18), 3) == 18);
    assert(cyclic_window(s, 5, 19) =~= seq![0int, 2, 0, 0, 0]);
    assert(seq_code(cyclic_window(s, 5, 19), 3) == 6);
    assert(cyclic_window(s, 5, 20) =~= seq![2int, 0, 0, 0, 1]);
    assert(seq_code(cyclic_window(s, 5, 20), 3) == 83);
    assert(cyclic_window(s, 5, 21) =~= seq![0int, 0, 0, 1, 1]);
    assert(seq_code(cyclic_window(s, 5, 21), 3) == 108);
    assert(cyclic_window(s, 5, 22) =~= seq![0int, 0, 1, 1, 0]);
    assert(seq_code(cyclic_window(s, 5, 22), 3) == 36);
    assert(cyclic_window(s, 5, 23) =~= seq![0int, 1, 1, 0, 0]);
    assert(seq_code(cyclic_window(s, 5, 23), 3) == 12);
    assert(cyclic_window(s, 5, 24) =~= seq![1int, 1, 0, 0, 0]);
    assert(seq_code(cyclic_window(s, 5, 24), 3) == 4);
    assert(cyclic_window(s, 5, 25) =~= seq![1int, 0, 0, 0, 1]);
    assert(seq_code(cyclic_window(s, 5, 25), 3) == 82);
    assert(cyclic_window(s, 5, 26) =~= seq![0int, 0, 0, 1, 2]);
    assert(seq_code(cyclic_window(s, 5, 26), 3) == 189);
    assert(cyclic_window(s, 5, 27) =~= seq![0int, 0, 1, 2, 0]);
    assert(seq_code(cyclic_window(s, 5, 27), 3) == 63);
    assert(cyclic_window(s, 5, 28) =~= seq![0int, 1, 2, 0, 0]);
    assert(seq_code(cyclic_window(s, 5, 28), 3) == 21);
    assert(cyclic_window(s, 5, 29) =~= seq![1int, 2, 0, 0, 1]);
    assert(seq_code(cyclic_window(s, 5, 29), 3) == 88);
    assert forall|p: int| 0 <= p < 30 implies a1_window_index(
        #[trigger] seq_code(cyclic_window(s, 5, p), 3),
    ) == p by {
        assert(p == 0 || p == 1 || p == 2 || p == 3 || p == 4 || p == 5 || p == 6 || p == 7 || p == 8 || p == 9 || p == 10 || p == 11 || p == 12 || p == 13 || p == 14 || p == 15 || p == 16 || p == 17 || p == 18 || p == 19 || p == 20 || p == 21 || p == 22 || p == 23 || p == 24 || p == 25 || p == 26 || p == 27 || p == 28 || p == 29);
    }
}

#[verifier::rlimit(100)]
proof fn lemma_a1_codes_1()
    ensures
        forall|p: int|
            30 <= p < 60 ==> a1_window_index(
                #[trigger] seq_code(cyclic_window(a1_seq(), 5, p), 3),
            ) == p,
{
    let s = a1_seq();
    reveal_with_fuel(seq_code_from, 7);
    assert(cyclic_window(s, 5, 30) =~= seq![2int, 0, 0, 1, 0]);
    assert(seq_code(cyclic_window(s, 5, 30), 3) == 29);
    assert(cyclic_window(s, 5, 31) =~= seq![0int, 0, 1, 0, 2]);
    assert(seq_code(cyclic_window(s, 5, 31), 3) == 171);
    assert(cyclic_window(s, 5, 32) =~= seq![0int, 1, 0, 2, 0]);
    assert(seq_code(cyclic_window(s, 5, 32), 3) == 57);
    assert(cyclic_window(s, 5, 33) =~= seq![1int, 0, 2, 0, 0]);
    assert(seq_code(cyclic_window(s, 5, 33), 3) == 19);
    assert(cyclic_window(s, 5, 34) =~= seq![0int, 2, 0, 0, 2]);
    assert(seq_code(cyclic_window(s, 5, 34), 3) == 168);
    assert(cyclic_window(s, 5, 35) =~= seq![2int, 0, 0, 2, 0]);
    assert(seq_code(cyclic_window(s, 5, 35), 3) == 56);
    assert(cyclic_window(s, 5, 36) =~= seq![0int, 0, 2, 0, 2]);
    assert(seq_code(cyclic_window(s, 5, 36), 3) == 180);
    assert(cyclic_window(s, 5, 37) =~= seq![0int, 2, 0, 2, 0]);
    assert(seq_code(cyclic_window(s, 5, 37), 3) == 60);
    assert(cyclic_window(s, 5, 38) =~= seq![2int, 0, 2, 0, 1]);
    assert(seq_code(cyclic_window(s, 5, 38), 3) == 101);
    assert(cyclic_window(s, 5, 39) =~= seq![0int, 2, 0, 1, 1]);
    assert(seq_code(cyclic_window(s, 5, 39), 3) == 114);
    assert(cyclic_window(s, 5, 40) =~= seq![2int, 0, 1, 1, 0]);
    assert(seq_code(cyclic_window(s, 5, 40), 3) == 38);
    assert(cyclic_window(s, 5, 41) =~= seq![0int, 1, 1, 0, 1]);
    assert(seq_code(cyclic_window(s, 5, 41), 3) == 93);
    assert(cyclic_window(s, 5, 42) =~= seq![1int, 1, 0, 1, 0]);
    assert(seq_code(cyclic_window(s, 5, 42), 3) == 31);
    assert(cyclic_window(s, 5, 43) =~= seq![1int, 0, 1, 0, 1]);
    assert(seq_code(cyclic_window(s, 5, 43), 3) == 91);
    assert(cyclic_window(s, 5, 44) =~= seq![0int, 1, 0, 1, 1]);
    assert(seq_code(cyclic_window(s, 5, 44), 3) == 111);
    assert(cyclic_window(s, 5, 45) =~= seq![1int, 0, 1, 1, 0]);
    assert(seq_code(cyclic_window(s, 5, 45), 3) == 37);
    assert(cyclic_window(s, 5, 46) =~= seq![0int, 1, 1, 0, 2]);
    assert(seq_code(cyclic_window(s, 5, 46), 3) == 174);
    assert(cyclic_window(s, 5, 47) =~= seq![1int, 1, 0, 2, 0]);
    assert(seq_code(cyclic_window(s, 5, 47), 3) == 58);
    assert(cyclic_window(s, 5, 48) =~= seq![1int, 0, 2, 0, 1]);
    assert(seq_code(cyclic_window(s, 5, 48), 3) == 100);
    assert(cyclic_window(s, 5, 49) =~= seq![0int, 2, 0, 1, 2]);
    assert(seq_code(cyclic_window(s, 5, 49), 3) == 195);
    assert(cyclic_window(s, 5, 50) =~= seq![2int, 0, 1, 2, 0]);
    assert(seq_code(cyclic_window(s, 5, 50), 3) == 65);
    assert(cyclic_window(s, 5, 51) =~= seq![0int, 1, 2, 0, 1]);
    assert(seq_code(cyclic_window(s, 5, 51), 3) == 102);
    assert(cyclic_window(s, 5, 52) =~= seq![1int, 2, 0, 1, 0]);
    assert(seq_code(cyclic_window(s, 5, 52), 3) == 34);
    assert(cyclic_window(s, 5, 53) =~= seq![2int, 0, 1, 0, 1]);
    assert(seq_code(cyclic_window(s, 5, 53), 3) == 92);
    assert(cyclic_window(s, 5, 54) =~= seq![0int, 1, 0, 1, 2]);
    assert(seq_code(cyclic_window(s, 5, 54), 3) == 192);
    assert(cyclic_window(s, 5, 55) =~= seq![1int, 0, 1, 2, 0]);
    assert(seq_code(cyclic_window(s, 5, 55), 3) == 64);
    assert(cyclic_window(s, 5, 56) =~= seq![0int, 1, 2, 0, 2]);
    assert(seq_code(cyclic_window(s, 5, 56), 3) == 183);
    assert(cyclic_window(s, 5, 57) =~= seq![1int, 2, 0, 2, 1]);
    assert(seq_code(cyclic_window(s, 5, 57), 3) == 142);
    assert(cyclic_window(s, 5, 58) =~= seq![2int, 0, 2, 1, 0]);
    assert(seq_code(cyclic_window(s, 5, 58), 3) == 47);
    assert(cyclic_window(s, 5, 59) =~= seq![0int, 2, 1, 0, 0]);
    assert(seq_code(cyclic_window(s, 5, 59), 3) == 15);
    assert forall|p: int| 30 <= p < 60 implies a1_window_index(
        #[trigger] seq_code(cyclic_window(s, 5, p), 3),
    ) == p by {
        assert(p == 30 || p == 31 || p == 32 || p == 33 || p == 34 || p == 35 || p == 36 || p == 37 || p == 38 || p == 39 || p == 40 || p == 41 || p == 42 || p == 43 || p == 44 || p == 45 || p == 46 || p == 47 || p == 48 || p == 49 || p == 50 || p == 51 || p == 52 || p == 53 || p == 54 || p == 55 || p == 56 || p == 57 || p == 58 || p == 59);
    }
}

#[verifier::rlimit(100)]
proof fn lemma_a1_codes_2()
    ensures
        forall|p: int|
            60 <= p < 90 ==> a1_window_index(
                #[trigger] seq_code(cyclic_window(a1_seq(), 5, p), 3),
            ) == p,
{
    let s = a1_seq();
    reveal_with_fuel(seq_code_from, 7);
    assert(cyclic_window(s, 5, 60) =~= seq![2int, 1, 0, 0, 1]);
    assert(seq_code(cyclic_window(s, 5, 60), 3) == 86);
    assert(cyclic_window(s, 5, 61) =~= seq![1int, 0, 0, 1, 1]);
    assert(seq_code(cyclic_window(s, 5, 61), 3) == 109);
    assert(cyclic_window(s, 5, 62) =~= seq![0int, 0, 1, 1, 1]);
    assert(seq_code(cyclic_window(s, 5, 62), 3) == 117);
    assert(cyclic_window(s, 5, 63) =~= seq![0int, 1, 1, 1, 0]);
    assert(seq_code(cyclic_window(s, 5, 63), 3) == 39);
    assert(cyclic_window(s, 5, 64) =~= seq![1int, 1, 1, 0, 1]);
    assert(seq_code(cyclic_window(s, 5, 64), 3) == 94);
    assert(cyclic_window(s, 5, 65) =~= seq![1int, 1, 0, 1, 1]);
    assert(seq_code(cyclic_window(s, 5, 65), 3) == 112);
    assert(cyclic_window(s, 5, 66) =~= seq![1int, 0, 1, 1, 1]);
    assert(seq_code(cyclic_window(s, 5, 66), 3) == 118);
    assert(cyclic_window(s, 5, 67) =~= seq![0int, 1, 1, 1, 1]);
    assert(seq_code(cyclic_window(s, 5, 67), 3) == 120);
    assert(cyclic_window(s, 5, 68) =~= seq![1int, 1, 1, 1, 0]);
    assert(seq_code(cyclic_window(s, 5, 68), 3) == 40);
    assert(cyclic_window(s, 5, 69) =~= seq![1int, 1, 1, 0, 2]);
    assert(seq_code(cyclic_window(s, 5, 69), 3) == 175);
    assert(cyclic_window(s, 5, 70) =~= seq![1int, 1, 0, 2, 1]);
    assert(seq_code(cyclic_window(s, 5, 70), 3) == 139);
    assert(cyclic_window(s, 5, 71) =~= seq![1int, 0, 2, 1, 0]);
    assert(seq_code(cyclic_window(s, 5, 71), 3) == 46);
    assert(cyclic_window(s, 5, 72) =~= seq![0int, 2, 1, 0, 1]);
    assert(seq_code(cyclic_window(s, 5, 72), 3) == 96);
    assert(cyclic_window(s, 5, 73) =~= seq![2int, 1, 0, 1, 0]);
    assert(seq_code(cyclic_window(s, 5, 73), 3) == 32);
    assert(cyclic_window(s, 5, 74) =~= seq![1int, 0, 1, 0, 2]);
    assert(seq_code(cyclic_window(s, 5, 74), 3) == 172);
    assert(cyclic_window(s, 5, 75) =~= seq![0int, 1, 0, 2, 1]);
    assert(seq_code(cyclic_window(s, 5, 75), 3) == 138);
    assert(cyclic_window(s, 5, 76) =~= seq![1int, 0, 2, 1, 1]);
    assert(seq_code(cyclic_window(s, 5, 76), 3) == 127);
    assert(cyclic_window(s, 5, 77) =~= seq![0int, 2, 1, 1, 0]);
    assert(seq_code(cyclic_window(s, 5, 77), 3) == 42);
    assert(cyclic_window(s, 5, 78) =~= seq![2int, 1, 1, 0, 0]);
    assert(seq_code(cyclic_window(s, 5, 78), 3) == 14);
    assert(cyclic_window(s, 5, 79) =~= seq![1int, 1, 0, 0, 1]);
    assert(seq_code(cyclic_window(s, 5, 79), 3) == 85);
    assert(cyclic_window(s, 5, 80) =~= seq![1int, 0, 0, 1, 2]);
    assert(seq_code(cyclic_window(s, 5, 80), 3) == 190);
    assert(cyclic_window(s, 5, 81) =~= seq![0int, 0, 1, 2, 1]);
    assert(seq_code(cyclic_window(s, 5, 81), 3) == 144);
    assert(cyclic_window(s, 5, 82) =~= seq![0int, 1, 2, 1, 0]);
    assert(seq_code(cyclic_window(s, 5, 82), 3) == 48);
    assert(cyclic_window(s, 5, 83) =~= seq![1int, 2, 1, 0, 1]);
    assert(seq_code(cyclic_window(s, 5, 83), 3) == 97);
    assert(cyclic_window(s, 5, 84) =~= seq![2int, 1, 0, 1, 1]);
    assert(seq_code(cyclic_window(s, 5, 84), 3) == 113);
    assert(cyclic_window(s, 5, 85) =~= seq![1int, 0, 1, 1, 2]);
    assert(seq_code(cyclic_window(s, 5, 85), 3) == 199);
    assert(cyclic_window(s, 5, 86) =~= seq![0int, 1, 1, 2, 0]);
    assert(seq_code(cyclic_window(s, 5, 86), 3) == 66);
    assert(cyclic_window(s, 5, 87) =~= seq![1int, 1, 2, 0, 0]);
    assert(seq_code(cyclic_window(s, 5, 87), 3) == 22);
    assert(cyclic_window(s, 5, 88) =~= seq![1int, 2, 0, 0, 0]);
    assert(seq_code(cyclic_window(s, 5, 88), 3) == 7);
    assert(cyclic_window(s, 5, 89) =~= seq![2int, 0, 0, 0, 2]);
    assert(seq_code(cyclic_window(s, 5, 89), 3) == 164);
    assert forall|p: int| 60 <= p < 90 implies a1_window_index(
        #[trigger] seq_code(cyclic_window(s, 5, p), 3),
    ) == p by {
        assert(p == 60 || p == 61 || p == 62 || p == 63 || p == 64 || p == 65 || p == 66 || p == 67 || p == 68 || p == 69 || p == 70 || p == 71 || p == 72 || p == 73 || p == 74 || p == 75 || p == 76 || p == 77 || p == 78 || p == 79 || p == 80 || p == 81 || p == 82 || p == 83 || p == 84 || p == 85 || p == 86 || p == 87 || p == 88 || p == 89);
    }
}

#[verifier::rlimit(100)]
proof fn lemma_a1_codes_3()
    ensures
        forall|p: int|
            90 <= p < 120 ==> a1_window_index(
                #[trigger] seq_code(cyclic_window(a1_seq(), 5, p), 3),
            ) == p,
{
    let s = a1_seq();
    reveal_with_fuel(seq_code_from, 7);
    assert(cyclic_window(s, 5, 90) =~= seq![0int, 0, 0, 2, 1]);
    assert(seq_code(cyclic_window(s, 5, 90), 3) == 135);
    assert(cyclic_window(s, 5, 91) =~= seq![0int, 0, 2, 1, 0]);
    assert(seq_code(cyclic_window(s, 5, 91), 3) == 45);
    assert(cyclic_window(s, 5, 92) =~= seq![0int, 2, 1, 0, 2]);
    assert(seq_code(cyclic_window(s, 5, 92), 3) == 177);
    assert(cyclic_window(s, 5, 93) =~= seq![2int, 1, 0, 2, 0]);
    assert(seq_code(cyclic_window(s, 5, 93), 3) == 59);
    assert(cyclic_window(s, 5, 94) =~= seq![1int, 0, 2, 0, 2]);
    assert(seq_code(cyclic_window(s, 5, 94), 3) == 181);
    assert(cyclic_window(s, 5, 95) =~= seq![0int, 2, 0, 2, 1]);
    assert(seq_code(cyclic_window(s, 5, 95), 3) == 141);
    assert(cyclic_window(s, 5, 96) =~= seq![2int, 0, 2, 1, 1]);
    assert(seq_code(cyclic_window(s, 5, 96), 3) == 128);
    assert(cyclic_window(s, 5, 97) =~= seq![0int, 2, 1, 1, 1]);
    assert(seq_code(cyclic_window(s, 5, 97), 3) == 123);
    assert(cyclic_window(s, 5, 98) =~= seq![2int, 1, 1, 1, 0]);
    assert(seq_code(cyclic_window(s, 5, 98), 3) == 41);
    assert(cyclic_window(s, 5, 99) =~= seq![1int, 1, 1, 0, 0]);
    assert(seq_code(cyclic_window(s, 5, 99), 3) == 13);
    assert(cyclic_window(s, 5, 100) =~= seq![1int, 1, 0, 0, 2]);
    assert(seq_code(cyclic_window(s, 5, 100), 3) == 166);
    assert(cyclic_window(s, 5, 101) =~= seq![1int, 0, 0, 2, 1]);
    assert(seq_code(cyclic_window(s, 5, 101), 3) == 136);
    assert(cyclic_window(s, 5, 102) =~= seq![0int, 0, 2, 1, 2]);
    assert(seq_code(cyclic_window(s, 5, 102), 3) == 207);
    assert(cyclic_window(s, 5, 103) =~= seq![0int, 2, 1, 2, 0]);
    assert(seq_code(cyclic_window(s, 5, 103), 3) == 69);
    assert(cyclic_window(s, 5, 104) =~= seq![2int, 1, 2, 0, 1]);
    assert(seq_code(cyclic_window(s, 5, 104), 3) == 104);
    assert(cyclic_window(s, 5, 105) =~= seq![1int, 2, 0, 1, 1]);
    assert(seq_code(cyclic_window(s, 5, 105), 3) == 115);
    assert(cyclic_window(s, 5, 106) =~= seq![2int, 0, 1, 1, 1]);
    assert(seq_code(cyclic_window(s, 5, 106), 3) == 119);
    assert(cyclic_window(s, 5, 107) =~= seq![0int, 1, 1, 1, 2]);
    assert(seq_code(cyclic_window(s, 5, 107), 3) == 201);
    assert(cyclic_window(s, 5, 108) =~= seq![1int, 1, 1, 2, 0]);
    assert(seq_code(cyclic_window(s, 5, 108), 3) == 67);
    assert(cyclic_window(s, 5, 109) =~= seq![1int, 1, 2, 0, 2]);
    assert(seq_code(cyclic_window(s, 5, 109), 3) == 184);
    assert(cyclic_window(s, 5, 110) =~= seq![1int, 2, 0, 2, 0]);
    assert(seq_code(cyclic_window(s, 5, 110), 3) == 61);
    assert(cyclic_window(s, 5, 111) =~= seq![2int, 0, 2, 0, 0]);
    assert(seq_code(cyclic_window(s, 5, 111), 3) == 20);
    assert(cyclic_window(s, 5, 112) =~= seq![0int, 2, 0, 0, 1]);
    assert(seq_code(cyclic_window(s, 5, 112), 3) == 87);
    assert(cyclic_window(s, 5, 113) =~= seq![2int, 0, 0, 1, 1]);
    assert(seq_code(cyclic_window(s, 5, 113), 3) == 110);
    assert(cyclic_window(s, 5, 114) =~= seq![0int, 0, 1, 1, 2]);
    assert(seq_code(cyclic_window(s, 5, 114), 3) == 198);
    assert(cyclic_window(s, 5, 115) =~= seq![0int, 1, 1, 2, 1]);
    assert(seq_code(cyclic_window(s, 5, 115), 3) == 147);
    assert(cyclic_window(s, 5, 116) =~= seq![1int, 1, 2, 1, 0]);
    assert(seq_code(cyclic_window(s, 5, 116), 3) == 49);
    assert(cyclic_window(s, 5, 117) =~= seq![1int, 2, 1, 0, 0]);
    assert(seq_code(cyclic_window(s, 5, 117), 3) == 16);
    assert(cyclic_window(s, 5, 118) =~= seq![2int, 1, 0, 0, 0]);
    assert(seq_code(cyclic_window(s, 5, 118), 3) == 5);
    assert(cyclic_window(s, 5, 119) =~= seq![1int, 0, 0, 0, 2]);
    assert(seq_code(cyclic_window(s, 5, 119), 3) == 163);
    assert forall|p: int| 90 <= p < 120 implies a1_window_index(
        #[trigger] seq_code(cyclic_window(s, 5, p), 3),
    ) == p by {
        assert(p == 90 || p == 91 || p == 92 || p == 93 || p == 94 || p == 95 || p == 96 || p == 97 || p == 98 || p == 99 || p == 100 || p == 101 || p == 102 || p == 103 || p == 104 || p == 105 || p == 106 || p == 107 || p == 108 || p == 109 || p == 110 || p == 111 || p == 112 || p == 113 || p == 114 || p == 115 || p == 116 || p == 117 || p == 118 || p == 119);
    }
}

#[verifier::rlimit(100)]
proof fn lemma_a1_codes_4()
    ensures
        forall|p: int|
            120 <= p < 150 ==> a1_window_index(
                #[trigger] seq_code(cyclic_window(a1_seq(), 5, p), 3),
            ) == p,
{
    let s = a1_seq();
    reveal_with_fuel(seq_code_from, 7);
    assert(cyclic_window(s, 5, 120) =~= seq![0int, 0, 0, 2, 2]);
    assert(seq_code(cyclic_window(s, 5, 120), 3) == 216);
    assert(cyclic_window(s, 5, 121) =~= seq![0int, 0, 2, 2, 0]);
    assert(seq_code(cyclic_window(s, 5, 121), 3) == 72);
    assert(cyclic_window(s, 5, 122) =~= seq![0int, 2, 2, 0, 1]);
    assert(seq_code(cyclic_window(s, 5, 122), 3) == 105);
    assert(cyclic_window(s, 5, 123) =~= seq![2int, 2, 0, 1, 0]);
    assert(seq_code(cyclic_window(s, 5, 123), 3) == 35);
    assert(cyclic_window(s, 5, 124) =~= seq![2int, 0, 1, 0, 2]);
    assert(seq_code(cyclic_window(s, 5, 124), 3) == 173);
    assert(cyclic_window(s, 5, 125) =~= seq![0int, 1, 0, 2, 2]);
    assert(seq_code(cyclic_window(s, 5, 125), 3) == 219);
    assert(cyclic_window(s, 5, 126) =~= seq![1int, 0, 2, 2, 0]);
    assert(seq_code(cyclic_window(s, 5, 126), 3) == 73);
    assert(cyclic_window(s, 5, 127) =~= seq![0int, 2, 2, 0, 0]);
    assert(seq_code(cyclic_window(s, 5, 127), 3) == 24);
    assert(cyclic_window(s, 5, 128) =~= seq![2int, 2, 0, 0, 1]);
    assert(seq_code(cyclic_window(s, 5, 128), 3) == 89);
    assert(cyclic_window(s, 5, 129) =~= seq![2int, 0, 0, 1, 2]);
    assert(seq_code(cyclic_window(s, 5, 129), 3) == 191);
    assert(cyclic_window(s, 5, 130) =~= seq![0int, 0, 1, 2, 2]);
    assert(seq_code(cyclic_window(s, 5, 130), 3) == 225);
    assert(cyclic_window(s, 5, 131) =~= seq![0int, 1, 2, 2, 0]);
    assert(seq_code(cyclic_window(s, 5, 131), 3) == 75);
    assert(cyclic_window(s, 5, 132) =~= seq![1int, 2, 2, 0, 2]);
    assert(seq_code(cyclic_window(s, 5, 132), 3) == 187);
    assert(cyclic_window(s, 5, 133) =~= seq![2int, 2, 0, 2, 0]);
    assert(seq_code(cyclic_window(s, 5, 133), 3) == 62);
    assert(cyclic_window(s, 5, 134) =~= seq![2int, 0, 2, 0, 2]);
    assert(seq_code(cyclic_window(s, 5, 134), 3) == 182);
    assert(cyclic_window(s, 5, 135) =~= seq![0int, 2, 0, 2, 2]);
    assert(seq_code(cyclic_window(s, 5, 135), 3) == 222);
    assert(cyclic_window(s, 5, 136) =~= seq![2int, 0, 2, 2, 1]);
    assert(seq_code(cyclic_window(s, 5, 136), 3) == 155);
    assert(cyclic_window(s, 5, 137) =~= seq![0int, 2, 2, 1, 0]);
    assert(seq_code(cyclic_window(s, 5, 137), 3) == 51);
    assert(cyclic_window(s, 5, 138) =~= seq![2int, 2, 1, 0, 1]);
    assert(seq_code(cyclic_window(s, 5, 138), 3) == 98);
    assert(cyclic_window(s, 5, 139) =~= seq![2int, 1, 0, 1, 2]);
    assert(seq_code(cyclic_window(s, 5, 139), 3) == 194);
    assert(cyclic_window(s, 5, 140) =~= seq![1int, 0, 1, 2, 1]);
    assert(seq_code(cyclic_window(s, 5, 140), 3) == 145);
    assert(cyclic_window(s, 5, 141) =~= seq![0int, 1, 2, 1, 2]);
    assert(seq_code(cyclic_window(s, 5, 141), 3) == 210);
    assert(cyclic_window(s, 5, 142) =~= seq![1int, 2, 1, 2, 1]);
    assert(seq_code(cyclic_window(s, 5, 142), 3) == 151);
    assert(cyclic_window(s, 5, 143) =~= seq![2int, 1, 2, 1, 0]);
    assert(seq_code(cyclic_window(s, 5, 143), 3) == 50);
    assert(cyclic_window(s, 5, 144) =~= seq![1int, 2, 1, 0, 2]);
    assert(seq_code(cyclic_window(s, 5, 144), 3) == 178);
    assert(cyclic_window(s, 5, 145) =~= seq![2int, 1, 0, 2, 1]);
    assert(seq_code(cyclic_window(s, 5, 145), 3) == 140);
    assert(cyclic_window(s, 5, 146) =~= seq![1int, 0, 2, 1, 2]);
    assert(seq_code(cyclic_window(s, 5, 146), 3) == 208);
    assert(cyclic_window(s, 5, 147) =~= seq![0int, 2, 1, 2, 1]);
    assert(seq_code(cyclic_window(s, 5, 147), 3) == 150);
    assert(cyclic_window(s, 5, 148) =~= seq![2int, 1, 2, 1, 1]);
    assert(seq_code(cyclic_window(s, 5, 148), 3) == 131);
    assert(cyclic_window(s, 5, 149) =~= seq![1int, 2, 1, 1, 0]);
    assert(seq_code(cyclic_window(s, 5, 149), 3) == 43);
    assert forall|p: int| 120 <= p < 150 implies a1_window_index(
        #[trigger] seq_code(cyclic_window(s, 5, p), 3),
    ) == p by {
        assert(p == 120 || p == 121 || p == 122 || p == 123 || p == 124 || p == 125 || p == 126 || p == 127 || p == 128 || p == 129 || p == 130 || p == 131 || p == 132 || p == 133 || p == 134 || p == 135 || p == 136 || p == 137 || p == 138 || p == 139 || p == 140 || p == 141 || p == 142 || p == 143 || p == 144 || p == 145 || p == 146 || p == 147 || p == 148 || p == 149);
    }
}

#[verifier::rlimit(100)]
proof fn lemma_a1_codes_5()
    ensures
        forall|p: int|
            150 <= p < 180 ==> a1_window_index(
                #[trigger] seq_code(cyclic_window(a1_seq(), 5, p), 3),
            ) == p,
{
    let s = a1_seq();
    reveal_with_fuel(seq_code_from, 7);
    assert(cyclic_window(s, 5, 150) =~= seq![2int, 1, 1, 0, 2]);
    assert(seq_code(cyclic_window(s, 5, 150), 3) == 176);
    assert(cyclic_window(s, 5, 151) =~= seq![1int, 1, 0, 2, 2]);
    assert(seq_code(cyclic_window(s, 5, 151), 3) == 220);
    assert(cyclic_window(s, 5, 152) =~= seq![1int, 0, 2, 2, 1]);
    assert(seq_code(cyclic_window(s, 5, 152), 3) == 154);
    assert(cyclic_window(s, 5, 153) =~= seq![0int, 2, 2, 1, 2]);
    assert(seq_code(cyclic_window(s, 5, 153), 3) == 213);
    assert(cyclic_window(s, 5, 154) =~= seq![2int, 2, 1, 2, 1]);
    assert(seq_code(cyclic_window(s, 5, 154), 3) == 152);
    assert(cyclic_window(s, 5, 155) =~= seq![2int, 1, 2, 1, 2]);
    assert(seq_code(cyclic_window(s, 5, 155), 3) == 212);
    assert(cyclic_window(s, 5, 156) =~= seq![1int, 2, 1, 2, 0]);
    assert(seq_code(cyclic_window(s, 5, 156), 3) == 70);
    assert(cyclic_window(s, 5, 157) =~= seq![2int, 1, 2, 0, 2]);
    assert(seq_code(cyclic_window(s, 5, 157), 3) == 185);
    assert(cyclic_window(s, 5, 158) =~= seq![1int, 2, 0, 2, 2]);
    assert(seq_code(cyclic_window(s, 5, 158), 3) == 223);
    assert(cyclic_window(s, 5, 159) =~= seq![2int, 0, 2, 2, 0]);
    assert(seq_code(cyclic_window(s, 5, 159), 3) == 74);
    assert(cyclic_window(s, 5, 160) =~= seq![0int, 2, 2, 0, 2]);
    assert(seq_code(cyclic_window(s, 5, 160), 3) == 186);
    assert(cyclic_window(s, 5, 161) =~= seq![2int, 2, 0, 2, 2]);
    assert(seq_code(cyclic_window(s, 5, 161), 3) == 224);
    assert(cyclic_window(s, 5, 162) =~= seq![2int, 0, 2, 2, 2]);
    assert(seq_code(cyclic_window(s, 5, 162), 3) == 236);
    assert(cyclic_window(s, 5, 163) =~= seq![0int, 2, 2, 2, 0]);
    assert(seq_code(cyclic_window(s, 5, 163), 3) == 78);
    assert(cyclic_window(s, 5, 164) =~= seq![2int, 2, 2, 0, 1]);
    assert(seq_code(cyclic_window(s, 5, 164), 3) == 107);
    assert(cyclic_window(s, 5, 165) =~= seq![2int, 2, 0, 1, 1]);
    assert(seq_code(cyclic_window(s, 5, 165), 3) == 116);
    assert(cyclic_window(s, 5, 166) =~= seq![2int, 0, 1, 1, 2]);
    assert(seq_code(cyclic_window(s, 5, 166), 3) == 200);
    assert(cyclic_window(s, 5, 167) =~= seq![0int, 1, 1, 2, 2]);
    assert(seq_code(cyclic_window(s, 5, 167), 3) == 228);
    assert(cyclic_window(s, 5, 168) =~= seq![1int, 1, 2, 2, 1]);
    assert(seq_code(cyclic_window(s, 5, 168), 3) == 157);
    assert(cyclic_window(s, 5, 169) =~= seq![1int, 2, 2, 1, 1]);
    assert(seq_code(cyclic_window(s, 5, 169), 3) == 133);
    assert(cyclic_window(s, 5, 170) =~= seq![2int, 2, 1, 1, 0]);
    assert(seq_code(cyclic_window(s, 5, 170), 3) == 44);
    assert(cyclic_window(s, 5, 171) =~= seq![2int, 1, 1, 0, 1]);
    assert(seq_code(cyclic_window(s, 5, 171), 3) == 95);
    assert(cyclic_window(s, 5, 172) =~= seq![1int, 1, 0, 1, 2]);
    assert(seq_code(cyclic_window(s, 5, 172), 3) == 193);
    assert(cyclic_window(s, 5, 173) =~= seq![1int, 0, 1, 2, 2]);
    assert(seq_code(cyclic_window(s, 5, 173), 3) == 226);
    assert(cyclic_window(s, 5, 174) =~= seq![0int, 1, 2, 2, 2]);
    assert(seq_code(cyclic_window(s, 5, 174), 3) == 237);
    assert(cyclic_window(s, 5, 175) =~= seq![1int, 2, 2, 2, 2]);
    assert(seq_code(cyclic_window(s, 5, 175), 3) == 241);
    assert(cyclic_window(s, 5, 176) =~= seq![2int, 2, 2, 2, 1]);
    assert(seq_code(cyclic_window(s, 5, 176), 3) == 161);
    assert(cyclic_window(s, 5, 177) =~= seq![2int, 2, 2, 1, 2]);
    assert(seq_code(cyclic_window(s, 5, 177), 3) == 215);
    assert(cyclic_window(s, 5, 178) =~= seq![2int, 2, 1, 2, 0]);
    assert(seq_code(cyclic_window(s, 5, 178), 3) == 71);
    assert(cyclic_window(s, 5, 179) =~= seq![2int, 1, 2, 0, 0]);
    assert(seq_code(cyclic_window(s, 5, 179), 3) == 23);
    assert forall|p: int| 150 <= p < 180 implies a1_window_index(
        #[trigger] seq_code(cyclic_window(s, 5, p), 3),
    ) == p by {
        assert(p == 150 || p == 151 || p == 152 || p == 153 || p == 154 || p == 155 || p == 156 || p == 157 || p == 158 || p == 159 || p == 160 || p == 161 || p == 162 || p == 163 || p == 164 || p == 165 || p == 166 || p == 167 || p == 168 || p == 169 || p == 170 || p == 171 || p == 172 || p == 173 || p == 174 || p == 175 || p == 176 || p == 177 || p == 178 || p == 179);
    }
}

#[verifier::rlimit(100)]
proof fn lemma_a1_codes_6()
    ensures
        forall|p: int|
            180 <= p < 210 ==> a1_window_index(
                #[trigger] seq_code(cyclic_window(a1_seq(), 5, p), 3),
            ) == p,
{
    let s = a1_seq();
    reveal_with_fuel(seq_code_from, 7);
    assert(cyclic_window(s, 5, 180) =~= seq![1int, 2, 0, 0, 2]);
    assert(seq_code(cyclic_window(s, 5, 180), 3) == 169);
    assert(cyclic_window(s, 5, 181) =~= seq![2int, 0, 0, 2, 2]);
    assert(seq_code(cyclic_window(s, 5, 181), 3) == 218);
    assert(cyclic_window(s, 5, 182) =~= seq![0int, 0, 2, 2, 1]);
    assert(seq_code(cyclic_window(s, 5, 182), 3) == 153);
    assert(cyclic_window(s, 5, 183) =~= seq![0int, 2, 2, 1, 1]);
    assert(seq_code(cyclic_window(s, 5, 183), 3) == 132);
    assert(cyclic_window(s, 5, 184) =~= seq![2int, 2, 1, 1, 2]);
    assert(seq_code(cyclic_window(s, 5, 184), 3) == 206);
    assert(cyclic_window(s, 5, 185) =~= seq![2int, 1, 1, 2, 1]);
    assert(seq_code(cyclic_window(s, 5, 185), 3) == 149);
    assert(cyclic_window(s, 5, 186) =~= seq![1int, 1, 2, 1, 2]);
    assert(seq_code(cyclic_window(s, 5, 186), 3) == 211);
    assert(cyclic_window(s, 5, 187) =~= seq![1int, 2, 1, 2, 2]);
    assert(seq_code(cyclic_window(s, 5, 187), 3) == 232);
    assert(cyclic_window(s, 5, 188) =~= seq![2int, 1, 2, 2, 1]);
    assert(seq_code(cyclic_window(s, 5, 188), 3) == 158);
    assert(cyclic_window(s, 5, 189) =~= seq![1int, 2, 2, 1, 0]);
    assert(seq_code(cyclic_window(s, 5, 189), 3) == 52);
    assert(cyclic_window(s, 5, 190) =~= seq![2int, 2, 1, 0, 2]);
    assert(seq_code(cyclic_window(s, 5, 190), 3) == 179);
    assert(cyclic_window(s, 5, 191) =~= seq![2int, 1, 0, 2, 2]);
    assert(seq_code(cyclic_window(s, 5, 191), 3) == 221);
    assert(cyclic_window(s, 5, 192) =~= seq![1int, 0, 2, 2, 2]);
    assert(seq_code(cyclic_window(s, 5, 192), 3) == 235);
    assert(cyclic_window(s, 5, 193) =~= seq![0int, 2, 2, 2, 2]);
    assert(seq_code(cyclic_window(s, 5, 193), 3) == 240);
    assert(cyclic_window(s, 5, 194) =~= seq![2int, 2, 2, 2, 2]);
    assert(seq_code(cyclic_window(s, 5, 194), 3) == 242);
    assert(cyclic_window(s, 5, 195) =~= seq![2int, 2, 2, 2, 0]);
    assert(seq_code(cyclic_window(s, 5, 195), 3) == 80);
    assert(cyclic_window(s, 5, 196) =~= seq![2int, 2, 2, 0, 2]);
    assert(seq_code(cyclic_window(s, 5, 196), 3) == 188);
    assert(cyclic_window(s, 5, 197) =~= seq![2int, 2, 0, 2, 1]);
    assert(seq_code(cyclic_window(s, 5, 197), 3) == 143);
    assert(cyclic_window(s, 5, 198) =~= seq![2int, 0, 2, 1, 2]);
    assert(seq_code(cyclic_window(s, 5, 198), 3) == 209);
    assert(cyclic_window(s, 5, 199) =~= seq![0int, 2, 1, 2, 2]);
    assert(seq_code(cyclic_window(s, 5, 199), 3) == 231);
    assert(cyclic_window(s, 5, 200) =~= seq![2int, 1, 2, 2, 2]);
    assert(seq_code(cyclic_window(s, 5, 200), 3) == 239);
    assert(cyclic_window(s, 5, 201) =~= seq![1int, 2, 2, 2, 1]);
    assert(seq_code(cyclic_window(s, 5, 201), 3) == 160);
    assert(cyclic_window(s, 5, 202) =~= seq![2int, 2, 2, 1, 1]);
    assert(seq_code(cyclic_window(s, 5, 202), 3) == 134);
    assert(cyclic_window(s, 5, 203) =~= seq![2int, 2, 1, 1, 1]);
    assert(seq_code(cyclic_window(s, 5, 203), 3) == 125);
    assert(cyclic_window(s, 5, 204) =~= seq![2int, 1, 1, 1, 2]);
    assert(seq_code(cyclic_window(s, 5, 204), 3) == 203);
    assert(cyclic_window(s, 5, 205) =~= seq![1int, 1, 1, 2, 1]);
    assert(seq_code(cyclic_window(s, 5, 205), 3) == 148);
    assert(cyclic_window(s, 5, 206) =~= seq![1int, 1, 2, 1, 1]);
    assert(seq_code(cyclic_window(s, 5, 206), 3) == 130);
    assert(cyclic_window(s, 5, 207) =~= seq![1int, 2, 1, 1, 2]);
    assert(seq_code(cyclic_window(s, 5, 207), 3) == 205);
    assert(cyclic_window(s, 5, 208) =~= seq![2int, 1, 1, 2, 0]);
    assert(seq_code(cyclic_window(s, 5, 208), 3) == 68);
    assert(cyclic_window(s, 5, 209) =~= seq![1int, 1, 2, 0, 1]);
    assert(seq_code(cyclic_window(s, 5, 209), 3) == 103);
    assert forall|p: int| 180 <= p < 210 implies a1_window_index(
        #[trigger] seq_code(cyclic_window(s, 5, p), 3),
    ) == p by {
        assert(p == 180 || p == 181 || p == 182 || p == 183 || p == 184 || p == 185 || p == 186 || p == 187 || p == 188 || p == 189 || p == 190 || p == 191 || p == 192 || p == 193 || p == 194 || p == 195 || p == 196 || p == 197 || p == 198 || p == 199 || p == 200 || p == 201 || p == 202 || p == 203 || p == 204 || p == 205 || p == 206 || p == 207 || p == 208 || p == 209);
    }
}

#[verifier::rlimit(100)]
proof fn lemma_a1_codes_7()
    ensures
        forall|p: int|
            210 <= p < 236 ==> a1_window_index(
                #[trigger] seq_code(cyclic_window(a1_seq(), 5, p), 3),
            ) == p,
{
    let s = a1_seq();
    reveal_with_fuel(seq_code_from, 7);
    assert(cyclic_window(s, 5, 210) =~= seq![1int, 2, 0, 1, 2]);
    assert(seq_code(cyclic_window(s, 5, 210), 3) == 196);
    assert(cyclic_window(s, 5, 211) =~= seq![2int, 0, 1, 2, 2]);
    assert(seq_code(cyclic_window(s, 5, 211), 3) == 227);
    assert(cyclic_window(s, 5, 212) =~= seq![0int, 1, 2, 2, 1]);
    assert(seq_code(cyclic_window(s, 5, 212), 3) == 156);
    assert(cyclic_window(s, 5, 213) =~= seq![1int, 2, 2, 1, 2]);
    assert(seq_code(cyclic_window(s, 5, 213), 3) == 214);
    assert(cyclic_window(s, 5, 214) =~= seq![2int, 2, 1, 2, 2]);
    assert(seq_code(cyclic_window(s, 5, 214), 3) == 233);
    assert(cyclic_window(s, 5, 215) =~= seq![2int, 1, 2, 2, 0]);
    assert(seq_code(cyclic_window(s, 5, 215), 3) == 77);
    assert(cyclic_window(s, 5, 216) =~= seq![1int, 2, 2, 0, 1]);
    assert(seq_code(cyclic_window(s, 5, 216), 3) == 106);
    assert(cyclic_window(s, 5, 217) =~= seq![2int, 2, 0, 1, 2]);
    assert(seq_code(cyclic_window(s, 5, 217), 3) == 197);
    assert(cyclic_window(s, 5, 218) =~= seq![2int, 0, 1, 2, 1]);
    assert(seq_code(cyclic_window(s, 5, 218), 3) == 146);
    assert(cyclic_window(s, 5, 219) =~= seq![0int, 1, 2, 1, 1]);
    assert(seq_code(cyclic_window(s, 5, 219), 3) == 129);
    assert(cyclic_window(s, 5, 220) =~= seq![1int, 2, 1, 1, 1]);
    assert(seq_code(cyclic_window(s, 5, 220), 3) == 124);
    assert(cyclic_window(s, 5, 221) =~= seq![2int, 1, 1, 1, 1]);
    assert(seq_code(cyclic_window(s, 5, 221), 3) == 122);
    assert(cyclic_window(s, 5, 222) =~= seq![1int, 1, 1, 1, 2]);
    assert(seq_code(cyclic_window(s, 5, 222), 3) == 202);
    assert(cyclic_window(s, 5, 223) =~= seq![1int, 1, 1, 2, 2]);
    assert(seq_code(cyclic_window(s, 5, 223), 3) == 229);
    assert(cyclic_window(s, 5, 224) =~= seq![1int, 1, 2, 2, 2]);
    assert(seq_code(cyclic_window(s, 5, 224), 3) == 238);
    assert(cyclic_window(s, 5, 225) =~= seq![1int, 2, 2, 2, 0]);
    assert(seq_code(cyclic_window(s, 5, 225), 3) == 79);
    assert(cyclic_window(s, 5, 226) =~= seq![2int, 2, 2, 0, 0]);
    assert(seq_code(cyclic_window(s, 5, 226), 3) == 26);
    assert(cyclic_window(s, 5, 227) =~= seq![2int, 2, 0, 0, 2]);
    assert(seq_code(cyclic_window(s, 5, 227), 3) == 170);
    assert(cyclic_window(s, 5, 228) =~= seq![2int, 0, 0, 2, 1]);
    assert(seq_code(cyclic_window(s, 5, 228), 3) == 137);
    assert(cyclic_window(s, 5, 229) =~= seq![0int, 0, 2, 1, 1]);
    assert(seq_code(cyclic_window(s, 5, 229), 3) == 126);
    assert(cyclic_window(s, 5, 230) =~= seq![0int, 2, 1, 1, 2]);
    assert(seq_code(cyclic_window(s, 5, 230), 3) == 204);
    assert(cyclic_window(s, 5, 231) =~= seq![2int, 1, 1, 2, 2]);
    assert(seq_code(cyclic_window(s, 5, 231), 3) == 230);
    assert(cyclic_window(s, 5, 232) =~= seq![1int, 1, 2, 2, 0]);
    assert(seq_code(cyclic_window(s, 5, 232), 3) == 76);
    assert(cyclic_window(s, 5, 233) =~= seq![1int, 2, 2, 0, 0]);
    assert(seq_code(cyclic_window(s, 5, 233), 3) == 25);
    assert(cyclic_window(s, 5, 234) =~= seq![2int, 2, 0, 0, 0]);
    assert(seq_code(cyclic_window(s, 5, 234), 3) == 8);
    assert(cyclic_window(s, 5, 235) =~= seq![2int, 0, 0, 0, 0]);
    assert(seq_code(cyclic_window(s, 5, 235), 3) == 2);
    assert forall|p: int| 210 <= p < 236 implies a1_window_index(
        #[trigger] seq_code(cyclic_window(s, 5, p), 3),
    ) == p by {
        assert(p == 210 || p == 211 || p == 212 || p == 213 || p == 214 || p == 215 || p == 216 || p == 217 || p == 218 || p == 219 || p == 220 || p == 221 || p == 222 || p == 223 || p == 224 || p == 225 || p == 226 || p == 227 || p == 228 || p == 229 || p == 230 || p == 231 || p == 232 || p == 233 || p == 234 || p == 235);
    }
}

/// Every cyclic window of order 5 occurs at most once in the secondary sequence A1.
pub proof fn lemma_a1_windows_unique()
    ensures
        windows_unique(a1_seq(), 5),
{
    let s = a1_seq();
    lemma_a1_codes_0();
    lemma_a1_codes_1();
    lemma_a1_codes_2();
    lemma_a1_codes_3();
    lemma_a1_codes_4();
    lemma_a1_codes_5();
    lemma_a1_codes_6();
    lemma_a1_codes_7();
    assert forall|p: int, q: int|
        0 <= p < s.len() && 0 <= q < s.len() && #[trigger] cyclic_window(s, 5, p)
            == #[trigger] cyclic_window(s, 5, q) implies p == q by {
        assert(a1_window_index(seq_code(cyclic_window(s, 5, p), 3)) == p);
        assert(a1_window_index(seq_code(cyclic_window(s, 5, q), 3)) == q);
    }
}

spec fn a2_window_index(c: int) -> int {
    if c == 0 {
        0
    } else if c == 81 {
        1
    } else if c == 27 {
        2
    } else if c == 9 {
        3
    } else if c == 3 {
        4
    } else if c == 1 {
        5
    } else if c == 162 {
        6
    } else if c == 54 {
        7
    } else if c == 99 {
        8
    } else if c == 33 {
        9
    } else if c == 11 {
        10
    } else if c == 84 {
        11
    } else if c == 28 {
        12
    } else if c == 90 {
        13
    } else if c == 30 {
        14
    } else if c == 91 {
        15
    } else if c == 111 {
        16
    } else if c == 37 {
        17
    } else if c == 12 {
        18
    } else if c == 4 {
        19
    } else if c == 82 {
        20
    } else if c == 108 {
        21
    } else if c == 117 {
        22
    } else if c == 120 {
        23
    } else if c == 40 {
        24
    } else if c == 13 {
        25
    } else if c == 85 {
        26
    } else if c == 109 {
        27
    } else if c == 36 {
        28
    } else if c == 93 {
        29
    } else if c == 31 {
        30
    } else if c == 10 {
        31
    } else if c == 165 {
        32
    } else if c == 55 {
        33
    } else if c == 18 {
        34
    } else if c == 6 {
        35
    } else if c == 83 {
        36
    } else if c == 189 {
        37
    } else if c == 63 {
        38
    } else if c == 102 {
        39
    } else if c == 34 {
        40
    } else if c == 92 {
        41
    } else if c == 192 {
        42
    } else if c == 145 {
        43
    } else if c == 48 {
        44
    } else if c == 16 {
        45
    } else if c == 5 {
        46
    } else if c == 163 {
        47
    } else if c == 135 {
        48
    } else if c == 126 {
        49
    } else if c == 123 {
        50
    } else if c == 41 {
        51
    } else if c == 94 {
        52
    } else if c == 112 {
        53
    } else if c == 118 {
        54
    } else if c == 39 {
        55
    } else if c == 175 {
        56
    } else if c == 139 {
        57
    } else if c == 46 {
        58
    } else if c == 15 {
        59
    } else if c == 86 {
        60
    } else if c == 190 {
        61
    } else if c == 144 {
        62
    } else if c == 210 {
        63
    } else if c == 151 {
        64
    } else if c == 50 {
        65
    } else if c == 97 {
        66
    } else if c == 32 {
        67
    } else if c == 172 {
        68
    } else if c == 57 {
        69
    } else if c == 100 {
        70
    } else if c == 114 {
        71
    } else if c == 38 {
        72
    } else if c == 174 {
        73
    } else if c == 58 {
        74
    } else if c == 19 {
        75
    } else if c == 87 {
        76
    } else if c == 29 {
        77
    } else if c == 171 {
        78
    } else if c == 138 {
        79
    } else if c == 208 {
        80
    } else if c == 69 {
        81
    } else if c == 23 {
        82
    } else if c == 7 {
        83
    } else if c == 164 {
        84
    } else if c == 216 {
        85
    } else if c == 72 {
        86
    } else if c == 24 {
        87
    } else if c == 89 {
        88
    } else if c == 110 {
        89
    } else if c == 198 {
        90
    } else if c == 66 {
        91
    } else if c == 184 {
        92
    } else if c == 61 {
        93
    } else if c == 20 {
        94
    } else if c == 168 {
        95
    } else if c == 56 {
        96
    } else if c == 180 {
        97
    } else if c == 60 {
        98
    } else if c == 101 {
        99
    } else if c == 195 {
        100
    } else if c == 65 {
        101
    } else if c == 21 {
        102
    } else if c == 169 {
        103
    } else if c == 218 {
        104
    } else if c == 153 {
        105
    } else if c == 132 {
        106
    } else if c == 44 {
        107
    } else if c == 14 {
        108
    } else if c == 166 {
        109
    } else if c == 136 {
        110
    } else if c == 45 {
        111
    } else if c == 96 {
        112
    } else if c == 113 {
        113
    } else if c == 199 {
        114
    } else if c == 147 {
        115
    } else if c == 49 {
        116
    } else if c == 178 {
        117
    } else if c == 59 {
        118
    } else if c == 181 {
        119
    } else if c == 222 {
        120
    } else if c == 155 {
        121
    } else if c == 51 {
        122
    } else if c == 17 {
        123
    } else if c == 167 {
        124
    } else if c == 217 {
        125
    } else if c == 234 {
        126
    } else if c == 159 {
        127
    } else if c == 53 {
        128
    } else if c == 98 {
        129
    } else if c == 194 {
        130
    } else if c == 226 {
        131
    } else if c == 75 {
        132
    } else if c == 25 {
        133
    } else if c == 170 {
        134
    } else if c == 137 {
        135
    } else if c == 207 {
        136
    } else if c == 231 {
        137
    } else if c == 158 {
        138
    } else if c == 133 {
        139
    } else if c == 125 {
        140
    } else if c == 122 {
        141
    } else if c == 121 {
        142
    } else if c == 202 {
        143
    } else if c == 67 {
        144
    } else if c == 22 {
        145
    } else if c == 88 {
        146
    } else if c == 191 {
        147
    } else if c == 225 {
        148
    } else if c == 156 {
        149
    } else if c == 214 {
        150
    } else if c == 71 {
        151
    } else if c == 104 {
        152
    } else if c == 115 {
        153
    } else if c == 119 {
        154
    } else if c == 201 {
        155
    } else if c == 148 {
        156
    } else if c == 130 {
        157
    } else if c == 205 {
        158
    } else if c == 68 {
        159
    } else if c == 103 {
        160
    } else if c == 196 {
        161
    } else if c == 146 {
        162
    } else if c == 129 {
        163
    } else if c == 124 {
        164
    } else if c == 203 {
        165
    } else if c == 229 {
        166
    } else if c == 76 {
        167
    } else if c == 187 {
        168
    } else if c == 224 {
        169
    } else if c == 74 {
        170
    } else if c == 105 {
        171
    } else if c == 116 {
        172
    } else if c == 200 {
        173
    } else if c == 228 {
        174
    } else if c == 238 {
        175
    } else if c == 241 {
        176
    } else if c == 161 {
        177
    } else if c == 215 {
        178
    } else if c == 152 {
        179
    } else if c == 212 {
        180
    } else if c == 232 {
        181
    } else if c == 77 {
        182
    } else if c == 106 {
        183
    } else if c == 197 {
        184
    } else if c == 227 {
        185
    } else if c == 237 {
        186
    } else if c == 79 {
        187
    } else if c == 188 {
        188
    } else if c == 62 {
        189
    } else if c == 182 {
        190
    } else if c == 141 {
        191
    } else if c == 128 {
        192
    } else if c == 204 {
        193
    } else if c == 230 {
        194
    } else if c == 157 {
        195
    } else if c == 52 {
        196
    } else if c == 179 {
        197
    } else if c == 221 {
        198
    } else if c == 73 {
        199
    } else if c == 186 {
        200
    } else if c == 143 {
        201
    } else if c == 47 {
        202
    } else if c == 177 {
        203
    } else if c == 140 {
        204
    } else if c == 127 {
        205
    } else if c == 42 {
        206
    } else if c == 176 {
        207
    } else if c == 220 {
        208
    } else if c == 235 {
        209
    } else if c == 240 {
        210
    } else if c == 80 {
        211
    } else if c == 107 {
        212
    } else if c == 35 {
        213
    } else if c == 173 {
        214
    } else if c == 219 {
        215
    } else if c == 154 {
        216
    } else if c == 213 {
        217
    } else if c == 233 {
        218
    } else if c == 239 {
        219
    } else if c == 160 {
        220
    } else if c == 134 {
        221
    } else if c == 206 {
        222
    } else if c == 149 {
        223
    } else if c == 211 {
        224
    } else if c == 70 {
        225
    } else if c == 185 {
        226
    } else if c == 223 {
        227
    } else if c == 236 {
        228
    } else if c == 78 {
        229
    } else if c == 26 {
        230
    } else if c == 8 {
        231
    } else if c == 2 {
        232
    } else {
        -1
    }
}

#[verifier::rlimit(100)]
proof fn lemma_a2_codes_0()
    ensures
        forall|p: int|
            0 <= p < 30 ==> a2_window_index(
                #[trigger] seq_code(cyclic_window(a2_seq(), 5, p), 3),
            ) == p,
{
    let s = a2_seq();
    reveal_with_fuel(seq_code_from, 7);
    assert(cyclic_window(s, 5, 0) =~= seq![0int, 0, 0, 0, 0]);
    assert(seq_code(cyclic_window(s, 5, 0), 3) == 0);
    assert(cyclic_window(s, 5, 1) =~= seq![0int, 0, 0, 0, 1]);
    assert(seq_code(cyclic_window(s, 5, 1), 3) == 81);
    assert(cyclic_window(s, 5, 2) =~= seq![0int, 0, 0, 1, 0]);
    assert(seq_code(cyclic_window(s, 5, 2), 3) == 27);
    assert(cyclic_window(s, 5, 3) =~= seq![0int, 0, 1, 0, 0]);
    assert(seq_code(cyclic_window(s, 5, 3), 3) == 9);
    assert(cyclic_window(s, 5, 4) =~= seq![0int, 1, 0, 0, 0]);
    assert(seq_code(cyclic_window(s, 5, 4), 3) == 3);
    assert(cyclic_window(s, 5, 5) =~= seq![1int, 0, 0, 0, 0]);
    assert(seq_code(cyclic_window(s, 5, 5), 3) == 1);
    assert(cyclic_window(s, 5, 6) =~= seq![0int, 0, 0, 0, 2]);
    assert(seq_code(cyclic_window(s, 5, 6), 3) == 162);
    assert(cyclic_window(s, 5, 7) =~= seq![0int, 0, 0, 2, 0]);
    assert(seq_code(cyclic_window(s, 5, 7), 3) == 54);
    assert(cyclic_window(s, 5, 8) =~= seq![0int, 0, 2, 0, 1]);
    assert(seq_code(cyclic_window(s, 5, 8), 3) == 99);
    assert(cyclic_window(s, 5, 9) =~= seq![0int, 2, 0, 1, 0]);
    assert(seq_code(cyclic_window(s, 5, 9), 3) == 33);
    assert(cyclic_window(s, 5, 10) =~= seq![2int, 0, 1, 0, 0]);
    assert(seq_code(cyclic_window(s, 5, 10), 3) == 11);
    assert(cyclic_window(s, 5, 11) =~= seq![0int, 1, 0, 0, 1]);
    assert(seq_code(cyclic_window(s, 5, 11), 3) == 84);
    assert(cyclic_window(s, 5, 12) =~= seq![1int, 0, 0, 1, 0]);
    assert(seq_code(cyclic_window(s, 5, 12), 3) == 28);
    assert(cyclic_window(s, 5, 13) =~= seq![0int, 0, 1, 0, 1]);
    assert(seq_code(cyclic_window(s, 5, 13), 3) == 90);
    assert(cyclic_window(s, 5, 14) =~= seq![0int, 1, 0, 1, 0]);
    assert(seq_code(cyclic_window(s, 5, 14), 3) == 30);
    assert(cyclic_window(s, 5, 15) =~= seq![1int, 0, 1, 0, 1]);
    assert(seq_code(cyclic_window(s, 5, 15), 3) == 91);
    assert(cyclic_window(s, 5, 16) =~= seq![0int, 1, 0, 1, 1]);
    assert(seq_code(cyclic_window(s, 5, 16), 3) == 111);
    assert(cyclic_window(s, 5, 17) =~= seq![1int, 0, 1, 1, 0]);
    assert(seq_code(cyclic_window(s, 5, 17), 3) == 37);
    assert(cyclic_window(s, 5, 18) =~= seq![0int, 1, 1, 0, 0]);
    assert(seq_code(cyclic_window(s, 5, 18), 3) == 12);
    assert(cyclic_window(s, 5, 19) =~= seq![1int, 1, 0, 0, 0]);
    assert(seq_code(cyclic_window(s, 5, 19), 3) == 4);
    assert(cyclic_window(s, 5, 20) =~= seq![1int, 0, 0, 0, 1]);
    assert(seq_code(cyclic_window(s, 5, 20), 3) == 82);
    assert(cyclic_window(s, 5, 21) =~= seq![0int, 0, 0, 1, 1]);
    assert(seq_code(cyclic_window(s, 5, 21), 3) == 108);
    assert(cyclic_window(s, 5, 22) =~= seq![0int, 0, 1, 1, 1]);
    assert(seq_code(cyclic_window(s, 5, 22), 3) == 117);
    assert(cyclic_window(s, 5, 23) =~= seq![0int, 1, 1, 1, 1]);
    assert(seq_code(cyclic_window(s, 5, 23), 3) == 120);
    assert(cyclic_window(s, 5, 24) =~= seq![1int, 1, 1, 1, 0]);
    assert(seq_code(cyclic_window(s, 5, 24), 3) == 40);
    assert(cyclic_window(s, 5, 25) =~= seq![1int, 1, 1, 0, 0]);
    assert(seq_code(cyclic_window(s, 5, 25), 3) == 13);
    assert(cyclic_window(s, 5, 26) =~= seq![1int, 1, 0, 0, 1]);
    assert(seq_code(cyclic_window(s, 5, 26), 3) == 85);
    assert(cyclic_window(s, 5, 27) =~= seq![1int, 0, 0, 1, 1]);
    assert(seq_code(cyclic_window(s, 5, 27), 3) == 109);
    assert(cyclic_window(s, 5, 28) =~= seq![0int, 0, 1, 1, 0]);
    assert(seq_code(cyclic_window(s, 5, 28), 3) == 36);
    assert(cyclic_window(s, 5, 29) =~= seq![0int, 1, 1, 0, 1]);
    assert(seq_code(cyclic_window(s, 5, 29), 3) == 93);
    assert forall|p: int| 0 <= p < 30 implies a2_window_index(
        #[trigger] seq_code(cyclic_window(s, 5, p), 3),
    ) == p by {
        assert(p == 0 || p == 1 || p == 2 || p == 3 || p == 4 || p == 5 || p == 6 || p == 7 || p == 8 || p == 9 || p == 10 || p == 11 || p == 12 || p == 13 || p == 14 || p == 15 || p == 16 || p == 17 || p == 18 || p == 19 || p == 20 || p == 21 || p == 22 || p == 23 || p == 24 || p == 25 || p == 26 || p == 27 || p == 28 || p == 29);
    }
}

#[verifier::rlimit(100)]
proof fn lemma_a2_codes_1()
    ensures
        forall|p: int|
            30 <= p < 60 ==> a2_window_index(
                #[trigger] seq_code(cyclic_window(a2_seq(), 5, p), 3),
            ) == p,
{
    let s = a2_seq();
    reveal_with_fuel(seq_code_from, 7);
    assert(cyclic_window(s, 5, 30) =~= seq![1int, 1, 0, 1, 0]);
    assert(seq_code(cyclic_window(s, 5, 30), 3) == 31);
    assert(cyclic_window(s, 5, 31) =~= seq![1int, 0, 1, 0, 0]);
    assert(seq_code(cyclic_window(s, 5, 31), 3) == 10);
    assert(cyclic_window(s, 5, 32) =~= seq![0int, 1, 0, 0, 2]);
    assert(seq_code(cyclic_window(s, 5, 32), 3) == 165);
    assert(cyclic_window(s, 5, 33) =~= seq![1int, 0, 0, 2, 0]);
    assert(seq_code(cyclic_window(s, 5, 33), 3) == 55);
    assert(cyclic_window(s, 5, 34) =~= seq![0int, 0, 2, 0, 0]);
    assert(seq_code(cyclic_window(s, 5, 34), 3) == 18);
    assert(cyclic_window(s, 5, 35) =~= seq![0int, 2, 0, 0, 0]);
    assert(seq_code(cyclic_window(s, 5, 35), 3) == 6);
    assert(cyclic_window(s, 5, 36) =~= seq![2int, 0, 0, 0, 1]);
    assert(seq_code(cyclic_window(s, 5, 36), 3) == 83);
    assert(cyclic_window(s, 5, 37) =~= seq![0int, 0, 0, 1, 2]);
    assert(seq_code(cyclic_window(s, 5, 37), 3) == 189);
    assert(cyclic_window(s, 5, 38) =~= seq![0int, 0, 1, 2, 0]);
    assert(seq_code(cyclic_window(s, 5, 38), 3) == 63);
    assert(cyclic_window(s, 5, 39) =~= seq![0int, 1, 2, 0, 1]);
    assert(seq_code(cyclic_window(s, 5, 39), 3) == 102);
    assert(cyclic_window(s, 5, 40) =~= seq![1int, 2, 0, 1, 0]);
    assert(seq_code(cyclic_window(s, 5, 40), 3) == 34);
    assert(cyclic_window(s, 5, 41) =~= seq![2int, 0, 1, 0, 1]);
    assert(seq_code(cyclic_window(s, 5, 41), 3) == 92);
    assert(cyclic_window(s, 5, 42) =~= seq![0int, 1, 0, 1, 2]);
    assert(seq_code(cyclic_window(s, 5, 42), 3) == 192);
    assert(cyclic_window(s, 5, 43) =~= seq![1int, 0, 1, 2, 1]);
    assert(seq_code(cyclic_window(s, 5, 43), 3) == 145);
    assert(cyclic_window(s, 5, 44) =~= seq![0int, 1, 2, 1, 0]);
    assert(seq_code(cyclic_window(s, 5, 44), 3) == 48);
    assert(cyclic_window(s, 5, 45) =~= seq![1int, 2, 1, 0, 0]);
    assert(seq_code(cyclic_window(s, 5, 45), 3) == 16);
    assert(cyclic_window(s, 5, 46) =~= seq![2int, 1, 0, 0, 0]);
    assert(seq_code(cyclic_window(s, 5, 46), 3) == 5);
    assert(cyclic_window(s, 5, 47) =~= seq![1int, 0, 0, 0, 2]);
    assert(seq_code(cyclic_window(s, 5, 47), 3) == 163);
    assert(cyclic_window(s, 5, 48) =~= seq![0int, 0, 0, 2, 1]);
    assert(seq_code(cyclic_window(s, 5, 48), 3) == 135);
    assert(cyclic_window(s, 5, 49) =~= seq![0int, 0, 2, 1, 1]);
    assert(seq_code(cyclic_window(s, 5, 49), 3) == 126);
    assert(cyclic_window(s, 5, 50) =~= seq![0int, 2, 1, 1, 1]);
    assert(seq_code(cyclic_window(s, 5, 50), 3) == 123);
    assert(cyclic_window(s, 5, 51) =~= seq![2int, 1, 1, 1, 0]);
    assert(seq_code(cyclic_window(s, 5, 51), 3) == 41);
    assert(cyclic_window(s, 5, 52) =~= seq![1int, 1, 1, 0, 1]);
    assert(seq_code(cyclic_window(s, 5, 52), 3) == 94);
    assert(cyclic_window(s, 5, 53) =~= seq![1int, 1, 0, 1, 1]);
    assert(seq_code(cyclic_window(s, 5, 53), 3) == 112);
    assert(cyclic_window(s, 5, 54) =~= seq![1int, 0, 1, 1, 1]);
    assert(seq_code(cyclic_window(s, 5, 54), 3) == 118);
    assert(cyclic_window(s, 5, 55) =~= seq![0int, 1, 1, 1, 0]);
    assert(seq_code(cyclic_window(s, 5, 55), 3) == 39);
    assert(cyclic_window(s, 5, 56) =~= seq![1int, 1, 1, 0, 2]);
    assert(seq_code(cyclic_window(s, 5, 56), 3) == 175);
    assert(cyclic_window(s, 5, 57) =~= seq![1int, 1, 0, 2, 1]);
    assert(seq_code(cyclic_window(s, 5, 57), 3) == 139);
    assert(cyclic_window(s, 5, 58) =~= seq![1int, 0, 2, 1, 0]);
    assert(seq_code(cyclic_window(s, 5, 58), 3) == 46);
    assert(cyclic_window(s, 5, 59) =~= seq![0int, 2, 1, 0, 0]);
    assert(seq_code(cyclic_window(s, 5, 59), 3) == 15);
    assert forall|p: int| 30 <= p < 60 implies a2_window_index(
        #[trigger] seq_code(cyclic_window(s, 5, p), 3),
    ) == p by {
        assert(p == 30 || p == 31 || p == 32 || p == 33 || p == 34 || p == 35 || p == 36 || p == 37 || p == 38 || p == 39 || p == 40 || p == 41 || p == 42 || p == 43 || p == 44 || p == 45 || p == 46 || p == 47 || p == 48 || p == 49 || p == 50 || p == 51 || p == 52 || p == 53 || p == 54 || p == 55 || p == 56 || p == 57 || p == 58 || p == 59);
    }
}

#[verifier::rlimit(100)]
proof fn lemma_a2_codes_2()
    ensures
        forall|p: int|
            60 <= p < 90 ==> a2_window_index(
                #[trigger] seq_code(cyclic_window(a2_seq(), 5, p), 3),
            ) == p,
{
    let s = a2_seq();
    reveal_with_fuel(seq_code_from, 7);
    assert(cyclic_window(s, 5, 60) =~= seq![2int, 1, 0, 0, 1]);
    assert(seq_code(cyclic_window(s, 5, 60), 3) == 86);
    assert(cyclic_window(s, 5, 61) =~= seq![1int, 0, 0, 1, 2]);
    assert(seq_code(cyclic_window(s, 5, 61), 3) == 190);
    assert(cyclic_window(s, 5, 62) =~= seq![0int, 0, 1, 2, 1]);
    assert(seq_code(cyclic_window(s, 5, 62), 3) == 144);
    assert(cyclic_window(s, 5, 63) =~= seq![0int, 1, 2, 1, 2]);
    assert(seq_code(cyclic_window(s, 5, 63), 3) == 210);
    assert(cyclic_window(s, 5, 64) =~= seq![1int, 2, 1, 2, 1]);
    assert(seq_code(cyclic_window(s, 5, 64), 3) == 151);
    assert(cyclic_window(s, 5, 65) =~= seq![2int, 1, 2, 1, 0]);
    assert(seq_code(cyclic_window(s, 5, 65), 3) == 50);
    assert(cyclic_window(s, 5, 66) =~= seq![1int, 2, 1, 0, 1]);
    assert(seq_code(cyclic_window(s, 5, 66), 3) == 97);
    assert(cyclic_window(s, 5, 67) =~= seq![2int, 1, 0, 1, 0]);
    assert(seq_code(cyclic_window(s, 5, 67), 3) == 32);
    assert(cyclic_window(s, 5, 68) =~= seq![1int, 0, 1, 0, 2]);
    assert(seq_code(cyclic_window(s, 5, 68), 3) == 172);
    assert(cyclic_window(s, 5, 69) =~= seq![0int, 1, 0, 2, 0]);
    assert(seq_code(cyclic_window(s, 5, 69), 3) == 57);
    assert(cyclic_window(s, 5, 70) =~= seq![1int, 0, 2, 0, 1]);
    assert(seq_code(cyclic_window(s, 5, 70), 3) == 100);
    assert(cyclic_window(s, 5, 71) =~= seq![0int, 2, 0, 1, 1]);
    assert(seq_code(cyclic_window(s, 5, 71), 3) == 114);
    assert(cyclic_window(s, 5, 72) =~= seq![2int, 0, 1, 1, 0]);
    assert(seq_code(cyclic_window(s, 5, 72), 3) == 38);
    assert(cyclic_window(s, 5, 73) =~= seq![0int, 1, 1, 0, 2]);
    assert(seq_code(cyclic_window(s, 5, 73), 3) == 174);
    assert(cyclic_window(s, 5, 74) =~= seq![1int, 1, 0, 2, 0]);
    assert(seq_code(cyclic_window(s, 5, 74), 3) == 58);
    assert(cyclic_window(s, 5, 75) =~= seq![1int, 0, 2, 0, 0]);
    assert(seq_code(cyclic_window(s, 5, 75), 3) == 19);
    assert(cyclic_window(s, 5, 76) =~= seq![0int, 2, 0, 0, 1]);
    assert(seq_code(cyclic_window(s, 5, 76), 3) == 87);
    assert(cyclic_window(s, 5, 77) =~= seq![2int, 0, 0, 1, 0]);
    assert(seq_code(cyclic_window(s, 5, 77), 3) == 29);
    assert(cyclic_window(s, 5, 78) =~= seq![0int, 0, 1, 0, 2]);
    assert(seq_code(cyclic_window(s, 5, 78), 3) == 171);
    assert(cyclic_window(s, 5, 79) =~= seq![0int, 1, 0, 2, 1]);
    assert(seq_code(cyclic_window(s, 5, 79), 3) == 138);
    assert(cyclic_window(s, 5, 80) =~= seq![1int, 0, 2, 1, 2]);
    assert(seq_code(cyclic_window(s, 5, 80), 3) == 208);
    assert(cyclic_window(s, 5, 81) =~= seq![0int, 2, 1, 2, 0]);
    assert(seq_code(cyclic_window(s, 5, 81), 3) == 69);
    assert(cyclic_window(s, 5, 82) =~= seq![2int, 1, 2, 0, 0]);
    assert(seq_code(cyclic_window(s, 5, 82), 3) == 23);
    assert(cyclic_window(s, 5, 83) =~= seq![1int, 2, 0, 0, 0]);
    assert(seq_code(cyclic_window(s, 5, 83), 3) == 7);
    assert(cyclic_window(s, 5, 84) =~= seq![2int, 0, 0, 0, 2]);
    assert(seq_code(cyclic_window(s, 5, 84), 3) == 164);
    assert(cyclic_window(s, 5, 85) =~= seq![0int, 0, 0, 2, 2]);
    assert(seq_code(cyclic_window(s, 5, 85), 3) == 216);
    assert(cyclic_window(s, 5, 86) =~= seq![0int, 0, 2, 2, 0]);
    assert(seq_code(cyclic_window(s, 5, 86), 3) == 72);
    assert(cyclic_window(s, 5, 87) =~= seq![0int, 2, 2, 0, 0]);
    assert(seq_code(cyclic_window(s, 5, 87), 3) == 24);
    assert(cyclic_window(s, 5, 88) =~= seq![2int, 2, 0, 0, 1]);
    assert(seq_code(cyclic_window(s, 5, 88), 3) == 89);
    assert(cyclic_window(s, 5, 89) =~= seq![2int, 0, 0, 1, 1]);
    assert(seq_code(cyclic_window(s, 5, 89), 3) == 110);
    assert forall|p: int| 60 <= p < 90 implies a2_window_index(
        #[trigger] seq_code(cyclic_window(s, 5, p), 3),
    ) == p by {
        assert(p == 60 || p == 61 || p == 62 || p == 63 || p == 64 || p == 65 || p == 66 || p == 67 || p == 68 || p == 69 || p == 70 || p == 71 || p == 72 || p == 73 || p == 74 || p == 75 || p == 76 || p == 77 || p == 78 || p == 79 || p == 80 || p == 81 || p == 82 || p == 83 || p == 84 || p == 85 || p == 86 || p == 87 || p == 88 || p == 89);
    }
}

#[verifier::rlimit(100)]
proof fn lemma_a2_codes_3()
    ensures
        forall|p: int|
            90 <= p < 120 ==> a2_window_index(
                #[trigger] seq_code(cyclic_window(a2_seq(), 5, p), 3),
            ) == p,
{
    let s = a2_seq();
    reveal_with_fuel(seq_code_from, 7);
    assert(cyclic_window(s, 5, 90) =~= seq![0int, 0, 1, 1, 2]);
    assert(seq_code(cyclic_window(s, 5, 90), 3) == 198);
    assert(cyclic_window(s, 5, 91) =~= seq![0int, 1, 1, 2, 0]);
    assert(seq_code(cyclic_window(s, 5, 91), 3) == 66);
    assert(cyclic_window(s, 5, 92) =~= seq![1int, 1, 2, 0, 2]);
    assert(seq_code(cyclic_window(s, 5, 92), 3) == 184);
    assert(cyclic_window(s, 5, 93) =~= seq![1int, 2, 0, 2, 0]);
    assert(seq_code(cyclic_window(s, 5, 93), 3) == 61);
    assert(cyclic_window(s, 5, 94) =~= seq![2int, 0, 2, 0, 0]);
    assert(seq_code(cyclic_window(s, 5, 94), 3) == 20);
    assert(cyclic_window(s, 5, 95) =~= seq![0int, 2, 0, 0, 2]);
    assert(seq_code(cyclic_window(s, 5, 95), 3) == 168);
    assert(cyclic_window(s, 5, 96) =~= seq![2int, 0, 0, 2, 0]);
    assert(seq_code(cyclic_window(s, 5, 96), 3) == 56);
    assert(cyclic_window(s, 5, 97) =~= seq![0int, 0, 2, 0, 2]);
    assert(seq_code(cyclic_window(s, 5, 97), 3) == 180);
    assert(cyclic_window(s, 5, 98) =~= seq![0int, 2, 0, 2, 0]);
    assert(seq_code(cyclic_window(s, 5, 98), 3) == 60);
    assert(cyclic_window(s, 5, 99) =~= seq![2int, 0, 2, 0, 1]);
    assert(seq_code(cyclic_window(s, 5, 99), 3) == 101);
    assert(cyclic_window(s, 5, 100) =~= seq![0int, 2, 0, 1, 2]);
    assert(seq_code(cyclic_window(s, 5, 100), 3) == 195);
    assert(cyclic_window(s, 5, 101) =~= seq![2int, 0, 1, 2, 0]);
    assert(seq_code(cyclic_window(s, 5, 101), 3) == 65);
    assert(cyclic_window(s, 5, 102) =~= seq![0int, 1, 2, 0, 0]);
    assert(seq_code(cyclic_window(s, 5, 102), 3) == 21);
    assert(cyclic_window(s, 5, 103) =~= seq![1int, 2, 0, 0, 2]);
    assert(seq_code(cyclic_window(s, 5, 103), 3) == 169);
    assert(cyclic_window(s, 5, 104) =~= seq![2int, 0, 0, 2, 2]);
    assert(seq_code(cyclic_window(s, 5, 104), 3) == 218);
    assert(cyclic_window(s, 5, 105) =~= seq![0int, 0, 2, 2, 1]);
    assert(seq_code(cyclic_window(s, 5, 105), 3) == 153);
    assert(cyclic_window(s, 5, 106) =~= seq![0int, 2, 2, 1, 1]);
    assert(seq_code(cyclic_window(s, 5, 106), 3) == 132);
    assert(cyclic_window(s, 5, 107) =~= seq![2int, 2, 1, 1, 0]);
    assert(seq_code(cyclic_window(s, 5, 107), 3) == 44);
    assert(cyclic_window(s, 5, 108) =~= seq![2int, 1, 1, 0, 0]);
    assert(seq_code(cyclic_window(s, 5, 108), 3) == 14);
    assert(cyclic_window(s, 5, 109) =~= seq![1int, 1, 0, 0, 2]);
    assert(seq_code(cyclic_window(s, 5, 109), 3) == 166);
    assert(cyclic_window(s, 5, 110) =~= seq![1int, 0, 0, 2, 1]);
    assert(seq_code(cyclic_window(s, 5, 110), 3) == 136);
    assert(cyclic_window(s, 5, 111) =~= seq![0int, 0, 2, 1, 0]);
    assert(seq_code(cyclic_window(s, 5, 111), 3) == 45);
    assert(cyclic_window(s, 5, 112) =~= seq![0int, 2, 1, 0, 1]);
    assert(seq_code(cyclic_window(s, 5, 112), 3) == 96);
    assert(cyclic_window(s, 5, 113) =~= seq![2int, 1, 0, 1, 1]);
    assert(seq_code(cyclic_window(s, 5, 113), 3) == 113);
    assert(cyclic_window(s, 5, 114) =~= seq![1int, 0, 1, 1, 2]);
    assert(seq_code(cyclic_window(s, 5, 114), 3) == 199);
    assert(cyclic_window(s, 5, 115) =~= seq![0int, 1, 1, 2, 1]);
    assert(seq_code(cyclic_window(s, 5, 115), 3) == 147);
    assert(cyclic_window(s, 5, 116) =~= seq![1int, 1, 2, 1, 0]);
    assert(seq_code(cyclic_window(s, 5, 116), 3) == 49);
    assert(cyclic_window(s, 5, 117) =~= seq![1int, 2, 1, 0, 2]);
    assert(seq_code(cyclic_window(s, 5, 117), 3) == 178);
    assert(cyclic_window(s, 5, 118) =~= seq![2int, 1, 0, 2, 0]);
    assert(seq_code(cyclic_window(s, 5, 118), 3) == 59);
    assert(cyclic_window(s, 5, 119) =~= seq![1int, 0, 2, 0, 2]);
    assert(seq_code(cyclic_window(s, 5, 119), 3) == 181);
    assert forall|p: int| 90 <= p < 120 implies a2_window_index(
        #[trigger] seq_code(cyclic_window(s, 5, p), 3),
    ) == p by {
        assert(p == 90 || p == 91 || p == 92 || p == 93 || p == 94 || p == 95 || p == 96 || p == 97 || p == 98 || p == 99 || p == 100 || p == 101 || p == 102 || p == 103 || p == 104 || p == 105 || p == 106 || p == 107 || p == 108 || p == 109 || p == 110 || p == 111 || p == 112 || p == 113 || p == 114 || p == 115 || p == 116 || p == 117 || p == 118 || p == 119);
    }
}

#[verifier::rlimit(100)]
proof fn lemma_a2_codes_4()
    ensures
        forall|p: int|
            120 <= p < 150 ==> a2_window_index(
                #[trigger] seq_code(cyclic_window(a2_seq(), 5, p), 3),
            ) == p,
{
    let s = a2_seq();
    reveal_with_fuel(seq_code_from, 7);
    assert(cyclic_window(s, 5, 120) =~= seq![0int, 2, 0, 2, 2]);
    assert(seq_code(cyclic_window(s, 5, 120), 3) == 222);
    assert(cyclic_window(s, 5, 121) =~= seq![2int, 0, 2, 2, 1]);
    assert(seq_code(cyclic_window(s, 5, 121), 3) == 155);
    assert(cyclic_window(s, 5, 122) =~= seq![0int, 2, 2, 1, 0]);
    assert(seq_code(cyclic_window(s, 5, 122), 3) == 51);
    assert(cyclic_window(s, 5, 123) =~= seq![2int, 2, 1, 0, 0]);
    assert(seq_code(cyclic_window(s, 5, 123), 3) == 17);
    assert(cyclic_window(s, 5, 124) =~= seq![2int, 1, 0, 0, 2]);
    assert(seq_code(cyclic_window(s, 5, 124), 3) == 167);
    assert(cyclic_window(s, 5, 125) =~= seq![1int, 0, 0, 2, 2]);
    assert(seq_code(cyclic_window(s, 5, 125), 3) == 217);
    assert(cyclic_window(s, 5, 126) =~= seq![0int, 0, 2, 2, 2]);
    assert(seq_code(cyclic_window(s, 5, 126), 3) == 234);
    assert(cyclic_window(s, 5, 127) =~= seq![0int, 2, 2, 2, 1]);
    assert(seq_code(cyclic_window(s, 5, 127), 3) == 159);
    assert(cyclic_window(s, 5, 128) =~= seq![2int, 2, 2, 1, 0]);
    assert(seq_code(cyclic_window(s, 5, 128), 3) == 53);
    assert(cyclic_window(s, 5, 129) =~= seq![2int, 2, 1, 0, 1]);
    assert(seq_code(cyclic_window(s, 5, 129), 3) == 98);
    assert(cyclic_window(s, 5, 130) =~= seq![2int, 1, 0, 1, 2]);
    assert(seq_code(cyclic_window(s, 5, 130), 3) == 194);
    assert(cyclic_window(s, 5, 131) =~= seq![1int, 0, 1, 2, 2]);
    assert(seq_code(cyclic_window(s, 5, 131), 3) == 226);
    assert(cyclic_window(s, 5, 132) =~= seq![0int, 1, 2, 2, 0]);
    assert(seq_code(cyclic_window(s, 5, 132), 3) == 75);
    assert(cyclic_window(s, 5, 133) =~= seq![1int, 2, 2, 0, 0]);
    assert(seq_code(cyclic_window(s, 5, 133), 3) == 25);
    assert(cyclic_window(s, 5, 134) =~= seq![2int, 2, 0, 0, 2]);
    assert(seq_code(cyclic_window(s, 5, 134), 3) == 170);
    assert(cyclic_window(s, 5, 135) =~= seq![2int, 0, 0, 2, 1]);
    assert(seq_code(cyclic_window(s, 5, 135), 3) == 137);
    assert(cyclic_window(s, 5, 136) =~= seq![0int, 0, 2, 1, 2]);
    assert(seq_code(cyclic_window(s, 5, 136), 3) == 207);
    assert(cyclic_window(s, 5, 137) =~= seq![0int, 2, 1, 2, 2]);
    assert(seq_code(cyclic_window(s, 5, 137), 3) == 231);
    assert(cyclic_window(s, 5, 138) =~= seq![2int, 1, 2, 2, 1]);
    assert(seq_code(cyclic_window(s, 5, 138), 3) == 158);
    assert(cyclic_window(s, 5, 139) =~= seq![1int, 2, 2, 1, 1]);
    assert(seq_code(cyclic_window(s, 5, 139), 3) == 133);
    assert(cyclic_window(s, 5, 140) =~= seq![2int, 2, 1, 1, 1]);
    assert(seq_code(cyclic_window(s, 5, 140), 3) == 125);
    assert(cyclic_window(s, 5, 141) =~= seq![2int, 1, 1, 1, 1]);
    assert(seq_code(cyclic_window(s, 5, 141), 3) == 122);
    assert(cyclic_window(s, 5, 142) =~= seq![1int, 1, 1, 1, 1]);
    assert(seq_code(cyclic_window(s, 5, 142), 3) == 121);
    assert(cyclic_window(s, 5, 143) =~= seq![1int, 1, 1, 1, 2]);
    assert(seq_code(cyclic_window(s, 5, 143), 3) == 202);
    assert(cyclic_window(s, 5, 144) =~= seq![1int, 1, 1, 2, 0]);
    assert(seq_code(cyclic_window(s, 5, 144), 3) == 67);
    assert(cyclic_window(s, 5, 145) =~= seq![1int, 1, 2, 0, 0]);
    assert(seq_code(cyclic_window(s, 5, 145), 3) == 22);
    assert(cyclic_window(s, 5, 146) =~= seq![1int, 2, 0, 0, 1]);
    assert(seq_code(cyclic_window(s, 5, 146), 3) == 88);
    assert(cyclic_window(s, 5, 147) =~= seq![2int, 0, 0, 1, 2]);
    assert(seq_code(cyclic_window(s, 5, 147), 3) == 191);
    assert(cyclic_window(s, 5, 148) =~= seq![0int, 0, 1, 2, 2]);
    assert(seq_code(cyclic_window(s, 5, 148), 3) == 225);
    assert(cyclic_window(s, 5, 149) =~= seq![0int, 1, 2, 2, 1]);
    assert(seq_code(cyclic_window(s, 5, 149), 3) == 156);
    assert forall|p: int| 120 <= p < 150 implies a2_window_index(
        #[trigger] seq_code(cyclic_window(s, 5, p), 3),
    ) == p by {
        assert(p == 120 || p == 121 || p == 122 || p == 123 || p == 124 || p == 125 || p == 126 || p == 127 || p == 128 || p == 129 || p == 130 || p == 131 || p == 132 || p == 133 || p == 134 || p == 135 || p == 136 || p == 137 || p == 138 || p == 139 || p == 140 || p == 141 || p == 142 || p == 143 || p == 144 || p == 145 || p == 146 || p == 147 || p == 148 || p == 149);
    }
}

#[verifier::rlimit(100)]
proof fn lemma_a2_codes_5()
    ensures
        forall|p: int|
            150 <= p < 180 ==> a2_window_index(
                #[trigger] seq_code(cyclic_window(a2_seq(), 5, p), 3),
            ) == p,
{
    let s = a2_seq();
    reveal_with_fuel(seq_code_from, 7);
    assert(cyclic_window(s, 5, 150) =~= seq![1int, 2, 2, 1, 2]);
    assert(seq_code(cyclic_window(s, 5, 150), 3) == 214);
    assert(cyclic_window(s, 5, 151) =~= seq![2int, 2, 1, 2, 0]);
    assert(seq_code(cyclic_window(s, 5, 151), 3) == 71);
    assert(cyclic_window(s, 5, 152) =~= seq![2int, 1, 2, 0, 1]);
    assert(seq_code(cyclic_window(s, 5, 152), 3) == 104);
    assert(cyclic_window(s, 5, 153) =~= seq![1int, 2, 0, 1, 1]);
    assert(seq_code(cyclic_window(s, 5, 153), 3) == 115);
    assert(cyclic_window(s, 5, 154) =~= seq![2int, 0, 1, 1, 1]);
    assert(seq_code(cyclic_window(s, 5, 154), 3) == 119);
    assert(cyclic_window(s, 5, 155) =~= seq![0int, 1, 1, 1, 2]);
    assert(seq_code(cyclic_window(s, 5, 155), 3) == 201);
    assert(cyclic_window(s, 5, 156) =~= seq![1int, 1, 1, 2, 1]);
    assert(seq_code(cyclic_window(s, 5, 156), 3) == 148);
    assert(cyclic_window(s, 5, 157) =~= seq![1int, 1, 2, 1, 1]);
    assert(seq_code(cyclic_window(s, 5, 157), 3) == 130);
    assert(cyclic_window(s, 5, 158) =~= seq![1int, 2, 1, 1, 2]);
    assert(seq_code(cyclic_window(s, 5, 158), 3) == 205);
    assert(cyclic_window(s, 5, 159) =~= seq![2int, 1, 1, 2, 0]);
    assert(seq_code(cyclic_window(s, 5, 159), 3) == 68);
    assert(cyclic_window(s, 5, 160) =~= seq![1int, 1, 2, 0, 1]);
    assert(seq_code(cyclic_window(s, 5, 160), 3) == 103);
    assert(cyclic_window(s, 5, 161) =~= seq![1int, 2, 0, 1, 2]);
    assert(seq_code(cyclic_window(s, 5, 161), 3) == 196);
    assert(cyclic_window(s, 5, 162) =~= seq![2int, 0, 1, 2, 1]);
    assert(seq_code(cyclic_window(s, 5, 162), 3) == 146);
    assert(cyclic_window(s, 5, 163) =~= seq![0int, 1, 2, 1, 1]);
    assert(seq_code(cyclic_window(s, 5, 163), 3) == 129);
    assert(cyclic_window(s, 5, 164) =~= seq![1int, 2, 1, 1, 1]);
    assert(seq_code(cyclic_window(s, 5, 164), 3) == 124);
    assert(cyclic_window(s, 5, 165) =~= seq![2int, 1, 1, 1, 2]);
    assert(seq_code(cyclic_window(s, 5, 165), 3) == 203);
    assert(cyclic_window(s, 5, 166) =~= seq![1int, 1, 1, 2, 2]);
    assert(seq_code(cyclic_window(s, 5, 166), 3) == 229);
    assert(cyclic_window(s, 5, 167) =~= seq![1int, 1, 2, 2, 0]);
    assert(seq_code(cyclic_window(s, 5, 167), 3) == 76);
    assert(cyclic_window(s, 5, 168) =~= seq![1int, 2, 2, 0, 2]);
    assert(seq_code(cyclic_window(s, 5, 168), 3) == 187);
    assert(cyclic_window(s, 5, 169) =~= seq![2int, 2, 0, 2, 2]);
    assert(seq_code(cyclic_window(s, 5, 169), 3) == 224);
    assert(cyclic_window(s, 5, 170) =~= seq![2int, 0, 2, 2, 0]);
    assert(seq_code(cyclic_window(s, 5, 170), 3) == 74);
    assert(cyclic_window(s, 5, 171) =~= seq![0int, 2, 2, 0, 1]);
    assert(seq_code(cyclic_window(s, 5, 171), 3) == 105);
    assert(cyclic_window(s, 5, 172) =~= seq![2int, 2, 0, 1, 1]);
    assert(seq_code(cyclic_window(s, 5, 172), 3) == 116);
    assert(cyclic_window(s, 5, 173) =~= seq![2int, 0, 1, 1, 2]);
    assert(seq_code(cyclic_window(s, 5, 173), 3) == 200);
    assert(cyclic_window(s, 5, 174) =~= seq![0int, 1, 1, 2, 2]);
    assert(seq_code(cyclic_window(s, 5, 174), 3) == 228);
    assert(cyclic_window(s, 5, 175) =~= seq![1int, 1, 2, 2, 2]);
    assert(seq_code(cyclic_window(s, 5, 175), 3) == 238);
    assert(cyclic_window(s, 5, 176) =~= seq![1int, 2, 2, 2, 2]);
    assert(seq_code(cyclic_window(s, 5, 176), 3) == 241);
    assert(cyclic_window(s, 5, 177) =~= seq![2int, 2, 2, 2, 1]);
    assert(seq_code(cyclic_window(s, 5, 177), 3) == 161);
    assert(cyclic_window(s, 5, 178) =~= seq![2int, 2, 2, 1, 2]);
    assert(seq_code(cyclic_window(s, 5, 178), 3) == 215);
    assert(cyclic_window(s, 5, 179) =~= seq![2int, 2, 1, 2, 1]);
    assert(seq_code(cyclic_window(s, 5, 179), 3) == 152);
    assert forall|p: int| 150 <= p < 180 implies a2_window_index(
        #[trigger] seq_code(cyclic_window(s, 5, p), 3),
    ) == p by {
        assert(p == 150 || p == 151 || p == 152 || p == 153 || p == 154 || p == 155 || p == 156 || p == 157 || p == 158 || p == 159 || p == 160 || p == 161 || p == 162 || p == 163 || p == 164 || p == 165 || p == 166 || p == 167 || p == 168 || p == 169 || p == 170 || p == 171 || p == 172 || p == 173 || p == 174 || p == 175 || p == 176 || p == 177 || p == 178 || p == 179);
    }
}

#[verifier::rlimit(100)]
proof fn lemma_a2_codes_6()
    ensures
        forall|p: int|
            180 <= p < 210 ==> a2_window_index(
                #[trigger] seq_code(cyclic_window(a2_seq(), 5, p), 3),
            ) == p,
{
    let s = a2_seq();
    reveal_with_fuel(seq_code_from, 7);
    assert(cyclic_window(s, 5, 180) =~= seq![2int, 1, 2, 1, 2]);
    assert(seq_code(cyclic_window(s, 5, 180), 3) == 212);
    assert(cyclic_window(s, 5, 181) =~= seq![1int, 2, 1, 2, 2]);
    assert(seq_code(cyclic_window(s, 5, 181), 3) == 232);
    assert(cyclic_window(s, 5, 182) =~= seq![2int, 1, 2, 2, 0]);
    assert(seq_code(cyclic_window(s, 5, 182), 3) == 77);
    assert(cyclic_window(s, 5, 183) =~= seq![1int, 2, 2, 0, 1]);
    assert(seq_code(cyclic_window(s, 5, 183), 3) == 106);
    assert(cyclic_window(s, 5, 184) =~= seq![2int, 2, 0, 1, 2]);
    assert(seq_code(cyclic_window(s, 5, 184), 3) == 197);
    assert(cyclic_window(s, 5, 185) =~= seq![2int, 0, 1, 2, 2]);
    assert(seq_code(cyclic_window(s, 5, 185), 3) == 227);
    assert(cyclic_window(s, 5, 186) =~= seq![0int, 1, 2, 2, 2]);
    assert(seq_code(cyclic_window(s, 5, 186), 3) == 237);
    assert(cyclic_window(s, 5, 187) =~= seq![1int, 2, 2, 2, 0]);
    assert(seq_code(cyclic_window(s, 5, 187), 3) == 79);
    assert(cyclic_window(s, 5, 188) =~= seq![2int, 2, 2, 0, 2]);
    assert(seq_code(cyclic_window(s, 5, 188), 3) == 188);
    assert(cyclic_window(s, 5, 189) =~= seq![2int, 2, 0, 2, 0]);
    assert(seq_code(cyclic_window(s, 5, 189), 3) == 62);
    assert(cyclic_window(s, 5, 190) =~= seq![2int, 0, 2, 0, 2]);
    assert(seq_code(cyclic_window(s, 5, 190), 3) == 182);
    assert(cyclic_window(s, 5, 191) =~= seq![0int, 2, 0, 2, 1]);
    assert(seq_code(cyclic_window(s, 5, 191), 3) == 141);
    assert(cyclic_window(s, 5, 192) =~= seq![2int, 0, 2, 1, 1]);
    assert(seq_code(cyclic_window(s, 5, 192), 3) == 128);
    assert(cyclic_window(s, 5, 193) =~= seq![0int, 2, 1, 1, 2]);
    assert(seq_code(cyclic_window(s, 5, 193), 3) == 204);
    assert(cyclic_window(s, 5, 194) =~= seq![2int, 1, 1, 2, 2]);
    assert(seq_code(cyclic_window(s, 5, 194), 3) == 230);
    assert(cyclic_window(s, 5, 195) =~= seq![1int, 1, 2, 2, 1]);
    assert(seq_code(cyclic_window(s, 5, 195), 3) == 157);
    assert(cyclic_window(s, 5, 196) =~= seq![1int, 2, 2, 1, 0]);
    assert(seq_code(cyclic_window(s, 5, 196), 3) == 52);
    assert(cyclic_window(s, 5, 197) =~= seq![2int, 2, 1, 0, 2]);
    assert(seq_code(cyclic_window(s, 5, 197), 3) == 179);
    assert(cyclic_window(s, 5, 198) =~= seq![2int, 1, 0, 2, 2]);
    assert(seq_code(cyclic_window(s, 5, 198), 3) == 221);
    assert(cyclic_window(s, 5, 199) =~= seq![1int, 0, 2, 2, 0]);
    assert(seq_code(cyclic_window(s, 5, 199), 3) == 73);
    assert(cyclic_window(s, 5, 200) =~= seq![0int, 2, 2, 0, 2]);
    assert(seq_code(cyclic_window(s, 5, 200), 3) == 186);
    assert(cyclic_window(s, 5, 201) =~= seq![2int, 2, 0, 2, 1]);
    assert(seq_code(cyclic_window(s, 5, 201), 3) == 143);
    assert(cyclic_window(s, 5, 202) =~= seq![2int, 0, 2, 1, 0]);
    assert(seq_code(cyclic_window(s, 5, 202), 3) == 47);
    assert(cyclic_window(s, 5, 203) =~= seq![0int, 2, 1, 0, 2]);
    assert(seq_code(cyclic_window(s, 5, 203), 3) == 177);
    assert(cyclic_window(s, 5, 204) =~= seq![2int, 1, 0, 2, 1]);
    assert(seq_code(cyclic_window(s, 5, 204), 3) == 140);
    assert(cyclic_window(s, 5, 205) =~= seq![1int, 0, 2, 1, 1]);
    assert(seq_code(cyclic_window(s, 5, 205), 3) == 127);
    assert(cyclic_window(s, 5, 206) =~= seq![0int, 2, 1, 1, 0]);
    assert(seq_code(cyclic_window(s, 5, 206), 3) == 42);
    assert(cyclic_window(s, 5, 207) =~= seq![2int, 1, 1, 0, 2]);
    assert(seq_code(cyclic_window(s, 5, 207), 3) == 176);
    assert(cyclic_window(s, 5, 208) =~= seq![1int, 1, 0, 2, 2]);
    assert(seq_code(cyclic_window(s, 5, 208), 3) == 220);
    assert(cyclic_window(s, 5, 209) =~= seq![1int, 0, 2, 2, 2]);
    assert(seq_code(cyclic_window(s, 5, 209), 3) == 235);
    assert forall|p: int| 180 <= p < 210 implies a2_window_index(
        #[trigger] seq_code(cyclic_window(s, 5, p), 3),
    ) == p by {
        assert(p == 180 || p == 181 || p == 182 || p == 183 || p == 184 || p == 185 || p == 186 || p == 187 || p == 188 || p == 189 || p == 190 || p == 191 || p == 192 || p == 193 || p == 194 || p == 195 || p == 196 || p == 197 || p == 198 || p == 199 || p == 200 || p == 201 || p == 202 || p == 203 || p == 204 || p == 205 || p == 206 || p == 207 || p == 208 || p == 209);
    }
}

#[verifier::rlimit(100)]
proof fn lemma_a2_codes_7()
    ensures
        forall|p: int|
            210 <= p < 233 ==> a2_window_index(
                #[trigger] seq_code(cyclic_window(a2_seq(), 5, p), 3),
            ) == p,
{
    let s = a2_seq();
    reveal_with_fuel(seq_code_from, 7);
    assert(cyclic_window(s, 5, 210) =~= seq![0int, 2, 2, 2, 2]);
    assert(seq_code(cyclic_window(s, 5, 210), 3) == 240);
    assert(cyclic_window(s, 5, 211) =~= seq![2int, 2, 2, 2, 0]);
    assert(seq_code(cyclic_window(s, 5, 211), 3) == 80);
    assert(cyclic_window(s, 5, 212) =~= seq![2int, 2, 2, 0, 1]);
    assert(seq_code(cyclic_window(s, 5, 212), 3) == 107);
    assert(cyclic_window(s, 5, 213) =~= seq![2int, 2, 0, 1, 0]);
    assert(seq_code(cyclic_window(s, 5, 213), 3) == 35);
    assert(cyclic_window(s, 5, 214) =~= seq![2int, 0, 1, 0, 2]);
    assert(seq_code(cyclic_window(s, 5, 214), 3) == 173);
    assert(cyclic_window(s, 5, 215) =~= seq![0int, 1, 0, 2, 2]);
    assert(seq_code(cyclic_window(s, 5, 215), 3) == 219);
    assert(cyclic_window(s, 5, 216) =~= seq![1int, 0, 2, 2, 1]);
    assert(seq_code(cyclic_window(s, 5, 216), 3) == 154);
    assert(cyclic_window(s, 5, 217) =~= seq![0int, 2, 2, 1, 2]);
    assert(seq_code(cyclic_window(s, 5, 217), 3) == 213);
    assert(cyclic_window(s, 5, 218) =~= seq![2int, 2, 1, 2, 2]);
    assert(seq_code(cyclic_window(s, 5, 218), 3) == 233);
    assert(cyclic_window(s, 5, 219) =~= seq![2int, 1, 2, 2, 2]);
    assert(seq_code(cyclic_window(s, 5, 219), 3) == 239);
    assert(cyclic_window(s, 5, 220) =~= seq![1int, 2, 2, 2, 1]);
    assert(seq_code(cyclic_window(s, 5, 220), 3) == 160);
    assert(cyclic_window(s, 5, 221) =~= seq![2int, 2, 2, 1, 1]);
    assert(seq_code(cyclic_window(s, 5, 221), 3) == 134);
    assert(cyclic_window(s, 5, 222) =~= seq![2int, 2, 1, 1, 2]);
    assert(seq_code(cyclic_window(s, 5, 222), 3) == 206);
    assert(cyclic_window(s, 5, 223) =~= seq![2int, 1, 1, 2, 1]);
    assert(seq_code(cyclic_window(s, 5, 223), 3) == 149);
    assert(cyclic_window(s, 5, 224) =~= seq![1int, 1, 2, 1, 2]);
    assert(seq_code(cyclic_window(s, 5, 224), 3) == 211);
    assert(cyclic_window(s, 5, 225) =~= seq![1int, 2, 1, 2, 0]);
    assert(seq_code(cyclic_window(s, 5, 225), 3) == 70);
    assert(cyclic_window(s, 5, 226) =~= seq![2int, 1, 2, 0, 2]);
    assert(seq_code(cyclic_window(s, 5, 226), 3) == 185);
    assert(cyclic_window(s, 5, 227) =~= seq![1int, 2, 0, 2, 2]);
    assert(seq_code(cyclic_window(s, 5, 227), 3) == 223);
    assert(cyclic_window(s, 5, 228) =~= seq![2int, 0, 2, 2, 2]);
    assert(seq_code(cyclic_window(s, 5, 228), 3) == 236);
    assert(cyclic_window(s, 5, 229) =~= seq![0int, 2, 2, 2, 0]);
    assert(seq_code(cyclic_window(s, 5, 229), 3) == 78);
    assert(cyclic_window(s, 5, 230) =~= seq![2int, 2, 2, 0, 0]);
    assert(seq_code(cyclic_window(s, 5, 230), 3) == 26);
    assert(cyclic_window(s, 5, 231) =~= seq![2int, 2, 0, 0, 0]);
    assert(seq_code(cyclic_window(s, 5, 231), 3) == 8);
    assert(cyclic_window(s, 5, 232) =~= seq![2int, 0, 0, 0, 0]);
    assert(seq_code(cyclic_window(s, 5, 232), 3) == 2);
    assert forall|p: int| 210 <= p < 233 implies a2_window_index(
        #[trigger] seq_code(cyclic_window(s, 5, p), 3),
    ) == p by {
        assert(p == 210 || p == 211 || p == 212 || p == 213 || p == 214 || p == 215 || p == 216 || p == 217 || p == 218 || p == 219 || p == 220 || p == 221 || p == 222 || p == 223 || p == 224 || p == 225 || p == 226 || p == 227 || p == 228 || p == 229 || p == 230 || p == 231 || p == 232);
    }
}

/// Every cyclic window of order 5 occurs at most once in the secondary sequence A2.
pub proof fn lemma_a2_windows_unique()
    ensures
        windows_unique(a2_seq(), 5),
{
    let s = a2_seq();
    lemma_a2_codes_0();
    lemma_a2_codes_1();
    lemma_a2_codes_2();
    lemma_a2_codes_3();
    lemma_a2_codes_4();
    lemma_a2_codes_5();
    lemma_a2_codes_6();
    lemma_a2_codes_7();
    assert forall|p: int, q: int|
        0 <= p < s.len() && 0 <= q < s.len() && #[trigger] cyclic_window(s, 5, p)
            == #[trigger] cyclic_window(s, 5, q) implies p == q by {
        assert(a2_window_index(seq_code(cyclic_window(s, 5, p), 3)) == p);
        assert(a2_window_index(seq_code(cyclic_window(s, 5, q), 3)) == q);
    }
}

spec fn a3_window_index(c: int) -> int {
    if c == 0 {
        0
    } else if c == 16 {
        1
    } else if c == 8 {
        2
    } else if c == 4 {
        3
    } else if c == 18 {
        4
    } else if c == 25 {
        5
    } else if c == 12 {
        6
    } else if c == 6 {
        7
    } else if c == 3 {
        8
    } else if c == 17 {
        9
    } else if c == 24 {
        10
    } else if c == 28 {
        11
    } else if c == 30 {
        12
    } else if c == 15 {
        13
    } else if c == 7 {
        14
    } else if c == 19 {
        15
    } else if c == 9 {
        16
    } else if c == 20 {
        17
    } else if c == 10 {
        18
    } else if c == 21 {
        19
    } else if c == 26 {
        20
    } else if c == 13 {
        21
    } else if c == 22 {
        22
    } else if c == 27 {
        23
    } else if c == 29 {
        24
    } else if c == 14 {
        25
    } else if c == 23 {
        26
    } else if c == 11 {
        27
    } else if c == 5 {
        28
    } else if c == 2 {
        29
    } else if c == 1 {
        30
    } else {
        -1
    }
}

#[verifier::rlimit(100)]
proof fn lemma_a3_codes_0()
    ensures
        forall|p: int|
            0 <= p < 30 ==> a3_window_index(
                #[trigger] seq_code(cyclic_window(a3_seq(), 5, p), 2),
            ) == p,
{
    let s = a3_seq();
    reveal_with_fuel(seq_code_from, 7);
    assert(cyclic_window(s, 5, 0) =~= seq![0int, 0, 0, 0, 0]);
    assert(seq_code(cyclic_window(s, 5, 0), 2) == 0);
    assert(cyclic_window(s, 5, 1) =~= seq![0int, 0, 0, 0, 1]);
    assert(seq_code(cyclic_window(s, 5, 1), 2) == 16);
    assert(cyclic_window(s, 5, 2) =~= seq![0int, 0, 0, 1, 0]);
    assert(seq_code(cyclic_window(s, 5, 2), 2) == 8);
    assert(cyclic_window(s, 5, 3) =~= seq![0int, 0, 1, 0, 0]);
    assert(seq_code(cyclic_window(s, 5, 3), 2) == 4);
    assert(cyclic_window(s, 5, 4) =~= seq![0int, 1, 0, 0, 1]);
    assert(seq_code(cyclic_window(s, 5, 4), 2) == 18);
    assert(cyclic_window(s, 5, 5) =~= seq![1int, 0, 0, 1, 1]);
    assert(seq_code(cyclic_window(s, 5, 5), 2) == 25);
    assert(cyclic_window(s, 5, 6) =~= seq![0int, 0, 1, 1, 0]);
    assert(seq_code(cyclic_window(s, 5, 6), 2) == 12);
    assert(cyclic_window(s, 5, 7) =~= seq![0int, 1, 1, 0, 0]);
    assert(seq_code(cyclic_window(s, 5, 7), 2) == 6);
    assert(cyclic_window(s, 5, 8) =~= seq![1int, 1, 0, 0, 0]);
    assert(seq_code(cyclic_window(s, 5, 8), 2) == 3);
    assert(cyclic_window(s, 5, 9) =~= seq![1int, 0, 0, 0, 1]);
    assert(seq_code(cyclic_window(s, 5, 9), 2) == 17);
    assert(cyclic_window(s, 5, 10) =~= seq![0int, 0, 0, 1, 1]);
    assert(seq_code(cyclic_window(s, 5, 10), 2) == 24);
    assert(cyclic_window(s, 5, 11) =~= seq![0int, 0, 1, 1, 1]);
    assert(seq_code(cyclic_window(s, 5, 11), 2) == 28);
    assert(cyclic_window(s, 5, 12) =~= seq![0int, 1, 1, 1, 1]);
    assert(seq_code(cyclic_window(s, 5, 12), 2) == 30);
    assert(cyclic_window(s, 5, 13) =~= seq![1int, 1, 1, 1, 0]);
    assert(seq_code(cyclic_window(s, 5, 13), 2) == 15);
    assert(cyclic_window(s, 5, 14) =~= seq![1int, 1, 1, 0, 0]);
    assert(seq_code(cyclic_window(s, 5, 14), 2) == 7);
    assert(cyclic_window(s, 5, 15) =~= seq![1int, 1, 0, 0, 1]);
    assert(seq_code(cyclic_window(s, 5, 15), 2) == 19);
    assert(cyclic_window(s, 5, 16) =~= seq![1int, 0, 0, 1, 0]);
    assert(seq_code(cyclic_window(s, 5, 16), 2) == 9);
    assert(cyclic_window(s, 5, 17) =~= seq![0int, 0, 1, 0, 1]);
    assert(seq_code(cyclic_window(s, 5, 17), 2) == 20);
    assert(cyclic_window(s, 5, 18) =~= seq![0int, 1, 0, 1, 0]);
    assert(seq_code(cyclic_window(s, 5, 18), 2) == 10);
    assert(cyclic_window(s, 5, 19) =~= seq![1int, 0, 1, 0, 1]);
    assert(seq_code(cyclic_window(s, 5, 19), 2) == 21);
    assert(cyclic_window(s, 5, 20) =~= seq![0int, 1, 0, 1, 1]);
    assert(seq_code(cyclic_window(s, 5, 20), 2) == 26);
    assert(cyclic_window(s, 5, 21) =~= seq![1int, 0, 1, 1, 0]);
    assert(seq_code(cyclic_window(s, 5, 21), 2) == 13);
    assert(cyclic_window(s, 5, 22) =~= seq![0int, 1, 1, 0, 1]);
    assert(seq_code(cyclic_window(s, 5, 22), 2) == 22);
    assert(cyclic_window(s, 5, 23) =~= seq![1int, 1, 0, 1, 1]);
    assert(seq_code(cyclic_window(s, 5, 23), 2) == 27);
    assert(cyclic_window(s, 5, 24) =~= seq![1int, 0, 1, 1, 1]);
    assert(seq_code(cyclic_window(s, 5, 24), 2) == 29);
    assert(cyclic_window(s, 5, 25) =~= seq![0int, 1, 1, 1, 0]);
    assert(seq_code(cyclic_window(s, 5, 25), 2) == 14);
    assert(cyclic_window(s, 5, 26) =~= seq![1int, 1, 1, 0, 1]);
    assert(seq_code(cyclic_window(s, 5, 26), 2) == 23);
    assert(cyclic_window(s, 5, 27) =~= seq![1int, 1, 0, 1, 0]);
    assert(seq_code(cyclic_window(s, 5, 27), 2) == 11);
    assert(cyclic_window(s, 5, 28) =~= seq![1int, 0, 1, 0, 0]);
    assert(seq_code(cyclic_window(s, 5, 28), 2) == 5);
    assert(cyclic_window(s, 5, 29) =~= seq![0int, 1, 0, 0, 0]);
    assert(seq_code(cyclic_window(s, 5, 29), 2) == 2);
    assert forall|p: int| 0 <= p < 30 implies a3_window_index(
        #[trigger] seq_code(cyclic_window(s, 5, p), 2),
    ) == p by {
        assert(p == 0 || p == 1 || p == 2 || p == 3 || p == 4 || p == 5 || p == 6 || p == 7 || p == 8 || p == 9 || p == 10 || p == 11 || p == 12 || p == 13 || p == 14 || p == 15 || p == 16 || p == 17 || p == 18 || p == 19 || p == 20 || p == 21 || p == 22 || p == 23 || p == 24 || p == 25 || p == 26 || p == 27 || p == 28 || p == 29);
    }
}

#[verifier::rlimit(100)]
proof fn lemma_a3_codes_1()
    ensures
        forall|p: int|
            30 <= p < 31 ==> a3_window_index(
                #[trigger] seq_code(cyclic_window(a3_seq(), 5, p), 2),
            ) == p,
{
    let s = a3_seq();
    reveal_with_fuel(seq_code_from, 7);
    assert(cyclic_window(s, 5, 30) =~= seq![1int, 0, 0, 0, 0]);
    assert(seq_code(cyclic_window(s, 5, 30), 2) == 1);
    assert forall|p: int| 30 <= p < 31 implies a3_window_index(
        #[trigger] seq_code(cyclic_window(s, 5, p), 2),
    ) == p by {
        assert(p == 30);
    }
}

/// Every cyclic window of order 5 occurs at most once in the secondary sequence A3.
pub proof fn lemma_a3_windows_unique()
    ensures
        windows_unique(a3_seq(), 5),
{
    let s = a3_seq();
    lemma_a3_codes_0();
    lemma_a3_codes_1();
    assert forall|p: int, q: int|
        0 <= p < s.len() && 0 <= q < s.len() && #[trigger] cyclic_window(s, 5, p)
            == #[trigger] cyclic_window(s, 5, q) implies p == q by {
        assert(a3_window_index(seq_code(cyclic_window(s, 5, p), 2)) == p);
        assert(a3_window_index(seq_code(cyclic_window(s, 5, q), 2)) == q);
    }
}

spec fn a4_alt_window_index(c: int) -> int {
    if c == 162 {
        0
    } else if c == 216 {
        1
    } else if c == 234 {
        2
    } else if c == 240 {
        3
    } else if c == 80 {
        4
    } else if c == 188 {
        5
    } else if c == 224 {
        6
    } else if c == 236 {
        7
    } else if c == 159 {
        8
    } else if c == 53 {
        9
    } else if c == 179 {
        10
    } else if c == 221 {
        11
    } else if c == 235 {
        12
    } else if c == 78 {
        13
    } else if c == 26 {
        14
    } else if c == 170 {
        15
    } else if c == 218 {
        16
    } else if c == 153 {
        17
    } else if c == 213 {
        18
    } else if c == 71 {
        19
    } else if c == 185 {
        20
    } else if c == 223 {
        21
    } else if c == 155 {
        22
    } else if c == 132 {
        23
    } else if c == 44 {
        24
    } else if c == 176 {
        25
    } else if c == 220 {
        26
    } else if c == 154 {
        27
    } else if c == 51 {
        28
    } else if c == 17 {
        29
    } else if c == 167 {
        30
    } else if c == 217 {
        31
    } else if c == 72 {
        32
    } else if c == 24 {
        33
    } else if c == 8 {
        34
    } else if c == 164 {
        35
    } else if c == 135 {
        36
    } else if c == 207 {
        37
    } else if c == 231 {
        38
    } else if c == 77 {
        39
    } else if c == 187 {
        40
    } else if c == 143 {
        41
    } else if c == 209 {
        42
    } else if c == 150 {
        43
    } else if c == 50 {
        44
    } else if c == 178 {
        45
    } else if c == 140 {
        46
    } else if c == 208 {
        47
    } else if c == 69 {
        48
    } else if c == 23 {
        49
    } else if c == 169 {
        50
    } else if c == 137 {
        51
    } else if c == 126 {
        52
    } else if c == 204 {
        53
    } else if c == 68 {
        54
    } else if c == 184 {
        55
    } else if c == 142 {
        56
    } else if c == 128 {
        57
    } else if c == 123 {
        58
    } else if c == 41 {
        59
    } else if c == 175 {
        60
    } else if c == 139 {
        61
    } else if c == 127 {
        62
    } else if c == 42 {
        63
    } else if c == 14 {
        64
    } else if c == 166 {
        65
    } else if c == 136 {
        66
    } else if c == 45 {
        67
    } else if c == 15 {
        68
    } else if c == 5 {
        69
    } else if c == 163 {
        70
    } else if c == 54 {
        71
    } else if c == 180 {
        72
    } else if c == 222 {
        73
    } else if c == 74 {
        74
    } else if c == 186 {
        75
    } else if c == 62 {
        76
    } else if c == 182 {
        77
    } else if c == 141 {
        78
    } else if c == 47 {
        79
    } else if c == 177 {
        80
    } else if c == 59 {
        81
    } else if c == 181 {
        82
    } else if c == 60 {
        83
    } else if c == 20 {
        84
    } else if c == 168 {
        85
    } else if c == 56 {
        86
    } else if c == 99 {
        87
    } else if c == 33 {
        88
    } else if c == 11 {
        89
    } else if c == 165 {
        90
    } else if c == 55 {
        91
    } else if c == 18 {
        92
    } else if c == 6 {
        93
    } else if c == 2 {
        94
    } else if c == 81 {
        95
    } else if c == 189 {
        96
    } else if c == 225 {
        97
    } else if c == 237 {
        98
    } else if c == 79 {
        99
    } else if c == 107 {
        100
    } else if c == 197 {
        101
    } else if c == 227 {
        102
    } else if c == 156 {
        103
    } else if c == 52 {
        104
    } else if c == 98 {
        105
    } else if c == 194 {
        106
    } else if c == 226 {
        107
    } else if c == 75 {
        108
    } else if c == 25 {
        109
    } else if c == 89 {
        110
    } else if c == 191 {
        111
    } else if c == 144 {
        112
    } else if c == 210 {
        113
    } else if c == 70 {
        114
    } else if c == 104 {
        115
    } else if c == 196 {
        116
    } else if c == 146 {
        117
    } else if c == 129 {
        118
    } else if c == 43 {
        119
    } else if c == 95 {
        120
    } else if c == 193 {
        121
    } else if c == 145 {
        122
    } else if c == 48 {
        123
    } else if c == 16 {
        124
    } else if c == 86 {
        125
    } else if c == 190 {
        126
    } else if c == 63 {
        127
    } else if c == 21 {
        128
    } else if c == 7 {
        129
    } else if c == 83 {
        130
    } else if c == 108 {
        131
    } else if c == 198 {
        132
    } else if c == 228 {
        133
    } else if c == 76 {
        134
    } else if c == 106 {
        135
    } else if c == 116 {
        136
    } else if c == 200 {
        137
    } else if c == 147 {
        138
    } else if c == 49 {
        139
    } else if c == 97 {
        140
    } else if c == 113 {
        141
    } else if c == 199 {
        142
    } else if c == 66 {
        143
    } else if c == 22 {
        144
    } else if c == 88 {
        145
    } else if c == 110 {
        146
    } else if c == 117 {
        147
    } else if c == 201 {
        148
    } else if c == 67 {
        149
    } else if c == 103 {
        150
    } else if c == 115 {
        151
    } else if c == 119 {
        152
    } else if c == 120 {
        153
    } else if c == 202 {
        154
    } else if c == 229 {
        155
    } else if c == 238 {
        156
    } else if c == 241 {
        157
    } else if c == 161 {
        158
    } else if c == 215 {
        159
    } else if c == 233 {
        160
    } else if c == 239 {
        161
    } else if c == 160 {
        162
    } else if c == 134 {
        163
    } else if c == 206 {
        164
    } else if c == 230 {
        165
    } else if c == 157 {
        166
    } else if c == 133 {
        167
    } else if c == 125 {
        168
    } else if c == 203 {
        169
    } else if c == 148 {
        170
    } else if c == 211 {
        171
    } else if c == 232 {
        172
    } else if c == 158 {
        173
    } else if c == 214 {
        174
    } else if c == 152 {
        175
    } else if c == 212 {
        176
    } else if c == 151 {
        177
    } else if c == 131 {
        178
    } else if c == 205 {
        179
    } else if c == 149 {
        180
    } else if c == 130 {
        181
    } else if c == 124 {
        182
    } else if c == 122 {
        183
    } else if c == 121 {
        184
    } else if c == 40 {
        185
    } else if c == 94 {
        186
    } else if c == 112 {
        187
    } else if c == 118 {
        188
    } else if c == 39 {
        189
    } else if c == 13 {
        190
    } else if c == 85 {
        191
    } else if c == 109 {
        192
    } else if c == 36 {
        193
    } else if c == 12 {
        194
    } else if c == 4 {
        195
    } else if c == 82 {
        196
    } else if c == 27 {
        197
    } else if c == 171 {
        198
    } else if c == 219 {
        199
    } else if c == 73 {
        200
    } else if c == 105 {
        201
    } else if c == 35 {
        202
    } else if c == 173 {
        203
    } else if c == 138 {
        204
    } else if c == 46 {
        205
    } else if c == 96 {
        206
    } else if c == 32 {
        207
    } else if c == 172 {
        208
    } else if c == 57 {
        209
    } else if c == 19 {
        210
    } else if c == 87 {
        211
    } else if c == 29 {
        212
    } else if c == 90 {
        213
    } else if c == 192 {
        214
    } else if c == 64 {
        215
    } else if c == 183 {
        216
    } else if c == 61 {
        217
    } else if c == 101 {
        218
    } else if c == 195 {
        219
    } else if c == 65 {
        220
    } else if c == 102 {
        221
    } else if c == 34 {
        222
    } else if c == 92 {
        223
    } else if c == 111 {
        224
    } else if c == 37 {
        225
    } else if c == 174 {
        226
    } else if c == 58 {
        227
    } else if c == 100 {
        228
    } else if c == 114 {
        229
    } else if c == 38 {
        230
    } else if c == 93 {
        231
    } else if c == 31 {
        232
    } else if c == 91 {
        233
    } else if c == 30 {
        234
    } else if c == 10 {
        235
    } else if c == 84 {
        236
    } else if c == 28 {
        237
    } else if c == 9 {
        238
    } else if c == 3 {
        239
    } else if c == 1 {
        240
    } else {
        -1
    }
}

#[verifier::rlimit(100)]
proof fn lemma_a4_alt_codes_0()
    ensures
        forall|p: int|
            0 <= p < 30 ==> a4_alt_window_index(
                #[trigger] seq_code(cyclic_window(a4_alt_seq(), 5, p), 3),
            ) == p,
{
    let s = a4_alt_seq();
    reveal_with_fuel(seq_code_from, 7);
    assert(cyclic_window(s, 5, 0) =~= seq![0int, 0, 0, 0, 2]);
    assert(seq_code(cyclic_window(s, 5, 0), 3) == 162);
    assert(cyclic_window(s, 5, 1) =~= seq![0int, 0, 0, 2, 2]);
    assert(seq_code(cyclic_window(s, 5, 1), 3) == 216);
    assert(cyclic_window(s, 5, 2) =~= seq![0int, 0, 2, 2, 2]);
    assert(seq_code(cyclic_window(s, 5, 2), 3) == 234);
    assert(cyclic_window(s, 5, 3) =~= seq![0int, 2, 2, 2, 2]);
    assert(seq_code(cyclic_window(s, 5, 3), 3) == 240);
    assert(cyclic_window(s, 5, 4) =~= seq![2int, 2, 2, 2, 0]);
    assert(seq_code(cyclic_window(s, 5, 4), 3) == 80);
    assert(cyclic_window(s, 5, 5) =~= seq![2int, 2, 2, 0, 2]);
    assert(seq_code(cyclic_window(s, 5, 5), 3) == 188);
    assert(cyclic_window(s, 5, 6) =~= seq![2int, 2, 0, 2, 2]);
    assert(seq_code(cyclic_window(s, 5, 6), 3) == 224);
    assert(cyclic_window(s, 5, 7) =~= seq![2int, 0, 2, 2, 2]);
    assert(seq_code(cyclic_window(s, 5, 7), 3) == 236);
    assert(cyclic_window(s, 5, 8) =~= seq![0int, 2, 2, 2, 1]);
    assert(seq_code(cyclic_window(s, 5, 8), 3) == 159);
    assert(cyclic_window(s, 5, 9) =~= seq![2int, 2, 2, 1, 0]);
    assert(seq_code(cyclic_window(s, 5, 9), 3) == 53);
    assert(cyclic_window(s, 5, 10) =~= seq![2int, 2, 1, 0, 2]);
    assert(seq_code(cyclic_window(s, 5, 10), 3) == 179);
    assert(cyclic_window(s, 5, 11) =~= seq![2int, 1, 0, 2, 2]);
    assert(seq_code(cyclic_window(s, 5, 11), 3) == 221);
    assert(cyclic_window(s, 5, 12) =~= seq![1int, 0, 2, 2, 2]);
    assert(seq_code(cyclic_window(s, 5, 12), 3) == 235);
    assert(cyclic_window(s, 5, 13) =~= seq![0int, 2, 2, 2, 0]);
    assert(seq_code(cyclic_window(s, 5, 13), 3) == 78);
    assert(cyclic_window(s, 5, 14) =~= seq![2int, 2, 2, 0, 0]);
    assert(seq_code(cyclic_window(s, 5, 14), 3) == 26);
    assert(cyclic_window(s, 5, 15) =~= seq![2int, 2, 0, 0, 2]);
    assert(seq_code(cyclic_window(s, 5, 15), 3) == 170);
    assert(cyclic_window(s, 5, 16) =~= seq![2int, 0, 0, 2, 2]);
    assert(seq_code(cyclic_window(s, 5, 16), 3) == 218);
    assert(cyclic_window(s, 5, 17) =~= seq![0int, 0, 2, 2, 1]);
    assert(seq_code(cyclic_window(s, 5, 17), 3) == 153);
    assert(cyclic_window(s, 5, 18) =~= seq![0int, 2, 2, 1, 2]);
    assert(seq_code(cyclic_window(s, 5, 18), 3) == 213);
    assert(cyclic_window(s, 5, 19) =~= seq![2int, 2, 1, 2, 0]);
    assert(seq_code(cyclic_window(s, 5, 19), 3) == 71);
    assert(cyclic_window(s, 5, 20) =~= seq![2int, 1, 2, 0, 2]);
    assert(seq_code(cyclic_window(s, 5, 20), 3) == 185);
    assert(cyclic_window(s, 5, 21) =~= seq![1int, 2, 0, 2, 2]);
    assert(seq_code(cyclic_window(s, 5, 21), 3) == 223);
    assert(cyclic_window(s, 5, 22) =~= seq![2int, 0, 2, 2, 1]);
    assert(seq_code(cyclic_window(s, 5, 22), 3) == 155);
    assert(cyclic_window(s, 5, 23) =~= seq![0int, 2, 2, 1, 1]);
    assert(seq_code(cyclic_window(s, 5, 23), 3) == 132);
    assert(cyclic_window(s, 5, 24) =~= seq![2int, 2, 1, 1, 0]);
    assert(seq_code(cyclic_window(s, 5, 24), 3) == 44);
    assert(cyclic_window(s, 5, 25) =~= seq![2int, 1, 1, 0, 2]);
    assert(seq_code(cyclic_window(s, 5, 25), 3) == 176);
    assert(cyclic_window(s, 5, 26) =~= seq![1int, 1, 0, 2, 2]);
    assert(seq_code(cyclic_window(s, 5, 26), 3) == 220);
    assert(cyclic_window(s, 5, 27) =~= seq![1int, 0, 2, 2, 1]);
    assert(seq_code(cyclic_window(s, 5, 27), 3) == 154);
    assert(cyclic_window(s, 5, 28) =~= seq![0int, 2, 2, 1, 0]);
    assert(seq_code(cyclic_window(s, 5, 28), 3) == 51);
    assert(cyclic_window(s, 5, 29) =~= seq![2int, 2, 1, 0, 0]);
    assert(seq_code(cyclic_window(s, 5, 29), 3) == 17);
    assert forall|p: int| 0 <= p < 30 implies a4_alt_window_index(
        #[trigger] seq_code(cyclic_window(s, 5, p), 3),
    ) == p by {
        assert(p == 0 || p == 1 || p == 2 || p == 3 || p == 4 || p == 5 || p == 6 || p == 7 || p == 8 || p == 9 || p == 10 || p == 11 || p == 12 || p == 13 || p == 14 || p == 15 || p == 16 || p == 17 || p == 18 || p == 19 || p == 20 || p == 21 || p == 22 || p == 23 || p == 24 || p == 25 || p == 26 || p == 27 || p == 28 || p == 29);
    }
}

#[verifier::rlimit(100)]
proof fn lemma_a4_alt_codes_1()
    ensures
        forall|p: int|
            30 <= p < 60 ==> a4_alt_window_index(
                #[trigger] seq_code(cyclic_window(a4_alt_seq(), 5, p), 3),
            ) == p,
{
    let s = a4_alt_seq();
    reveal_with_fuel(seq_code_from, 7);
    assert(cyclic_window(s, 5, 30) =~= seq![2int, 1, 0, 0, 2]);
    assert(seq_code(cyclic_window(s, 5, 30), 3) == 167);
    assert(cyclic_window(s, 5, 31) =~= seq![1int, 0, 0, 2, 2]);
    assert(seq_code(cyclic_window(s, 5, 31), 3) == 217);
    assert(cyclic_window(s, 5, 32) =~= seq![0int, 0, 2, 2, 0]);
    assert(seq_code(cyclic_window(s, 5, 32), 3) == 72);
    assert(cyclic_window(s, 5, 33) =~= seq![0int, 2, 2, 0, 0]);
    assert(seq_code(cyclic_window(s, 5, 33), 3) == 24);
    assert(cyclic_window(s, 5, 34) =~= seq![2int, 2, 0, 0, 0]);
    assert(seq_code(cyclic_window(s, 5, 34), 3) == 8);
    assert(cyclic_window(s, 5, 35) =~= seq![2int, 0, 0, 0, 2]);
    assert(seq_code(cyclic_window(s, 5, 35), 3) == 164);
    assert(cyclic_window(s, 5, 36) =~= seq![0int, 0, 0, 2, 1]);
    assert(seq_code(cyclic_window(s, 5, 36), 3) == 135);
    assert(cyclic_window(s, 5, 37) =~= seq![0int, 0, 2, 1, 2]);
    assert(seq_code(cyclic_window(s, 5, 37), 3) == 207);
    assert(cyclic_window(s, 5, 38) =~= seq![0int, 2, 1, 2, 2]);
    assert(seq_code(cyclic_window(s, 5, 38), 3) == 231);
    assert(cyclic_window(s, 5, 39) =~= seq![2int, 1, 2, 2, 0]);
    assert(seq_code(cyclic_window(s, 5, 39), 3) == 77);
    assert(cyclic_window(s, 5, 40) =~= seq![1int, 2, 2, 0, 2]);
    assert(seq_code(cyclic_window(s, 5, 40), 3) == 187);
    assert(cyclic_window(s, 5, 41) =~= seq![2int, 2, 0, 2, 1]);
    assert(seq_code(cyclic_window(s, 5, 41), 3) == 143);
    assert(cyclic_window(s, 5, 42) =~= seq![2int, 0, 2, 1, 2]);
    assert(seq_code(cyclic_window(s, 5, 42), 3) == 209);
    assert(cyclic_window(s, 5, 43) =~= seq![0int, 2, 1, 2, 1]);
    assert(seq_code(cyclic_window(s, 5, 43), 3) == 150);
    assert(cyclic_window(s, 5, 44) =~= seq![2int, 1, 2, 1, 0]);
    assert(seq_code(cyclic_window(s, 5, 44), 3) == 50);
    assert(cyclic_window(s, 5, 45) =~= seq![1int, 2, 1, 0, 2]);
    assert(seq_code(cyclic_window(s, 5, 45), 3) == 178);
    assert(cyclic_window(s, 5, 46) =~= seq![2int, 1, 0, 2, 1]);
    assert(seq_code(cyclic_window(s, 5, 46), 3) == 140);
    assert(cyclic_window(s, 5, 47) =~= seq![1int, 0, 2, 1, 2]);
    assert(seq_code(cyclic_window(s, 5, 47), 3) == 208);
    assert(cyclic_window(s, 5, 48) =~= seq![0int, 2, 1, 2, 0]);
    assert(seq_code(cyclic_window(s, 5, 48), 3) == 69);
    assert(cyclic_window(s, 5, 49) =~= seq![2int, 1, 2, 0, 0]);
    assert(seq_code(cyclic_window(s, 5, 49), 3) == 23);
    assert(cyclic_window(s, 5, 50) =~= seq![1int, 2, 0, 0, 2]);
    assert(seq_code(cyclic_window(s, 5, 50), 3) == 169);
    assert(cyclic_window(s, 5, 51) =~= seq![2int, 0, 0, 2, 1]);
    assert(seq_code(cyclic_window(s, 5, 51), 3) == 137);
    assert(cyclic_window(s, 5, 52) =~= seq![0int, 0, 2, 1, 1]);
    assert(seq_code(cyclic_window(s, 5, 52), 3) == 126);
    assert(cyclic_window(s, 5, 53) =~= seq![0int, 2, 1, 1, 2]);
    assert(seq_code(cyclic_window(s, 5, 53), 3) == 204);
    assert(cyclic_window(s, 5, 54) =~= seq![2int, 1, 1, 2, 0]);
    assert(seq_code(cyclic_window(s, 5, 54), 3) == 68);
    assert(cyclic_window(s, 5, 55) =~= seq![1int, 1, 2, 0, 2]);
    assert(seq_code(cyclic_window(s, 5, 55), 3) == 184);
    assert(cyclic_window(s, 5, 56) =~= seq![1int, 2, 0, 2, 1]);
    assert(seq_code(cyclic_window(s, 5, 56), 3) == 142);
    assert(cyclic_window(s, 5, 57) =~= seq![2int, 0, 2, 1, 1]);
    assert(seq_code(cyclic_window(s, 5, 57), 3) == 128);
    assert(cyclic_window(s, 5, 58) =~= seq![0int, 2, 1, 1, 1]);
    assert(seq_code(cyclic_window(s, 5, 58), 3) == 123);
    assert(cyclic_window(s, 5, 59) =~= seq![2int, 1, 1, 1, 0]);
    assert(seq_code(cyclic_window(s, 5, 59), 3) == 41);
    assert forall|p: int| 30 <= p < 60 implies a4_alt_window_index(
        #[trigger] seq_code(cyclic_window(s, 5, p), 3),
    ) == p by {
        assert(p == 30 || p == 31 || p == 32 || p == 33 || p == 34 || p == 35 || p == 36 || p == 37 || p == 38 || p == 39 || p == 40 || p == 41 || p == 42 || p == 43 || p == 44 || p == 45 || p == 46 || p == 47 || p == 48 || p == 49 || p == 50 || p == 51 || p == 52 || p == 53 || p == 54 || p == 55 || p == 56 || p == 57 || p == 58 || p == 59);
    }
}

#[verifier::rlimit(100)]
proof fn lemma_a4_alt_codes_2()
    ensures
        forall|p: int|
            60 <= p < 90 ==> a4_alt_window_index(
                #[trigger] seq_code(cyclic_window(a4_alt_seq(), 5, p), 3),
            ) == p,
{
    let s = a4_alt_seq();
    reveal_with_fuel(seq_code_from, 7);
    assert(cyclic_window(s, 5, 60) =~= seq![1int, 1, 1, 0, 2]);
    assert(seq_code(cyclic_window(s, 5, 60), 3) == 175);
    assert(cyclic_window(s, 5, 61) =~= seq![1int, 1, 0, 2, 1]);
    assert(seq_code(cyclic_window(s, 5, 61), 3) == 139);
    assert(cyclic_window(s, 5, 62) =~= seq![1int, 0, 2, 1, 1]);
    assert(seq_code(cyclic_window(s, 5, 62), 3) == 127);
    assert(cyclic_window(s, 5, 63) =~= seq![0int, 2, 1, 1, 0]);
    assert(seq_code(cyclic_window(s, 5, 63), 3) == 42);
    assert(cyclic_window(s, 5, 64) =~= seq![2int, 1, 1, 0, 0]);
    assert(seq_code(cyclic_window(s, 5, 64), 3) == 14);
    assert(cyclic_window(s, 5, 65) =~= seq![1int, 1, 0, 0, 2]);
    assert(seq_code(cyclic_window(s, 5, 65), 3) == 166);
    assert(cyclic_window(s, 5, 66) =~= seq![1int, 0, 0, 2, 1]);
    assert(seq_code(cyclic_window(s, 5, 66), 3) == 136);
    assert(cyclic_window(s, 5, 67) =~= seq![0int, 0, 2, 1, 0]);
    assert(seq_code(cyclic_window(s, 5, 67), 3) == 45);
    assert(cyclic_window(s, 5, 68) =~= seq![0int, 2, 1, 0, 0]);
    assert(seq_code(cyclic_window(s, 5, 68), 3) == 15);
    assert(cyclic_window(s, 5, 69) =~= seq![2int, 1, 0, 0, 0]);
    assert(seq_code(cyclic_window(s, 5, 69), 3) == 5);
    assert(cyclic_window(s, 5, 70) =~= seq![1int, 0, 0, 0, 2]);
    assert(seq_code(cyclic_window(s, 5, 70), 3) == 163);
    assert(cyclic_window(s, 5, 71) =~= seq![0int, 0, 0, 2, 0]);
    assert(seq_code(cyclic_window(s, 5, 71), 3) == 54);
    assert(cyclic_window(s, 5, 72) =~= seq![0int, 0, 2, 0, 2]);
    assert(seq_code(cyclic_window(s, 5, 72), 3) == 180);
    assert(cyclic_window(s, 5, 73) =~= seq![0int, 2, 0, 2, 2]);
    assert(seq_code(cyclic_window(s, 5, 73), 3) == 222);
    assert(cyclic_window(s, 5, 74) =~= seq![2int, 0, 2, 2, 0]);
    assert(seq_code(cyclic_window(s, 5, 74), 3) == 74);
    assert(cyclic_window(s, 5, 75) =~= seq![0int, 2, 2, 0, 2]);
    assert(seq_code(cyclic_window(s, 5, 75), 3) == 186);
    assert(cyclic_window(s, 5, 76) =~= seq![2int, 2, 0, 2, 0]);
    assert(seq_code(cyclic_window(s, 5, 76), 3) == 62);
    assert(cyclic_window(s, 5, 77) =~= seq![2int, 0, 2, 0, 2]);
    assert(seq_code(cyclic_window(s, 5, 77), 3) == 182);
    assert(cyclic_window(s, 5, 78) =~= seq![0int, 2, 0, 2, 1]);
    assert(seq_code(cyclic_window(s, 5, 78), 3) == 141);
    assert(cyclic_window(s, 5, 79) =~= seq![2int, 0, 2, 1, 0]);
    assert(seq_code(cyclic_window(s, 5, 79), 3) == 47);
    assert(cyclic_window(s, 5, 80) =~= seq![0int, 2, 1, 0, 2]);
    assert(seq_code(cyclic_window(s, 5, 80), 3) == 177);
    assert(cyclic_window(s, 5, 81) =~= seq![2int, 1, 0, 2, 0]);
    assert(seq_code(cyclic_window(s, 5, 81), 3) == 59);
    assert(cyclic_window(s, 5, 82) =~= seq![1int, 0, 2, 0, 2]);
    assert(seq_code(cyclic_window(s, 5, 82), 3) == 181);
    assert(cyclic_window(s, 5, 83) =~= seq![0int, 2, 0, 2, 0]);
    assert(seq_code(cyclic_window(s, 5, 83), 3) == 60);
    assert(cyclic_window(s, 5, 84) =~= seq![2int, 0, 2, 0, 0]);
    assert(seq_code(cyclic_window(s, 5, 84), 3) == 20);
    assert(cyclic_window(s, 5, 85) =~= seq![0int, 2, 0, 0, 2]);
    assert(seq_code(cyclic_window(s, 5, 85), 3) == 168);
    assert(cyclic_window(s, 5, 86) =~= seq![2int, 0, 0, 2, 0]);
    assert(seq_code(cyclic_window(s, 5, 86), 3) == 56);
    assert(cyclic_window(s, 5, 87) =~= seq![0int, 0, 2, 0, 1]);
    assert(seq_code(cyclic_window(s, 5, 87), 3) == 99);
    assert(cyclic_window(s, 5, 88) =~= seq![0int, 2, 0, 1, 0]);
    assert(seq_code(cyclic_window(s, 5, 88), 3) == 33);
    assert(cyclic_window(s, 5, 89) =~= seq![2int, 0, 1, 0, 0]);
    assert(seq_code(cyclic_window(s, 5, 89), 3) == 11);
    assert forall|p: int| 60 <= p < 90 implies a4_alt_window_index(
        #[trigger] seq_code(cyclic_window(s, 5, p), 3),
    ) == p by {
        assert(p == 60 || p == 61 || p == 62 || p == 63 || p == 64 || p == 65 || p == 66 || p == 67 || p == 68 || p == 69 || p == 70 || p == 71 || p == 72 || p == 73 || p == 74 || p == 75 || p == 76 || p == 77 || p == 78 || p == 79 || p == 80 || p == 81 || p == 82 || p == 83 || p == 84 || p == 85 || p == 86 || p == 87 || p == 88 || p == 89);
    }
}

#[verifier::rlimit(100)]
proof fn lemma_a4_alt_codes_3()
    ensures
        forall|p: int|
            90 <= p < 120 ==> a4_alt_window_index(
                #[trigger] seq_code(cyclic_window(a4_alt_seq(), 5, p), 3),
            ) == p,
{
    let s = a4_alt_seq();
    reveal_with_fuel(seq_code_from, 7);
    assert(cyclic_window(s, 5, 90) =~= seq![0int, 1, 0, 0, 2]);
    assert(seq_code(cyclic_window(s, 5, 90), 3) == 165);
    assert(cyclic_window(s, 5, 91) =~= seq![1int, 0, 0, 2, 0]);
    assert(seq_code(cyclic_window(s, 5, 91), 3) == 55);
    assert(cyclic_window(s, 5, 92) =~= seq![0int, 0, 2, 0, 0]);
    assert(seq_code(cyclic_window(s, 5, 92), 3) == 18);
    assert(cyclic_window(s, 5, 93) =~= seq![0int, 2, 0, 0, 0]);
    assert(seq_code(cyclic_window(s, 5, 93), 3) == 6);
    assert(cyclic_window(s, 5, 94) =~= seq![2int, 0, 0, 0, 0]);
    assert(seq_code(cyclic_window(s, 5, 94), 3) == 2);
    assert(cyclic_window(s, 5, 95) =~= seq![0int, 0, 0, 0, 1]);
    assert(seq_code(cyclic_window(s, 5, 95), 3) == 81);
    assert(cyclic_window(s, 5, 96) =~= seq![0int, 0, 0, 1, 2]);
    assert(seq_code(cyclic_window(s, 5, 96), 3) == 189);
    assert(cyclic_window(s, 5, 97) =~= seq![0int, 0, 1, 2, 2]);
    assert(seq_code(cyclic_window(s, 5, 97), 3) == 225);
    assert(cyclic_window(s, 5, 98) =~= seq![0int, 1, 2, 2, 2]);
    assert(seq_code(cyclic_window(s, 5, 98), 3) == 237);
    assert(cyclic_window(s, 5, 99) =~= seq![1int, 2, 2, 2, 0]);
    assert(seq_code(cyclic_window(s, 5, 99), 3) == 79);
    assert(cyclic_window(s, 5, 100) =~= seq![2int, 2, 2, 0, 1]);
    assert(seq_code(cyclic_window(s, 5, 100), 3) == 107);
    assert(cyclic_window(s, 5, 101) =~= seq![2int, 2, 0, 1, 2]);
    assert(seq_code(cyclic_window(s, 5, 101), 3) == 197);
    assert(cyclic_window(s, 5, 102) =~= seq![2int, 0, 1, 2, 2]);
    assert(seq_code(cyclic_window(s, 5, 102), 3) == 227);
    assert(cyclic_window(s, 5, 103) =~= seq![0int, 1, 2, 2, 1]);
    assert(seq_code(cyclic_window(s, 5, 103), 3) == 156);
    assert(cyclic_window(s, 5, 104) =~= seq![1int, 2, 2, 1, 0]);
    assert(seq_code(cyclic_window(s, 5, 104), 3) == 52);
    assert(cyclic_window(s, 5, 105) =~= seq![2int, 2, 1, 0, 1]);
    assert(seq_code(cyclic_window(s, 5, 105), 3) == 98);
    assert(cyclic_window(s, 5, 106) =~= seq![2int, 1, 0, 1, 2]);
    assert(seq_code(cyclic_window(s, 5, 106), 3) == 194);
    assert(cyclic_window(s, 5, 107) =~= seq![1int, 0, 1, 2, 2]);
    assert(seq_code(cyclic_window(s, 5, 107), 3) == 226);
    assert(cyclic_window(s, 5, 108) =~= seq![0int, 1, 2, 2, 0]);
    assert(seq_code(cyclic_window(s, 5, 108), 3) == 75);
    assert(cyclic_window(s, 5, 109) =~= seq![1int, 2, 2, 0, 0]);
    assert(seq_code(cyclic_window(s, 5, 109), 3) == 25);
    assert(cyclic_window(s, 5, 110) =~= seq![2int, 2, 0, 0, 1]);
    assert(seq_code(cyclic_window(s, 5, 110), 3) == 89);
    assert(cyclic_window(s, 5, 111) =~= seq![2int, 0, 0, 1, 2]);
    assert(seq_code(cyclic_window(s, 5, 111), 3) == 191);
    assert(cyclic_window(s, 5, 112) =~= seq![0int, 0, 1, 2, 1]);
    assert(seq_code(cyclic_window(s, 5, 112), 3) == 144);
    assert(cyclic_window(s, 5, 113) =~= seq![0int, 1, 2, 1, 2]);
    assert(seq_code(cyclic_window(s, 5, 113), 3) == 210);
    assert(cyclic_window(s, 5, 114) =~= seq![1int, 2, 1, 2, 0]);
    assert(seq_code(cyclic_window(s, 5, 114), 3) == 70);
    assert(cyclic_window(s, 5, 115) =~= seq![2int, 1, 2, 0, 1]);
    assert(seq_code(cyclic_window(s, 5, 115), 3) == 104);
    assert(cyclic_window(s, 5, 116) =~= seq![1int, 2, 0, 1, 2]);
    assert(seq_code(cyclic_window(s, 5, 116), 3) == 196);
    assert(cyclic_window(s, 5, 117) =~= seq![2int, 0, 1, 2, 1]);
    assert(seq_code(cyclic_window(s, 5, 117), 3) == 146);
    assert(cyclic_window(s, 5, 118) =~= seq![0int, 1, 2, 1, 1]);
    assert(seq_code(cyclic_window(s, 5, 118), 3) == 129);
    assert(cyclic_window(s, 5, 119) =~= seq![1int, 2, 1, 1, 0]);
    assert(seq_code(cyclic_window(s, 5, 119), 3) == 43);
    assert forall|p: int| 90 <= p < 120 implies a4_alt_window_index(
        #[trigger] seq_code(cyclic_window(s, 5, p), 3),
    ) == p by {
        assert(p == 90 || p == 91 || p == 92 || p == 93 || p == 94 || p == 95 || p == 96 || p == 97 || p == 98 || p == 99 || p == 100 || p == 101 || p == 102 || p == 103 || p == 104 || p == 105 || p == 106 || p == 107 || p == 108 || p == 109 || p == 110 || p == 111 || p == 112 || p == 113 || p == 114 || p == 115 || p == 116 || p == 117 || p == 118 || p == 119);
    }
}

#[verifier::rlimit(100)]
proof fn lemma_a4_alt_codes_4()
    ensures
        forall|p: int|
            120 <= p < 150 ==> a4_alt_window_index(
                #[trigger] seq_code(cyclic_window(a4_alt_seq(), 5, p), 3),
            ) == p,
{
    let s = a4_alt_seq();
    reveal_with_fuel(seq_code_from, 7);
    assert(cyclic_window(s, 5, 120) =~= seq![2int, 1, 1, 0, 1]);
    assert(seq_code(cyclic_window(s, 5, 120), 3) == 95);
    assert(cyclic_window(s, 5, 121) =~= seq![1int, 1, 0, 1, 2]);
    assert(seq_code(cyclic_window(s, 5, 121), 3) == 193);
    assert(cyclic_window(s, 5, 122) =~= seq![1int, 0, 1, 2, 1]);
    assert(seq_code(cyclic_window(s, 5, 122), 3) == 145);
    assert(cyclic_window(s, 5, 123) =~= seq![0int, 1, 2, 1, 0]);
    assert(seq_code(cyclic_window(s, 5, 123), 3) == 48);
    assert(cyclic_window(s, 5, 124) =~= seq![1int, 2, 1, 0, 0]);
    assert(seq_code(cyclic_window(s, 5, 124), 3) == 16);
    assert(cyclic_window(s, 5, 125) =~= seq![2int, 1, 0, 0, 1]);
    assert(seq_code(cyclic_window(s, 5, 125), 3) == 86);
    assert(cyclic_window(s, 5, 126) =~= seq![1int, 0, 0, 1, 2]);
    assert(seq_code(cyclic_window(s, 5, 126), 3) == 190);
    assert(cyclic_window(s, 5, 127) =~= seq![0int, 0, 1, 2, 0]);
    assert(seq_code(cyclic_window(s, 5, 127), 3) == 63);
    assert(cyclic_window(s, 5, 128) =~= seq![0int, 1, 2, 0, 0]);
    assert(seq_code(cyclic_window(s, 5, 128), 3) == 21);
    assert(cyclic_window(s, 5, 129) =~= seq![1int, 2, 0, 0, 0]);
    assert(seq_code(cyclic_window(s, 5, 129), 3) == 7);
    assert(cyclic_window(s, 5, 130) =~= seq![2int, 0, 0, 0, 1]);
    assert(seq_code(cyclic_window(s, 5, 130), 3) == 83);
    assert(cyclic_window(s, 5, 131) =~= seq![0int, 0, 0, 1, 1]);
    assert(seq_code(cyclic_window(s, 5, 131), 3) == 108);
    assert(cyclic_window(s, 5, 132) =~= seq![0int, 0, 1, 1, 2]);
    assert(seq_code(cyclic_window(s, 5, 132), 3) == 198);
    assert(cyclic_window(s, 5, 133) =~= seq![0int, 1, 1, 2, 2]);
    assert(seq_code(cyclic_window(s, 5, 133), 3) == 228);
    assert(cyclic_window(s, 5, 134) =~= seq![1int, 1, 2, 2, 0]);
    assert(seq_code(cyclic_window(s, 5, 134), 3) == 76);
    assert(cyclic_window(s, 5, 135) =~= seq![1int, 2, 2, 0, 1]);
    assert(seq_code(cyclic_window(s, 5, 135), 3) == 106);
    assert(cyclic_window(s, 5, 136) =~= seq![2int, 2, 0, 1, 1]);
    assert(seq_code(cyclic_window(s, 5, 136), 3) == 116);
    assert(cyclic_window(s, 5, 137) =~= seq![2int, 0, 1, 1, 2]);
    assert(seq_code(cyclic_window(s, 5, 137), 3) == 200);
    assert(cyclic_window(s, 5, 138) =~= seq![0int, 1, 1, 2, 1]);
    assert(seq_code(cyclic_window(s, 5, 138), 3) == 147);
    assert(cyclic_window(s, 5, 139) =~= seq![1int, 1, 2, 1, 0]);
    assert(seq_code(cyclic_window(s, 5, 139), 3) == 49);
    assert(cyclic_window(s, 5, 140) =~= seq![1int, 2, 1, 0, 1]);
    assert(seq_code(cyclic_window(s, 5, 140), 3) == 97);
    assert(cyclic_window(s, 5, 141) =~= seq![2int, 1, 0, 1, 1]);
    assert(seq_code(cyclic_window(s, 5, 141), 3) == 113);
    assert(cyclic_window(s, 5, 142) =~= seq![1int, 0, 1, 1, 2]);
    assert(seq_code(cyclic_window(s, 5, 142), 3) == 199);
    assert(cyclic_window(s, 5, 143) =~= seq![0int, 1, 1, 2, 0]);
    assert(seq_code(cyclic_window(s, 5, 143), 3) == 66);
    assert(cyclic_window(s, 5, 144) =~= seq![1int, 1, 2, 0, 0]);
    assert(seq_code(cyclic_window(s, 5, 144), 3) == 22);
    assert(cyclic_window(s, 5, 145) =~= seq![1int, 2, 0, 0, 1]);
    assert(seq_code(cyclic_window(s, 5, 145), 3) == 88);
    assert(cyclic_window(s, 5, 146) =~= seq![2int, 0, 0, 1, 1]);
    assert(seq_code(cyclic_window(s, 5, 146), 3) == 110);
    assert(cyclic_window(s, 5, 147) =~= seq![0int, 0, 1, 1, 1]);
    assert(seq_code(cyclic_window(s, 5, 147), 3) == 117);
    assert(cyclic_window(s, 5, 148) =~= seq![0int, 1, 1, 1, 2]);
    assert(seq_code(cyclic_window(s, 5, 148), 3) == 201);
    assert(cyclic_window(s, 5, 149) =~= seq![1int, 1, 1, 2, 0]);
    assert(seq_code(cyclic_window(s, 5, 149), 3) == 67);
    assert forall|p: int| 120 <= p < 150 implies a4_alt_window_index(
        #[trigger] seq_code(cyclic_window(s, 5, p), 3),
    ) == p by {
        assert(p == 120 || p == 121 || p == 122 || p == 123 || p == 124 || p == 125 || p == 126 || p == 127 || p == 128 || p == 129 || p == 130 || p == 131 || p == 132 || p == 133 || p == 134 || p == 135 || p == 136 || p == 137 || p == 138 || p == 139 || p == 140 || p == 141 || p == 142 || p == 143 || p == 144 || p == 145 || p == 146 || p == 147 || p == 148 || p == 149);
    }
}

#[verifier::rlimit(100)]
proof fn lemma_a4_alt_codes_5()
    ensures
        forall|p: int|
            150 <= p < 180 ==> a4_alt_window_index(
                #[trigger] seq_code(cyclic_window(a4_alt_seq(), 5, p), 3),
            ) == p,
{
    let s = a4_alt_seq();
    reveal_with_fuel(seq_code_from, 7);
    assert(cyclic_window(s, 5, 150) =~= seq![1int, 1, 2, 0, 1]);
    assert(seq_code(cyclic_window(s, 5, 150), 3) == 103);
    assert(cyclic_window(s, 5, 151) =~= seq![1int, 2, 0, 1, 1]);
    assert(seq_code(cyclic_window(s, 5, 151), 3) == 115);
    assert(cyclic_window(s, 5, 152) =~= seq![2int, 0, 1, 1, 1]);
    assert(seq_code(cyclic_window(s, 5, 152), 3) == 119);
    assert(cyclic_window(s, 5, 153) =~= seq![0int, 1, 1, 1, 1]);
    assert(seq_code(cyclic_window(s, 5, 153), 3) == 120);
    assert(cyclic_window(s, 5, 154) =~= seq![1int, 1, 1, 1, 2]);
    assert(seq_code(cyclic_window(s, 5, 154), 3) == 202);
    assert(cyclic_window(s, 5, 155) =~= seq![1int, 1, 1, 2, 2]);
    assert(seq_code(cyclic_window(s, 5, 155), 3) == 229);
    assert(cyclic_window(s, 5, 156) =~= seq![1int, 1, 2, 2, 2]);
    assert(seq_code(cyclic_window(s, 5, 156), 3) == 238);
    assert(cyclic_window(s, 5, 157) =~= seq![1int, 2, 2, 2, 2]);
    assert(seq_code(cyclic_window(s, 5, 157), 3) == 241);
    assert(cyclic_window(s, 5, 158) =~= seq![2int, 2, 2, 2, 1]);
    assert(seq_code(cyclic_window(s, 5, 158), 3) == 161);
    assert(cyclic_window(s, 5, 159) =~= seq![2int, 2, 2, 1, 2]);
    assert(seq_code(cyclic_window(s, 5, 159), 3) == 215);
    assert(cyclic_window(s, 5, 160) =~= seq![2int, 2, 1, 2, 2]);
    assert(seq_code(cyclic_window(s, 5, 160), 3) == 233);
    assert(cyclic_window(s, 5, 161) =~= seq![2int, 1, 2, 2, 2]);
    assert(seq_code(cyclic_window(s, 5, 161), 3) == 239);
    assert(cyclic_window(s, 5, 162) =~= seq![1int, 2, 2, 2, 1]);
    assert(seq_code(cyclic_window(s, 5, 162), 3) == 160);
    assert(cyclic_window(s, 5, 163) =~= seq![2int, 2, 2, 1, 1]);
    assert(seq_code(cyclic_window(s, 5, 163), 3) == 134);
    assert(cyclic_window(s, 5, 164) =~= seq![2int, 2, 1, 1, 2]);
    assert(seq_code(cyclic_window(s, 5, 164), 3) == 206);
    assert(cyclic_window(s, 5, 165) =~= seq![2int, 1, 1, 2, 2]);
    assert(seq_code(cyclic_window(s, 5, 165), 3) == 230);
    assert(cyclic_window(s, 5, 166) =~= seq![1int, 1, 2, 2, 1]);
    assert(seq_code(cyclic_window(s, 5, 166), 3) == 157);
    assert(cyclic_window(s, 5, 167) =~= seq![1int, 2, 2, 1, 1]);
    assert(seq_code(cyclic_window(s, 5, 167), 3) == 133);
    assert(cyclic_window(s, 5, 168) =~= seq![2int, 2, 1, 1, 1]);
    assert(seq_code(cyclic_window(s, 5, 168), 3) == 125);
    assert(cyclic_window(s, 5, 169) =~= seq![2int, 1, 1, 1, 2]);
    assert(seq_code(cyclic_window(s, 5, 169), 3) == 203);
    assert(cyclic_window(s, 5, 170) =~= seq![1int, 1, 1, 2, 1]);
    assert(seq_code(cyclic_window(s, 5, 170), 3) == 148);
    assert(cyclic_window(s, 5, 171) =~= seq![1int, 1, 2, 1, 2]);
    assert(seq_code(cyclic_window(s, 5, 171), 3) == 211);
    assert(cyclic_window(s, 5, 172) =~= seq![1int, 2, 1, 2, 2]);
    assert(seq_code(cyclic_window(s, 5, 172), 3) == 232);
    assert(cyclic_window(s, 5, 173) =~= seq![2int, 1, 2, 2, 1]);
    assert(seq_code(cyclic_window(s, 5, 173), 3) == 158);
    assert(cyclic_window(s, 5, 174) =~= seq![1int, 2, 2, 1, 2]);
    assert(seq_code(cyclic_window(s, 5, 174), 3) == 214);
    assert(cyclic_window(s, 5, 175) =~= seq![2int, 2, 1, 2, 1]);
    assert(seq_code(cyclic_window(s, 5, 175), 3) == 152);
    assert(cyclic_window(s, 5, 176) =~= seq![2int, 1, 2, 1, 2]);
    assert(seq_code(cyclic_window(s, 5, 176), 3) == 212);
    assert(cyclic_window(s, 5, 177) =~= seq![1int, 2, 1, 2, 1]);
    assert(seq_code(cyclic_window(s, 5, 177), 3) == 151);
    assert(cyclic_window(s, 5, 178) =~= seq![2int, 1, 2, 1, 1]);
    assert(seq_code(cyclic_window(s, 5, 178), 3) == 131);
    assert(cyclic_window(s, 5, 179) =~= seq![1int, 2, 1, 1, 2]);
    assert(seq_code(cyclic_window(s, 5, 179), 3) == 205);
    assert forall|p: int| 150 <= p < 180 implies a4_alt_window_index(
        #[trigger] seq_code(cyclic_window(s, 5, p), 3),
    ) == p by {
        assert(p == 150 || p == 151 || p == 152 || p == 153 || p == 154 || p == 155 || p == 156 || p == 157 || p == 158 || p == 159 || p == 160 || p == 161 || p == 162 || p == 163 || p == 164 || p == 165 || p == 166 || p == 167 || p == 168 || p == 169 || p == 170 || p == 171 || p == 172 || p == 173 || p == 174 || p == 175 || p == 176 || p == 177 || p == 178 || p == 179);
    }
}

#[verifier::rlimit(100)]
proof fn lemma_a4_alt_codes_6()
    ensures
        forall|p: int|
            180 <= p < 210 ==> a4_alt_window_index(
                #[trigger] seq_code(cyclic_window(a4_alt_seq(), 5, p), 3),
            ) == p,
{
    let s = a4_alt_seq();
    reveal_with_fuel(seq_code_from, 7);
    assert(cyclic_window(s, 5, 180) =~= seq![2int, 1, 1, 2, 1]);
    assert(seq_code(cyclic_window(s, 5, 180), 3) == 149);
    assert(cyclic_window(s, 5, 181) =~= seq![1int, 1, 2, 1, 1]);
    assert(seq_code(cyclic_window(s, 5, 181), 3) == 130);
    assert(cyclic_window(s, 5, 182) =~= seq![1int, 2, 1, 1, 1]);
    assert(seq_code(cyclic_window(s, 5, 182), 3) == 124);
    assert(cyclic_window(s, 5, 183) =~= seq![2int, 1, 1, 1, 1]);
    assert(seq_code(cyclic_window(s, 5, 183), 3) == 122);
    assert(cyclic_window(s, 5, 184) =~= seq![1int, 1, 1, 1, 1]);
    assert(seq_code(cyclic_window(s, 5, 184), 3) == 121);
    assert(cyclic_window(s, 5, 185) =~= seq![1int, 1, 1, 1, 0]);
    assert(seq_code(cyclic_window(s, 5, 185), 3) == 40);
    assert(cyclic_window(s, 5, 186) =~= seq![1int, 1, 1, 0, 1]);
    assert(seq_code(cyclic_window(s, 5, 186), 3) == 94);
    assert(cyclic_window(s, 5, 187) =~= seq![1int, 1, 0, 1, 1]);
    assert(seq_code(cyclic_window(s, 5, 187), 3) == 112);
    assert(cyclic_window(s, 5, 188) =~= seq![1int, 0, 1, 1, 1]);
    assert(seq_code(cyclic_window(s, 5, 188), 3) == 118);
    assert(cyclic_window(s, 5, 189) =~= seq![0int, 1, 1, 1, 0]);
    assert(seq_code(cyclic_window(s, 5, 189), 3) == 39);
    assert(cyclic_window(s, 5, 190) =~= seq![1int, 1, 1, 0, 0]);
    assert(seq_code(cyclic_window(s, 5, 190), 3) == 13);
    assert(cyclic_window(s, 5, 191) =~= seq![1int, 1, 0, 0, 1]);
    assert(seq_code(cyclic_window(s, 5, 191), 3) == 85);
    assert(cyclic_window(s, 5, 192) =~= seq![1int, 0, 0, 1, 1]);
    assert(seq_code(cyclic_window(s, 5, 192), 3) == 109);
    assert(cyclic_window(s, 5, 193) =~= seq![0int, 0, 1, 1, 0]);
    assert(seq_code(cyclic_window(s, 5, 193), 3) == 36);
    assert(cyclic_window(s, 5, 194) =~= seq![0int, 1, 1, 0, 0]);
    assert(seq_code(cyclic_window(s, 5, 194), 3) == 12);
    assert(cyclic_window(s, 5, 195) =~= seq![1int, 1, 0, 0, 0]);
    assert(seq_code(cyclic_window(s, 5, 195), 3) == 4);
    assert(cyclic_window(s, 5, 196) =~= seq![1int, 0, 0, 0, 1]);
    assert(seq_code(cyclic_window(s, 5, 196), 3) == 82);
    assert(cyclic_window(s, 5, 197) =~= seq![0int, 0, 0, 1, 0]);
    assert(seq_code(cyclic_window(s, 5, 197), 3) == 27);
    assert(cyclic_window(s, 5, 198) =~= seq![0int, 0, 1, 0, 2]);
    assert(seq_code(cyclic_window(s, 5, 198), 3) == 171);
    assert(cyclic_window(s, 5, 199) =~= seq![0int, 1, 0, 2, 2]);
    assert(seq_code(cyclic_window(s, 5, 199), 3) == 219);
    assert(cyclic_window(s, 5, 200) =~= seq![1int, 0, 2, 2, 0]);
    assert(seq_code(cyclic_window(s, 5, 200), 3) == 73);
    assert(cyclic_window(s, 5, 201) =~= seq![0int, 2, 2, 0, 1]);
    assert(seq_code(cyclic_window(s, 5, 201), 3) == 105);
    assert(cyclic_window(s, 5, 202) =~= seq![2int, 2, 0, 1, 0]);
    assert(seq_code(cyclic_window(s, 5, 202), 3) == 35);
    assert(cyclic_window(s, 5, 203) =~= seq![2int, 0, 1, 0, 2]);
    assert(seq_code(cyclic_window(s, 5, 203), 3) == 173);
    assert(cyclic_window(s, 5, 204) =~= seq![0int, 1, 0, 2, 1]);
    assert(seq_code(cyclic_window(s, 5, 204), 3) == 138);
    assert(cyclic_window(s, 5, 205) =~= seq![1int, 0, 2, 1, 0]);
    assert(seq_code(cyclic_window(s, 5, 205), 3) == 46);
    assert(cyclic_window(s, 5, 206) =~= seq![0int, 2, 1, 0, 1]);
    assert(seq_code(cyclic_window(s, 5, 206), 3) == 96);
    assert(cyclic_window(s, 5, 207) =~= seq![2int, 1, 0, 1, 0]);
    assert(seq_code(cyclic_window(s, 5, 207), 3) == 32);
    assert(cyclic_window(s, 5, 208) =~= seq![1int, 0, 1, 0, 2]);
    assert(seq_code(cyclic_window(s, 5, 208), 3) == 172);
    assert(cyclic_window(s, 5, 209) =~= seq![0int, 1, 0, 2, 0]);
    assert(seq_code(cyclic_window(s, 5, 209), 3) == 57);
    assert forall|p: int| 180 <= p < 210 implies a4_alt_window_index(
        #[trigger] seq_code(cyclic_window(s, 5, p), 3),
    ) == p by {
        assert(p == 180 || p == 181 || p == 182 || p == 183 || p == 184 || p == 185 || p == 186 || p == 187 || p == 188 || p == 189 || p == 190 || p == 191 || p == 192 || p == 193 || p == 194 || p == 195 || p == 196 || p == 197 || p == 198 || p == 199 || p == 200 || p == 201 || p == 202 || p == 203 || p == 204 || p == 205 || p == 206 || p == 207 || p == 208 || p == 209);
    }
}

#[verifier::rlimit(100)]
proof fn lemma_a4_alt_codes_7()
    ensures
        forall|p: int|
            210 <= p < 240 ==> a4_alt_window_index(
                #[trigger] seq_code(cyclic_window(a4_alt_seq(), 5, p), 3),
            ) == p,
{
    let s = a4_alt_seq();
    reveal_with_fuel(seq_code_from, 7);
    assert(cyclic_window(s, 5, 210) =~= seq![1int, 0, 2, 0, 0]);
    assert(seq_code(cyclic_window(s, 5, 210), 3) == 19);
    assert(cyclic_window(s, 5, 211) =~= seq![0int, 2, 0, 0, 1]);
    assert(seq_code(cyclic_window(s, 5, 211), 3) == 87);
    assert(cyclic_window(s, 5, 212) =~= seq![2int, 0, 0, 1, 0]);
    assert(seq_code(cyclic_window(s, 5, 212), 3) == 29);
    assert(cyclic_window(s, 5, 213) =~= seq![0int, 0, 1, 0, 1]);
    assert(seq_code(cyclic_window(s, 5, 213), 3) == 90);
    assert(cyclic_window(s, 5, 214) =~= seq![0int, 1, 0, 1, 2]);
    assert(seq_code(cyclic_window(s, 5, 214), 3) == 192);
    assert(cyclic_window(s, 5, 215) =~= seq![1int, 0, 1, 2, 0]);
    assert(seq_code(cyclic_window(s, 5, 215), 3) == 64);
    assert(cyclic_window(s, 5, 216) =~= seq![0int, 1, 2, 0, 2]);
    assert(seq_code(cyclic_window(s, 5, 216), 3) == 183);
    assert(cyclic_window(s, 5, 217) =~= seq![1int, 2, 0, 2, 0]);
    assert(seq_code(cyclic_window(s, 5, 217), 3) == 61);
    assert(cyclic_window(s, 5, 218) =~= seq![2int, 0, 2, 0, 1]);
    assert(seq_code(cyclic_window(s, 5, 218), 3) == 101);
    assert(cyclic_window(s, 5, 219) =~= seq![0int, 2, 0, 1, 2]);
    assert(seq_code(cyclic_window(s, 5, 219), 3) == 195);
    assert(cyclic_window(s, 5, 220) =~= seq![2int, 0, 1, 2, 0]);
    assert(seq_code(cyclic_window(s, 5, 220), 3) == 65);
    assert(cyclic_window(s, 5, 221) =~= seq![0int, 1, 2, 0, 1]);
    assert(seq_code(cyclic_window(s, 5, 221), 3) == 102);
    assert(cyclic_window(s, 5, 222) =~= seq![1int, 2, 0, 1, 0]);
    assert(seq_code(cyclic_window(s, 5, 222), 3) == 34);
    assert(cyclic_window(s, 5, 223) =~= seq![2int, 0, 1, 0, 1]);
    assert(seq_code(cyclic_window(s, 5, 223), 3) == 92);
    assert(cyclic_window(s, 5, 224) =~= seq![0int, 1, 0, 1, 1]);
    assert(seq_code(cyclic_window(s, 5, 224), 3) == 111);
    assert(cyclic_window(s, 5, 225) =~= seq![1int, 0, 1, 1, 0]);
    assert(seq_code(cyclic_window(s, 5, 225), 3) == 37);
    assert(cyclic_window(s, 5, 226) =~= seq![0int, 1, 1, 0, 2]);
    assert(seq_code(cyclic_window(s, 5, 226), 3) == 174);
    assert(cyclic_window(s, 5, 227) =~= seq![1int, 1, 0, 2, 0]);
    assert(seq_code(cyclic_window(s, 5, 227), 3) == 58);
    assert(cyclic_window(s, 5, 228) =~= seq![1int, 0, 2, 0, 1]);
    assert(seq_code(cyclic_window(s, 5, 228), 3) == 100);
    assert(cyclic_window(s, 5, 229) =~= seq![0int, 2, 0, 1, 1]);
    assert(seq_code(cyclic_window(s, 5, 229), 3) == 114);
    assert(cyclic_window(s, 5, 230) =~= seq![2int, 0, 1, 1, 0]);
    assert(seq_code(cyclic_window(s, 5, 230), 3) == 38);
    assert(cyclic_window(s, 5, 231) =~= seq![0int, 1, 1, 0, 1]);
    assert(seq_code(cyclic_window(s, 5, 231), 3) == 93);
    assert(cyclic_window(s, 5, 232) =~= seq![1int, 1, 0, 1, 0]);
    assert(seq_code(cyclic_window(s, 5, 232), 3) == 31);
    assert(cyclic_window(s, 5, 233) =~= seq![1int, 0, 1, 0, 1]);
    assert(seq_code(cyclic_window(s, 5, 233), 3) == 91);
    assert(cyclic_window(s, 5, 234) =~= seq![0int, 1, 0, 1, 0]);
    assert(seq_code(cyclic_window(s, 5, 234), 3) == 30);
    assert(cyclic_window(s, 5, 235) =~= seq![1int, 0, 1, 0, 0]);
    assert(seq_code(cyclic_window(s, 5, 235), 3) == 10);
    assert(cyclic_window(s, 5, 236) =~= seq![0int, 1, 0, 0, 1]);
    assert(seq_code(cyclic_window(s, 5, 236), 3) == 84);
    assert(cyclic_window(s, 5, 237) =~= seq![1int, 0, 0, 1, 0]);
    assert(seq_code(cyclic_window(s, 5, 237), 3) == 28);
    assert(cyclic_window(s, 5, 238) =~= seq![0int, 0, 1, 0, 0]);
    assert(seq_code(cyclic_window(s, 5, 238), 3) == 9);
    assert(cyclic_window(s, 5, 239) =~= seq![0int, 1, 0, 0, 0]);
    assert(seq_code(cyclic_window(s, 5, 239), 3) == 3);
    assert forall|p: int| 210 <= p < 240 implies a4_alt_window_index(
        #[trigger] seq_code(cyclic_window(s, 5, p), 3),
    ) == p by {
        assert(p == 210 || p == 211 || p == 212 || p == 213 || p == 214 || p == 215 || p == 216 || p == 217 || p == 218 || p == 219 || p == 220 || p == 221 || p == 222 || p == 223 || p == 224 || p == 225 || p == 226 || p == 227 || p == 228 || p == 229 || p == 230 || p == 231 || p == 232 || p == 233 || p == 234 || p == 235 || p == 236 || p == 237 || p == 238 || p == 239);
    }
}

#[verifier::rlimit(100)]
proof fn lemma_a4_alt_codes_8()
    ensures
        forall|p: int|
            240 <= p < 241 ==> a4_alt_window_index(
                #[trigger] seq_code(cyclic_window(a4_alt_seq(), 5, p), 3),
            ) == p,
{
    let s = a4_alt_seq();
    reveal_with_fuel(seq_code_from, 7);
    assert(cyclic_window(s, 5, 240) =~= seq![1int, 0, 0, 0, 0]);
    assert(seq_code(cyclic_window(s, 5, 240), 3) == 1);
    assert forall|p: int| 240 <= p < 241 implies a4_alt_window_index(
        #[trigger] seq_code(cyclic_window(s, 5, p), 3),
    ) == p by {
        assert(p == 240);
    }
}

/// Every cyclic window of order 5 occurs at most once in the corrected secondary sequence A4.
pub proof fn lemma_a4_alt_windows_unique()
    ensures
        windows_unique(a4_alt_seq(), 5),
{
    let s = a4_alt_seq();
    lemma_a4_alt_codes_0();
    lemma_a4_alt_codes_1();
    lemma_a4_alt_codes_2();
    lemma_a4_alt_codes_3();
    lemma_a4_alt_codes_4();
    lemma_a4_alt_codes_5();
    lemma_a4_alt_codes_6();
    lemma_a4_alt_codes_7();
    lemma_a4_alt_codes_8();
    assert forall|p: int, q: int|
        0 <= p < s.len() && 0 <= q < s.len() && #[trigger] cyclic_window(s, 5, p)
            == #[trigger] cyclic_window(s, 5, q) implies p == q by {
        assert(a4_alt_window_index(seq_code(cyclic_window(s, 5, p), 3)) == p);
        assert(a4_alt_window_index(seq_code(cyclic_window(s, 5, q), 3)) == q);
    }
}

} // verus!
