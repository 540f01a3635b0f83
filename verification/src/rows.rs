//! Exhaustive row generation for the binary-operation table.
//!
//! For a bit-range `n` the table holds one row `(tag, x, y, result)` for
//! every operand pair `x, y` in `[0, 2^n)` and every binary tag, in a fixed
//! order: outer loop over `x`, middle loop over `y`, inner loop over the
//! tags in declaration order.  The result semantics per operator:
//!
//! - ADD: `x + y` (unreduced; the operand bound keeps it inside a byte)
//! - MUL: `x * y`
//! - SUB: `x - y` if `x >= y`, else `0` (saturating, never wrapping)
//! - DIV: `x / y` if `y != 0`, else `0`
//! - MOD: `x % y` if `y != 0`, else `0`
//! - LT/GT/LE/GE/EQ: `0` or `1`
//! - SHL: `x` shifted left by `y` bits, truncated to a byte
//! - SHR: `x` shifted right by `y` bits
//! - AND/XOR/OR: bitwise on the operand bits

use crate::tag::BinOpTag;
use crate::tag::lemma_binop_code_is_position;
use vstd::arithmetic::div_mod::lemma_div_denominator;
use vstd::arithmetic::div_mod::lemma_div_is_ordered_by_denominator;
use vstd::arithmetic::div_mod::lemma_fundamental_div_mod;
use vstd::arithmetic::div_mod::lemma_fundamental_div_mod_converse;
use vstd::arithmetic::power2::lemma2_to64;
use vstd::arithmetic::power2::lemma_pow2_pos;
use vstd::arithmetic::power2::lemma_pow2_strictly_increases;
use vstd::arithmetic::power2::pow2;
use vstd::bits::lemma_u64_low_bits_mask_is_mod;
use vstd::bits::lemma_u64_shl_is_mul;
use vstd::bits::lemma_u64_shr_is_div;
use vstd::bits::low_bits_mask;
use vstd::prelude::*;

verus! {

/// Number of distinct operand values per axis for a bit-range.
pub open spec fn spec_operand_count(range: u8) -> nat {
    pow2(range as nat)
}

/// Total number of rows of the binary table for a bit-range.
pub open spec fn spec_table_len(range: u8) -> nat {
    (spec_operand_count(range) * spec_operand_count(range) * 15) as nat
}

/// The defined result of a binary operation on byte operands.
pub open spec fn binop_semantics(t: BinOpTag, x: u8, y: u8) -> int {
    match t {
        BinOpTag::ADD => x + y,
        BinOpTag::MUL => x * y,
        BinOpTag::SUB => if x >= y {
            x - y
        } else {
            0
        },
        BinOpTag::DIV => if y != 0 {
            x as int / y as int
        } else {
            0
        },
        BinOpTag::MOD => if y != 0 {
            x as int % y as int
        } else {
            0
        },
        BinOpTag::LT => if x < y {
            1
        } else {
            0
        },
        BinOpTag::GT => if x > y {
            1
        } else {
            0
        },
        BinOpTag::LE => if x <= y {
            1
        } else {
            0
        },
        BinOpTag::GE => if x >= y {
            1
        } else {
            0
        },
        BinOpTag::SHL => ((x as nat * pow2(y as nat)) % 256) as int,
        BinOpTag::SHR => x as int / pow2(y as nat) as int,
        BinOpTag::AND => (x & y) as int,
        BinOpTag::XOR => (x ^ y) as int,
        BinOpTag::OR => (x | y) as int,
        BinOpTag::EQ => if x == y {
            1
        } else {
            0
        },
    }
}

/// Left shift of a byte-ranged operand, truncated to a byte.
fn shl_byte(x: u8, y: u8) -> (r: u8)
    requires
        x < 16,
        y < 16,
    ensures
        r as int == (x as nat * pow2(y as nat)) % 256,
{
    proof {
        lemma2_to64();
        if (y as nat) < 15 {
            lemma_pow2_strictly_increases(y as nat, 15);
        }
        assert(x as nat * pow2(y as nat) <= 15 * pow2(15nat)) by (nonlinear_arith)
            requires
                x < 16,
                pow2(y as nat) <= pow2(15nat),
        ;
        lemma_u64_shl_is_mul(x as u64, y as u64);
    }
    let wide: u64 = (x as u64) << (y as u64);
    proof {
        lemma_u64_low_bits_mask_is_mod(wide, 8);
        vstd::bits::lemma_low_bits_mask_values();
        assert(low_bits_mask(8) == 0xff);
    }
    let masked: u64 = wide & 0xff;
    masked as u8
}

/// Right shift of a byte-ranged operand.
fn shr_byte(x: u8, y: u8) -> (r: u8)
    requires
        x < 16,
        y < 16,
    ensures
        r as int == x as int / pow2(y as nat) as int,
{
    proof {
        lemma_u64_shr_is_div(x as u64, y as u64);
        lemma_pow2_pos(y as nat);
        lemma_div_is_ordered_by_denominator(x as int, 1, pow2(y as nat) as int);
    }
    let wide: u64 = (x as u64) >> (y as u64);
    wide as u8
}

/// Computes the result byte of one binary operation, exactly as
/// `binop_semantics` defines it, including the saturating SUB and the
/// zero result for DIV and MOD by zero.
pub fn binop_result(t: BinOpTag, x: u8, y: u8) -> (r: u8)
    requires
        x < 16,
        y < 16,
    ensures
        r as int == binop_semantics(t, x, y),
{
    proof {
        assert(x * y <= 225) by (nonlinear_arith)
            requires
                x < 16,
                y < 16,
        ;
    }
    match t {
        BinOpTag::ADD => x + y,
        BinOpTag::MUL => x * y,
        BinOpTag::SUB => if x >= y {
            x - y
        } else {
            0
        },
        BinOpTag::DIV => if y != 0 {
            x / y
        } else {
            0
        },
        BinOpTag::MOD => if y != 0 {
            x % y
        } else {
            0
        },
        BinOpTag::LT => if x < y {
            1
        } else {
            0
        },
        BinOpTag::GT => if x > y {
            1
        } else {
            0
        },
        BinOpTag::LE => if x <= y {
            1
        } else {
            0
        },
        BinOpTag::GE => if x >= y {
            1
        } else {
            0
        },
        BinOpTag::SHL => shl_byte(x, y),
        BinOpTag::SHR => shr_byte(x, y),
        BinOpTag::AND => x & y,
        BinOpTag::XOR => x ^ y,
        BinOpTag::OR => x | y,
        BinOpTag::EQ => if x == y {
            1
        } else {
            0
        },
    }
}

/// The row that position `i` of the generated table holds, recovered from
/// the generation order: `i = (x * 2^range + y) * 15 + k` with `k` the
/// position of the tag in declaration order.
pub open spec fn spec_table_row(range: u8, i: int) -> Seq<u8> {
    let n = spec_operand_count(range) as int;
    let x = i / (15 * n);
    let y = (i / 15) % n;
    let k = i % 15;
    let t = BinOpTag::spec_all()[k];
    seq![
        t.spec_code(),
        x as u8,
        y as u8,
        binop_semantics(t, x as u8, y as u8) as u8,
    ]
}

/// What it means for a row sequence to be the binary-operation table of a
/// bit-range: the exact row count, and every row determined by its position.
pub open spec fn is_binop_table(range: u8, rows: Seq<[u8; 4]>) -> bool {
    &&& rows.len() == spec_table_len(range)
    &&& forall|i: int| 0 <= i < rows.len() ==> rows[i]@ == spec_table_row(range, i)
}

/// Position arithmetic of the generation order: for in-range `x`, `y`, `k`
/// the flattened index decomposes back into exactly those coordinates.
proof fn lemma_row_index_decomposition(range: u8, x: int, y: int, k: int)
    requires
        0 <= x < spec_operand_count(range),
        0 <= y < spec_operand_count(range),
        0 <= k < 15,
    ensures
        ({
            let n = spec_operand_count(range) as int;
            let i = (x * n + y) * 15 + k;
            &&& 0 <= i < spec_table_len(range)
            &&& i / (15 * n) == x
            &&& (i / 15) % n == y
            &&& i % 15 == k
        }),
{
    let n = spec_operand_count(range) as int;
    let i = (x * n + y) * 15 + k;
    lemma_pow2_pos(range as nat);
    assert(i == x * (15 * n) + (15 * y + k) && 0 <= 15 * y + k < 15 * n && i == (x * n + y) * 15
        + k && 0 <= i < n * n * 15) by (nonlinear_arith)
        requires
            0 <= x < n,
            0 <= y < n,
            0 <= k < 15,
            i == (x * n + y) * 15 + k,
    ;
    lemma_fundamental_div_mod_converse(i, 15 * n, x, 15 * y + k);
    lemma_fundamental_div_mod_converse(i, 15, x * n + y, k);
    lemma_fundamental_div_mod_converse(x * n + y, n, x, y);
}

/// The inverse direction: every in-range position is the flattened index
/// of the coordinates that `spec_table_row` reads off it.
proof fn lemma_row_index_inverse(range: u8, i: int)
    requires
        0 <= i < spec_table_len(range),
    ensures
        ({
            let n = spec_operand_count(range) as int;
            let x = i / (15 * n);
            let y = (i / 15) % n;
            let k = i % 15;
            &&& 0 <= x < n
            &&& 0 <= y < n
            &&& 0 <= k < 15
            &&& i == (x * n + y) * 15 + k
        }),
{
    let n = spec_operand_count(range) as int;
    lemma_pow2_pos(range as nat);
    let x = i / (15 * n);
    let q = i / 15;
    let y = q % n;
    let k = i % 15;
    lemma_fundamental_div_mod(i, 15);
    assert(0 <= k < 15);
    lemma_fundamental_div_mod(q, n);
    assert(0 <= y < n);
    lemma_div_denominator(i, 15, n);
    assert(x == q / n);
    assert(i == (q / n * n + y) * 15 + k) by (nonlinear_arith)
        requires
            i == 15 * q + k,
            q == n * (q / n) + y,
    ;
    assert(0 <= x < n) by (nonlinear_arith)
        requires
            i == (x * n + y) * 15 + k,
            0 <= i < n * n * 15,
            0 <= y < n,
            0 <= k < 15,
            n > 0,
    ;
}

/// Generates the complete binary-operation table for a bit-range.
///
/// Every operand pair in `[0, 2^range)` appears with every tag, in the
/// fixed generation order, and each row carries the operator's defined
/// result.  The bound on `range` keeps every operand and result inside the
/// byte width of a table cell.
pub fn generate_binop_table(range: u8) -> (rows: Vec<[u8; 4]>)
    requires
        range <= 4,
    ensures
        is_binop_table(range, rows@),
{
    let mut n: usize = 1;
    let mut d: u8 = 0;
    proof {
        lemma2_to64();
    }
    while d < range
        invariant
            d <= range,
            range <= 4,
            n == spec_operand_count(d),
            n <= 16,
        decreases range - d,
    {
        proof {
            vstd::arithmetic::power2::lemma_pow2_unfold((d + 1) as nat);
            if d + 1 < 4 {
                lemma_pow2_strictly_increases((d + 1) as nat, 4);
            }
            lemma2_to64();
        }
        n = n * 2;
        d = d + 1;
    }
    let tags = BinOpTag::all();
    let mut rows: Vec<[u8; 4]> = Vec::new();
    let mut x: usize = 0;
    while x < n
        invariant
            x <= n,
            n == spec_operand_count(range),
            n <= 16,
            tags@ == BinOpTag::spec_all(),
            rows@.len() == x * n * 15,
            forall|i: int| 0 <= i < rows@.len() ==> rows@[i]@ == spec_table_row(range, i),
        decreases n - x,
    {
        let mut y: usize = 0;
        while y < n
            invariant
                x < n,
                y <= n,
                n == spec_operand_count(range),
                n <= 16,
                tags@ == BinOpTag::spec_all(),
                rows@.len() == (x * n + y) * 15,
                forall|i: int| 0 <= i < rows@.len() ==> rows@[i]@ == spec_table_row(range, i),
            decreases n - y,
        {
            let mut k: usize = 0;
            while k < 15
                invariant
                    x < n,
                    y < n,
                    k <= 15,
                    n == spec_operand_count(range),
                    n <= 16,
                    tags@ == BinOpTag::spec_all(),
                    rows@.len() == (x * n + y) * 15 + k,
                    forall|i: int| 0 <= i < rows@.len() ==> rows@[i]@ == spec_table_row(range, i),
                decreases 15 - k,
            {
                let t = tags[k];
                let code = t.code();
                let res = binop_result(t, x as u8, y as u8);
                let row: [u8; 4] = [code, x as u8, y as u8, res];
                proof {
                    lemma_row_index_decomposition(range, x as int, y as int, k as int);
                    assert(row@ =~= spec_table_row(range, rows@.len() as int));
                }
                rows.push(row);
                k = k + 1;
            }
            y = y + 1;
        }
        proof {
            assert((x * n + n) * 15 == (x + 1) * n * 15) by (nonlinear_arith);
        }
        y = 0;
        x = x + 1;
    }
    proof {
        assert(n * n * 15 == spec_table_len(range));
    }
    rows
}

/// Completeness and uniqueness of the generated table: for every binary
/// tag and every operand pair inside the range, the table holds a row
/// `(tag, x, y, result)` with the operator's defined result, and no two
/// distinct positions hold the same `(tag, x, y)` key.
pub proof fn lemma_table_exhaustive_and_unique(
    range: u8,
    rows: Seq<[u8; 4]>,
    t: BinOpTag,
    x: u8,
    y: u8,
)
    requires
        range <= 4,
        is_binop_table(range, rows),
        (x as nat) < spec_operand_count(range),
        (y as nat) < spec_operand_count(range),
    ensures
        exists|i: int|
            0 <= i < rows.len() && rows[i]@ =~= seq![
                t.spec_code(),
                x,
                y,
                binop_semantics(t, x, y) as u8,
            ],
        forall|i: int, j: int|
            0 <= i < rows.len() && 0 <= j < rows.len() && #[trigger] rows[i]@[0] == #[trigger] rows[j]@[0]
                && rows[i]@[1] == rows[j]@[1] && rows[i]@[2] == rows[j]@[2] ==> i == j,
{
    let n = spec_operand_count(range) as int;
    lemma_pow2_pos(range as nat);
    lemma2_to64();
    if (range as nat) < 4 {
        lemma_pow2_strictly_increases(range as nat, 4);
    }
    assert(n <= 16);
    // Existence: the generation order places the row for (t, x, y) at a
    // known position.
    let k = t.spec_code() - 1;
    lemma_binop_code_is_position(k);
    assert(BinOpTag::spec_all()[k] == t) by {
        crate::tag::lemma_binop_code_injective(BinOpTag::spec_all()[k], t);
    }
    let i0 = (x * n + y) * 15 + k;
    lemma_row_index_decomposition(range, x as int, y as int, k);
    assert(rows[i0]@ == spec_table_row(range, i0));
    assert(rows[i0]@ =~= seq![t.spec_code(), x, y, binop_semantics(t, x, y) as u8]);
    // Uniqueness: two positions with the same key decompose to the same
    // coordinates, hence are equal.
    assert forall|i: int, j: int|
        0 <= i < rows.len() && 0 <= j < rows.len() && #[trigger] rows[i]@[0] == #[trigger] rows[j]@[0]
            && rows[i]@[1] == rows[j]@[1] && rows[i]@[2] == rows[j]@[2] implies i == j by {
        lemma_row_index_inverse(range, i);
        lemma_row_index_inverse(range, j);
        let ki = i % 15;
        let kj = j % 15;
        lemma_binop_code_is_position(ki);
        lemma_binop_code_is_position(kj);
        let xi = i / (15 * n);
        let xj = j / (15 * n);
        let yi = (i / 15) % n;
        let yj = (j / 15) % n;
        assert(rows[i]@ == spec_table_row(range, i));
        assert(rows[j]@ == spec_table_row(range, j));
        assert(spec_table_row(range, i)[0] == BinOpTag::spec_all()[ki].spec_code());
        assert(spec_table_row(range, i)[1] == xi as u8);
        assert(spec_table_row(range, i)[2] == yi as u8);
        assert(spec_table_row(range, j)[0] == BinOpTag::spec_all()[kj].spec_code());
        assert(spec_table_row(range, j)[1] == xj as u8);
        assert(spec_table_row(range, j)[2] == yj as u8);
        assert(ki + 1 == kj + 1);
        assert(xi as u8 == xj as u8 && yi as u8 == yj as u8);
        assert(xi == xj && yi == yj);
    }
}

/// The boundary semantics never fail: dividing or reducing by zero yields
/// zero, and subtraction saturates at zero instead of underflowing.
pub proof fn lemma_boundary_semantics(x: u8, y: u8)
    ensures
        binop_semantics(BinOpTag::DIV, x, 0) == 0,
        binop_semantics(BinOpTag::MOD, x, 0) == 0,
        x < y ==> binop_semantics(BinOpTag::SUB, x, y) == 0,
        x >= y ==> binop_semantics(BinOpTag::SUB, x, y) == x - y,
{
}

/// Determinism of generation: any two row sequences that satisfy the table
/// predicate for the same range are byte-identical, row by row, in the
/// same order.
pub proof fn lemma_generation_deterministic(range: u8, a: Seq<[u8; 4]>, b: Seq<[u8; 4]>)
    requires
        is_binop_table(range, a),
        is_binop_table(range, b),
    ensures
        a.len() == b.len(),
        forall|i: int| 0 <= i < a.len() ==> #[trigger] a[i]@ == b[i]@,
{
    assert forall|i: int| 0 <= i < a.len() implies #[trigger] a[i]@ == b[i]@ by {
        assert(a[i]@ == spec_table_row(range, i));
        assert(b[i]@ == spec_table_row(range, i));
    }
}

} // verus!

