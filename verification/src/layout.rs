use vstd::prelude::*;

use crate::element::ElementKind;
use vstd::arithmetic::div_mod::{
    lemma_fundamental_div_mod, lemma_mod_bound, lemma_mod_multiples_basic,
};

verus! {

/// Why constructing a shape or a tensor buffer was rejected.
#[derive(Clone, Copy, Debug, PartialEq, Eq)]
pub enum LayoutError {
    /// The requested shape contains a dimension of size zero.
    ZeroDimension,
    /// The padded element count or the byte size of the buffer does not fit
    /// in a machine word.
    SizeOverflow,
}

/// Every dimension size in the sequence is strictly positive.
pub open spec fn all_positive(dims: Seq<usize>) -> bool {
    forall|i: int| 0 <= i < dims.len() ==> dims[i] > 0
}

/// The product of all dimension sizes: the logical element count of a shape.
/// An empty sequence has product 1.
pub open spec fn product(dims: Seq<usize>) -> int
    decreases dims.len(),
{
    if dims.len() == 0 {
        1
    } else {
        product(dims.drop_last()) * (dims.last() as int)
    }
}

/// `n` rounded up to the next multiple of 8: the number of element slots
/// physically allocated, so that vectorized loops processing 8 elements per
/// step never run past the buffer.
pub open spec fn padded8(n: int) -> int {
    ((n + 7) / 8) * 8
}

/// The whole buffer layout fits in a machine word: the padded element count
/// times the element width does not exceed `usize::MAX`.
pub open spec fn layout_fits(dims: Seq<usize>, kind: ElementKind) -> bool {
    padded8(product(dims)) * kind.size_spec() <= usize::MAX
}

/// The padded count is a multiple of 8 no more than 7 slots above `n`.
pub proof fn lemma_padded8_bounds(n: int)
    requires
        n >= 0,
    ensures
        padded8(n) % 8 == 0,
        n <= padded8(n) <= n + 7,
{
    lemma_fundamental_div_mod(n + 7, 8);
    lemma_mod_bound(n + 7, 8);
    lemma_mod_multiples_basic((n + 7) / 8, 8);
}

/// A multiple of 8 within 7 of `n` is exactly `n` rounded up, pinning the
/// rounding down to one value.
pub proof fn lemma_padded8_unique(n: int, m: int)
    requires
        n >= 0,
        m % 8 == 0,
        n <= m <= n + 7,
    ensures
        m == padded8(n),
{
    lemma_padded8_bounds(n);
    lemma_fundamental_div_mod(m, 8);
    lemma_fundamental_div_mod(padded8(n), 8);
    lemma_mod_multiples_basic((n + 7) / 8, 8);
    let a = m / 8;
    let b = padded8(n) / 8;
    assert(m == 8 * a);
    assert(padded8(n) == 8 * b);
    assert(-8 < 8 * a - 8 * b < 8);
    assert(a == b) by (nonlinear_arith)
        requires
            -8 < 8 * a - 8 * b < 8,
    ;
}

/// The padded count is the least multiple of 8 that is at least `n`: it is
/// itself a multiple of 8, it is at least `n`, and no smaller multiple of 8
/// reaches `n`.
pub proof fn lemma_padded8_least(n: int)
    requires
        n >= 0,
    ensures
        padded8(n) % 8 == 0,
        padded8(n) >= n,
        forall|m: int| #[trigger] (m % 8) == 0 && m >= n ==> m >= padded8(n),
{
    lemma_padded8_bounds(n);
    assert forall|m: int| #[trigger] (m % 8) == 0 && m >= n implies m >= padded8(n) by {
        lemma_fundamental_div_mod(m, 8);
        assert(m == 8 * (m / 8));
        let a = m / 8;
        let b = padded8(n) / 8;
        lemma_fundamental_div_mod(padded8(n), 8);
        lemma_mod_multiples_basic((n + 7) / 8, 8);
        assert(padded8(n) == 8 * b);
        assert(8 * a > 8 * b - 8);
        assert(a >= b) by (nonlinear_arith)
            requires
                8 * a > 8 * b - 8,
        ;
    }
}

/// A product of strictly positive sizes is at least 1.
pub proof fn lemma_product_positive(dims: Seq<usize>)
    requires
        all_positive(dims),
    ensures
        product(dims) >= 1,
    decreases dims.len(),
{
    if dims.len() > 0 {
        assert(all_positive(dims.drop_last())) by {
            assert(forall|i: int|
                0 <= i < dims.drop_last().len() ==> dims.drop_last()[i] == dims[i]);
        }
        lemma_product_positive(dims.drop_last());
        assert(product(dims.drop_last()) * (dims.last() as int) >= 1) by (nonlinear_arith)
            requires
                product(dims.drop_last()) >= 1,
                dims.last() as int >= 1,
        ;
    }
}

/// Appending one more size multiplies the product by that size.
pub proof fn lemma_product_step(dims: Seq<usize>, i: int)
    requires
        0 <= i < dims.len(),
    ensures
        product(dims.subrange(0, i + 1)) == product(dims.subrange(0, i)) * (dims[i] as int),
{
    let pre = dims.subrange(0, i + 1);
    assert(pre.drop_last() =~= dims.subrange(0, i));
    assert(pre.last() == dims[i]);
}

/// With strictly positive sizes, the product of a prefix never exceeds the
/// product of the whole sequence.
pub proof fn lemma_product_prefix_le(dims: Seq<usize>, i: int)
    requires
        all_positive(dims),
        0 <= i <= dims.len(),
    ensures
        product(dims.subrange(0, i)) <= product(dims),
    decreases dims.len() - i,
{
    if i == dims.len() {
        assert(dims.subrange(0, i) =~= dims);
    } else {
        lemma_product_step(dims, i);
        lemma_product_prefix_le(dims, i + 1);
        lemma_product_positive(dims.subrange(0, i));
        assert(product(dims.subrange(0, i)) * (dims[i] as int) >= product(dims.subrange(0, i)))
            by (nonlinear_arith)
            requires
                product(dims.subrange(0, i)) >= 1,
                dims[i] as int >= 1,
        ;
    }
}

/// Computes the logical element count of a shape with strictly positive
/// dimensions: the product of all sizes, or `None` if it does not fit in a
/// machine word.
pub fn logical_count_of(dims: &Vec<usize>) -> (r: Option<usize>)
    requires
        all_positive(dims@),
    ensures
        match r {
            Some(c) => c == product(dims@),
            None => product(dims@) > usize::MAX,
        },
{
    let ghost gdims = dims@;
    let mut acc: usize = 1;
    let mut i: usize = 0;
    proof {
        assert(gdims.subrange(0, 0) =~= Seq::<usize>::empty());
    }
    while i < dims.len()
        invariant
            all_positive(gdims),
            gdims == dims@,
            0 <= i <= gdims.len(),
            acc == product(gdims.subrange(0, i as int)),
        decreases gdims.len() - i,
    {
        proof {
            lemma_product_step(gdims, i as int);
        }
        match acc.checked_mul(dims[i]) {
            Some(next) => {
                acc = next;
            },
            None => {
                proof {
                    lemma_product_prefix_le(gdims, i as int + 1);
                }
                return None;
            },
        }
        i = i + 1;
    }
    proof {
        assert(gdims.subrange(0, gdims.len() as int) =~= gdims);
    }
    Some(acc)
}

/// Rounds an element count up to the next multiple of 8, or `None` if that
/// multiple does not fit in a machine word. In the common case the rounding
/// is the bit-mask computation `(n + 7) & !7`, valid because 8 is a power of
/// two.
pub fn padded_count_of(n: usize) -> (r: Option<usize>)
    ensures
        match r {
            Some(p) => p == padded8(n as int),
            None => padded8(n as int) > usize::MAX,
        },
{
    if n <= usize::MAX - 7 {
        let p: usize = (n + 7) & !7;
        proof {
            lemma_mask_rounds(n);
        }
        Some(p)
    } else {
        let rem: usize = n % 8;
        if rem == 0 {
            proof {
                lemma_padded8_unique(n as int, n as int);
            }
            Some(n)
        } else {
            proof {
                lemma_padded8_overflows(n);
            }
            None
        }
    }
}

/// The bit-mask rounding `(n + 7) & !7` computes the padded count whenever
/// `n + 7` does not overflow.
proof fn lemma_mask_rounds(n: usize)
    requires
        n + 7 <= usize::MAX,
    ensures
        (((n + 7) as usize) & !7) == padded8(n as int),
{
    let s: usize = ((n + 7) as usize);
    let m: usize = s & !7;
    assert(s == vstd::prelude::add(n, 7));
    assert(m % 8 == 0 && n <= m && m <= s) by (bit_vector)
        requires
            s == vstd::prelude::add(n, 7),
            s >= n,
            m == s & !7,
    ;
    lemma_padded8_unique(n as int, m as int);
}

/// Within 7 of `usize::MAX`, an unaligned count rounds up past the largest
/// machine word.
proof fn lemma_padded8_overflows(n: usize)
    requires
        n > usize::MAX - 7,
        n % 8 != 0,
    ensures
        padded8(n as int) > usize::MAX,
{
    lemma_padded8_bounds(n as int);
    let p = padded8(n as int);
    assert(usize::MAX % 8 == 7) by {
        vstd::layout::unsigned_int_max_values();
        vstd::arithmetic::power2::lemma2_to64();
        assert(usize::BITS == 32 || usize::BITS == 64);
    }
    if p <= usize::MAX {
        lemma_fundamental_div_mod(p, 8);
        lemma_fundamental_div_mod(usize::MAX as int, 8);
        let a = p / 8;
        let b = usize::MAX as int / 8;
        assert(p == 8 * a);
        assert(usize::MAX as int == 8 * b + 7);
        // p is a multiple of 8 that is at most usize::MAX, so it is at most
        // the largest such multiple, usize::MAX - 7, which sits below n.
        assert(8 * a <= 8 * b + 7);
        assert(a <= b) by (nonlinear_arith)
            requires
                8 * a <= 8 * b + 7,
        ;
        assert(p <= usize::MAX - 7);
        // but p >= n > usize::MAX - 7, a contradiction
        assert(false);
    }
}

} // verus!
