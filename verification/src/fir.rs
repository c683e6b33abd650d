//! Packing of the demodulator's 16-tap FIR coefficient table.
//!
//! The first 8 taps are signed bytes and are stored as they are; the
//! remaining 8 are 12-bit signed values packed three bytes per pair.
//! The packing is lossless: `spec_unpack_fir` recovers every in-range
//! coefficient table from its 20-byte image.

use vstd::prelude::*;

verus! {

/// Number of FIR coefficients.
pub const FIR_LEN: usize = 16;

/// Whether `fir` is a valid coefficient table: 16 taps, the first 8 in
/// signed-byte range, the rest in signed-12-bit range.
pub open spec fn fir_coeffs_ok(fir: Seq<i32>) -> bool {
    &&& fir.len() == 16
    &&& forall|i: int| 0 <= i < 8 ==> -128 <= #[trigger] fir[i] <= 127
    &&& forall|i: int| 8 <= i < 16 ==> -2048 <= #[trigger] fir[i] <= 2047
}

/// A 12-bit value in two's complement, as a non-negative integer.
pub open spec fn u12(v: int) -> int {
    if v < 0 {
        v + 4096
    } else {
        v
    }
}

/// Byte `j` of the packed 20-byte FIR image.
pub open spec fn fir_byte(fir: Seq<i32>, j: int) -> u8 {
    if j < 8 {
        if fir[j] < 0 {
            (fir[j] + 256) as u8
        } else {
            fir[j] as u8
        }
    } else {
        let k = (j - 8) / 3;
        let v0 = u12(fir[8 + 2 * k] as int);
        let v1 = u12(fir[8 + 2 * k + 1] as int);
        if (j - 8) % 3 == 0 {
            (v0 / 16) as u8
        } else if (j - 8) % 3 == 1 {
            ((v0 % 16) * 16 + v1 / 256) as u8
        } else {
            (v1 % 256) as u8
        }
    }
}

/// The packed 20-byte image of a coefficient table.
pub open spec fn spec_pack_fir(fir: Seq<i32>) -> Seq<u8> {
    Seq::new(20, |j: int| fir_byte(fir, j))
}

/// A signed byte read back from its two's-complement image.
pub open spec fn s8_of(b: u8) -> int {
    if b >= 128 {
        b - 256
    } else {
        b as int
    }
}

/// A signed 12-bit value read back from its two's-complement image.
pub open spec fn s12_of(w: int) -> int {
    if w >= 2048 {
        w - 4096
    } else {
        w
    }
}

/// Coefficient `i` recovered from a packed 20-byte image.
pub open spec fn fir_val(b: Seq<u8>, i: int) -> int {
    if i < 8 {
        s8_of(b[i])
    } else {
        let k = (i - 8) / 2;
        if (i - 8) % 2 == 0 {
            s12_of((b[8 + 3 * k] as int) * 16 + (b[8 + 3 * k + 1] as int) / 16)
        } else {
            s12_of(((b[8 + 3 * k + 1] as int) % 16) * 256 + (b[8 + 3 * k + 2] as int))
        }
    }
}

/// The coefficient table recovered from a packed 20-byte image.
pub open spec fn spec_unpack_fir(b: Seq<u8>) -> Seq<int> {
    Seq::new(16, |i: int| fir_val(b, i))
}

/// Packing then unpacking hands every in-range coefficient table back
/// unchanged.
pub proof fn lemma_fir_pack_unpack(fir: Seq<i32>)
    requires
        fir_coeffs_ok(fir),
    ensures
        spec_unpack_fir(spec_pack_fir(fir)) == Seq::new(16, |i: int| fir[i] as int),
{
    let b = spec_pack_fir(fir);
    assert forall|i: int| 0 <= i < 16 implies fir_val(b, i) == fir[i] as int by {
        if i < 8 {
            assert(s8_of(fir_byte(fir, i)) == fir[i]);
        } else {
            let k = (i - 8) / 2;
            let v0 = u12(fir[8 + 2 * k] as int);
            let v1 = u12(fir[8 + 2 * k + 1] as int);
            assert(0 <= v0 < 4096 && 0 <= v1 < 4096);
            assert(b[8 + 3 * k] == (v0 / 16) as u8);
            assert(b[8 + 3 * k + 1] == ((v0 % 16) * 16 + v1 / 256) as u8);
            assert(b[8 + 3 * k + 2] == (v1 % 256) as u8);
            assert(((v0 % 16) * 16 + v1 / 256) / 16 == v0 % 16) by (nonlinear_arith)
                requires
                    0 <= v0 < 4096,
                    0 <= v1 < 4096,
            ;
            assert((v0 / 16) * 16 + v0 % 16 == v0) by (nonlinear_arith)
                requires
                    0 <= v0 < 4096,
            ;
            assert(((v0 % 16) * 16 + v1 / 256) % 16 == (v1 / 256) % 16) by (nonlinear_arith)
                requires
                    0 <= v0 < 4096,
                    0 <= v1 < 4096,
            ;
            assert((v1 / 256) % 16 == v1 / 256) by (nonlinear_arith)
                requires
                    0 <= v1 < 4096,
            ;
            assert((v1 / 256) * 256 + v1 % 256 == v1) by (nonlinear_arith)
                requires
                    0 <= v1 < 4096,
            ;
            if (i - 8) % 2 == 0 {
                assert(fir_val(b, i) == s12_of(v0));
                assert(s12_of(v0) == fir[8 + 2 * k]);
            } else {
                assert(i == 8 + 2 * k + 1);
                assert(fir_val(b, i) == s12_of(v1));
                assert(s12_of(v1) == fir[8 + 2 * k + 1]);
            }
        }
    }
    assert(spec_unpack_fir(spec_pack_fir(fir)) =~= Seq::new(16, |i: int| fir[i] as int));
}

/// Pack a coefficient table into the 20 bytes written to the
/// demodulator.
pub fn pack_fir(fir: &Vec<i32>) -> (r: Vec<u8>)
    requires
        fir_coeffs_ok(fir@),
    ensures
        r@ == spec_pack_fir(fir@),
{
    let mut out: Vec<u8> = Vec::new();
    let mut i: usize = 0;
    while i < 8
        invariant
            fir_coeffs_ok(fir@),
            i <= 8,
            out@.len() == i,
            forall|j: int| 0 <= j < i ==> out@[j] == fir_byte(fir@, j),
        decreases 8 - i,
    {
        let v: i32 = fir[i];
        let b: u8 = if v < 0 {
            (v + 256) as u8
        } else {
            v as u8
        };
        out.push(b);
        i = i + 1;
    }
    let mut k: usize = 0;
    while k < 4
        invariant
            fir_coeffs_ok(fir@),
            k <= 4,
            out@.len() == 8 + 3 * k,
            forall|j: int| 0 <= j < 8 + 3 * k ==> out@[j] == fir_byte(fir@, j),
        decreases 4 - k,
    {
        let v0r: i32 = fir[8 + 2 * k];
        let v1r: i32 = fir[8 + 2 * k + 1];
        let v0: u32 = ((v0r + 4096) as u32) % 4096;
        let v1: u32 = ((v1r + 4096) as u32) % 4096;
        proof {
            assert(v0 == u12(fir@[8 + 2 * (k as int)] as int));
            assert(v1 == u12(fir@[8 + 2 * (k as int) + 1] as int));
        }
        out.push((v0 / 16) as u8);
        out.push(((v0 % 16) * 16 + v1 / 256) as u8);
        out.push((v1 % 256) as u8);
        proof {
            assert forall|j: int| 0 <= j < 8 + 3 * (k + 1) implies out@[j] == fir_byte(fir@, j) by {
                if j >= 8 + 3 * k {
                    assert((j - 8) / 3 == k && (j - 8) % 3 == j - 8 - 3 * (k as int))
                        by (nonlinear_arith)
                        requires
                            8 + 3 * (k as int) <= j < 8 + 3 * ((k as int) + 1),
                    ;
                }
            }
        }
        k = k + 1;
    }
    proof {
        assert(out@ =~= spec_pack_fir(fir@));
    }
    out
}

} // verus!
