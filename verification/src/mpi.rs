//! Multi-precision integers as big-endian byte strings.

use vstd::prelude::*;
use crate::primitives::mod_inverse;
use crate::primitives::mod_inverse_of;

verus! {

/// The natural number that a big-endian byte string stands for. Leading zero
/// bytes do not change it, and the empty string stands for zero.
pub open spec fn be_value(bytes: Seq<u8>) -> nat
    decreases bytes.len(),
{
    if bytes.len() == 0 {
        0
    } else {
        be_value(bytes.drop_last()) * 256 + bytes.last() as nat
    }
}

/// The fewest bits that can express `v`; zero needs none.
pub open spec fn bit_length(v: nat) -> nat
    decreases v,
{
    if v == 0 {
        0
    } else {
        1 + bit_length(v / 2)
    }
}

/// Whether `x` is an inverse of `a` modulo `m`: their product leaves the
/// remainder one.
pub open spec fn is_inverse(a: nat, x: nat, m: nat) -> bool {
    (a * x) % m == 1
}

/// The public exponent of generated RSA keys.
pub const RSA_EXPONENT: u32 = 65537;

/// The number of residues prime to `p * q`, for two distinct primes: the
/// product of the two, each less one.
pub open spec fn totient(p: nat, q: nat) -> nat {
    if p >= 1 && q >= 1 {
        ((p - 1) * (q - 1)) as nat
    } else {
        0
    }
}

/// A byte string with a nonzero proper prefix stands for at least 256.
pub proof fn lemma_nonzero_prefix(bytes: Seq<u8>, k: int)
    requires
        0 <= k < bytes.len(),
        be_value(bytes.take(k)) >= 1,
    ensures
        be_value(bytes) >= 256,
    decreases bytes.len(),
{
    let front = bytes.drop_last();
    if k == bytes.len() - 1 {
        assert(front =~= bytes.take(k));
    } else {
        assert(front.take(k) =~= bytes.take(k));
        lemma_nonzero_prefix(front, k);
    }
}

/// Tells whether the number that `bytes` stands for is greater than one.
pub fn exceeds_one(bytes: &Vec<u8>) -> (r: bool)
    ensures
        r == (be_value(bytes@) > 1),
{
    let n = bytes.len();
    if n == 0 {
        return false;
    }
    let mut i: usize = 0;
    while i < n - 1
        invariant
            n == bytes.len(),
            0 <= i <= n - 1,
            be_value(bytes@.take(i as int)) == 0,
        decreases n - i,
    {
        if bytes[i] != 0 {
            proof {
                let upto = bytes@.take(i + 1);
                assert(upto.drop_last() =~= bytes@.take(i as int));
                lemma_nonzero_prefix(bytes@, i + 1);
            }
            return true;
        }
        proof {
            let upto = bytes@.take(i + 1);
            assert(upto.drop_last() =~= bytes@.take(i as int));
        }
        i += 1;
    }
    proof {
        assert(bytes@.drop_last() =~= bytes@.take(n - 1));
    }
    bytes[n - 1] > 1
}

/// `bytes` with zero bytes in front, to the length `len`.
pub open spec fn padded(bytes: Seq<u8>, len: nat) -> Seq<u8> {
    Seq::new((len - bytes.len()) as nat, |i: int| 0u8) + bytes
}

/// A string of zero bytes stands for zero.
pub proof fn lemma_zeros(len: nat)
    ensures
        be_value(Seq::new(len, |i: int| 0u8)) == 0,
    decreases len,
{
    if len > 0 {
        assert(Seq::new(len, |i: int| 0u8).drop_last() =~= Seq::new(
            (len - 1) as nat,
            |i: int| 0u8,
        ));
        lemma_zeros((len - 1) as nat);
    }
}

/// Zero bytes in front do not change the number.
pub proof fn lemma_padded(bytes: Seq<u8>, len: nat)
    requires
        bytes.len() <= len,
    ensures
        be_value(padded(bytes, len)) == be_value(bytes),
    decreases bytes.len(),
{
    if bytes.len() == 0 {
        assert(padded(bytes, len) =~= Seq::new(len, |i: int| 0u8));
        lemma_zeros(len);
    } else {
        assert(padded(bytes, len).drop_last() =~= padded(bytes.drop_last(), (len - 1) as nat));
        lemma_padded(bytes.drop_last(), (len - 1) as nat);
    }
}

/// The byte at place `i` of `bytes` padded to the length `len`.
fn padded_byte(bytes: &Vec<u8>, len: usize, i: usize) -> (byte: u8)
    requires
        bytes.len() <= len,
        i < len,
    ensures
        byte == padded(bytes@, len as nat)[i as int],
{
    let lead = len - bytes.len();
    if i < lead {
        0
    } else {
        bytes[i - lead]
    }
}

/// Tells whether the number that `a` stands for is less than the number
/// that `b` stands for.
pub fn below(a: &Vec<u8>, b: &Vec<u8>) -> (r: bool)
    ensures
        r == (be_value(a@) < be_value(b@)),
{
    let len = if a.len() >= b.len() {
        a.len()
    } else {
        b.len()
    };
    let ghost wide_a = padded(a@, len as nat);
    let ghost wide_b = padded(b@, len as nat);
    let mut less = false;
    let mut more = false;
    let mut i: usize = 0;
    while i < len
        invariant
            0 <= i <= len,
            a.len() <= len,
            b.len() <= len,
            wide_a == padded(a@, len as nat),
            wide_b == padded(b@, len as nat),
            less == (be_value(wide_a.take(i as int)) < be_value(wide_b.take(i as int))),
            more == (be_value(wide_a.take(i as int)) > be_value(wide_b.take(i as int))),
        decreases len - i,
    {
        let x = padded_byte(a, len, i);
        let y = padded_byte(b, len, i);
        proof {
            assert(wide_a.take(i + 1).drop_last() =~= wide_a.take(i as int));
            assert(wide_b.take(i + 1).drop_last() =~= wide_b.take(i as int));
        }
        if !less && !more {
            less = x < y;
            more = x > y;
        }
        i += 1;
    }
    proof {
        assert(wide_a.take(len as int) =~= wide_a);
        assert(wide_b.take(len as int) =~= wide_b);
        lemma_padded(a@, len as nat);
        lemma_padded(b@, len as nat);
    }
    less
}

/// The inverse that `inverse_modulo` gives: what the inversion picks, where
/// the modulus is greater than one and the pick is below it.
pub open spec fn inverse_below(a: Seq<u8>, m: Seq<u8>) -> Option<Seq<u8>> {
    match mod_inverse_of(a, m) {
        Some(x) => if be_value(m) > 1 && be_value(x) < be_value(m) {
            Some(x)
        } else {
            None
        },
        None => None,
    }
}

/// The inverse of `a` modulo `m`, below `m`: the number that the inversion
/// picks, where the modulus is greater than one and the pick is below it.
/// There is none where the modulus is one or less, and none where `a` has
/// no inverse.
pub fn inverse_modulo(a: &Vec<u8>, m: &Vec<u8>) -> (r: Option<Vec<u8>>)
    ensures
        match inverse_below(a@, m@) {
            Some(x) => r matches Some(bytes) && bytes@ == x,
            None => r is None,
        },
        r matches Some(x) ==> {
            &&& is_inverse(be_value(a@), be_value(x@), be_value(m@))
            &&& be_value(x@) < be_value(m@)
            &&& be_value(m@) > 1
        },
        be_value(m@) <= 1 ==> r is None,
        (forall|x: nat| !#[trigger] is_inverse(be_value(a@), x, be_value(m@))) ==> r is None,
{
    if !exceeds_one(m) {
        return None;
    }
    match mod_inverse(a, m) {
        Some(x) => if below(&x, m) {
            Some(x)
        } else {
            None
        },
        None => None,
    }
}

} // verus!
