//! Byte strings read as unsigned integers, most or least significant byte first.

use vstd::prelude::*;

verus! {

/// `256` raised to `n`: the number of values that `n` bytes can hold.
pub open spec fn byte_range(n: nat) -> nat
    decreases n,
{
    if n == 0 {
        1
    } else {
        256 * byte_range((n - 1) as nat)
    }
}

/// The value of `s` read big-endian: the first byte is the most significant.
pub open spec fn be_value(s: Seq<u8>) -> nat
    decreases s.len(),
{
    if s.len() == 0 {
        0
    } else {
        be_value(s.drop_last()) * 256 + s.last() as nat
    }
}

/// The value of `s` read little-endian: the first byte is the least significant.
pub open spec fn le_value(s: Seq<u8>) -> nat
    decreases s.len(),
{
    if s.len() == 0 {
        0
    } else {
        s[0] as nat + 256 * le_value(s.drop_first())
    }
}

/// Sixteen bytes hold exactly the values of a `u128`.
pub proof fn lemma_byte_range_16()
    ensures
        byte_range(16) == u128::MAX + 1,
{
    reveal_with_fuel(byte_range, 17);
}

pub proof fn lemma_byte_range_positive(n: nat)
    ensures
        byte_range(n) > 0,
    decreases n,
{
    if n > 0 {
        lemma_byte_range_positive((n - 1) as nat);
    }
}

/// A big-endian value of `n` bytes is below `256^n`.
pub proof fn lemma_be_value_bound(s: Seq<u8>)
    ensures
        be_value(s) < byte_range(s.len()),
    decreases s.len(),
{
    if s.len() > 0 {
        let t = s.drop_last();
        lemma_be_value_bound(t);
        let a = be_value(t);
        let r = byte_range(t.len());
        let b = s.last() as nat;
        assert(a * 256 + b < r * 256) by (nonlinear_arith)
            requires
                a < r,
                b < 256,
        ;
    }
}

/// Putting a byte in front of a big-endian string adds it at the top position.
#[verifier::spinoff_prover]
pub proof fn lemma_be_value_prepend(b: u8, s: Seq<u8>)
    ensures
        be_value(seq![b] + s) == b as nat * byte_range(s.len()) + be_value(s),
    decreases s.len(),
{
    let x = b as nat;
    if s.len() == 0 {
        assert((seq![b] + s).drop_last() =~= Seq::<u8>::empty());
        assert((seq![b] + s).last() == b);
        assert(be_value(Seq::<u8>::empty()) == 0);
        assert(s =~= Seq::<u8>::empty());
        assert(be_value(seq![b] + s) == x);
        assert(byte_range(s.len()) == 1);
        assert(x * byte_range(s.len()) == x);
    } else {
        let t = s.drop_last();
        let l = s.last() as nat;
        assert((seq![b] + s).drop_last() =~= seq![b] + t);
        assert((seq![b] + s).last() == s.last());
        lemma_be_value_prepend(b, t);
        let r = byte_range(t.len());
        let v = be_value(t);
        let lhs = be_value(seq![b] + s);
        assert(lhs == (x * r + v) * 256 + l);
        assert(be_value(s) == v * 256 + l);
        let big = byte_range(s.len());
        assert(big == 256 * r);
        assert(lhs == x * big + be_value(s)) by (nonlinear_arith)
            requires
                lhs == (x * r + v) * 256 + l,
                be_value(s) == v * 256 + l,
                big == 256 * r,
        ;
    }
}

/// Big-endian encoding is one-to-one: two byte strings of one length with the
/// same big-endian value are equal, so re-encoding a decoded value gives the
/// bytes back.
pub proof fn law_be_encoding_one_to_one(s: Seq<u8>, t: Seq<u8>)
    requires
        s.len() == t.len(),
        be_value(s) == be_value(t),
    ensures
        s == t,
    decreases s.len(),
{
    if s.len() > 0 {
        let a = be_value(s.drop_last());
        let b = be_value(t.drop_last());
        let x = s.last() as nat;
        let y = t.last() as nat;
        assert(a == b && x == y) by (nonlinear_arith)
            requires
                a * 256 + x == b * 256 + y,
                x < 256,
                y < 256,
        ;
        law_be_encoding_one_to_one(s.drop_last(), t.drop_last());
        assert(s =~= s.drop_last().push(s.last()));
        assert(t =~= t.drop_last().push(t.last()));
    } else {
        assert(s =~= t);
    }
}

/// Little-endian encoding is one-to-one: two byte strings of one length with
/// the same little-endian value are equal, so re-encoding a decoded value
/// gives the bytes back.
pub proof fn law_le_encoding_one_to_one(s: Seq<u8>, t: Seq<u8>)
    requires
        s.len() == t.len(),
        le_value(s) == le_value(t),
    ensures
        s == t,
    decreases s.len(),
{
    if s.len() > 0 {
        let a = le_value(s.drop_first());
        let b = le_value(t.drop_first());
        let x = s[0] as nat;
        let y = t[0] as nat;
        assert(a == b && x == y) by (nonlinear_arith)
            requires
                x + 256 * a == y + 256 * b,
                x < 256,
                y < 256,
        ;
        law_le_encoding_one_to_one(s.drop_first(), t.drop_first());
        assert(s =~= seq![s[0]] + s.drop_first());
        assert(t =~= seq![t[0]] + t.drop_first());
    } else {
        assert(s =~= t);
    }
}

/// Appending a byte to a little-endian string adds it at the top position.
pub proof fn law_le_value_append(s: Seq<u8>, b: u8)
    ensures
        le_value(s.push(b)) == le_value(s) + b as nat * byte_range(s.len()),
    decreases s.len(),
{
    let x = b as nat;
    if s.len() == 0 {
        assert(s.push(b).drop_first() =~= Seq::<u8>::empty());
        assert(le_value(Seq::<u8>::empty()) == 0);
        assert(le_value(s) == 0);
        assert(byte_range(s.len()) == 1);
        assert(x * byte_range(s.len()) == x);
    } else {
        let t = s.drop_first();
        assert(s.push(b).drop_first() =~= t.push(b));
        assert(s.push(b)[0] == s[0]);
        law_le_value_append(t, b);
        let h = s[0] as nat;
        let v = le_value(t);
        let r = byte_range(t.len());
        let big = byte_range(s.len());
        let whole = le_value(s.push(b));
        assert(whole == h + 256 * (v + x * r));
        assert(le_value(s) == h + 256 * v);
        assert(big == 256 * r);
        assert(whole == le_value(s) + x * big) by (nonlinear_arith)
            requires
                whole == h + 256 * (v + x * r),
                le_value(s) == h + 256 * v,
                big == 256 * r,
        ;
    }
}

/// Reading the concatenation `s + t` big-endian: `s` stands `t.len()` bytes higher.
pub proof fn lemma_be_value_concat(s: Seq<u8>, t: Seq<u8>)
    ensures
        be_value(s + t) == be_value(s) * byte_range(t.len()) + be_value(t),
    decreases t.len(),
{
    if t.len() == 0 {
        assert(s + t =~= s);
        assert(be_value(s) * byte_range(0) == be_value(s)) by {
            assert(byte_range(0) == 1);
        }
    } else {
        let u = t.drop_last();
        let l = t.last() as nat;
        assert((s + t).drop_last() =~= s + u);
        assert((s + t).last() == t.last());
        lemma_be_value_concat(s, u);
        let a = be_value(s);
        let r = byte_range(u.len());
        let b = be_value(u);
        let whole = be_value(s + t);
        let big = byte_range(t.len());
        assert(whole == (a * r + b) * 256 + l);
        assert(be_value(t) == b * 256 + l);
        assert(big == 256 * r);
        assert(whole == a * big + be_value(t)) by (nonlinear_arith)
            requires
                whole == (a * r + b) * 256 + l,
                be_value(t) == b * 256 + l,
                big == 256 * r,
        ;
    }
}

/// A 32-byte big-endian word whose value fits in 128 bits is read the same
/// from its low sixteen bytes alone.
pub proof fn law_word_low_half(word: Seq<u8>)
    requires
        word.len() == 32,
        be_value(word) <= u128::MAX,
    ensures
        be_value(word.subrange(16, 32)) == be_value(word),
{
    let hi = word.subrange(0, 16);
    let lo = word.subrange(16, 32);
    assert(word =~= hi + lo);
    lemma_be_value_concat(hi, lo);
    lemma_byte_range_16();
    lemma_be_value_bound(lo);
    let h = be_value(hi);
    let r = byte_range(16);
    let v = be_value(lo);
    assert(h == 0) by (nonlinear_arith)
        requires
            h * r + v <= u128::MAX,
            r == u128::MAX + 1,
            v >= 0,
    ;
}

/// The `u128` whose big-endian bytes are `bytes` (as `u128::from_be_bytes`).
pub fn u128_from_be_bytes(bytes: &[u8; 16]) -> (value: u128)
    ensures
        value == be_value(bytes@),
{
    let mut acc: u128 = 0;
    let mut i: usize = 0;
    proof {
        assert(bytes@.subrange(0, 0) =~= Seq::<u8>::empty());
    }
    while i < 16
        invariant
            i <= 16,
            bytes@.len() == 16,
            acc == be_value(bytes@.subrange(0, i as int)),
        decreases 16 - i,
    {
        proof {
            let pre = bytes@.subrange(0, i as int);
            lemma_be_value_bound(pre);
            lemma_be_value_bound(bytes@.subrange(0, i + 1));
            lemma_byte_range_16();
            lemma_byte_range_monotone(i as nat + 1, 16);
            assert(bytes@.subrange(0, i + 1).drop_last() =~= pre);
        }
        acc = acc * 256 + bytes[i] as u128;
        i = i + 1;
    }
    proof {
        assert(bytes@.subrange(0, 16) =~= bytes@);
    }
    acc
}

/// The big-endian bytes of `value` (as `u128::to_be_bytes`).
pub fn u128_to_be_bytes(value: u128) -> (bytes: [u8; 16])
    ensures
        be_value(bytes@) == value,
{
    let mut bytes: [u8; 16] = [0u8; 16];
    let mut rest: u128 = value;
    let mut i: usize = 0;
    proof {
        assert(bytes@.subrange(16, 16) =~= Seq::<u8>::empty());
        assert(be_value(Seq::<u8>::empty()) == 0);
        assert(byte_range(0) == 1);
    }
    while i < 16
        invariant
            i <= 16,
            bytes@.len() == 16,
            rest as nat * byte_range(i as nat) + be_value(bytes@.subrange(16 - i, 16)) == value,
        decreases 16 - i,
    {
        let ghost old_bytes = bytes@;
        let ghost suffix = bytes@.subrange(16 - i, 16);
        let b: u8 = (rest % 256) as u8;
        bytes[15 - i] = b;
        proof {
            assert(bytes@.subrange(15 - i, 16) =~= seq![b] + suffix);
            lemma_be_value_prepend(b, suffix);
            let r = byte_range(i as nat);
            let q = rest as nat / 256;
            let m = rest as nat % 256;
            assert(byte_range(i as nat + 1) == 256 * r);
            assert(q * (256 * r) + (m * r + be_value(suffix)) == rest as nat * r + be_value(suffix))
                by (nonlinear_arith)
                requires
                    q == rest as nat / 256,
                    m == rest as nat % 256,
            ;
        }
        rest = rest / 256;
        i = i + 1;
    }
    proof {
        assert(bytes@.subrange(0, 16) =~= bytes@);
        lemma_byte_range_16();
        assert(rest == 0) by (nonlinear_arith)
            requires
                rest as nat * byte_range(16) + be_value(bytes@) == value,
                byte_range(16) == u128::MAX + 1,
        ;
    }
    bytes
}

pub proof fn lemma_byte_range_monotone(m: nat, n: nat)
    requires
        m <= n,
    ensures
        byte_range(m) <= byte_range(n),
    decreases n,
{
    if m < n {
        lemma_byte_range_monotone(m, (n - 1) as nat);
        lemma_byte_range_positive((n - 1) as nat);
    }
}

} // verus!
