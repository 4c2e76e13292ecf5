//! LEB128 variable-length integers: the mathematical model of a decode, an
//! executable decoder over a byte slice, and the canonical encoding with its
//! round-trip laws.

use vstd::prelude::*;

use vstd::arithmetic::power2::{
    lemma2_to64, lemma2_to64_rest, lemma_pow2_adds, lemma_pow2_pos, lemma_pow2_strictly_increases,
    pow2,
};
use vstd::arithmetic::mul::lemma_mul_inequality;

use crate::parser::ParserError;

verus! {

/// Whether a byte carries the continuation bit, announcing a further byte.
pub open spec fn has_cont_bit(b: u8) -> bool {
    b >= 0x80
}

/// The seven data bits of one encoded byte.
pub open spec fn low_bits(b: u8) -> nat {
    (b % 0x80) as nat
}

/// How many continuation bytes stand at `pos` before the first byte without
/// the continuation bit; `None` when the buffer ends before such a byte.
pub open spec fn cont_len(s: Seq<u8>, pos: nat) -> Option<nat>
    decreases s.len() - pos,
{
    if pos >= s.len() {
        None
    } else if !has_cont_bit(s[pos as int]) {
        Some(0)
    } else {
        match cont_len(s, pos + 1) {
            Some(n) => Some(n + 1),
            None => None,
        }
    }
}

/// The integer carried by the `n + 1` bytes at `pos`: seven data bits per
/// byte, least significant group first.
pub open spec fn leb_data(s: Seq<u8>, pos: nat, n: nat) -> nat
    decreases n,
{
    if n == 0 {
        low_bits(s[pos as int])
    } else {
        leb_data(s, pos, (n - 1) as nat) + low_bits(s[(pos + n) as int]) * pow2(7 * n)
    }
}

/// One LEB128 decode at `pos`: scan to the first byte without the
/// continuation bit, reject a scan that uses more continuation bytes than the
/// bit width permits, and assemble the value. A signed decode yields a
/// negative value exactly when bit `0x40` of the final byte is set, by
/// sign-extending above the last contributed bit position. On success the
/// first component is the position just past the encoding.
pub open spec fn spec_leb(s: Seq<u8>, pos: nat, bits: nat, signed: bool) -> Result<
    (nat, int),
    ParserError,
> {
    match cont_len(s, pos) {
        None => Err(ParserError::Incomplete),
        Some(n) => {
            if n > bits / 7 {
                Err(ParserError::Invalid)
            } else {
                let raw = leb_data(s, pos, n) as int;
                let v: int = if signed && s[(pos + n) as int] % 0x80 >= 0x40 {
                    raw - pow2(7 * (n + 1))
                } else {
                    raw
                };
                Ok(((pos + n + 1) as nat, v))
            }
        },
    }
}

/// Where the scan found its terminating byte, the continuation bytes lie
/// before it and the terminator lies inside the buffer.
pub proof fn lemma_cont_len_ok(s: Seq<u8>, pos: nat, n: nat)
    requires
        cont_len(s, pos) == Some(n),
    ensures
        pos + n < s.len(),
        !has_cont_bit(s[(pos + n) as int]),
        forall|j: int| pos <= j < pos + n ==> has_cont_bit(s[j]),
    decreases n,
{
    if has_cont_bit(s[pos as int]) {
        lemma_cont_len_ok(s, pos + 1, (n - 1) as nat);
    }
}

/// A terminating byte after `n` continuation bytes makes the scan length `n`.
pub proof fn lemma_cont_len_from_shape(s: Seq<u8>, pos: nat, n: nat)
    requires
        pos + n < s.len(),
        !has_cont_bit(s[(pos + n) as int]),
        forall|j: int| pos <= j < pos + n ==> has_cont_bit(s[j]),
    ensures
        cont_len(s, pos) == Some(n),
    decreases n,
{
    if n > 0 {
        lemma_cont_len_from_shape(s, pos + 1, (n - 1) as nat);
    }
}

/// When every byte from `pos` to the end carries the continuation bit, the
/// scan finds no terminator.
pub proof fn lemma_cont_len_none_from_shape(s: Seq<u8>, pos: nat)
    requires
        forall|j: int| pos <= j < s.len() ==> has_cont_bit(s[j]),
    ensures
        cont_len(s, pos) is None,
    decreases s.len() - pos,
{
    if pos < s.len() {
        lemma_cont_len_none_from_shape(s, pos + 1);
    }
}

/// The assembled value fits the bits that carried it.
pub proof fn lemma_leb_data_bound(s: Seq<u8>, pos: nat, n: nat)
    ensures
        leb_data(s, pos, n) < pow2(7 * (n + 1)),
    decreases n,
{
    lemma2_to64();
    if n == 0 {
    } else {
        lemma_leb_data_bound(s, pos, (n - 1) as nat);
        let high = low_bits(s[(pos + n) as int]);
        lemma_mul_inequality(high as int, 127, pow2(7 * n) as int);
        lemma_pow2_adds(7 * n, 7);
        lemma_pow2_pos(7 * n);
        assert(leb_data(s, pos, n) == leb_data(s, pos, (n - 1) as nat) + high * pow2(7 * n));
        assert(leb_data(s, pos, (n - 1) as nat) < pow2(7 * n));
        assert(high * pow2(7 * n) <= 127 * pow2(7 * n));
        assert(pow2(7 * n) + 127 * pow2(7 * n) == 128 * pow2(7 * n));
        assert(pow2(7 * (n + 1)) == pow2(7 * n) * 128);
    }
}

/// The value of `n + 1` bytes splits as the first byte's group plus the
/// remaining bytes' value shifted one group up.
pub proof fn lemma_leb_data_split(s: Seq<u8>, pos: nat, n: nat)
    requires
        n >= 1,
    ensures
        leb_data(s, pos, n) == low_bits(s[pos as int]) + 128 * leb_data(s, pos + 1, (n - 1) as nat),
    decreases n,
{
    lemma2_to64();
    if n == 1 {
        assert(leb_data(s, pos, 1) == leb_data(s, pos, 0) + low_bits(s[(pos + 1) as int]) * pow2(
            7,
        ));
    } else {
        lemma_leb_data_split(s, pos, (n - 1) as nat);
        let hm = low_bits(s[(pos + n) as int]);
        lemma_pow2_adds((7 * (n - 1)) as nat, 7);
        assert(leb_data(s, pos + 1, (n - 1) as nat) == leb_data(s, pos + 1, (n - 2) as nat) + hm
            * pow2((7 * (n - 1)) as nat));
        assert(leb_data(s, pos, n) == leb_data(s, pos, (n - 1) as nat) + hm * pow2(7 * n));
        assert(pow2(7 * n) == pow2((7 * (n - 1)) as nat) * 128);
        assert(hm * (pow2((7 * (n - 1)) as nat) * 128) == 128 * (hm * pow2((7 * (n - 1)) as nat)))
            by (nonlinear_arith);
    }
}

/// A successful decode stands on a scan the width allows, consumes at least
/// one byte, and stays inside the buffer; the value is bounded by the bytes
/// read, and an unsigned decode is never negative.
pub proof fn lemma_spec_leb_ok(s: Seq<u8>, pos: nat, bits: nat, signed: bool, p: nat, v: int)
    requires
        spec_leb(s, pos, bits, signed) == Ok::<(nat, int), ParserError>((p, v)),
    ensures
        pos < p <= s.len(),
        p <= pos + bits / 7 + 1,
        !signed ==> 0 <= v < pow2((7 * (p - pos)) as nat),
        signed ==> -pow2((7 * (p - pos)) as nat) <= v < pow2((7 * (p - pos)) as nat),
{
    let n = (p - pos - 1) as nat;
    lemma_cont_len_ok(s, pos, n);
    lemma_leb_data_bound(s, pos, n);
    lemma_pow2_pos(7 * (n + 1));
}

/// The canonical (shortest) LEB128 encoding of an unsigned value.
pub open spec fn uleb_encode(v: nat) -> Seq<u8>
    decreases v,
{
    if v < 128 {
        seq![v as u8]
    } else {
        seq![(0x80 + v % 128) as u8] + uleb_encode(v / 128)
    }
}

/// Shape of the canonical encoding: at least one byte, tight two-sided value
/// bounds (which make the length minimal), continuation bits on every byte
/// but the last.
pub proof fn lemma_uleb_encode_props(v: nat)
    ensures
        uleb_encode(v).len() >= 1,
        v < pow2(7 * uleb_encode(v).len()),
        uleb_encode(v).len() > 1 ==> v >= pow2((7 * (uleb_encode(v).len() - 1)) as nat),
        forall|j: int| 0 <= j < uleb_encode(v).len() - 1 ==> has_cont_bit(#[trigger] uleb_encode(v)[j]),
        !has_cont_bit(uleb_encode(v)[uleb_encode(v).len() - 1]),
    decreases v,
{
    lemma2_to64();
    let enc = uleb_encode(v);
    if v < 128 {
    } else {
        lemma_uleb_encode_props(v / 128);
        let rest = uleb_encode(v / 128);
        let m = rest.len();
        assert(enc.len() == m + 1);
        lemma_pow2_adds(7 * m, 7);
        assert(v / 128 < pow2(7 * m));
        assert(v == 128 * (v / 128) + v % 128);
        assert(128 * (v / 128) <= 128 * (pow2(7 * m) - 1)) by (nonlinear_arith)
            requires
                v / 128 < pow2(7 * m),
        ;
        assert(v < pow2(7 * (m + 1)));
        if m == 1 {
            assert(v >= 128 == pow2(7));
        } else {
            assert(v / 128 >= pow2((7 * (m - 1)) as nat));
            assert(v >= 128 * (v / 128));
            assert(128 * (v / 128) >= 128 * pow2((7 * (m - 1)) as nat)) by (nonlinear_arith)
                requires
                    v / 128 >= pow2((7 * (m - 1)) as nat),
            ;
            lemma_pow2_adds((7 * (m - 1)) as nat, 7);
        }
        assert(forall|j: int| 1 <= j < enc.len() ==> enc[j] == rest[j - 1]);
    }
}

/// The bytes of the canonical encoding assemble back to the value encoded.
pub proof fn lemma_uleb_data(s: Seq<u8>, pos: nat, v: nat)
    requires
        pos + uleb_encode(v).len() <= s.len(),
        s.subrange(pos as int, (pos + uleb_encode(v).len()) as int) == uleb_encode(v),
    ensures
        leb_data(s, pos, (uleb_encode(v).len() - 1) as nat) == v,
    decreases v,
{
    let enc = uleb_encode(v);
    let n = (enc.len() - 1) as nat;
    assert(forall|j: int| 0 <= j < enc.len() ==> s[pos + j] == #[trigger] enc[j]);
    if v < 128 {
        assert(s[pos as int] == enc[0]);
        assert(leb_data(s, pos, 0) == low_bits(s[pos as int]));
    } else {
        let rest = uleb_encode(v / 128);
        assert(enc == seq![(0x80 + v % 128) as u8] + rest);
        assert(s.subrange((pos + 1) as int, (pos + 1 + rest.len()) as int) == rest) by {
            assert(forall|j: int|
                0 <= j < rest.len() ==> #[trigger] s.subrange(
                    (pos + 1) as int,
                    (pos + 1 + rest.len()) as int,
                )[j] == enc[j + 1]);
            assert(s.subrange((pos + 1) as int, (pos + 1 + rest.len()) as int) =~= rest);
        }
        lemma_uleb_data(s, pos + 1, v / 128);
        lemma_leb_data_split(s, pos, n);
        assert(low_bits(s[pos as int]) == v % 128) by {
            assert(s[pos as int] == enc[0]);
            assert(enc[0] == (0x80 + v % 128) as u8);
        }
        assert(leb_data(s, pos, n) == v % 128 + 128 * (v / 128));
    }
}

/// Round trip: a canonically encoded value within the bit width decodes to
/// itself, consuming exactly the encoding, whose length is minimal.
pub proof fn lemma_uleb_round_trip(s: Seq<u8>, pos: nat, v: nat, bits: nat)
    requires
        v < pow2(bits),
        pos + uleb_encode(v).len() <= s.len(),
        s.subrange(pos as int, (pos + uleb_encode(v).len()) as int) == uleb_encode(v),
    ensures
        spec_leb(s, pos, bits, false) == Ok::<(nat, int), ParserError>(
            ((pos + uleb_encode(v).len()) as nat, v as int),
        ),
{
    let enc = uleb_encode(v);
    let n = (enc.len() - 1) as nat;
    lemma_uleb_encode_props(v);
    assert(forall|j: int| 0 <= j < enc.len() ==> s[pos + j] == #[trigger] enc[j]);
    assert forall|j: int| pos <= j < pos + n implies has_cont_bit(s[j]) by {
        assert(s[j] == enc[j - pos]);
    }
    assert(s[(pos + n) as int] == enc[n as int]);
    lemma_cont_len_from_shape(s, pos, n);
    lemma_uleb_data(s, pos, v);
    if n > 0 {
        // v >= pow2(7n) and v < pow2(bits) force 7n < bits, so n passes the
        // width check.
        assert(v >= pow2(7 * n));
        if 7 * n >= bits {
            if bits < 7 * n {
                lemma_pow2_strictly_increases(bits, 7 * n);
            }
            assert(pow2(bits) <= pow2(7 * n));
            assert(false);
        }
        assert(7 * n < bits);
        assert(bits == 7 * (bits / 7) + bits % 7);
        assert(n <= bits / 7);
    }
}

/// An encoding that uses more continuation bytes than the bit width permits
/// is rejected as invalid, whatever its bytes hold.
pub proof fn lemma_overlong_invalid(s: Seq<u8>, pos: nat, bits: nat, signed: bool, n: nat)
    requires
        cont_len(s, pos) == Some(n),
        n > bits / 7,
    ensures
        spec_leb(s, pos, bits, signed) == Err::<(nat, int), ParserError>(ParserError::Invalid),
{
}

/// Writes the canonical LEB128 encoding of an unsigned value.
pub fn encode_uleb128(value: u64) -> (out: Vec<u8>)
    ensures
        out@ == uleb_encode(value as nat),
{
    let mut out: Vec<u8> = Vec::new();
    let mut v = value;
    proof {
        assert(uleb_encode(value as nat) =~= out@ + uleb_encode(v as nat));
    }
    while v >= 128
        invariant
            uleb_encode(value as nat) == out@ + uleb_encode(v as nat),
        decreases v,
    {
        let ghost before = v as nat;
        out.push((v % 128 + 0x80) as u8);
        v = v / 128;
        proof {
            assert(uleb_encode(before) == seq![(0x80 + before % 128) as u8] + uleb_encode(
                v as nat,
            ));
            assert(uleb_encode(value as nat) =~= out@ + uleb_encode(v as nat));
        }
    }
    out.push(v as u8);
    proof {
        assert(uleb_encode(v as nat) =~= seq![v as u8]);
        assert(out@ =~= uleb_encode(value as nat));
    }
    out
}

/// Reads one LEB128-encoded integer of the given bit width at `pos` in
/// `bytes`. On success the new position and the value, in 128 bits; a
/// negative signed value comes back sign-extended to the full 128 bits.
pub fn leb128_at(bytes: &[u8], pos: usize, bits: usize, signed: bool) -> (r: Result<
    (usize, u128),
    ParserError,
>)
    requires
        bits <= 64,
    ensures
        match r {
            Ok((p, v)) => spec_leb(bytes@, pos as nat, bits as nat, signed) matches Ok((sp, sv))
                && p as nat == sp && pos < p <= bytes@.len() && v as int == (if sv >= 0 {
                sv
            } else {
                sv + 0x1_0000_0000_0000_0000_0000_0000_0000_0000
            }),
            Err(e) => spec_leb(bytes@, pos as nat, bits as nat, signed) == Err::<
                (nat, int),
                ParserError,
            >(e),
        },
{
    let len = bytes.len();
    if pos >= len {
        return Err(ParserError::Incomplete);
    }
    // Scan for the first byte without the continuation bit.
    let mut n: usize = 0;
    loop
        invariant
            pos + n <= len,
            len == bytes@.len(),
            forall|j: int| pos <= j < pos + n ==> has_cont_bit(bytes@[j]),
        ensures
            pos + n <= len,
            forall|j: int| pos <= j < pos + n ==> has_cont_bit(bytes@[j]),
            pos + n < len ==> !has_cont_bit(bytes@[(pos + n) as int]),
            pos + n == len ==> forall|j: int| pos <= j < len ==> has_cont_bit(bytes@[j]),
        decreases len - pos - n,
    {
        if pos + n >= len {
            break ;
        }
        if bytes[pos + n] < 0x80 {
            break ;
        }
        n = n + 1;
    }
    if pos + n == len {
        proof {
            lemma_cont_len_none_from_shape(bytes@, pos as nat);
        }
        return Err(ParserError::Incomplete);
    }
    proof {
        lemma_cont_len_from_shape(bytes@, pos as nat, n as nat);
    }
    if n > bits / 7 {
        return Err(ParserError::Invalid);
    }
    // Assemble the value, least significant seven-bit group first.
    let ghost s = bytes@;
    let mut value: u128 = 0;
    let mut factor: u128 = 1;
    let mut i: usize = 0;
    proof {
        lemma2_to64();
    }
    while i <= n
        invariant
            n <= bits / 7 <= 9,
            i <= n + 1,
            pos + n < len,
            len == bytes@.len(),
            s == bytes@,
            factor == pow2((7 * i) as nat),
            i == 0 ==> value == 0,
            i >= 1 ==> value == leb_data(s, pos as nat, (i - 1) as nat),
            value < pow2((7 * i) as nat),
        decreases n + 1 - i,
    {
        let b = bytes[pos + i];
        proof {
            assert((b & 0x7F) == b % 0x80) by (bit_vector);
            lemma2_to64();
            lemma2_to64_rest();
            lemma_pow2_adds((7 * i) as nat, 7);
            lemma_pow2_adds(64, 6);
            lemma_pow2_pos((7 * i) as nat);
            if 7 * i + 7 < 70 {
                lemma_pow2_strictly_increases((7 * i + 7) as nat, 70);
            }
            lemma_mul_inequality(low_bits(b) as int, 127, pow2((7 * i) as nat) as int);
            assert(pow2((7 * i + 7) as nat) == pow2((7 * i) as nat) * 128);
            if i >= 1 {
                assert(leb_data(s, pos as nat, i as nat) == leb_data(s, pos as nat, (i - 1) as nat)
                    + low_bits(s[(pos + i) as int]) * pow2(7 * i as nat));
            } else {
                assert(leb_data(s, pos as nat, 0) == low_bits(s[pos as int]));
                assert(s[(pos + i) as int] == s[pos as int]);
            }
        }
        let add = (b & 0x7F) as u128 * factor;
        proof {
            assert(b == s[(pos + i) as int]);
            assert((b & 0x7F) as nat == low_bits(b));
            assert(add as nat == low_bits(b) * pow2((7 * i) as nat)) by (nonlinear_arith)
                requires
                    add == (b & 0x7F) as u128 * factor,
                    (b & 0x7F) as nat == low_bits(b),
                    factor == pow2((7 * i) as nat),
            ;
        }
        value = value + add;
        proof {
            assert(value == leb_data(s, pos as nat, i as nat));
        }
        factor = factor * 128;
        i = i + 1;
    }
    let last = bytes[pos + n];
    proof {
        assert((last & 0x7F) == last % 0x80) by (bit_vector);
        lemma_leb_data_bound(s, pos as nat, n as nat);
    }
    if signed && (last & 0x7F) >= 0x40 {
        let result = value.wrapping_sub(factor);
        Ok((pos + n + 1, result))
    } else {
        Ok((pos + n + 1, value))
    }
}

} // verus!
