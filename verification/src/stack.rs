//! The typed operand stack: an ordered byte buffer, logically a stack of
//! values with no recorded type tags. Values are pushed and popped by their
//! fixed-width little-endian byte representation; correctness of an
//! evaluation depends on each pop using the type that was pushed, which the
//! execution engine guarantees by construction from the decoded instruction
//! stream.

use vstd::prelude::*;

verus! {

/// A fixed-width value the operand stack can hold: a little-endian byte
/// representation, faithful in both directions.
pub trait StackValue: Sized {
    /// The value's byte representation, least significant byte first.
    spec fn byte_repr(self) -> Seq<u8>;

    /// The representation's width in bytes.
    spec fn width() -> nat;

    /// The width is positive.
    proof fn width_positive()
        ensures
            Self::width() >= 1,
    ;

    /// Every representation has the fixed width.
    proof fn byte_repr_len(self)
        ensures
            self.byte_repr().len() == Self::width(),
    ;

    /// Two values with the same representation are the same value.
    proof fn byte_repr_injective(a: Self, b: Self)
        requires
            a.byte_repr() == b.byte_repr(),
        ensures
            a == b,
    ;

    /// The width, as a machine integer.
    fn size_in_bytes() -> (n: usize)
        ensures
            n as nat == Self::width(),
    ;

    /// Writes the value's representation.
    fn to_le_bytes(self) -> (b: Vec<u8>)
        ensures
            b@ == self.byte_repr(),
    ;

    /// Reads the value a representation stands for.
    fn from_le_bytes(b: &[u8]) -> (v: Self)
        requires
            b@.len() == Self::width(),
        ensures
            v.byte_repr() == b@,
    ;
}

impl StackValue for u8 {
    open spec fn byte_repr(self) -> Seq<u8> {
        seq![self]
    }

    open spec fn width() -> nat {
        1
    }

    proof fn width_positive() {
    }

    proof fn byte_repr_len(self) {
    }

    proof fn byte_repr_injective(a: u8, b: u8) {
        assert(a.byte_repr() == seq![a]);
        assert(b.byte_repr() == seq![b]);
        assert(seq![a][0] == seq![b][0]);
    }

    fn size_in_bytes() -> usize {
        1
    }

    fn to_le_bytes(self) -> (b: Vec<u8>) {
        let mut out: Vec<u8> = Vec::new();
        out.push(self);
        proof {
            assert(out@ =~= self.byte_repr());
        }
        out
    }

    fn from_le_bytes(b: &[u8]) -> (v: u8) {
        let v = b[0];
        proof {
            assert(v.byte_repr() =~= b@);
        }
        v
    }
}

impl StackValue for u16 {
    open spec fn byte_repr(self) -> Seq<u8> {
        seq![(self & 0xFF) as u8, ((self >> 8) & 0xFF) as u8]
    }

    open spec fn width() -> nat {
        2
    }

    proof fn width_positive() {
    }

    proof fn byte_repr_len(self) {
    }

    proof fn byte_repr_injective(a: u16, b: u16) {
        assert(a.byte_repr()[0] == b.byte_repr()[0]);
        assert(a.byte_repr()[1] == b.byte_repr()[1]);
        assert((a & 0xFF) as u8 == (b & 0xFF) as u8 && ((a >> 8) & 0xFF) as u8 == ((b >> 8)
            & 0xFF) as u8 ==> a == b) by (bit_vector);
    }

    fn size_in_bytes() -> usize {
        2
    }

    fn to_le_bytes(self) -> (b: Vec<u8>) {
        proof {
            assert(self & 0xFF < 256 && (self >> 8) & 0xFF < 256) by (bit_vector);
        }
        let mut out: Vec<u8> = Vec::new();
        out.push((self & 0xFF) as u8);
        out.push(((self >> 8) & 0xFF) as u8);
        proof {
            assert(out@ =~= self.byte_repr());
        }
        out
    }

    fn from_le_bytes(b: &[u8]) -> (v: u16) {
        let b0 = b[0];
        let b1 = b[1];
        let v = b0 as u16 | (b1 as u16) << 8;
        proof {
            assert({
                let x = b0 as u16 | (b1 as u16) << 8;
                (x & 0xFF) as u8 == b0 && ((x >> 8) & 0xFF) as u8 == b1
            }) by (bit_vector);
            assert(v.byte_repr() =~= b@);
        }
        v
    }
}

impl StackValue for u32 {
    open spec fn byte_repr(self) -> Seq<u8> {
        seq![
            (self & 0xFF) as u8,
            ((self >> 8) & 0xFF) as u8,
            ((self >> 16) & 0xFF) as u8,
            ((self >> 24) & 0xFF) as u8,
        ]
    }

    open spec fn width() -> nat {
        4
    }

    proof fn width_positive() {
    }

    proof fn byte_repr_len(self) {
    }

    proof fn byte_repr_injective(a: u32, b: u32) {
        assert(a.byte_repr()[0] == b.byte_repr()[0]);
        assert(a.byte_repr()[1] == b.byte_repr()[1]);
        assert(a.byte_repr()[2] == b.byte_repr()[2]);
        assert(a.byte_repr()[3] == b.byte_repr()[3]);
        assert((a & 0xFF) as u8 == (b & 0xFF) as u8 && ((a >> 8) & 0xFF) as u8 == ((b >> 8)
            & 0xFF) as u8 && ((a >> 16) & 0xFF) as u8 == ((b >> 16) & 0xFF) as u8 && ((a >> 24)
            & 0xFF) as u8 == ((b >> 24) & 0xFF) as u8 ==> a == b) by (bit_vector);
    }

    fn size_in_bytes() -> usize {
        4
    }

    fn to_le_bytes(self) -> (b: Vec<u8>) {
        proof {
            assert(self & 0xFF < 256 && (self >> 8) & 0xFF < 256 && (self >> 16) & 0xFF < 256 && (
            self >> 24) & 0xFF < 256) by (bit_vector);
        }
        let mut out: Vec<u8> = Vec::new();
        out.push((self & 0xFF) as u8);
        out.push(((self >> 8) & 0xFF) as u8);
        out.push(((self >> 16) & 0xFF) as u8);
        out.push(((self >> 24) & 0xFF) as u8);
        proof {
            assert(out@ =~= self.byte_repr());
        }
        out
    }

    fn from_le_bytes(b: &[u8]) -> (v: u32) {
        let b0 = b[0];
        let b1 = b[1];
        let b2 = b[2];
        let b3 = b[3];
        let v = b0 as u32 | (b1 as u32) << 8 | (b2 as u32) << 16 | (b3 as u32) << 24;
        proof {
            assert({
                let x = b0 as u32 | (b1 as u32) << 8 | (b2 as u32) << 16 | (b3 as u32) << 24;
                (x & 0xFF) as u8 == b0 && ((x >> 8) & 0xFF) as u8 == b1 && ((x >> 16) & 0xFF)
                    as u8 == b2 && ((x >> 24) & 0xFF) as u8 == b3
            }) by (bit_vector);
            assert(v.byte_repr() =~= b@);
        }
        v
    }
}

impl StackValue for u64 {
    open spec fn byte_repr(self) -> Seq<u8> {
        seq![
            (self & 0xFF) as u8,
            ((self >> 8) & 0xFF) as u8,
            ((self >> 16) & 0xFF) as u8,
            ((self >> 24) & 0xFF) as u8,
            ((self >> 32) & 0xFF) as u8,
            ((self >> 40) & 0xFF) as u8,
            ((self >> 48) & 0xFF) as u8,
            ((self >> 56) & 0xFF) as u8,
        ]
    }

    open spec fn width() -> nat {
        8
    }

    proof fn width_positive() {
    }

    proof fn byte_repr_len(self) {
    }

    proof fn byte_repr_injective(a: u64, b: u64) {
        assert(a.byte_repr()[0] == b.byte_repr()[0]);
        assert(a.byte_repr()[1] == b.byte_repr()[1]);
        assert(a.byte_repr()[2] == b.byte_repr()[2]);
        assert(a.byte_repr()[3] == b.byte_repr()[3]);
        assert(a.byte_repr()[4] == b.byte_repr()[4]);
        assert(a.byte_repr()[5] == b.byte_repr()[5]);
        assert(a.byte_repr()[6] == b.byte_repr()[6]);
        assert(a.byte_repr()[7] == b.byte_repr()[7]);
        assert((a & 0xFF) as u8 == (b & 0xFF) as u8 && ((a >> 8) & 0xFF) as u8 == ((b >> 8)
            & 0xFF) as u8 && ((a >> 16) & 0xFF) as u8 == ((b >> 16) & 0xFF) as u8 && ((a >> 24)
            & 0xFF) as u8 == ((b >> 24) & 0xFF) as u8 && ((a >> 32) & 0xFF) as u8 == ((b >> 32)
            & 0xFF) as u8 && ((a >> 40) & 0xFF) as u8 == ((b >> 40) & 0xFF) as u8 && ((a >> 48)
            & 0xFF) as u8 == ((b >> 48) & 0xFF) as u8 && ((a >> 56) & 0xFF) as u8 == ((b >> 56)
            & 0xFF) as u8 ==> a == b) by (bit_vector);
    }

    fn size_in_bytes() -> usize {
        8
    }

    fn to_le_bytes(self) -> (b: Vec<u8>) {
        proof {
            assert(self & 0xFF < 256 && (self >> 8) & 0xFF < 256 && (self >> 16) & 0xFF < 256 && (
            self >> 24) & 0xFF < 256 && (self >> 32) & 0xFF < 256 && (self >> 40) & 0xFF < 256 && (
            self >> 48) & 0xFF < 256 && (self >> 56) & 0xFF < 256) by (bit_vector);
        }
        let mut out: Vec<u8> = Vec::new();
        out.push((self & 0xFF) as u8);
        out.push(((self >> 8) & 0xFF) as u8);
        out.push(((self >> 16) & 0xFF) as u8);
        out.push(((self >> 24) & 0xFF) as u8);
        out.push(((self >> 32) & 0xFF) as u8);
        out.push(((self >> 40) & 0xFF) as u8);
        out.push(((self >> 48) & 0xFF) as u8);
        out.push(((self >> 56) & 0xFF) as u8);
        proof {
            assert(out@ =~= self.byte_repr());
        }
        out
    }

    fn from_le_bytes(b: &[u8]) -> (v: u64) {
        let b0 = b[0];
        let b1 = b[1];
        let b2 = b[2];
        let b3 = b[3];
        let b4 = b[4];
        let b5 = b[5];
        let b6 = b[6];
        let b7 = b[7];
        let v = b0 as u64 | (b1 as u64) << 8 | (b2 as u64) << 16 | (b3 as u64) << 24 | (b4
            as u64) << 32 | (b5 as u64) << 40 | (b6 as u64) << 48 | (b7 as u64) << 56;
        proof {
            assert({
                let x = b0 as u64 | (b1 as u64) << 8 | (b2 as u64) << 16 | (b3 as u64) << 24 | (
                b4 as u64) << 32 | (b5 as u64) << 40 | (b6 as u64) << 48 | (b7 as u64) << 56;
                (x & 0xFF) as u8 == b0 && ((x >> 8) & 0xFF) as u8 == b1 && ((x >> 16) & 0xFF)
                    as u8 == b2 && ((x >> 24) & 0xFF) as u8 == b3 && ((x >> 32) & 0xFF) as u8 == b4
                    && ((x >> 40) & 0xFF) as u8 == b5 && ((x >> 48) & 0xFF) as u8 == b6 && ((x
                    >> 56) & 0xFF) as u8 == b7
            }) by (bit_vector);
            assert(v.byte_repr() =~= b@);
        }
        v
    }
}

impl StackValue for i32 {
    open spec fn byte_repr(self) -> Seq<u8> {
        (self as u32).byte_repr()
    }

    open spec fn width() -> nat {
        4
    }

    proof fn width_positive() {
    }

    proof fn byte_repr_len(self) {
    }

    proof fn byte_repr_injective(a: i32, b: i32) {
        <u32 as StackValue>::byte_repr_injective(a as u32, b as u32);
        assert(a as u32 == b as u32 ==> a == b) by (bit_vector);
    }

    fn size_in_bytes() -> usize {
        4
    }

    fn to_le_bytes(self) -> (b: Vec<u8>) {
        #[verifier::truncate]
        let bits = self as u32;
        <u32 as StackValue>::to_le_bytes(bits)
    }

    fn from_le_bytes(b: &[u8]) -> (v: i32) {
        let bits = <u32 as StackValue>::from_le_bytes(b);
        #[verifier::truncate]
        let v = bits as i32;
        proof {
            assert((bits as i32) as u32 == bits) by (bit_vector);
        }
        v
    }
}

impl StackValue for i64 {
    open spec fn byte_repr(self) -> Seq<u8> {
        (self as u64).byte_repr()
    }

    open spec fn width() -> nat {
        8
    }

    proof fn width_positive() {
    }

    proof fn byte_repr_len(self) {
    }

    proof fn byte_repr_injective(a: i64, b: i64) {
        <u64 as StackValue>::byte_repr_injective(a as u64, b as u64);
        assert(a as u64 == b as u64 ==> a == b) by (bit_vector);
    }

    fn size_in_bytes() -> usize {
        8
    }

    fn to_le_bytes(self) -> (b: Vec<u8>) {
        #[verifier::truncate]
        let bits = self as u64;
        <u64 as StackValue>::to_le_bytes(bits)
    }

    fn from_le_bytes(b: &[u8]) -> (v: i64) {
        let bits = <u64 as StackValue>::from_le_bytes(b);
        #[verifier::truncate]
        let v = bits as i64;
        proof {
            assert((bits as i64) as u64 == bits) by (bit_vector);
        }
        v
    }
}

/// The operand stack. Its view is the backing byte buffer, the top of the
/// stack at the end.
pub struct Stack {
    data: Vec<u8>,
}

impl View for Stack {
    type V = Seq<u8>;

    closed spec fn view(&self) -> Seq<u8> {
        self.data@
    }
}

impl Stack {
    /// An empty stack.
    pub fn new() -> (r: Stack)
        ensures
            r@ == Seq::<u8>::empty(),
    {
        let data: Vec<u8> = Vec::new();
        proof {
            assert(data@ =~= Seq::<u8>::empty());
        }
        Stack { data }
    }

    /// How many bytes the stack holds.
    pub fn len(&self) -> (n: usize)
        ensures
            n == self@.len(),
    {
        self.data.len()
    }

    /// Appends the fixed-width little-endian representation of `value` to the
    /// end of the backing buffer.
    pub fn push<T: StackValue>(&mut self, value: T)
        ensures
            final(self)@ == old(self)@ + value.byte_repr(),
    {
        let mut b = value.to_le_bytes();
        self.data.append(&mut b);
    }

    /// Removes the last `T`-width bytes and reads them back as a `T`. When
    /// fewer bytes remain, reports underflow with `None` and leaves the stack
    /// unchanged.
    pub fn pop<T: StackValue>(&mut self) -> (r: Option<T>)
        ensures
            match r {
                Some(v) => old(self)@.len() >= T::width() && v.byte_repr() == old(self)@.subrange(
                    old(self)@.len() - T::width(),
                    old(self)@.len() as int,
                ) && final(self)@ == old(self)@.subrange(0, old(self)@.len() - T::width()),
                None => old(self)@.len() < T::width() && final(self)@ == old(self)@,
            },
    {
        let n = T::size_in_bytes();
        if self.data.len() < n {
            return None;
        }
        let split = self.data.len() - n;
        let tail = self.data.split_off(split);
        let v = T::from_le_bytes(tail.as_slice());
        Some(v)
    }
}

/// Round trip: after a push of `x`, the stack is long enough for a pop of the
/// same type, that pop's bytes are exactly the representation of `x` — so by
/// faithfulness the popped value is `x` itself — and the bytes that remain
/// are the bytes from before the push.
pub proof fn lemma_push_pop_round_trip<T: StackValue>(stack: Seq<u8>, x: T, v: T)
    requires
        v.byte_repr() == (stack + x.byte_repr()).subrange(
            (stack + x.byte_repr()).len() - T::width(),
            (stack + x.byte_repr()).len() as int,
        ),
    ensures
        (stack + x.byte_repr()).len() >= T::width(),
        (stack + x.byte_repr()).subrange(0, (stack + x.byte_repr()).len() - T::width()) == stack,
        v == x,
{
    T::byte_repr_len(x);
    T::byte_repr_len(v);
    T::width_positive();
    let after = stack + x.byte_repr();
    assert(after.subrange(0, after.len() - T::width()) =~= stack);
    assert(after.subrange(after.len() - T::width(), after.len() as int) =~= x.byte_repr());
    T::byte_repr_injective(v, x);
}

} // verus!
