//! A cursor over an immutable byte buffer, with primitive reads used by the
//! instruction decoder.

use vstd::prelude::*;

use crate::leb128::{leb128_at, spec_leb};

verus! {

/// Why a decode step failed. `Incomplete` means the buffer ended before a
/// value or terminator could be read in full, so a streaming caller could in
/// principle wait for more bytes; `Invalid` means a byte or integer code has
/// no assigned meaning, or an encoding broke a structural rule.
#[derive(Clone, Copy, Debug, PartialEq, Eq, Structural)]
pub enum ParserError {
    Incomplete,
    Invalid,
}

/// A position into an immutable byte buffer. Parsing never changes the
/// buffer, only advances the position.
pub struct Parser<'a> {
    pub bytecode: &'a [u8],
    pub position: usize,
}

impl<'a> Parser<'a> {
    /// A parser standing at the start of `bytecode`.
    pub fn new(bytecode: &'a [u8]) -> (r: Parser<'a>)
        ensures
            r.bytecode@ == bytecode@,
            r.position == 0,
    {
        Parser { bytecode, position: 0 }
    }

    /// Reads the byte at the cursor and advances past it; `Incomplete` when
    /// the cursor stands at or past the end of the buffer.
    pub fn consume_byte(&mut self) -> (r: Result<u8, ParserError>)
        ensures
            final(self).bytecode@ == old(self).bytecode@,
            old(self).position < old(self).bytecode@.len() ==> r == Ok::<u8, ParserError>(
                old(self).bytecode@[old(self).position as int],
            ) && final(self).position == old(self).position + 1,
            old(self).position >= old(self).bytecode@.len() ==> r == Err::<u8, ParserError>(
                ParserError::Incomplete,
            ) && final(self).position == old(self).position,
    {
        if self.position < self.bytecode.len() {
            let byte = self.bytecode[self.position];
            self.position = self.position + 1;
            Ok(byte)
        } else {
            Err(ParserError::Incomplete)
        }
    }

    /// Reads the byte at the cursor without advancing.
    pub fn peek_byte(&mut self) -> (r: Result<u8, ParserError>)
        ensures
            *final(self) == *old(self),
            old(self).position < old(self).bytecode@.len() ==> r == Ok::<u8, ParserError>(
                old(self).bytecode@[old(self).position as int],
            ),
            old(self).position >= old(self).bytecode@.len() ==> r == Err::<u8, ParserError>(
                ParserError::Incomplete,
            ),
    {
        match self.bytecode.get(self.position) {
            Some(byte) => Ok(*byte),
            None => Err(ParserError::Incomplete),
        }
    }

    /// Consumes bytes as long as `pred` accepts them and returns the bytes
    /// consumed; `Incomplete` when the buffer ends before `pred` rejects a
    /// byte, the cursor then standing at the end of the buffer.
    pub fn consume_while<F: Fn(u8) -> bool>(&mut self, pred: F) -> (r: Result<
        Vec<u8>,
        ParserError,
    >)
        requires
            forall|b: u8| call_requires(pred, (b,)),
        ensures
            final(self).bytecode@ == old(self).bytecode@,
            old(self).position <= final(self).position,
            forall|j: int|
                old(self).position <= j < final(self).position ==> call_ensures(
                    pred,
                    (old(self).bytecode@[j],),
                    true,
                ),
            match r {
                Ok(v) => {
                    &&& final(self).position < old(self).bytecode@.len()
                    &&& v@ == old(self).bytecode@.subrange(
                        old(self).position as int,
                        final(self).position as int,
                    )
                    &&& call_ensures(
                        pred,
                        (old(self).bytecode@[final(self).position as int],),
                        false,
                    )
                },
                Err(e) => {
                    &&& e == ParserError::Incomplete
                    &&& final(self).position >= old(self).bytecode@.len()
                },
            },
    {
        if self.position >= self.bytecode.len() {
            return Err(ParserError::Incomplete);
        }
        let mut bytes: Vec<u8> = Vec::new();
        let ghost start = self.position as int;
        loop
            invariant
                start <= self.position <= self.bytecode@.len(),
                self.bytecode@ == old(self).bytecode@,
                start == old(self).position,
                bytes@ == self.bytecode@.subrange(start, self.position as int),
                forall|b: u8| call_requires(pred, (b,)),
                forall|j: int|
                    start <= j < self.position ==> call_ensures(pred, (self.bytecode@[j],), true),
            ensures
                self.bytecode@ == old(self).bytecode@,
                start <= self.position <= self.bytecode@.len(),
                bytes@ == self.bytecode@.subrange(start, self.position as int),
                forall|j: int|
                    start <= j < self.position ==> call_ensures(pred, (self.bytecode@[j],), true),
                self.position < self.bytecode@.len() ==> call_ensures(
                    pred,
                    (self.bytecode@[self.position as int],),
                    false,
                ),
            decreases self.bytecode@.len() - self.position,
        {
            if self.position >= self.bytecode.len() {
                break ;
            }
            let b = self.bytecode[self.position];
            if !pred(b) {
                break ;
            }
            self.position = self.position + 1;
            bytes.push(b);
            proof {
                assert(bytes@ == self.bytecode@.subrange(start, self.position as int));
            }
        }
        if self.position < self.bytecode.len() {
            Ok(bytes)
        } else {
            Err(ParserError::Incomplete)
        }
    }

    /// Reads one LEB128-encoded integer of the given bit width at the cursor
    /// and advances past it. The value is returned in 128 bits; a negative
    /// signed value comes back sign-extended to the full 128 bits. On an
    /// error the cursor does not move.
    pub fn consume_leb128(&mut self, bits: usize, signed: bool) -> (r: Result<u128, ParserError>)
        requires
            bits <= 64,
        ensures
            final(self).bytecode@ == old(self).bytecode@,
            match r {
                Ok(v) => spec_leb(
                    old(self).bytecode@,
                    old(self).position as nat,
                    bits as nat,
                    signed,
                ) matches Ok((p, sv)) && final(self).position == p && v as int == (if sv >= 0 {
                    sv
                } else {
                    sv + 0x1_0000_0000_0000_0000_0000_0000_0000_0000
                }),
                Err(e) => spec_leb(
                    old(self).bytecode@,
                    old(self).position as nat,
                    bits as nat,
                    signed,
                ) == Err::<(nat, int), ParserError>(e) && final(self).position == old(
                    self,
                ).position,
            },
    {
        match leb128_at(self.bytecode, self.position, bits, signed) {
            Ok((p, v)) => {
                self.position = p;
                Ok(v)
            },
            Err(e) => Err(e),
        }
    }
}

} // verus!
