use vstd::prelude::*;
use crate::encoding::le_i64;
use crate::error::VmError;

verus! {

/// Relies on `num_traits::FromBytes::from_le_bytes` for `i64`, which reads
/// the eight bytes as a little-endian two's-complement integer.
#[verifier::external_body]
fn i64_from_le_bytes(b: [u8; 8]) -> (r: i64)
    ensures
        r == le_i64(b@),
{
    <i64 as num_traits::FromBytes>::from_le_bytes(&b)
}

/// A read position over a borrowed program buffer. Every read is checked
/// against the end of the buffer.
pub struct FastCursor<'a> {
    code: &'a [u8],
    pos: usize,
}

impl<'a> FastCursor<'a> {
    /// The bytes the cursor reads.
    pub closed spec fn bytes(&self) -> Seq<u8> {
        self.code@
    }

    /// The offset of the next byte to be read.
    pub closed spec fn position(&self) -> nat {
        self.pos as nat
    }

    /// A cursor at the start of `code`.
    pub fn new(code: &'a [u8]) -> (r: Self)
        ensures
            r.bytes() == code@,
            r.position() == 0,
    {
        FastCursor { code, pos: 0 }
    }

    /// Moves the cursor to `pos`. A position past the end of the buffer is
    /// refused with `OutOfBounds`, and the cursor is left where it was.
    pub fn set_position(&mut self, pos: usize) -> (r: Result<(), VmError>)
        ensures
            final(self).bytes() == old(self).bytes(),
            pos <= old(self).bytes().len() ==> r == Ok::<(), VmError>(()) && final(self).position()
                == pos,
            pos > old(self).bytes().len() ==> r == Err::<(), VmError>(VmError::OutOfBounds)
                && final(self).position() == old(self).position(),
    {
        if pos <= self.code.len() {
            self.pos = pos;
            Ok(())
        } else {
            Err(VmError::OutOfBounds)
        }
    }

    /// Reads eight bytes as a little-endian `i64` and moves past them; fails
    /// with `OutOfBounds`, moving nothing, when fewer than eight remain.
    pub fn get_i64_le(&mut self) -> (r: Result<i64, VmError>)
        ensures
            final(self).bytes() == old(self).bytes(),
            ({
                let p = old(self).position() as int;
                let code = old(self).bytes();
                if p + 8 <= code.len() {
                    r == Ok::<i64, VmError>(le_i64(code.subrange(p, p + 8))) && final(self).position()
                        == p + 8
                } else {
                    r == Err::<i64, VmError>(VmError::OutOfBounds) && final(self).position() == p
                }
            }),
    {
        let n = self.code.len();
        if self.pos <= n && n - self.pos >= 8 {
            let p = self.pos;
            let b: [u8; 8] = [
                self.code[p],
                self.code[p + 1],
                self.code[p + 2],
                self.code[p + 3],
                self.code[p + 4],
                self.code[p + 5],
                self.code[p + 6],
                self.code[p + 7],
            ];
            assert(b@ =~= self.code@.subrange(p as int, p + 8));
            self.pos = p + 8;
            Ok(i64_from_le_bytes(b))
        } else {
            Err(VmError::OutOfBounds)
        }
    }

    /// Reads one byte and moves past it; fails with `OutOfBounds`, moving
    /// nothing, at the end of the buffer.
    pub fn get_u8(&mut self) -> (r: Result<u8, VmError>)
        ensures
            final(self).bytes() == old(self).bytes(),
            ({
                let p = old(self).position() as int;
                let code = old(self).bytes();
                if p < code.len() {
                    r == Ok::<u8, VmError>(code[p]) && final(self).position() == p + 1
                } else {
                    r == Err::<u8, VmError>(VmError::OutOfBounds) && final(self).position() == p
                }
            }),
    {
        if self.pos < self.code.len() {
            let v = self.code[self.pos];
            self.pos = self.pos + 1;
            Ok(v)
        } else {
            Err(VmError::OutOfBounds)
        }
    }
}

} // verus!
