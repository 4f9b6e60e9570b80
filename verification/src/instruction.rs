use vstd::prelude::*;

use crate::Addr;
use crate::RegisterIndex;

verus! {

/// A raw 2-byte machine word, big endian: field `.0` is the byte fetched
/// first and carries the leading nibble.
#[derive(Clone, Copy, Debug, PartialEq, Eq, Structural)]
pub struct ByteInst(pub u8, pub u8);

impl ByteInst {
    /// The leading nibble (bits 12-15 of the word): the primary opcode
    /// selector.
    pub fn first_nibble(&self) -> (r: u8)
        ensures
            r == self.0 >> 4,
            r < 16,
    {
        proof {
            let b: u8 = self.0;
            assert(b >> 4 < 16) by (bit_vector);
        }
        self.0 >> 4
    }

    /// The X field (bits 8-11): the first register operand.
    pub fn x(&self) -> (r: RegisterIndex)
        ensures
            r == RegisterIndex::spec_new(self.0),
            r@ == self.0 & 0xf,
            r.wf(),
    {
        RegisterIndex::new(self.0)
    }

    /// The Y field (bits 4-7): the second register operand.
    pub fn y(&self) -> (r: RegisterIndex)
        ensures
            r == RegisterIndex::spec_new(self.1 >> 4),
            r@ == self.1 >> 4,
            r.wf(),
    {
        proof {
            let b: u8 = self.1;
            assert((b >> 4) & 0xf == b >> 4) by (bit_vector);
        }
        RegisterIndex::new(self.1 >> 4)
    }

    /// The N field (bits 0-3): a small immediate or sub-opcode selector.
    pub fn n(&self) -> (r: u8)
        ensures
            r == self.1 & 0xf,
            r < 16,
    {
        proof {
            let b: u8 = self.1;
            assert(b & 0xf < 16) by (bit_vector);
        }
        self.1 & 0xf
    }

    /// The NN field (bits 0-7): a byte immediate or sub-opcode selector.
    pub fn nn(&self) -> (r: u8)
        ensures
            r == self.1,
    {
        self.1
    }

    /// The NNN field (bits 0-11): the address immediate.
    pub fn nnn(&self) -> (r: Addr)
        ensures
            r == Addr::spec_new(((self.0 as u16) << 8) | (self.1 as u16)),
            r@ == (((self.0 as u16) << 8) | (self.1 as u16)) & 0xfff,
            r.wf(),
    {
        Addr::new(((self.0 as u16) << 8) | (self.1 as u16))
    }
}

/// The decode failure: the word's leading nibble is overloaded and its
/// secondary field (N or NN) matches no defined operation.
#[derive(Clone, Copy, Debug, PartialEq, Eq, Structural)]
pub enum DecodeError {
    UnrecognizedEncoding,
}

/// The closed set of operations the instruction format defines, one variant
/// per operation. Each variant carries exactly the operand fields that
/// operation uses.
#[derive(Clone, Copy, Debug, PartialEq, Eq, Structural)]
pub enum OpcodeFormat {
    I0nnn(Addr),
    I00e0,
    I00ee,
    I1nnn(Addr),
    I2nnn(Addr),
    I3xkk(RegisterIndex, u8),
    I4xkk(RegisterIndex, u8),
    I5xy0(RegisterIndex, RegisterIndex),
    I6xkk(RegisterIndex, u8),
    I7xkk(RegisterIndex, u8),
    I8xy0(RegisterIndex, RegisterIndex),
    I8xy1(RegisterIndex, RegisterIndex),
    I8xy2(RegisterIndex, RegisterIndex),
    I8xy3(RegisterIndex, RegisterIndex),
    I8xy4(RegisterIndex, RegisterIndex),
    I8xy5(RegisterIndex, RegisterIndex),
    I8xy6(RegisterIndex),
    I8xy7(RegisterIndex, RegisterIndex),
    I8xye(RegisterIndex),
    I9xy0(RegisterIndex, RegisterIndex),
    Iannn(Addr),
    Ibnnn(Addr),
    Icxkk(RegisterIndex, u8),
    Idxyn(RegisterIndex, RegisterIndex, u8),
    Iex9e(RegisterIndex),
    Iexa1(RegisterIndex),
    Ifx07(RegisterIndex),
    Ifx0a(RegisterIndex),
    Ifx15(RegisterIndex),
    Ifx18(RegisterIndex),
    Ifx1e(RegisterIndex),
    Ifx29(RegisterIndex),
    Ifx33(RegisterIndex),
    Ifx55(RegisterIndex),
    Ifx65(RegisterIndex),
}

/// Whether the word `(b0, b1)` encodes a defined operation. A word fails to
/// decode exactly when its leading nibble is 0x8, 0xE or 0xF and the
/// secondary field matches no defined value; every other word decodes.
pub open spec fn spec_defined(b0: u8, b1: u8) -> bool {
    let f = b0 >> 4;
    let n = b1 & 0xf;
    let nn = b1;
    if f == 0x8 {
        n == 0x0 || n == 0x1 || n == 0x2 || n == 0x3 || n == 0x4 || n == 0x5 || n == 0x6
            || n == 0x7 || n == 0xe
    } else if f == 0xe {
        nn == 0x9e || nn == 0xa1
    } else if f == 0xf {
        nn == 0x07 || nn == 0x0a || nn == 0x15 || nn == 0x18 || nn == 0x1e || nn == 0x29
            || nn == 0x33 || nn == 0x55 || nn == 0x65
    } else {
        true
    }
}

/// The full decode table: the instruction the word `(b0, b1)` encodes, or the
/// failure for words [`spec_defined`] excludes. Dispatches on the leading
/// nibble; for the overloaded nibbles 0x0, 0x8, 0xE and 0xF it resolves the
/// variant by the trailing nibble or trailing byte.
pub open spec fn spec_decode(b0: u8, b1: u8) -> Result<OpcodeFormat, DecodeError> {
    let f = b0 >> 4;
    let x = RegisterIndex::spec_new(b0);
    let y = RegisterIndex::spec_new(b1 >> 4);
    let n = b1 & 0xf;
    let nn = b1;
    let nnn = Addr::spec_new(((b0 as u16) << 8) | (b1 as u16));
    if f == 0x0 {
        if n == 0x0 {
            Ok(OpcodeFormat::I00e0)
        } else if n == 0xe {
            Ok(OpcodeFormat::I00ee)
        } else {
            Ok(OpcodeFormat::I0nnn(nnn))
        }
    } else if f == 0x1 {
        Ok(OpcodeFormat::I1nnn(nnn))
    } else if f == 0x2 {
        Ok(OpcodeFormat::I2nnn(nnn))
    } else if f == 0x3 {
        Ok(OpcodeFormat::I3xkk(x, nn))
    } else if f == 0x4 {
        Ok(OpcodeFormat::I4xkk(x, nn))
    } else if f == 0x5 {
        Ok(OpcodeFormat::I5xy0(x, y))
    } else if f == 0x6 {
        Ok(OpcodeFormat::I6xkk(x, nn))
    } else if f == 0x7 {
        Ok(OpcodeFormat::I7xkk(x, nn))
    } else if f == 0x8 {
        if n == 0x0 {
            Ok(OpcodeFormat::I8xy0(x, y))
        } else if n == 0x1 {
            Ok(OpcodeFormat::I8xy1(x, y))
        } else if n == 0x2 {
            Ok(OpcodeFormat::I8xy2(x, y))
        } else if n == 0x3 {
            Ok(OpcodeFormat::I8xy3(x, y))
        } else if n == 0x4 {
            Ok(OpcodeFormat::I8xy4(x, y))
        } else if n == 0x5 {
            Ok(OpcodeFormat::I8xy5(x, y))
        } else if n == 0x6 {
            Ok(OpcodeFormat::I8xy6(x))
        } else if n == 0x7 {
            Ok(OpcodeFormat::I8xy7(x, y))
        } else if n == 0xe {
            Ok(OpcodeFormat::I8xye(x))
        } else {
            Err(DecodeError::UnrecognizedEncoding)
        }
    } else if f == 0x9 {
        Ok(OpcodeFormat::I9xy0(x, y))
    } else if f == 0xa {
        Ok(OpcodeFormat::Iannn(nnn))
    } else if f == 0xb {
        Ok(OpcodeFormat::Ibnnn(nnn))
    } else if f == 0xc {
        Ok(OpcodeFormat::Icxkk(x, nn))
    } else if f == 0xd {
        Ok(OpcodeFormat::Idxyn(x, y, n))
    } else if f == 0xe {
        if nn == 0x9e {
            Ok(OpcodeFormat::Iex9e(x))
        } else if nn == 0xa1 {
            Ok(OpcodeFormat::Iexa1(x))
        } else {
            Err(DecodeError::UnrecognizedEncoding)
        }
    } else {
        if nn == 0x07 {
            Ok(OpcodeFormat::Ifx07(x))
        } else if nn == 0x0a {
            Ok(OpcodeFormat::Ifx0a(x))
        } else if nn == 0x15 {
            Ok(OpcodeFormat::Ifx15(x))
        } else if nn == 0x18 {
            Ok(OpcodeFormat::Ifx18(x))
        } else if nn == 0x1e {
            Ok(OpcodeFormat::Ifx1e(x))
        } else if nn == 0x29 {
            Ok(OpcodeFormat::Ifx29(x))
        } else if nn == 0x33 {
            Ok(OpcodeFormat::Ifx33(x))
        } else if nn == 0x55 {
            Ok(OpcodeFormat::Ifx55(x))
        } else if nn == 0x65 {
            Ok(OpcodeFormat::Ifx65(x))
        } else {
            Err(DecodeError::UnrecognizedEncoding)
        }
    }
}

impl OpcodeFormat {
    /// An instruction is well formed when every operand it carries fits its
    /// field width: addresses in 12 bits, register indices and small
    /// immediates in 4 bits. Decoding only ever yields well-formed values.
    pub open spec fn wf(self) -> bool {
        match self {
            OpcodeFormat::I0nnn(a) => a.wf(),
            OpcodeFormat::I00e0 => true,
            OpcodeFormat::I00ee => true,
            OpcodeFormat::I1nnn(a) => a.wf(),
            OpcodeFormat::I2nnn(a) => a.wf(),
            OpcodeFormat::I3xkk(x, _) => x.wf(),
            OpcodeFormat::I4xkk(x, _) => x.wf(),
            OpcodeFormat::I5xy0(x, y) => x.wf() && y.wf(),
            OpcodeFormat::I6xkk(x, _) => x.wf(),
            OpcodeFormat::I7xkk(x, _) => x.wf(),
            OpcodeFormat::I8xy0(x, y) => x.wf() && y.wf(),
            OpcodeFormat::I8xy1(x, y) => x.wf() && y.wf(),
            OpcodeFormat::I8xy2(x, y) => x.wf() && y.wf(),
            OpcodeFormat::I8xy3(x, y) => x.wf() && y.wf(),
            OpcodeFormat::I8xy4(x, y) => x.wf() && y.wf(),
            OpcodeFormat::I8xy5(x, y) => x.wf() && y.wf(),
            OpcodeFormat::I8xy6(x) => x.wf(),
            OpcodeFormat::I8xy7(x, y) => x.wf() && y.wf(),
            OpcodeFormat::I8xye(x) => x.wf(),
            OpcodeFormat::I9xy0(x, y) => x.wf() && y.wf(),
            OpcodeFormat::Iannn(a) => a.wf(),
            OpcodeFormat::Ibnnn(a) => a.wf(),
            OpcodeFormat::Icxkk(x, _) => x.wf(),
            OpcodeFormat::Idxyn(x, y, n) => x.wf() && y.wf() && n < 16,
            OpcodeFormat::Iex9e(x) => x.wf(),
            OpcodeFormat::Iexa1(x) => x.wf(),
            OpcodeFormat::Ifx07(x) => x.wf(),
            OpcodeFormat::Ifx0a(x) => x.wf(),
            OpcodeFormat::Ifx15(x) => x.wf(),
            OpcodeFormat::Ifx18(x) => x.wf(),
            OpcodeFormat::Ifx1e(x) => x.wf(),
            OpcodeFormat::Ifx29(x) => x.wf(),
            OpcodeFormat::Ifx33(x) => x.wf(),
            OpcodeFormat::Ifx55(x) => x.wf(),
            OpcodeFormat::Ifx65(x) => x.wf(),
        }
    }

    /// Classify the big-endian word `bytes` as the one instruction it
    /// encodes, or report the failure for the undefined bit patterns under
    /// the overloaded leading nibbles. Total, pure, all-or-nothing: the
    /// result is exactly [`spec_decode`] of the word, it is `Ok` exactly on
    /// the [`spec_defined`] words, and a decoded instruction is always well
    /// formed.
    pub fn from(bytes: (u8, u8)) -> (r: Result<OpcodeFormat, DecodeError>)
        ensures
            r == spec_decode(bytes.0, bytes.1),
            r is Ok <==> spec_defined(bytes.0, bytes.1),
            r matches Ok(i) ==> i.wf(),
    {
        let inst = ByteInst(bytes.0, bytes.1);
        match inst.first_nibble() {
            0x0 => match inst.n() {
                0x0 => Ok(Self::I00e0),
                0xe => Ok(Self::I00ee),
                _ => Ok(Self::I0nnn(inst.nnn())),
            },
            0x1 => Ok(Self::I1nnn(inst.nnn())),
            0x2 => Ok(Self::I2nnn(inst.nnn())),
            0x3 => Ok(Self::I3xkk(inst.x(), inst.nn())),
            0x4 => Ok(Self::I4xkk(inst.x(), inst.nn())),
            0x5 => Ok(Self::I5xy0(inst.x(), inst.y())),
            0x6 => Ok(Self::I6xkk(inst.x(), inst.nn())),
            0x7 => Ok(Self::I7xkk(inst.x(), inst.nn())),
            0x8 => match inst.n() {
                0x0 => Ok(Self::I8xy0(inst.x(), inst.y())),
                0x1 => Ok(Self::I8xy1(inst.x(), inst.y())),
                0x2 => Ok(Self::I8xy2(inst.x(), inst.y())),
                0x3 => Ok(Self::I8xy3(inst.x(), inst.y())),
                0x4 => Ok(Self::I8xy4(inst.x(), inst.y())),
                0x5 => Ok(Self::I8xy5(inst.x(), inst.y())),
                0x6 => Ok(Self::I8xy6(inst.x())),
                0x7 => Ok(Self::I8xy7(inst.x(), inst.y())),
                0xe => Ok(Self::I8xye(inst.x())),
                _ => Err(DecodeError::UnrecognizedEncoding),
            },
            0x9 => Ok(Self::I9xy0(inst.x(), inst.y())),
            0xa => Ok(Self::Iannn(inst.nnn())),
            0xb => Ok(Self::Ibnnn(inst.nnn())),
            0xc => Ok(Self::Icxkk(inst.x(), inst.nn())),
            0xd => Ok(Self::Idxyn(inst.x(), inst.y(), inst.n())),
            0xe => match inst.nn() {
                0x9e => Ok(Self::Iex9e(inst.x())),
                0xa1 => Ok(Self::Iexa1(inst.x())),
                _ => Err(DecodeError::UnrecognizedEncoding),
            },
            0xf => match inst.nn() {
                0x07 => Ok(Self::Ifx07(inst.x())),
                0x0a => Ok(Self::Ifx0a(inst.x())),
                0x15 => Ok(Self::Ifx15(inst.x())),
                0x18 => Ok(Self::Ifx18(inst.x())),
                0x1e => Ok(Self::Ifx1e(inst.x())),
                0x29 => Ok(Self::Ifx29(inst.x())),
                0x33 => Ok(Self::Ifx33(inst.x())),
                0x55 => Ok(Self::Ifx55(inst.x())),
                0x65 => Ok(Self::Ifx65(inst.x())),
                _ => Err(DecodeError::UnrecognizedEncoding),
            },
            _ => vstd::pervasive::unreached(),
        }
    }
}

/// A canonical word encoding each instruction: the leading nibble placed in
/// the top four bits, the operands placed back into the fields they decode
/// from, and sub-opcode selectors written as literals. Unused fields are
/// zero. The witness for reachability: decoding this word yields the
/// instruction back (see [`lemma_encode_decode`]).
pub open spec fn spec_encode(inst: OpcodeFormat) -> (u8, u8) {
    match inst {
        OpcodeFormat::I0nnn(a) => ((0x0u8 << 4) | ((a@ >> 8) as u8), (a@ & 0xff) as u8),
        OpcodeFormat::I00e0 => (0x00, 0xe0),
        OpcodeFormat::I00ee => (0x00, 0xee),
        OpcodeFormat::I1nnn(a) => ((0x1u8 << 4) | ((a@ >> 8) as u8), (a@ & 0xff) as u8),
        OpcodeFormat::I2nnn(a) => ((0x2u8 << 4) | ((a@ >> 8) as u8), (a@ & 0xff) as u8),
        OpcodeFormat::I3xkk(x, kk) => ((0x3u8 << 4) | x@, kk),
        OpcodeFormat::I4xkk(x, kk) => ((0x4u8 << 4) | x@, kk),
        OpcodeFormat::I5xy0(x, y) => ((0x5u8 << 4) | x@, (y@ << 4) | 0x0),
        OpcodeFormat::I6xkk(x, kk) => ((0x6u8 << 4) | x@, kk),
        OpcodeFormat::I7xkk(x, kk) => ((0x7u8 << 4) | x@, kk),
        OpcodeFormat::I8xy0(x, y) => ((0x8u8 << 4) | x@, (y@ << 4) | 0x0),
        OpcodeFormat::I8xy1(x, y) => ((0x8u8 << 4) | x@, (y@ << 4) | 0x1),
        OpcodeFormat::I8xy2(x, y) => ((0x8u8 << 4) | x@, (y@ << 4) | 0x2),
        OpcodeFormat::I8xy3(x, y) => ((0x8u8 << 4) | x@, (y@ << 4) | 0x3),
        OpcodeFormat::I8xy4(x, y) => ((0x8u8 << 4) | x@, (y@ << 4) | 0x4),
        OpcodeFormat::I8xy5(x, y) => ((0x8u8 << 4) | x@, (y@ << 4) | 0x5),
        OpcodeFormat::I8xy6(x) => ((0x8u8 << 4) | x@, 0x06),
        OpcodeFormat::I8xy7(x, y) => ((0x8u8 << 4) | x@, (y@ << 4) | 0x7),
        OpcodeFormat::I8xye(x) => ((0x8u8 << 4) | x@, 0x0e),
        OpcodeFormat::I9xy0(x, y) => ((0x9u8 << 4) | x@, (y@ << 4) | 0x0),
        OpcodeFormat::Iannn(a) => ((0xau8 << 4) | ((a@ >> 8) as u8), (a@ & 0xff) as u8),
        OpcodeFormat::Ibnnn(a) => ((0xbu8 << 4) | ((a@ >> 8) as u8), (a@ & 0xff) as u8),
        OpcodeFormat::Icxkk(x, kk) => ((0xcu8 << 4) | x@, kk),
        OpcodeFormat::Idxyn(x, y, n) => ((0xdu8 << 4) | x@, (y@ << 4) | n),
        OpcodeFormat::Iex9e(x) => ((0xeu8 << 4) | x@, 0x9e),
        OpcodeFormat::Iexa1(x) => ((0xeu8 << 4) | x@, 0xa1),
        OpcodeFormat::Ifx07(x) => ((0xfu8 << 4) | x@, 0x07),
        OpcodeFormat::Ifx0a(x) => ((0xfu8 << 4) | x@, 0x0a),
        OpcodeFormat::Ifx15(x) => ((0xfu8 << 4) | x@, 0x15),
        OpcodeFormat::Ifx18(x) => ((0xfu8 << 4) | x@, 0x18),
        OpcodeFormat::Ifx1e(x) => ((0xfu8 << 4) | x@, 0x1e),
        OpcodeFormat::Ifx29(x) => ((0xfu8 << 4) | x@, 0x29),
        OpcodeFormat::Ifx33(x) => ((0xfu8 << 4) | x@, 0x33),
        OpcodeFormat::Ifx55(x) => ((0xfu8 << 4) | x@, 0x55),
        OpcodeFormat::Ifx65(x) => ((0xfu8 << 4) | x@, 0x65),
    }
}

/// The bit-level facts behind encoding: placing a nibble in the top four
/// bits of a byte and reading it back recovers it, and packing a 12-bit
/// address across two bytes and masking the reassembled word recovers the
/// address.
proof fn lemma_bits(f: u8, xv: u8, yv: u8, n: u8, av: u16)
    by (bit_vector)
    requires
        f < 16,
        xv < 16,
        yv < 16,
        n < 16,
        av < 4096,
    ensures
        ((f << 4) | xv) >> 4 == f,
        ((f << 4) | xv) & 0xf == xv,
        ((yv << 4) | n) >> 4 == yv,
        ((yv << 4) | n) & 0xf == n,
        ((f << 4) | ((av >> 8) as u8)) >> 4 == f,
        (((((f << 4) | ((av >> 8) as u8)) as u16) << 8) | (((av & 0xff) as u8) as u16)) & 0xfff
            == av,
        (((av & 0xff) as u8) & 0xf == 0x0) <==> (av % 16 == 0x0),
        (((av & 0xff) as u8) & 0xf == 0xe) <==> (av % 16 == 0xe),
{
}

/// Placing a well-formed register index in the low nibble of a byte whose
/// high nibble is `f` leaves the leading nibble `f` and lets the X field
/// extraction recover the index exactly.
proof fn lemma_x_recovered(f: u8, x: RegisterIndex)
    requires
        f < 16,
        x.wf(),
    ensures
        ((f << 4) | x@) >> 4 == f,
        RegisterIndex::spec_new((f << 4) | x@) == x,
{
    lemma_bits(f, x@, 0, 0, 0);
    RegisterIndex::lemma_new_view((f << 4) | x@);
    RegisterIndex::lemma_view_injective(RegisterIndex::spec_new((f << 4) | x@), x);
}

/// Packing a well-formed register index above a trailing nibble `n` lets the
/// Y and N field extractions recover both exactly.
proof fn lemma_y_recovered(y: RegisterIndex, n: u8)
    requires
        y.wf(),
        n < 16,
    ensures
        ((y@ << 4) | n) >> 4 == y@,
        ((y@ << 4) | n) & 0xf == n,
        RegisterIndex::spec_new(((y@ << 4) | n) >> 4) == y,
{
    lemma_bits(0, 0, y@, n, 0);
    RegisterIndex::lemma_new_identity(y);
}

/// Splitting a well-formed address across the low nibble of the first byte
/// and the whole second byte, under leading nibble `f`, leaves the leading
/// nibble `f`, keeps the trailing nibble of the word equal to the trailing
/// nibble of the address, and lets the NNN field extraction recover the
/// address exactly.
proof fn lemma_addr_recovered(f: u8, a: Addr)
    requires
        f < 16,
        a.wf(),
    ensures
        ((f << 4) | ((a@ >> 8) as u8)) >> 4 == f,
        Addr::spec_new(((((f << 4) | ((a@ >> 8) as u8)) as u16) << 8) | (((a@ & 0xff) as u8)
            as u16)) == a,
        (((a@ & 0xff) as u8) & 0xf == 0x0) <==> (a@ % 16 == 0x0),
        (((a@ & 0xff) as u8) & 0xf == 0xe) <==> (a@ % 16 == 0xe),
{
    lemma_bits(f, 0, 0, 0, a@);
    let word: u16 = ((((f << 4) | ((a@ >> 8) as u8)) as u16) << 8) | (((a@ & 0xff) as u8)
        as u16);
    Addr::lemma_new_view(word);
    Addr::lemma_view_injective(Addr::spec_new(word), a);
}

/// Round trip: every well-formed instruction is decoded back, exactly, from
/// its canonical encoding — so every variant is reachable from at least one
/// concrete word, and decoding that word recovers the operand bits placed
/// into it unchanged.
///
/// The one family of values left out: a jump whose address ends in the
/// nibble 0x0 or 0xE has no word of its own, since a word with leading
/// nibble 0x0 and that trailing nibble decodes to the clear-screen or the
/// return instruction instead.
pub proof fn lemma_encode_decode(inst: OpcodeFormat)
    requires
        inst.wf(),
        inst matches OpcodeFormat::I0nnn(a) ==> a@ % 16 != 0x0 && a@ % 16 != 0xe,
    ensures
        spec_decode(spec_encode(inst).0, spec_encode(inst).1) == Ok::<
            OpcodeFormat,
            DecodeError,
        >(inst),
{
    match inst {
        OpcodeFormat::I0nnn(a) => lemma_addr_recovered(0x0, a),
        OpcodeFormat::I00e0 => {
            assert(0x00u8 >> 4 == 0x0 && 0xe0u8 & 0xf == 0x0) by (bit_vector);
        },
        OpcodeFormat::I00ee => {
            assert(0x00u8 >> 4 == 0x0 && 0xeeu8 & 0xf == 0xe) by (bit_vector);
        },
        OpcodeFormat::I1nnn(a) => lemma_addr_recovered(0x1, a),
        OpcodeFormat::I2nnn(a) => lemma_addr_recovered(0x2, a),
        OpcodeFormat::I3xkk(x, _) => lemma_x_recovered(0x3, x),
        OpcodeFormat::I4xkk(x, _) => lemma_x_recovered(0x4, x),
        OpcodeFormat::I5xy0(x, y) => {
            lemma_x_recovered(0x5, x);
            lemma_y_recovered(y, 0x0);
        },
        OpcodeFormat::I6xkk(x, _) => lemma_x_recovered(0x6, x),
        OpcodeFormat::I7xkk(x, _) => lemma_x_recovered(0x7, x),
        OpcodeFormat::I8xy0(x, y) => {
            lemma_x_recovered(0x8, x);
            lemma_y_recovered(y, 0x0);
        },
        OpcodeFormat::I8xy1(x, y) => {
            lemma_x_recovered(0x8, x);
            lemma_y_recovered(y, 0x1);
        },
        OpcodeFormat::I8xy2(x, y) => {
            lemma_x_recovered(0x8, x);
            lemma_y_recovered(y, 0x2);
        },
        OpcodeFormat::I8xy3(x, y) => {
            lemma_x_recovered(0x8, x);
            lemma_y_recovered(y, 0x3);
        },
        OpcodeFormat::I8xy4(x, y) => {
            lemma_x_recovered(0x8, x);
            lemma_y_recovered(y, 0x4);
        },
        OpcodeFormat::I8xy5(x, y) => {
            lemma_x_recovered(0x8, x);
            lemma_y_recovered(y, 0x5);
        },
        OpcodeFormat::I8xy6(x) => {
            lemma_x_recovered(0x8, x);
            assert(0x06u8 & 0xf == 0x6) by (bit_vector);
        },
        OpcodeFormat::I8xy7(x, y) => {
            lemma_x_recovered(0x8, x);
            lemma_y_recovered(y, 0x7);
        },
        OpcodeFormat::I8xye(x) => {
            lemma_x_recovered(0x8, x);
            assert(0x0eu8 & 0xf == 0xe) by (bit_vector);
        },
        OpcodeFormat::I9xy0(x, y) => {
            lemma_x_recovered(0x9, x);
            lemma_y_recovered(y, 0x0);
        },
        OpcodeFormat::Iannn(a) => lemma_addr_recovered(0xa, a),
        OpcodeFormat::Ibnnn(a) => lemma_addr_recovered(0xb, a),
        OpcodeFormat::Icxkk(x, _) => lemma_x_recovered(0xc, x),
        OpcodeFormat::Idxyn(x, y, n) => {
            lemma_x_recovered(0xd, x);
            lemma_y_recovered(y, n);
        },
        OpcodeFormat::Iex9e(x) => lemma_x_recovered(0xe, x),
        OpcodeFormat::Iexa1(x) => lemma_x_recovered(0xe, x),
        OpcodeFormat::Ifx07(x) => lemma_x_recovered(0xf, x),
        OpcodeFormat::Ifx0a(x) => lemma_x_recovered(0xf, x),
        OpcodeFormat::Ifx15(x) => lemma_x_recovered(0xf, x),
        OpcodeFormat::Ifx18(x) => lemma_x_recovered(0xf, x),
        OpcodeFormat::Ifx1e(x) => lemma_x_recovered(0xf, x),
        OpcodeFormat::Ifx29(x) => lemma_x_recovered(0xf, x),
        OpcodeFormat::Ifx33(x) => lemma_x_recovered(0xf, x),
        OpcodeFormat::Ifx55(x) => lemma_x_recovered(0xf, x),
        OpcodeFormat::Ifx65(x) => lemma_x_recovered(0xf, x),
    }
}

/// For every word whose leading nibble has a non-overloaded mapping (0x1-0x7,
/// 0x9, 0xA-0xD), decoding succeeds and is injective on the operands: the
/// operands the result carries are exactly the X, Y, N, NN, NNN bits of the
/// word.
pub proof fn lemma_nonoverloaded_exact(b0: u8, b1: u8)
    ensures
        b0 >> 4 == 0x1 ==> (spec_decode(b0, b1) matches Ok(OpcodeFormat::I1nnn(a))
            && a@ == (((b0 as u16) << 8) | (b1 as u16)) & 0xfff),
        b0 >> 4 == 0x2 ==> (spec_decode(b0, b1) matches Ok(OpcodeFormat::I2nnn(a))
            && a@ == (((b0 as u16) << 8) | (b1 as u16)) & 0xfff),
        b0 >> 4 == 0x3 ==> (spec_decode(b0, b1) matches Ok(OpcodeFormat::I3xkk(x, kk))
            && x@ == b0 & 0xf && kk == b1),
        b0 >> 4 == 0x4 ==> (spec_decode(b0, b1) matches Ok(OpcodeFormat::I4xkk(x, kk))
            && x@ == b0 & 0xf && kk == b1),
        b0 >> 4 == 0x5 ==> (spec_decode(b0, b1) matches Ok(OpcodeFormat::I5xy0(x, y))
            && x@ == b0 & 0xf && y@ == b1 >> 4),
        b0 >> 4 == 0x6 ==> (spec_decode(b0, b1) matches Ok(OpcodeFormat::I6xkk(x, kk))
            && x@ == b0 & 0xf && kk == b1),
        b0 >> 4 == 0x7 ==> (spec_decode(b0, b1) matches Ok(OpcodeFormat::I7xkk(x, kk))
            && x@ == b0 & 0xf && kk == b1),
        b0 >> 4 == 0x9 ==> (spec_decode(b0, b1) matches Ok(OpcodeFormat::I9xy0(x, y))
            && x@ == b0 & 0xf && y@ == b1 >> 4),
        b0 >> 4 == 0xa ==> (spec_decode(b0, b1) matches Ok(OpcodeFormat::Iannn(a))
            && a@ == (((b0 as u16) << 8) | (b1 as u16)) & 0xfff),
        b0 >> 4 == 0xb ==> (spec_decode(b0, b1) matches Ok(OpcodeFormat::Ibnnn(a))
            && a@ == (((b0 as u16) << 8) | (b1 as u16)) & 0xfff),
        b0 >> 4 == 0xc ==> (spec_decode(b0, b1) matches Ok(OpcodeFormat::Icxkk(x, kk))
            && x@ == b0 & 0xf && kk == b1),
        b0 >> 4 == 0xd ==> (spec_decode(b0, b1) matches Ok(OpcodeFormat::Idxyn(x, y, n))
            && x@ == b0 & 0xf && y@ == b1 >> 4 && n == b1 & 0xf),
{
    RegisterIndex::lemma_new_view(b0);
    RegisterIndex::lemma_new_view(b1 >> 4);
    Addr::lemma_new_view(((b0 as u16) << 8) | (b1 as u16));
    assert((b1 >> 4) & 0xf == b1 >> 4) by (bit_vector);
}

/// Completeness of the overloaded leading nibbles 0x0, 0x8, 0xE, 0xF: every
/// defined secondary value maps to exactly the one variant listed here, and
/// every undefined secondary value yields the decode failure — never a
/// silent fallback. Under 0x0 every word decodes, the two reserved trailing
/// nibbles before the generic address jump.
pub proof fn lemma_overloaded_complete(b0: u8, b1: u8)
    requires
        b0 >> 4 == 0x0 || b0 >> 4 == 0x8 || b0 >> 4 == 0xe || b0 >> 4 == 0xf,
    ensures
        spec_decode(b0, b1) is Ok <==> spec_defined(b0, b1),
        b0 >> 4 == 0x0 ==> spec_decode(b0, b1) is Ok,
        b0 >> 4 == 0x0 && b1 & 0xf == 0x0 ==> spec_decode(b0, b1) == Ok::<
            OpcodeFormat,
            DecodeError,
        >(OpcodeFormat::I00e0),
        b0 >> 4 == 0x0 && b1 & 0xf == 0xe ==> spec_decode(b0, b1) == Ok::<
            OpcodeFormat,
            DecodeError,
        >(OpcodeFormat::I00ee),
        b0 >> 4 == 0x0 && b1 & 0xf != 0x0 && b1 & 0xf != 0xe ==> (spec_decode(b0, b1)
            matches Ok(OpcodeFormat::I0nnn(a)) && a@ == (((b0 as u16) << 8) | (b1 as u16))
            & 0xfff),
        b0 >> 4 == 0x8 ==> (spec_decode(b0, b1) is Ok <==> (b1 & 0xf == 0x0 || b1 & 0xf == 0x1
            || b1 & 0xf == 0x2 || b1 & 0xf == 0x3 || b1 & 0xf == 0x4 || b1 & 0xf == 0x5
            || b1 & 0xf == 0x6 || b1 & 0xf == 0x7 || b1 & 0xf == 0xe)),
        b0 >> 4 == 0x8 && b1 & 0xf == 0x0 ==> (spec_decode(b0, b1)
            matches Ok(OpcodeFormat::I8xy0(x, y)) && x@ == b0 & 0xf && y@ == b1 >> 4),
        b0 >> 4 == 0x8 && b1 & 0xf == 0x1 ==> (spec_decode(b0, b1)
            matches Ok(OpcodeFormat::I8xy1(x, y)) && x@ == b0 & 0xf && y@ == b1 >> 4),
        b0 >> 4 == 0x8 && b1 & 0xf == 0x2 ==> (spec_decode(b0, b1)
            matches Ok(OpcodeFormat::I8xy2(x, y)) && x@ == b0 & 0xf && y@ == b1 >> 4),
        b0 >> 4 == 0x8 && b1 & 0xf == 0x3 ==> (spec_decode(b0, b1)
            matches Ok(OpcodeFormat::I8xy3(x, y)) && x@ == b0 & 0xf && y@ == b1 >> 4),
        b0 >> 4 == 0x8 && b1 & 0xf == 0x4 ==> (spec_decode(b0, b1)
            matches Ok(OpcodeFormat::I8xy4(x, y)) && x@ == b0 & 0xf && y@ == b1 >> 4),
        b0 >> 4 == 0x8 && b1 & 0xf == 0x5 ==> (spec_decode(b0, b1)
            matches Ok(OpcodeFormat::I8xy5(x, y)) && x@ == b0 & 0xf && y@ == b1 >> 4),
        b0 >> 4 == 0x8 && b1 & 0xf == 0x6 ==> (spec_decode(b0, b1)
            matches Ok(OpcodeFormat::I8xy6(x)) && x@ == b0 & 0xf),
        b0 >> 4 == 0x8 && b1 & 0xf == 0x7 ==> (spec_decode(b0, b1)
            matches Ok(OpcodeFormat::I8xy7(x, y)) && x@ == b0 & 0xf && y@ == b1 >> 4),
        b0 >> 4 == 0x8 && b1 & 0xf == 0xe ==> (spec_decode(b0, b1)
            matches Ok(OpcodeFormat::I8xye(x)) && x@ == b0 & 0xf),
        b0 >> 4 == 0xe ==> (spec_decode(b0, b1) is Ok <==> (b1 == 0x9e || b1 == 0xa1)),
        b0 >> 4 == 0xe && b1 == 0x9e ==> (spec_decode(b0, b1)
            matches Ok(OpcodeFormat::Iex9e(x)) && x@ == b0 & 0xf),
        b0 >> 4 == 0xe && b1 == 0xa1 ==> (spec_decode(b0, b1)
            matches Ok(OpcodeFormat::Iexa1(x)) && x@ == b0 & 0xf),
        b0 >> 4 == 0xf ==> (spec_decode(b0, b1) is Ok <==> (b1 == 0x07 || b1 == 0x0a
            || b1 == 0x15 || b1 == 0x18 || b1 == 0x1e || b1 == 0x29 || b1 == 0x33
            || b1 == 0x55 || b1 == 0x65)),
        b0 >> 4 == 0xf && b1 == 0x07 ==> (spec_decode(b0, b1)
            matches Ok(OpcodeFormat::Ifx07(x)) && x@ == b0 & 0xf),
        b0 >> 4 == 0xf && b1 == 0x0a ==> (spec_decode(b0, b1)
            matches Ok(OpcodeFormat::Ifx0a(x)) && x@ == b0 & 0xf),
        b0 >> 4 == 0xf && b1 == 0x15 ==> (spec_decode(b0, b1)
            matches Ok(OpcodeFormat::Ifx15(x)) && x@ == b0 & 0xf),
        b0 >> 4 == 0xf && b1 == 0x18 ==> (spec_decode(b0, b1)
            matches Ok(OpcodeFormat::Ifx18(x)) && x@ == b0 & 0xf),
        b0 >> 4 == 0xf && b1 == 0x1e ==> (spec_decode(b0, b1)
            matches Ok(OpcodeFormat::Ifx1e(x)) && x@ == b0 & 0xf),
        b0 >> 4 == 0xf && b1 == 0x29 ==> (spec_decode(b0, b1)
            matches Ok(OpcodeFormat::Ifx29(x)) && x@ == b0 & 0xf),
        b0 >> 4 == 0xf && b1 == 0x33 ==> (spec_decode(b0, b1)
            matches Ok(OpcodeFormat::Ifx33(x)) && x@ == b0 & 0xf),
        b0 >> 4 == 0xf && b1 == 0x55 ==> (spec_decode(b0, b1)
            matches Ok(OpcodeFormat::Ifx55(x)) && x@ == b0 & 0xf),
        b0 >> 4 == 0xf && b1 == 0x65 ==> (spec_decode(b0, b1)
            matches Ok(OpcodeFormat::Ifx65(x)) && x@ == b0 & 0xf),
{
    RegisterIndex::lemma_new_view(b0);
    RegisterIndex::lemma_new_view(b1 >> 4);
    Addr::lemma_new_view(((b0 as u16) << 8) | (b1 as u16));
    assert((b1 >> 4) & 0xf == b1 >> 4) by (bit_vector);
}

} // verus!
