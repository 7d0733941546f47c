//! The instruction decoder: prefix scanning, opcode dispatch, addressing
//! (ModRM/SIB/displacement) decoding and immediate extraction.
//!
//! Every executable function here is proved equal to a spec-level
//! definition of the same step, so the whole decode is a mathematical
//! function of the input bytes. Decoding examines at most the 16-byte
//! architectural maximum instruction length from the front of the window.

use vstd::prelude::*;

use crate::model::DecodeError;
use crate::model::Imm;
use crate::model::Instruction;
use crate::model::MemOp;
use crate::model::Opcode;
use crate::model::Operand;
use crate::model::Operands;
use crate::model::Prefixes;
use crate::model::Reg;
use crate::model::RegClass;
use crate::model::Rep;
use crate::model::Seg;
use crate::model::SizeHint;

verus! {

/// Prefix-scanner state: the accumulated legacy-prefix record plus the REX
/// byte, which is only kept while no legacy prefix follows it.
#[derive(Clone, Copy, PartialEq, Eq, Structural, Debug)]
pub struct Scan {
    pub p: Prefixes,
    pub rex: Option<u8>,
}

/// The mandatory-prefix class that keys the escaped opcode tables.
#[derive(Clone, Copy, PartialEq, Eq, Structural, Debug)]
pub enum Mp {
    MpNone,
    Mp66,
    MpF2,
    MpF3,
}

/// How many leading bytes of the window the decoder may examine: the
/// window length, capped at the 16-byte architectural maximum.
pub open spec fn wlen(b: Seq<u8>) -> int {
    if b.len() > 16 {
        16int
    } else {
        b.len() as int
    }
}

/// Turns an executable reader result into its spec-level counterpart.
pub open spec fn lift<T>(r: Option<(T, usize)>) -> Option<(T, int)> {
    match r {
        Option::None => Option::None,
        Option::Some((v, j)) => Option::Some((v, j as int)),
    }
}

/// One byte at position `i`, or `None` past the readable window.
pub open spec fn s_rd8(b: Seq<u8>, i: int) -> Option<(u8, int)> {
    if 0 <= i && i < wlen(b) {
        Option::Some((b[i], i + 1))
    } else {
        Option::None
    }
}

fn rd8(b: &[u8], i: usize) -> (r: Option<(u8, usize)>)
    ensures
        lift(r) == s_rd8(b@, i as int),
{
    if i < b.len() && i < 16 {
        Some((b[i], i + 1))
    } else {
        None
    }
}

/// A little-endian 16-bit value at position `i`.
pub open spec fn s_rd16(b: Seq<u8>, i: int) -> Option<(u16, int)> {
    if 0 <= i && i + 2 <= wlen(b) {
        Option::Some(((b[i] as u16 + b[i + 1] as u16 * 0x100) as u16, i + 2))
    } else {
        Option::None
    }
}

fn rd16(b: &[u8], i: usize) -> (r: Option<(u16, usize)>)
    ensures
        lift(r) == s_rd16(b@, i as int),
{
    if i <= 14 && i + 2 <= b.len() {
        let v: u16 = b[i] as u16 + b[i + 1] as u16 * 0x100;
        Some((v, i + 2))
    } else {
        None
    }
}

/// A little-endian 32-bit value at position `i`.
pub open spec fn s_rd32(b: Seq<u8>, i: int) -> Option<(u32, int)> {
    if 0 <= i && i + 4 <= wlen(b) {
        Option::Some(
            (
                (b[i] as u32 + b[i + 1] as u32 * 0x100 + b[i + 2] as u32 * 0x10000 + b[i + 3]
                    as u32 * 0x1000000) as u32,
                i + 4,
            ),
        )
    } else {
        Option::None
    }
}

fn rd32(b: &[u8], i: usize) -> (r: Option<(u32, usize)>)
    ensures
        lift(r) == s_rd32(b@, i as int),
{
    if i <= 12 && i + 4 <= b.len() {
        let v: u32 = b[i] as u32 + b[i + 1] as u32 * 0x100 + b[i + 2] as u32 * 0x10000 + b[i + 3]
            as u32 * 0x1000000;
        Some((v, i + 4))
    } else {
        None
    }
}

/// An 8-bit value sign-extended to 64 bits.
pub open spec fn s_sx8(v: u8) -> i64 {
    if v < 0x80 {
        v as i64
    } else {
        (v - 0x100) as i64
    }
}

fn sx8(v: u8) -> (r: i64)
    ensures
        r == s_sx8(v),
        -128 <= r <= 127,
{
    if v < 0x80 {
        v as i64
    } else {
        v as i64 - 0x100
    }
}

/// A 16-bit value sign-extended to 64 bits.
pub open spec fn s_sx16(v: u16) -> i64 {
    if v < 0x8000 {
        v as i64
    } else {
        (v - 0x10000) as i64
    }
}

fn sx16(v: u16) -> (r: i64)
    ensures
        r == s_sx16(v),
{
    if v < 0x8000 {
        v as i64
    } else {
        v as i64 - 0x10000
    }
}

/// A 32-bit value sign-extended to 64 bits.
pub open spec fn s_sx32(v: u32) -> i64 {
    if v < 0x80000000 {
        v as i64
    } else {
        (v - 0x100000000) as i64
    }
}

fn sx32(v: u32) -> (r: i64)
    ensures
        r == s_sx32(v),
        -0x80000000 <= r <= 0x7fffffff,
{
    if v < 0x80000000 {
        v as i64
    } else {
        v as i64 - 0x100000000
    }
}

/// One REX extension bit (`d` selects it: 8 = W, 4 = R, 2 = X, 1 = B);
/// zero when no REX byte is in effect.
pub open spec fn s_rex_bit(sc: Scan, d: u8) -> u8 {
    match sc.rex {
        Option::Some(x) => ((x / d) % 2) as u8,
        Option::None => 0u8,
    }
}

fn rex_bit(sc: Scan, d: u8) -> (r: u8)
    requires
        d == 1 || d == 2 || d == 4 || d == 8,
    ensures
        r == s_rex_bit(sc, d),
{
    match sc.rex {
        Some(x) => (x / d) % 2,
        None => 0u8,
    }
}

/// Whether any REX byte is in effect (it changes 8-bit register naming).
pub open spec fn s_rexp(sc: Scan) -> bool {
    sc.rex is Some
}

fn rexp(sc: Scan) -> (r: bool)
    ensures
        r == s_rexp(sc),
{
    sc.rex.is_some()
}

/// The register class of a general-purpose register of width `w` bits.
pub open spec fn s_gcls(w: u8, rex_present: bool) -> RegClass {
    if w == 8 {
        if rex_present {
            RegClass::ByteRex
        } else {
            RegClass::ByteLegacy
        }
    } else if w == 16 {
        RegClass::Word
    } else if w == 32 {
        RegClass::Dword
    } else {
        RegClass::Qword
    }
}

fn gcls(w: u8, rex_present: bool) -> (r: RegClass)
    ensures
        r == s_gcls(w, rex_present),
{
    if w == 8 {
        if rex_present {
            RegClass::ByteRex
        } else {
            RegClass::ByteLegacy
        }
    } else if w == 16 {
        RegClass::Word
    } else if w == 32 {
        RegClass::Dword
    } else {
        RegClass::Qword
    }
}

/// The effective operand width in bits: REX.W selects 64, otherwise the
/// operand-size override selects 16, otherwise 32.
pub open spec fn s_ow(sc: Scan) -> u8 {
    if s_rex_bit(sc, 8) == 1 {
        64u8
    } else if sc.p.opsize {
        16u8
    } else {
        32u8
    }
}

fn ow(sc: Scan) -> (r: u8)
    ensures
        r == s_ow(sc),
{
    if rex_bit(sc, 8) == 1 {
        64u8
    } else if sc.p.opsize {
        16u8
    } else {
        32u8
    }
}

/// The mandatory-prefix class derived from the prefix record: a repeat
/// prefix `f3` keys the `f3` tables, otherwise an operand-size override
/// keys the `66` tables, otherwise `f2` keys the `f2` tables.
pub open spec fn s_mp(p: Prefixes) -> Mp {
    if p.rep == Rep::RepZ {
        Mp::MpF3
    } else if p.opsize {
        Mp::Mp66
    } else if p.rep == Rep::RepNz {
        Mp::MpF2
    } else {
        Mp::MpNone
    }
}

fn mpc(p: Prefixes) -> (r: Mp)
    ensures
        r == s_mp(p),
{
    if p.rep == Rep::RepZ {
        Mp::MpF3
    } else if p.opsize {
        Mp::Mp66
    } else if p.rep == Rep::RepNz {
        Mp::MpF2
    } else {
        Mp::MpNone
    }
}

/// One prefix-scanner step: the updated state when byte `x` is a legacy
/// prefix or a REX byte (a later prefix of a class replaces an earlier
/// one, and any legacy prefix voids a REX byte seen before it), or
/// nothing when `x` is no prefix.
pub open spec fn s_scan_step(sc: Scan, x: u8) -> Option<Scan> {
    if x == 0x66 {
        Option::Some(Scan { p: Prefixes { opsize: true, ..sc.p }, rex: Option::None })
    } else if x == 0x67 {
        Option::Some(Scan { p: Prefixes { addrsize: true, ..sc.p }, rex: Option::None })
    } else if x == 0xf0 {
        Option::Some(Scan { p: Prefixes { lock: true, ..sc.p }, rex: Option::None })
    } else if x == 0xf2 {
        Option::Some(Scan { p: Prefixes { rep: Rep::RepNz, ..sc.p }, rex: Option::None })
    } else if x == 0xf3 {
        Option::Some(Scan { p: Prefixes { rep: Rep::RepZ, ..sc.p }, rex: Option::None })
    } else if x == 0x2e {
        Option::Some(Scan { p: Prefixes { seg: Option::Some(Seg::Cs), ..sc.p }, rex: Option::None })
    } else if x == 0x36 {
        Option::Some(Scan { p: Prefixes { seg: Option::Some(Seg::Ss), ..sc.p }, rex: Option::None })
    } else if x == 0x3e {
        Option::Some(Scan { p: Prefixes { seg: Option::Some(Seg::Ds), ..sc.p }, rex: Option::None })
    } else if x == 0x26 {
        Option::Some(Scan { p: Prefixes { seg: Option::Some(Seg::Es), ..sc.p }, rex: Option::None })
    } else if x == 0x64 {
        Option::Some(Scan { p: Prefixes { seg: Option::Some(Seg::Fs), ..sc.p }, rex: Option::None })
    } else if x == 0x65 {
        Option::Some(Scan { p: Prefixes { seg: Option::Some(Seg::Gs), ..sc.p }, rex: Option::None })
    } else if 0x40 <= x && x <= 0x4f {
        Option::Some(Scan { p: sc.p, rex: Option::Some(x) })
    } else {
        Option::None
    }
}

fn scan_step(sc: Scan, x: u8) -> (r: Option<Scan>)
    ensures
        r == s_scan_step(sc, x),
{
    if x == 0x66 {
        Some(Scan { p: Prefixes { opsize: true, ..sc.p }, rex: None })
    } else if x == 0x67 {
        Some(Scan { p: Prefixes { addrsize: true, ..sc.p }, rex: None })
    } else if x == 0xf0 {
        Some(Scan { p: Prefixes { lock: true, ..sc.p }, rex: None })
    } else if x == 0xf2 {
        Some(Scan { p: Prefixes { rep: Rep::RepNz, ..sc.p }, rex: None })
    } else if x == 0xf3 {
        Some(Scan { p: Prefixes { rep: Rep::RepZ, ..sc.p }, rex: None })
    } else if x == 0x2e {
        Some(Scan { p: Prefixes { seg: Some(Seg::Cs), ..sc.p }, rex: None })
    } else if x == 0x36 {
        Some(Scan { p: Prefixes { seg: Some(Seg::Ss), ..sc.p }, rex: None })
    } else if x == 0x3e {
        Some(Scan { p: Prefixes { seg: Some(Seg::Ds), ..sc.p }, rex: None })
    } else if x == 0x26 {
        Some(Scan { p: Prefixes { seg: Some(Seg::Es), ..sc.p }, rex: None })
    } else if x == 0x64 {
        Some(Scan { p: Prefixes { seg: Some(Seg::Fs), ..sc.p }, rex: None })
    } else if x == 0x65 {
        Some(Scan { p: Prefixes { seg: Some(Seg::Gs), ..sc.p }, rex: None })
    } else if 0x40 <= x && x <= 0x4f {
        Some(Scan { p: sc.p, rex: Some(x) })
    } else {
        None
    }
}

/// The prefix scanner: consumes legacy prefixes and REX bytes, stopping
/// at the first byte that is no prefix and leaving the position at the
/// opcode.
pub open spec fn s_scan(b: Seq<u8>, i: int, sc: Scan) -> Option<(Scan, int)>
    decreases wlen(b) - i,
{
    match s_rd8(b, i) {
        Option::None => Option::None,
        Option::Some((x, j)) => match s_scan_step(sc, x) {
            Option::Some(sc2) => s_scan(b, j, sc2),
            Option::None => Option::Some((sc, i)),
        },
    }
}

fn scan(b: &[u8], i: usize, sc: Scan) -> (r: Option<(Scan, usize)>)
    ensures
        lift(r) == s_scan(b@, i as int, sc),
    decreases 16 - i,
{
    match rd8(b, i) {
        None => None,
        Some((x, j)) => match scan_step(sc, x) {
            Some(sc2) => scan(b, j, sc2),
            None => Some((sc, i)),
        },
    }
}

/// The displacement that follows addressing bytes: none for mode 0, one
/// sign-extended byte (scaled by `ds`, the EVEX compression factor) for
/// mode 1, four bytes for mode 2.
pub open spec fn s_disp(b: Seq<u8>, i: int, md: u8, ds: u8) -> Option<(i64, int)> {
    if md == 1 {
        match s_rd8(b, i) {
            Option::None => Option::None,
            Option::Some((v, j)) => Option::Some(((s_sx8(v) as int * ds as int) as i64, j)),
        }
    } else if md == 2 {
        match s_rd32(b, i) {
            Option::None => Option::None,
            Option::Some((v, j)) => Option::Some((s_sx32(v), j)),
        }
    } else {
        Option::Some((0i64, i))
    }
}

fn disp(b: &[u8], i: usize, md: u8, ds: u8) -> (r: Option<(i64, usize)>)
    requires
        ds == 1 || ds == 16 || ds == 32 || ds == 64,
    ensures
        lift(r) == s_disp(b@, i as int, md, ds),
{
    if md == 1 {
        match rd8(b, i) {
            None => None,
            Some((v, j)) => Some((sx8(v) * ds as i64, j)),
        }
    } else if md == 2 {
        match rd32(b, i) {
            None => None,
            Some((v, j)) => Some((sx32(v), j)),
        }
    } else {
        Some((0i64, i))
    }
}

/// Decodes a memory operand from addressing mode `md` and field `rm`, with
/// `i` just past the addressing byte. `bx` and `xx` are the base and index
/// register extension bits, `ds` the displacement compression factor. The
/// result carries no size hint; the opcode handler sets one.
pub open spec fn s_mem(b: Seq<u8>, i: int, sc: Scan, md: u8, rm: u8, bx: u8, xx: u8, ds: u8) -> Option<
    (MemOp, int),
> {
    let acl = if sc.p.addrsize {
        RegClass::Dword
    } else {
        RegClass::Qword
    };
    if rm == 4 {
        match s_rd8(b, i) {
            Option::None => Option::None,
            Option::Some((s, j)) => {
                let scale: u8 = if s / 64 == 0 {
                    1u8
                } else if s / 64 == 1 {
                    2u8
                } else if s / 64 == 2 {
                    4u8
                } else {
                    8u8
                };
                let idxf: u8 = ((s / 8) % 8 + 8 * xx) as u8;
                let index = if idxf == 4 {
                    Option::<Reg>::None
                } else {
                    Option::Some(Reg { class: acl, num: idxf })
                };
                let basef: u8 = (s % 8) as u8;
                if md == 0 && basef == 5 {
                    match s_rd32(b, j) {
                        Option::None => Option::None,
                        Option::Some((v, k)) => Option::Some(
                            (
                                MemOp {
                                    seg: sc.p.seg,
                                    base: Option::None,
                                    index,
                                    scale,
                                    disp: s_sx32(v),
                                    rip: false,
                                    hint: SizeHint::NoHint,
                                    tight_scale: false,
                                },
                                k,
                            ),
                        ),
                    }
                } else {
                    match s_disp(b, j, md, ds) {
                        Option::None => Option::None,
                        Option::Some((d, k)) => Option::Some(
                            (
                                MemOp {
                                    seg: sc.p.seg,
                                    base: Option::Some(
                                        Reg { class: acl, num: (basef + 8 * bx) as u8 },
                                    ),
                                    index,
                                    scale,
                                    disp: d,
                                    rip: false,
                                    hint: SizeHint::NoHint,
                                    tight_scale: false,
                                },
                                k,
                            ),
                        ),
                    }
                }
            },
        }
    } else if md == 0 && rm == 5 {
        match s_rd32(b, i) {
            Option::None => Option::None,
            Option::Some((v, j)) => Option::Some(
                (
                    MemOp {
                        seg: sc.p.seg,
                        base: Option::None,
                        index: Option::None,
                        scale: 1u8,
                        disp: s_sx32(v),
                        rip: !sc.p.addrsize,
                        hint: SizeHint::NoHint,
                        tight_scale: false,
                    },
                    j,
                ),
            ),
        }
    } else {
        match s_disp(b, i, md, ds) {
            Option::None => Option::None,
            Option::Some((d, k)) => Option::Some(
                (
                    MemOp {
                        seg: sc.p.seg,
                        base: Option::Some(Reg { class: acl, num: (rm + 8 * bx) as u8 }),
                        index: Option::None,
                        scale: 1u8,
                        disp: d,
                        rip: false,
                        hint: SizeHint::NoHint,
                        tight_scale: false,
                    },
                    k,
                ),
            ),
        }
    }
}

fn mem(b: &[u8], i: usize, sc: Scan, md: u8, rm: u8, bx: u8, xx: u8, ds: u8) -> (r: Option<
    (MemOp, usize),
>)
    requires
        md < 3,
        rm < 8,
        bx < 2,
        xx < 2,
        ds == 1 || ds == 16 || ds == 32 || ds == 64,
    ensures
        lift(r) == s_mem(b@, i as int, sc, md, rm, bx, xx, ds),
{
    let acl = if sc.p.addrsize {
        RegClass::Dword
    } else {
        RegClass::Qword
    };
    if rm == 4 {
        match rd8(b, i) {
            None => None,
            Some((s, j)) => {
                let scale: u8 = if s / 64 == 0 {
                    1u8
                } else if s / 64 == 1 {
                    2u8
                } else if s / 64 == 2 {
                    4u8
                } else {
                    8u8
                };
                let idxf: u8 = (s / 8) % 8 + 8 * xx;
                let index = if idxf == 4 {
                    None
                } else {
                    Some(Reg { class: acl, num: idxf })
                };
                let basef: u8 = s % 8;
                if md == 0 && basef == 5 {
                    match rd32(b, j) {
                        None => None,
                        Some((v, k)) => Some(
                            (
                                MemOp {
                                    seg: sc.p.seg,
                                    base: None,
                                    index,
                                    scale,
                                    disp: sx32(v),
                                    rip: false,
                                    hint: SizeHint::NoHint,
                                    tight_scale: false,
                                },
                                k,
                            ),
                        ),
                    }
                } else {
                    match disp(b, j, md, ds) {
                        None => None,
                        Some((d, k)) => Some(
                            (
                                MemOp {
                                    seg: sc.p.seg,
                                    base: Some(Reg { class: acl, num: basef + 8 * bx }),
                                    index,
                                    scale,
                                    disp: d,
                                    rip: false,
                                    hint: SizeHint::NoHint,
                                    tight_scale: false,
                                },
                                k,
                            ),
                        ),
                    }
                }
            },
        }
    } else if md == 0 && rm == 5 {
        match rd32(b, i) {
            None => None,
            Some((v, j)) => Some(
                (
                    MemOp {
                        seg: sc.p.seg,
                        base: None,
                        index: None,
                        scale: 1u8,
                        disp: sx32(v),
                        rip: !sc.p.addrsize,
                        hint: SizeHint::NoHint,
                        tight_scale: false,
                    },
                    j,
                ),
            ),
        }
    } else {
        match disp(b, i, md, ds) {
            None => None,
            Some((d, k)) => Some(
                (
                    MemOp {
                        seg: sc.p.seg,
                        base: Some(Reg { class: acl, num: rm + 8 * bx }),
                        index: None,
                        scale: 1u8,
                        disp: d,
                        rip: false,
                        hint: SizeHint::NoHint,
                        tight_scale: false,
                    },
                    k,
                ),
            ),
        }
    }
}

/// A decode outcome: a finished instruction or a failure.
pub type DR = Result<Instruction, DecodeError>;

/// Builds a finished instruction whose total length is the final position.
pub open spec fn s_mk(opc: Opcode, ops: Operands, sc: Scan, j: int) -> DR {
    Result::Ok(Instruction { op: opc, operands: ops, prefixes: sc.p, length: j as u8 })
}

fn mk(opc: Opcode, ops: Operands, sc: Scan, j: usize) -> (r: DR)
    ensures
        r == s_mk(opc, ops, sc, j as int),
{
    Ok(Instruction { op: opc, operands: ops, prefixes: sc.p, length: j as u8 })
}

/// An unassigned encoding: a successful decode of the `Invalid` operation.
pub open spec fn s_inv(sc: Scan, j: int) -> DR {
    s_mk(Opcode::Invalid, Operands::Zero, sc, j)
}

fn inv(sc: Scan, j: usize) -> (r: DR)
    ensures
        r == s_inv(sc, j as int),
{
    mk(Opcode::Invalid, Operands::Zero, sc, j)
}

/// The extension bit applied to a register selected by the r/m field in
/// register form: either REX.B or REX.X extends such a register.
pub open spec fn s_rbx(sc: Scan) -> u8 {
    if s_rex_bit(sc, 1) == 1 || s_rex_bit(sc, 2) == 1 {
        1u8
    } else {
        0u8
    }
}

fn rbx(sc: Scan) -> (r: u8)
    ensures
        r == s_rbx(sc),
{
    if rex_bit(sc, 1) == 1 || rex_bit(sc, 2) == 1 {
        1u8
    } else {
        0u8
    }
}

/// The common two-operand ModRM shape, with `i` at the addressing byte.
/// The first operand register has class `rcls` (number extended by REX.R
/// when `rext`); a register in the r/m slot has class `mcls` (extended by
/// REX.B when `mext`); a memory operand carries `hint`. `dir` true puts
/// the register operand first.
pub open spec fn s_rm2(
    b: Seq<u8>,
    i: int,
    sc: Scan,
    opc: Opcode,
    rcls: RegClass,
    rext: bool,
    mcls: RegClass,
    mext: bool,
    hint: SizeHint,
    dir: bool,
) -> DR {
    match s_rd8(b, i) {
        Option::None => Result::Err(DecodeError::Truncated),
        Option::Some((m, j)) => {
            let rn: u8 = if rext {
                ((m / 8) % 8 + 8 * s_rex_bit(sc, 4)) as u8
            } else {
                ((m / 8) % 8) as u8
            };
            let rop = Operand::Register(Reg { class: rcls, num: rn });
            if m / 64 == 3 {
                let mn: u8 = if mext {
                    (m % 8 + 8 * s_rbx(sc)) as u8
                } else {
                    (m % 8) as u8
                };
                let mop = Operand::Register(Reg { class: mcls, num: mn });
                if dir {
                    s_mk(opc, Operands::Two(rop, mop), sc, j)
                } else {
                    s_mk(opc, Operands::Two(mop, rop), sc, j)
                }
            } else {
                match s_mem(
                    b,
                    j,
                    sc,
                    (m / 64) as u8,
                    (m % 8) as u8,
                    s_rex_bit(sc, 1),
                    s_rex_bit(sc, 2),
                    1,
                ) {
                    Option::None => Result::Err(DecodeError::Truncated),
                    Option::Some((mm, k)) => {
                        let mop = Operand::Memory(MemOp { hint, ..mm });
                        if dir {
                            s_mk(opc, Operands::Two(rop, mop), sc, k)
                        } else {
                            s_mk(opc, Operands::Two(mop, rop), sc, k)
                        }
                    },
                }
            }
        },
    }
}

fn rm2(
    b: &[u8],
    i: usize,
    sc: Scan,
    opc: Opcode,
    rcls: RegClass,
    rext: bool,
    mcls: RegClass,
    mext: bool,
    hint: SizeHint,
    dir: bool,
) -> (r: DR)
    ensures
        r == s_rm2(b@, i as int, sc, opc, rcls, rext, mcls, mext, hint, dir),
{
    match rd8(b, i) {
        None => Err(DecodeError::Truncated),
        Some((m, j)) => {
            let rn: u8 = if rext {
                (m / 8) % 8 + 8 * rex_bit(sc, 4)
            } else {
                (m / 8) % 8
            };
            let rop = Operand::Register(Reg { class: rcls, num: rn });
            if m / 64 == 3 {
                let mn: u8 = if mext {
                    m % 8 + 8 * rbx(sc)
                } else {
                    m % 8
                };
                let mop = Operand::Register(Reg { class: mcls, num: mn });
                if dir {
                    mk(opc, Operands::Two(rop, mop), sc, j)
                } else {
                    mk(opc, Operands::Two(mop, rop), sc, j)
                }
            } else {
                match mem(b, j, sc, m / 64, m % 8, rex_bit(sc, 1), rex_bit(sc, 2), 1) {
                    None => Err(DecodeError::Truncated),
                    Some((mm, k)) => {
                        let mop = Operand::Memory(MemOp { hint, ..mm });
                        if dir {
                            mk(opc, Operands::Two(rop, mop), sc, k)
                        } else {
                            mk(opc, Operands::Two(mop, rop), sc, k)
                        }
                    },
                }
            }
        },
    }
}

/// A move between a 64-bit general-purpose register and a control or debug
/// register. The addressing mode bits are ignored: the r/m field always
/// names a register. `dir` true puts the system register first.
pub open spec fn s_movcr(b: Seq<u8>, i: int, sc: Scan, cls: RegClass, dir: bool) -> DR {
    match s_rd8(b, i) {
        Option::None => Result::Err(DecodeError::Truncated),
        Option::Some((m, j)) => {
            let sys = Operand::Register(
                Reg { class: cls, num: ((m / 8) % 8 + 8 * s_rex_bit(sc, 4)) as u8 },
            );
            let gp = Operand::Register(
                Reg { class: RegClass::Qword, num: (m % 8 + 8 * s_rbx(sc)) as u8 },
            );
            if dir {
                s_mk(Opcode::Mov, Operands::Two(sys, gp), sc, j)
            } else {
                s_mk(Opcode::Mov, Operands::Two(gp, sys), sc, j)
            }
        },
    }
}

fn movcr(b: &[u8], i: usize, sc: Scan, cls: RegClass, dir: bool) -> (r: DR)
    ensures
        r == s_movcr(b@, i as int, sc, cls, dir),
{
    match rd8(b, i) {
        None => Err(DecodeError::Truncated),
        Some((m, j)) => {
            let sys = Operand::Register(Reg { class: cls, num: (m / 8) % 8 + 8 * rex_bit(sc, 4) });
            let gp = Operand::Register(
                Reg { class: RegClass::Qword, num: m % 8 + 8 * rbx(sc) },
            );
            if dir {
                mk(Opcode::Mov, Operands::Two(sys, gp), sc, j)
            } else {
                mk(Opcode::Mov, Operands::Two(gp, sys), sc, j)
            }
        },
    }
}

/// The operand-size-ruled immediate: 16 bits wide when the effective width
/// is 16, else 32 bits, sign-extended either way.
pub open spec fn s_immw(b: Seq<u8>, i: int, w: u8) -> Option<(Imm, int)> {
    if w == 16 {
        match s_rd16(b, i) {
            Option::None => Option::None,
            Option::Some((v, j)) => Option::Some((Imm { value: s_sx16(v), width: 16u8 }, j)),
        }
    } else {
        match s_rd32(b, i) {
            Option::None => Option::None,
            Option::Some((v, j)) => Option::Some((Imm { value: s_sx32(v), width: 32u8 }, j)),
        }
    }
}

fn immw(b: &[u8], i: usize, w: u8) -> (r: Option<(Imm, usize)>)
    ensures
        lift(r) == s_immw(b@, i as int, w),
{
    if w == 16 {
        match rd16(b, i) {
            None => None,
            Some((v, j)) => Some((Imm { value: sx16(v), width: 16u8 }, j)),
        }
    } else {
        match rd32(b, i) {
            None => None,
            Some((v, j)) => Some((Imm { value: sx32(v), width: 32u8 }, j)),
        }
    }
}

/// The operation a group-1 opcode extension field selects.
pub open spec fn s_grp1op(rf: u8) -> Opcode {
    if rf == 0 {
        Opcode::Add
    } else if rf == 1 {
        Opcode::Or
    } else if rf == 2 {
        Opcode::Adc
    } else if rf == 3 {
        Opcode::Sbb
    } else if rf == 4 {
        Opcode::And
    } else if rf == 5 {
        Opcode::Sub
    } else if rf == 6 {
        Opcode::Xor
    } else {
        Opcode::Cmp
    }
}

fn grp1op(rf: u8) -> (r: Opcode)
    ensures
        r == s_grp1op(rf),
{
    if rf == 0 {
        Opcode::Add
    } else if rf == 1 {
        Opcode::Or
    } else if rf == 2 {
        Opcode::Adc
    } else if rf == 3 {
        Opcode::Sbb
    } else if rf == 4 {
        Opcode::And
    } else if rf == 5 {
        Opcode::Sub
    } else if rf == 6 {
        Opcode::Xor
    } else {
        Opcode::Cmp
    }
}

/// The r/m operand alone (register of class `mcls`, or memory with
/// `hint`), for group opcodes whose reg field extends the opcode.
pub open spec fn s_rmop(b: Seq<u8>, i: int, sc: Scan, m: u8, mcls: RegClass, hint: SizeHint) -> Option<
    (Operand, int),
> {
    if m / 64 == 3 {
        Option::Some(
            (
                Operand::Register(Reg { class: mcls, num: (m % 8 + 8 * s_rbx(sc)) as u8 }),
                i,
            ),
        )
    } else {
        match s_mem(b, i, sc, (m / 64) as u8, (m % 8) as u8, s_rex_bit(sc, 1), s_rex_bit(sc, 2), 1) {
            Option::None => Option::None,
            Option::Some((mm, k)) => Option::Some((Operand::Memory(MemOp { hint, ..mm }), k)),
        }
    }
}

fn rmop(b: &[u8], i: usize, sc: Scan, m: u8, mcls: RegClass, hint: SizeHint) -> (r: Option<
    (Operand, usize),
>)
    ensures
        lift(r) == s_rmop(b@, i as int, sc, m, mcls, hint),
{
    if m / 64 == 3 {
        Some((Operand::Register(Reg { class: mcls, num: m % 8 + 8 * rbx(sc) }), i))
    } else {
        match mem(b, i, sc, m / 64, m % 8, rex_bit(sc, 1), rex_bit(sc, 2), 1) {
            None => None,
            Some((mm, k)) => Some((Operand::Memory(MemOp { hint, ..mm }), k)),
        }
    }
}

/// Dispatch on a one-byte opcode `op`, with `i` just past it. Opcodes with
/// no table entry decode to `Invalid`.
pub open spec fn s_one(b: Seq<u8>, i: int, sc: Scan, op: u8) -> DR {
    if op < 0x80 {
        s_one_lo(b, i, sc, op)
    } else {
        s_one_hi(b, i, sc, op)
    }
}

/// One-byte opcodes below `0x80`.
pub open spec fn s_one_lo(b: Seq<u8>, i: int, sc: Scan, op: u8) -> DR {
    let w: u8 = s_ow(sc);
    let gc = s_gcls(w, s_rexp(sc));
    let bc = s_gcls(8, s_rexp(sc));
    if op == 0x01 {
        s_rm2(b, i, sc, Opcode::Add, gc, true, gc, true, SizeHint::NoHint, false)
    } else if op == 0x03 {
        s_rm2(b, i, sc, Opcode::Add, gc, true, gc, true, SizeHint::NoHint, true)
    } else if op == 0x29 {
        s_rm2(b, i, sc, Opcode::Sub, gc, true, gc, true, SizeHint::NoHint, false)
    } else if op == 0x2b {
        s_rm2(b, i, sc, Opcode::Sub, gc, true, gc, true, SizeHint::NoHint, true)
    } else if op == 0x30 {
        s_rm2(b, i, sc, Opcode::Xor, bc, true, bc, true, SizeHint::NoHint, false)
    } else if op == 0x31 {
        s_rm2(b, i, sc, Opcode::Xor, gc, true, gc, true, SizeHint::NoHint, false)
    } else if op == 0x32 {
        s_rm2(b, i, sc, Opcode::Xor, bc, true, bc, true, SizeHint::NoHint, true)
    } else if op == 0x33 {
        s_rm2(b, i, sc, Opcode::Xor, gc, true, gc, true, SizeHint::NoHint, true)
    } else if op == 0x39 {
        s_rm2(b, i, sc, Opcode::Cmp, gc, true, gc, true, SizeHint::NoHint, false)
    } else if op == 0x3b {
        s_rm2(b, i, sc, Opcode::Cmp, gc, true, gc, true, SizeHint::NoHint, true)
    } else if op == 0x3d {
        match s_immw(b, i, w) {
            Option::None => Result::Err(DecodeError::Truncated),
            Option::Some((im, j)) => s_mk(
                Opcode::Cmp,
                Operands::Two(
                    Operand::Register(Reg { class: gc, num: 0u8 }),
                    Operand::Immediate(im),
                ),
                sc,
                j,
            ),
        }
    } else if 0x50 <= op && op <= 0x57 {
        let pc = if sc.p.opsize {
            RegClass::Word
        } else {
            RegClass::Qword
        };
        s_mk(
            Opcode::Push,
            Operands::One(
                Operand::Register(Reg { class: pc, num: (op - 0x50 + 8 * s_rex_bit(sc, 1)) as u8 }),
            ),
            sc,
            i,
        )
    } else if 0x58 <= op && op <= 0x5f {
        let pc = if sc.p.opsize {
            RegClass::Word
        } else {
            RegClass::Qword
        };
        s_mk(
            Opcode::Pop,
            Operands::One(
                Operand::Register(Reg { class: pc, num: (op - 0x58 + 8 * s_rex_bit(sc, 1)) as u8 }),
            ),
            sc,
            i,
        )
    } else if op == 0x63 {
        let dc = if s_rex_bit(sc, 8) == 1 {
            RegClass::Qword
        } else {
            RegClass::Dword
        };
        s_rm2(b, i, sc, Opcode::Movsxd, dc, true, RegClass::Dword, true, SizeHint::NoHint, true)
    } else if op == 0x68 {
        match s_rd32(b, i) {
            Option::None => Result::Err(DecodeError::Truncated),
            Option::Some((v, j)) => s_mk(
                Opcode::Push,
                Operands::One(Operand::Immediate(Imm { value: s_sx32(v), width: 32u8 })),
                sc,
                j,
            ),
        }
    } else if op == 0x72 || op == 0x73 || op == 0x74 || op == 0x76 {
        let opc = if op == 0x72 {
            Opcode::Jb
        } else if op == 0x73 {
            Opcode::Jnb
        } else if op == 0x74 {
            Opcode::Jz
        } else {
            Opcode::Jna
        };
        match s_rd8(b, i) {
            Option::None => Result::Err(DecodeError::Truncated),
            Option::Some((v, j)) => s_mk(
                opc,
                Operands::One(Operand::Immediate(Imm { value: s_sx8(v), width: 8u8 })),
                sc,
                j,
            ),
        }
    } else {
        s_inv(sc, i)
    }
}

/// One-byte opcodes at `0x80` and above.
pub open spec fn s_one_hi(b: Seq<u8>, i: int, sc: Scan, op: u8) -> DR {
    let w: u8 = s_ow(sc);
    let gc = s_gcls(w, s_rexp(sc));
    let bc = s_gcls(8, s_rexp(sc));
    if op == 0x81 {
        match s_rd8(b, i) {
            Option::None => Result::Err(DecodeError::Truncated),
            Option::Some((m, j)) => match s_rmop(b, j, sc, m, gc, SizeHint::NoHint) {
                Option::None => Result::Err(DecodeError::Truncated),
                Option::Some((dst, k)) => match s_immw(b, k, w) {
                    Option::None => Result::Err(DecodeError::Truncated),
                    Option::Some((im, l)) => s_mk(
                        s_grp1op(((m / 8) % 8) as u8),
                        Operands::Two(dst, Operand::Immediate(im)),
                        sc,
                        l,
                    ),
                },
            },
        }
    } else if op == 0x83 {
        match s_rd8(b, i) {
            Option::None => Result::Err(DecodeError::Truncated),
            Option::Some((m, j)) => match s_rmop(b, j, sc, m, gc, SizeHint::NoHint) {
                Option::None => Result::Err(DecodeError::Truncated),
                Option::Some((dst, k)) => match s_rd8(b, k) {
                    Option::None => Result::Err(DecodeError::Truncated),
                    Option::Some((v, l)) => s_mk(
                        s_grp1op(((m / 8) % 8) as u8),
                        Operands::Two(
                            dst,
                            Operand::Immediate(Imm { value: s_sx8(v), width: 8u8 }),
                        ),
                        sc,
                        l,
                    ),
                },
            },
        }
    } else if op == 0x89 {
        s_rm2(b, i, sc, Opcode::Mov, gc, true, gc, true, SizeHint::NoHint, false)
    } else if op == 0x8b {
        s_rm2(b, i, sc, Opcode::Mov, gc, true, gc, true, SizeHint::NoHint, true)
    } else if op == 0x8d {
        match s_rd8(b, i) {
            Option::None => Result::Err(DecodeError::Truncated),
            Option::Some((m, j)) => {
                if m / 64 == 3 {
                    s_inv(sc, j)
                } else {
                    match s_rmop(b, j, sc, m, gc, SizeHint::NoHint) {
                        Option::None => Result::Err(DecodeError::Truncated),
                        Option::Some((src, k)) => s_mk(
                            Opcode::Lea,
                            Operands::Two(
                                Operand::Register(
                                    Reg {
                                        class: gc,
                                        num: ((m / 8) % 8 + 8 * s_rex_bit(sc, 4)) as u8,
                                    },
                                ),
                                src,
                            ),
                            sc,
                            k,
                        ),
                    }
                }
            },
        }
    } else if op == 0x98 {
        if s_rex_bit(sc, 8) == 1 {
            s_mk(Opcode::Cdqe, Operands::Zero, sc, i)
        } else {
            s_mk(Opcode::Cwde, Operands::Zero, sc, i)
        }
    } else if op == 0x9c {
        s_mk(Opcode::Pushf, Operands::Zero, sc, i)
    } else if op == 0xa1 {
        match s_rd32(b, i) {
            Option::None => Result::Err(DecodeError::Truncated),
            Option::Some((v, j)) => s_mk(
                Opcode::Mov,
                Operands::Two(
                    Operand::Register(Reg { class: gc, num: 0u8 }),
                    Operand::Memory(
                        MemOp {
                            seg: sc.p.seg,
                            base: Option::None,
                            index: Option::None,
                            scale: 1u8,
                            disp: v as i64,
                            rip: false,
                            hint: SizeHint::NoHint,
                            tight_scale: false,
                        },
                    ),
                ),
                sc,
                j,
            ),
        }
    } else if op == 0xa5 {
        if s_rex_bit(sc, 8) == 1 {
            s_mk(Opcode::Movsq, Operands::Zero, sc, i)
        } else {
            s_mk(Opcode::MovsdStr, Operands::Zero, sc, i)
        }
    } else if op == 0xab {
        if s_rex_bit(sc, 8) == 1 {
            s_mk(Opcode::Stosq, Operands::Zero, sc, i)
        } else {
            s_mk(Opcode::Stosd, Operands::Zero, sc, i)
        }
    } else if op == 0xc3 {
        s_mk(Opcode::Ret, Operands::Zero, sc, i)
    } else if op == 0xc7 {
        match s_rd8(b, i) {
            Option::None => Result::Err(DecodeError::Truncated),
            Option::Some((m, j)) => {
                if (m / 8) % 8 != 0 {
                    s_inv(sc, j)
                } else {
                    match s_rmop(b, j, sc, m, gc, SizeHint::NoHint) {
                        Option::None => Result::Err(DecodeError::Truncated),
                        Option::Some((dst, k)) => match s_immw(b, k, w) {
                            Option::None => Result::Err(DecodeError::Truncated),
                            Option::Some((im, l)) => s_mk(
                                Opcode::Mov,
                                Operands::Two(dst, Operand::Immediate(im)),
                                sc,
                                l,
                            ),
                        },
                    }
                }
            },
        }
    } else if op == 0xf6 || op == 0xf7 {
        match s_rd8(b, i) {
            Option::None => Result::Err(DecodeError::Truncated),
            Option::Some((m, j)) => {
                if (m / 8) % 8 != 0 {
                    s_inv(sc, j)
                } else {
                    let tc = if op == 0xf6 {
                        bc
                    } else {
                        gc
                    };
                    match s_rmop(b, j, sc, m, tc, SizeHint::NoHint) {
                        Option::None => Result::Err(DecodeError::Truncated),
                        Option::Some((dst, k)) => {
                            if op == 0xf6 {
                                match s_rd8(b, k) {
                                    Option::None => Result::Err(DecodeError::Truncated),
                                    Option::Some((v, l)) => s_mk(
                                        Opcode::Test,
                                        Operands::Two(
                                            dst,
                                            Operand::Immediate(Imm { value: s_sx8(v), width: 8u8 }),
                                        ),
                                        sc,
                                        l,
                                    ),
                                }
                            } else {
                                match s_immw(b, k, w) {
                                    Option::None => Result::Err(DecodeError::Truncated),
                                    Option::Some((im, l)) => s_mk(
                                        Opcode::Test,
                                        Operands::Two(dst, Operand::Immediate(im)),
                                        sc,
                                        l,
                                    ),
                                }
                            }
                        },
                    }
                }
            },
        }
    } else if op == 0xff {
        match s_rd8(b, i) {
            Option::None => Result::Err(DecodeError::Truncated),
            Option::Some((m, j)) => {
                let rf: u8 = ((m / 8) % 8) as u8;
                if rf == 2 {
                    match s_rmop(b, j, sc, m, RegClass::Qword, SizeHint::NoHint) {
                        Option::None => Result::Err(DecodeError::Truncated),
                        Option::Some((t, k)) => s_mk(Opcode::CallNear, Operands::One(t), sc, k),
                    }
                } else if rf == 6 {
                    let pc = if sc.p.opsize {
                        RegClass::Word
                    } else {
                        RegClass::Qword
                    };
                    match s_rmop(b, j, sc, m, pc, SizeHint::NoHint) {
                        Option::None => Result::Err(DecodeError::Truncated),
                        Option::Some((t, k)) => s_mk(Opcode::Push, Operands::One(t), sc, k),
                    }
                } else {
                    s_inv(sc, j)
                }
            },
        }
    } else {
        s_inv(sc, i)
    }
}

fn one(b: &[u8], i: usize, sc: Scan, op: u8) -> (r: DR)
    ensures
        r == s_one(b@, i as int, sc, op),
{
    if op < 0x80 {
        one_lo(b, i, sc, op)
    } else {
        one_hi(b, i, sc, op)
    }
}

#[verifier::rlimit(50)]
fn one_lo(b: &[u8], i: usize, sc: Scan, op: u8) -> (r: DR)
    ensures
        r == s_one_lo(b@, i as int, sc, op),
{
    let w: u8 = ow(sc);
    let gc = gcls(w, rexp(sc));
    let bc = gcls(8, rexp(sc));
    if op == 0x01 {
        rm2(b, i, sc, Opcode::Add, gc, true, gc, true, SizeHint::NoHint, false)
    } else if op == 0x03 {
        rm2(b, i, sc, Opcode::Add, gc, true, gc, true, SizeHint::NoHint, true)
    } else if op == 0x29 {
        rm2(b, i, sc, Opcode::Sub, gc, true, gc, true, SizeHint::NoHint, false)
    } else if op == 0x2b {
        rm2(b, i, sc, Opcode::Sub, gc, true, gc, true, SizeHint::NoHint, true)
    } else if op == 0x30 {
        rm2(b, i, sc, Opcode::Xor, bc, true, bc, true, SizeHint::NoHint, false)
    } else if op == 0x31 {
        rm2(b, i, sc, Opcode::Xor, gc, true, gc, true, SizeHint::NoHint, false)
    } else if op == 0x32 {
        rm2(b, i, sc, Opcode::Xor, bc, true, bc, true, SizeHint::NoHint, true)
    } else if op == 0x33 {
        rm2(b, i, sc, Opcode::Xor, gc, true, gc, true, SizeHint::NoHint, true)
    } else if op == 0x39 {
        rm2(b, i, sc, Opcode::Cmp, gc, true, gc, true, SizeHint::NoHint, false)
    } else if op == 0x3b {
        rm2(b, i, sc, Opcode::Cmp, gc, true, gc, true, SizeHint::NoHint, true)
    } else if op == 0x3d {
        match immw(b, i, w) {
            None => Err(DecodeError::Truncated),
            Some((im, j)) => mk(
                Opcode::Cmp,
                Operands::Two(
                    Operand::Register(Reg { class: gc, num: 0u8 }),
                    Operand::Immediate(im),
                ),
                sc,
                j,
            ),
        }
    } else if 0x50 <= op && op <= 0x57 {
        let pc = if sc.p.opsize {
            RegClass::Word
        } else {
            RegClass::Qword
        };
        mk(
            Opcode::Push,
            Operands::One(
                Operand::Register(Reg { class: pc, num: op - 0x50 + 8 * rex_bit(sc, 1) }),
            ),
            sc,
            i,
        )
    } else if 0x58 <= op && op <= 0x5f {
        let pc = if sc.p.opsize {
            RegClass::Word
        } else {
            RegClass::Qword
        };
        mk(
            Opcode::Pop,
            Operands::One(
                Operand::Register(Reg { class: pc, num: op - 0x58 + 8 * rex_bit(sc, 1) }),
            ),
            sc,
            i,
        )
    } else if op == 0x63 {
        let dc = if rex_bit(sc, 8) == 1 {
            RegClass::Qword
        } else {
            RegClass::Dword
        };
        rm2(b, i, sc, Opcode::Movsxd, dc, true, RegClass::Dword, true, SizeHint::NoHint, true)
    } else if op == 0x68 {
        match rd32(b, i) {
            None => Err(DecodeError::Truncated),
            Some((v, j)) => mk(
                Opcode::Push,
                Operands::One(Operand::Immediate(Imm { value: sx32(v), width: 32u8 })),
                sc,
                j,
            ),
        }
    } else if op == 0x72 || op == 0x73 || op == 0x74 || op == 0x76 {
        let opc = if op == 0x72 {
            Opcode::Jb
        } else if op == 0x73 {
            Opcode::Jnb
        } else if op == 0x74 {
            Opcode::Jz
        } else {
            Opcode::Jna
        };
        match rd8(b, i) {
            None => Err(DecodeError::Truncated),
            Some((v, j)) => mk(
                opc,
                Operands::One(Operand::Immediate(Imm { value: sx8(v), width: 8u8 })),
                sc,
                j,
            ),
        }
    } else {
        inv(sc, i)
    }
}

#[verifier::rlimit(50)]
fn one_hi(b: &[u8], i: usize, sc: Scan, op: u8) -> (r: DR)
    ensures
        r == s_one_hi(b@, i as int, sc, op),
{
    let w: u8 = ow(sc);
    let gc = gcls(w, rexp(sc));
    let bc = gcls(8, rexp(sc));
    if op == 0x81 {
        match rd8(b, i) {
            None => Err(DecodeError::Truncated),
            Some((m, j)) => match rmop(b, j, sc, m, gc, SizeHint::NoHint) {
                None => Err(DecodeError::Truncated),
                Some((dst, k)) => match immw(b, k, w) {
                    None => Err(DecodeError::Truncated),
                    Some((im, l)) => mk(
                        grp1op((m / 8) % 8),
                        Operands::Two(dst, Operand::Immediate(im)),
                        sc,
                        l,
                    ),
                },
            },
        }
    } else if op == 0x83 {
        match rd8(b, i) {
            None => Err(DecodeError::Truncated),
            Some((m, j)) => match rmop(b, j, sc, m, gc, SizeHint::NoHint) {
                None => Err(DecodeError::Truncated),
                Some((dst, k)) => match rd8(b, k) {
                    None => Err(DecodeError::Truncated),
                    Some((v, l)) => mk(
                        grp1op((m / 8) % 8),
                        Operands::Two(dst, Operand::Immediate(Imm { value: sx8(v), width: 8u8 })),
                        sc,
                        l,
                    ),
                },
            },
        }
    } else if op == 0x89 {
        rm2(b, i, sc, Opcode::Mov, gc, true, gc, true, SizeHint::NoHint, false)
    } else if op == 0x8b {
        rm2(b, i, sc, Opcode::Mov, gc, true, gc, true, SizeHint::NoHint, true)
    } else if op == 0x8d {
        match rd8(b, i) {
            None => Err(DecodeError::Truncated),
            Some((m, j)) => {
                if m / 64 == 3 {
                    inv(sc, j)
                } else {
                    match rmop(b, j, sc, m, gc, SizeHint::NoHint) {
                        None => Err(DecodeError::Truncated),
                        Some((src, k)) => mk(
                            Opcode::Lea,
                            Operands::Two(
                                Operand::Register(
                                    Reg { class: gc, num: (m / 8) % 8 + 8 * rex_bit(sc, 4) },
                                ),
                                src,
                            ),
                            sc,
                            k,
                        ),
                    }
                }
            },
        }
    } else if op == 0x98 {
        if rex_bit(sc, 8) == 1 {
            mk(Opcode::Cdqe, Operands::Zero, sc, i)
        } else {
            mk(Opcode::Cwde, Operands::Zero, sc, i)
        }
    } else if op == 0x9c {
        mk(Opcode::Pushf, Operands::Zero, sc, i)
    } else if op == 0xa1 {
        match rd32(b, i) {
            None => Err(DecodeError::Truncated),
            Some((v, j)) => mk(
                Opcode::Mov,
                Operands::Two(
                    Operand::Register(Reg { class: gc, num: 0u8 }),
                    Operand::Memory(
                        MemOp {
                            seg: sc.p.seg,
                            base: None,
                            index: None,
                            scale: 1u8,
                            disp: v as i64,
                            rip: false,
                            hint: SizeHint::NoHint,
                            tight_scale: false,
                        },
                    ),
                ),
                sc,
                j,
            ),
        }
    } else if op == 0xa5 {
        if rex_bit(sc, 8) == 1 {
            mk(Opcode::Movsq, Operands::Zero, sc, i)
        } else {
            mk(Opcode::MovsdStr, Operands::Zero, sc, i)
        }
    } else if op == 0xab {
        if rex_bit(sc, 8) == 1 {
            mk(Opcode::Stosq, Operands::Zero, sc, i)
        } else {
            mk(Opcode::Stosd, Operands::Zero, sc, i)
        }
    } else if op == 0xc3 {
        mk(Opcode::Ret, Operands::Zero, sc, i)
    } else if op == 0xc7 {
        match rd8(b, i) {
            None => Err(DecodeError::Truncated),
            Some((m, j)) => {
                if (m / 8) % 8 != 0 {
                    inv(sc, j)
                } else {
                    match rmop(b, j, sc, m, gc, SizeHint::NoHint) {
                        None => Err(DecodeError::Truncated),
                        Some((dst, k)) => match immw(b, k, w) {
                            None => Err(DecodeError::Truncated),
                            Some((im, l)) => mk(
                                Opcode::Mov,
                                Operands::Two(dst, Operand::Immediate(im)),
                                sc,
                                l,
                            ),
                        },
                    }
                }
            },
        }
    } else if op == 0xf6 || op == 0xf7 {
        match rd8(b, i) {
            None => Err(DecodeError::Truncated),
            Some((m, j)) => {
                if (m / 8) % 8 != 0 {
                    inv(sc, j)
                } else {
                    let tc = if op == 0xf6 {
                        bc
                    } else {
                        gc
                    };
                    match rmop(b, j, sc, m, tc, SizeHint::NoHint) {
                        None => Err(DecodeError::Truncated),
                        Some((dst, k)) => {
                            if op == 0xf6 {
                                match rd8(b, k) {
                                    None => Err(DecodeError::Truncated),
                                    Some((v, l)) => mk(
                                        Opcode::Test,
                                        Operands::Two(
                                            dst,
                                            Operand::Immediate(Imm { value: sx8(v), width: 8u8 }),
                                        ),
                                        sc,
                                        l,
                                    ),
                                }
                            } else {
                                match immw(b, k, w) {
                                    None => Err(DecodeError::Truncated),
                                    Some((im, l)) => mk(
                                        Opcode::Test,
                                        Operands::Two(dst, Operand::Immediate(im)),
                                        sc,
                                        l,
                                    ),
                                }
                            }
                        },
                    }
                }
            },
        }
    } else if op == 0xff {
        match rd8(b, i) {
            None => Err(DecodeError::Truncated),
            Some((m, j)) => {
                let rf: u8 = (m / 8) % 8;
                if rf == 2 {
                    match rmop(b, j, sc, m, RegClass::Qword, SizeHint::NoHint) {
                        None => Err(DecodeError::Truncated),
                        Some((t, k)) => mk(Opcode::CallNear, Operands::One(t), sc, k),
                    }
                } else if rf == 6 {
                    let pc = if sc.p.opsize {
                        RegClass::Word
                    } else {
                        RegClass::Qword
                    };
                    match rmop(b, j, sc, m, pc, SizeHint::NoHint) {
                        None => Err(DecodeError::Truncated),
                        Some((t, k)) => mk(Opcode::Push, Operands::One(t), sc, k),
                    }
                } else {
                    inv(sc, j)
                }
            },
        }
    } else {
        inv(sc, i)
    }
}

/// The no-operation forms of the `0f 18` to `0f 1f` hint space with a
/// memory operand. Under an operand-size override the operand loses its
/// size keyword and is shown with a code-segment override.
pub open spec fn s_nopmem(b: Seq<u8>, i: int, sc: Scan, m: u8) -> DR {
    match s_mem(b, i, sc, (m / 64) as u8, (m % 8) as u8, 0, 0, 1) {
        Option::None => Result::Err(DecodeError::Truncated),
        Option::Some((mm, k)) => {
            if sc.p.opsize {
                s_mk(
                    Opcode::Nop,
                    Operands::One(
                        Operand::Memory(
                            MemOp { hint: SizeHint::NoHint, seg: Option::Some(Seg::Cs), ..mm },
                        ),
                    ),
                    sc,
                    k,
                )
            } else {
                s_mk(
                    Opcode::Nop,
                    Operands::One(Operand::Memory(MemOp { hint: SizeHint::Dword, ..mm })),
                    sc,
                    k,
                )
            }
        },
    }
}

fn nopmem(b: &[u8], i: usize, sc: Scan, m: u8) -> (r: DR)
    requires
        m / 64 < 3,
    ensures
        r == s_nopmem(b@, i as int, sc, m),
{
    match mem(b, i, sc, m / 64, m % 8, 0, 0, 1) {
        None => Err(DecodeError::Truncated),
        Some((mm, k)) => {
            if sc.p.opsize {
                mk(
                    Opcode::Nop,
                    Operands::One(
                        Operand::Memory(
                            MemOp { hint: SizeHint::NoHint, seg: Some(Seg::Cs), ..mm },
                        ),
                    ),
                    sc,
                    k,
                )
            } else {
                mk(
                    Opcode::Nop,
                    Operands::One(Operand::Memory(MemOp { hint: SizeHint::Dword, ..mm })),
                    sc,
                    k,
                )
            }
        },
    }
}

/// Dispatch on the low half of the `0f`-escaped opcode space, with `i`
/// just past the second opcode byte.
pub open spec fn s_two_lo(b: Seq<u8>, i: int, sc: Scan, op: u8) -> DR {
    let mp = s_mp(sc.p);
    let gc = s_gcls(s_ow(sc), s_rexp(sc));
    if op == 0x02 || op == 0x03 {
        let opc = if op == 0x02 {
            Opcode::Lar
        } else {
            Opcode::Lsl
        };
        let srccls = if op == 0x02 {
            RegClass::Dword
        } else {
            gc
        };
        s_rm2(b, i, sc, opc, gc, true, srccls, true, SizeHint::Word, true)
    } else if op == 0x05 {
        if mp == Mp::MpF2 {
            s_mk(Opcode::Sysret, Operands::Zero, sc, i)
        } else {
            s_mk(Opcode::Syscall, Operands::Zero, sc, i)
        }
    } else if op == 0x10 || op == 0x11 {
        let opc = if mp == Mp::MpF3 {
            Opcode::Movss
        } else if mp == Mp::MpF2 {
            Opcode::MovsdSse
        } else if mp == Mp::Mp66 {
            Opcode::Movupd
        } else {
            Opcode::Movups
        };
        let hint = if mp == Mp::MpF3 || mp == Mp::MpF2 {
            SizeHint::NoHint
        } else {
            SizeHint::Xmmword
        };
        s_rm2(b, i, sc, opc, RegClass::Xmm, true, RegClass::Xmm, true, hint, op == 0x10)
    } else if op == 0x12 {
        match s_rd8(b, i) {
            Option::None => Result::Err(DecodeError::Truncated),
            Option::Some((m, j)) => {
                let opc = if m / 64 == 3 {
                    Opcode::Movhlps
                } else {
                    Opcode::Movlps
                };
                let hint = if m / 64 == 3 {
                    SizeHint::NoHint
                } else {
                    SizeHint::Qword
                };
                match s_rmop(b, j, sc, m, RegClass::Xmm, hint) {
                    Option::None => Result::Err(DecodeError::Truncated),
                    Option::Some((src, k)) => s_mk(
                        opc,
                        Operands::Two(
                            Operand::Register(
                                Reg {
                                    class: RegClass::Xmm,
                                    num: ((m / 8) % 8 + 8 * s_rex_bit(sc, 4)) as u8,
                                },
                            ),
                            src,
                        ),
                        sc,
                        k,
                    ),
                }
            },
        }
    } else if op == 0x14 || op == 0x15 {
        let opc = if op == 0x14 {
            Opcode::Unpcklps
        } else {
            Opcode::Unpckhps
        };
        s_rm2(b, i, sc, opc, RegClass::Xmm, true, RegClass::Xmm, true, SizeHint::Xmmword, true)
    } else if op == 0x16 {
        match s_rd8(b, i) {
            Option::None => Result::Err(DecodeError::Truncated),
            Option::Some((m, j)) => {
                let opc = if mp == Mp::MpF3 {
                    Opcode::Movshdup
                } else if m / 64 == 3 {
                    Opcode::Movlhps
                } else {
                    Opcode::Movhps
                };
                let hint = if mp == Mp::MpF3 || m / 64 == 3 {
                    SizeHint::NoHint
                } else {
                    SizeHint::Qword
                };
                match s_rmop(b, j, sc, m, RegClass::Xmm, hint) {
                    Option::None => Result::Err(DecodeError::Truncated),
                    Option::Some((src, k)) => s_mk(
                        opc,
                        Operands::Two(
                            Operand::Register(
                                Reg {
                                    class: RegClass::Xmm,
                                    num: ((m / 8) % 8 + 8 * s_rex_bit(sc, 4)) as u8,
                                },
                            ),
                            src,
                        ),
                        sc,
                        k,
                    ),
                }
            },
        }
    } else if op == 0x18 {
        match s_rd8(b, i) {
            Option::None => Result::Err(DecodeError::Truncated),
            Option::Some((m, j)) => {
                if m / 64 == 3 {
                    s_inv(sc, j)
                } else {
                    let rf: u8 = ((m / 8) % 8) as u8;
                    if rf < 4 {
                        let opc = if rf == 0 {
                            Opcode::Prefetchnta
                        } else if rf == 1 {
                            Opcode::Prefetch1
                        } else {
                            Opcode::Prefetch2
                        };
                        match s_mem(b, j, sc, (m / 64) as u8, (m % 8) as u8, 0, 0, 1) {
                            Option::None => Result::Err(DecodeError::Truncated),
                            Option::Some((mm, k)) => s_mk(
                                opc,
                                Operands::One(
                                    Operand::Memory(MemOp { hint: SizeHint::Byte, ..mm }),
                                ),
                                sc,
                                k,
                            ),
                        }
                    } else {
                        s_nopmem(b, j, sc, m)
                    }
                }
            },
        }
    } else if 0x19 <= op && op <= 0x1f {
        match s_rd8(b, i) {
            Option::None => Result::Err(DecodeError::Truncated),
            Option::Some((m, j)) => {
                if m / 64 == 3 {
                    s_inv(sc, j)
                } else {
                    s_nopmem(b, j, sc, m)
                }
            },
        }
    } else if op == 0x20 {
        s_movcr(b, i, sc, RegClass::Ctrl, false)
    } else if op == 0x21 {
        s_movcr(b, i, sc, RegClass::Dbg, false)
    } else if op == 0x22 {
        s_movcr(b, i, sc, RegClass::Ctrl, true)
    } else if op == 0x23 {
        s_movcr(b, i, sc, RegClass::Dbg, true)
    } else if op == 0x28 || op == 0x29 {
        let opc = if mp == Mp::Mp66 {
            Opcode::Movapd
        } else {
            Opcode::Movaps
        };
        s_rm2(
            b,
            i,
            sc,
            opc,
            RegClass::Xmm,
            true,
            RegClass::Xmm,
            true,
            SizeHint::Xmmword,
            op == 0x28,
        )
    } else if op == 0x30 {
        s_mk(Opcode::Wrmsr, Operands::Zero, sc, i)
    } else if op == 0x31 {
        s_mk(Opcode::Rdtsc, Operands::Zero, sc, i)
    } else if op == 0x32 {
        s_mk(Opcode::Rdmsr, Operands::Zero, sc, i)
    } else if op == 0x33 {
        s_mk(Opcode::Rdpmc, Operands::Zero, sc, i)
    } else if op == 0x34 {
        s_mk(Opcode::Sysenter, Operands::Zero, sc, i)
    } else if op == 0x35 {
        s_mk(Opcode::Sysret, Operands::Zero, sc, i)
    } else if op == 0x37 {
        s_mk(Opcode::Getsec, Operands::Zero, sc, i)
    } else if op == 0x43 {
        s_rm2(b, i, sc, Opcode::Cmovnb, gc, true, gc, true, SizeHint::NoHint, true)
    } else if op == 0x59 {
        let opc = if mp == Mp::MpF3 {
            Opcode::Mulss
        } else if mp == Mp::MpF2 {
            Opcode::Mulsd
        } else if mp == Mp::Mp66 {
            Opcode::Mulpd
        } else {
            Opcode::Mulps
        };
        let hint = if mp == Mp::MpF3 || mp == Mp::MpF2 {
            SizeHint::NoHint
        } else {
            SizeHint::Xmmword
        };
        s_rm2(b, i, sc, opc, RegClass::Xmm, true, RegClass::Xmm, true, hint, true)
    } else {
        s_inv(sc, i)
    }
}

#[verifier::rlimit(50)]
fn two_lo(b: &[u8], i: usize, sc: Scan, op: u8) -> (r: DR)
    ensures
        r == s_two_lo(b@, i as int, sc, op),
{
    let mp = mpc(sc.p);
    let gc = gcls(ow(sc), rexp(sc));
    if op == 0x02 || op == 0x03 {
        let opc = if op == 0x02 {
            Opcode::Lar
        } else {
            Opcode::Lsl
        };
        let srccls = if op == 0x02 {
            RegClass::Dword
        } else {
            gc
        };
        rm2(b, i, sc, opc, gc, true, srccls, true, SizeHint::Word, true)
    } else if op == 0x05 {
        if mp == Mp::MpF2 {
            mk(Opcode::Sysret, Operands::Zero, sc, i)
        } else {
            mk(Opcode::Syscall, Operands::Zero, sc, i)
        }
    } else if op == 0x10 || op == 0x11 {
        let opc = if mp == Mp::MpF3 {
            Opcode::Movss
        } else if mp == Mp::MpF2 {
            Opcode::MovsdSse
        } else if mp == Mp::Mp66 {
            Opcode::Movupd
        } else {
            Opcode::Movups
        };
        let hint = if mp == Mp::MpF3 || mp == Mp::MpF2 {
            SizeHint::NoHint
        } else {
            SizeHint::Xmmword
        };
        rm2(b, i, sc, opc, RegClass::Xmm, true, RegClass::Xmm, true, hint, op == 0x10)
    } else if op == 0x12 {
        match rd8(b, i) {
            None => Err(DecodeError::Truncated),
            Some((m, j)) => {
                let opc = if m / 64 == 3 {
                    Opcode::Movhlps
                } else {
                    Opcode::Movlps
                };
                let hint = if m / 64 == 3 {
                    SizeHint::NoHint
                } else {
                    SizeHint::Qword
                };
                match rmop(b, j, sc, m, RegClass::Xmm, hint) {
                    None => Err(DecodeError::Truncated),
                    Some((src, k)) => mk(
                        opc,
                        Operands::Two(
                            Operand::Register(
                                Reg {
                                    class: RegClass::Xmm,
                                    num: (m / 8) % 8 + 8 * rex_bit(sc, 4),
                                },
                            ),
                            src,
                        ),
                        sc,
                        k,
                    ),
                }
            },
        }
    } else if op == 0x14 || op == 0x15 {
        let opc = if op == 0x14 {
            Opcode::Unpcklps
        } else {
            Opcode::Unpckhps
        };
        rm2(b, i, sc, opc, RegClass::Xmm, true, RegClass::Xmm, true, SizeHint::Xmmword, true)
    } else if op == 0x16 {
        match rd8(b, i) {
            None => Err(DecodeError::Truncated),
            Some((m, j)) => {
                let opc = if mp == Mp::MpF3 {
                    Opcode::Movshdup
                } else if m / 64 == 3 {
                    Opcode::Movlhps
                } else {
                    Opcode::Movhps
                };
                let hint = if mp == Mp::MpF3 || m / 64 == 3 {
                    SizeHint::NoHint
                } else {
                    SizeHint::Qword
                };
                match rmop(b, j, sc, m, RegClass::Xmm, hint) {
                    None => Err(DecodeError::Truncated),
                    Some((src, k)) => mk(
                        opc,
                        Operands::Two(
                            Operand::Register(
                                Reg {
                                    class: RegClass::Xmm,
                                    num: (m / 8) % 8 + 8 * rex_bit(sc, 4),
                                },
                            ),
                            src,
                        ),
                        sc,
                        k,
                    ),
                }
            },
        }
    } else if op == 0x18 {
        match rd8(b, i) {
            None => Err(DecodeError::Truncated),
            Some((m, j)) => {
                if m / 64 == 3 {
                    inv(sc, j)
                } else {
                    let rf: u8 = (m / 8) % 8;
                    if rf < 4 {
                        let opc = if rf == 0 {
                            Opcode::Prefetchnta
                        } else if rf == 1 {
                            Opcode::Prefetch1
                        } else {
                            Opcode::Prefetch2
                        };
                        match mem(b, j, sc, m / 64, m % 8, 0, 0, 1) {
                            None => Err(DecodeError::Truncated),
                            Some((mm, k)) => mk(
                                opc,
                                Operands::One(
                                    Operand::Memory(MemOp { hint: SizeHint::Byte, ..mm }),
                                ),
                                sc,
                                k,
                            ),
                        }
                    } else {
                        nopmem(b, j, sc, m)
                    }
                }
            },
        }
    } else if 0x19 <= op && op <= 0x1f {
        match rd8(b, i) {
            None => Err(DecodeError::Truncated),
            Some((m, j)) => {
                if m / 64 == 3 {
                    inv(sc, j)
                } else {
                    nopmem(b, j, sc, m)
                }
            },
        }
    } else if op == 0x20 {
        movcr(b, i, sc, RegClass::Ctrl, false)
    } else if op == 0x21 {
        movcr(b, i, sc, RegClass::Dbg, false)
    } else if op == 0x22 {
        movcr(b, i, sc, RegClass::Ctrl, true)
    } else if op == 0x23 {
        movcr(b, i, sc, RegClass::Dbg, true)
    } else if op == 0x28 || op == 0x29 {
        let opc = if mp == Mp::Mp66 {
            Opcode::Movapd
        } else {
            Opcode::Movaps
        };
        rm2(
            b,
            i,
            sc,
            opc,
            RegClass::Xmm,
            true,
            RegClass::Xmm,
            true,
            SizeHint::Xmmword,
            op == 0x28,
        )
    } else if op == 0x30 {
        mk(Opcode::Wrmsr, Operands::Zero, sc, i)
    } else if op == 0x31 {
        mk(Opcode::Rdtsc, Operands::Zero, sc, i)
    } else if op == 0x32 {
        mk(Opcode::Rdmsr, Operands::Zero, sc, i)
    } else if op == 0x33 {
        mk(Opcode::Rdpmc, Operands::Zero, sc, i)
    } else if op == 0x34 {
        mk(Opcode::Sysenter, Operands::Zero, sc, i)
    } else if op == 0x35 {
        mk(Opcode::Sysret, Operands::Zero, sc, i)
    } else if op == 0x37 {
        mk(Opcode::Getsec, Operands::Zero, sc, i)
    } else if op == 0x43 {
        rm2(b, i, sc, Opcode::Cmovnb, gc, true, gc, true, SizeHint::NoHint, true)
    } else if op == 0x59 {
        let opc = if mp == Mp::MpF3 {
            Opcode::Mulss
        } else if mp == Mp::MpF2 {
            Opcode::Mulsd
        } else if mp == Mp::Mp66 {
            Opcode::Mulpd
        } else {
            Opcode::Mulps
        };
        let hint = if mp == Mp::MpF3 || mp == Mp::MpF2 {
            SizeHint::NoHint
        } else {
            SizeHint::Xmmword
        };
        rm2(b, i, sc, opc, RegClass::Xmm, true, RegClass::Xmm, true, hint, true)
    } else {
        inv(sc, i)
    }
}


/// The MMX pack/unpack/compare operation selected by opcodes `0f 60` to
/// `0f 6b`.
pub open spec fn s_mmxsel(op: u8) -> Opcode {
    if op == 0x60 {
        Opcode::Punpcklbw
    } else if op == 0x61 {
        Opcode::Punpcklwd
    } else if op == 0x62 {
        Opcode::Punpckldq
    } else if op == 0x63 {
        Opcode::Packsswb
    } else if op == 0x64 {
        Opcode::Pcmpgtb
    } else if op == 0x65 {
        Opcode::Pcmpgtw
    } else if op == 0x66 {
        Opcode::Pcmpgtd
    } else if op == 0x67 {
        Opcode::Packuswb
    } else if op == 0x68 {
        Opcode::Punpckhbw
    } else if op == 0x69 {
        Opcode::Punpckhbd
    } else if op == 0x6a {
        Opcode::Punpckhdq
    } else {
        Opcode::Packssdw
    }
}

fn mmxsel(op: u8) -> (r: Opcode)
    ensures
        r == s_mmxsel(op),
{
    if op == 0x60 {
        Opcode::Punpcklbw
    } else if op == 0x61 {
        Opcode::Punpcklwd
    } else if op == 0x62 {
        Opcode::Punpckldq
    } else if op == 0x63 {
        Opcode::Packsswb
    } else if op == 0x64 {
        Opcode::Pcmpgtb
    } else if op == 0x65 {
        Opcode::Pcmpgtw
    } else if op == 0x66 {
        Opcode::Pcmpgtd
    } else if op == 0x67 {
        Opcode::Packuswb
    } else if op == 0x68 {
        Opcode::Punpckhbw
    } else if op == 0x69 {
        Opcode::Punpckhbd
    } else if op == 0x6a {
        Opcode::Punpckhdq
    } else {
        Opcode::Packssdw
    }
}

/// Dispatch on the high half of the `0f`-escaped opcode space, with `i`
/// just past the second opcode byte.
pub open spec fn s_two_hi(b: Seq<u8>, i: int, sc: Scan, op: u8) -> DR {
    let mp = s_mp(sc.p);
    let gc = s_gcls(s_ow(sc), s_rexp(sc));
    if 0x60 <= op && op <= 0x6b {
        s_rm2(
            b,
            i,
            sc,
            s_mmxsel(op),
            RegClass::Mmx,
            false,
            RegClass::Mmx,
            false,
            SizeHint::Qword,
            true,
        )
    } else if op == 0x6e || op == 0x6f {
        let hint = if op == 0x6e {
            SizeHint::Dword
        } else {
            SizeHint::Qword
        };
        let mcls = if op == 0x6e {
            RegClass::Dword
        } else {
            RegClass::Qword
        };
        s_rm2(b, i, sc, Opcode::Movd, RegClass::Mmx, false, mcls, true, hint, true)
    } else if op == 0x70 {
        match s_rd8(b, i) {
            Option::None => Result::Err(DecodeError::Truncated),
            Option::Some((m, j)) => match s_rmop(b, j, sc, m, RegClass::Mmx, SizeHint::Qword) {
                Option::None => Result::Err(DecodeError::Truncated),
                Option::Some((src, k)) => match s_rd8(b, k) {
                    Option::None => Result::Err(DecodeError::Truncated),
                    Option::Some((v, l)) => s_mk(
                        Opcode::Pshufw,
                        Operands::Three(
                            Operand::Register(Reg { class: RegClass::Mmx, num: ((m / 8) % 8) as u8 }),
                            src,
                            Operand::Immediate(Imm { value: s_sx8(v), width: 8u8 }),
                        ),
                        sc,
                        l,
                    ),
                },
            },
        }
    } else if op == 0x71 || op == 0x72 {
        match s_rd8(b, i) {
            Option::None => Result::Err(DecodeError::Truncated),
            Option::Some((m, j)) => {
                let rf: u8 = ((m / 8) % 8) as u8;
                if m / 64 != 3 || (rf != 2 && rf != 4 && rf != 6) {
                    s_inv(sc, j)
                } else {
                    let opc = if op == 0x71 {
                        if rf == 2 {
                            Opcode::Psrlw
                        } else if rf == 4 {
                            Opcode::Psraw
                        } else {
                            Opcode::Psllw
                        }
                    } else {
                        if rf == 2 {
                            Opcode::Psrld
                        } else if rf == 4 {
                            Opcode::Psrad
                        } else {
                            Opcode::Pslld
                        }
                    };
                    match s_rd8(b, j) {
                        Option::None => Result::Err(DecodeError::Truncated),
                        Option::Some((v, l)) => s_mk(
                            opc,
                            Operands::Two(
                                Operand::Register(Reg { class: RegClass::Mmx, num: (m % 8) as u8 }),
                                Operand::Immediate(Imm { value: s_sx8(v), width: 8u8 }),
                            ),
                            sc,
                            l,
                        ),
                    }
                }
            },
        }
    } else if op == 0x86 {
        match s_rd32(b, i) {
            Option::None => Result::Err(DecodeError::Truncated),
            Option::Some((v, j)) => s_mk(
                Opcode::Jna,
                Operands::One(Operand::Immediate(Imm { value: s_sx32(v), width: 32u8 })),
                sc,
                j,
            ),
        }
    } else if op == 0xa0 {
        s_mk(
            Opcode::Push,
            Operands::One(Operand::Register(Reg { class: RegClass::SegReg, num: 4u8 })),
            sc,
            i,
        )
    } else if op == 0xa1 {
        s_mk(
            Opcode::Pop,
            Operands::One(Operand::Register(Reg { class: RegClass::SegReg, num: 4u8 })),
            sc,
            i,
        )
    } else if op == 0xa2 {
        s_mk(Opcode::Cpuid, Operands::Zero, sc, i)
    } else if op == 0xa3 {
        s_rm2(b, i, sc, Opcode::Bt, gc, true, gc, true, SizeHint::NoHint, false)
    } else if op == 0xa4 || op == 0xa5 {
        match s_rd8(b, i) {
            Option::None => Result::Err(DecodeError::Truncated),
            Option::Some((m, j)) => match s_rmop(b, j, sc, m, gc, SizeHint::NoHint) {
                Option::None => Result::Err(DecodeError::Truncated),
                Option::Some((dst, k)) => {
                    let reg = Operand::Register(
                        Reg { class: gc, num: ((m / 8) % 8 + 8 * s_rex_bit(sc, 4)) as u8 },
                    );
                    if op == 0xa4 {
                        match s_rd8(b, k) {
                            Option::None => Result::Err(DecodeError::Truncated),
                            Option::Some((v, l)) => s_mk(
                                Opcode::Shld,
                                Operands::Three(
                                    dst,
                                    reg,
                                    Operand::Immediate(Imm { value: s_sx8(v), width: 8u8 }),
                                ),
                                sc,
                                l,
                            ),
                        }
                    } else {
                        s_mk(
                            Opcode::Shld,
                            Operands::Three(
                                dst,
                                reg,
                                Operand::Register(Reg { class: RegClass::ByteLegacy, num: 1u8 }),
                            ),
                            sc,
                            k,
                        )
                    }
                },
            },
        }
    } else if op == 0xab {
        s_rm2(b, i, sc, Opcode::Bts, gc, true, gc, true, SizeHint::NoHint, false)
    } else if op == 0xaf {
        s_rm2(b, i, sc, Opcode::Imul, gc, true, gc, true, SizeHint::NoHint, true)
    } else if op == 0xb6 || op == 0xbe {
        let opc = if op == 0xb6 {
            Opcode::Movzx
        } else {
            Opcode::Movsx
        };
        s_rm2(b, i, sc, opc, gc, true, s_gcls(8, s_rexp(sc)), true, SizeHint::Byte, true)
    } else if op == 0xb7 || op == 0xbf {
        let opc = if op == 0xb7 {
            Opcode::Movzx
        } else {
            Opcode::Movsx
        };
        s_rm2(b, i, sc, opc, gc, true, RegClass::Word, true, SizeHint::Word, true)
    } else if op == 0xbc {
        let opc = if mp == Mp::MpF3 {
            Opcode::Tzcnt
        } else {
            Opcode::Bsf
        };
        s_rm2(b, i, sc, opc, gc, true, gc, true, SizeHint::NoHint, true)
    } else if op == 0xef {
        if mp == Mp::Mp66 {
            s_rm2(
                b,
                i,
                sc,
                Opcode::Pxor,
                RegClass::Xmm,
                true,
                RegClass::Xmm,
                true,
                SizeHint::Xmmword,
                true,
            )
        } else {
            s_rm2(
                b,
                i,
                sc,
                Opcode::Pxor,
                RegClass::Mmx,
                false,
                RegClass::Mmx,
                false,
                SizeHint::Qword,
                true,
            )
        }
    } else {
        s_inv(sc, i)
    }
}

#[verifier::rlimit(50)]
fn two_hi(b: &[u8], i: usize, sc: Scan, op: u8) -> (r: DR)
    ensures
        r == s_two_hi(b@, i as int, sc, op),
{
    let mp = mpc(sc.p);
    let gc = gcls(ow(sc), rexp(sc));
    if 0x60 <= op && op <= 0x6b {
        rm2(
            b,
            i,
            sc,
            mmxsel(op),
            RegClass::Mmx,
            false,
            RegClass::Mmx,
            false,
            SizeHint::Qword,
            true,
        )
    } else if op == 0x6e || op == 0x6f {
        let hint = if op == 0x6e {
            SizeHint::Dword
        } else {
            SizeHint::Qword
        };
        let mcls = if op == 0x6e {
            RegClass::Dword
        } else {
            RegClass::Qword
        };
        rm2(b, i, sc, Opcode::Movd, RegClass::Mmx, false, mcls, true, hint, true)
    } else if op == 0x70 {
        match rd8(b, i) {
            None => Err(DecodeError::Truncated),
            Some((m, j)) => match rmop(b, j, sc, m, RegClass::Mmx, SizeHint::Qword) {
                None => Err(DecodeError::Truncated),
                Some((src, k)) => match rd8(b, k) {
                    None => Err(DecodeError::Truncated),
                    Some((v, l)) => mk(
                        Opcode::Pshufw,
                        Operands::Three(
                            Operand::Register(Reg { class: RegClass::Mmx, num: (m / 8) % 8 }),
                            src,
                            Operand::Immediate(Imm { value: sx8(v), width: 8u8 }),
                        ),
                        sc,
                        l,
                    ),
                },
            },
        }
    } else if op == 0x71 || op == 0x72 {
        match rd8(b, i) {
            None => Err(DecodeError::Truncated),
            Some((m, j)) => {
                let rf: u8 = (m / 8) % 8;
                if m / 64 != 3 || (rf != 2 && rf != 4 && rf != 6) {
                    inv(sc, j)
                } else {
                    let opc = if op == 0x71 {
                        if rf == 2 {
                            Opcode::Psrlw
                        } else if rf == 4 {
                            Opcode::Psraw
                        } else {
                            Opcode::Psllw
                        }
                    } else {
                        if rf == 2 {
                            Opcode::Psrld
                        } else if rf == 4 {
                            Opcode::Psrad
                        } else {
                            Opcode::Pslld
                        }
                    };
                    match rd8(b, j) {
                        None => Err(DecodeError::Truncated),
                        Some((v, l)) => mk(
                            opc,
                            Operands::Two(
                                Operand::Register(Reg { class: RegClass::Mmx, num: m % 8 }),
                                Operand::Immediate(Imm { value: sx8(v), width: 8u8 }),
                            ),
                            sc,
                            l,
                        ),
                    }
                }
            },
        }
    } else if op == 0x86 {
        match rd32(b, i) {
            None => Err(DecodeError::Truncated),
            Some((v, j)) => mk(
                Opcode::Jna,
                Operands::One(Operand::Immediate(Imm { value: sx32(v), width: 32u8 })),
                sc,
                j,
            ),
        }
    } else if op == 0xa0 {
        mk(
            Opcode::Push,
            Operands::One(Operand::Register(Reg { class: RegClass::SegReg, num: 4u8 })),
            sc,
            i,
        )
    } else if op == 0xa1 {
        mk(
            Opcode::Pop,
            Operands::One(Operand::Register(Reg { class: RegClass::SegReg, num: 4u8 })),
            sc,
            i,
        )
    } else if op == 0xa2 {
        mk(Opcode::Cpuid, Operands::Zero, sc, i)
    } else if op == 0xa3 {
        rm2(b, i, sc, Opcode::Bt, gc, true, gc, true, SizeHint::NoHint, false)
    } else if op == 0xa4 || op == 0xa5 {
        match rd8(b, i) {
            None => Err(DecodeError::Truncated),
            Some((m, j)) => match rmop(b, j, sc, m, gc, SizeHint::NoHint) {
                None => Err(DecodeError::Truncated),
                Some((dst, k)) => {
                    let reg = Operand::Register(
                        Reg { class: gc, num: (m / 8) % 8 + 8 * rex_bit(sc, 4) },
                    );
                    if op == 0xa4 {
                        match rd8(b, k) {
                            None => Err(DecodeError::Truncated),
                            Some((v, l)) => mk(
                                Opcode::Shld,
                                Operands::Three(
                                    dst,
                                    reg,
                                    Operand::Immediate(Imm { value: sx8(v), width: 8u8 }),
                                ),
                                sc,
                                l,
                            ),
                        }
                    } else {
                        mk(
                            Opcode::Shld,
                            Operands::Three(
                                dst,
                                reg,
                                Operand::Register(Reg { class: RegClass::ByteLegacy, num: 1u8 }),
                            ),
                            sc,
                            k,
                        )
                    }
                },
            },
        }
    } else if op == 0xab {
        rm2(b, i, sc, Opcode::Bts, gc, true, gc, true, SizeHint::NoHint, false)
    } else if op == 0xaf {
        rm2(b, i, sc, Opcode::Imul, gc, true, gc, true, SizeHint::NoHint, true)
    } else if op == 0xb6 || op == 0xbe {
        let opc = if op == 0xb6 {
            Opcode::Movzx
        } else {
            Opcode::Movsx
        };
        rm2(b, i, sc, opc, gc, true, gcls(8, rexp(sc)), true, SizeHint::Byte, true)
    } else if op == 0xb7 || op == 0xbf {
        let opc = if op == 0xb7 {
            Opcode::Movzx
        } else {
            Opcode::Movsx
        };
        rm2(b, i, sc, opc, gc, true, RegClass::Word, true, SizeHint::Word, true)
    } else if op == 0xbc {
        let opc = if mp == Mp::MpF3 {
            Opcode::Tzcnt
        } else {
            Opcode::Bsf
        };
        rm2(b, i, sc, opc, gc, true, gc, true, SizeHint::NoHint, true)
    } else if op == 0xef {
        if mp == Mp::Mp66 {
            rm2(
                b,
                i,
                sc,
                Opcode::Pxor,
                RegClass::Xmm,
                true,
                RegClass::Xmm,
                true,
                SizeHint::Xmmword,
                true,
            )
        } else {
            rm2(
                b,
                i,
                sc,
                Opcode::Pxor,
                RegClass::Mmx,
                false,
                RegClass::Mmx,
                false,
                SizeHint::Qword,
                true,
            )
        }
    } else {
        inv(sc, i)
    }
}


/// Dispatch on the second opcode byte of an `0f`-escaped opcode.
pub open spec fn s_two(b: Seq<u8>, i: int, sc: Scan) -> DR {
    match s_rd8(b, i) {
        Option::None => Result::Err(DecodeError::Truncated),
        Option::Some((op, j)) => {
            if op < 0x60 {
                s_two_lo(b, j, sc, op)
            } else {
                s_two_hi(b, j, sc, op)
            }
        },
    }
}

fn two(b: &[u8], i: usize, sc: Scan) -> (r: DR)
    ensures
        r == s_two(b@, i as int, sc),
{
    match rd8(b, i) {
        None => Err(DecodeError::Truncated),
        Some((op, j)) => {
            if op < 0x60 {
                two_lo(b, j, sc, op)
            } else {
                two_hi(b, j, sc, op)
            }
        },
    }
}

/// Decodes a `62`-led EVEX-encoded instruction, with `i` just past the
/// `62` byte. The three prefix bytes carry the opcode map, the mandatory
/// prefix, inverted register-extension bits, and the vector length; a
/// one-byte displacement is scaled by the vector width in bytes.
pub open spec fn s_evex(b: Seq<u8>, i: int, sc: Scan) -> DR {
    match s_rd8(b, i) {
        Option::None => Result::Err(DecodeError::Truncated),
        Option::Some((p0, i1)) => match s_rd8(b, i1) {
            Option::None => Result::Err(DecodeError::Truncated),
            Option::Some((p1, i2)) => match s_rd8(b, i2) {
                Option::None => Result::Err(DecodeError::Truncated),
                Option::Some((p2, i3)) => match s_rd8(b, i3) {
                    Option::None => Result::Err(DecodeError::Truncated),
                    Option::Some((opc, i4)) => {
                        let emap: u8 = (p0 % 4) as u8;
                        let pp: u8 = (p1 % 4) as u8;
                        let ll: u8 = ((p2 / 32) % 4) as u8;
                        let er: u8 = (1 - (p0 / 128) % 2) as u8;
                        let ex: u8 = (1 - (p0 / 64) % 2) as u8;
                        let eb: u8 = (1 - (p0 / 32) % 2) as u8;
                        if emap == 2 && pp == 1 && opc == 0x2a && ll < 3 {
                            let vc = if ll == 0 {
                                RegClass::Xmm
                            } else if ll == 1 {
                                RegClass::Ymm
                            } else {
                                RegClass::Zmm
                            };
                            let hint = if ll == 0 {
                                SizeHint::Xmmword
                            } else if ll == 1 {
                                SizeHint::Ymmword
                            } else {
                                SizeHint::Zmmword
                            };
                            let ds: u8 = if ll == 0 {
                                16u8
                            } else if ll == 1 {
                                32u8
                            } else {
                                64u8
                            };
                            match s_rd8(b, i4) {
                                Option::None => Result::Err(DecodeError::Truncated),
                                Option::Some((m, i5)) => {
                                    if m / 64 == 3 {
                                        s_inv(sc, i5)
                                    } else {
                                        match s_mem(
                                            b,
                                            i5,
                                            sc,
                                            (m / 64) as u8,
                                            (m % 8) as u8,
                                            eb,
                                            ex,
                                            ds,
                                        ) {
                                            Option::None => Result::Err(DecodeError::Truncated),
                                            Option::Some((mm, k)) => s_mk(
                                                Opcode::Vmovntdqa,
                                                Operands::Two(
                                                    Operand::Register(
                                                        Reg {
                                                            class: vc,
                                                            num: ((m / 8) % 8 + 8 * er) as u8,
                                                        },
                                                    ),
                                                    Operand::Memory(
                                                        MemOp { hint, tight_scale: true, ..mm },
                                                    ),
                                                ),
                                                sc,
                                                k,
                                            ),
                                        }
                                    }
                                },
                            }
                        } else {
                            s_inv(sc, i4)
                        }
                    },
                },
            },
        },
    }
}

fn evex(b: &[u8], i: usize, sc: Scan) -> (r: DR)
    ensures
        r == s_evex(b@, i as int, sc),
{
    match rd8(b, i) {
        None => Err(DecodeError::Truncated),
        Some((p0, i1)) => match rd8(b, i1) {
            None => Err(DecodeError::Truncated),
            Some((p1, i2)) => match rd8(b, i2) {
                None => Err(DecodeError::Truncated),
                Some((p2, i3)) => match rd8(b, i3) {
                    None => Err(DecodeError::Truncated),
                    Some((opc, i4)) => {
                        let emap: u8 = p0 % 4;
                        let pp: u8 = p1 % 4;
                        let ll: u8 = (p2 / 32) % 4;
                        let er: u8 = 1 - (p0 / 128) % 2;
                        let ex: u8 = 1 - (p0 / 64) % 2;
                        let eb: u8 = 1 - (p0 / 32) % 2;
                        if emap == 2 && pp == 1 && opc == 0x2a && ll < 3 {
                            let vc = if ll == 0 {
                                RegClass::Xmm
                            } else if ll == 1 {
                                RegClass::Ymm
                            } else {
                                RegClass::Zmm
                            };
                            let hint = if ll == 0 {
                                SizeHint::Xmmword
                            } else if ll == 1 {
                                SizeHint::Ymmword
                            } else {
                                SizeHint::Zmmword
                            };
                            let ds: u8 = if ll == 0 {
                                16u8
                            } else if ll == 1 {
                                32u8
                            } else {
                                64u8
                            };
                            match rd8(b, i4) {
                                None => Err(DecodeError::Truncated),
                                Some((m, i5)) => {
                                    if m / 64 == 3 {
                                        inv(sc, i5)
                                    } else {
                                        match mem(b, i5, sc, m / 64, m % 8, eb, ex, ds) {
                                            None => Err(DecodeError::Truncated),
                                            Some((mm, k)) => mk(
                                                Opcode::Vmovntdqa,
                                                Operands::Two(
                                                    Operand::Register(
                                                        Reg { class: vc, num: (m / 8) % 8 + 8 * er },
                                                    ),
                                                    Operand::Memory(
                                                        MemOp { hint, tight_scale: true, ..mm },
                                                    ),
                                                ),
                                                sc,
                                                k,
                                            ),
                                        }
                                    }
                                },
                            }
                        } else {
                            inv(sc, i4)
                        }
                    },
                },
            },
        },
    }
}

/// Dispatch at the opcode position: `0f` escapes, the `62` EVEX lead-in,
/// the unsupported VEX prefixes, or a one-byte opcode.
pub open spec fn s_after(b: Seq<u8>, i: int, sc: Scan) -> DR {
    match s_rd8(b, i) {
        Option::None => Result::Err(DecodeError::Truncated),
        Option::Some((x, j)) => {
            if x == 0x0f {
                s_two(b, j, sc)
            } else if x == 0x62 {
                s_evex(b, j, sc)
            } else if x == 0xc4 || x == 0xc5 {
                Result::Err(DecodeError::Unsupported)
            } else {
                s_one(b, j, sc, x)
            }
        },
    }
}

fn after(b: &[u8], i: usize, sc: Scan) -> (r: DR)
    ensures
        r == s_after(b@, i as int, sc),
{
    match rd8(b, i) {
        None => Err(DecodeError::Truncated),
        Some((x, j)) => {
            if x == 0x0f {
                two(b, j, sc)
            } else if x == 0x62 {
                evex(b, j, sc)
            } else if x == 0xc4 || x == 0xc5 {
                Err(DecodeError::Unsupported)
            } else {
                one(b, j, sc, x)
            }
        },
    }
}

/// The empty prefix record the scanner starts from.
pub open spec fn s_scan0() -> Scan {
    Scan {
        p: Prefixes {
            lock: false,
            rep: Rep::NoRep,
            seg: Option::None,
            opsize: false,
            addrsize: false,
        },
        rex: Option::None,
    }
}

/// The complete decode of one instruction from the front of `b`.
pub open spec fn s_decode(b: Seq<u8>) -> DR {
    match s_scan(b, 0, s_scan0()) {
        Option::None => Result::Err(DecodeError::Truncated),
        Option::Some((sc, i)) => s_after(b, i, sc),
    }
}

/// Decodes one instruction from the front of the byte window. At most the
/// 16-byte architectural maximum is examined; the result is exactly the
/// spec-level decode of the window, so equal windows always decode alike,
/// and a completed instruction reports the exact number of bytes it
/// consumed, between one and the architectural maximum.
pub fn decode(b: &[u8]) -> (r: DR)
    ensures
        r == s_decode(b@),
        r matches Result::Ok(inst) ==> 1 <= inst.length <= 16,
{
    proof {
        lemma_decode_length(b@);
    }
    let sc0 = Scan {
        p: Prefixes { lock: false, rep: Rep::NoRep, seg: None, opsize: false, addrsize: false },
        rex: None,
    };
    match scan(b, 0, sc0) {
        None => Err(DecodeError::Truncated),
        Some((sc, i)) => after(b, i, sc),
    }
}

/// `c` begins with all of `b`: any byte position readable in `b` holds
/// the same byte in `c`.
pub open spec fn s_extends(b: Seq<u8>, c: Seq<u8>) -> bool {
    b.len() <= c.len() && (forall|k: int| 0 <= k < b.len() ==> c[k] == b[k])
}

broadcast proof fn lemma_rd8_ext(b: Seq<u8>, c: Seq<u8>, i: int)
    requires
        s_extends(b, c),
        s_rd8(b, i) is Some,
    ensures
        #![trigger s_rd8(b, i), s_rd8(c, i)]
        s_rd8(c, i) == s_rd8(b, i),
{
}

broadcast proof fn lemma_rd16_ext(b: Seq<u8>, c: Seq<u8>, i: int)
    requires
        s_extends(b, c),
        s_rd16(b, i) is Some,
    ensures
        #![trigger s_rd16(b, i), s_rd16(c, i)]
        s_rd16(c, i) == s_rd16(b, i),
{
}

broadcast proof fn lemma_rd32_ext(b: Seq<u8>, c: Seq<u8>, i: int)
    requires
        s_extends(b, c),
        s_rd32(b, i) is Some,
    ensures
        #![trigger s_rd32(b, i), s_rd32(c, i)]
        s_rd32(c, i) == s_rd32(b, i),
{
}

broadcast proof fn lemma_disp_ext(b: Seq<u8>, c: Seq<u8>, i: int, md: u8, ds: u8)
    requires
        s_extends(b, c),
        s_disp(b, i, md, ds) is Some,
    ensures
        #![trigger s_disp(b, i, md, ds), s_disp(c, i, md, ds)]
        s_disp(c, i, md, ds) == s_disp(b, i, md, ds),
{
    broadcast use lemma_rd8_ext, lemma_rd32_ext;

}

broadcast proof fn lemma_mem_ext(
    b: Seq<u8>,
    c: Seq<u8>,
    i: int,
    sc: Scan,
    md: u8,
    rm: u8,
    bx: u8,
    xx: u8,
    ds: u8,
)
    requires
        s_extends(b, c),
        s_mem(b, i, sc, md, rm, bx, xx, ds) is Some,
    ensures
        #![trigger s_mem(b, i, sc, md, rm, bx, xx, ds), s_mem(c, i, sc, md, rm, bx, xx, ds)]
        s_mem(c, i, sc, md, rm, bx, xx, ds) == s_mem(b, i, sc, md, rm, bx, xx, ds),
{
    broadcast use lemma_rd8_ext, lemma_rd32_ext, lemma_disp_ext;

}

broadcast proof fn lemma_immw_ext(b: Seq<u8>, c: Seq<u8>, i: int, w: u8)
    requires
        s_extends(b, c),
        s_immw(b, i, w) is Some,
    ensures
        #![trigger s_immw(b, i, w), s_immw(c, i, w)]
        s_immw(c, i, w) == s_immw(b, i, w),
{
    broadcast use lemma_rd16_ext, lemma_rd32_ext;

}

broadcast proof fn lemma_rmop_ext(
    b: Seq<u8>,
    c: Seq<u8>,
    i: int,
    sc: Scan,
    m: u8,
    mcls: RegClass,
    hint: SizeHint,
)
    requires
        s_extends(b, c),
        s_rmop(b, i, sc, m, mcls, hint) is Some,
    ensures
        #![trigger s_rmop(b, i, sc, m, mcls, hint), s_rmop(c, i, sc, m, mcls, hint)]
        s_rmop(c, i, sc, m, mcls, hint) == s_rmop(b, i, sc, m, mcls, hint),
{
    broadcast use lemma_mem_ext;

}

broadcast proof fn lemma_rm2_ext(
    b: Seq<u8>,
    c: Seq<u8>,
    i: int,
    sc: Scan,
    opc: Opcode,
    rcls: RegClass,
    rext: bool,
    mcls: RegClass,
    mext: bool,
    hint: SizeHint,
    dir: bool,
)
    requires
        s_extends(b, c),
        s_rm2(b, i, sc, opc, rcls, rext, mcls, mext, hint, dir) is Ok,
    ensures
        #![trigger s_rm2(b, i, sc, opc, rcls, rext, mcls, mext, hint, dir), s_rm2(c, i, sc, opc, rcls, rext, mcls, mext, hint, dir)]
        s_rm2(c, i, sc, opc, rcls, rext, mcls, mext, hint, dir) == s_rm2(
            b,
            i,
            sc,
            opc,
            rcls,
            rext,
            mcls,
            mext,
            hint,
            dir,
        ),
{
    broadcast use lemma_rd8_ext, lemma_mem_ext;

}

broadcast proof fn lemma_movcr_ext(b: Seq<u8>, c: Seq<u8>, i: int, sc: Scan, cls: RegClass, dir: bool)
    requires
        s_extends(b, c),
        s_movcr(b, i, sc, cls, dir) is Ok,
    ensures
        #![trigger s_movcr(b, i, sc, cls, dir), s_movcr(c, i, sc, cls, dir)]
        s_movcr(c, i, sc, cls, dir) == s_movcr(b, i, sc, cls, dir),
{
    broadcast use lemma_rd8_ext;

}

broadcast proof fn lemma_nopmem_ext(b: Seq<u8>, c: Seq<u8>, i: int, sc: Scan, m: u8)
    requires
        s_extends(b, c),
        s_nopmem(b, i, sc, m) is Ok,
    ensures
        #![trigger s_nopmem(b, i, sc, m), s_nopmem(c, i, sc, m)]
        s_nopmem(c, i, sc, m) == s_nopmem(b, i, sc, m),
{
    broadcast use lemma_mem_ext;

}

#[verifier::rlimit(100)]
broadcast proof fn lemma_one_lo_ext(b: Seq<u8>, c: Seq<u8>, i: int, sc: Scan, op: u8)
    requires
        s_extends(b, c),
        s_one_lo(b, i, sc, op) is Ok,
    ensures
        #![trigger s_one_lo(b, i, sc, op), s_one_lo(c, i, sc, op)]
        s_one_lo(c, i, sc, op) == s_one_lo(b, i, sc, op),
{
    broadcast use lemma_rd8_ext, lemma_rd32_ext, lemma_rm2_ext, lemma_rmop_ext, lemma_immw_ext;

}

#[verifier::rlimit(100)]
proof fn lemma_one_hi_ext_low(b: Seq<u8>, c: Seq<u8>, i: int, sc: Scan, op: u8)
    requires
        s_extends(b, c),
        s_one_hi(b, i, sc, op) is Ok,
        op < 0xc0,
    ensures
        s_one_hi(c, i, sc, op) == s_one_hi(b, i, sc, op),
{
    broadcast use lemma_rd8_ext, lemma_rd32_ext, lemma_rm2_ext, lemma_rmop_ext, lemma_immw_ext;

}

#[verifier::rlimit(100)]
proof fn lemma_one_hi_ext_high(b: Seq<u8>, c: Seq<u8>, i: int, sc: Scan, op: u8)
    requires
        s_extends(b, c),
        s_one_hi(b, i, sc, op) is Ok,
        op >= 0xc0,
    ensures
        s_one_hi(c, i, sc, op) == s_one_hi(b, i, sc, op),
{
    broadcast use lemma_rd8_ext, lemma_rd32_ext, lemma_rm2_ext, lemma_rmop_ext, lemma_immw_ext;

}

broadcast proof fn lemma_one_hi_ext(b: Seq<u8>, c: Seq<u8>, i: int, sc: Scan, op: u8)
    requires
        s_extends(b, c),
        s_one_hi(b, i, sc, op) is Ok,
    ensures
        #![trigger s_one_hi(b, i, sc, op), s_one_hi(c, i, sc, op)]
        s_one_hi(c, i, sc, op) == s_one_hi(b, i, sc, op),
{
    if op < 0xc0 {
        lemma_one_hi_ext_low(b, c, i, sc, op);
    } else {
        lemma_one_hi_ext_high(b, c, i, sc, op);
    }
}

broadcast proof fn lemma_one_ext(b: Seq<u8>, c: Seq<u8>, i: int, sc: Scan, op: u8)
    requires
        s_extends(b, c),
        s_one(b, i, sc, op) is Ok,
    ensures
        #![trigger s_one(b, i, sc, op), s_one(c, i, sc, op)]
        s_one(c, i, sc, op) == s_one(b, i, sc, op),
{
    broadcast use lemma_one_lo_ext, lemma_one_hi_ext;

}

#[verifier::rlimit(100)]
broadcast proof fn lemma_two_lo_ext(b: Seq<u8>, c: Seq<u8>, i: int, sc: Scan, op: u8)
    requires
        s_extends(b, c),
        s_two_lo(b, i, sc, op) is Ok,
    ensures
        #![trigger s_two_lo(b, i, sc, op), s_two_lo(c, i, sc, op)]
        s_two_lo(c, i, sc, op) == s_two_lo(b, i, sc, op),
{
    broadcast use
        lemma_rd8_ext,
        lemma_rd32_ext,
        lemma_rm2_ext,
        lemma_rmop_ext,
        lemma_mem_ext,
        lemma_movcr_ext,
        lemma_nopmem_ext;

}

#[verifier::rlimit(100)]
proof fn lemma_two_hi_ext_low(b: Seq<u8>, c: Seq<u8>, i: int, sc: Scan, op: u8)
    requires
        s_extends(b, c),
        s_two_hi(b, i, sc, op) is Ok,
        op < 0xa0,
    ensures
        s_two_hi(c, i, sc, op) == s_two_hi(b, i, sc, op),
{
    broadcast use lemma_rd8_ext, lemma_rd32_ext, lemma_rm2_ext, lemma_rmop_ext;

}

#[verifier::rlimit(100)]
proof fn lemma_two_hi_ext_mid(b: Seq<u8>, c: Seq<u8>, i: int, sc: Scan, op: u8)
    requires
        s_extends(b, c),
        s_two_hi(b, i, sc, op) is Ok,
        0xa0 <= op < 0xb0,
    ensures
        s_two_hi(c, i, sc, op) == s_two_hi(b, i, sc, op),
{
    broadcast use lemma_rd8_ext, lemma_rd32_ext, lemma_rm2_ext, lemma_rmop_ext;

}

#[verifier::rlimit(100)]
proof fn lemma_two_hi_ext_high(b: Seq<u8>, c: Seq<u8>, i: int, sc: Scan, op: u8)
    requires
        s_extends(b, c),
        s_two_hi(b, i, sc, op) is Ok,
        op >= 0xb0,
    ensures
        s_two_hi(c, i, sc, op) == s_two_hi(b, i, sc, op),
{
    broadcast use lemma_rd8_ext, lemma_rd32_ext, lemma_rm2_ext, lemma_rmop_ext;

}

broadcast proof fn lemma_two_hi_ext(b: Seq<u8>, c: Seq<u8>, i: int, sc: Scan, op: u8)
    requires
        s_extends(b, c),
        s_two_hi(b, i, sc, op) is Ok,
    ensures
        #![trigger s_two_hi(b, i, sc, op), s_two_hi(c, i, sc, op)]
        s_two_hi(c, i, sc, op) == s_two_hi(b, i, sc, op),
{
    if op < 0xa0 {
        lemma_two_hi_ext_low(b, c, i, sc, op);
    } else if op < 0xb0 {
        lemma_two_hi_ext_mid(b, c, i, sc, op);
    } else {
        lemma_two_hi_ext_high(b, c, i, sc, op);
    }
}

broadcast proof fn lemma_two_ext(b: Seq<u8>, c: Seq<u8>, i: int, sc: Scan)
    requires
        s_extends(b, c),
        s_two(b, i, sc) is Ok,
    ensures
        #![trigger s_two(b, i, sc), s_two(c, i, sc)]
        s_two(c, i, sc) == s_two(b, i, sc),
{
    broadcast use lemma_rd8_ext, lemma_two_lo_ext, lemma_two_hi_ext;

}

#[verifier::rlimit(100)]
broadcast proof fn lemma_evex_ext(b: Seq<u8>, c: Seq<u8>, i: int, sc: Scan)
    requires
        s_extends(b, c),
        s_evex(b, i, sc) is Ok,
    ensures
        #![trigger s_evex(b, i, sc), s_evex(c, i, sc)]
        s_evex(c, i, sc) == s_evex(b, i, sc),
{
    broadcast use lemma_rd8_ext, lemma_mem_ext;

}

proof fn lemma_scan_ext(b: Seq<u8>, c: Seq<u8>, i: int, sc: Scan)
    requires
        s_extends(b, c),
        s_scan(b, i, sc) is Some,
    ensures
        s_scan(c, i, sc) == s_scan(b, i, sc),
    decreases wlen(b) - i,
{
    broadcast use lemma_rd8_ext;

    match s_rd8(b, i) {
        Option::None => {},
        Option::Some((x, j)) => {
            match s_scan_step(sc, x) {
                Option::Some(sc2) => {
                    lemma_scan_ext(b, c, j, sc2);
                },
                Option::None => {},
            }
        },
    }
}

broadcast proof fn lemma_after_ext(b: Seq<u8>, c: Seq<u8>, i: int, sc: Scan)
    requires
        s_extends(b, c),
        s_after(b, i, sc) is Ok,
    ensures
        #![trigger s_after(b, i, sc), s_after(c, i, sc)]
        s_after(c, i, sc) == s_after(b, i, sc),
{
    broadcast use lemma_rd8_ext, lemma_one_ext, lemma_two_ext, lemma_evex_ext;

}

broadcast proof fn lemma_disp_len(b: Seq<u8>, i: int, md: u8, ds: u8)
    requires
        0 <= i <= 16,
    ensures
        #![trigger s_disp(b, i, md, ds)]
        match s_disp(b, i, md, ds) {
            Option::Some((_, k)) => i <= k <= 16,
            Option::None => true,
        },
{
}

broadcast proof fn lemma_mem_len(b: Seq<u8>, i: int, sc: Scan, md: u8, rm: u8, bx: u8, xx: u8, ds: u8)
    requires
        0 <= i <= 16,
    ensures
        #![trigger s_mem(b, i, sc, md, rm, bx, xx, ds)]
        match s_mem(b, i, sc, md, rm, bx, xx, ds) {
            Option::Some((_, k)) => i <= k <= 16,
            Option::None => true,
        },
{
    broadcast use lemma_disp_len;

}

broadcast proof fn lemma_immw_len(b: Seq<u8>, i: int, w: u8)
    requires
        0 <= i <= 16,
    ensures
        #![trigger s_immw(b, i, w)]
        match s_immw(b, i, w) {
            Option::Some((_, k)) => i <= k <= 16,
            Option::None => true,
        },
{
}

broadcast proof fn lemma_rmop_len(b: Seq<u8>, i: int, sc: Scan, m: u8, mcls: RegClass, hint: SizeHint)
    requires
        0 <= i <= 16,
    ensures
        #![trigger s_rmop(b, i, sc, m, mcls, hint)]
        match s_rmop(b, i, sc, m, mcls, hint) {
            Option::Some((_, k)) => i <= k <= 16,
            Option::None => true,
        },
{
    broadcast use lemma_mem_len;

}

broadcast proof fn lemma_rm2_len(
    b: Seq<u8>,
    i: int,
    sc: Scan,
    opc: Opcode,
    rcls: RegClass,
    rext: bool,
    mcls: RegClass,
    mext: bool,
    hint: SizeHint,
    dir: bool,
)
    requires
        1 <= i <= 16,
    ensures
        #![trigger s_rm2(b, i, sc, opc, rcls, rext, mcls, mext, hint, dir)]
        match s_rm2(b, i, sc, opc, rcls, rext, mcls, mext, hint, dir) {
            Result::Ok(inst) => 1 <= inst.length <= 16,
            Result::Err(_) => true,
        },
{
    broadcast use lemma_mem_len;

}

broadcast proof fn lemma_movcr_len(b: Seq<u8>, i: int, sc: Scan, cls: RegClass, dir: bool)
    requires
        1 <= i <= 16,
    ensures
        #![trigger s_movcr(b, i, sc, cls, dir)]
        match s_movcr(b, i, sc, cls, dir) {
            Result::Ok(inst) => 1 <= inst.length <= 16,
            Result::Err(_) => true,
        },
{
}

broadcast proof fn lemma_nopmem_len(b: Seq<u8>, i: int, sc: Scan, m: u8)
    requires
        1 <= i <= 16,
    ensures
        #![trigger s_nopmem(b, i, sc, m)]
        match s_nopmem(b, i, sc, m) {
            Result::Ok(inst) => 1 <= inst.length <= 16,
            Result::Err(_) => true,
        },
{
    broadcast use lemma_mem_len;

}

#[verifier::rlimit(100)]
broadcast proof fn lemma_one_lo_len(b: Seq<u8>, i: int, sc: Scan, op: u8)
    requires
        1 <= i <= 16,
    ensures
        #![trigger s_one_lo(b, i, sc, op)]
        match s_one_lo(b, i, sc, op) {
            Result::Ok(inst) => 1 <= inst.length <= 16,
            Result::Err(_) => true,
        },
{
    broadcast use lemma_rm2_len, lemma_rmop_len, lemma_immw_len;

}

#[verifier::rlimit(100)]
broadcast proof fn lemma_one_hi_len(b: Seq<u8>, i: int, sc: Scan, op: u8)
    requires
        1 <= i <= 16,
    ensures
        #![trigger s_one_hi(b, i, sc, op)]
        match s_one_hi(b, i, sc, op) {
            Result::Ok(inst) => 1 <= inst.length <= 16,
            Result::Err(_) => true,
        },
{
    broadcast use lemma_rm2_len, lemma_rmop_len, lemma_immw_len;

}

broadcast proof fn lemma_one_len(b: Seq<u8>, i: int, sc: Scan, op: u8)
    requires
        1 <= i <= 16,
    ensures
        #![trigger s_one(b, i, sc, op)]
        match s_one(b, i, sc, op) {
            Result::Ok(inst) => 1 <= inst.length <= 16,
            Result::Err(_) => true,
        },
{
    broadcast use lemma_one_lo_len, lemma_one_hi_len;

}

#[verifier::rlimit(100)]
broadcast proof fn lemma_two_lo_len(b: Seq<u8>, i: int, sc: Scan, op: u8)
    requires
        1 <= i <= 16,
    ensures
        #![trigger s_two_lo(b, i, sc, op)]
        match s_two_lo(b, i, sc, op) {
            Result::Ok(inst) => 1 <= inst.length <= 16,
            Result::Err(_) => true,
        },
{
    broadcast use lemma_rm2_len, lemma_rmop_len, lemma_mem_len, lemma_movcr_len, lemma_nopmem_len;

}

#[verifier::rlimit(100)]
broadcast proof fn lemma_two_hi_len(b: Seq<u8>, i: int, sc: Scan, op: u8)
    requires
        1 <= i <= 16,
    ensures
        #![trigger s_two_hi(b, i, sc, op)]
        match s_two_hi(b, i, sc, op) {
            Result::Ok(inst) => 1 <= inst.length <= 16,
            Result::Err(_) => true,
        },
{
    broadcast use lemma_rm2_len, lemma_rmop_len;

}

broadcast proof fn lemma_two_len(b: Seq<u8>, i: int, sc: Scan)
    requires
        0 <= i <= 16,
    ensures
        #![trigger s_two(b, i, sc)]
        match s_two(b, i, sc) {
            Result::Ok(inst) => 1 <= inst.length <= 16,
            Result::Err(_) => true,
        },
{
    broadcast use lemma_two_lo_len, lemma_two_hi_len;

}

#[verifier::rlimit(100)]
broadcast proof fn lemma_evex_len(b: Seq<u8>, i: int, sc: Scan)
    requires
        1 <= i <= 16,
    ensures
        #![trigger s_evex(b, i, sc)]
        match s_evex(b, i, sc) {
            Result::Ok(inst) => 1 <= inst.length <= 16,
            Result::Err(_) => true,
        },
{
    broadcast use lemma_mem_len;

}

broadcast proof fn lemma_after_len(b: Seq<u8>, i: int, sc: Scan)
    requires
        0 <= i <= 16,
    ensures
        #![trigger s_after(b, i, sc)]
        match s_after(b, i, sc) {
            Result::Ok(inst) => 1 <= inst.length <= 16,
            Result::Err(_) => true,
        },
{
    broadcast use lemma_one_len, lemma_two_len, lemma_evex_len;

}

proof fn lemma_scan_pos(b: Seq<u8>, i: int, sc: Scan)
    requires
        0 <= i <= 16,
    ensures
        match s_scan(b, i, sc) {
            Option::Some((_, j)) => i <= j <= 16,
            Option::None => true,
        },
    decreases wlen(b) - i,
{
    match s_rd8(b, i) {
        Option::None => {},
        Option::Some((x, j)) => {
            match s_scan_step(sc, x) {
                Option::Some(sc2) => {
                    lemma_scan_pos(b, j, sc2);
                },
                Option::None => {},
            }
        },
    }
}

/// A completed decode reports a consumed length of at least one byte and
/// at most the 16-byte architectural maximum.
pub proof fn lemma_decode_length(b: Seq<u8>)
    ensures
        match s_decode(b) {
            Result::Ok(inst) => 1 <= inst.length <= 16,
            Result::Err(_) => true,
        },
{
    broadcast use lemma_after_len;

    lemma_scan_pos(b, 0, s_scan0());
}

/// A REX byte that sets no extension bits leaves a control- or
/// debug-register move exactly as the unprefixed form decodes it: these
/// moves have no width semantics for such a byte to change, so the decoded
/// instructions agree on every field.
pub proof fn lemma_rex_without_bits_movcr(b: Seq<u8>, i: int, p: Prefixes, cls: RegClass, dir: bool)
    ensures
        s_movcr(b, i, Scan { p: p, rex: Option::Some(0x40) }, cls, dir) == s_movcr(
            b,
            i,
            Scan { p: p, rex: Option::None },
            cls,
            dir,
        ),
{
}

/// Extension-bit correctness on the control- and debug-register moves:
/// under a REX byte setting the R and B bits, both decoded register
/// numbers are those of the unprefixed form shifted from 0–7 up by 8,
/// with classes unchanged; and the two forms fail alike.
pub proof fn lemma_rex_extension_bits_movcr(b: Seq<u8>, i: int, p: Prefixes, cls: RegClass, dir: bool)
    ensures
        match (
            s_movcr(b, i, Scan { p: p, rex: Option::Some(0x45) }, cls, dir),
            s_movcr(b, i, Scan { p: p, rex: Option::None }, cls, dir),
        ) {
            (Result::Ok(e), Result::Ok(u)) => match (e.operands, u.operands) {
                (
                    Operands::Two(Operand::Register(e0), Operand::Register(e1)),
                    Operands::Two(Operand::Register(u0), Operand::Register(u1)),
                ) => e0.num == u0.num + 8 && e1.num == u1.num + 8 && e0.class == u0.class
                    && e1.class == u1.class && u0.num < 8 && u1.num < 8,
                _ => false,
            },
            (Result::Err(e1), Result::Err(e2)) => e1 == e2,
            _ => false,
        },
{
}

/// Trailing-byte irrelevance: when a window decodes to a complete
/// instruction, appending any further bytes leaves the decoded result
/// unchanged, because a successful decode reads only bytes the shorter
/// window already holds.
pub proof fn lemma_trailing_bytes_irrelevant(b: Seq<u8>, ext: Seq<u8>)
    requires
        s_decode(b) is Ok,
    ensures
        s_decode(b + ext) == s_decode(b),
{
    broadcast use lemma_after_ext;

    let c = b + ext;
    assert(s_extends(b, c));
    lemma_scan_ext(b, c, 0, s_scan0());
}

} // verus!
