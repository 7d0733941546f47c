//! The instruction formatter: a total function from the instruction model
//! to canonical assembly text. Every executable function is proved to
//! return exactly the spec-level text.

use vstd::prelude::*;
use vstd::string::StringExecFns;

use crate::model::Instruction;
use crate::model::MemOp;
use crate::model::Opcode;
use crate::model::Operand;
use crate::model::Operands;
use crate::model::Reg;
use crate::model::RegClass;
use crate::model::Rep;
use crate::model::Seg;
use crate::model::SizeHint;

verus! {

/// The empty text.
pub open spec fn s_empty() -> Seq<char> {
    Seq::<char>::empty()
}

fn empty_string() -> (s: String)
    ensures
        s@ == s_empty(),
{
    let s = String::from_str("");
    proof {
        reveal_strlit("");
        assert(s@ =~= Seq::<char>::empty());
    }
    s
}

/// One digit, as text; `d` below 16.
pub open spec fn s_digit(d: int) -> Seq<char> {
    if d == 0 {
        "0"@
    } else if d == 1 {
        "1"@
    } else if d == 2 {
        "2"@
    } else if d == 3 {
        "3"@
    } else if d == 4 {
        "4"@
    } else if d == 5 {
        "5"@
    } else if d == 6 {
        "6"@
    } else if d == 7 {
        "7"@
    } else if d == 8 {
        "8"@
    } else if d == 9 {
        "9"@
    } else if d == 10 {
        "a"@
    } else if d == 11 {
        "b"@
    } else if d == 12 {
        "c"@
    } else if d == 13 {
        "d"@
    } else if d == 14 {
        "e"@
    } else {
        "f"@
    }
}

fn digit(d: u64) -> (r: &'static str)
    ensures
        r@ == s_digit(d as int),
{
    if d == 0 {
        "0"
    } else if d == 1 {
        "1"
    } else if d == 2 {
        "2"
    } else if d == 3 {
        "3"
    } else if d == 4 {
        "4"
    } else if d == 5 {
        "5"
    } else if d == 6 {
        "6"
    } else if d == 7 {
        "7"
    } else if d == 8 {
        "8"
    } else if d == 9 {
        "9"
    } else if d == 10 {
        "a"
    } else if d == 11 {
        "b"
    } else if d == 12 {
        "c"
    } else if d == 13 {
        "d"
    } else if d == 14 {
        "e"
    } else {
        "f"
    }
}

/// Lowercase hexadecimal digits of `n`, most significant first, with no
/// leading zeros (a single `0` for zero).
pub open spec fn s_hex(n: nat) -> Seq<char>
    decreases n,
{
    if n < 16 {
        s_digit(n as int)
    } else {
        s_hex(n / 16) + s_digit((n % 16) as int)
    }
}

fn hex_u64(n: u64) -> (s: String)
    ensures
        s@ == s_hex(n as nat),
    decreases n,
{
    if n < 16 {
        String::from_str(digit(n))
    } else {
        let mut s = hex_u64(n / 16);
        s.append(digit(n % 16));
        s
    }
}

/// Decimal digits of `n`, most significant first.
pub open spec fn s_dec(n: nat) -> Seq<char>
    decreases n,
{
    if n < 10 {
        s_digit(n as int)
    } else {
        s_dec(n / 10) + s_digit((n % 10) as int)
    }
}

fn dec_u64(n: u64) -> (s: String)
    ensures
        s@ == s_dec(n as nat),
    decreases n,
{
    if n < 10 {
        String::from_str(digit(n))
    } else {
        let mut s = dec_u64(n / 10);
        s.append(digit(n % 10));
        s
    }
}

/// A signed hexadecimal number: `0x..`, with a leading `-` when negative.
pub open spec fn s_shex(v: i64) -> Seq<char> {
    if v < 0 {
        "-0x"@ + s_hex((0 - v as int) as nat)
    } else {
        "0x"@ + s_hex(v as nat)
    }
}

fn shex(v: i64) -> (s: String)
    ensures
        s@ == s_shex(v),
{
    if v < 0 {
        let mag: u64 = ((0 - (v + 1)) as u64) + 1;
        let mut s = String::from_str("-0x");
        let t = hex_u64(mag);
        s.append(t.as_str());
        s
    } else {
        let mut s = String::from_str("0x");
        let t = hex_u64(v as u64);
        s.append(t.as_str());
        s
    }
}

/// The canonical 64-bit general-purpose register name.
pub open spec fn s_gp64(n: u8) -> Seq<char> {
    if n == 0 {
        "rax"@
    } else if n == 1 {
        "rcx"@
    } else if n == 2 {
        "rdx"@
    } else if n == 3 {
        "rbx"@
    } else if n == 4 {
        "rsp"@
    } else if n == 5 {
        "rbp"@
    } else if n == 6 {
        "rsi"@
    } else if n == 7 {
        "rdi"@
    } else {
        "r"@ + s_dec(n as nat)
    }
}

fn gp64(n: u8) -> (s: String)
    ensures
        s@ == s_gp64(n),
{
    if n == 0 {
        String::from_str("rax")
    } else if n == 1 {
        String::from_str("rcx")
    } else if n == 2 {
        String::from_str("rdx")
    } else if n == 3 {
        String::from_str("rbx")
    } else if n == 4 {
        String::from_str("rsp")
    } else if n == 5 {
        String::from_str("rbp")
    } else if n == 6 {
        String::from_str("rsi")
    } else if n == 7 {
        String::from_str("rdi")
    } else {
        let mut s = String::from_str("r");
        let t = dec_u64(n as u64);
        s.append(t.as_str());
        s
    }
}

/// The canonical 32-bit general-purpose register name.
pub open spec fn s_gp32(n: u8) -> Seq<char> {
    if n == 0 {
        "eax"@
    } else if n == 1 {
        "ecx"@
    } else if n == 2 {
        "edx"@
    } else if n == 3 {
        "ebx"@
    } else if n == 4 {
        "esp"@
    } else if n == 5 {
        "ebp"@
    } else if n == 6 {
        "esi"@
    } else if n == 7 {
        "edi"@
    } else {
        "r"@ + s_dec(n as nat) + "d"@
    }
}

fn gp32(n: u8) -> (s: String)
    ensures
        s@ == s_gp32(n),
{
    if n == 0 {
        String::from_str("eax")
    } else if n == 1 {
        String::from_str("ecx")
    } else if n == 2 {
        String::from_str("edx")
    } else if n == 3 {
        String::from_str("ebx")
    } else if n == 4 {
        String::from_str("esp")
    } else if n == 5 {
        String::from_str("ebp")
    } else if n == 6 {
        String::from_str("esi")
    } else if n == 7 {
        String::from_str("edi")
    } else {
        let mut s = String::from_str("r");
        let t = dec_u64(n as u64);
        s.append(t.as_str());
        s.append("d");
        s
    }
}

/// The canonical 16-bit general-purpose register name.
pub open spec fn s_gp16(n: u8) -> Seq<char> {
    if n == 0 {
        "ax"@
    } else if n == 1 {
        "cx"@
    } else if n == 2 {
        "dx"@
    } else if n == 3 {
        "bx"@
    } else if n == 4 {
        "sp"@
    } else if n == 5 {
        "bp"@
    } else if n == 6 {
        "si"@
    } else if n == 7 {
        "di"@
    } else {
        "r"@ + s_dec(n as nat) + "w"@
    }
}

fn gp16(n: u8) -> (s: String)
    ensures
        s@ == s_gp16(n),
{
    if n == 0 {
        String::from_str("ax")
    } else if n == 1 {
        String::from_str("cx")
    } else if n == 2 {
        String::from_str("dx")
    } else if n == 3 {
        String::from_str("bx")
    } else if n == 4 {
        String::from_str("sp")
    } else if n == 5 {
        String::from_str("bp")
    } else if n == 6 {
        String::from_str("si")
    } else if n == 7 {
        String::from_str("di")
    } else {
        let mut s = String::from_str("r");
        let t = dec_u64(n as u64);
        s.append(t.as_str());
        s.append("w");
        s
    }
}

/// The legacy 8-bit register name (numbers 4 to 7 are the high-byte
/// aliases, used when no REX prefix is in effect).
pub open spec fn s_gp8l(n: u8) -> Seq<char> {
    if n == 0 {
        "al"@
    } else if n == 1 {
        "cl"@
    } else if n == 2 {
        "dl"@
    } else if n == 3 {
        "bl"@
    } else if n == 4 {
        "ah"@
    } else if n == 5 {
        "ch"@
    } else if n == 6 {
        "dh"@
    } else {
        "bh"@
    }
}

fn gp8l(n: u8) -> (s: String)
    ensures
        s@ == s_gp8l(n),
{
    if n == 0 {
        String::from_str("al")
    } else if n == 1 {
        String::from_str("cl")
    } else if n == 2 {
        String::from_str("dl")
    } else if n == 3 {
        String::from_str("bl")
    } else if n == 4 {
        String::from_str("ah")
    } else if n == 5 {
        String::from_str("ch")
    } else if n == 6 {
        String::from_str("dh")
    } else {
        String::from_str("bh")
    }
}

/// The 8-bit register name under a REX prefix (numbers 4 to 7 are the
/// low-byte aliases spl/bpl/sil/dil).
pub open spec fn s_gp8r(n: u8) -> Seq<char> {
    if n == 0 {
        "al"@
    } else if n == 1 {
        "cl"@
    } else if n == 2 {
        "dl"@
    } else if n == 3 {
        "bl"@
    } else if n == 4 {
        "spl"@
    } else if n == 5 {
        "bpl"@
    } else if n == 6 {
        "sil"@
    } else if n == 7 {
        "dil"@
    } else {
        "r"@ + s_dec(n as nat) + "b"@
    }
}

fn gp8r(n: u8) -> (s: String)
    ensures
        s@ == s_gp8r(n),
{
    if n == 0 {
        String::from_str("al")
    } else if n == 1 {
        String::from_str("cl")
    } else if n == 2 {
        String::from_str("dl")
    } else if n == 3 {
        String::from_str("bl")
    } else if n == 4 {
        String::from_str("spl")
    } else if n == 5 {
        String::from_str("bpl")
    } else if n == 6 {
        String::from_str("sil")
    } else if n == 7 {
        String::from_str("dil")
    } else {
        let mut s = String::from_str("r");
        let t = dec_u64(n as u64);
        s.append(t.as_str());
        s.append("b");
        s
    }
}

/// The segment register name.
pub open spec fn s_segname(g: Seg) -> Seq<char> {
    match g {
        Seg::Cs => "cs"@,
        Seg::Ss => "ss"@,
        Seg::Ds => "ds"@,
        Seg::Es => "es"@,
        Seg::Fs => "fs"@,
        Seg::Gs => "gs"@,
    }
}

fn segname(g: Seg) -> (r: &'static str)
    ensures
        r@ == s_segname(g),
{
    match g {
        Seg::Cs => "cs",
        Seg::Ss => "ss",
        Seg::Ds => "ds",
        Seg::Es => "es",
        Seg::Fs => "fs",
        Seg::Gs => "gs",
    }
}

/// The segment-register-operand name selected by a register number in
/// hardware order.
pub open spec fn s_segnum(n: u8) -> Seq<char> {
    if n == 0 {
        "es"@
    } else if n == 1 {
        "cs"@
    } else if n == 2 {
        "ss"@
    } else if n == 3 {
        "ds"@
    } else if n == 4 {
        "fs"@
    } else {
        "gs"@
    }
}

fn segnum(n: u8) -> (r: &'static str)
    ensures
        r@ == s_segnum(n),
{
    if n == 0 {
        "es"
    } else if n == 1 {
        "cs"
    } else if n == 2 {
        "ss"
    } else if n == 3 {
        "ds"
    } else if n == 4 {
        "fs"
    } else {
        "gs"
    }
}

/// The canonical name of any register.
pub open spec fn s_regname(r: Reg) -> Seq<char> {
    match r.class {
        RegClass::ByteLegacy => s_gp8l(r.num),
        RegClass::ByteRex => s_gp8r(r.num),
        RegClass::Word => s_gp16(r.num),
        RegClass::Dword => s_gp32(r.num),
        RegClass::Qword => s_gp64(r.num),
        RegClass::Mmx => "mm"@ + s_dec(r.num as nat),
        RegClass::Xmm => "xmm"@ + s_dec(r.num as nat),
        RegClass::Ymm => "ymm"@ + s_dec(r.num as nat),
        RegClass::Zmm => "zmm"@ + s_dec(r.num as nat),
        RegClass::SegReg => s_segnum(r.num),
        RegClass::Ctrl => "cr"@ + s_dec(r.num as nat),
        RegClass::Dbg => "dr"@ + s_dec(r.num as nat),
    }
}

fn regname(r: Reg) -> (s: String)
    ensures
        s@ == s_regname(r),
{
    match r.class {
        RegClass::ByteLegacy => gp8l(r.num),
        RegClass::ByteRex => gp8r(r.num),
        RegClass::Word => gp16(r.num),
        RegClass::Dword => gp32(r.num),
        RegClass::Qword => gp64(r.num),
        RegClass::Mmx => {
            let mut s = String::from_str("mm");
            let t = dec_u64(r.num as u64);
            s.append(t.as_str());
            s
        },
        RegClass::Xmm => {
            let mut s = String::from_str("xmm");
            let t = dec_u64(r.num as u64);
            s.append(t.as_str());
            s
        },
        RegClass::Ymm => {
            let mut s = String::from_str("ymm");
            let t = dec_u64(r.num as u64);
            s.append(t.as_str());
            s
        },
        RegClass::Zmm => {
            let mut s = String::from_str("zmm");
            let t = dec_u64(r.num as u64);
            s.append(t.as_str());
            s
        },
        RegClass::SegReg => String::from_str(segnum(r.num)),
        RegClass::Ctrl => {
            let mut s = String::from_str("cr");
            let t = dec_u64(r.num as u64);
            s.append(t.as_str());
            s
        },
        RegClass::Dbg => {
            let mut s = String::from_str("dr");
            let t = dec_u64(r.num as u64);
            s.append(t.as_str());
            s
        },
    }
}

/// The size keyword, with its trailing space, or nothing.
pub open spec fn s_hintstr(h: SizeHint) -> Seq<char> {
    match h {
        SizeHint::NoHint => s_empty(),
        SizeHint::Byte => "byte "@,
        SizeHint::Word => "word "@,
        SizeHint::Dword => "dword "@,
        SizeHint::Qword => "qword "@,
        SizeHint::Xmmword => "xmmword "@,
        SizeHint::Ymmword => "ymmword "@,
        SizeHint::Zmmword => "zmmword "@,
    }
}

fn hintstr(h: SizeHint) -> (s: String)
    ensures
        s@ == s_hintstr(h),
{
    match h {
        SizeHint::NoHint => empty_string(),
        SizeHint::Byte => String::from_str("byte "),
        SizeHint::Word => String::from_str("word "),
        SizeHint::Dword => String::from_str("dword "),
        SizeHint::Qword => String::from_str("qword "),
        SizeHint::Xmmword => String::from_str("xmmword "),
        SizeHint::Ymmword => String::from_str("ymmword "),
        SizeHint::Zmmword => String::from_str("zmmword "),
    }
}

/// The displacement tail inside a bracketed operand: nothing for zero,
/// else ` + 0x..` or ` - 0x..`.
pub open spec fn s_dispstr(d: i64) -> Seq<char> {
    if d == 0 {
        s_empty()
    } else if d > 0 {
        " + 0x"@ + s_hex(d as nat)
    } else {
        " - 0x"@ + s_hex((0 - d as int) as nat)
    }
}

fn dispstr(d: i64) -> (s: String)
    ensures
        s@ == s_dispstr(d),
{
    if d == 0 {
        empty_string()
    } else if d > 0 {
        let mut s = String::from_str(" + 0x");
        let t = hex_u64(d as u64);
        s.append(t.as_str());
        s
    } else {
        let mag: u64 = ((0 - (d + 1)) as u64) + 1;
        let mut s = String::from_str(" - 0x");
        let t = hex_u64(mag);
        s.append(t.as_str());
        s
    }
}

/// The scale tail after an index register: nothing for scale 1, else
/// `*n` in the tight EVEX style or ` * n` otherwise.
pub open spec fn s_scalestr(sc: u8, tight: bool) -> Seq<char> {
    if sc == 1 {
        s_empty()
    } else if tight {
        "*"@ + s_dec(sc as nat)
    } else {
        " * "@ + s_dec(sc as nat)
    }
}

fn scalestr(sc: u8, tight: bool) -> (s: String)
    ensures
        s@ == s_scalestr(sc, tight),
{
    if sc == 1 {
        empty_string()
    } else if tight {
        let mut s = String::from_str("*");
        let t = dec_u64(sc as u64);
        s.append(t.as_str());
        s
    } else {
        let mut s = String::from_str(" * ");
        let t = dec_u64(sc as u64);
        s.append(t.as_str());
        s
    }
}

/// The address expression between the brackets.
pub open spec fn s_inner(m: MemOp) -> Seq<char> {
    if m.rip {
        "rip"@ + s_dispstr(m.disp)
    } else {
        match (m.base, m.index) {
            (Option::Some(bb), Option::Some(ix)) => s_regname(bb) + " + "@ + s_regname(ix)
                + s_scalestr(m.scale, m.tight_scale) + s_dispstr(m.disp),
            (Option::Some(bb), Option::None) => s_regname(bb) + s_dispstr(m.disp),
            (Option::None, Option::Some(ix)) => s_regname(ix) + s_scalestr(m.scale, m.tight_scale)
                + s_dispstr(m.disp),
            (Option::None, Option::None) => s_shex(m.disp),
        }
    }
}

fn inner(m: MemOp) -> (s: String)
    ensures
        s@ == s_inner(m),
{
    if m.rip {
        let mut s = String::from_str("rip");
        let t = dispstr(m.disp);
        s.append(t.as_str());
        s
    } else {
        match (m.base, m.index) {
            (Some(bb), Some(ix)) => {
                let mut s = regname(bb);
                s.append(" + ");
                let t = regname(ix);
                s.append(t.as_str());
                let u = scalestr(m.scale, m.tight_scale);
                s.append(u.as_str());
                let d = dispstr(m.disp);
                s.append(d.as_str());
                s
            },
            (Some(bb), None) => {
                let mut s = regname(bb);
                let d = dispstr(m.disp);
                s.append(d.as_str());
                s
            },
            (None, Some(ix)) => {
                let mut s = regname(ix);
                let u = scalestr(m.scale, m.tight_scale);
                s.append(u.as_str());
                let d = dispstr(m.disp);
                s.append(d.as_str());
                s
            },
            (None, None) => shex(m.disp),
        }
    }
}

/// The whole memory operand: size keyword, segment override, brackets.
pub open spec fn s_memstr(m: MemOp) -> Seq<char> {
    let sg = match m.seg {
        Option::Some(g) => s_segname(g) + ":"@,
        Option::None => s_empty(),
    };
    s_hintstr(m.hint) + sg + "["@ + s_inner(m) + "]"@
}

fn memstr(m: MemOp) -> (s: String)
    ensures
        s@ == s_memstr(m),
{
    let mut s = hintstr(m.hint);
    match m.seg {
        Some(g) => {
            s.append(segname(g));
            s.append(":");
        },
        None => {},
    }
    s.append("[");
    let t = inner(m);
    s.append(t.as_str());
    s.append("]");
    s
}

/// One rendered operand.
pub open spec fn s_opstr(o: Operand) -> Seq<char> {
    match o {
        Operand::Register(r) => s_regname(r),
        Operand::Memory(m) => s_memstr(m),
        Operand::Immediate(im) => s_shex(im.value),
    }
}

fn opstr(o: Operand) -> (s: String)
    ensures
        s@ == s_opstr(o),
{
    match o {
        Operand::Register(r) => regname(r),
        Operand::Memory(m) => memstr(m),
        Operand::Immediate(im) => shex(im.value),
    }
}

/// The lowercase mnemonic of an operation.
pub open spec fn s_mnstr(op: Opcode) -> Seq<char> {
    match op {
        Opcode::Invalid => "invalid"@,
        Opcode::Add => "add"@,
        Opcode::Or => "or"@,
        Opcode::Adc => "adc"@,
        Opcode::Sbb => "sbb"@,
        Opcode::And => "and"@,
        Opcode::Sub => "sub"@,
        Opcode::Xor => "xor"@,
        Opcode::Cmp => "cmp"@,
        Opcode::Test => "test"@,
        Opcode::Imul => "imul"@,
        Opcode::Lea => "lea"@,
        Opcode::Mov => "mov"@,
        Opcode::Movsx => "movsx"@,
        Opcode::Movsxd => "movsxd"@,
        Opcode::Movzx => "movzx"@,
        Opcode::Cmovnb => "cmovnb"@,
        Opcode::Push => "push"@,
        Opcode::Pop => "pop"@,
        Opcode::Ret => "ret"@,
        Opcode::Pushf => "pushf"@,
        Opcode::Cdqe => "cdqe"@,
        Opcode::Cwde => "cwde"@,
        Opcode::CallNear => "call"@,
        Opcode::Jb => "jb"@,
        Opcode::Jnb => "jnb"@,
        Opcode::Jz => "jz"@,
        Opcode::Jna => "jna"@,
        Opcode::Stosd => "stosd"@,
        Opcode::Stosq => "stosq"@,
        Opcode::MovsdStr => "movsd"@,
        Opcode::Movsq => "movsq"@,
        Opcode::Bt => "bt"@,
        Opcode::Bts => "bts"@,
        Opcode::Bsf => "bsf"@,
        Opcode::Tzcnt => "tzcnt"@,
        Opcode::Shld => "shld"@,
        Opcode::Lar => "lar"@,
        Opcode::Lsl => "lsl"@,
        Opcode::Syscall => "syscall"@,
        Opcode::Sysret => "sysret"@,
        Opcode::Wrmsr => "wrmsr"@,
        Opcode::Rdtsc => "rdtsc"@,
        Opcode::Rdmsr => "rdmsr"@,
        Opcode::Rdpmc => "rdpmc"@,
        Opcode::Sysenter => "sysenter"@,
        Opcode::Getsec => "getsec"@,
        Opcode::Cpuid => "cpuid"@,
        Opcode::Nop => "nop"@,
        Opcode::Prefetchnta => "prefetchnta"@,
        Opcode::Prefetch1 => "prefetch1"@,
        Opcode::Prefetch2 => "prefetch2"@,
        Opcode::Movaps => "movaps"@,
        Opcode::Movapd => "movapd"@,
        Opcode::Movups => "movups"@,
        Opcode::Movupd => "movupd"@,
        Opcode::Movss => "movss"@,
        Opcode::MovsdSse => "movsd"@,
        Opcode::Mulps => "mulps"@,
        Opcode::Mulpd => "mulpd"@,
        Opcode::Mulss => "mulss"@,
        Opcode::Mulsd => "mulsd"@,
        Opcode::Pxor => "pxor"@,
        Opcode::Movlps => "movlps"@,
        Opcode::Movhps => "movhps"@,
        Opcode::Movhlps => "movhlps"@,
        Opcode::Movlhps => "movlhps"@,
        Opcode::Movshdup => "movshdup"@,
        Opcode::Unpcklps => "unpcklps"@,
        Opcode::Unpckhps => "unpckhps"@,
        Opcode::Movd => "movd"@,
        Opcode::Pshufw => "pshufw"@,
        Opcode::Psrlw => "psrlw"@,
        Opcode::Psraw => "psraw"@,
        Opcode::Psllw => "psllw"@,
        Opcode::Psrld => "psrld"@,
        Opcode::Psrad => "psrad"@,
        Opcode::Pslld => "pslld"@,
        Opcode::Punpcklbw => "punpcklbw"@,
        Opcode::Punpcklwd => "punpcklwd"@,
        Opcode::Punpckldq => "punpckldq"@,
        Opcode::Packsswb => "packsswb"@,
        Opcode::Pcmpgtb => "pcmpgtb"@,
        Opcode::Pcmpgtw => "pcmpgtw"@,
        Opcode::Pcmpgtd => "pcmpgtd"@,
        Opcode::Packuswb => "packuswb"@,
        Opcode::Punpckhbw => "punpckhbw"@,
        Opcode::Punpckhbd => "punpckhbd"@,
        Opcode::Punpckhdq => "punpckhdq"@,
        Opcode::Packssdw => "packssdw"@,
        Opcode::Vmovntdqa => "vmovntdqa"@,
    }
}

fn mnstr(op: Opcode) -> (r: &'static str)
    ensures
        r@ == s_mnstr(op),
{
    match op {
        Opcode::Invalid => "invalid",
        Opcode::Add => "add",
        Opcode::Or => "or",
        Opcode::Adc => "adc",
        Opcode::Sbb => "sbb",
        Opcode::And => "and",
        Opcode::Sub => "sub",
        Opcode::Xor => "xor",
        Opcode::Cmp => "cmp",
        Opcode::Test => "test",
        Opcode::Imul => "imul",
        Opcode::Lea => "lea",
        Opcode::Mov => "mov",
        Opcode::Movsx => "movsx",
        Opcode::Movsxd => "movsxd",
        Opcode::Movzx => "movzx",
        Opcode::Cmovnb => "cmovnb",
        Opcode::Push => "push",
        Opcode::Pop => "pop",
        Opcode::Ret => "ret",
        Opcode::Pushf => "pushf",
        Opcode::Cdqe => "cdqe",
        Opcode::Cwde => "cwde",
        Opcode::CallNear => "call",
        Opcode::Jb => "jb",
        Opcode::Jnb => "jnb",
        Opcode::Jz => "jz",
        Opcode::Jna => "jna",
        Opcode::Stosd => "stosd",
        Opcode::Stosq => "stosq",
        Opcode::MovsdStr => "movsd",
        Opcode::Movsq => "movsq",
        Opcode::Bt => "bt",
        Opcode::Bts => "bts",
        Opcode::Bsf => "bsf",
        Opcode::Tzcnt => "tzcnt",
        Opcode::Shld => "shld",
        Opcode::Lar => "lar",
        Opcode::Lsl => "lsl",
        Opcode::Syscall => "syscall",
        Opcode::Sysret => "sysret",
        Opcode::Wrmsr => "wrmsr",
        Opcode::Rdtsc => "rdtsc",
        Opcode::Rdmsr => "rdmsr",
        Opcode::Rdpmc => "rdpmc",
        Opcode::Sysenter => "sysenter",
        Opcode::Getsec => "getsec",
        Opcode::Cpuid => "cpuid",
        Opcode::Nop => "nop",
        Opcode::Prefetchnta => "prefetchnta",
        Opcode::Prefetch1 => "prefetch1",
        Opcode::Prefetch2 => "prefetch2",
        Opcode::Movaps => "movaps",
        Opcode::Movapd => "movapd",
        Opcode::Movups => "movups",
        Opcode::Movupd => "movupd",
        Opcode::Movss => "movss",
        Opcode::MovsdSse => "movsd",
        Opcode::Mulps => "mulps",
        Opcode::Mulpd => "mulpd",
        Opcode::Mulss => "mulss",
        Opcode::Mulsd => "mulsd",
        Opcode::Pxor => "pxor",
        Opcode::Movlps => "movlps",
        Opcode::Movhps => "movhps",
        Opcode::Movhlps => "movhlps",
        Opcode::Movlhps => "movlhps",
        Opcode::Movshdup => "movshdup",
        Opcode::Unpcklps => "unpcklps",
        Opcode::Unpckhps => "unpckhps",
        Opcode::Movd => "movd",
        Opcode::Pshufw => "pshufw",
        Opcode::Psrlw => "psrlw",
        Opcode::Psraw => "psraw",
        Opcode::Psllw => "psllw",
        Opcode::Psrld => "psrld",
        Opcode::Psrad => "psrad",
        Opcode::Pslld => "pslld",
        Opcode::Punpcklbw => "punpcklbw",
        Opcode::Punpcklwd => "punpcklwd",
        Opcode::Punpckldq => "punpckldq",
        Opcode::Packsswb => "packsswb",
        Opcode::Pcmpgtb => "pcmpgtb",
        Opcode::Pcmpgtw => "pcmpgtw",
        Opcode::Pcmpgtd => "pcmpgtd",
        Opcode::Packuswb => "packuswb",
        Opcode::Punpckhbw => "punpckhbw",
        Opcode::Punpckhbd => "punpckhbd",
        Opcode::Punpckhdq => "punpckhdq",
        Opcode::Packssdw => "packssdw",
        Opcode::Vmovntdqa => "vmovntdqa",
    }
}

/// Whether an operation is one of the string operations, which render a
/// retained repeat prefix as a leading `rep`.
pub open spec fn s_is_string_op(op: Opcode) -> bool {
    op == Opcode::Stosd || op == Opcode::Stosq || op == Opcode::MovsdStr || op == Opcode::Movsq
}

fn is_string_op(op: Opcode) -> (r: bool)
    ensures
        r == s_is_string_op(op),
{
    match op {
        Opcode::Stosd => true,
        Opcode::Stosq => true,
        Opcode::MovsdStr => true,
        Opcode::Movsq => true,
        _ => false,
    }
}

/// The complete canonical text of an instruction: the mnemonic (with a
/// `rep` prefix on repeat-prefixed string operations), then the operands
/// separated by `, `, destination first. An `Invalid` operation renders
/// as the bare word `invalid`.
pub open spec fn s_render(i: Instruction) -> Seq<char> {
    if i.op == Opcode::Invalid {
        "invalid"@
    } else {
        let base = if i.prefixes.rep == Rep::RepZ && s_is_string_op(i.op) {
            "rep "@ + s_mnstr(i.op)
        } else {
            s_mnstr(i.op)
        };
        match i.operands {
            Operands::Zero => base,
            Operands::One(a) => base + " "@ + s_opstr(a),
            Operands::Two(a, bb) => base + " "@ + s_opstr(a) + ", "@ + s_opstr(bb),
            Operands::Three(a, bb, c) => base + " "@ + s_opstr(a) + ", "@ + s_opstr(bb) + ", "@
                + s_opstr(c),
        }
    }
}

/// Renders a decoded instruction as canonical assembly text; the result
/// is exactly the spec-level rendering, a total function of the
/// instruction value alone.
pub fn render(i: &Instruction) -> (s: String)
    ensures
        s@ == s_render(*i),
{
    if i.op == Opcode::Invalid {
        String::from_str("invalid")
    } else {
        let mut s = if i.prefixes.rep == Rep::RepZ && is_string_op(i.op) {
            let mut t = String::from_str("rep ");
            t.append(mnstr(i.op));
            t
        } else {
            String::from_str(mnstr(i.op))
        };
        match i.operands {
            Operands::Zero => {},
            Operands::One(a) => {
                s.append(" ");
                let t = opstr(a);
                s.append(t.as_str());
            },
            Operands::Two(a, bb) => {
                s.append(" ");
                let t = opstr(a);
                s.append(t.as_str());
                s.append(", ");
                let u = opstr(bb);
                s.append(u.as_str());
            },
            Operands::Three(a, bb, c) => {
                s.append(" ");
                let t = opstr(a);
                s.append(t.as_str());
                s.append(", ");
                let u = opstr(bb);
                s.append(u.as_str());
                s.append(", ");
                let v = opstr(c);
                s.append(v.as_str());
            },
        }
        s
    }
}

} // verus!
