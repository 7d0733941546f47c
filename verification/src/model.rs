//! The structured instruction model: registers, operands, prefixes, and the
//! decoded instruction itself, together with the two failure kinds a decode
//! can report.

use vstd::prelude::*;

verus! {

/// A segment register, used both as an operand and as a memory-operand
/// segment override.
#[derive(Clone, Copy, PartialEq, Eq, Structural, Debug)]
pub enum Seg {
    Cs,
    Ss,
    Ds,
    Es,
    Fs,
    Gs,
}

/// The repeat-prefix state: none, `f3` (rep), or `f2` (repnz). A later
/// repeat prefix replaces an earlier one.
#[derive(Clone, Copy, PartialEq, Eq, Structural, Debug)]
pub enum Rep {
    NoRep,
    RepZ,
    RepNz,
}

/// The legacy-prefix record accumulated in front of an opcode and retained
/// on the decoded instruction.
#[derive(Clone, Copy, PartialEq, Eq, Structural, Debug)]
pub struct Prefixes {
    pub lock: bool,
    pub rep: Rep,
    pub seg: Option<Seg>,
    pub opsize: bool,
    pub addrsize: bool,
}

/// A register class; the class together with the register number fixes the
/// canonical register name.
#[derive(Clone, Copy, PartialEq, Eq, Structural, Debug)]
pub enum RegClass {
    /// 8-bit, legacy numbering: numbers 4 to 7 are the high-byte registers.
    ByteLegacy,
    /// 8-bit under a REX prefix: numbers 4 to 7 are spl/bpl/sil/dil.
    ByteRex,
    Word,
    Dword,
    Qword,
    Mmx,
    Xmm,
    Ymm,
    Zmm,
    SegReg,
    Ctrl,
    Dbg,
}

/// A concrete register: class plus register number.
#[derive(Clone, Copy, PartialEq, Eq, Structural, Debug)]
pub struct Reg {
    pub class: RegClass,
    pub num: u8,
}

/// The size keyword the formatter prints in front of a memory operand, when
/// the operand width is not implied by a paired register operand.
#[derive(Clone, Copy, PartialEq, Eq, Structural, Debug)]
pub enum SizeHint {
    NoHint,
    Byte,
    Word,
    Dword,
    Qword,
    Xmmword,
    Ymmword,
    Zmmword,
}

/// A memory operand: optional segment override, optional base, optional
/// scaled index, signed displacement, and formatting data. `rip` marks a
/// RIP-relative address; `tight_scale` selects the spacing-free
/// `index*scale` form used for EVEX-encoded operands.
#[derive(Clone, Copy, PartialEq, Eq, Structural, Debug)]
pub struct MemOp {
    pub seg: Option<Seg>,
    pub base: Option<Reg>,
    pub index: Option<Reg>,
    pub scale: u8,
    pub disp: i64,
    pub rip: bool,
    pub hint: SizeHint,
    pub tight_scale: bool,
}

/// An immediate: the sign-resolved value together with the encoded width in
/// bits.
#[derive(Clone, Copy, PartialEq, Eq, Structural, Debug)]
pub struct Imm {
    pub value: i64,
    pub width: u8,
}

/// One instruction operand.
#[derive(Clone, Copy, PartialEq, Eq, Structural, Debug)]
pub enum Operand {
    Register(Reg),
    Memory(MemOp),
    Immediate(Imm),
}

/// The ordered operand list, destination first, as encoded.
#[derive(Clone, Copy, PartialEq, Eq, Structural, Debug)]
pub enum Operands {
    Zero,
    One(Operand),
    Two(Operand, Operand),
    Three(Operand, Operand, Operand),
}

/// The operation performed by an instruction. `Invalid` marks an encoding
/// with no table entry; it decodes successfully and renders as `invalid`.
#[derive(Clone, Copy, PartialEq, Eq, Structural, Debug)]
pub enum Opcode {
    Invalid,
    Add,
    Or,
    Adc,
    Sbb,
    And,
    Sub,
    Xor,
    Cmp,
    Test,
    Imul,
    Lea,
    Mov,
    Movsx,
    Movsxd,
    Movzx,
    Cmovnb,
    Push,
    Pop,
    Ret,
    Pushf,
    Cdqe,
    Cwde,
    CallNear,
    Jb,
    Jnb,
    Jz,
    Jna,
    Stosd,
    Stosq,
    MovsdStr,
    Movsq,
    Bt,
    Bts,
    Bsf,
    Tzcnt,
    Shld,
    Lar,
    Lsl,
    Syscall,
    Sysret,
    Wrmsr,
    Rdtsc,
    Rdmsr,
    Rdpmc,
    Sysenter,
    Getsec,
    Cpuid,
    Nop,
    Prefetchnta,
    Prefetch1,
    Prefetch2,
    Movaps,
    Movapd,
    Movups,
    Movupd,
    Movss,
    MovsdSse,
    Mulps,
    Mulpd,
    Mulss,
    Mulsd,
    Pxor,
    Movlps,
    Movhps,
    Movhlps,
    Movlhps,
    Movshdup,
    Unpcklps,
    Unpckhps,
    Movd,
    Pshufw,
    Psrlw,
    Psraw,
    Psllw,
    Psrld,
    Psrad,
    Pslld,
    Punpcklbw,
    Punpcklwd,
    Punpckldq,
    Packsswb,
    Pcmpgtb,
    Pcmpgtw,
    Pcmpgtd,
    Packuswb,
    Punpckhbw,
    Punpckhbd,
    Punpckhdq,
    Packssdw,
    Vmovntdqa,
}

/// A fully decoded instruction: the operation, the ordered operands, the
/// retained prefix record, and the total number of bytes consumed.
#[derive(Clone, Copy, PartialEq, Eq, Structural, Debug)]
pub struct Instruction {
    pub op: Opcode,
    pub operands: Operands,
    pub prefixes: Prefixes,
    pub length: u8,
}

/// A decode failure. `Truncated` means the selected encoding path needs
/// more bytes than are available; `Unsupported` marks the VEX-prefixed
/// forms, which this decoder never attempts.
#[derive(Clone, Copy, PartialEq, Eq, Structural, Debug)]
pub enum DecodeError {
    Truncated,
    Unsupported,
}

} // verus!
