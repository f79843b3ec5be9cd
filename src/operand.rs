use vstd::prelude::*;

verus! {

/// An 8-bit register.
#[derive(Clone, Copy, Debug, PartialEq, Eq, Structural)]
pub enum Reg8 {
    A,
    B,
    C,
    D,
    E,
    F,
    H,
    L,
}

/// A 16-bit register: one of the fused pairs, or the stack pointer.
#[derive(Clone, Copy, Debug, PartialEq, Eq, Structural)]
pub enum Reg16 {
    AF,
    BC,
    DE,
    HL,
    SP,
}

/// The byte that the program counter points to.
#[derive(Clone, Copy, Debug, PartialEq, Eq, Structural)]
pub struct Imm8;

/// The little-endian word that the program counter points to.
#[derive(Clone, Copy, Debug, PartialEq, Eq, Structural)]
pub struct Imm16;

/// Memory addressed through a register: a pair, HL with post-decrement or
/// post-increment, or the high page `0xFF00 | C`.
#[derive(Clone, Copy, Debug, PartialEq, Eq, Structural)]
pub enum Indirect {
    BC,
    DE,
    HL,
    CFF,
    HLD,
    HLI,
}

/// Memory addressed by the instruction stream: a full 16-bit address, or an
/// 8-bit offset into the high page `0xFF00`.
#[derive(Clone, Copy, Debug, PartialEq, Eq, Structural)]
pub enum Direct8 {
    D,
    DFF,
}

/// A 16-bit address taken from the instruction stream, written as a word.
#[derive(Clone, Copy, Debug, PartialEq, Eq, Structural)]
pub struct Direct16;

/// Condition codes of the conditional instructions.
#[derive(Clone, Copy, Debug, PartialEq, Eq, Structural)]
pub enum Cond {
    NZ,
    Z,
    NC,
    C,
}

/// Where an 8-bit instruction reads its value from or writes it to.
#[derive(Clone, Copy, Debug, PartialEq, Eq, Structural)]
pub enum Operand8 {
    Reg(Reg8),
    Imm(Imm8),
    Ind(Indirect),
    Dir(Direct8),
}

/// Where a 16-bit instruction reads its value from or writes it to.
#[derive(Clone, Copy, Debug, PartialEq, Eq, Structural)]
pub enum Operand16 {
    Reg(Reg16),
    Imm(Imm16),
    Dir(Direct16),
}

/// Operands that a value can be stored into: everything but the immediate
/// forms.
pub open spec fn writable8(o: Operand8) -> bool {
    !(o is Imm)
}

/// 16-bit operands that can be read: registers and the immediate word.
pub open spec fn readable16(o: Operand16) -> bool {
    !(o is Dir)
}

/// 16-bit operands that can be written: registers and a direct address.
pub open spec fn writable16(o: Operand16) -> bool {
    !(o is Imm)
}

} // verus!
