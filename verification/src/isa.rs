//! Instruction formats, addressing modes, machine status, faults, and the
//! decoder that classifies a raw 16-bit code word and extracts its fields.

use vstd::prelude::*;

verus! {

/// The broad instruction shape: jump (`NoArg`), one-operand, two-operand,
/// or the synthesized trap format taken at the fixed trap address.
#[derive(Clone, Copy, Debug, PartialEq, Eq, Structural)]
pub enum OpType {
    /// Conditional or unconditional jump with an embedded offset.
    NoArg,
    /// Single-operand instruction.
    OneArg,
    /// Double-operand instruction.
    TwoArg,
    /// Trap pseudo-format, synthesized when the program counter reaches the
    /// trap address.
    Interrupt,
}

/// A resolved addressing mode. `Indexed` and `Absolute` carry the extra word
/// fetched from the instruction stream at resolution time; `Const` carries a
/// synthesized value and touches no memory.
#[derive(Clone, Copy, Debug, PartialEq, Eq, Structural)]
pub enum AddressingMode {
    /// The register itself.
    Direct,
    /// Memory at register + carried offset.
    Indexed(u16),
    /// Memory at the address held in the register.
    Indirect,
    /// As `Indirect`, and the register advances by 2 when read.
    IndirectInc,
    /// Memory at the carried absolute address.
    Absolute(u16),
    /// The carried value itself.
    Const(u16),
}

/// The machine status driven by execution and the trap controller.
#[derive(Clone, Copy, Debug, PartialEq, Eq, Structural)]
pub enum Status {
    /// Executing normally.
    Normal,
    /// The CPU-off status bit was set; terminal.
    Off,
    /// The success trap was reached; terminal.
    Success,
    /// The input-request trap was reached; carries the memory address the
    /// host-provided bytes go to and the maximum byte count. Cleared only by
    /// supplying input.
    GetInput(u16, u16),
}

/// An architectural operation that the simulator deliberately leaves
/// unimplemented.
#[derive(Clone, Copy, Debug, PartialEq, Eq, Structural)]
pub enum UnimplOp {
    /// Arithmetic right shift.
    Rra,
    /// Return from interrupt.
    Reti,
    /// Binary-coded-decimal add.
    Dadd,
}

/// A fault that aborts the current step.
#[derive(Clone, Copy, Debug, PartialEq, Eq, Structural)]
pub enum Fault {
    /// Architecturally undefined register/mode combination, or a writeback
    /// through a synthesized constant.
    InvalidAddressingMode,
    /// Opcode undefined for its format.
    InvalidOpcode,
    /// A deliberately unimplemented operation was reached.
    NotImplemented(UnimplOp),
    /// A store was blocked by page protection.
    MemoryProtectionViolation,
}

/// A decoded instruction. The addressing modes carry their extra-word payload
/// only once the resolver has run against the current machine state; straight
/// out of the decoder they name the generic mode of the raw 2-bit code with a
/// zero placeholder payload.
#[derive(Clone, Copy, Debug, PartialEq, Eq, Structural)]
pub struct Instruction {
    /// Address the instruction word was fetched from.
    pub memloc: u16,
    /// The raw code word.
    pub code: u16,
    /// Instruction format.
    pub optype: OpType,
    /// Opcode within the format.
    pub opcode: u8,
    /// Jump displacement, already sign-extended and doubled.
    pub offset: u16,
    /// Byte/word flag: true for byte-wide operands.
    pub bw: bool,
    /// Source register number.
    pub srcreg: u8,
    /// Destination register number.
    pub destreg: u8,
    /// Source addressing mode.
    pub srcmode: AddressingMode,
    /// Destination addressing mode.
    pub destmode: AddressingMode,
}

/// Address whose execution is intercepted as a trap.
pub const TRAP_ADDR: u16 = 0x10;

/// Code word of the synthesized trap instruction: a two-operand move that
/// pops the word at the stack pointer into the program counter.
pub const TRAP_CODE: u16 = 0x4130;

/// The format selected by a code word fetched at `pc`: the trap pseudo-format
/// at the trap address, else by the top three bits (0 one-operand, 1 jump,
/// 2 or more two-operand).
pub open spec fn optype_spec(code: u16, pc: u16) -> OpType {
    if pc == TRAP_ADDR {
        OpType::Interrupt
    } else if code >> 13 == 0 {
        OpType::OneArg
    } else if code >> 13 == 1 {
        OpType::NoArg
    } else {
        OpType::TwoArg
    }
}

/// The generic addressing mode named by a raw 2-bit mode code, before the
/// register-dependent special cases, with a zero placeholder payload.
pub open spec fn mode_from_code(c: u8) -> AddressingMode {
    if c == 0 {
        AddressingMode::Direct
    } else if c == 1 {
        AddressingMode::Indexed(0)
    } else if c == 2 {
        AddressingMode::Indirect
    } else {
        AddressingMode::IndirectInc
    }
}

/// Source addressing-mode code of a two-operand (or trap) code word.
pub open spec fn src_code(code: u16) -> u8 {
    ((code & 0x30) >> 4) as u8
}

/// Destination addressing-mode code of a two-operand (or trap) code word.
pub open spec fn dest_code(code: u16) -> u8 {
    ((code & 0x80) >> 7) as u8
}

/// Jump displacement: the low ten bits sign-extended and doubled, as a
/// wrapping 16-bit amount.
pub open spec fn jump_offset_spec(code: u16) -> u16 {
    let low = code & 0x3ff;
    let sx = if low & 0x200 != 0 {
        low | 0xfc00
    } else {
        low
    };
    sx.wrapping_mul(2)
}

/// Field extraction of a two-operand code word; `ot` distinguishes the trap
/// pseudo-format, which reuses the two-operand fields.
pub open spec fn twoarg_fields(code: u16, ot: OpType) -> Instruction {
    Instruction {
        memloc: 0,
        code: code,
        optype: ot,
        opcode: ((code & 0xf000) >> 12) as u8,
        offset: 0,
        bw: (code & 0x40) >> 6 != 0,
        srcreg: ((code & 0xf00) >> 8) as u8,
        destreg: (code & 0xf) as u8,
        srcmode: mode_from_code(src_code(code)),
        destmode: mode_from_code(dest_code(code)),
    }
}

/// Field extraction of a one-operand code word.
pub open spec fn onearg_fields(code: u16) -> Instruction {
    Instruction {
        memloc: 0,
        code: code,
        optype: OpType::OneArg,
        opcode: ((code & 0x380) >> 7) as u8,
        offset: 0,
        bw: (code & 0x40) >> 6 != 0,
        srcreg: 0,
        destreg: (code & 0xf) as u8,
        srcmode: AddressingMode::Direct,
        destmode: mode_from_code(src_code(code)),
    }
}

/// Field extraction of a jump code word.
pub open spec fn noarg_fields(code: u16) -> Instruction {
    Instruction {
        memloc: 0,
        code: code,
        optype: OpType::NoArg,
        opcode: ((code & 0x1c00) >> 10) as u8,
        offset: jump_offset_spec(code),
        bw: false,
        srcreg: 0,
        destreg: 0,
        srcmode: AddressingMode::Direct,
        destmode: AddressingMode::Direct,
    }
}

/// The instruction decoded from `code` fetched at `pc`: a function of the
/// code word and the program counter alone. At the trap address the code
/// word is discarded and the fixed trap move is synthesized.
pub open spec fn decode_spec(code: u16, pc: u16) -> Instruction {
    match optype_spec(code, pc) {
        OpType::Interrupt => twoarg_fields(TRAP_CODE, OpType::Interrupt),
        OpType::OneArg => onearg_fields(code),
        OpType::NoArg => noarg_fields(code),
        OpType::TwoArg => twoarg_fields(code, OpType::TwoArg),
    }
}

/// Register fields of a decoded instruction always fit the 16-register file,
/// and the per-format opcode fields fit their bit widths.
pub proof fn lemma_decode_bounds(code: u16)
    by (bit_vector)
    ensures
        (code & 0xf) < 16,
        ((code & 0xf00) >> 8) < 16,
        ((code & 0xf000) >> 12) < 16,
        ((code & 0x380) >> 7) < 8,
        ((code & 0x1c00) >> 10) < 8,
        ((code & 0x30) >> 4) < 4,
        ((code & 0x80) >> 7) < 2,
        code >> 13 >= 2 ==> ((code & 0xf000) >> 12) >= 4,
{
}

impl Instruction {
    /// The placeholder instruction: format `NoArg`, all fields zero.
    pub fn new() -> (i: Instruction)
        ensures
            i == Instruction::default_spec(),
    {
        Instruction {
            memloc: 0,
            code: 0,
            optype: OpType::NoArg,
            opcode: 0,
            offset: 0,
            bw: false,
            srcreg: 0,
            destreg: 0,
            srcmode: AddressingMode::Direct,
            destmode: AddressingMode::Direct,
        }
    }

    /// The placeholder instruction value.
    pub open spec fn default_spec() -> Instruction {
        Instruction {
            memloc: 0,
            code: 0,
            optype: OpType::NoArg,
            opcode: 0,
            offset: 0,
            bw: false,
            srcreg: 0,
            destreg: 0,
            srcmode: AddressingMode::Direct,
            destmode: AddressingMode::Direct,
        }
    }
}

/// The format of a code word fetched at `pc`.
pub fn get_optype(code: u16, pc: u16) -> (t: OpType)
    ensures
        t == optype_spec(code, pc),
{
    if pc == TRAP_ADDR {
        OpType::Interrupt
    } else {
        let top = code >> 13;
        if top == 0 {
            OpType::OneArg
        } else if top == 1 {
            OpType::NoArg
        } else {
            OpType::TwoArg
        }
    }
}

/// Extract the fields of a two-operand code word.
pub fn twoarg_split(code: u16) -> (i: Instruction)
    ensures
        i == twoarg_fields(code, OpType::TwoArg),
{
    let mut inst = Instruction::new();
    inst.code = code;
    inst.optype = OpType::TwoArg;
    inst.srcreg = ((code & 0xf00) >> 8) as u8;
    inst.destreg = (code & 0xf) as u8;
    inst.bw = (code & 0x40) >> 6 != 0;
    inst.opcode = ((code & 0xf000) >> 12) as u8;
    inst.srcmode = mode_code_to_mode(((code & 0x30) >> 4) as u8);
    inst.destmode = mode_code_to_mode(((code & 0x80) >> 7) as u8);
    inst
}

/// Extract the fields of a one-operand code word.
pub fn onearg_split(code: u16) -> (i: Instruction)
    ensures
        i == onearg_fields(code),
{
    let mut inst = Instruction::new();
    inst.code = code;
    inst.optype = OpType::OneArg;
    inst.destreg = (code & 0xf) as u8;
    inst.bw = (code & 0x40) >> 6 != 0;
    inst.opcode = ((code & 0x380) >> 7) as u8;
    inst.destmode = mode_code_to_mode(((code & 0x30) >> 4) as u8);
    inst
}

/// Extract the fields of a jump code word.
pub fn noarg_split(code: u16) -> (i: Instruction)
    ensures
        i == noarg_fields(code),
{
    let mut inst = Instruction::new();
    inst.code = code;
    inst.optype = OpType::NoArg;
    let low = code & 0x3ff;
    let sx = if low & 0x200 != 0 {
        low | 0xfc00
    } else {
        low
    };
    inst.offset = sx.wrapping_mul(2);
    inst.opcode = ((code & 0x1c00) >> 10) as u8;
    inst
}

/// The generic addressing mode named by a raw 2-bit mode code.
fn mode_code_to_mode(c: u8) -> (m: AddressingMode)
    ensures
        m == mode_from_code(c),
{
    if c == 0 {
        AddressingMode::Direct
    } else if c == 1 {
        AddressingMode::Indexed(0)
    } else if c == 2 {
        AddressingMode::Indirect
    } else {
        AddressingMode::IndirectInc
    }
}

/// Decode the code word fetched at `pc` into its fields. Resolution of the
/// addressing modes against the machine state comes separately.
pub fn parse_inst(code: u16, pc: u16) -> (i: Instruction)
    ensures
        i == decode_spec(code, pc),
{
    match get_optype(code, pc) {
        OpType::NoArg => noarg_split(code),
        OpType::OneArg => onearg_split(code),
        OpType::TwoArg => twoarg_split(code),
        OpType::Interrupt => {
            let mut i = twoarg_split(TRAP_CODE);
            i.optype = OpType::Interrupt;
            i
        },
    }
}

/// Decoding is a function of the code word and the starting program counter
/// alone: two decodes of the same raw word at the same program counter agree
/// on every field.
pub proof fn lemma_decode_deterministic(a: Instruction, b: Instruction, code: u16, pc: u16)
    requires
        a == decode_spec(code, pc),
        b == decode_spec(code, pc),
    ensures
        a.optype == b.optype,
        a.opcode == b.opcode,
        a.srcreg == b.srcreg,
        a.destreg == b.destreg,
        a.bw == b.bw,
        a.offset == b.offset,
        a == b,
{
}

} // verus!
