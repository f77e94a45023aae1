//! The simulator core: addressing-mode resolution, operand access, the
//! execution dispatch for the three instruction formats, flag computation,
//! the trap state machine, and the step entry points.
//!
//! Every mutating entry point is specified against a functional model: the
//! `*_effect` specification functions map the machine's abstract value (a
//! [`CpuV`]) to the value after the operation, and each executable function
//! is proved to realize its effect exactly.

use vstd::prelude::*;

verus! {

use crate::isa::{
    AddressingMode,
    Fault,
    Instruction,
    OpType,
    Status,
    UnimplOp,
    decode_spec,
    lemma_decode_bounds,
    parse_inst,
    src_code,
    dest_code,
    TRAP_CODE,
};
use crate::memory::{
    Mem,
    MemUtil,
    Ram,
    RamV,
    Regs,
    bytes_copied,
    mem_loaded,
    mem_stored,
    word_at,
    wrap_inc,
};

/// Carry flag bit of the status register.
pub const CARRYF: u16 = 1;

/// Zero flag bit of the status register.
pub const ZEROF: u16 = 2;

/// Negative flag bit of the status register.
pub const NEGF: u16 = 4;

/// Overflow flag bit of the status register.
pub const OVERF: u16 = 0x100;

/// CPU-off bit of the status register; setting it halts the machine.
pub const CPUOFF: u16 = 0x80;

/// Trap code requesting one character of output.
pub const TRAP_PUTCHAR: u16 = 0x8000;

/// Trap code requesting line input.
pub const TRAP_GETS: u16 = 0x8200;

/// Trap code signalling success.
pub const TRAP_SUCCESS: u16 = 0xff00;

/// Trap code for a generic memory write.
pub const TRAP_WRITE: u16 = 0xfd00;

/// Fixed address where an image is loaded and execution starts.
pub const LOAD_ADDR: u16 = 0x4400;

/// Abstract value of the whole machine.
#[verifier::ext_equal]
pub struct CpuV {
    /// The 16 registers.
    pub regs: Seq<u16>,
    /// The 0x10000 memory bytes.
    pub ram: Seq<u8>,
    /// Whether page protection is enabled.
    pub prot: bool,
    /// Per-page write permission.
    pub pages: Seq<bool>,
    /// The pending decoded instruction, modes resolved.
    pub inst: Instruction,
    /// The machine status.
    pub status: Status,
    /// The append-only output log fed by the character-output trap.
    pub buf: Seq<u8>,
}

/// Structural invariant of the machine value.
pub open spec fn cpuv_wf(v: CpuV) -> bool {
    &&& v.regs.len() == 16
    &&& v.ram.len() == 0x10000
    &&& v.pages.len() == 0x100
    &&& v.inst.srcreg < 16
    &&& v.inst.destreg < 16
}

/// The protection-relevant part of the machine value.
pub open spec fn ram_of(v: CpuV) -> RamV {
    RamV { bytes: v.ram, prot: v.prot, pages: v.pages }
}

/// Whether a store at `a` is allowed under the machine's protection state.
pub open spec fn writable_v(v: CpuV, a: u16) -> bool {
    !v.prot || v.pages[(a >> 8) as int]
}

/// Whether flag `f` is set in status-register value `sr`.
pub open spec fn flag_on(sr: u16, f: u16) -> bool {
    sr & f != 0
}

/// Status-register value with flag `f` forced to `on`.
pub open spec fn flag_put(sr: u16, f: u16, on: bool) -> u16 {
    if on {
        sr | f
    } else {
        sr & !f
    }
}

/// Status-register value after the Zero and Negative flags are recomputed
/// from `val`: Zero iff `val` is exactly 0, Negative iff bit 15 of `val` is
/// set. No other bit changes.
pub open spec fn zn_put(sr: u16, val: u16) -> u16 {
    flag_put(flag_put(sr, ZEROF, val == 0), NEGF, val & 0x8000 != 0)
}

/// Machine value after one status-register flag update.
pub open spec fn set_flag_effect(v: CpuV, f: u16, on: bool) -> CpuV {
    CpuV { regs: v.regs.update(2, flag_put(v.regs[2], f, on)), ..v }
}

/// Machine value after the Zero/Negative recomputation from `val`.
pub open spec fn setzn_effect(v: CpuV, val: u16) -> CpuV {
    CpuV { regs: v.regs.update(2, zn_put(v.regs[2], val)), ..v }
}

/// Machine value and word after one instruction-stream fetch: the word at the
/// program counter is read and the program counter advances by 2, wrapping.
pub open spec fn fetch_effect(v: CpuV) -> (CpuV, u16) {
    (
        CpuV { regs: v.regs.update(0, v.regs[0].wrapping_add(2)), ..v },
        word_at(v.ram, v.regs[0]),
    )
}

/// Whether resolving (register, mode code) consumes an extra instruction
/// word: mode code 1 everywhere but on the constant generator, and the
/// immediate form, mode code 3 on the program counter.
pub open spec fn needs_extra(reg: u8, c: u8) -> bool {
    (c == 1 && reg != 3) || (c == 3 && reg == 0)
}

/// The addressing mode that (register, mode code) resolves to, where `extra`
/// is the extra instruction word for the modes that consume one. Checked in
/// precedence order: the status register's absolute/constant forms, the
/// constant generator, the program-counter immediate, then the generic modes.
pub open spec fn resolved_mode_spec(reg: u8, c: u8, extra: u16) -> AddressingMode {
    if reg == 2 {
        if c == 0 {
            AddressingMode::Direct
        } else if c == 1 {
            AddressingMode::Absolute(extra)
        } else if c == 2 {
            AddressingMode::Const(4)
        } else {
            AddressingMode::Const(8)
        }
    } else if reg == 3 {
        if c == 0 {
            AddressingMode::Const(0)
        } else if c == 1 {
            AddressingMode::Const(1)
        } else if c == 2 {
            AddressingMode::Const(2)
        } else {
            AddressingMode::Const(0xffff)
        }
    } else if reg == 0 && c == 3 {
        AddressingMode::Const(extra)
    } else {
        if c == 0 {
            AddressingMode::Direct
        } else if c == 1 {
            AddressingMode::Indexed(extra)
        } else if c == 2 {
            AddressingMode::Indirect
        } else {
            AddressingMode::IndirectInc
        }
    }
}

/// Machine value and resolved mode after resolving one operand, consuming an
/// extra instruction word exactly when the mode requires one.
pub open spec fn resolve_one_effect(v: CpuV, reg: u8, c: u8) -> (CpuV, AddressingMode) {
    if needs_extra(reg, c) {
        let (v1, w) = fetch_effect(v);
        (v1, resolved_mode_spec(reg, c, w))
    } else {
        (v, resolved_mode_spec(reg, c, 0))
    }
}

/// Machine value after the pending instruction's addressing modes are
/// resolved. For two-operand and trap formats the source is resolved before
/// the destination, so the destination's extra word, if any, is the one
/// immediately following the source's.
pub open spec fn resolve_modes_effect(v: CpuV) -> CpuV {
    match v.inst.optype {
        OpType::TwoArg | OpType::Interrupt => {
            let (v1, sm) = resolve_one_effect(v, v.inst.srcreg, src_code(v.inst.code));
            let (v2, dm) = resolve_one_effect(v1, v.inst.destreg, dest_code(v.inst.code));
            CpuV { inst: Instruction { srcmode: sm, destmode: dm, ..v.inst }, ..v2 }
        },
        OpType::OneArg => {
            let (v1, dm) = resolve_one_effect(v, v.inst.destreg, src_code(v.inst.code));
            CpuV { inst: Instruction { destmode: dm, ..v.inst }, ..v1 }
        },
        OpType::NoArg => v,
    }
}

/// Machine value after the next instruction is fetched, decoded and its
/// modes are resolved; its `memloc` records where it was fetched.
pub open spec fn prepare_effect(v: CpuV) -> CpuV {
    let pc = v.regs[0];
    let (v1, code) = fetch_effect(v);
    let v2 = CpuV { inst: decode_spec(code, pc), ..v1 };
    let v3 = resolve_modes_effect(v2);
    CpuV { inst: Instruction { memloc: pc, ..v3.inst }, ..v3 }
}

/// The operand value read through a resolved mode, masked to its low byte
/// when the byte/word flag is set.
pub open spec fn operand_value(v: CpuV, reg: u8, mode: AddressingMode, bw: bool) -> u16 {
    let rv = v.regs[reg as int];
    let raw = match mode {
        AddressingMode::Direct => rv,
        AddressingMode::Indirect => mem_loaded(v.ram, rv, bw),
        AddressingMode::IndirectInc => mem_loaded(v.ram, rv, bw),
        AddressingMode::Indexed(off) => mem_loaded(v.ram, rv.wrapping_add(off), bw),
        AddressingMode::Absolute(a) => mem_loaded(v.ram, a, bw),
        AddressingMode::Const(n) => n,
    };
    if bw {
        raw & 0xff
    } else {
        raw
    }
}

/// Machine value and operand value after an operand read. Reading through
/// `IndirectInc` advances the register by 2, exactly once, as a side effect
/// of the read; no other mode touches a register.
pub open spec fn read_effect(v: CpuV, reg: u8, mode: AddressingMode, bw: bool) -> (CpuV, u16) {
    let val = operand_value(v, reg, mode, bw);
    let v1 = if mode is IndirectInc {
        CpuV { regs: v.regs.update(reg as int, v.regs[reg as int].wrapping_add(2)), ..v }
    } else {
        v
    };
    (v1, val)
}

/// Machine value and success after a memory store at `a`, byte- or
/// word-wide, honoring page protection.
pub open spec fn store_bytes_effect(v: CpuV, a: u16, val: u16, bw: bool) -> (CpuV, bool) {
    let w_lo = writable_v(v, a);
    let w_hi = writable_v(v, wrap_inc(a));
    (
        CpuV { ram: mem_stored(v.ram, w_lo, w_hi, a, val, bw), ..v },
        w_lo && (bw || w_hi),
    )
}

/// Machine value and outcome of a writeback through a resolved mode.
/// A writeback through `IndirectInc` stores at the register's current value
/// and does not advance the register again; one through a synthesized
/// constant is an addressing fault; a store blocked by page protection is a
/// protection fault.
pub open spec fn write_effect(v: CpuV, reg: u8, mode: AddressingMode, bw: bool, val: u16) -> (
    CpuV,
    Result<(), Fault>,
) {
    match mode {
        AddressingMode::Direct => (
            CpuV { regs: v.regs.update(reg as int, val), ..v },
            Ok(()),
        ),
        AddressingMode::Indirect | AddressingMode::IndirectInc => {
            let (v1, ok) = store_bytes_effect(v, v.regs[reg as int], val, bw);
            (v1, if ok {
                Ok(())
            } else {
                Err(Fault::MemoryProtectionViolation)
            })
        },
        AddressingMode::Indexed(off) => {
            let (v1, ok) = store_bytes_effect(v, v.regs[reg as int].wrapping_add(off), val, bw);
            (v1, if ok {
                Ok(())
            } else {
                Err(Fault::MemoryProtectionViolation)
            })
        },
        AddressingMode::Absolute(a) => {
            let (v1, ok) = store_bytes_effect(v, a, val, bw);
            (v1, if ok {
                Ok(())
            } else {
                Err(Fault::MemoryProtectionViolation)
            })
        },
        AddressingMode::Const(_) => (v, Err(Fault::InvalidAddressingMode)),
    }
}

/// Nine-bit rotate right through carry: the carry-in becomes the new bit 15.
pub open spec fn rrc_spec(val: u16, carry_in: bool) -> u16 {
    (val >> 1) | (if carry_in {
        0x8000u16
    } else {
        0u16
    })
}

/// Swap the two bytes of a word.
pub open spec fn swpb_spec(val: u16) -> u16 {
    (val >> 8) | (val << 8)
}

/// Sign-extend bit 7 across the upper byte.
pub open spec fn sxt_spec(val: u16) -> u16 {
    if val & 0x80 != 0 {
        val | 0xff00
    } else {
        val & 0xff
    }
}

/// Wrapping sum with a carry-in bit.
pub open spec fn addc_spec(a: u16, b: u16, c: bool) -> u16 {
    a.wrapping_add(b).wrapping_add(
        if c {
            1u16
        } else {
            0u16
        },
    )
}

/// Subtract with carry: the sum of `a`, the bitwise complement of `b`, and
/// the carry-in bit, wrapping.
pub open spec fn subc_spec(a: u16, b: u16, c: bool) -> u16 {
    a.wrapping_add(!b).wrapping_add(
        if c {
            1u16
        } else {
            0u16
        },
    )
}

/// Whether the jump with the given opcode branches under status register
/// `sr`.
pub open spec fn jump_taken(opcode: u8, sr: u16) -> bool {
    if opcode == 0 {
        !flag_on(sr, ZEROF)
    } else if opcode == 1 {
        flag_on(sr, ZEROF)
    } else if opcode == 2 {
        !flag_on(sr, CARRYF)
    } else if opcode == 3 {
        flag_on(sr, CARRYF)
    } else if opcode == 4 {
        flag_on(sr, NEGF)
    } else if opcode == 5 {
        flag_on(sr, NEGF) == flag_on(sr, OVERF)
    } else if opcode == 6 {
        flag_on(sr, NEGF) != flag_on(sr, OVERF)
    } else {
        true
    }
}

/// Machine value after a jump: when its condition holds under the current
/// flags, the decoded offset is added to the program counter, wrapping.
pub open spec fn jump_effect(v: CpuV, opcode: u8, offset: u16) -> CpuV {
    if jump_taken(opcode, v.regs[2]) {
        CpuV { regs: v.regs.update(0, v.regs[0].wrapping_add(offset)), ..v }
    } else {
        v
    }
}

/// Zero/Negative recomputation from `r` followed by a writeback of `r`
/// through the destination of `i`.
pub open spec fn zn_write_effect(v: CpuV, i: Instruction, r: u16) -> (CpuV, Result<(), Fault>) {
    write_effect(setzn_effect(v, r), i.destreg, i.destmode, i.bw, r)
}

/// Machine value and outcome of a one-operand instruction. The undefined
/// opcode faults before any operand is read; the unimplemented operations
/// fault after their operand read, so its side effects stand.
pub open spec fn onearg_effect(v: CpuV, i: Instruction) -> (CpuV, Result<(), Fault>) {
    if i.opcode >= 7 {
        (v, Err(Fault::InvalidOpcode))
    } else {
        let (v1, val) = read_effect(v, i.destreg, i.destmode, i.bw);
        if i.opcode == 0 {
            // RRC: carry-in becomes bit 15, old bit 0 becomes the new carry.
            let c = flag_on(v1.regs[2], CARRYF);
            let r = rrc_spec(val, c);
            let v2 = set_flag_effect(v1, CARRYF, val & 1 != 0);
            zn_write_effect(v2, i, r)
        } else if i.opcode == 1 {
            // SWPB: no flag update.
            write_effect(v1, i.destreg, i.destmode, i.bw, swpb_spec(val))
        } else if i.opcode == 2 {
            (v1, Err(Fault::NotImplemented(UnimplOp::Rra)))
        } else if i.opcode == 3 {
            // SXT sets Zero/Negative.
            zn_write_effect(v1, i, sxt_spec(val))
        } else if i.opcode == 4 {
            // PUSH: decrement the stack pointer by 2, store at the new top.
            let sp = v1.regs[1].wrapping_sub(2);
            let v2 = CpuV { regs: v1.regs.update(1, sp), ..v1 };
            let (v3, ok) = store_bytes_effect(v2, sp, val, i.bw);
            (v3, if ok {
                Ok(())
            } else {
                Err(Fault::MemoryProtectionViolation)
            })
        } else if i.opcode == 5 {
            // CALL: push the program counter, then branch to the operand.
            let sp = v1.regs[1].wrapping_sub(2);
            let v2 = CpuV { regs: v1.regs.update(1, sp), ..v1 };
            let (v3, ok) = store_bytes_effect(v2, sp, v2.regs[0], i.bw);
            if ok {
                (CpuV { regs: v3.regs.update(0, val), ..v3 }, Ok(()))
            } else {
                (v3, Err(Fault::MemoryProtectionViolation))
            }
        } else {
            (v1, Err(Fault::NotImplemented(UnimplOp::Reti)))
        }
    }
}

/// Machine value and outcome of a two-operand instruction. Both operands are
/// read first, source before destination, each applying its own addressing
/// side effects; the operation then computes, updates Zero/Negative where
/// the architecture says so, and writes back through the destination.
pub open spec fn twoarg_effect(v: CpuV, i: Instruction) -> (CpuV, Result<(), Fault>) {
    if i.opcode < 4 || i.opcode > 15 {
        (v, Err(Fault::InvalidOpcode))
    } else {
        let (v1, src) = read_effect(v, i.srcreg, i.srcmode, i.bw);
        let (v2, dst) = read_effect(v1, i.destreg, i.destmode, i.bw);
        let sr = v2.regs[2];
        if i.opcode == 4 {
            // MOV: flags unchanged.
            write_effect(v2, i.destreg, i.destmode, i.bw, src)
        } else if i.opcode == 5 {
            zn_write_effect(v2, i, dst.wrapping_add(src))
        } else if i.opcode == 6 {
            zn_write_effect(v2, i, addc_spec(dst, src, flag_on(sr, CARRYF)))
        } else if i.opcode == 7 {
            zn_write_effect(v2, i, subc_spec(dst, src, flag_on(sr, CARRYF)))
        } else if i.opcode == 8 {
            zn_write_effect(v2, i, dst.wrapping_sub(src))
        } else if i.opcode == 9 {
            // CMP: flags only, no writeback.
            (setzn_effect(v2, dst.wrapping_sub(src)), Ok(()))
        } else if i.opcode == 10 {
            (v2, Err(Fault::NotImplemented(UnimplOp::Dadd)))
        } else if i.opcode == 11 {
            // BIT: flags only, no writeback.
            (setzn_effect(v2, dst & src), Ok(()))
        } else if i.opcode == 12 {
            // BIC: flags unchanged.
            write_effect(v2, i.destreg, i.destmode, i.bw, dst & !src)
        } else if i.opcode == 13 {
            // BIS: flags unchanged.
            write_effect(v2, i.destreg, i.destmode, i.bw, dst | src)
        } else if i.opcode == 14 {
            zn_write_effect(v2, i, dst ^ src)
        } else {
            zn_write_effect(v2, i, dst & src)
        }
    }
}

/// Machine value and outcome of the trap pseudo-instruction, keyed on the
/// raw status-register value at trap time: emit one character read from the
/// fixed stack-relative slot and return; record an input request; signal
/// success; perform the generic move; or do nothing on an unknown code.
pub open spec fn trap_effect(v: CpuV) -> (CpuV, Result<(), Fault>) {
    let sr = v.regs[2];
    if sr == TRAP_PUTCHAR {
        let ch = v.ram[v.regs[1].wrapping_add(8) as int];
        let v1 = CpuV { buf: v.buf.push(ch), ..v };
        twoarg_effect(v1, v1.inst)
    } else if sr == TRAP_GETS {
        let sp = v.regs[1];
        (
            CpuV {
                status: Status::GetInput(
                    word_at(v.ram, sp.wrapping_add(8)),
                    word_at(v.ram, sp.wrapping_add(10)),
                ),
                ..v
            },
            Ok(()),
        )
    } else if sr == TRAP_SUCCESS {
        (CpuV { status: Status::Success, ..v }, Ok(()))
    } else if sr == TRAP_WRITE {
        twoarg_effect(v, v.inst)
    } else {
        (v, Ok(()))
    }
}

/// Machine value and outcome of executing the pending instruction.
pub open spec fn exec_effect(v: CpuV) -> (CpuV, Result<(), Fault>) {
    match v.inst.optype {
        OpType::NoArg => {
            if v.inst.opcode < 8 {
                (jump_effect(v, v.inst.opcode, v.inst.offset), Ok(()))
            } else {
                (v, Err(Fault::InvalidOpcode))
            }
        },
        OpType::OneArg => onearg_effect(v, v.inst),
        OpType::TwoArg => twoarg_effect(v, v.inst),
        OpType::Interrupt => trap_effect(v),
    }
}

/// Machine value and outcome of one step. Terminal statuses and a pending
/// input request make the step a no-op. Otherwise the pending instruction
/// executes; a fault aborts the step before the next instruction is
/// prepared; a trap that signalled success or requested input short-circuits
/// the rest; else the next instruction is prepared and the CPU-off bit, when
/// it was set by execution, halts the machine.
pub open spec fn step_effect(v: CpuV) -> (CpuV, Result<(), Fault>) {
    match v.status {
        Status::Normal => {
            let (v1, r) = exec_effect(v);
            if r is Err {
                (v1, r)
            } else if !(v1.status is Normal) {
                (v1, Ok(()))
            } else {
                let v2 = prepare_effect(v1);
                if v2.regs[2] & CPUOFF != 0 {
                    (CpuV { status: Status::Off, ..v2 }, Ok(()))
                } else {
                    (v2, Ok(()))
                }
            }
        },
        _ => (v, Ok(())),
    }
}

/// Machine value after host-provided input is supplied to a pending input
/// request: the first `min(bytes.len(), max-length)` bytes are copied to the
/// recorded address, the status returns to `Normal`, and the pending
/// instruction becomes the synthesized trap-return move. Ignored in any
/// other status.
pub open spec fn supply_effect(v: CpuV, bytes: Seq<u8>) -> CpuV {
    match v.status {
        Status::GetInput(putloc, maxlen) => {
            let n = if bytes.len() < maxlen as nat {
                bytes.len()
            } else {
                maxlen as nat
            };
            let vr = CpuV { ram: copied_wrapping(v, putloc, bytes, n), status: Status::Normal, ..v };
            let vi = CpuV { inst: decode_spec(TRAP_CODE, 0), ..vr };
            resolve_modes_effect(vi)
        },
        _ => v,
    }
}

/// The machine's bytes after the first `n` input bytes are stored at
/// `put` upward, wrapping, each byte store consulting page protection.
pub open spec fn copied_wrapping(v: CpuV, put: u16, bytes: Seq<u8>, n: nat) -> Seq<u8>
    decreases n,
{
    if n == 0 {
        v.ram
    } else {
        let prev = copied_wrapping(v, put, bytes, (n - 1) as nat);
        let a = put.wrapping_add((n - 1) as u16);
        if writable_v(v, a) {
            prev.update(a as int, bytes[n - 1])
        } else {
            prev
        }
    }
}

/// The machine as created: everything zero, protection off, status `Normal`.
pub open spec fn initial_view() -> CpuV {
    CpuV {
        regs: Seq::new(16, |i| 0u16),
        ram: Seq::new(0x10000, |i| 0u8),
        prot: false,
        pages: Seq::new(0x100, |i| false),
        inst: Instruction::default_spec(),
        status: Status::Normal,
        buf: Seq::empty(),
    }
}

/// The machine after initialization: the image loaded at the fixed load
/// address, the program counter there, and the first instruction prepared.
pub open spec fn init_effect(img: Seq<u8>) -> CpuV {
    let v0 = initial_view();
    let v1 = CpuV {
        regs: v0.regs.update(0, LOAD_ADDR),
        ram: bytes_copied(ram_of(v0), LOAD_ADDR, img, img.len()),
        ..v0
    };
    prepare_effect(v1)
}

/// The simulator: registers, memory, the pending instruction, the machine
/// status, and the output log.
pub struct Cpu {
    regs: Regs,
    ram: Ram,
    inst: Instruction,
    status: Status,
    buf: Vec<u8>,
}

impl View for Cpu {
    type V = CpuV;

    closed spec fn view(&self) -> CpuV {
        CpuV {
            regs: self.regs@,
            ram: self.ram@.bytes,
            prot: self.ram@.prot,
            pages: self.ram@.pages,
            inst: self.inst,
            status: self.status,
            buf: self.buf@,
        }
    }
}

impl Cpu {
    /// Structural invariant of the simulator.
    pub open spec fn wf(&self) -> bool {
        cpuv_wf(self@)
    }

    /// Fetch the instruction word at the program counter and advance the
    /// program counter by 2.
    fn next_inst(&mut self) -> (w: u16)
        requires
            old(self).wf(),
        ensures
            final(self).wf(),
            final(self)@ == fetch_effect(old(self)@).0,
            w == fetch_effect(old(self)@).1,
    {
        let pc = self.regs.load(0);
        let w = self.ram.loadw(pc);
        self.regs.store(0, pc.wrapping_add(2));
        proof {
            assert(final(self)@ =~= fetch_effect(old(self)@).0);
        }
        w
    }

    /// Whether the flag `flag` is set in the status register.
    fn getflag(&self, flag: u16) -> (b: bool)
        requires
            self.wf(),
        ensures
            b == flag_on(self@.regs[2], flag),
    {
        self.regs.load(2) & flag != 0
    }

    /// Force the flag `flag` in the status register to `on`.
    fn set_flag(&mut self, flag: u16, on: bool)
        requires
            old(self).wf(),
        ensures
            final(self).wf(),
            final(self)@ == set_flag_effect(old(self)@, flag, on),
    {
        let sr = self.regs.load(2);
        if on {
            self.regs.store(2, sr | flag);
        } else {
            self.regs.store(2, sr & !flag);
        }
        proof {
            assert(final(self)@ =~= set_flag_effect(old(self)@, flag, on));
        }
    }

    /// Recompute the Zero and Negative flags from `val`.
    fn setzn(&mut self, val: u16)
        requires
            old(self).wf(),
        ensures
            final(self).wf(),
            final(self)@ == setzn_effect(old(self)@, val),
    {
        self.set_flag(ZEROF, val == 0);
        self.set_flag(NEGF, val & 0x8000 != 0);
        proof {
            assert(final(self)@ =~= setzn_effect(old(self)@, val));
        }
    }

    /// Swap the two bytes of a word.
    pub fn swap(i: u16) -> (r: u16)
        ensures
            r == swpb_spec(i),
    {
        let ret = i >> 8;
        ret | (i << 8)
    }

    /// Resolve one (register, mode code) operand, consuming an extra
    /// instruction word exactly when the mode requires one.
    fn resolve_mode_in(&mut self, reg: u8, c: u8) -> (m: AddressingMode)
        requires
            old(self).wf(),
            reg < 16,
            c < 4,
        ensures
            final(self).wf(),
            final(self)@ == resolve_one_effect(old(self)@, reg, c).0,
            m == resolve_one_effect(old(self)@, reg, c).1,
    {
        let extra = if (c == 1 && reg != 3) || (c == 3 && reg == 0) {
            self.next_inst()
        } else {
            0
        };
        resolve_mode_value(reg, c, extra)
    }

    /// Resolve a (register, mode code) pair to a concrete addressing mode,
    /// per the architectural precedence rules. A register beyond the file or
    /// a mode code beyond two bits is an addressing fault that leaves the
    /// machine unchanged.
    pub fn resolve_mode(&mut self, reg: u8, modecode: u8) -> (r: Result<AddressingMode, Fault>)
        requires
            old(self).wf(),
        ensures
            final(self).wf(),
            reg < 16 && modecode < 4 ==> {
                &&& final(self)@ == resolve_one_effect(old(self)@, reg, modecode).0
                &&& r == Ok::<AddressingMode, Fault>(
                    resolve_one_effect(old(self)@, reg, modecode).1,
                )
            },
            !(reg < 16 && modecode < 4) ==> {
                &&& final(self)@ == old(self)@
                &&& r == Err::<AddressingMode, Fault>(Fault::InvalidAddressingMode)
            },
    {
        if reg < 16 && modecode < 4 {
            Ok(self.resolve_mode_in(reg, modecode))
        } else {
            Err(Fault::InvalidAddressingMode)
        }
    }

    /// Resolve the pending instruction's addressing modes, source before
    /// destination.
    fn get_addressing_modes(&mut self)
        requires
            old(self).wf(),
        ensures
            final(self).wf(),
            final(self)@ == resolve_modes_effect(old(self)@),
    {
        proof {
            lemma_decode_bounds(self.inst.code);
        }
        match self.inst.optype {
            OpType::TwoArg | OpType::Interrupt => {
                let sc = ((self.inst.code & 0x30) >> 4) as u8;
                let dc = ((self.inst.code & 0x80) >> 7) as u8;
                let srcreg = self.inst.srcreg;
                let destreg = self.inst.destreg;
                let sm = self.resolve_mode_in(srcreg, sc);
                let dm = self.resolve_mode_in(destreg, dc);
                self.inst.srcmode = sm;
                self.inst.destmode = dm;
                proof {
                    assert(final(self)@ =~= resolve_modes_effect(old(self)@));
                }
            },
            OpType::OneArg => {
                let dc = ((self.inst.code & 0x30) >> 4) as u8;
                let destreg = self.inst.destreg;
                let dm = self.resolve_mode_in(destreg, dc);
                self.inst.destmode = dm;
                proof {
                    assert(final(self)@ =~= resolve_modes_effect(old(self)@));
                }
            },
            OpType::NoArg => {},
        }
    }

    /// Fetch, decode and mode-resolve the instruction at the program
    /// counter, recording where it was fetched.
    fn prepare_next(&mut self)
        requires
            old(self).wf(),
        ensures
            final(self).wf(),
            final(self)@ == prepare_effect(old(self)@),
    {
        let pc = self.regs.load(0);
        let code = self.next_inst();
        self.inst = parse_inst(code, pc);
        proof {
            lemma_decode_bounds(code);
            lemma_decode_bounds(TRAP_CODE);
        }
        self.get_addressing_modes();
        self.inst.memloc = pc;
        proof {
            assert(final(self)@ =~= prepare_effect(old(self)@));
        }
    }

    /// Read the operand selected by (register, resolved mode), applying the
    /// byte mask when the byte/word flag is set. Reading through
    /// `IndirectInc` advances the register by 2.
    fn read_operand(&mut self, reg: u8, mode: AddressingMode, bw: bool) -> (val: u16)
        requires
            old(self).wf(),
            reg < 16,
        ensures
            final(self).wf(),
            final(self)@ == read_effect(old(self)@, reg, mode, bw).0,
            val == read_effect(old(self)@, reg, mode, bw).1,
    {
        let regval = self.regs.load(reg);
        let raw = match mode {
            AddressingMode::Direct => regval,
            AddressingMode::Indirect => self.ram.load(regval, bw),
            AddressingMode::IndirectInc => {
                self.regs.store(reg, regval.wrapping_add(2));
                self.ram.load(regval, bw)
            },
            AddressingMode::Indexed(off) => self.ram.load(regval.wrapping_add(off), bw),
            AddressingMode::Absolute(a) => self.ram.load(a, bw),
            AddressingMode::Const(n) => n,
        };
        proof {
            assert(final(self)@ =~= read_effect(old(self)@, reg, mode, bw).0);
        }
        if bw {
            raw & 0xff
        } else {
            raw
        }
    }

    /// Write `val` back through (register, resolved mode). The register is
    /// not advanced again by `IndirectInc`; a synthesized constant cannot be
    /// written through; a store blocked by page protection is reported.
    fn write_operand(&mut self, reg: u8, mode: AddressingMode, bw: bool, val: u16) -> (r: Result<
        (),
        Fault,
    >)
        requires
            old(self).wf(),
            reg < 16,
        ensures
            final(self).wf(),
            final(self)@ == write_effect(old(self)@, reg, mode, bw, val).0,
            r == write_effect(old(self)@, reg, mode, bw, val).1,
    {
        match mode {
            AddressingMode::Direct => {
                self.regs.store(reg, val);
                proof {
                    assert(final(self)@ =~= write_effect(old(self)@, reg, mode, bw, val).0);
                }
                Ok(())
            },
            AddressingMode::Indirect | AddressingMode::IndirectInc => {
                let a = self.regs.load(reg);
                let ok = self.ram.store(a, val, bw);
                proof {
                    assert(final(self)@ =~= write_effect(old(self)@, reg, mode, bw, val).0);
                }
                if ok {
                    Ok(())
                } else {
                    Err(Fault::MemoryProtectionViolation)
                }
            },
            AddressingMode::Indexed(off) => {
                let a = self.regs.load(reg).wrapping_add(off);
                let ok = self.ram.store(a, val, bw);
                proof {
                    assert(final(self)@ =~= write_effect(old(self)@, reg, mode, bw, val).0);
                }
                if ok {
                    Ok(())
                } else {
                    Err(Fault::MemoryProtectionViolation)
                }
            },
            AddressingMode::Absolute(a) => {
                let ok = self.ram.store(a, val, bw);
                proof {
                    assert(final(self)@ =~= write_effect(old(self)@, reg, mode, bw, val).0);
                }
                if ok {
                    Ok(())
                } else {
                    Err(Fault::MemoryProtectionViolation)
                }
            },
            AddressingMode::Const(_) => Err(Fault::InvalidAddressingMode),
        }
    }
}

impl Cpu {
    /// Write `val` back through the pending instruction's destination.
    fn store_dest(&mut self, val: u16) -> (r: Result<(), Fault>)
        requires
            old(self).wf(),
        ensures
            final(self).wf(),
            final(self)@ == write_effect(
                old(self)@,
                old(self)@.inst.destreg,
                old(self)@.inst.destmode,
                old(self)@.inst.bw,
                val,
            ).0,
            r == write_effect(
                old(self)@,
                old(self)@.inst.destreg,
                old(self)@.inst.destmode,
                old(self)@.inst.bw,
                val,
            ).1,
    {
        let destreg = self.inst.destreg;
        let destmode = self.inst.destmode;
        let bw = self.inst.bw;
        self.write_operand(destreg, destmode, bw, val)
    }

    /// Recompute Zero/Negative from `val`, then write it back through the
    /// pending instruction's destination.
    fn set_and_store(&mut self, val: u16) -> (r: Result<(), Fault>)
        requires
            old(self).wf(),
        ensures
            final(self).wf(),
            final(self)@ == zn_write_effect(old(self)@, old(self)@.inst, val).0,
            r == zn_write_effect(old(self)@, old(self)@.inst, val).1,
    {
        self.setzn(val);
        self.store_dest(val)
    }

    /// Whether the jump with opcode `opcode` branches under the current
    /// flags.
    fn jump_cond(&self, opcode: u8) -> (b: bool)
        requires
            self.wf(),
        ensures
            b == jump_taken(opcode, self@.regs[2]),
    {
        if opcode == 0 {
            !self.getflag(ZEROF)
        } else if opcode == 1 {
            self.getflag(ZEROF)
        } else if opcode == 2 {
            !self.getflag(CARRYF)
        } else if opcode == 3 {
            self.getflag(CARRYF)
        } else if opcode == 4 {
            self.getflag(NEGF)
        } else if opcode == 5 {
            self.getflag(NEGF) == self.getflag(OVERF)
        } else if opcode == 6 {
            self.getflag(NEGF) != self.getflag(OVERF)
        } else {
            true
        }
    }

    /// Execute the pending jump instruction.
    fn exec_jump(&mut self)
        requires
            old(self).wf(),
        ensures
            final(self).wf(),
            final(self)@ == jump_effect(old(self)@, old(self)@.inst.opcode, old(self)@.inst.offset),
    {
        let opcode = self.inst.opcode;
        let offset = self.inst.offset;
        if self.jump_cond(opcode) {
            let pc = self.regs.load(0);
            self.regs.store(0, pc.wrapping_add(offset));
            proof {
                assert(final(self)@ =~= jump_effect(
                    old(self)@,
                    old(self)@.inst.opcode,
                    old(self)@.inst.offset,
                ));
            }
        }
    }

    /// Execute the pending one-operand instruction.
    fn exec_onearg(&mut self) -> (r: Result<(), Fault>)
        requires
            old(self).wf(),
        ensures
            final(self).wf(),
            final(self)@ == onearg_effect(old(self)@, old(self)@.inst).0,
            r == onearg_effect(old(self)@, old(self)@.inst).1,
    {
        let i = self.inst;
        if i.opcode >= 7 {
            return Err(Fault::InvalidOpcode);
        }
        let val = self.read_operand(i.destreg, i.destmode, i.bw);
        if i.opcode == 0 {
            let c = self.getflag(CARRYF);
            let x = op_rrc(val, c);
            self.set_flag(CARRYF, val & 1 != 0);
            self.set_and_store(x)
        } else if i.opcode == 1 {
            self.store_dest(Cpu::swap(val))
        } else if i.opcode == 2 {
            Err(Fault::NotImplemented(UnimplOp::Rra))
        } else if i.opcode == 3 {
            self.set_and_store(op_sxt(val))
        } else if i.opcode == 4 {
            let sp = self.regs.load(1).wrapping_sub(2);
            self.regs.store(1, sp);
            let ok = self.ram.store(sp, val, i.bw);
            proof {
                assert(final(self)@ =~= onearg_effect(old(self)@, old(self)@.inst).0);
            }
            if ok {
                Ok(())
            } else {
                Err(Fault::MemoryProtectionViolation)
            }
        } else if i.opcode == 5 {
            let sp = self.regs.load(1).wrapping_sub(2);
            self.regs.store(1, sp);
            let pc = self.regs.load(0);
            let ok = self.ram.store(sp, pc, i.bw);
            if ok {
                self.regs.store(0, val);
                proof {
                    assert(final(self)@ =~= onearg_effect(old(self)@, old(self)@.inst).0);
                }
                Ok(())
            } else {
                proof {
                    assert(final(self)@ =~= onearg_effect(old(self)@, old(self)@.inst).0);
                }
                Err(Fault::MemoryProtectionViolation)
            }
        } else {
            Err(Fault::NotImplemented(UnimplOp::Reti))
        }
    }

    /// Execute the pending two-operand instruction.
    fn exec_twoarg(&mut self) -> (r: Result<(), Fault>)
        requires
            old(self).wf(),
        ensures
            final(self).wf(),
            final(self)@ == twoarg_effect(old(self)@, old(self)@.inst).0,
            r == twoarg_effect(old(self)@, old(self)@.inst).1,
    {
        let i = self.inst;
        if i.opcode < 4 || i.opcode > 15 {
            return Err(Fault::InvalidOpcode);
        }
        let src = self.read_operand(i.srcreg, i.srcmode, i.bw);
        let dst = self.read_operand(i.destreg, i.destmode, i.bw);
        if i.opcode == 4 {
            self.store_dest(src)
        } else if i.opcode == 5 {
            self.set_and_store(dst.wrapping_add(src))
        } else if i.opcode == 6 {
            let c = self.getflag(CARRYF);
            self.set_and_store(op_addc(dst, src, c))
        } else if i.opcode == 7 {
            let c = self.getflag(CARRYF);
            self.set_and_store(op_subc(dst, src, c))
        } else if i.opcode == 8 {
            self.set_and_store(dst.wrapping_sub(src))
        } else if i.opcode == 9 {
            self.setzn(dst.wrapping_sub(src));
            Ok(())
        } else if i.opcode == 10 {
            Err(Fault::NotImplemented(UnimplOp::Dadd))
        } else if i.opcode == 11 {
            self.setzn(dst & src);
            Ok(())
        } else if i.opcode == 12 {
            self.store_dest(dst & !src)
        } else if i.opcode == 13 {
            self.store_dest(dst | src)
        } else if i.opcode == 14 {
            self.set_and_store(dst ^ src)
        } else {
            self.set_and_store(dst & src)
        }
    }

    /// Drive the trap pseudo-instruction by the status-register value
    /// captured at trap time.
    fn handle_interrupt(&mut self) -> (r: Result<(), Fault>)
        requires
            old(self).wf(),
        ensures
            final(self).wf(),
            final(self)@ == trap_effect(old(self)@).0,
            r == trap_effect(old(self)@).1,
    {
        let sr = self.regs.load(2);
        if sr == TRAP_PUTCHAR {
            let sp = self.regs.load(1);
            let ch = self.ram.loadb(sp.wrapping_add(8));
            self.buf.push(ch);
            proof {
                assert(self@ =~= (CpuV { buf: old(self)@.buf.push(ch), ..old(self)@ }));
            }
            self.exec_twoarg()
        } else if sr == TRAP_GETS {
            let sp = self.regs.load(1);
            let putloc = self.ram.loadw(sp.wrapping_add(8));
            let maxlen = self.ram.loadw(sp.wrapping_add(10));
            self.status = Status::GetInput(putloc, maxlen);
            proof {
                assert(final(self)@ =~= trap_effect(old(self)@).0);
            }
            Ok(())
        } else if sr == TRAP_SUCCESS {
            self.status = Status::Success;
            proof {
                assert(final(self)@ =~= trap_effect(old(self)@).0);
            }
            Ok(())
        } else if sr == TRAP_WRITE {
            self.exec_twoarg()
        } else {
            Ok(())
        }
    }

    /// Execute the pending instruction through the dispatch for its format.
    fn exec_inst(&mut self) -> (r: Result<(), Fault>)
        requires
            old(self).wf(),
        ensures
            final(self).wf(),
            final(self)@ == exec_effect(old(self)@).0,
            r == exec_effect(old(self)@).1,
    {
        match self.inst.optype {
            OpType::NoArg => {
                if self.inst.opcode < 8 {
                    self.exec_jump();
                    Ok(())
                } else {
                    Err(Fault::InvalidOpcode)
                }
            },
            OpType::OneArg => self.exec_onearg(),
            OpType::TwoArg => self.exec_twoarg(),
            OpType::Interrupt => self.handle_interrupt(),
        }
    }

    /// Execute one step: run the pending instruction, then prepare the next
    /// one. A no-op when the machine is halted, has succeeded, or awaits
    /// input. A fault aborts the step before the next instruction is
    /// prepared; a trap that signalled success or requested input leaves the
    /// rest of the step undone; execution that set the CPU-off bit halts the
    /// machine.
    pub fn step(&mut self) -> (r: Result<(), Fault>)
        requires
            old(self).wf(),
        ensures
            final(self).wf(),
            final(self)@ == step_effect(old(self)@).0,
            r == step_effect(old(self)@).1,
    {
        match self.status {
            Status::Normal => {
                let r = self.exec_inst();
                match r {
                    Err(f) => Err(f),
                    Ok(_) => {
                        match self.status {
                            Status::Normal => {
                                self.prepare_next();
                                let sr = self.regs.load(2);
                                if sr & CPUOFF != 0 {
                                    self.status = Status::Off;
                                    proof {
                                        assert(final(self)@ =~= step_effect(old(self)@).0);
                                    }
                                }
                                Ok(())
                            },
                            _ => Ok(()),
                        }
                    },
                }
            },
            _ => Ok(()),
        }
    }

    /// Supply host-provided bytes to a pending input request: copy at most
    /// the recorded maximum length to the recorded address, return to
    /// `Normal`, and make the synthesized trap-return move the pending
    /// instruction. Ignored in any other status.
    pub fn supply_input(&mut self, bytes: &[u8])
        requires
            old(self).wf(),
        ensures
            final(self).wf(),
            final(self)@ == supply_effect(old(self)@, bytes@),
    {
        match self.status {
            Status::GetInput(putloc, maxlen) => {
                let n = if bytes.len() < maxlen as usize {
                    bytes.len()
                } else {
                    maxlen as usize
                };
                let ghost v0 = self@;
                let mut k: usize = 0;
                while k < n
                    invariant
                        self.wf(),
                        k <= n,
                        n <= bytes@.len(),
                        n <= maxlen,
                        self@.prot == v0.prot,
                        self@.pages == v0.pages,
                        self@.regs == v0.regs,
                        self@.inst == v0.inst,
                        self@.status == v0.status,
                        self@.buf == v0.buf,
                        self@.ram == copied_wrapping(v0, putloc, bytes@, k as nat),
                    decreases n - k,
                {
                    let b = bytes[k];
                    self.ram.storeb(putloc.wrapping_add(k as u16), b);
                    k = k + 1;
                }
                self.status = Status::Normal;
                self.inst = parse_inst(TRAP_CODE, 0);
                proof {
                    lemma_decode_bounds(TRAP_CODE);
                }
                self.get_addressing_modes();
                proof {
                    assert(final(self)@ =~= supply_effect(old(self)@, bytes@));
                }
            },
            _ => {},
        }
    }

    /// Fresh machine: registers and memory zero, protection off, status
    /// `Normal`, empty log, placeholder pending instruction.
    pub fn new() -> (c: Cpu)
        ensures
            c.wf(),
            c@ == initial_view(),
    {
        let c = Cpu {
            regs: Regs::new(),
            ram: Ram::new(),
            inst: Instruction::new(),
            status: Status::Normal,
            buf: Vec::new(),
        };
        proof {
            assert(c@.regs =~= initial_view().regs);
            assert(c@.ram =~= initial_view().ram);
            assert(c@.pages =~= initial_view().pages);
            assert(c@.buf =~= initial_view().buf);
            assert(c@ =~= initial_view());
        }
        c
    }

    /// Build a machine with `image` loaded at the fixed load address, the
    /// program counter there, and the first instruction decoded and resolved
    /// so it is ready before any step.
    pub fn init(image: &[u8]) -> (c: Cpu)
        requires
            image@.len() <= 0xbc00,
        ensures
            c.wf(),
            c@ == init_effect(image@),
    {
        let mut cpu = Cpu::new();
        cpu.ram.loadimage(image);
        proof {
            assert(cpu@ =~= (CpuV {
                ram: bytes_copied(ram_of(initial_view()), LOAD_ADDR, image@, image@.len()),
                ..initial_view()
            }));
        }
        cpu.regs.store(0, LOAD_ADDR);
        proof {
            assert(cpu@ =~= (CpuV {
                regs: initial_view().regs.update(0, LOAD_ADDR),
                ram: bytes_copied(ram_of(initial_view()), LOAD_ADDR, image@, image@.len()),
                ..initial_view()
            }));
        }
        cpu.prepare_next();
        cpu
    }

    /// The machine status.
    pub fn status(&self) -> (s: Status)
        ensures
            s == self@.status,
    {
        self.status
    }

    /// The pending decoded instruction, for display and disassembly.
    pub fn inst(&self) -> (i: Instruction)
        ensures
            i == self@.inst,
    {
        self.inst
    }

    /// Read register `i`.
    pub fn reg(&self, i: u8) -> (v: u16)
        requires
            self.wf(),
            i < 16,
        ensures
            v == self@.regs[i as int],
    {
        self.regs.load(i)
    }

    /// Read the raw memory byte at `addr`, for inspection and disassembly.
    pub fn mem_byte(&self, addr: u16) -> (b: u8)
        requires
            self.wf(),
        ensures
            b == self@.ram[addr as int],
    {
        self.ram.loadb(addr)
    }

    /// The append-only output log fed by the character-output trap.
    pub fn log(&self) -> (l: &Vec<u8>)
        ensures
            l@ == self@.buf,
    {
        &self.buf
    }

    /// Enable or disable page protection.
    pub fn set_protection(&mut self, on: bool)
        requires
            old(self).wf(),
        ensures
            final(self).wf(),
            final(self)@ == (CpuV { prot: on, ..old(self)@ }),
    {
        self.ram.set_protection(on);
        proof {
            assert(final(self)@ =~= (CpuV { prot: on, ..old(self)@ }));
        }
    }

    /// Mark one 256-byte page writable or read-only under protection.
    pub fn set_page_writable(&mut self, page: u8, w: bool)
        requires
            old(self).wf(),
        ensures
            final(self).wf(),
            final(self)@ == (CpuV { pages: old(self)@.pages.update(page as int, w), ..old(self)@ }),
    {
        self.ram.set_page_writable(page, w);
        proof {
            assert(final(self)@ =~= (CpuV {
                pages: old(self)@.pages.update(page as int, w),
                ..old(self)@
            }));
        }
    }
}

/// Nine-bit rotate right through carry.
fn op_rrc(val: u16, carry_in: bool) -> (r: u16)
    ensures
        r == rrc_spec(val, carry_in),
{
    let high: u16 = if carry_in {
        0x8000
    } else {
        0
    };
    (val >> 1) | high
}

/// Sign-extend bit 7 across the upper byte.
fn op_sxt(val: u16) -> (r: u16)
    ensures
        r == sxt_spec(val),
{
    if val & 0x80 != 0 {
        val | 0xff00
    } else {
        val & 0xff
    }
}

/// Wrapping sum with a carry-in bit.
fn op_addc(a: u16, b: u16, c: bool) -> (r: u16)
    ensures
        r == addc_spec(a, b, c),
{
    a.wrapping_add(b).wrapping_add(if c {
        1
    } else {
        0
    })
}

/// Subtract with carry: `a` plus the complement of `b` plus the carry bit.
fn op_subc(a: u16, b: u16, c: bool) -> (r: u16)
    ensures
        r == subc_spec(a, b, c),
{
    a.wrapping_add(!b).wrapping_add(if c {
        1
    } else {
        0
    })
}

/// For the constant generator, register 3, every mode code resolves to a
/// synthesized constant, 0, 1, 2 or the all-ones word in mode-code order,
/// independent of any fetched word; no extra instruction word is consumed
/// and the machine, the register included, is untouched.
pub proof fn lemma_constant_generator(v: CpuV, c: u8, e1: u16, e2: u16)
    requires
        c < 4,
    ensures
        !needs_extra(3, c),
        resolve_one_effect(v, 3, c).0 == v,
        resolved_mode_spec(3, c, e1) == resolved_mode_spec(3, c, e2),
        resolve_one_effect(v, 3, c).1 == AddressingMode::Const(
            if c == 0 {
                0u16
            } else if c == 1 {
                1u16
            } else if c == 2 {
                2u16
            } else {
                0xffffu16
            },
        ),
{
}

/// After the Zero/Negative recomputation from `val`, Zero is set iff `val`
/// is exactly 0 and Negative is set iff bit 15 of `val` is set, while the
/// Carry and Overflow flags keep their previous values.
pub proof fn lemma_zero_negative_flags(sr: u16, val: u16)
    by (bit_vector)
    ensures
        flag_on(zn_put(sr, val), ZEROF) == (val == 0),
        flag_on(zn_put(sr, val), NEGF) == (val & 0x8000 != 0),
        flag_on(zn_put(sr, val), CARRYF) == flag_on(sr, CARRYF),
        flag_on(zn_put(sr, val), OVERF) == flag_on(sr, OVERF),
{
}

/// Reading a source operand through `IndirectAutoincrement` advances the
/// register by exactly 2, once; a writeback through the same mode touches no
/// register at all.
pub proof fn lemma_autoincrement_once(v: CpuV, reg: u8, bw: bool, val: u16)
    requires
        cpuv_wf(v),
        reg < 16,
    ensures
        read_effect(v, reg, AddressingMode::IndirectInc, bw).0.regs[reg as int] == v.regs[
            reg as int
        ].wrapping_add(2),
        forall|j: int|
            0 <= j < 16 && j != reg ==> read_effect(v, reg, AddressingMode::IndirectInc, bw).0.regs[
                j
            ] == v.regs[j],
        write_effect(
            read_effect(v, reg, AddressingMode::IndirectInc, bw).0,
            reg,
            AddressingMode::IndirectInc,
            bw,
            val,
        ).0.regs == read_effect(v, reg, AddressingMode::IndirectInc, bw).0.regs,
{
}

/// The concrete addressing mode that (register, mode code) names, given the
/// extra instruction word for the modes that carry one.
pub(crate) fn resolve_mode_value(reg: u8, c: u8, extra: u16) -> (m: AddressingMode)
    requires
        c < 4,
    ensures
        m == resolved_mode_spec(reg, c, extra),
{
    if reg == 2 {
        if c == 0 {
            AddressingMode::Direct
        } else if c == 1 {
            AddressingMode::Absolute(extra)
        } else if c == 2 {
            AddressingMode::Const(4)
        } else {
            AddressingMode::Const(8)
        }
    } else if reg == 3 {
        if c == 0 {
            AddressingMode::Const(0)
        } else if c == 1 {
            AddressingMode::Const(1)
        } else if c == 2 {
            AddressingMode::Const(2)
        } else {
            AddressingMode::Const(0xffff)
        }
    } else if reg == 0 && c == 3 {
        AddressingMode::Const(extra)
    } else {
        if c == 0 {
            AddressingMode::Direct
        } else if c == 1 {
            AddressingMode::Indexed(extra)
        } else if c == 2 {
            AddressingMode::Indirect
        } else {
            AddressingMode::IndirectInc
        }
    }
}

} // verus!
