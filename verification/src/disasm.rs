//! Rendering of decoded instructions to mnemonic text, and the static
//! disassembler over a raw byte image.

use vstd::prelude::*;

verus! {

use vstd::string::StringExecFns;
use crate::cpu::{needs_extra, resolve_mode_value, resolved_mode_spec, LOAD_ADDR};
use crate::isa::{
    AddressingMode,
    Instruction,
    OpType,
    decode_spec,
    dest_code,
    lemma_decode_bounds,
    parse_inst,
    src_code,
};

/// The text of one lowercase hexadecimal digit.
pub open spec fn hexdigit_s(d: u16) -> Seq<char> {
    if d == 0 {
        "0"@
    } else if d == 1 {
        "1"@
    } else if d == 2 {
        "2"@
    } else if d == 3 {
        "3"@
    } else if d == 4 {
        "4"@
    } else if d == 5 {
        "5"@
    } else if d == 6 {
        "6"@
    } else if d == 7 {
        "7"@
    } else if d == 8 {
        "8"@
    } else if d == 9 {
        "9"@
    } else if d == 10 {
        "a"@
    } else if d == 11 {
        "b"@
    } else if d == 12 {
        "c"@
    } else if d == 13 {
        "d"@
    } else if d == 14 {
        "e"@
    } else {
        "f"@
    }
}

/// Minimal-length lowercase hexadecimal text of a word.
pub open spec fn hex_s(n: u16) -> Seq<char>
    decreases n,
{
    if n < 16 {
        hexdigit_s(n)
    } else {
        hex_s(n / 16) + hexdigit_s(n % 16)
    }
}

/// Four-digit lowercase hexadecimal text of a word.
pub open spec fn hex4_s(n: u16) -> Seq<char> {
    hexdigit_s((n / 0x1000) % 16) + hexdigit_s((n / 0x100) % 16) + hexdigit_s((n / 16) % 16)
        + hexdigit_s(n % 16)
}

/// Decimal text of a register number.
pub open spec fn reg_s(r: u8) -> Seq<char> {
    if r == 0 {
        "0"@
    } else if r == 1 {
        "1"@
    } else if r == 2 {
        "2"@
    } else if r == 3 {
        "3"@
    } else if r == 4 {
        "4"@
    } else if r == 5 {
        "5"@
    } else if r == 6 {
        "6"@
    } else if r == 7 {
        "7"@
    } else if r == 8 {
        "8"@
    } else if r == 9 {
        "9"@
    } else if r == 10 {
        "10"@
    } else if r == 11 {
        "11"@
    } else if r == 12 {
        "12"@
    } else if r == 13 {
        "13"@
    } else if r == 14 {
        "14"@
    } else if r == 15 {
        "15"@
    } else {
        "?"@
    }
}

/// The mnemonic of (format, opcode).
pub open spec fn mnemonic_s(t: OpType, op: u8) -> Seq<char> {
    match t {
        OpType::NoArg => {
            if op == 0 {
                "JNE"@
            } else if op == 1 {
                "JEQ"@
            } else if op == 2 {
                "JNC"@
            } else if op == 3 {
                "JC"@
            } else if op == 4 {
                "JN"@
            } else if op == 5 {
                "JGE"@
            } else if op == 6 {
                "JL"@
            } else if op == 7 {
                "JMP"@
            } else {
                "UNK"@
            }
        },
        OpType::OneArg => {
            if op == 0 {
                "RRC"@
            } else if op == 1 {
                "SWPB"@
            } else if op == 2 {
                "RRA"@
            } else if op == 3 {
                "SXT"@
            } else if op == 4 {
                "PUSH"@
            } else if op == 5 {
                "CALL"@
            } else if op == 6 {
                "RETI"@
            } else {
                "UNK"@
            }
        },
        OpType::TwoArg => {
            if op == 4 {
                "MOV"@
            } else if op == 5 {
                "ADD"@
            } else if op == 6 {
                "ADDC"@
            } else if op == 7 {
                "SUBC"@
            } else if op == 8 {
                "SUB"@
            } else if op == 9 {
                "CMP"@
            } else if op == 10 {
                "DADD"@
            } else if op == 11 {
                "BIT"@
            } else if op == 12 {
                "BIC"@
            } else if op == 13 {
                "BIS"@
            } else if op == 14 {
                "XOR"@
            } else if op == 15 {
                "AND"@
            } else {
                "UNK"@
            }
        },
        OpType::Interrupt => "INT"@,
    }
}

/// The mnemonic with the byte-form suffix when the byte/word flag is set.
pub open spec fn mnemonic_bw_s(i: Instruction) -> Seq<char> {
    if i.bw {
        mnemonic_s(i.optype, i.opcode) + ".B"@
    } else {
        mnemonic_s(i.optype, i.opcode)
    }
}

/// The text of one operand: its resolved addressing mode against its
/// register.
pub open spec fn mode_text_s(mode: AddressingMode, reg: u8) -> Seq<char> {
    match mode {
        AddressingMode::Direct => "r"@ + reg_s(reg),
        AddressingMode::Indirect => "@r"@ + reg_s(reg),
        AddressingMode::IndirectInc => "@r"@ + reg_s(reg) + "+"@,
        AddressingMode::Absolute(a) => "&0x"@ + hex_s(a),
        AddressingMode::Indexed(off) => "(0x"@ + hex_s(off) + ")r"@ + reg_s(reg),
        AddressingMode::Const(n) => hex_s(n),
    }
}

/// The rendered text of a decoded instruction: mnemonic, byte suffix, and
/// the operand texts of its format.
pub open spec fn inst_text_s(i: Instruction) -> Seq<char> {
    match i.optype {
        OpType::NoArg => mnemonic_bw_s(i) + " "@ + "#0x"@ + hex4_s(i.offset.wrapping_add(2))
            + " "@,
        OpType::OneArg => mnemonic_bw_s(i) + " "@ + mode_text_s(i.destmode, i.destreg) + " "@,
        OpType::TwoArg => mnemonic_bw_s(i) + " "@ + mode_text_s(i.srcmode, i.srcreg) + " "@
            + mode_text_s(i.destmode, i.destreg),
        OpType::Interrupt => mnemonic_bw_s(i) + " "@ + " "@,
    }
}

/// One lowercase hexadecimal digit.
fn hexdigit_str(d: u16) -> (s: &'static str)
    ensures
        s@ == hexdigit_s(d),
{
    if d == 0 {
        "0"
    } else if d == 1 {
        "1"
    } else if d == 2 {
        "2"
    } else if d == 3 {
        "3"
    } else if d == 4 {
        "4"
    } else if d == 5 {
        "5"
    } else if d == 6 {
        "6"
    } else if d == 7 {
        "7"
    } else if d == 8 {
        "8"
    } else if d == 9 {
        "9"
    } else if d == 10 {
        "a"
    } else if d == 11 {
        "b"
    } else if d == 12 {
        "c"
    } else if d == 13 {
        "d"
    } else if d == 14 {
        "e"
    } else {
        "f"
    }
}

/// Minimal-length lowercase hexadecimal text of a word.
fn hex_string(n: u16) -> (s: String)
    ensures
        s@ == hex_s(n),
    decreases n,
{
    if n < 16 {
        String::from_str(hexdigit_str(n))
    } else {
        let mut s = hex_string(n / 16);
        s.append(hexdigit_str(n % 16));
        s
    }
}

/// Four-digit lowercase hexadecimal text of a word.
fn hex4_string(n: u16) -> (s: String)
    ensures
        s@ == hex4_s(n),
{
    let mut s = String::from_str(hexdigit_str((n / 0x1000) % 16));
    s.append(hexdigit_str((n / 0x100) % 16));
    s.append(hexdigit_str((n / 16) % 16));
    s.append(hexdigit_str(n % 16));
    proof {
        assert(s@ =~= hex4_s(n));
    }
    s
}

/// Decimal text of a register number.
fn reg_string(r: u8) -> (s: &'static str)
    ensures
        s@ == reg_s(r),
{
    if r == 0 {
        "0"
    } else if r == 1 {
        "1"
    } else if r == 2 {
        "2"
    } else if r == 3 {
        "3"
    } else if r == 4 {
        "4"
    } else if r == 5 {
        "5"
    } else if r == 6 {
        "6"
    } else if r == 7 {
        "7"
    } else if r == 8 {
        "8"
    } else if r == 9 {
        "9"
    } else if r == 10 {
        "10"
    } else if r == 11 {
        "11"
    } else if r == 12 {
        "12"
    } else if r == 13 {
        "13"
    } else if r == 14 {
        "14"
    } else if r == 15 {
        "15"
    } else {
        "?"
    }
}

/// The text of one operand.
pub fn optype_formatter(mode: AddressingMode, reg: u8) -> (s: String)
    ensures
        s@ == mode_text_s(mode, reg),
{
    match mode {
        AddressingMode::Direct => {
            let mut s = String::from_str("r");
            s.append(reg_string(reg));
            s
        },
        AddressingMode::Indirect => {
            let mut s = String::from_str("@r");
            s.append(reg_string(reg));
            s
        },
        AddressingMode::IndirectInc => {
            let mut s = String::from_str("@r");
            s.append(reg_string(reg));
            s.append("+");
            proof {
                assert(s@ =~= mode_text_s(mode, reg));
            }
            s
        },
        AddressingMode::Absolute(a) => {
            let mut s = String::from_str("&0x");
            s.append(hex_string(a).as_str());
            s
        },
        AddressingMode::Indexed(off) => {
            let mut s = String::from_str("(0x");
            s.append(hex_string(off).as_str());
            s.append(")r");
            s.append(reg_string(reg));
            proof {
                assert(s@ =~= mode_text_s(mode, reg));
            }
            s
        },
        AddressingMode::Const(n) => hex_string(n),
    }
}

impl Instruction {
    /// The mnemonic of this instruction.
    pub fn namer(&self) -> (s: &'static str)
        ensures
            s@ == mnemonic_s(self.optype, self.opcode),
    {
        match self.optype {
            OpType::NoArg => {
                if self.opcode == 0 {
                    "JNE"
                } else if self.opcode == 1 {
                    "JEQ"
                } else if self.opcode == 2 {
                    "JNC"
                } else if self.opcode == 3 {
                    "JC"
                } else if self.opcode == 4 {
                    "JN"
                } else if self.opcode == 5 {
                    "JGE"
                } else if self.opcode == 6 {
                    "JL"
                } else if self.opcode == 7 {
                    "JMP"
                } else {
                    "UNK"
                }
            },
            OpType::OneArg => {
                if self.opcode == 0 {
                    "RRC"
                } else if self.opcode == 1 {
                    "SWPB"
                } else if self.opcode == 2 {
                    "RRA"
                } else if self.opcode == 3 {
                    "SXT"
                } else if self.opcode == 4 {
                    "PUSH"
                } else if self.opcode == 5 {
                    "CALL"
                } else if self.opcode == 6 {
                    "RETI"
                } else {
                    "UNK"
                }
            },
            OpType::TwoArg => {
                if self.opcode == 4 {
                    "MOV"
                } else if self.opcode == 5 {
                    "ADD"
                } else if self.opcode == 6 {
                    "ADDC"
                } else if self.opcode == 7 {
                    "SUBC"
                } else if self.opcode == 8 {
                    "SUB"
                } else if self.opcode == 9 {
                    "CMP"
                } else if self.opcode == 10 {
                    "DADD"
                } else if self.opcode == 11 {
                    "BIT"
                } else if self.opcode == 12 {
                    "BIC"
                } else if self.opcode == 13 {
                    "BIS"
                } else if self.opcode == 14 {
                    "XOR"
                } else if self.opcode == 15 {
                    "AND"
                } else {
                    "UNK"
                }
            },
            OpType::Interrupt => "INT",
        }
    }

    /// Render this instruction to its canonical mnemonic text.
    pub fn to_string(&self) -> (s: String)
        ensures
            s@ == inst_text_s(*self),
    {
        let mut s = String::from_str(self.namer());
        if self.bw {
            s.append(".B");
        }
        s.append(" ");
        match self.optype {
            OpType::NoArg => {
                s.append("#0x");
                s.append(hex4_string(self.offset.wrapping_add(2)).as_str());
                s.append(" ");
                proof {
                    assert(s@ =~= inst_text_s(*self));
                }
            },
            OpType::OneArg => {
                s.append(optype_formatter(self.destmode, self.destreg).as_str());
                s.append(" ");
                proof {
                    assert(s@ =~= inst_text_s(*self));
                }
            },
            OpType::TwoArg => {
                s.append(optype_formatter(self.srcmode, self.srcreg).as_str());
                s.append(" ");
                s.append(optype_formatter(self.destmode, self.destreg).as_str());
                proof {
                    assert(s@ =~= inst_text_s(*self));
                }
            },
            OpType::Interrupt => {
                s.append(" ");
                proof {
                    assert(s@ =~= inst_text_s(*self));
                }
            },
        }
        s
    }
}

/// The little-endian word at byte offset `pos` of an image, zero past its
/// end.
pub open spec fn word_in_image(img: Seq<u8>, pos: nat) -> u16 {
    if pos + 2 <= img.len() {
        (img[pos as int] as u16) | ((img[pos as int + 1] as u16) << 8)
    } else {
        0
    }
}

/// Statically resolve one operand of an instruction against the image: the
/// mode and the byte offset after any extra word it consumes.
pub open spec fn static_one(img: Seq<u8>, reg: u8, c: u8, pos: nat) -> (AddressingMode, nat) {
    if needs_extra(reg, c) {
        (resolved_mode_spec(reg, c, word_in_image(img, pos)), pos + 2)
    } else {
        (resolved_mode_spec(reg, c, 0), pos)
    }
}

/// Statically resolve the addressing modes of a decoded instruction against
/// the image, source before destination: the resolved instruction and the
/// byte offset after all consumed extra words.
pub open spec fn static_resolve(img: Seq<u8>, i: Instruction, pos: nat) -> (Instruction, nat) {
    match i.optype {
        OpType::TwoArg | OpType::Interrupt => {
            let (sm, p1) = static_one(img, i.srcreg, src_code(i.code), pos);
            let (dm, p2) = static_one(img, i.destreg, dest_code(i.code), p1);
            (Instruction { srcmode: sm, destmode: dm, ..i }, p2)
        },
        OpType::OneArg => {
            let (dm, p1) = static_one(img, i.destreg, src_code(i.code), pos);
            (Instruction { destmode: dm, ..i }, p1)
        },
        OpType::NoArg => (i, pos),
    }
}

/// The sequence of (address, resolved instruction) pairs obtained by
/// decoding the image in stream order from byte offset `pos`, as if loaded
/// at the fixed load address. Meaningful when the image fits below the top
/// of the address space.
pub open spec fn disasm_s(img: Seq<u8>, pos: nat) -> Seq<(u16, Instruction)>
    decreases img.len() - pos,
{
    if pos + 2 > img.len() {
        Seq::empty()
    } else {
        let addr = (LOAD_ADDR + pos) as u16;
        let code = word_in_image(img, pos);
        let (i1, pos2) = static_resolve(img, decode_spec(code, addr), pos + 2);
        let inst = Instruction { memloc: addr, ..i1 };
        let rest = if pos2 + 2 <= img.len() {
            disasm_s(img, pos2)
        } else {
            Seq::empty()
        };
        seq![(addr, inst)] + rest
    }
}

/// Statically resolve one operand against the image bytes.
fn static_one_word(image: &[u8], reg: u8, c: u8, pos: usize) -> (r: (AddressingMode, usize))
    requires
        c < 4,
        image@.len() <= 0xbc00,
        pos <= image@.len() + 2,
    ensures
        r.0 == static_one(image@, reg, c, pos as nat).0,
        r.1 as nat == static_one(image@, reg, c, pos as nat).1,
        pos <= r.1 <= pos + 2,
{
    if (c == 1 && reg != 3) || (c == 3 && reg == 0) {
        let w: u16 = if pos + 2 <= image.len() {
            (image[pos] as u16) | ((image[pos + 1] as u16) << 8)
        } else {
            0
        };
        (resolve_mode_value(reg, c, w), pos + 2)
    } else {
        (resolve_mode_value(reg, c, 0), pos)
    }
}

/// Statically resolve the addressing modes of a decoded instruction against
/// the image bytes.
fn static_resolve_inst(image: &[u8], i: Instruction, pos: usize) -> (r: (Instruction, usize))
    requires
        image@.len() <= 0xbc00,
        pos <= image@.len(),
    ensures
        r.0 == static_resolve(image@, i, pos as nat).0,
        r.1 as nat == static_resolve(image@, i, pos as nat).1,
        pos <= r.1 <= pos + 4,
{
    proof {
        lemma_decode_bounds(i.code);
    }
    match i.optype {
        OpType::TwoArg | OpType::Interrupt => {
            let sc = ((i.code & 0x30) >> 4) as u8;
            let dc = ((i.code & 0x80) >> 7) as u8;
            let (sm, p1) = static_one_word(image, i.srcreg, sc, pos);
            let (dm, p2) = static_one_word(image, i.destreg, dc, p1);
            (Instruction { srcmode: sm, destmode: dm, ..i }, p2)
        },
        OpType::OneArg => {
            let dc = ((i.code & 0x30) >> 4) as u8;
            let (dm, p1) = static_one_word(image, i.destreg, dc, pos);
            (Instruction { destmode: dm, ..i }, p1)
        },
        OpType::NoArg => (i, pos),
    }
}

/// Disassemble a raw byte image into its ordered (address, mnemonic text)
/// listing, decoding in stream order as if the image were loaded at the
/// fixed load address, without any live machine.
pub fn disassemble(image: &[u8]) -> (r: Vec<(u16, String)>)
    requires
        image@.len() <= 0xbc00,
    ensures
        r@.len() == disasm_s(image@, 0).len(),
        forall|k: int|
            0 <= k < r@.len() ==> (#[trigger] r@[k]).0 == disasm_s(image@, 0)[k].0 && r@[k].1@
                == inst_text_s(disasm_s(image@, 0)[k].1),
{
    let mut out: Vec<(u16, String)> = Vec::new();
    let ghost full = disasm_s(image@, 0);
    let ghost mut done: Seq<(u16, Instruction)> = Seq::empty();
    let mut pos: usize = 0;
    while pos + 2 <= image.len()
        invariant
            image@.len() <= 0xbc00,
            pos <= image@.len() + 4,
            full == disasm_s(image@, 0),
            full == done + disasm_s(image@, pos as nat),
            out@.len() == done.len(),
            forall|k: int|
                0 <= k < done.len() ==> (#[trigger] out@[k]).0 == done[k].0 && out@[k].1@
                    == inst_text_s(done[k].1),
        decreases image@.len() + 4 - pos,
    {
        let code = (image[pos] as u16) | ((image[pos + 1] as u16) << 8);
        let addr = LOAD_ADDR + (pos as u16);
        let mut inst = parse_inst(code, addr);
        let rr = static_resolve_inst(image, inst, pos + 2);
        inst = rr.0;
        inst.memloc = addr;
        let pos2 = rr.1;
        let text = inst.to_string();
        let ghost out_prev = out@;
        let ghost done_prev = done;
        let ghost textv = text@;
        out.push((addr, text));
        proof {
            assert(disasm_s(image@, pos as nat) == seq![(addr, inst)] + disasm_s(
                image@,
                pos2 as nat,
            ));
            done = done.push((addr, inst));
            assert(full =~= done + disasm_s(image@, pos2 as nat));
            assert(out@.len() == out_prev.len() + 1);
            assert forall|k: int|
                0 <= k < done.len() implies (#[trigger] out@[k]).0 == done[k].0 && out@[k].1@
                == inst_text_s(done[k].1) by {
                if k < done.len() - 1 {
                    assert(out@[k] == out_prev[k]);
                    assert(done[k] == done_prev[k]);
                } else {
                    assert(out@[k].0 == addr);
                    assert((out@[k].1)@ == textv);
                    assert(done[k] == (addr, inst));
                }
            }
        }
        pos = pos2;
    }
    proof {
        assert(full =~= done);
    }
    out
}

} // verus!
