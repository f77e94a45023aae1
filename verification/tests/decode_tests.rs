use mspsim::disasm::disassemble;
use mspsim::input::str2bytes;
use mspsim::isa::{parse_inst, AddressingMode, Instruction, OpType};

#[test]
fn parse_tests() {
    let instrs: [u16; 1] = [0x4031]; // MOV
    let optype: [OpType; 1] = [OpType::TwoArg];
    let opcodes: [u8; 1] = [0b0100];
    let sourceregs: [u8; 1] = [0b0000];
    let ads: [AddressingMode; 1] = [AddressingMode::Direct];
    let bws: [bool; 1] = [false];
    // Mode code 3 on the source: indirect autoincrement on register 0.
    let asses: [AddressingMode; 1] = [AddressingMode::IndirectInc];
    let destregs: [u8; 1] = [0b0001];
    for (ix, &code) in instrs.iter().enumerate() {
        let inst = parse_inst(code, 0x4400);
        assert_eq!(inst.opcode, opcodes[ix]);
        assert_eq!(inst.optype, optype[ix]);
        assert_eq!(inst.srcreg, sourceregs[ix]);
        assert_eq!(inst.destmode, ads[ix]);
        assert_eq!(inst.bw, bws[ix]);
        assert_eq!(inst.srcmode, asses[ix]);
        assert_eq!(inst.destreg, destregs[ix]);
    }
}

#[test]
fn decode_is_deterministic() {
    let a = parse_inst(0x5034, 0x4400);
    let b = parse_inst(0x5034, 0x4400);
    assert_eq!(a.optype, b.optype);
    assert_eq!(a.opcode, b.opcode);
    assert_eq!(a.srcreg, b.srcreg);
    assert_eq!(a.destreg, b.destreg);
    assert_eq!(a.bw, b.bw);
    assert_eq!(a.offset, b.offset);
}

#[test]
fn decode_trap_format() {
    let inst = parse_inst(0xabcd, 0x10);
    assert_eq!(inst.optype, OpType::Interrupt);
    // The raw word is discarded; the synthesized move's fields stand.
    assert_eq!(inst.code, 0x4130);
    assert_eq!(inst.opcode, 4);
    assert_eq!(inst.srcreg, 1);
    assert_eq!(inst.destreg, 0);
}

#[test]
fn decode_jump_offset_sign_extension() {
    // 0x3c00 | 0x3ff: JMP with the most negative 10-bit displacement field.
    let back = parse_inst(0x3fff, 0x4400);
    assert_eq!(back.optype, OpType::NoArg);
    assert_eq!(back.opcode, 7);
    assert_eq!(back.offset, 0xfffeu16); // -1 words = -2 bytes
    let fwd = parse_inst(0x3c04, 0x4400);
    assert_eq!(fwd.offset, 8);
}

#[test]
fn render_two_operand() {
    let inst = parse_inst(0x4031, 0x4400);
    assert_eq!(inst.namer(), "MOV");
    assert_eq!(inst.to_string(), "MOV @r0+ r1");
}

#[test]
fn render_byte_form_and_jump() {
    // MOV.B @r4, r5
    let mov_b = parse_inst(0x4465, 0x4400);
    assert_eq!(mov_b.to_string(), "MOV.B @r4 r5");
    // JGE with displacement field 4: rendered relative to the word start.
    let jge = parse_inst(0x3404, 0x4400);
    assert_eq!(jge.to_string(), "JGE #0x000a ");
}

#[test]
fn disassemble_listing() {
    // MOV #0x4400, r1 then JMP -2.
    let image = [0x31, 0x40, 0x00, 0x44, 0xff, 0x3f];
    let listing = disassemble(&image);
    assert_eq!(listing.len(), 2);
    assert_eq!(listing[0].0, 0x4400);
    assert_eq!(listing[0].1, "MOV 4400 r1");
    assert_eq!(listing[1].0, 0x4404);
    assert_eq!(listing[1].1, "JMP #0x0000 ");
}

#[test]
fn disassemble_empty_image() {
    let listing = disassemble(&[]);
    assert_eq!(listing.len(), 0);
}

#[test]
fn str2bytes_plain_text() {
    assert_eq!(str2bytes("AB"), vec![0x41, 0x42, 0]);
    assert_eq!(str2bytes(""), vec![0]);
}

#[test]
fn str2bytes_hex_pairs() {
    assert_eq!(str2bytes("x4142"), vec![0x41, 0x42, 0, 0]);
    // A final lone digit encodes its own value.
    assert_eq!(str2bytes("x414"), vec![0x41, 0x04, 0, 0]);
    // A chunk that is not two hexadecimal digits is skipped.
    assert_eq!(str2bytes("x4g42"), vec![0x42, 0, 0]);
    assert_eq!(str2bytes("xAb"), vec![0xab, 0, 0]);
}

#[test]
fn instruction_new_is_placeholder() {
    let i = Instruction::new();
    assert_eq!(i.code, 0);
    assert_eq!(i.optype, OpType::NoArg);
    assert_eq!(i.srcmode, AddressingMode::Direct);
}
