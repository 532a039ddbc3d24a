//! Exercises the disassembler's exact output format.

use emu16::disassemble::disassemble;

fn encode(src: u16, dst: u16, opcode: u16) -> u16 {
    (src << 11) | (dst << 6) | opcode
}

#[test]
fn register_forms_print_mnemonic_and_padded_indices() {
    assert_eq!(disassemble(encode(2, 1, 0b000000), 0), "ADD  r01, r02");
    assert_eq!(disassemble(encode(31, 30, 0b000001), 0), "SUB  r30, r31");
    assert_eq!(disassemble(encode(0, 0, 0b000010), 0), "AND  r00, r00");
    assert_eq!(disassemble(encode(7, 12, 0b000011), 0), "OR   r12, r07");
    assert_eq!(disassemble(encode(1, 2, 0b000100), 0), "XOR  r02, r01");
    assert_eq!(disassemble(encode(1, 2, 0b000101), 0), "SLL  r02, r01");
    assert_eq!(disassemble(encode(1, 2, 0b000110), 0), "SRL  r02, r01");
    assert_eq!(disassemble(encode(1, 2, 0b000111), 0), "SRA  r02, r01");
    assert_eq!(disassemble(encode(9, 10, 0b010000), 0), "LD   r10, r09");
    assert_eq!(disassemble(encode(9, 10, 0b010001), 0), "ST   r10, r09");
}

#[test]
fn immediate_forms_print_four_hex_digits() {
    assert_eq!(disassemble(encode(0, 1, 0b001000), 0x0005), "ADDI r01, r00, 0x0005");
    assert_eq!(disassemble(encode(3, 4, 0b001010), 0x0ff0), "ANDI r04, r03, 0x0ff0");
    assert_eq!(disassemble(encode(3, 4, 0b001011), 0xabcd), "ORI  r04, r03, 0xabcd");
    assert_eq!(disassemble(encode(3, 4, 0b001100), 0xffff), "XORI r04, r03, 0xffff");
    assert_eq!(disassemble(encode(3, 4, 0b001101), 0x0004), "SFTI r04, r03, 0x0004");
    assert_eq!(disassemble(encode(3, 4, 0b001111), 0x0003), "SRAI r04, r03, 0x0003");
    assert_eq!(disassemble(encode(3, 4, 0b011000), 0x0100), "LDIO r04, r03, 0x0100");
    assert_eq!(disassemble(encode(3, 4, 0b011001), 0x0100), "STIO r04, r03, 0x0100");
    assert_eq!(disassemble(encode(3, 4, 0b101000), 0x0040), "JAL  r04, r03, 0x0040");
    assert_eq!(disassemble(encode(3, 4, 0b101010), 0x0010), "BEQ  r04, r03, 0x0010");
    assert_eq!(disassemble(encode(3, 4, 0b101011), 0x0010), "BNE  r04, r03, 0x0010");
    assert_eq!(disassemble(encode(3, 4, 0b101100), 0x0010), "BLT  r04, r03, 0x0010");
    assert_eq!(disassemble(encode(3, 4, 0b101101), 0x0010), "BGE  r04, r03, 0x0010");
    assert_eq!(disassemble(encode(3, 4, 0b101110), 0x0010), "BLTU r04, r03, 0x0010");
    assert_eq!(disassemble(encode(3, 4, 0b101111), 0x0010), "BGEU r04, r03, 0x0010");
}

#[test]
fn negative_immediates_print_their_bit_pattern() {
    assert_eq!(disassemble(encode(0, 1, 0b001000), (-2i16) as u16), "ADDI r01, r00, 0xfffe");
    assert_eq!(disassemble(encode(0, 1, 0b001101), (-4i16) as u16), "SFTI r01, r00, 0xfffc");
}

#[test]
fn jsh_prints_the_sign_extended_offset() {
    assert_eq!(disassemble((0b0000000010 << 6) | 0b101001, 0), "JSH            0x0002");
    assert_eq!(disassemble((0b1111111110 << 6) | 0b101001, 0), "JSH            0xfffe");
    // The offset bits are recovered whatever the immediate word holds.
    assert_eq!(disassemble((0b0000000010 << 6) | 0b101001, 0xffff), "JSH            0x0002");
}

#[test]
fn unassigned_opcodes_produce_an_empty_string() {
    assert_eq!(disassemble(encode(1, 2, 0b001001), 0), "");
    assert_eq!(disassemble(encode(1, 2, 0b111111), 0xffff), "");
    assert_eq!(disassemble(encode(0, 0, 0b100000), 0), "");
}

#[test]
fn every_assigned_opcode_agrees_with_the_engine_table() {
    let table: [(u16, &str); 26] = [
        (0b000000, "ADD"),
        (0b000001, "SUB"),
        (0b000010, "AND"),
        (0b000011, "OR"),
        (0b000100, "XOR"),
        (0b000101, "SLL"),
        (0b000110, "SRL"),
        (0b000111, "SRA"),
        (0b001000, "ADDI"),
        (0b001010, "ANDI"),
        (0b001011, "ORI"),
        (0b001100, "XORI"),
        (0b001101, "SFTI"),
        (0b001111, "SRAI"),
        (0b010000, "LD"),
        (0b010001, "ST"),
        (0b011000, "LDIO"),
        (0b011001, "STIO"),
        (0b101000, "JAL"),
        (0b101001, "JSH"),
        (0b101010, "BEQ"),
        (0b101011, "BNE"),
        (0b101100, "BLT"),
        (0b101101, "BGE"),
        (0b101110, "BLTU"),
        (0b101111, "BGEU"),
    ];
    for (opcode, mnemonic) in table {
        let text = disassemble(encode(23, 7, opcode), 0x0001);
        assert!(text.starts_with(mnemonic), "opcode {:#08b}: {}", opcode, text);
        if opcode != 0b101001 {
            // The printed indices are the fields the engine extracts.
            assert_eq!(&text[5..8], "r07", "opcode {:#08b}: {}", opcode, text);
            assert_eq!(&text[10..13], "r23", "opcode {:#08b}: {}", opcode, text);
        }
    }
}
