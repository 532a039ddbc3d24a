//! The disassembler: a pure function from an instruction word and its
//! (possibly irrelevant) immediate word to a display string. It shares the
//! decode field layout and opcode table with the execute engine. Register
//! operands print as `r` followed by a zero-padded two-digit index;
//! immediate operands print as `0x` followed by four lowercase hex digits
//! of the operand's 16-bit pattern (which renders signed immediates in
//! two's complement, exactly as the engine reads them). Unassigned opcodes
//! produce an empty string.

use vstd::prelude::*;
use vstd::string::StringExecFns;

use crate::cpu::OP_ADD;
use crate::cpu::OP_ADDI;
use crate::cpu::OP_AND;
use crate::cpu::OP_ANDI;
use crate::cpu::OP_BEQ;
use crate::cpu::OP_BGE;
use crate::cpu::OP_BGEU;
use crate::cpu::OP_BLT;
use crate::cpu::OP_BLTU;
use crate::cpu::OP_BNE;
use crate::cpu::OP_JAL;
use crate::cpu::OP_JSH;
use crate::cpu::OP_LD;
use crate::cpu::OP_LDIO;
use crate::cpu::OP_OR;
use crate::cpu::OP_ORI;
use crate::cpu::OP_SFTI;
use crate::cpu::OP_SLL;
use crate::cpu::OP_SRA;
use crate::cpu::OP_SRAI;
use crate::cpu::OP_SRL;
use crate::cpu::OP_ST;
use crate::cpu::OP_STIO;
use crate::cpu::OP_SUB;
use crate::cpu::OP_XOR;
use crate::cpu::OP_XORI;
use crate::cpu::dst_index_of;
use crate::cpu::jsh_offset;
use crate::cpu::opcode_assigned;
use crate::cpu::opcode_of;
use crate::cpu::src_index_of;

verus! {

/// The decimal digit character for a value below ten.
pub open spec fn dec_digit(d: u16) -> char {
    if d == 0 {
        '0'
    } else if d == 1 {
        '1'
    } else if d == 2 {
        '2'
    } else if d == 3 {
        '3'
    } else if d == 4 {
        '4'
    } else if d == 5 {
        '5'
    } else if d == 6 {
        '6'
    } else if d == 7 {
        '7'
    } else if d == 8 {
        '8'
    } else {
        '9'
    }
}

/// The lowercase hex digit character for a value below sixteen.
pub open spec fn hex_digit(d: u16) -> char {
    if d < 10 {
        dec_digit(d)
    } else if d == 10 {
        'a'
    } else if d == 11 {
        'b'
    } else if d == 12 {
        'c'
    } else if d == 13 {
        'd'
    } else if d == 14 {
        'e'
    } else {
        'f'
    }
}

/// A register index rendered as two zero-padded decimal digits.
pub open spec fn reg2(index: u16) -> Seq<char> {
    seq![dec_digit(index / 10), dec_digit(index % 10)]
}

/// A 16-bit word rendered as `0x` and four lowercase hex digits.
pub open spec fn hex4(value: u16) -> Seq<char> {
    seq![
        '0',
        'x',
        hex_digit((value >> 12) & 0xf),
        hex_digit((value >> 8) & 0xf),
        hex_digit((value >> 4) & 0xf),
        hex_digit(value & 0xf),
    ]
}

/// A run of space characters.
pub open spec fn spaces(count: nat) -> Seq<char> {
    Seq::new(count, |i: int| ' ')
}

/// The mnemonic of an assigned opcode, exactly as the engine's opcode
/// table names it.
pub open spec fn mnemonic_of(op: u16) -> Seq<char> {
    if op == OP_ADD {
        seq!['A', 'D', 'D']
    } else if op == OP_SUB {
        seq!['S', 'U', 'B']
    } else if op == OP_AND {
        seq!['A', 'N', 'D']
    } else if op == OP_OR {
        seq!['O', 'R']
    } else if op == OP_XOR {
        seq!['X', 'O', 'R']
    } else if op == OP_SLL {
        seq!['S', 'L', 'L']
    } else if op == OP_SRL {
        seq!['S', 'R', 'L']
    } else if op == OP_SRA {
        seq!['S', 'R', 'A']
    } else if op == OP_ADDI {
        seq!['A', 'D', 'D', 'I']
    } else if op == OP_ANDI {
        seq!['A', 'N', 'D', 'I']
    } else if op == OP_ORI {
        seq!['O', 'R', 'I']
    } else if op == OP_XORI {
        seq!['X', 'O', 'R', 'I']
    } else if op == OP_SFTI {
        seq!['S', 'F', 'T', 'I']
    } else if op == OP_SRAI {
        seq!['S', 'R', 'A', 'I']
    } else if op == OP_LD {
        seq!['L', 'D']
    } else if op == OP_ST {
        seq!['S', 'T']
    } else if op == OP_LDIO {
        seq!['L', 'D', 'I', 'O']
    } else if op == OP_STIO {
        seq!['S', 'T', 'I', 'O']
    } else if op == OP_JAL {
        seq!['J', 'A', 'L']
    } else if op == OP_JSH {
        seq!['J', 'S', 'H']
    } else if op == OP_BEQ {
        seq!['B', 'E', 'Q']
    } else if op == OP_BNE {
        seq!['B', 'N', 'E']
    } else if op == OP_BLT {
        seq!['B', 'L', 'T']
    } else if op == OP_BGE {
        seq!['B', 'G', 'E']
    } else if op == OP_BLTU {
        seq!['B', 'L', 'T', 'U']
    } else if op == OP_BGEU {
        seq!['B', 'G', 'E', 'U']
    } else {
        Seq::empty()
    }
}

/// True of the assigned opcodes whose display carries an immediate
/// operand.
pub open spec fn displays_immediate(op: u16) -> bool {
    ||| op == OP_ADDI
    ||| op == OP_ANDI
    ||| op == OP_ORI
    ||| op == OP_XORI
    ||| op == OP_SFTI
    ||| op == OP_SRAI
    ||| op == OP_LDIO
    ||| op == OP_STIO
    ||| op == OP_JAL
    ||| op == OP_BEQ
    ||| op == OP_BNE
    ||| op == OP_BLT
    ||| op == OP_BGE
    ||| op == OP_BLTU
    ||| op == OP_BGEU
}

/// The mnemonic padded to four columns, a space, and the `r` that opens
/// the destination operand.
pub open spec fn operand_head(op: u16) -> Seq<char> {
    mnemonic_of(op) + spaces((5 - mnemonic_of(op).len()) as nat) + seq!['r']
}

/// The exact display text for an instruction word and its immediate word.
pub open spec fn spec_disassemble(instruction: u16, immediate: u16) -> Seq<char> {
    let op = opcode_of(instruction);
    if !opcode_assigned(op) {
        Seq::empty()
    } else if op == OP_JSH {
        mnemonic_of(op) + spaces(12) + hex4(jsh_offset(instruction) as u16)
    } else {
        let regs = operand_head(op) + reg2(dst_index_of(instruction)) + seq![',', ' ', 'r']
            + reg2(src_index_of(instruction));
        if displays_immediate(op) {
            regs + seq![',', ' '] + hex4(immediate)
        } else {
            regs
        }
    }
}

/// The single-character string for a decimal digit value.
fn digit_str(d: u16) -> (s: &'static str)
    requires
        d < 10,
    ensures
        s@ == seq![dec_digit(d)],
{
    let s: &'static str = match d {
        0 => "0",
        1 => "1",
        2 => "2",
        3 => "3",
        4 => "4",
        5 => "5",
        6 => "6",
        7 => "7",
        8 => "8",
        _ => "9",
    };
    proof {
        reveal_strlit("0");
        reveal_strlit("1");
        reveal_strlit("2");
        reveal_strlit("3");
        reveal_strlit("4");
        reveal_strlit("5");
        reveal_strlit("6");
        reveal_strlit("7");
        reveal_strlit("8");
        reveal_strlit("9");
    }
    assert(s@ =~= seq![dec_digit(d)]);
    s
}

/// The single-character string for a hex digit value.
fn hex_digit_str(d: u16) -> (s: &'static str)
    requires
        d < 16,
    ensures
        s@ == seq![hex_digit(d)],
{
    if d < 10 {
        digit_str(d)
    } else {
        let s: &'static str = match d {
            10 => "a",
            11 => "b",
            12 => "c",
            13 => "d",
            14 => "e",
            _ => "f",
        };
        proof {
            reveal_strlit("a");
            reveal_strlit("b");
            reveal_strlit("c");
            reveal_strlit("d");
            reveal_strlit("e");
            reveal_strlit("f");
        }
        assert(s@ =~= seq![hex_digit(d)]);
        s
    }
}

/// Append a register index as two zero-padded decimal digits.
fn push_reg(out: &mut String, index: u16)
    requires
        index < 0x20,
    ensures
        final(out)@ == old(out)@ + reg2(index),
{
    out.append(digit_str(index / 10));
    out.append(digit_str(index % 10));
    assert(out@ =~= old(out)@ + reg2(index));
}

/// Append a 16-bit word as `0x` and four lowercase hex digits.
pub(crate) fn push_hex4(out: &mut String, value: u16)
    ensures
        final(out)@ == old(out)@ + hex4(value),
{
    assert((value >> 12) & 0xf < 16 && (value >> 8) & 0xf < 16 && (value >> 4) & 0xf < 16 && value
        & 0xf < 16) by (bit_vector);
    out.append("0x");
    out.append(hex_digit_str((value >> 12) & 0xf));
    out.append(hex_digit_str((value >> 8) & 0xf));
    out.append(hex_digit_str((value >> 4) & 0xf));
    out.append(hex_digit_str(value & 0xf));
    proof {
        reveal_strlit("0x");
    }
    assert(out@ =~= old(out)@ + hex4(value));
}

/// Render a mnemonic head and two register operands.
fn render_regs(head: &'static str, dst: u16, src: u16) -> (out: String)
    requires
        dst < 0x20,
        src < 0x20,
    ensures
        out@ == head@ + reg2(dst) + seq![',', ' ', 'r'] + reg2(src),
{
    let mut out = String::from_str(head);
    push_reg(&mut out, dst);
    out.append(", r");
    push_reg(&mut out, src);
    proof {
        reveal_strlit(", r");
    }
    assert(out@ =~= head@ + reg2(dst) + seq![',', ' ', 'r'] + reg2(src));
    out
}

/// Render a mnemonic head, two register operands, and an immediate.
fn render_regs_imm(head: &'static str, dst: u16, src: u16, immediate: u16) -> (out: String)
    requires
        dst < 0x20,
        src < 0x20,
    ensures
        out@ == head@ + reg2(dst) + seq![',', ' ', 'r'] + reg2(src) + seq![',', ' '] + hex4(
            immediate,
        ),
{
    let mut out = render_regs(head, dst, src);
    out.append(", ");
    push_hex4(&mut out, immediate);
    proof {
        reveal_strlit(", ");
    }
    assert(out@ =~= head@ + reg2(dst) + seq![',', ' ', 'r'] + reg2(src) + seq![',', ' '] + hex4(
        immediate,
    ));
    out
}

/// Disassemble one instruction word, given the word that would be its
/// immediate operand. Pure: safe to call on arbitrary word values.
pub fn disassemble(instruction: u16, immediate: u16) -> (text: String)
    ensures
        text@ == spec_disassemble(instruction, immediate),
{
    assert((instruction & 0b1111100000000000) >> 11 < 0x20) by (bit_vector);
    assert((instruction & 0b0000011111000000) >> 6 < 0x20) by (bit_vector);
    let src = (instruction & 0b1111100000000000) >> 11;
    let dst = (instruction & 0b0000011111000000) >> 6;

    match instruction & 0b0000000000111111 {
        0b000000 => {
            let out = render_regs("ADD  r", dst, src);
            proof {
                reveal_strlit("ADD  r");
                assert(out@ =~= spec_disassemble(instruction, immediate));
            }
            out
        }
        0b000001 => {
            let out = render_regs("SUB  r", dst, src);
            proof {
                reveal_strlit("SUB  r");
                assert(out@ =~= spec_disassemble(instruction, immediate));
            }
            out
        }
        0b000010 => {
            let out = render_regs("AND  r", dst, src);
            proof {
                reveal_strlit("AND  r");
                assert(out@ =~= spec_disassemble(instruction, immediate));
            }
            out
        }
        0b000011 => {
            let out = render_regs("OR   r", dst, src);
            proof {
                reveal_strlit("OR   r");
                assert(out@ =~= spec_disassemble(instruction, immediate));
            }
            out
        }
        0b000100 => {
            let out = render_regs("XOR  r", dst, src);
            proof {
                reveal_strlit("XOR  r");
                assert(out@ =~= spec_disassemble(instruction, immediate));
            }
            out
        }
        0b000101 => {
            let out = render_regs("SLL  r", dst, src);
            proof {
                reveal_strlit("SLL  r");
                assert(out@ =~= spec_disassemble(instruction, immediate));
            }
            out
        }
        0b000110 => {
            let out = render_regs("SRL  r", dst, src);
            proof {
                reveal_strlit("SRL  r");
                assert(out@ =~= spec_disassemble(instruction, immediate));
            }
            out
        }
        0b000111 => {
            let out = render_regs("SRA  r", dst, src);
            proof {
                reveal_strlit("SRA  r");
                assert(out@ =~= spec_disassemble(instruction, immediate));
            }
            out
        }
        0b001000 => {
            let out = render_regs_imm("ADDI r", dst, src, immediate);
            proof {
                reveal_strlit("ADDI r");
                assert(out@ =~= spec_disassemble(instruction, immediate));
            }
            out
        }
        0b001010 => {
            let out = render_regs_imm("ANDI r", dst, src, immediate);
            proof {
                reveal_strlit("ANDI r");
                assert(out@ =~= spec_disassemble(instruction, immediate));
            }
            out
        }
        0b001011 => {
            let out = render_regs_imm("ORI  r", dst, src, immediate);
            proof {
                reveal_strlit("ORI  r");
                assert(out@ =~= spec_disassemble(instruction, immediate));
            }
            out
        }
        0b001100 => {
            let out = render_regs_imm("XORI r", dst, src, immediate);
            proof {
                reveal_strlit("XORI r");
                assert(out@ =~= spec_disassemble(instruction, immediate));
            }
            out
        }
        0b001101 => {
            let out = render_regs_imm("SFTI r", dst, src, immediate);
            proof {
                reveal_strlit("SFTI r");
                assert(out@ =~= spec_disassemble(instruction, immediate));
            }
            out
        }
        0b001111 => {
            let out = render_regs_imm("SRAI r", dst, src, immediate);
            proof {
                reveal_strlit("SRAI r");
                assert(out@ =~= spec_disassemble(instruction, immediate));
            }
            out
        }
        0b010000 => {
            let out = render_regs("LD   r", dst, src);
            proof {
                reveal_strlit("LD   r");
                assert(out@ =~= spec_disassemble(instruction, immediate));
            }
            out
        }
        0b010001 => {
            let out = render_regs("ST   r", dst, src);
            proof {
                reveal_strlit("ST   r");
                assert(out@ =~= spec_disassemble(instruction, immediate));
            }
            out
        }
        0b011000 => {
            let out = render_regs_imm("LDIO r", dst, src, immediate);
            proof {
                reveal_strlit("LDIO r");
                assert(out@ =~= spec_disassemble(instruction, immediate));
            }
            out
        }
        0b011001 => {
            let out = render_regs_imm("STIO r", dst, src, immediate);
            proof {
                reveal_strlit("STIO r");
                assert(out@ =~= spec_disassemble(instruction, immediate));
            }
            out
        }
        0b101000 => {
            let out = render_regs_imm("JAL  r", dst, src, immediate);
            proof {
                reveal_strlit("JAL  r");
                assert(out@ =~= spec_disassemble(instruction, immediate));
            }
            out
        }
        0b101001 => {
            let offset_bits = (((instruction & 0b1111111111000000) as i16) >> 6u16) as u16;
            let mut out = String::from_str("JSH            ");
            push_hex4(&mut out, offset_bits);
            proof {
                reveal_strlit("JSH            ");
                assert(out@ =~= spec_disassemble(instruction, immediate));
            }
            out
        }
        0b101010 => {
            let out = render_regs_imm("BEQ  r", dst, src, immediate);
            proof {
                reveal_strlit("BEQ  r");
                assert(out@ =~= spec_disassemble(instruction, immediate));
            }
            out
        }
        0b101011 => {
            let out = render_regs_imm("BNE  r", dst, src, immediate);
            proof {
                reveal_strlit("BNE  r");
                assert(out@ =~= spec_disassemble(instruction, immediate));
            }
            out
        }
        0b101100 => {
            let out = render_regs_imm("BLT  r", dst, src, immediate);
            proof {
                reveal_strlit("BLT  r");
                assert(out@ =~= spec_disassemble(instruction, immediate));
            }
            out
        }
        0b101101 => {
            let out = render_regs_imm("BGE  r", dst, src, immediate);
            proof {
                reveal_strlit("BGE  r");
                assert(out@ =~= spec_disassemble(instruction, immediate));
            }
            out
        }
        0b101110 => {
            let out = render_regs_imm("BLTU r", dst, src, immediate);
            proof {
                reveal_strlit("BLTU r");
                assert(out@ =~= spec_disassemble(instruction, immediate));
            }
            out
        }
        0b101111 => {
            let out = render_regs_imm("BGEU r", dst, src, immediate);
            proof {
                reveal_strlit("BGEU r");
                assert(out@ =~= spec_disassemble(instruction, immediate));
            }
            out
        }
        _ => {
            let out = String::new();
            assert(out@ =~= spec_disassemble(instruction, immediate));
            out
        }
    }
}

/// Disassembler/engine agreement: for every assigned opcode the display
/// text begins with the mnemonic of the opcode the engine decodes, and for
/// every opcode with register operands the printed indices are exactly the
/// destination and source fields the engine extracts.
pub proof fn lemma_disassembler_engine_agreement(instruction: u16, immediate: u16)
    requires
        opcode_assigned(opcode_of(instruction)),
    ensures
        spec_disassemble(instruction, immediate).subrange(
            0,
            mnemonic_of(opcode_of(instruction)).len() as int,
        ) =~= mnemonic_of(opcode_of(instruction)),
        opcode_of(instruction) != OP_JSH ==> spec_disassemble(instruction, immediate).subrange(
            6,
            8,
        ) =~= reg2(dst_index_of(instruction)),
        opcode_of(instruction) != OP_JSH ==> spec_disassemble(instruction, immediate).subrange(
            11,
            13,
        ) =~= reg2(src_index_of(instruction)),
{
}

} // verus!
