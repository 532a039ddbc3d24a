//! The decode/execute engine: a register file of 32 sixteen-bit words, a
//! word-addressed memory of 65536 sixteen-bit words, and a program counter.
//! A single `step` operation fetches, decodes, and executes exactly one
//! instruction.
//!
//! Instruction layout (one 16-bit word):
//!   bits [15:11] source register index, bits [10:6] destination register
//!   index, bits [5:0] opcode. Two-word instructions read an immediate
//!   operand from the word after the instruction.
//!
//! Architectural rules:
//!   - Register 0 is hardwired: every read of register 0 yields 0x0000.
//!     Writes to it may be stored but are never observable.
//!   - All program-counter and data arithmetic wraps modulo 2^16.
//!   - A shift amount is read as a signed word: its sign picks the
//!     direction, its two's-complement magnitude, taken modulo 16, is the
//!     number of bit positions. (The modulo-16 rule pins down amounts whose
//!     magnitude exceeds 15 bit positions.)
//!   - Unassigned opcodes execute as no-ops that advance the program
//!     counter by one word.

use vstd::prelude::*;

verus! {

/// Number of general-purpose registers.
pub const REG_COUNT: usize = 0x20;

/// Number of 16-bit words in memory.
pub const RAM_WORDS: usize = 0x10000;

pub const OP_ADD: u16 = 0b000000;
pub const OP_SUB: u16 = 0b000001;
pub const OP_AND: u16 = 0b000010;
pub const OP_OR: u16 = 0b000011;
pub const OP_XOR: u16 = 0b000100;
pub const OP_SLL: u16 = 0b000101;
pub const OP_SRL: u16 = 0b000110;
pub const OP_SRA: u16 = 0b000111;
pub const OP_ADDI: u16 = 0b001000;
pub const OP_ANDI: u16 = 0b001010;
pub const OP_ORI: u16 = 0b001011;
pub const OP_XORI: u16 = 0b001100;
pub const OP_SFTI: u16 = 0b001101;
pub const OP_SRAI: u16 = 0b001111;
pub const OP_LD: u16 = 0b010000;
pub const OP_ST: u16 = 0b010001;
pub const OP_LDIO: u16 = 0b011000;
pub const OP_STIO: u16 = 0b011001;
pub const OP_JAL: u16 = 0b101000;
pub const OP_JSH: u16 = 0b101001;
pub const OP_BEQ: u16 = 0b101010;
pub const OP_BNE: u16 = 0b101011;
pub const OP_BLT: u16 = 0b101100;
pub const OP_BGE: u16 = 0b101101;
pub const OP_BLTU: u16 = 0b101110;
pub const OP_BGEU: u16 = 0b101111;

/// The mathematical model of the machine state.
#[verifier::ext_equal]
pub ghost struct CpuState {
    pub registers: Seq<u16>,
    pub program_counter: u16,
    pub ram: Seq<u16>,
}

impl CpuState {
    pub open spec fn wf(self) -> bool {
        &&& self.registers.len() == REG_COUNT
        &&& self.ram.len() == RAM_WORDS
    }
}

/// The opcode field: bits [5:0].
pub open spec fn opcode_of(instruction: u16) -> u16 {
    instruction & 0b0000000000111111
}

/// The source register index: bits [15:11].
pub open spec fn src_index_of(instruction: u16) -> u16 {
    (instruction & 0b1111100000000000) >> 11
}

/// The destination register index: bits [10:6].
pub open spec fn dst_index_of(instruction: u16) -> u16 {
    (instruction & 0b0000011111000000) >> 6
}

/// An observable register read: register 0 always yields 0x0000, whatever
/// its storage slot holds.
pub open spec fn reg_read(registers: Seq<u16>, index: u16) -> u16 {
    if index == 0 {
        0x0000
    } else {
        registers[index as int]
    }
}

/// The number of bit positions named by a shift amount: the amount itself
/// when it is non-negative as a signed word, its two's-complement negation
/// otherwise.
pub open spec fn shift_magnitude(amount: u16) -> u16 {
    if amount as i16 >= 0 {
        amount
    } else {
        (0u16).wrapping_sub(amount)
    }
}

/// SLL: shift left when the signed amount is positive, else right; the
/// magnitude is taken modulo 16.
pub open spec fn sll_result(value: u16, amount: u16) -> u16 {
    let m = shift_magnitude(amount) & 0xf;
    if amount as i16 > 0 {
        value << m
    } else {
        value >> m
    }
}

/// SRL: shift right when the signed amount is positive, else left.
pub open spec fn srl_result(value: u16, amount: u16) -> u16 {
    let m = shift_magnitude(amount) & 0xf;
    if amount as i16 > 0 {
        value >> m
    } else {
        value << m
    }
}

/// SRA: sign-preserving shift right when the signed amount is positive,
/// else shift left.
pub open spec fn sra_result(value: u16, amount: u16) -> u16 {
    let m = shift_magnitude(amount) & 0xf;
    if amount as i16 > 0 {
        ((value as i16) >> m) as u16
    } else {
        value << m
    }
}

/// JSH's branch offset: instruction bits [15:6], sign-extended from 10
/// bits. The source and destination fields are reinterpreted as offset
/// bits for this opcode only.
pub open spec fn jsh_offset(instruction: u16) -> i16 {
    ((instruction & 0b1111111111000000) as i16) >> 6
}

/// True of the opcodes in the instruction table; every other opcode
/// executes as a no-op.
pub open spec fn opcode_assigned(op: u16) -> bool {
    ||| op == OP_ADD
    ||| op == OP_SUB
    ||| op == OP_AND
    ||| op == OP_OR
    ||| op == OP_XOR
    ||| op == OP_SLL
    ||| op == OP_SRL
    ||| op == OP_SRA
    ||| op == OP_ADDI
    ||| op == OP_ANDI
    ||| op == OP_ORI
    ||| op == OP_XORI
    ||| op == OP_SFTI
    ||| op == OP_SRAI
    ||| op == OP_LD
    ||| op == OP_ST
    ||| op == OP_LDIO
    ||| op == OP_STIO
    ||| op == OP_JAL
    ||| op == OP_JSH
    ||| op == OP_BEQ
    ||| op == OP_BNE
    ||| op == OP_BLT
    ||| op == OP_BGE
    ||| op == OP_BLTU
    ||| op == OP_BGEU
}

/// The state after an instruction that writes `value` to the destination
/// register and advances the program counter by `pc_step` words.
pub open spec fn with_result(s: CpuState, dst: u16, value: u16, pc_step: u16) -> CpuState {
    CpuState {
        registers: s.registers.update(dst as int, value),
        program_counter: s.program_counter.wrapping_add(pc_step),
        ram: s.ram,
    }
}

/// The state after a conditional branch: the program counter becomes
/// `target` when the condition holds, else advances past the two-word
/// instruction.
pub open spec fn with_branch(s: CpuState, taken: bool, target: u16) -> CpuState {
    CpuState {
        registers: s.registers,
        program_counter: if taken {
            target
        } else {
            s.program_counter.wrapping_add(2)
        },
        ram: s.ram,
    }
}

/// The machine's transition function: the state after fetching, decoding,
/// and executing the single instruction at the program counter.
pub open spec fn step_spec(s: CpuState) -> CpuState {
    let instruction = s.ram[s.program_counter as int];
    let immediate = s.ram[s.program_counter.wrapping_add(1) as int];
    let opcode = opcode_of(instruction);
    let dst = dst_index_of(instruction);
    let source = reg_read(s.registers, src_index_of(instruction));
    let dest = reg_read(s.registers, dst);
    if opcode == OP_ADD {
        with_result(s, dst, dest.wrapping_add(source), 1)
    } else if opcode == OP_SUB {
        with_result(s, dst, dest.wrapping_sub(source), 1)
    } else if opcode == OP_AND {
        with_result(s, dst, dest & source, 1)
    } else if opcode == OP_OR {
        with_result(s, dst, dest | source, 1)
    } else if opcode == OP_XOR {
        with_result(s, dst, dest ^ source, 1)
    } else if opcode == OP_SLL {
        with_result(s, dst, sll_result(dest, source), 1)
    } else if opcode == OP_SRL {
        with_result(s, dst, srl_result(dest, source), 1)
    } else if opcode == OP_SRA {
        with_result(s, dst, sra_result(dest, source), 1)
    } else if opcode == OP_ADDI {
        with_result(s, dst, source.wrapping_add(immediate), 2)
    } else if opcode == OP_ANDI {
        with_result(s, dst, source & immediate, 2)
    } else if opcode == OP_ORI {
        with_result(s, dst, source | immediate, 2)
    } else if opcode == OP_XORI {
        with_result(s, dst, source ^ immediate, 2)
    } else if opcode == OP_SFTI {
        with_result(s, dst, sll_result(source, immediate), 2)
    } else if opcode == OP_SRAI {
        with_result(s, dst, sra_result(source, immediate), 2)
    } else if opcode == OP_LD {
        with_result(s, dst, s.ram[source as int], 1)
    } else if opcode == OP_ST {
        CpuState {
            registers: s.registers,
            program_counter: s.program_counter.wrapping_add(1),
            ram: s.ram.update(source as int, dest),
        }
    } else if opcode == OP_LDIO {
        with_result(s, dst, s.ram[source.wrapping_add(immediate) as int], 2)
    } else if opcode == OP_STIO {
        CpuState {
            registers: s.registers,
            program_counter: s.program_counter.wrapping_add(2),
            ram: s.ram.update(source.wrapping_add(immediate) as int, dest),
        }
    } else if opcode == OP_JAL {
        CpuState {
            registers: s.registers.update(dst as int, s.program_counter.wrapping_add(2)),
            program_counter: source.wrapping_add(immediate),
            ram: s.ram,
        }
    } else if opcode == OP_JSH {
        CpuState {
            registers: s.registers,
            program_counter: s.program_counter.wrapping_add_signed(jsh_offset(instruction)),
            ram: s.ram,
        }
    } else if opcode == OP_BEQ {
        with_branch(s, dest == source, immediate)
    } else if opcode == OP_BNE {
        with_branch(s, dest != source, immediate)
    } else if opcode == OP_BLT {
        with_branch(s, (dest as i16) < (source as i16), immediate)
    } else if opcode == OP_BGE {
        with_branch(s, (dest as i16) >= (source as i16), immediate)
    } else if opcode == OP_BLTU {
        with_branch(s, dest < source, immediate)
    } else if opcode == OP_BGEU {
        with_branch(s, dest >= source, immediate)
    } else {
        // Unassigned opcodes execute as no-ops.
        CpuState {
            registers: s.registers,
            program_counter: s.program_counter.wrapping_add(1),
            ram: s.ram,
        }
    }
}

pub struct Cpu {
    /// Register storage. Slot 0 exists only to simplify indexing: reads of
    /// register 0 are overridden to 0x0000 at read time, so whatever an
    /// instruction stores there is never observable.
    pub registers: Vec<u16>,
    /// Address of the next instruction to execute.
    pub program_counter: u16,
    /// Word-addressed memory: each address names one 16-bit cell.
    pub ram: Vec<u16>,
}

impl View for Cpu {
    type V = CpuState;

    open spec fn view(&self) -> CpuState {
        CpuState {
            registers: self.registers@,
            program_counter: self.program_counter,
            ram: self.ram@,
        }
    }
}

/// A vector of `count` zero words.
fn zero_words(count: usize) -> (words: Vec<u16>)
    ensures
        words@.len() == count,
        forall|i: int| 0 <= i < count ==> words@[i] == 0x0000u16,
{
    let mut words: Vec<u16> = Vec::new();
    let mut filled: usize = 0;
    while filled < count
        invariant
            filled <= count,
            words@.len() == filled,
            forall|i: int| 0 <= i < filled ==> words@[i] == 0x0000u16,
        decreases count - filled,
    {
        words.push(0x0000);
        filled = filled + 1;
    }
    words
}

impl Cpu {
    /// A machine in its initial state: every register, every memory cell,
    /// and the program counter hold 0x0000.
    pub fn new() -> (cpu: Cpu)
        ensures
            cpu@.wf(),
            cpu@.program_counter == 0x0000,
            forall|i: int| 0 <= i < REG_COUNT ==> cpu@.registers[i] == 0x0000u16,
            forall|a: int| 0 <= a < RAM_WORDS ==> cpu@.ram[a] == 0x0000u16,
    {
        Cpu {
            registers: zero_words(REG_COUNT),
            ram: zero_words(RAM_WORDS),
            program_counter: 0x0000,
        }
    }

    /// An observable register read: register 0 always yields 0x0000.
    pub fn read_register(&self, index: u16) -> (value: u16)
        requires
            self@.wf(),
            index < REG_COUNT,
        ensures
            value == reg_read(self@.registers, index),
    {
        if index == 0 {
            0x0000
        } else {
            self.registers[index as usize]
        }
    }

    /// Execute the instruction at the program counter and advance the
    /// program counter to the next instruction.
    pub fn step(&mut self)
        requires
            old(self)@.wf(),
        ensures
            final(self)@ == step_spec(old(self)@),
            final(self)@.wf(),
    {
        let instruction = self.ram[self.program_counter as usize];
        let immediate = self.ram[self.program_counter.wrapping_add(1) as usize];

        assert((instruction & 0b1111100000000000) >> 11 < 0x20) by (bit_vector);
        assert((instruction & 0b0000011111000000) >> 6 < 0x20) by (bit_vector);
        let source_index = ((instruction & 0b1111100000000000) >> 11) as usize;
        let dst = ((instruction & 0b0000011111000000) >> 6) as usize;
        let opcode = instruction & 0b0000000000111111;

        // Register 0 reads as 0x0000, as both an effective source value and
        // a destination operand.
        let source = if source_index == 0 {
            0x0000
        } else {
            self.registers[source_index]
        };
        let dest = if dst == 0 {
            0x0000
        } else {
            self.registers[dst]
        };

        match opcode {
            0b000000 => {
                // ADD
                self.registers[dst] = dest.wrapping_add(source);
                self.program_counter = self.program_counter.wrapping_add(1);
            }
            0b000001 => {
                // SUB
                self.registers[dst] = dest.wrapping_sub(source);
                self.program_counter = self.program_counter.wrapping_add(1);
            }
            0b000010 => {
                // AND
                self.registers[dst] = dest & source;
                self.program_counter = self.program_counter.wrapping_add(1);
            }
            0b000011 => {
                // OR
                self.registers[dst] = dest | source;
                self.program_counter = self.program_counter.wrapping_add(1);
            }
            0b000100 => {
                // XOR
                self.registers[dst] = dest ^ source;
                self.program_counter = self.program_counter.wrapping_add(1);
            }
            0b000101 => {
                // SLL
                self.registers[dst] = shift_by(dest, source, ShiftKind::LeftWhenPositive);
                self.program_counter = self.program_counter.wrapping_add(1);
            }
            0b000110 => {
                // SRL
                self.registers[dst] = shift_by(dest, source, ShiftKind::RightWhenPositive);
                self.program_counter = self.program_counter.wrapping_add(1);
            }
            0b000111 => {
                // SRA
                self.registers[dst] = shift_by(dest, source, ShiftKind::ArithmeticRightWhenPositive);
                self.program_counter = self.program_counter.wrapping_add(1);
            }
            0b001000 => {
                // ADDI
                self.registers[dst] = source.wrapping_add(immediate);
                self.program_counter = self.program_counter.wrapping_add(2);
            }
            0b001010 => {
                // ANDI
                self.registers[dst] = source & immediate;
                self.program_counter = self.program_counter.wrapping_add(2);
            }
            0b001011 => {
                // ORI
                self.registers[dst] = source | immediate;
                self.program_counter = self.program_counter.wrapping_add(2);
            }
            0b001100 => {
                // XORI
                self.registers[dst] = source ^ immediate;
                self.program_counter = self.program_counter.wrapping_add(2);
            }
            0b001101 => {
                // SFTI
                self.registers[dst] = shift_by(source, immediate, ShiftKind::LeftWhenPositive);
                self.program_counter = self.program_counter.wrapping_add(2);
            }
            0b001111 => {
                // SRAI
                self.registers[dst] = shift_by(source, immediate, ShiftKind::ArithmeticRightWhenPositive);
                self.program_counter = self.program_counter.wrapping_add(2);
            }
            0b010000 => {
                // LD
                self.registers[dst] = self.ram[source as usize];
                self.program_counter = self.program_counter.wrapping_add(1);
            }
            0b010001 => {
                // ST
                self.ram[source as usize] = dest;
                self.program_counter = self.program_counter.wrapping_add(1);
            }
            0b011000 => {
                // LDIO
                self.registers[dst] = self.ram[source.wrapping_add(immediate) as usize];
                self.program_counter = self.program_counter.wrapping_add(2);
            }
            0b011001 => {
                // STIO
                self.ram[source.wrapping_add(immediate) as usize] = dest;
                self.program_counter = self.program_counter.wrapping_add(2);
            }
            0b101000 => {
                // JAL
                self.registers[dst] = self.program_counter.wrapping_add(2);
                self.program_counter = source.wrapping_add(immediate);
            }
            0b101001 => {
                // JSH
                let offset = ((instruction & 0b1111111111000000) as i16) >> 6u16;
                self.program_counter = self.program_counter.wrapping_add_signed(offset);
            }
            0b101010 => {
                // BEQ
                if dest == source {
                    self.program_counter = immediate;
                } else {
                    self.program_counter = self.program_counter.wrapping_add(2);
                }
            }
            0b101011 => {
                // BNE
                if dest != source {
                    self.program_counter = immediate;
                } else {
                    self.program_counter = self.program_counter.wrapping_add(2);
                }
            }
            0b101100 => {
                // BLT
                if (dest as i16) < (source as i16) {
                    self.program_counter = immediate;
                } else {
                    self.program_counter = self.program_counter.wrapping_add(2);
                }
            }
            0b101101 => {
                // BGE
                if (dest as i16) >= (source as i16) {
                    self.program_counter = immediate;
                } else {
                    self.program_counter = self.program_counter.wrapping_add(2);
                }
            }
            0b101110 => {
                // BLTU
                if dest < source {
                    self.program_counter = immediate;
                } else {
                    self.program_counter = self.program_counter.wrapping_add(2);
                }
            }
            0b101111 => {
                // BGEU
                if dest >= source {
                    self.program_counter = immediate;
                } else {
                    self.program_counter = self.program_counter.wrapping_add(2);
                }
            }
            _ => {
                // Unassigned opcodes execute as no-ops.
                self.program_counter = self.program_counter.wrapping_add(1);
            }
        }
    }
}

/// An opcode under which the engine advances the program counter by
/// exactly one word.
pub open spec fn single_word_advance(op: u16) -> bool {
    ||| op == OP_ADD
    ||| op == OP_SUB
    ||| op == OP_AND
    ||| op == OP_OR
    ||| op == OP_XOR
    ||| op == OP_SLL
    ||| op == OP_SRL
    ||| op == OP_SRA
    ||| op == OP_LD
    ||| op == OP_ST
    ||| !opcode_assigned(op)
}

/// Register 0 is hardwired: writing any value into register index 0 and
/// then reading register index 0 yields 0x0000. Since every observable
/// read goes through `reg_read`, this holds for all sequences of
/// operations, and in particular across any engine step.
pub proof fn lemma_register_zero_hardwired(registers: Seq<u16>, value: u16)
    ensures
        reg_read(registers.update(0, value), 0) == 0x0000,
        forall|s: CpuState| reg_read(#[trigger] step_spec(s).registers, 0) == 0x0000,
{
}

/// Program-counter wraparound: stepping an engine whose program counter is
/// 0xFFFF under an instruction that advances by one word yields program
/// counter 0x0000.
pub proof fn lemma_program_counter_wraparound(s: CpuState)
    requires
        s.wf(),
        s.program_counter == 0xffff,
        single_word_advance(opcode_of(s.ram[s.program_counter as int])),
    ensures
        step_spec(s).program_counter == 0x0000,
{
}

/// The arithmetic heart of the ADD/SUB round trip: adding and then
/// subtracting the same word restores the original, modulo 2^16.
pub proof fn lemma_wrapping_add_sub(a: u16, b: u16)
    ensures
        a.wrapping_add(b).wrapping_sub(b) == a,
{
}

/// ADD/SUB round-trip: executing ADD and then SUB with the same source and
/// destination registers restores the destination's original value,
/// whatever 16-bit values the two registers hold. The source register must
/// be a different register than the destination (or the hardwired register
/// 0), since ADD overwrites the destination.
pub proof fn lemma_add_sub_round_trip(s: CpuState)
    requires
        s.wf(),
        opcode_of(s.ram[s.program_counter as int]) == OP_ADD,
        opcode_of(s.ram[s.program_counter.wrapping_add(1) as int]) == OP_SUB,
        src_index_of(s.ram[s.program_counter.wrapping_add(1) as int]) == src_index_of(
            s.ram[s.program_counter as int],
        ),
        dst_index_of(s.ram[s.program_counter.wrapping_add(1) as int]) == dst_index_of(
            s.ram[s.program_counter as int],
        ),
        src_index_of(s.ram[s.program_counter as int]) != dst_index_of(
            s.ram[s.program_counter as int],
        ) || src_index_of(s.ram[s.program_counter as int]) == 0,
    ensures
        reg_read(step_spec(step_spec(s)).registers, dst_index_of(s.ram[s.program_counter as int]))
            == reg_read(s.registers, dst_index_of(s.ram[s.program_counter as int])),
{
    let i = s.ram[s.program_counter as int];
    assert(src_index_of(i) < 0x20 && dst_index_of(i) < 0x20) by (bit_vector);
    lemma_wrapping_add_sub(
        reg_read(s.registers, dst_index_of(i)),
        reg_read(s.registers, src_index_of(i)),
    );
}

/// Shift direction symmetry: SLL with a positive amount `k` (at most 15)
/// shifts exactly as SRL with the two's-complement negation of `k` does.
pub proof fn lemma_shift_direction_symmetry(value: u16, amount: u16)
    by (bit_vector)
    requires
        amount <= 15,
    ensures
        sll_result(value, amount) == srl_result(value, (0u16).wrapping_sub(amount)),
{
}

/// JSH offset recovery: the program-counter delta of a JSH step is the
/// sign-extended 10-bit value of instruction bits [15:6]; in particular
/// offset bits 0b0000000010 move the counter by +2 and bits 0b1111111110
/// by -2.
pub proof fn lemma_jsh_offset_recovery(s: CpuState)
    requires
        s.wf(),
        opcode_of(s.ram[s.program_counter as int]) == OP_JSH,
    ensures
        step_spec(s).program_counter == s.program_counter.wrapping_add_signed(
            jsh_offset(s.ram[s.program_counter as int]),
        ),
        jsh_offset((0b0000000010u16 << 6) | OP_JSH) == 2,
        jsh_offset((0b1111111110u16 << 6) | OP_JSH) == -2,
{
    assert((((0b0000000010u16 << 6) | 0b101001u16) & 0b1111111111000000) as i16 >> 6 == 2)
        by (bit_vector);
    assert((((0b1111111110u16 << 6) | 0b101001u16) & 0b1111111111000000) as i16 >> 6 == -2)
        by (bit_vector);
}

/// Which direction a shift opcode takes when its signed amount is positive.
enum ShiftKind {
    LeftWhenPositive,
    RightWhenPositive,
    ArithmeticRightWhenPositive,
}

impl ShiftKind {
    spec fn result(self, value: u16, amount: u16) -> u16 {
        match self {
            ShiftKind::LeftWhenPositive => sll_result(value, amount),
            ShiftKind::RightWhenPositive => srl_result(value, amount),
            ShiftKind::ArithmeticRightWhenPositive => sra_result(value, amount),
        }
    }
}

/// Shift `value` by `amount` read as a signed word: the sign picks the
/// direction, the two's-complement magnitude modulo 16 the distance.
fn shift_by(value: u16, amount: u16, kind: ShiftKind) -> (shifted: u16)
    ensures
        shifted == kind.result(value, amount),
{
    let positive = (amount as i16) > 0;
    let magnitude: u16 = if (amount as i16) >= 0 {
        amount
    } else {
        (0u16).wrapping_sub(amount)
    };
    let m: u16 = magnitude & 0xf;
    assert(m < 16) by (bit_vector)
        requires
            m == magnitude & 0xf,
    ;
    match kind {
        ShiftKind::LeftWhenPositive => {
            if positive {
                value << m
            } else {
                value >> m
            }
        }
        ShiftKind::RightWhenPositive => {
            if positive {
                value >> m
            } else {
                value << m
            }
        }
        ShiftKind::ArithmeticRightWhenPositive => {
            if positive {
                ((value as i16) >> m) as u16
            } else {
                value << m
            }
        }
    }
}

} // verus!
