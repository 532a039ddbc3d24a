//! The command layer around the engine: a command buffer, a result line, a
//! bounded history of executed instructions, and the RUN / HALT / STEP /
//! LOAD commands. Command texts are recognized by regular expressions;
//! numeric literals (decimal, `0x` hex, `0b` binary) are parsed with exact
//! overflow behavior. Reading a program file is the caller's job: a LOAD
//! command comes back as a `LoadRequest`, and `finish_load` places the
//! file's bytes into memory as big-endian words.
//!
//! A rejected command leaves registers, memory, and program counter
//! exactly as they were.

use std::collections::VecDeque;

use vstd::prelude::*;
use vstd::string::StringExecFns;

use crate::cpu::Cpu;
use crate::cpu::CpuState;
use crate::cpu::RAM_WORDS;
use crate::cpu::REG_COUNT;
use crate::cpu::step_spec;
use crate::disassemble::hex4;
use crate::disassemble::push_hex4;

verus! {

/// Whether the case-insensitive pattern `^\s*run\s*$` matches a text.
pub uninterp spec fn is_run_command(text: Seq<char>) -> bool;

/// Whether the case-insensitive pattern `^\s*halt\s*$` matches a text.
pub uninterp spec fn is_halt_command(text: Seq<char>) -> bool;

/// What the case-insensitive pattern
/// `^\s*step(?:\s+(?<literal>[0-9]+|0x[0-9a-f]+|0b[01]+))?\s*$`
/// yields on a text: whether it matches, and the captured literal bytes if
/// one was given.
pub uninterp spec fn step_command_capture(text: Seq<char>) -> Option<Option<Seq<u8>>>;

/// What the case-insensitive pattern
/// `^\s*load(?:\s+(?<literal>[0-9]+|0x[0-9a-f]+|0b[01]+))?\s+(?<filename>.+)\s*$`
/// yields on a text: whether it matches, the captured address literal
/// bytes if one was given, and the captured filename.
pub uninterp spec fn load_command_capture(text: Seq<char>) -> Option<(Option<Seq<u8>>, Seq<char>)>;

/// A text with its leading and trailing whitespace removed.
pub uninterp spec fn trimmed_of(text: Seq<char>) -> Seq<char>;

/// Relies on regex::RegexBuilder and regex::Regex::is_match: whether the
/// case-insensitive pattern `^\s*run\s*$` matches the text.
#[verifier::external_body]
fn match_run_command(text: &str) -> (matched: bool)
    ensures
        matched == is_run_command(text@),
{
    regex::RegexBuilder::new(r"^\s*run\s*$")
        .case_insensitive(true)
        .build()
        .unwrap()
        .is_match(text)
}

/// Relies on regex::RegexBuilder and regex::Regex::is_match: whether the
/// case-insensitive pattern `^\s*halt\s*$` matches the text.
#[verifier::external_body]
fn match_halt_command(text: &str) -> (matched: bool)
    ensures
        matched == is_halt_command(text@),
{
    regex::RegexBuilder::new(r"^\s*halt\s*$")
        .case_insensitive(true)
        .build()
        .unwrap()
        .is_match(text)
}

pub open spec fn step_capture_view(capture: Option<Option<Vec<u8>>>) -> Option<Option<Seq<u8>>> {
    match capture {
        None => None,
        Some(literal) => Some(
            match literal {
                None => None,
                Some(bytes) => Some(bytes@),
            },
        ),
    }
}

/// Relies on regex::RegexBuilder and regex::Regex::captures: the outer
/// option says whether the STEP pattern matched, the inner one carries the
/// bytes of the count literal when one was given.
#[verifier::external_body]
fn match_step_command(text: &str) -> (capture: Option<Option<Vec<u8>>>)
    ensures
        step_capture_view(capture) == step_command_capture(text@),
{
    let re = regex::RegexBuilder::new(
        r"^\s*step(?:\s+(?<literal>[0-9]+|0x[0-9a-f]+|0b[01]+))?\s*$",
    )
        .case_insensitive(true)
        .build()
        .unwrap();
    re.captures(text).map(|caps| caps.name("literal").map(|m| m.as_str().as_bytes().to_vec()))
}

pub open spec fn load_capture_view(capture: Option<(Option<Vec<u8>>, String)>) -> Option<
    (Option<Seq<u8>>, Seq<char>),
> {
    match capture {
        None => None,
        Some(parts) => Some(
            (
                match parts.0 {
                    None => None,
                    Some(bytes) => Some(bytes@),
                },
                parts.1@,
            ),
        ),
    }
}

/// Relies on regex::RegexBuilder and regex::Regex::captures: the outer
/// option says whether the LOAD pattern matched; inside are the bytes of
/// the address literal when one was given, and the filename.
#[verifier::external_body]
fn match_load_command(text: &str) -> (capture: Option<(Option<Vec<u8>>, String)>)
    ensures
        load_capture_view(capture) == load_command_capture(text@),
{
    let re = regex::RegexBuilder::new(
        r"^\s*load(?:\s+(?<literal>[0-9]+|0x[0-9a-f]+|0b[01]+))?\s+(?<filename>.+)\s*$",
    )
        .case_insensitive(true)
        .build()
        .unwrap();
    re.captures(text).map(
        |caps| (
            caps.name("literal").map(|m| m.as_str().as_bytes().to_vec()),
            caps.name("filename").map(|m| m.as_str().to_string()).unwrap_or_default(),
        ),
    )
}

/// Relies on str::trim: the text without its leading and trailing
/// whitespace.
#[verifier::external_body]
fn trim_text(text: &str) -> (trimmed: String)
    ensures
        trimmed@ == trimmed_of(text@),
{
    text.trim().to_string()
}

/// Why a numeric literal failed to parse as a 16-bit word.
pub enum ParseError {
    /// No digits at all.
    Empty,
    /// A character that is not a digit of the literal's radix.
    InvalidDigit,
    /// A value beyond 0xFFFF.
    TooLarge,
}

/// The value of one digit character under a radix, if it is one.
pub open spec fn digit_value(byte: u8, radix: u16) -> Option<u16> {
    let v: u16 = if 0x30 <= byte && byte <= 0x39 {
        (byte - 0x30) as u16
    } else if 0x61 <= byte && byte <= 0x66 {
        (byte - 0x61 + 10) as u16
    } else if 0x41 <= byte && byte <= 0x46 {
        (byte - 0x41 + 10) as u16
    } else {
        0xffff
    };
    if v < radix {
        Some(v)
    } else {
        None
    }
}

/// Digits folded left to right onto an accumulator; the first problem
/// encountered wins, as in a left-to-right scan.
pub open spec fn fold_digits(digits: Seq<u8>, radix: u16, acc: u16) -> Result<u16, ParseError>
    decreases digits.len(),
{
    if digits.len() == 0 {
        Ok(acc)
    } else {
        match digit_value(digits[0], radix) {
            None => Err(ParseError::InvalidDigit),
            Some(d) => if acc * radix + d > 0xffff {
                Err(ParseError::TooLarge)
            } else {
                fold_digits(digits.drop_first(), radix, (acc * radix + d) as u16)
            },
        }
    }
}

/// A digit string's 16-bit value under a radix.
pub open spec fn digits_value(digits: Seq<u8>, radix: u16) -> Result<u16, ParseError> {
    if digits.len() == 0 {
        Err(ParseError::Empty)
    } else {
        fold_digits(digits, radix, 0)
    }
}

/// A numeric literal's 16-bit value: hex after a `0x` prefix, binary after
/// a `0b` prefix, decimal otherwise. Prefixes are case-insensitive.
pub open spec fn spec_parse_literal(literal: Seq<u8>) -> Result<u16, ParseError> {
    if literal.len() >= 2 && literal[0] == 0x30 && (literal[1] == 0x78 || literal[1] == 0x58) {
        digits_value(literal.skip(2), 16)
    } else if literal.len() >= 2 && literal[0] == 0x30 && (literal[1] == 0x62 || literal[1]
        == 0x42) {
        digits_value(literal.skip(2), 2)
    } else {
        digits_value(literal, 10)
    }
}

/// The value of one digit character under a radix, if it is one.
fn digit_value_exec(byte: u8, radix: u16) -> (value: Option<u16>)
    ensures
        value == digit_value(byte, radix),
{
    let v: u16 = if 0x30 <= byte && byte <= 0x39 {
        (byte - 0x30) as u16
    } else if 0x61 <= byte && byte <= 0x66 {
        (byte - 0x61) as u16 + 10
    } else if 0x41 <= byte && byte <= 0x46 {
        (byte - 0x41) as u16 + 10
    } else {
        0xffff
    };
    if v < radix {
        Some(v)
    } else {
        None
    }
}

/// Parse the digits of `literal` from `start` on under a radix.
fn parse_digits(literal: &Vec<u8>, start: usize, radix: u16) -> (value: Result<u16, ParseError>)
    requires
        start <= literal@.len(),
        2 <= radix <= 16,
    ensures
        value == digits_value(literal@.skip(start as int), radix),
{
    if start == literal.len() {
        return Err(ParseError::Empty);
    }
    let mut acc: u16 = 0;
    let mut i: usize = start;
    while i < literal.len()
        invariant
            start <= i <= literal@.len(),
            2 <= radix <= 16,
            fold_digits(literal@.skip(start as int), radix, 0) == fold_digits(
                literal@.skip(i as int),
                radix,
                acc,
            ),
        decreases literal@.len() - i,
    {
        let d = match digit_value_exec(literal[i], radix) {
            None => {
                return Err(ParseError::InvalidDigit);
            }
            Some(d) => d,
        };
        assert((acc as int) * (radix as int) <= 0xffff * 16) by (nonlinear_arith)
            requires
                acc <= 0xffffu16,
                radix <= 16u16,
        ;
        let wide: u32 = (acc as u32) * (radix as u32) + (d as u32);
        assert(literal@.skip(i as int).drop_first() =~= literal@.skip(i as int + 1));
        if wide > 0xffff {
            return Err(ParseError::TooLarge);
        }
        acc = wide as u16;
        i = i + 1;
    }
    assert(literal@.skip(i as int).len() == 0);
    Ok(acc)
}

/// Parse a numeric literal: hex after a `0x` prefix, binary after a `0b`
/// prefix, decimal otherwise.
pub fn parse_literal(literal: &Vec<u8>) -> (value: Result<u16, ParseError>)
    ensures
        value == spec_parse_literal(literal@),
{
    if literal.len() >= 2 && literal[0] == 0x30 && (literal[1] == 0x78 || literal[1] == 0x58) {
        parse_digits(literal, 2, 16)
    } else if literal.len() >= 2 && literal[0] == 0x30 && (literal[1] == 0x62 || literal[1]
        == 0x42) {
        parse_digits(literal, 2, 2)
    } else {
        assert(literal@.skip(0) =~= literal@);
        parse_digits(literal, 0, 10)
    }
}

/// The words a byte stream loads as: consecutive byte pairs assembled
/// big-endian, a trailing odd byte ignored.
pub open spec fn words_of_bytes(bytes: Seq<u8>) -> Seq<u16> {
    Seq::new(
        (bytes.len() / 2) as nat,
        |i: int| ((bytes[2 * i] as u16) << 8) | (bytes[2 * i + 1] as u16),
    )
}

/// Memory after writing `words` consecutively from `address` on.
pub open spec fn ram_after_load(ram: Seq<u16>, address: u16, words: Seq<u16>) -> Seq<u16> {
    Seq::new(
        ram.len(),
        |a: int| if address <= a < address + words.len() {
            words[a - address]
        } else {
            ram[a]
        },
    )
}

pub open spec fn run_message() -> Seq<char> {
    "Running simulation."@
}

pub open spec fn halt_message(program_counter: u16) -> Seq<char> {
    "Simulation halted at "@ + hex4(program_counter) + "."@
}

pub open spec fn step_message(count: u16) -> Seq<char> {
    "Stepping simulation "@ + hex4(count) + " times."@
}

pub open spec fn parse_error_message(error: ParseError) -> Seq<char> {
    match error {
        ParseError::Empty => "cannot parse integer from empty string"@,
        ParseError::InvalidDigit => "invalid digit found in string"@,
        ParseError::TooLarge => "number too large to fit in target type"@,
    }
}

pub open spec fn invalid_command_message(buffer: Seq<char>) -> Seq<char> {
    "\""@ + trimmed_of(buffer)
        + "\" is not a valid command. Supported commands are RUN, HALT, STEP, SET, and LOAD."@
}

/// A word count rendered like a 16-bit word; the one count past 0xFFFF a
/// successful load can reach is 0x10000.
pub open spec fn word_count_text(count: nat) -> Seq<char> {
    if count <= 0xffff {
        hex4(count as u16)
    } else {
        "0x10000"@
    }
}

pub open spec fn load_message(count: nat, filename: Seq<char>, address: u16) -> Seq<char> {
    "Loaded "@ + word_count_text(count) + " words from "@ + filename + " into RAM at address "@
        + hex4(address) + "."@
}

pub open spec fn load_overflow_message() -> Seq<char> {
    "File does not fit in RAM at the requested address."@
}

/// A LOAD command, parsed and waiting for the caller to read the file.
pub struct LoadRequest {
    pub address: u16,
    pub filename: String,
}

/// The mathematical model of the command layer's state.
#[verifier::ext_equal]
pub ghost struct AppState {
    pub cpu: CpuState,
    pub command_buffer: Seq<char>,
    pub command_result: Result<Seq<char>, Seq<char>>,
    pub instruction_history: Seq<(u16, u16)>,
    pub running: bool,
}

pub struct App {
    pub cpu: Cpu,
    pub command_buffer: String,
    pub command_result: Result<String, String>,
    pub instruction_history: VecDeque<(u16, u16)>,
    pub running: bool,
}

impl View for App {
    type V = AppState;

    open spec fn view(&self) -> AppState {
        AppState {
            cpu: self.cpu@,
            command_buffer: self.command_buffer@,
            command_result: match self.command_result {
                Ok(message) => Ok(message@),
                Err(message) => Err(message@),
            },
            instruction_history: self.instruction_history@,
            running: self.running,
        }
    }
}

/// One step of the command layer: record the instruction and immediate
/// words about to execute in the bounded history, then step the engine.
pub open spec fn app_step_spec(s: AppState) -> AppState {
    let instruction = s.cpu.ram[s.cpu.program_counter as int];
    let immediate = s.cpu.ram[s.cpu.program_counter.wrapping_add(1) as int];
    let pushed = s.instruction_history.push((instruction, immediate));
    AppState {
        cpu: step_spec(s.cpu),
        command_buffer: s.command_buffer,
        command_result: s.command_result,
        instruction_history: if pushed.len() > 0xff {
            pushed.subrange(1, pushed.len() as int)
        } else {
            pushed
        },
        running: s.running,
    }
}

/// `count` consecutive steps of the command layer.
pub open spec fn app_step_n(s: AppState, count: nat) -> AppState
    decreases count,
{
    if count == 0 {
        s
    } else {
        app_step_spec(app_step_n(s, (count - 1) as nat))
    }
}

/// Stepping touches only the engine and the instruction history: the
/// command fields ride along unchanged.
pub proof fn lemma_app_step_n_preserves_command_fields(s: AppState, count: nat)
    ensures
        app_step_n(s, count).command_buffer == s.command_buffer,
        app_step_n(s, count).command_result == s.command_result,
        app_step_n(s, count).running == s.running,
    decreases count,
{
    if count > 0 {
        lemma_app_step_n_preserves_command_fields(s, (count - 1) as nat);
    }
}

/// A state with its command buffer consumed and a command's outcome
/// recorded.
pub open spec fn command_finished(
    s: AppState,
    result: Result<Seq<char>, Seq<char>>,
    running: bool,
) -> AppState {
    AppState {
        cpu: s.cpu,
        command_buffer: Seq::empty(),
        command_result: result,
        instruction_history: s.instruction_history,
        running,
    }
}

/// What executing the buffered command does: the first of RUN, HALT, STEP,
/// LOAD whose pattern matches the buffer acts; anything else is rejected
/// with an error and touches no engine state. A LOAD with a well-formed
/// address hands back the request for the caller to read the file.
pub open spec fn execute_command_spec(
    pre: AppState,
    post: AppState,
    load: Option<LoadRequest>,
) -> bool {
    let b = pre.command_buffer;
    if is_run_command(b) {
        &&& post == command_finished(pre, Ok(run_message()), true)
        &&& load is None
    } else if is_halt_command(b) {
        &&& post == command_finished(pre, Ok(halt_message(pre.cpu.program_counter)), false)
        &&& load is None
    } else {
        match step_command_capture(b) {
            Some(literal) => {
                let parsed: Result<u16, ParseError> = match literal {
                    None => Ok(1u16),
                    Some(bytes) => spec_parse_literal(bytes),
                };
                match parsed {
                    Ok(count) => {
                        &&& post == command_finished(
                            app_step_n(pre, count as nat),
                            Ok(step_message(count)),
                            pre.running,
                        )
                        &&& load is None
                    },
                    Err(error) => {
                        &&& post == command_finished(
                            pre,
                            Err(parse_error_message(error)),
                            pre.running,
                        )
                        &&& load is None
                    },
                }
            },
            None => match load_command_capture(b) {
                Some(parts) => {
                    let parsed: Result<u16, ParseError> = match parts.0 {
                        None => Ok(0u16),
                        Some(bytes) => spec_parse_literal(bytes),
                    };
                    match parsed {
                        Ok(address) => {
                            &&& post == command_finished(pre, pre.command_result, pre.running)
                            &&& load matches Some(request) && request.address == address
                                && request.filename@ == parts.1
                        },
                        Err(error) => {
                            &&& post == command_finished(
                                pre,
                                Err(parse_error_message(error)),
                                pre.running,
                            )
                            &&& load is None
                        },
                    }
                },
                None => {
                    &&& post == command_finished(pre, Err(invalid_command_message(b)), pre.running)
                    &&& load is None
                },
            },
        }
    }
}

impl App {
    /// A fresh command layer around a machine in its initial state.
    pub fn new() -> (app: App)
        ensures
            app@.cpu.wf(),
            app@.cpu.program_counter == 0x0000,
            forall|i: int| 0 <= i < REG_COUNT ==> app@.cpu.registers[i] == 0x0000u16,
            forall|a: int| 0 <= a < RAM_WORDS ==> app@.cpu.ram[a] == 0x0000u16,
            app@.command_buffer == Seq::<char>::empty(),
            app@.command_result == Ok::<Seq<char>, Seq<char>>(Seq::empty()),
            app@.instruction_history == Seq::<(u16, u16)>::empty(),
            !app@.running,
    {
        App {
            cpu: Cpu::new(),
            command_buffer: String::new(),
            command_result: Ok(String::new()),
            instruction_history: VecDeque::new(),
            running: false,
        }
    }

    /// Record the instruction about to execute in the bounded history,
    /// then step the engine once.
    pub fn step(&mut self)
        requires
            old(self)@.cpu.wf(),
        ensures
            final(self)@ == app_step_spec(old(self)@),
            final(self)@.cpu.wf(),
    {
        let instruction = self.cpu.ram[self.cpu.program_counter as usize];
        let immediate = self.cpu.ram[self.cpu.program_counter.wrapping_add(1) as usize];
        self.instruction_history.push_back((instruction, immediate));
        if self.instruction_history.len() > 0xff {
            self.instruction_history.pop_front();
        }
        self.cpu.step();
        assert(self@ =~= app_step_spec(old(self)@));
    }

    /// Execute the buffered command and consume the buffer. A recognized
    /// LOAD is returned for the caller to read the named file and hand its
    /// bytes to `finish_load`; every other command completes here.
    pub fn execute_command(&mut self) -> (load: Option<LoadRequest>)
        requires
            old(self)@.cpu.wf(),
        ensures
            execute_command_spec(old(self)@, final(self)@, load),
            final(self)@.cpu.wf(),
    {
        if match_run_command(self.command_buffer.as_str()) {
            self.running = true;
            self.command_result = Ok(String::from_str("Running simulation."));
            self.command_buffer = String::new();
            assert(self@ =~= command_finished(old(self)@, Ok(run_message()), true));
            return None;
        }
        if match_halt_command(self.command_buffer.as_str()) {
            self.running = false;
            let mut message = String::from_str("Simulation halted at ");
            push_hex4(&mut message, self.cpu.program_counter);
            message.append(".");
            self.command_result = Ok(message);
            self.command_buffer = String::new();
            assert(self@.command_result == Ok::<Seq<char>, Seq<char>>(
                halt_message(old(self)@.cpu.program_counter),
            )) by {
                assert(message@ =~= halt_message(old(self)@.cpu.program_counter));
            }
            assert(self@ =~= command_finished(
                old(self)@,
                Ok(halt_message(old(self)@.cpu.program_counter)),
                false,
            ));
            return None;
        }
        if let Some(literal) = match_step_command(self.command_buffer.as_str()) {
            let parsed: Result<u16, ParseError> = match literal {
                None => Ok(1),
                Some(bytes) => parse_literal(&bytes),
            };
            match parsed {
                Ok(count) => {
                    let mut stepped: u16 = 0;
                    while stepped < count
                        invariant
                            stepped <= count,
                            self@ == app_step_n(old(self)@, stepped as nat),
                            self@.cpu.wf(),
                        decreases count - stepped,
                    {
                        self.step();
                        stepped = stepped + 1;
                    }
                    let mut message = String::from_str("Stepping simulation ");
                    push_hex4(&mut message, count);
                    message.append(" times.");
                    self.command_result = Ok(message);
                    self.command_buffer = String::new();
                    proof {
                        lemma_app_step_n_preserves_command_fields(old(self)@, count as nat);
                    }
                    assert(message@ =~= step_message(count));
                    assert(self@ =~= command_finished(
                        app_step_n(old(self)@, count as nat),
                        Ok(step_message(count)),
                        old(self)@.running,
                    ));
                    return None;
                }
                Err(error) => {
                    self.command_result = Err(parse_error_text(error));
                    self.command_buffer = String::new();
                    assert(self@ =~= command_finished(
                        old(self)@,
                        Err(parse_error_message(error)),
                        old(self)@.running,
                    ));
                    return None;
                }
            }
        }
        if let Some((literal, filename)) = match_load_command(self.command_buffer.as_str()) {
            let parsed: Result<u16, ParseError> = match literal {
                None => Ok(0),
                Some(bytes) => parse_literal(&bytes),
            };
            match parsed {
                Ok(address) => {
                    self.command_buffer = String::new();
                    assert(self@ =~= command_finished(
                        old(self)@,
                        old(self)@.command_result,
                        old(self)@.running,
                    ));
                    return Some(LoadRequest { address, filename });
                }
                Err(error) => {
                    self.command_result = Err(parse_error_text(error));
                    self.command_buffer = String::new();
                    assert(self@ =~= command_finished(
                        old(self)@,
                        Err(parse_error_message(error)),
                        old(self)@.running,
                    ));
                    return None;
                }
            }
        }
        let trimmed = trim_text(self.command_buffer.as_str());
        let mut message = String::from_str("\"");
        message.append(trimmed.as_str());
        message.append(
            "\" is not a valid command. Supported commands are RUN, HALT, STEP, SET, and LOAD.",
        );
        self.command_result = Err(message);
        self.command_buffer = String::new();
        assert(message@ =~= invalid_command_message(old(self)@.command_buffer));
        assert(self@ =~= command_finished(
            old(self)@,
            Err(invalid_command_message(old(self)@.command_buffer)),
            old(self)@.running,
        ));
        None
    }

    /// Complete a LOAD: assemble the file's bytes into big-endian words
    /// and place them in memory from `address` on. A file that does not
    /// fit between the address and the end of memory is rejected without
    /// touching any engine state.
    pub fn finish_load(&mut self, address: u16, bytes: &Vec<u8>, filename: &str)
        requires
            old(self)@.cpu.wf(),
        ensures
            final(self)@.cpu.wf(),
            ({
                let pre = old(self)@;
                let words = words_of_bytes(bytes@);
                if address + words.len() <= RAM_WORDS {
                    final(self)@ == AppState {
                        cpu: CpuState {
                            registers: pre.cpu.registers,
                            program_counter: pre.cpu.program_counter,
                            ram: ram_after_load(pre.cpu.ram, address, words),
                        },
                        command_buffer: pre.command_buffer,
                        command_result: Ok(load_message(words.len(), filename@, address)),
                        instruction_history: pre.instruction_history,
                        running: pre.running,
                    }
                } else {
                    final(self)@ == AppState {
                        cpu: pre.cpu,
                        command_buffer: pre.command_buffer,
                        command_result: Err(load_overflow_message()),
                        instruction_history: pre.instruction_history,
                        running: pre.running,
                    }
                }
            }),
    {
        let word_count = bytes.len() / 2;
        if word_count > RAM_WORDS - (address as usize) {
            self.command_result = Err(
                String::from_str("File does not fit in RAM at the requested address."),
            );
            assert(self@ =~= AppState {
                cpu: old(self)@.cpu,
                command_buffer: old(self)@.command_buffer,
                command_result: Err(load_overflow_message()),
                instruction_history: old(self)@.instruction_history,
                running: old(self)@.running,
            });
            return;
        }
        let ghost words = words_of_bytes(bytes@);
        let mut written: usize = 0;
        while written < word_count
            invariant
                written <= word_count,
                word_count == bytes@.len() / 2,
                word_count + address <= RAM_WORDS,
                words == words_of_bytes(bytes@),
                self@.cpu.registers == old(self)@.cpu.registers,
                self@.cpu.program_counter == old(self)@.cpu.program_counter,
                self@.cpu.ram.len() == RAM_WORDS,
                forall|a: int|
                    0 <= a < RAM_WORDS ==> self@.cpu.ram[a] == (if address <= a < address
                        + written {
                        words[a - address]
                    } else {
                        old(self)@.cpu.ram[a]
                    }),
                self@.command_buffer == old(self)@.command_buffer,
                self@.command_result == old(self)@.command_result,
                self@.instruction_history == old(self)@.instruction_history,
                self@.running == old(self)@.running,
            decreases word_count - written,
        {
            assert(2 * written + 1 < bytes@.len());
            let high = bytes[2 * written];
            let low = bytes[2 * written + 1];
            let word: u16 = ((high as u16) << 8u16) | (low as u16);
            assert(word == words[written as int]);
            self.cpu.ram[(address as usize) + written] = word;
            written = written + 1;
        }
        let mut message = String::from_str("Loaded ");
        if word_count <= 0xffff {
            push_hex4(&mut message, word_count as u16);
        } else {
            message.append("0x10000");
        }
        message.append(" words from ");
        message.append(filename);
        message.append(" into RAM at address ");
        push_hex4(&mut message, address);
        message.append(".");
        self.command_result = Ok(message);
        assert(message@ =~= load_message(words.len(), filename@, address));
        assert(self@.cpu.ram =~= ram_after_load(old(self)@.cpu.ram, address, words));
        assert(self@ =~= AppState {
            cpu: CpuState {
                registers: old(self)@.cpu.registers,
                program_counter: old(self)@.cpu.program_counter,
                ram: ram_after_load(old(self)@.cpu.ram, address, words),
            },
            command_buffer: old(self)@.command_buffer,
            command_result: Ok(load_message(words.len(), filename@, address)),
            instruction_history: old(self)@.instruction_history,
            running: old(self)@.running,
        });
    }
}

/// The text of a literal parse failure.
fn parse_error_text(error: ParseError) -> (message: String)
    ensures
        message@ == parse_error_message(error),
{
    match error {
        ParseError::Empty => String::from_str("cannot parse integer from empty string"),
        ParseError::InvalidDigit => String::from_str("invalid digit found in string"),
        ParseError::TooLarge => String::from_str("number too large to fit in target type"),
    }
}

} // verus!
