//! Exercises the command layer: pattern matching, literal parsing, the
//! instruction history, and program loading.

use emu16::command::App;

fn encode(src: u16, dst: u16, opcode: u16) -> u16 {
    (src << 11) | (dst << 6) | opcode
}

#[test]
fn new_app_is_idle_and_empty() {
    let app = App::new();
    assert!(!app.running);
    assert_eq!(app.command_buffer, "");
    assert_eq!(app.command_result, Ok(String::new()));
    assert!(app.instruction_history.is_empty());
}

#[test]
fn run_command_starts_the_simulation() {
    let mut app = App::new();
    app.command_buffer = String::from("  RuN  ");
    let load = app.execute_command();
    assert!(load.is_none());
    assert!(app.running);
    assert_eq!(app.command_buffer, "");
    assert_eq!(app.command_result, Ok(String::from("Running simulation.")));
}

#[test]
fn halt_command_stops_and_reports_the_counter() {
    let mut app = App::new();
    app.running = true;
    app.cpu.program_counter = 0x1a2b;
    app.command_buffer = String::from("halt");
    let load = app.execute_command();
    assert!(load.is_none());
    assert!(!app.running);
    assert_eq!(app.command_result, Ok(String::from("Simulation halted at 0x1a2b.")));
}

#[test]
fn step_without_a_count_steps_once() {
    let mut app = App::new();
    app.cpu.ram[0x0000] = encode(0, 1, 0b001000);
    app.cpu.ram[0x0001] = 0x0005;
    app.command_buffer = String::from("step");
    app.execute_command();
    assert_eq!(app.cpu.registers[1], 0x0005);
    assert_eq!(app.cpu.program_counter, 0x0002);
    assert_eq!(app.command_result, Ok(String::from("Stepping simulation 0x0001 times.")));
}

#[test]
fn step_accepts_decimal_hex_and_binary_counts() {
    // Each ADDI adds one to r1; count the executed instructions.
    let program = |app: &mut App| {
        for a in 0..64u16 {
            app.cpu.ram[usize::from(2 * a)] = encode(1, 1, 0b001000);
            app.cpu.ram[usize::from(2 * a + 1)] = 0x0001;
        }
    };

    let mut app = App::new();
    program(&mut app);
    app.command_buffer = String::from("step 3");
    app.execute_command();
    assert_eq!(app.cpu.registers[1], 3);
    assert_eq!(app.command_result, Ok(String::from("Stepping simulation 0x0003 times.")));

    let mut app = App::new();
    program(&mut app);
    app.command_buffer = String::from("STEP 0x0A");
    app.execute_command();
    assert_eq!(app.cpu.registers[1], 10);

    let mut app = App::new();
    program(&mut app);
    app.command_buffer = String::from("step 0b101");
    app.execute_command();
    assert_eq!(app.cpu.registers[1], 5);
}

#[test]
fn step_zero_times_changes_nothing() {
    let mut app = App::new();
    app.cpu.ram[0x0000] = encode(0, 1, 0b001000);
    app.cpu.ram[0x0001] = 0x0005;
    app.command_buffer = String::from("step 0");
    app.execute_command();
    assert_eq!(app.cpu.program_counter, 0x0000);
    assert_eq!(app.cpu.registers[1], 0x0000);
    assert_eq!(app.command_result, Ok(String::from("Stepping simulation 0x0000 times.")));
}

#[test]
fn commands_are_case_insensitive() {
    let mut app = App::new();
    app.running = true;
    app.command_buffer = String::from("HALT");
    app.execute_command();
    assert!(!app.running);
    assert_eq!(app.command_result, Ok(String::from("Simulation halted at 0x0000.")));
}

#[test]
fn load_accepts_a_binary_address() {
    let mut app = App::new();
    app.command_buffer = String::from("load 0b10 f.bin");
    let request = app.execute_command().expect("a load request");
    assert_eq!(request.address, 0x0002);
    assert_eq!(request.filename, "f.bin");
}

#[test]
fn step_count_overflow_is_rejected() {
    let mut app = App::new();
    app.command_buffer = String::from("step 99999");
    let load = app.execute_command();
    assert!(load.is_none());
    assert_eq!(
        app.command_result,
        Err(String::from("number too large to fit in target type"))
    );
    // The engine state is untouched.
    assert_eq!(app.cpu.program_counter, 0x0000);
    assert!(app.instruction_history.is_empty());
}

#[test]
fn unknown_commands_are_rejected_with_the_trimmed_text() {
    let mut app = App::new();
    app.command_buffer = String::from("  fly me  ");
    let load = app.execute_command();
    assert!(load.is_none());
    assert_eq!(
        app.command_result,
        Err(String::from(
            "\"fly me\" is not a valid command. Supported commands are RUN, HALT, STEP, SET, and LOAD."
        ))
    );
    assert_eq!(app.command_buffer, "");
    assert_eq!(app.cpu.program_counter, 0x0000);
}

#[test]
fn load_command_hands_back_address_and_filename() {
    let mut app = App::new();
    app.command_buffer = String::from("load 0x10 prog.bin");
    let load = app.execute_command();
    let request = load.expect("a load request");
    assert_eq!(request.address, 0x0010);
    assert_eq!(request.filename, "prog.bin");
    assert_eq!(app.command_buffer, "");
}

#[test]
fn load_without_an_address_defaults_to_zero() {
    let mut app = App::new();
    app.command_buffer = String::from("load prog.bin");
    let request = app.execute_command().expect("a load request");
    assert_eq!(request.address, 0x0000);
    assert_eq!(request.filename, "prog.bin");
}

#[test]
fn load_with_an_oversized_address_is_rejected() {
    let mut app = App::new();
    app.command_buffer = String::from("load 0x10000 prog.bin");
    let load = app.execute_command();
    assert!(load.is_none());
    assert_eq!(
        app.command_result,
        Err(String::from("number too large to fit in target type"))
    );
}

#[test]
fn finish_load_assembles_big_endian_words() {
    let mut app = App::new();
    let bytes = vec![0x12u8, 0x34, 0xab, 0xcd];
    app.finish_load(0x0010, &bytes, "prog.bin");
    assert_eq!(app.cpu.ram[0x0010], 0x1234);
    assert_eq!(app.cpu.ram[0x0011], 0xabcd);
    assert_eq!(
        app.command_result,
        Ok(String::from(
            "Loaded 0x0002 words from prog.bin into RAM at address 0x0010."
        ))
    );
}

#[test]
fn finish_load_ignores_a_trailing_odd_byte() {
    let mut app = App::new();
    let bytes = vec![0x01u8, 0x02, 0x03];
    app.finish_load(0x0000, &bytes, "odd.bin");
    assert_eq!(app.cpu.ram[0x0000], 0x0102);
    assert_eq!(app.cpu.ram[0x0001], 0x0000);
    assert_eq!(
        app.command_result,
        Ok(String::from("Loaded 0x0001 words from odd.bin into RAM at address 0x0000."))
    );
}

#[test]
fn finish_load_rejects_a_file_that_does_not_fit() {
    let mut app = App::new();
    app.cpu.ram[0xffff] = 0x5555;
    let bytes = vec![0u8; 4];
    app.finish_load(0xffff, &bytes, "big.bin");
    assert_eq!(
        app.command_result,
        Err(String::from("File does not fit in RAM at the requested address."))
    );
    // Nothing was written.
    assert_eq!(app.cpu.ram[0xffff], 0x5555);
    assert_eq!(app.cpu.ram[0x0000], 0x0000);
}

#[test]
fn finish_load_can_fill_all_of_memory() {
    let mut app = App::new();
    let bytes = vec![0xaau8; 0x20000];
    app.finish_load(0x0000, &bytes, "full.bin");
    assert_eq!(app.cpu.ram[0x0000], 0xaaaa);
    assert_eq!(app.cpu.ram[0xffff], 0xaaaa);
    assert_eq!(
        app.command_result,
        Ok(String::from("Loaded 0x10000 words from full.bin into RAM at address 0x0000."))
    );
}

#[test]
fn stepping_records_the_instruction_history() {
    let mut app = App::new();
    app.cpu.ram[0x0000] = encode(0, 1, 0b001000);
    app.cpu.ram[0x0001] = 0x0005;
    app.step();
    assert_eq!(app.instruction_history.len(), 1);
    assert_eq!(app.instruction_history[0], (encode(0, 1, 0b001000), 0x0005));
}

#[test]
fn instruction_history_is_bounded() {
    let mut app = App::new();
    // The all-zero memory executes ADD r00, r00 everywhere.
    for _ in 0..0x150 {
        app.step();
    }
    assert_eq!(app.instruction_history.len(), 0xff);
    assert!(app.instruction_history.iter().all(|&entry| entry == (0, 0)));
}
