// Run generated modules to completion on an interpreter, with the two
// vectored host calls implemented here exactly per their ABI: each descriptor
// is a (pointer, length) pair, and the count of bytes transferred is stored to
// the out-pointer.

use brainfk_rs::cmd::Target;
use brainfk_rs::Language;
use wasmi::{Caller, Engine, Extern, Linker, Module, Store};

struct Io {
    input: Vec<u8>,
    pos: usize,
    output: Vec<u8>,
}

fn read_u32(mem: &[u8], addr: usize) -> u32 {
    u32::from_le_bytes([mem[addr], mem[addr + 1], mem[addr + 2], mem[addr + 3]])
}

fn write_u32(mem: &mut [u8], addr: usize, v: u32) {
    mem[addr..addr + 4].copy_from_slice(&v.to_le_bytes());
}

fn fd_write(mut caller: Caller<'_, Io>, _fd: i32, iovs: i32, iovs_len: i32, out_ptr: i32) -> i32 {
    let mem = match caller.get_export("memory").and_then(Extern::into_memory) {
        Some(m) => m,
        None => return 1,
    };
    let (data, io) = mem.data_and_store_mut(&mut caller);
    let mut written: u32 = 0;
    for k in 0..iovs_len as usize {
        let base = iovs as usize + 8 * k;
        let ptr = read_u32(data, base) as usize;
        let len = read_u32(data, base + 4) as usize;
        io.output.extend_from_slice(&data[ptr..ptr + len]);
        written += len as u32;
    }
    write_u32(data, out_ptr as usize, written);
    0
}

fn fd_read(mut caller: Caller<'_, Io>, _fd: i32, iovs: i32, iovs_len: i32, out_ptr: i32) -> i32 {
    let mem = match caller.get_export("memory").and_then(Extern::into_memory) {
        Some(m) => m,
        None => return 1,
    };
    let (data, io) = mem.data_and_store_mut(&mut caller);
    let mut total: u32 = 0;
    for k in 0..iovs_len as usize {
        let base = iovs as usize + 8 * k;
        let ptr = read_u32(data, base) as usize;
        let len = read_u32(data, base + 4) as usize;
        let n = len.min(io.input.len() - io.pos);
        data[ptr..ptr + n].copy_from_slice(&io.input[io.pos..io.pos + n]);
        io.pos += n;
        total += n as u32;
    }
    write_u32(data, out_ptr as usize, total);
    0
}

// Generate, validate and run a program to completion with its stdin fed from
// `input`, returning what it wrote to stdout.
fn run_program(program: &str, input: &[u8]) -> Vec<u8> {
    let mut lang = Language::new(true);
    let chars: Vec<char> = program.chars().collect();
    lang.parse(&chars);
    lang.generate_wasm(&Target::Wasi).unwrap();
    lang.validate().unwrap();
    let engine = Engine::default();
    let module = Module::new(&engine, &lang.wasm_bytes[..]).unwrap();
    let io = Io { input: input.to_vec(), pos: 0, output: Vec::new() };
    let mut store = Store::new(&engine, io);
    let mut linker: Linker<Io> = Linker::new(&engine);
    linker.func_wrap("wasi_unstable", "fd_read", fd_read).unwrap();
    linker.func_wrap("wasi_unstable", "fd_write", fd_write).unwrap();
    let instance = linker.instantiate_and_start(&mut store, &module).unwrap();
    let start = instance.get_typed_func::<(), ()>(&store, "_start").unwrap();
    start.call(&mut store, ()).unwrap();
    store.into_data().output
}

#[test]
fn three_increments_emit_one_byte_of_value_three() {
    assert_eq!(run_program("+++.", &[]), vec![3]);
}

#[test]
fn comma_dot_echoes_one_input_byte() {
    assert_eq!(run_program(",.", &[0x41]), vec![0x41]);
}

#[test]
fn clearing_loop_terminates_with_zero_output() {
    // Five increments put the cell at 5; `[-]` must run to completion,
    // leaving the cell at 0 and emitting nothing.
    assert_eq!(run_program("+++++[-]", &[]), Vec::<u8>::new());
    // The trailing `.` confirms the cell really ended at zero.
    assert_eq!(run_program("+++++[-].", &[]), vec![0]);
}

#[test]
fn loop_with_zero_cell_never_runs_its_body() {
    // The cell is zero at the `[`: the body's `.` must not execute even once.
    assert_eq!(run_program("[.]", &[]), Vec::<u8>::new());
}

#[test]
fn loop_with_nonzero_cell_runs_and_retests_each_iteration() {
    // Cell starts at 2: the body runs once per bottom re-test, emitting 1
    // then 0.
    assert_eq!(run_program("++[-.]", &[]), vec![1, 0]);
}

#[test]
fn comma_reads_one_byte_per_symbol() {
    // Each `,` is one host read of exactly one byte.
    assert_eq!(run_program(",>,>,<.<.", &[7, 8, 9]), vec![8, 7]);
}

#[test]
fn buffered_output_is_byte_identical_to_unbuffered_reference() {
    // 1500 output bytes exceed the buffer capacity, so at least one interior
    // flush happens; the flush points must be invisible in the output.
    let mut program = String::new();
    let value = 65u8;
    for _ in 0..value {
        program.push('+');
    }
    let count = 1500;
    for _ in 0..count {
        program.push('.');
    }
    let expected: Vec<u8> = std::iter::repeat(value).take(count).collect();
    assert_eq!(run_program(&program, &[]), expected);
}

#[test]
fn cells_are_32_bits_wide_not_8() {
    // 256 increments would wrap an 8-bit cell back to zero and the loop would
    // be skipped; a 32-bit cell holds 256 and the loop drains it, emitting the
    // low byte after each decrement: 255 down to 0.
    let mut program = String::new();
    for _ in 0..256 {
        program.push('+');
    }
    program.push_str("[-.]");
    let expected: Vec<u8> = (0..=255u8).rev().collect();
    assert_eq!(run_program(&program, &[]), expected);
}

#[test]
fn pointer_movement_works_in_cell_strides() {
    // Fill two neighbouring cells and print both: movement must land on
    // distinct cells and come back exactly.
    assert_eq!(run_program("++>+++<.>.", &[]), vec![2, 3]);
}
