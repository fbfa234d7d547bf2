use vstd::prelude::*;

use crate::encode::{push_sleb, push_uleb, sleb, uleb};

verus! {

// <-- Linear memory model -->
// ----------------------------------------------
// | I/O buffer | I/O descriptor |    tape      |
// 0----------1000--1004----1012-1024-----------|
//
// The three regions never overlap: the output buffer fills bytes 0..1000, the
// descriptor pair (pointer, length) sits at 1004..1012 with the host call's
// bytes-written slot at 1012, and the tape starts at 1024. Tape cells are four
// bytes wide and tape-pointer movement is in four-byte strides. Neither
// tape-pointer movement nor buffer indexing is bounds-checked: a program that
// walks off its region traps or corrupts its own memory at run time. That is a
// known, intentional simplification, preserved here.

/// Width of one tape cell in bytes.
pub const CELL_WIDTH: u64 = 4;
/// Base of the data tape in linear memory.
pub const TAPE_BASE: u64 = 1024;
/// Capacity of the output buffer in bytes; it occupies linear memory below
/// this offset.
pub const BUF_CAPACITY: u64 = 1000;
/// Base of the I/O descriptor: the (pointer, length) pair handed to the
/// vectored host calls. The bytes-transferred out-slot lies 8 bytes above it.
pub const IOVEC_BASE: u64 = 1004;
/// Pages of linear memory the module declares (64 KiB each): room for the
/// buffer, the descriptor and the tape.
pub const MEMORY_PAGES: u64 = 3;

// Entry-function locals.
// Local 0: tape pointer. Local 1: output-buffer cursor. Local 2: buffer
// capacity. Local 3: descriptor base.

// Instruction opcodes of the binary format.
pub const OP_NOP: u8 = 0x01;
pub const OP_BLOCK: u8 = 0x02;
pub const OP_LOOP: u8 = 0x03;
pub const OP_END: u8 = 0x0b;
pub const OP_BR_IF: u8 = 0x0d;
pub const OP_CALL: u8 = 0x10;
pub const OP_DROP: u8 = 0x1a;
pub const OP_LOCAL_GET: u8 = 0x20;
pub const OP_LOCAL_SET: u8 = 0x21;
pub const OP_I32_LOAD: u8 = 0x28;
pub const OP_I32_STORE: u8 = 0x36;
pub const OP_I32_STORE8: u8 = 0x3a;
pub const OP_I32_CONST: u8 = 0x41;
pub const OP_I32_EQZ: u8 = 0x45;
pub const OP_I32_NE: u8 = 0x47;
pub const OP_I32_LT_S: u8 = 0x48;
pub const OP_I32_ADD: u8 = 0x6a;
pub const OP_I32_SUB: u8 = 0x6b;
/// The empty block type: a block or loop with no parameters and no results.
pub const BLOCKTYPE_EMPTY: u8 = 0x40;

/// Index of the imported vectored-read host function.
pub const HOST_READ: u64 = 0;
/// Index of the imported vectored-write host function.
pub const HOST_WRITE: u64 = 1;

pub open spec fn op_local_get(i: nat) -> Seq<u8> {
    seq![OP_LOCAL_GET] + uleb(i)
}

pub open spec fn op_local_set(i: nat) -> Seq<u8> {
    seq![OP_LOCAL_SET] + uleb(i)
}

pub open spec fn op_i32_const(v: int) -> Seq<u8> {
    seq![OP_I32_CONST] + sleb(v)
}

pub open spec fn op_call(f: nat) -> Seq<u8> {
    seq![OP_CALL] + uleb(f)
}

/// i32.load with alignment hint 1 (encoded 0) and offset 0.
pub open spec fn op_i32_load() -> Seq<u8> {
    seq![OP_I32_LOAD, 0u8, 0u8]
}

/// i32.store with alignment hint 1 and offset 0.
pub open spec fn op_i32_store() -> Seq<u8> {
    seq![OP_I32_STORE, 0u8, 0u8]
}

/// i32.store8 with alignment hint 1 and offset 0: stores the cell's low byte.
pub open spec fn op_i32_store8() -> Seq<u8> {
    seq![OP_I32_STORE8, 0u8, 0u8]
}

/// br_if to the innermost enclosing construct.
pub open spec fn op_br_if0() -> Seq<u8> {
    seq![OP_BR_IF, 0u8]
}

fn emit_local_get(f: &mut Vec<u8>, i: u64)
    ensures
        final(f)@ == old(f)@ + op_local_get(i as nat),
{
    f.push(OP_LOCAL_GET);
    push_uleb(f, i);
    assert(f@ =~= old(f)@ + op_local_get(i as nat));
}

fn emit_local_set(f: &mut Vec<u8>, i: u64)
    ensures
        final(f)@ == old(f)@ + op_local_set(i as nat),
{
    f.push(OP_LOCAL_SET);
    push_uleb(f, i);
    assert(f@ =~= old(f)@ + op_local_set(i as nat));
}

fn emit_i32_const(f: &mut Vec<u8>, v: u64)
    ensures
        final(f)@ == old(f)@ + op_i32_const(v as int),
{
    f.push(OP_I32_CONST);
    push_sleb(f, v);
    assert(f@ =~= old(f)@ + op_i32_const(v as int));
}

fn emit_call(f: &mut Vec<u8>, func: u64)
    ensures
        final(f)@ == old(f)@ + op_call(func as nat),
{
    f.push(OP_CALL);
    push_uleb(f, func);
    assert(f@ =~= old(f)@ + op_call(func as nat));
}

fn emit_i32_load(f: &mut Vec<u8>)
    ensures
        final(f)@ == old(f)@ + op_i32_load(),
{
    f.push(OP_I32_LOAD);
    f.push(0);
    f.push(0);
    assert(f@ =~= old(f)@ + op_i32_load());
}

fn emit_i32_store(f: &mut Vec<u8>)
    ensures
        final(f)@ == old(f)@ + op_i32_store(),
{
    f.push(OP_I32_STORE);
    f.push(0);
    f.push(0);
    assert(f@ =~= old(f)@ + op_i32_store());
}

fn emit_i32_store8(f: &mut Vec<u8>)
    ensures
        final(f)@ == old(f)@ + op_i32_store8(),
{
    f.push(OP_I32_STORE8);
    f.push(0);
    f.push(0);
    assert(f@ =~= old(f)@ + op_i32_store8());
}

fn emit_br_if0(f: &mut Vec<u8>)
    ensures
        final(f)@ == old(f)@ + op_br_if0(),
{
    f.push(OP_BR_IF);
    f.push(0);
    assert(f@ =~= old(f)@ + op_br_if0());
}

/// Entry-function prologue: tape pointer to the tape base, output cursor to
/// empty, capacity and descriptor base into their locals.
pub open spec fn prologue() -> Seq<u8> {
    op_i32_const(TAPE_BASE as int) + op_local_set(0) + op_i32_const(0) + op_local_set(1)
        + op_i32_const(BUF_CAPACITY as int) + op_local_set(2) + op_i32_const(IOVEC_BASE as int)
        + op_local_set(3)
}

pub(crate) fn emit_prologue(f: &mut Vec<u8>)
    ensures
        final(f)@ == old(f)@ + prologue(),
{
    emit_i32_const(f, TAPE_BASE);
    emit_local_set(f, 0);
    emit_i32_const(f, 0);
    emit_local_set(f, 1);
    emit_i32_const(f, BUF_CAPACITY);
    emit_local_set(f, 2);
    emit_i32_const(f, IOVEC_BASE);
    emit_local_set(f, 3);
    assert(f@ =~= old(f)@ + prologue());
}

/// `<`: move the tape pointer left by one cell width.
pub open spec fn sym_lt() -> Seq<u8> {
    op_local_get(0) + op_i32_const(CELL_WIDTH as int) + seq![OP_I32_SUB] + op_local_set(0)
}

/// `>`: move the tape pointer right by one cell width.
pub open spec fn sym_gt() -> Seq<u8> {
    op_local_get(0) + op_i32_const(CELL_WIDTH as int) + seq![OP_I32_ADD] + op_local_set(0)
}

/// `+`: add one to the 32-bit cell at the tape pointer, wrapping.
pub open spec fn sym_plus() -> Seq<u8> {
    op_local_get(0) + op_local_get(0) + op_i32_load() + op_i32_const(1) + seq![OP_I32_ADD]
        + op_i32_store()
}

/// `-`: subtract one from the 32-bit cell at the tape pointer, wrapping.
pub open spec fn sym_minus() -> Seq<u8> {
    op_local_get(0) + op_local_get(0) + op_i32_load() + op_i32_const(1) + seq![OP_I32_SUB]
        + op_i32_store()
}

/// Write the descriptor (buffer start, bytes used) and issue one vectored host
/// write of the buffered output to stdout, dropping the returned status.
pub open spec fn flush_bytes() -> Seq<u8> {
    op_local_get(3) + op_i32_const(0) + op_i32_store()  // descriptor.pointer = buffer start
        + op_local_get(3) + op_i32_const(4) + seq![OP_I32_ADD] + op_local_get(1)
        + op_i32_store()  // descriptor.length = cursor
        + op_i32_const(1)  // fd: stdout
        + op_local_get(3)  // descriptor array
        + op_i32_const(1)  // one descriptor
        + op_local_get(3) + op_i32_const(8) + seq![OP_I32_ADD]  // bytes-written slot
        + op_call(HOST_WRITE as nat) + seq![OP_DROP]
}

/// `.`: append the cell's low byte to the output buffer; if the buffer is now
/// full, flush it and reset the cursor to empty.
pub open spec fn sym_dot() -> Seq<u8> {
    op_local_get(1) + op_local_get(0) + op_i32_load() + op_i32_store8()  // buffer[cursor] = low byte
        + op_local_get(1) + op_i32_const(1) + seq![OP_I32_ADD] + op_local_set(1)  // cursor += 1
        + seq![OP_BLOCK, BLOCKTYPE_EMPTY]  // skip the flush while cursor < capacity
        + op_local_get(1) + op_local_get(2) + seq![OP_I32_LT_S] + op_br_if0()
        + flush_bytes() + op_i32_const(0) + op_local_set(1)  // flush, cursor = 0
        + seq![OP_END]
}

/// `,`: one vectored host read of exactly one byte from stdin, directly into
/// the cell at the tape pointer (not buffered), dropping the returned status.
pub open spec fn sym_comma() -> Seq<u8> {
    op_local_get(3) + op_local_get(0) + op_i32_store()  // descriptor.pointer = tape pointer
        + op_local_get(3) + op_i32_const(4) + seq![OP_I32_ADD] + op_i32_const(1)
        + op_i32_store()  // descriptor.length = 1
        + op_i32_const(0)  // fd: stdin
        + op_local_get(3) + op_i32_const(1) + op_local_get(3) + op_i32_const(8)
        + seq![OP_I32_ADD] + op_call(HOST_READ as nat) + seq![OP_DROP]
}

/// `[`: open a guard block; if the cell is zero branch past the matching `]`
/// without entering, else fall into a do-while loop construct.
pub open spec fn sym_open() -> Seq<u8> {
    seq![OP_BLOCK, BLOCKTYPE_EMPTY] + op_local_get(0) + op_i32_load() + seq![OP_I32_EQZ]
        + op_br_if0() + seq![OP_LOOP, BLOCKTYPE_EMPTY]
}

/// `]`: re-test the cell at the bottom; branch back to the loop top while it
/// is non-zero, else fall out of the loop and its guard block.
pub open spec fn sym_close() -> Seq<u8> {
    op_local_get(0) + op_i32_load() + op_i32_const(0) + seq![OP_I32_NE] + op_br_if0()
        + seq![OP_END, OP_END]
}

/// Per-symbol translation. Any character outside the alphabet is translated to
/// a no-op, as the generator never looks at raw text: filtering happens first.
pub open spec fn sym_bytes(c: char) -> Seq<u8> {
    if c == '<' {
        sym_lt()
    } else if c == '>' {
        sym_gt()
    } else if c == '+' {
        sym_plus()
    } else if c == '-' {
        sym_minus()
    } else if c == '.' {
        sym_dot()
    } else if c == ',' {
        sym_comma()
    } else if c == '[' {
        sym_open()
    } else if c == ']' {
        sym_close()
    } else {
        seq![OP_NOP]
    }
}

/// The cell model of `+`: one 32-bit wrapping increment, as the target's add
/// instruction performs it on the four-byte cell. There is no masking to
/// 8 bits: the cell is deliberately wider than the traditional one.
pub open spec fn cell_inc(v: u32) -> u32 {
    if v == u32::MAX {
        0
    } else {
        (v + 1) as u32
    }
}

/// The cell value after `n` increments.
pub open spec fn cell_inc_n(v: u32, n: nat) -> u32
    decreases n,
{
    if n == 0 {
        v
    } else {
        cell_inc(cell_inc_n(v, (n - 1) as nat))
    }
}

proof fn lemma_cell_inc_n_mod(v: u32, n: nat)
    ensures
        cell_inc_n(v, n) == ((v + n) % 0x1_0000_0000) as u32,
    decreases n,
{
    let m: int = 0x1_0000_0000;
    if n == 0 {
        vstd::arithmetic::div_mod::lemma_small_mod(v as nat, 0x1_0000_0000nat);
    } else {
        lemma_cell_inc_n_mod(v, (n - 1) as nat);
        let a: int = v + n - 1;
        vstd::arithmetic::div_mod::lemma_mod_bound(a, m);
        vstd::arithmetic::div_mod::lemma_add_mod_noop(a, 1, m);
        vstd::arithmetic::div_mod::lemma_small_mod(1nat, 0x1_0000_0000nat);
        if a % m == m - 1 {
            vstd::arithmetic::div_mod::lemma_mod_self_0(m);
        } else {
            vstd::arithmetic::div_mod::lemma_small_mod((a % m + 1) as nat, 0x1_0000_0000nat);
        }
    }
}

/// Law: incrementing a cell 2^32 times returns it to its original value — the
/// cell is 32 bits wide, and its arithmetic wraps at 2^32, not at 2^8.
pub proof fn lemma_cell_wraparound(v: u32)
    ensures
        cell_inc_n(v, 0x1_0000_0000) == v,
{
    let m: int = 0x1_0000_0000;
    lemma_cell_inc_n_mod(v, 0x1_0000_0000);
    vstd::arithmetic::div_mod::lemma_add_mod_noop(v as int, m, m);
    vstd::arithmetic::div_mod::lemma_mod_self_0(m);
    vstd::arithmetic::div_mod::lemma_small_mod(v as nat, 0x1_0000_0000nat);
}

/// The cell model of `-`: one 32-bit wrapping decrement.
pub open spec fn cell_dec(v: u32) -> u32 {
    if v == 0 {
        u32::MAX
    } else {
        (v - 1) as u32
    }
}

/// Model of the control flow `[` and `]` lower to: a guard that tests the
/// cell once and skips the whole construct when it is zero, wrapped around a
/// do-while body that re-tests the cell at the bottom. `body` is the effect
/// one iteration has on the cell; the result is how many times the body ran,
/// or `None` when the loop does not finish within `fuel` iterations.
pub open spec fn guarded_do_while(cell: u32, body: spec_fn(u32) -> u32, fuel: nat) -> Option<nat>
    decreases fuel,
{
    if cell == 0 {
        Some(0)
    } else if fuel == 0 {
        None
    } else {
        match guarded_do_while(body(cell), body, (fuel - 1) as nat) {
            Some(n) => Some(n + 1),
            None => None,
        }
    }
}

/// Law: with the cell zero at the `[`, the loop body runs zero times — the
/// guard skips past the matching `]` without entering even once.
pub proof fn lemma_loop_skips_on_zero(body: spec_fn(u32) -> u32, fuel: nat)
    ensures
        guarded_do_while(0, body, fuel) == Some(0nat),
{
}

/// Law: with the cell non-zero at the `[`, a loop that finishes ran its body
/// at least once, and each further iteration followed a bottom re-test that
/// found the cell non-zero.
pub proof fn lemma_loop_enters_on_nonzero(cell: u32, body: spec_fn(u32) -> u32, fuel: nat, n: nat)
    requires
        cell != 0,
        guarded_do_while(cell, body, fuel) == Some(n),
    ensures
        n >= 1,
        guarded_do_while(body(cell), body, (fuel - 1) as nat) == Some((n - 1) as nat),
{
}

/// The decrementing loop drains the cell: from value `v` it finishes in
/// exactly `v` iterations with the cell at zero — so the model is inhabited
/// and the bottom re-test really stops it.
pub proof fn lemma_decrement_loop_drains(v: u32)
    ensures
        guarded_do_while(v, |c: u32| cell_dec(c), v as nat) == Some(v as nat),
    decreases v,
{
    if v != 0 {
        lemma_decrement_loop_drains((v - 1) as u32);
        let body = |c: u32| cell_dec(c);
        assert(body(v) == (v - 1) as u32);
        assert(guarded_do_while((v - 1) as u32, body, (v - 1) as nat) == Some((v - 1) as nat));
    }
}

/// Move the tape pointer left by one cell.
pub(crate) fn less_than(f: &mut Vec<u8>)
    ensures
        final(f)@ == old(f)@ + sym_lt(),
{
    emit_local_get(f, 0);
    emit_i32_const(f, CELL_WIDTH);
    f.push(OP_I32_SUB);
    emit_local_set(f, 0);
    assert(f@ =~= old(f)@ + sym_lt());
}

/// Move the tape pointer right by one cell.
pub(crate) fn greater_than(f: &mut Vec<u8>)
    ensures
        final(f)@ == old(f)@ + sym_gt(),
{
    emit_local_get(f, 0);
    emit_i32_const(f, CELL_WIDTH);
    f.push(OP_I32_ADD);
    emit_local_set(f, 0);
    assert(f@ =~= old(f)@ + sym_gt());
}

/// Increment the cell at the tape pointer by 1 (32-bit wrapping).
pub(crate) fn plus(f: &mut Vec<u8>)
    ensures
        final(f)@ == old(f)@ + sym_plus(),
{
    emit_local_get(f, 0);
    emit_local_get(f, 0);
    emit_i32_load(f);
    emit_i32_const(f, 1);
    f.push(OP_I32_ADD);
    emit_i32_store(f);
    assert(f@ =~= old(f)@ + sym_plus());
}

/// Decrement the cell at the tape pointer by 1 (32-bit wrapping).
pub(crate) fn minus(f: &mut Vec<u8>)
    ensures
        final(f)@ == old(f)@ + sym_minus(),
{
    emit_local_get(f, 0);
    emit_local_get(f, 0);
    emit_i32_load(f);
    emit_i32_const(f, 1);
    f.push(OP_I32_SUB);
    emit_i32_store(f);
    assert(f@ =~= old(f)@ + sym_minus());
}

/// Flush the output buffer to stdout unconditionally.
pub(crate) fn flush_stdout(f: &mut Vec<u8>)
    ensures
        final(f)@ == old(f)@ + flush_bytes(),
{
    emit_local_get(f, 3);
    emit_i32_const(f, 0);
    emit_i32_store(f);
    emit_local_get(f, 3);
    emit_i32_const(f, 4);
    f.push(OP_I32_ADD);
    emit_local_get(f, 1);
    emit_i32_store(f);
    emit_i32_const(f, 1);
    emit_local_get(f, 3);
    emit_i32_const(f, 1);
    emit_local_get(f, 3);
    emit_i32_const(f, 8);
    f.push(OP_I32_ADD);
    emit_call(f, HOST_WRITE);
    f.push(OP_DROP);
    assert(f@ =~= old(f)@ + flush_bytes());
}

/// Output the byte at the tape pointer, flushing a full buffer.
pub(crate) fn dot(f: &mut Vec<u8>)
    ensures
        final(f)@ == old(f)@ + sym_dot(),
{
    emit_local_get(f, 1);
    emit_local_get(f, 0);
    emit_i32_load(f);
    emit_i32_store8(f);
    emit_local_get(f, 1);
    emit_i32_const(f, 1);
    f.push(OP_I32_ADD);
    emit_local_set(f, 1);
    f.push(OP_BLOCK);
    f.push(BLOCKTYPE_EMPTY);
    emit_local_get(f, 1);
    emit_local_get(f, 2);
    f.push(OP_I32_LT_S);
    emit_br_if0(f);
    flush_stdout(f);
    emit_i32_const(f, 0);
    emit_local_set(f, 1);
    f.push(OP_END);
    assert(f@ =~= old(f)@ + sym_dot());
}

/// Accept one byte of input into the cell at the tape pointer.
pub(crate) fn comma(f: &mut Vec<u8>)
    ensures
        final(f)@ == old(f)@ + sym_comma(),
{
    emit_local_get(f, 3);
    emit_local_get(f, 0);
    emit_i32_store(f);
    emit_local_get(f, 3);
    emit_i32_const(f, 4);
    f.push(OP_I32_ADD);
    emit_i32_const(f, 1);
    emit_i32_store(f);
    emit_i32_const(f, 0);
    emit_local_get(f, 3);
    emit_i32_const(f, 1);
    emit_local_get(f, 3);
    emit_i32_const(f, 8);
    f.push(OP_I32_ADD);
    emit_call(f, HOST_READ);
    f.push(OP_DROP);
    assert(f@ =~= old(f)@ + sym_comma());
}

/// Open a loop: skip it entirely when the cell is zero.
pub(crate) fn sq_start(f: &mut Vec<u8>)
    ensures
        final(f)@ == old(f)@ + sym_open(),
{
    f.push(OP_BLOCK);
    f.push(BLOCKTYPE_EMPTY);
    emit_local_get(f, 0);
    emit_i32_load(f);
    f.push(OP_I32_EQZ);
    emit_br_if0(f);
    f.push(OP_LOOP);
    f.push(BLOCKTYPE_EMPTY);
    assert(f@ =~= old(f)@ + sym_open());
}

/// Close a loop: re-test at the bottom and branch back while non-zero.
pub(crate) fn sq_end(f: &mut Vec<u8>)
    ensures
        final(f)@ == old(f)@ + sym_close(),
{
    emit_local_get(f, 0);
    emit_i32_load(f);
    emit_i32_const(f, 0);
    f.push(OP_I32_NE);
    emit_br_if0(f);
    f.push(OP_END);
    f.push(OP_END);
    assert(f@ =~= old(f)@ + sym_close());
}

} // verus!
