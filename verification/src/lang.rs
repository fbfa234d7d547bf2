use vstd::prelude::*;

use crate::cmd::Target;
use crate::compiler::{
    comma, dot, emit_prologue, flush_bytes, flush_stdout, greater_than, less_than, minus, plus,
    prologue, sq_end, sq_start, sym_bytes, MEMORY_PAGES, OP_END, OP_NOP,
};
use crate::encode::{push_uleb, uleb};
use crate::{is_symbol, symbol, Error};

verus! {

// --- Symbol filtering ---

/// The symbol sequence of a text: the characters of the alphabet in order,
/// everything else dropped. Comments are implicit: any non-symbol character is
/// ignored.
pub open spec fn keep_symbols(s: Seq<char>) -> Seq<char>
    decreases s.len(),
{
    if s.len() == 0 {
        Seq::empty()
    } else if is_symbol(s.last()) {
        keep_symbols(s.drop_last()) + seq![s.last()]
    } else {
        keep_symbols(s.drop_last())
    }
}

/// Every character the filter keeps is in the alphabet.
pub proof fn lemma_keep_symbols_all(s: Seq<char>)
    ensures
        forall|i: int| 0 <= i < keep_symbols(s).len() ==> is_symbol(#[trigger] keep_symbols(s)[i]),
    decreases s.len(),
{
    if s.len() > 0 {
        lemma_keep_symbols_all(s.drop_last());
        if is_symbol(s.last()) {
            assert forall|i: int|
                0 <= i < keep_symbols(s).len() implies is_symbol(keep_symbols(s)[i]) by {
                if i < keep_symbols(s.drop_last()).len() {
                    assert(keep_symbols(s)[i] == keep_symbols(s.drop_last())[i]);
                } else {
                    assert(keep_symbols(s)[i] == s.last());
                }
            }
        }
    }
}

/// Filtering a sequence that already holds only symbols changes nothing.
proof fn lemma_keep_symbols_of_symbols(s: Seq<char>)
    requires
        forall|i: int| 0 <= i < s.len() ==> is_symbol(#[trigger] s[i]),
    ensures
        keep_symbols(s) == s,
    decreases s.len(),
{
    if s.len() > 0 {
        lemma_keep_symbols_of_symbols(s.drop_last());
        assert(is_symbol(s.last()));
        assert(keep_symbols(s) =~= s);
    }
}

/// Law: filtering is idempotent — filtering a text twice yields the same
/// symbol sequence as filtering it once.
pub proof fn lemma_filter_idempotent(s: Seq<char>)
    ensures
        keep_symbols(keep_symbols(s)) == keep_symbols(s),
{
    lemma_keep_symbols_all(s);
    lemma_keep_symbols_of_symbols(keep_symbols(s));
}

/// Retain only the eight recognized symbols, in order.
pub fn filter_symbols(text: &Vec<char>) -> (r: Vec<char>)
    ensures
        r@ == keep_symbols(text@),
{
    let mut out: Vec<char> = Vec::new();
    let mut i: usize = 0;
    while i < text.len()
        invariant
            i <= text.len(),
            out@ == keep_symbols(text@.take(i as int)),
        decreases text@.len() - i,
    {
        let c = text[i];
        proof {
            assert(text@.take(i as int + 1).drop_last() =~= text@.take(i as int));
        }
        if symbol(c) {
            out.push(c);
        }
        assert(out@ =~= keep_symbols(text@.take(i as int + 1)));
        i += 1;
    }
    proof {
        assert(text@.take(text@.len() as int) =~= text@);
    }
    out
}

// --- Bracket discipline ---

/// How a character changes the bracket nesting depth.
pub open spec fn bracket_delta(c: char) -> int {
    if c == '[' {
        1
    } else if c == ']' {
        -1
    } else {
        0
    }
}

/// Bracket nesting depth after reading all of `s`.
pub open spec fn bracket_depth(s: Seq<char>) -> int
    decreases s.len(),
{
    if s.len() == 0 {
        0
    } else {
        bracket_depth(s.drop_last()) + bracket_delta(s.last())
    }
}

/// A symbol stream is well-bracketed when every `[` has its matching `]` at
/// the same nesting depth: no prefix closes more than was opened, and the
/// whole stream closes everything it opened.
pub open spec fn well_bracketed(s: Seq<char>) -> bool {
    bracket_depth(s) == 0 && forall|i: int|
        0 <= i <= s.len() ==> bracket_depth(#[trigger] s.take(i)) >= 0
}

/// Check bracket discipline with an explicit stack of source positions. On
/// failure the reported position is an offending bracket: a `]` that closes
/// nothing, or an unclosed `[`.
pub fn check_brackets(code: &Vec<char>) -> (r: Result<(), usize>)
    ensures
        r is Ok <==> well_bracketed(code@),
        r matches Err(p) ==> p < code@.len() && (code@[p as int] == '[' || code@[p as int]
            == ']'),
{
    let mut stack: Vec<usize> = Vec::new();
    let mut i: usize = 0;
    while i < code.len()
        invariant
            i <= code.len(),
            stack@.len() == bracket_depth(code@.take(i as int)),
            forall|j: int| 0 <= j <= i ==> bracket_depth(#[trigger] code@.take(j)) >= 0,
            forall|k: int|
                0 <= k < stack@.len() ==> stack@[k] < i && code@[#[trigger] stack@[k] as int]
                    == '[',
        decreases code@.len() - i,
    {
        let c = code[i];
        proof {
            assert(code@.take(i as int + 1).drop_last() =~= code@.take(i as int));
        }
        if c == '[' {
            stack.push(i);
        } else if c == ']' {
            if stack.len() == 0 {
                proof {
                    assert(bracket_depth(code@.take(i as int + 1)) == -1);
                }
                return Err(i);
            }
            let _ = stack.pop();
        }
        i += 1;
    }
    proof {
        assert(code@.take(code@.len() as int) =~= code@);
    }
    if stack.len() > 0 {
        let p = stack[stack.len() - 1];
        return Err(p);
    }
    Ok(())
}

// --- Module assembly ---

/// The binary format's magic number and version.
pub open spec fn header() -> Seq<u8> {
    seq![0x00u8, 0x61, 0x73, 0x6d, 0x01, 0x00, 0x00, 0x00]
}

/// Type section: the entry function's `() -> ()`, then the two host-call
/// signatures `(i32, i32, i32, i32) -> i32`, one for the vectored read and one
/// for the vectored write.
pub open spec fn type_section() -> Seq<u8> {
    seq![
        0x01u8, 20,  // section id, payload size
        3,  // three types
        0x60, 0, 0,  // () -> ()
        0x60, 4, 0x7f, 0x7f, 0x7f, 0x7f, 1, 0x7f,  // (i32 x 4) -> i32
        0x60, 4, 0x7f, 0x7f, 0x7f, 0x7f, 1, 0x7f,  // (i32 x 4) -> i32
    ]
}

/// "wasi_unstable", the import module name of the sandboxed-host ABI.
pub open spec fn str_wasi_unstable() -> Seq<u8> {
    seq![0x77u8, 0x61, 0x73, 0x69, 0x5f, 0x75, 0x6e, 0x73, 0x74, 0x61, 0x62, 0x6c, 0x65]
}

/// "fd_read".
pub open spec fn str_fd_read() -> Seq<u8> {
    seq![0x66u8, 0x64, 0x5f, 0x72, 0x65, 0x61, 0x64]
}

/// "fd_write".
pub open spec fn str_fd_write() -> Seq<u8> {
    seq![0x66u8, 0x64, 0x5f, 0x77, 0x72, 0x69, 0x74, 0x65]
}

/// "memory".
pub open spec fn str_memory() -> Seq<u8> {
    seq![0x6du8, 0x65, 0x6d, 0x6f, 0x72, 0x79]
}

/// "_start".
pub open spec fn str_start() -> Seq<u8> {
    seq![0x5fu8, 0x73, 0x74, 0x61, 0x72, 0x74]
}

/// Import section: the vectored read (type 1), then the vectored write
/// (type 2), both from the sandboxed-host ABI module.
pub open spec fn import_section() -> Seq<u8> {
    seq![0x02u8, 50, 2]  // section id, payload size, two imports
        + seq![13u8] + str_wasi_unstable() + seq![7u8] + str_fd_read() + seq![0x00u8, 1]
        + seq![13u8] + str_wasi_unstable() + seq![8u8] + str_fd_write() + seq![0x00u8, 2]
}

/// Function section: one function of type 0, the entry function.
pub open spec fn function_section() -> Seq<u8> {
    seq![0x03u8, 2, 1, 0]
}

/// Memory section: one unshared 32-bit memory with no maximum, pre-sized for
/// the I/O buffer, the descriptor area and the tape.
pub open spec fn memory_section() -> Seq<u8> {
    seq![0x05u8, 3, 1, 0x00, MEMORY_PAGES as u8]
}

/// Export section: the memory as "memory" and the entry function — index 2,
/// after the two imports — as "_start".
pub open spec fn export_section() -> Seq<u8> {
    seq![0x07u8, 19, 2]  // section id, payload size, two exports
        + seq![6u8] + str_memory() + seq![0x02u8, 0]
        + seq![6u8] + str_start() + seq![0x00u8, 2]
}

/// Per-symbol translation of a whole symbol stream, in order.
pub open spec fn translate(code: Seq<char>) -> Seq<u8>
    decreases code.len(),
{
    if code.len() == 0 {
        Seq::empty()
    } else {
        translate(code.drop_last()) + sym_bytes(code.last())
    }
}

/// The entry function's declared locals: one group of four i32s — tape
/// pointer, output cursor, buffer capacity, descriptor base.
pub open spec fn locals_decl() -> Seq<u8> {
    seq![1u8, 4, 0x7f]
}

/// The entry function: locals, prologue, the translated program, one final
/// unconditional flush of any remaining buffered output, and the terminator.
pub open spec fn func_body(code: Seq<char>) -> Seq<u8> {
    locals_decl() + prologue() + translate(code) + flush_bytes() + seq![OP_END]
}

/// Code section: exactly one function body, holding the entire translated
/// program.
pub open spec fn code_section(code: Seq<char>) -> Seq<u8> {
    let body = func_body(code);
    let contents = seq![1u8] + uleb(body.len()) + body;
    seq![0x0au8] + uleb(contents.len()) + contents
}

/// A complete, self-contained binary module for `code` on the sandboxed-host
/// target.
pub open spec fn module_bytes(code: Seq<char>) -> Seq<u8> {
    header() + type_section() + import_section() + function_section() + memory_section()
        + export_section() + code_section(code)
}

fn push_header(out: &mut Vec<u8>)
    ensures
        final(out)@ == old(out)@ + header(),
{
    out.push(0x00);
    out.push(0x61);
    out.push(0x73);
    out.push(0x6d);
    out.push(0x01);
    out.push(0x00);
    out.push(0x00);
    out.push(0x00);
    assert(out@ =~= old(out)@ + header());
}

fn push_type_section(out: &mut Vec<u8>)
    ensures
        final(out)@ == old(out)@ + type_section(),
{
    out.push(0x01);
    out.push(20);
    out.push(3);
    out.push(0x60);
    out.push(0);
    out.push(0);
    out.push(0x60);
    out.push(4);
    out.push(0x7f);
    out.push(0x7f);
    out.push(0x7f);
    out.push(0x7f);
    out.push(1);
    out.push(0x7f);
    out.push(0x60);
    out.push(4);
    out.push(0x7f);
    out.push(0x7f);
    out.push(0x7f);
    out.push(0x7f);
    out.push(1);
    out.push(0x7f);
    assert(out@ =~= old(out)@ + type_section());
}

fn push_import_name(out: &mut Vec<u8>)
    ensures
        final(out)@ == old(out)@ + seq![13u8] + str_wasi_unstable(),
{
    out.push(13);
    out.push(0x77);
    out.push(0x61);
    out.push(0x73);
    out.push(0x69);
    out.push(0x5f);
    out.push(0x75);
    out.push(0x6e);
    out.push(0x73);
    out.push(0x74);
    out.push(0x61);
    out.push(0x62);
    out.push(0x6c);
    out.push(0x65);
    assert(out@ =~= old(out)@ + seq![13u8] + str_wasi_unstable());
}

fn push_import_section(out: &mut Vec<u8>)
    ensures
        final(out)@ == old(out)@ + import_section(),
{
    out.push(0x02);
    out.push(50);
    out.push(2);
    push_import_name(out);
    out.push(7);
    out.push(0x66);
    out.push(0x64);
    out.push(0x5f);
    out.push(0x72);
    out.push(0x65);
    out.push(0x61);
    out.push(0x64);
    out.push(0x00);
    out.push(1);
    push_import_name(out);
    out.push(8);
    out.push(0x66);
    out.push(0x64);
    out.push(0x5f);
    out.push(0x77);
    out.push(0x72);
    out.push(0x69);
    out.push(0x74);
    out.push(0x65);
    out.push(0x00);
    out.push(2);
    assert(out@ =~= old(out)@ + import_section());
}

fn push_function_section(out: &mut Vec<u8>)
    ensures
        final(out)@ == old(out)@ + function_section(),
{
    out.push(0x03);
    out.push(2);
    out.push(1);
    out.push(0);
    assert(out@ =~= old(out)@ + function_section());
}

fn push_memory_section(out: &mut Vec<u8>)
    ensures
        final(out)@ == old(out)@ + memory_section(),
{
    out.push(0x05);
    out.push(3);
    out.push(1);
    out.push(0x00);
    out.push(MEMORY_PAGES as u8);
    assert(out@ =~= old(out)@ + memory_section());
}

fn push_export_section(out: &mut Vec<u8>)
    ensures
        final(out)@ == old(out)@ + export_section(),
{
    out.push(0x07);
    out.push(19);
    out.push(2);
    out.push(6);
    out.push(0x6d);
    out.push(0x65);
    out.push(0x6d);
    out.push(0x6f);
    out.push(0x72);
    out.push(0x79);
    out.push(0x02);
    out.push(0);
    out.push(6);
    out.push(0x5f);
    out.push(0x73);
    out.push(0x74);
    out.push(0x61);
    out.push(0x72);
    out.push(0x74);
    out.push(0x00);
    out.push(2);
    assert(out@ =~= old(out)@ + export_section());
}

/// Translate a filtered symbol stream into a complete binary module: a pure
/// function of (symbols, target). The browser-hosted target is refused before
/// any bytes are emitted; unmatched brackets are refused before generation.
pub fn code_gen(code: &Vec<char>, target: &Target) -> (r: Result<Vec<u8>, Error>)
    ensures
        match r {
            Ok(bytes) => *target is Wasi && well_bracketed(code@) && bytes@ == module_bytes(
                code@,
            ),
            Err(e) => match e {
                Error::UnsupportedTarget => *target is Browser,
                Error::MalformedProgram { position } => *target is Wasi && !well_bracketed(code@)
                    && position < code@.len() && (code@[position as int] == '['
                    || code@[position as int] == ']'),
                _ => false,
            },
        },
{
    match target {
        Target::Browser => {
            return Err(Error::UnsupportedTarget);
        },
        Target::Wasi => {},
    }
    match check_brackets(code) {
        Err(position) => {
            return Err(Error::MalformedProgram { position });
        },
        Ok(()) => {},
    }

    let mut func: Vec<u8> = Vec::new();
    func.push(1);
    func.push(4);
    func.push(0x7f);
    emit_prologue(&mut func);
    assert(func@ =~= (locals_decl() + prologue()) + translate(code@.take(0)));
    let mut i: usize = 0;
    while i < code.len()
        invariant
            i <= code.len(),
            func@ == (locals_decl() + prologue()) + translate(code@.take(i as int)),
        decreases code@.len() - i,
    {
        let c = code[i];
        proof {
            assert(code@.take(i as int + 1).drop_last() =~= code@.take(i as int));
        }
        if c == '<' {
            less_than(&mut func);
        } else if c == '>' {
            greater_than(&mut func);
        } else if c == '+' {
            plus(&mut func);
        } else if c == '-' {
            minus(&mut func);
        } else if c == '.' {
            dot(&mut func);
        } else if c == ',' {
            comma(&mut func);
        } else if c == '[' {
            sq_start(&mut func);
        } else if c == ']' {
            sq_end(&mut func);
        } else {
            func.push(OP_NOP);
        }
        assert(func@ =~= (locals_decl() + prologue()) + translate(code@.take(i as int + 1)));
        i += 1;
    }
    proof {
        assert(code@.take(code@.len() as int) =~= code@);
    }
    flush_stdout(&mut func);
    func.push(OP_END);
    assert(func@ =~= func_body(code@));

    let ghost body_spec = func_body(code@);
    let mut contents: Vec<u8> = Vec::new();
    contents.push(1);
    push_uleb(&mut contents, func.len() as u64);
    assert(contents@ =~= seq![1u8] + uleb(body_spec.len()));
    contents.append(&mut func);
    assert(contents@ =~= seq![1u8] + uleb(body_spec.len()) + body_spec);

    let mut out: Vec<u8> = Vec::new();
    push_header(&mut out);
    push_type_section(&mut out);
    push_import_section(&mut out);
    push_function_section(&mut out);
    push_memory_section(&mut out);
    push_export_section(&mut out);
    out.push(0x0a);
    push_uleb(&mut out, contents.len() as u64);
    out.append(&mut contents);
    assert(out@ =~= module_bytes(code@));
    Ok(out)
}

} // verus!
