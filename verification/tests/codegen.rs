use brainfk_rs::cmd::{Backend, Target};
use wasm_encoder::{
    BlockType, CodeSection, EntityType, ExportKind, ExportSection, Function, FunctionSection,
    ImportSection, Instruction, MemArg, MemorySection, MemoryType, Module, TypeSection, ValType,
};
use brainfk_rs::lang::{check_brackets, filter_symbols};
use brainfk_rs::{Error, Language};

fn chars(s: &str) -> Vec<char> {
    s.chars().collect()
}

#[test]
fn filter_keeps_only_symbols() {
    let mut lang = Language::new(false);
    lang.parse(&chars("a+ b[-]\n; comment .,<>x"));
    let expected: Vec<char> = chars("+[-].,<>");
    assert_eq!(lang.code, expected);
}

#[test]
fn filter_is_idempotent_on_samples() {
    for sample in [
        "",
        "+++.",
        "hello [world] -- ,,..",
        "[[[]]] mixed 123 <<>>",
        "no symbols at all",
    ] {
        let once = filter_symbols(&chars(sample));
        let twice = filter_symbols(&once);
        assert_eq!(once, twice);
    }
}

#[test]
fn brackets_accept_well_nested_programs() {
    for good in ["", "+-<>.,", "[]", "[[]]", "[.][,]", "+[-[.[,]]]>[<]"] {
        assert!(check_brackets(&chars(good)).is_ok());
    }
}

#[test]
fn brackets_report_offending_positions() {
    assert_eq!(check_brackets(&chars("]")), Err(0));
    assert_eq!(check_brackets(&chars("[")), Err(0));
    assert_eq!(check_brackets(&chars("[][")), Err(2));
    assert_eq!(check_brackets(&chars("[]][")), Err(2));
    assert_eq!(check_brackets(&chars("[[]")), Err(0));
}

#[test]
fn generated_modules_validate() {
    // Round trip: generation then structural validation, for a spread of
    // well-bracketed programs over the whole alphabet.
    for program in [
        "",
        "+",
        "+++.",
        ",.",
        "[-]",
        "++[-.]",
        "[.][,]",
        "+[-[.[,<>]]]>[<]",
        "[[[[[[[[[[]]]]]]]]]]",
        "><+-.,[]",
    ] {
        let mut lang = Language::new(false);
        lang.parse(&chars(program));
        lang.generate_wasm(&Target::Wasi).unwrap();
        assert!(!lang.wasm_bytes.is_empty());
        lang.validate()
            .unwrap_or_else(|e| panic!("program {:?} failed validation: {:?}", program, e));
        // The independent validator agrees.
        assert!(wasmparser::validate(&lang.wasm_bytes).is_ok());
    }
}

#[test]
fn generated_module_validates_for_deep_nesting() {
    let mut program = String::new();
    for _ in 0..100 {
        program.push('[');
    }
    program.push('.');
    for _ in 0..100 {
        program.push(']');
    }
    let mut lang = Language::new(false);
    lang.parse(&chars(&program));
    lang.generate_wasm(&Target::Wasi).unwrap();
    assert!(lang.validate().is_ok());
}

#[test]
fn browser_target_fails_before_emitting_bytes() {
    let mut lang = Language::new(false);
    lang.parse(&chars("+++."));
    let r = lang.generate_wasm(&Target::Browser);
    assert!(matches!(r, Err(Error::UnsupportedTarget)));
    assert!(lang.wasm_bytes.is_empty());
}

#[test]
fn malformed_programs_fail_before_generation() {
    let mut lang = Language::new(false);
    lang.parse(&chars("+++[."));
    let r = lang.generate_wasm(&Target::Wasi);
    match r {
        Err(Error::MalformedProgram { position }) => assert_eq!(position, 3),
        other => panic!("expected a malformed-program error, got {:?}", other),
    }
    assert!(lang.wasm_bytes.is_empty());
}

#[test]
fn module_header_and_exports_are_in_place() {
    let mut lang = Language::new(false);
    lang.parse(&chars("+++."));
    lang.generate_wasm(&Target::Wasi).unwrap();
    let b = &lang.wasm_bytes;
    assert_eq!(&b[0..8], &[0x00, 0x61, 0x73, 0x6d, 0x01, 0x00, 0x00, 0x00]);
    let window = |needle: &[u8]| b.windows(needle.len()).any(|w| w == needle);
    assert!(window(b"wasi_unstable"));
    assert!(window(b"fd_read"));
    assert!(window(b"fd_write"));
    assert!(window(b"memory"));
    assert!(window(b"_start"));
}

#[test]
fn corrupt_bytes_fail_validation() {
    let mut lang = Language::new(false);
    lang.parse(&chars("+."));
    lang.generate_wasm(&Target::Wasi).unwrap();
    // Corrupt the artifact: validation must reject it and say why.
    lang.wasm_bytes[0] = 0xff;
    match lang.validate() {
        Err(Error::Validation { message }) => assert!(!message.is_empty()),
        other => panic!("expected a validation error, got {:?}", other),
    }
}

#[test]
fn standalone_binary_packaging_fails_clearly() {
    let mut lang = Language::new(false);
    lang.parse(&chars("+."));
    lang.generate_wasm(&Target::Wasi).unwrap();
    let r = lang.compile_binary("ignored", &Backend::Cranelift);
    assert!(matches!(r, Err(Error::Unimplemented)));
}

// Build the same module with the reference encoder and compare byte for byte.
fn reference_module(program: &str) -> Vec<u8> {
    let mem = || MemArg { offset: 0, align: 0, memory_index: 0 };
    let mut module = Module::new();
    let mut types = TypeSection::new();
    types.ty().function([], []);
    types.ty().function(
        vec![ValType::I32, ValType::I32, ValType::I32, ValType::I32],
        vec![ValType::I32],
    );
    types.ty().function(
        vec![ValType::I32, ValType::I32, ValType::I32, ValType::I32],
        vec![ValType::I32],
    );
    module.section(&types);
    let mut imports = ImportSection::new();
    imports.import("wasi_unstable", "fd_read", EntityType::Function(1));
    imports.import("wasi_unstable", "fd_write", EntityType::Function(2));
    module.section(&imports);
    let mut functions = FunctionSection::new();
    functions.function(0);
    module.section(&functions);
    let mut memories = MemorySection::new();
    memories.memory(MemoryType {
        minimum: 3,
        maximum: None,
        memory64: false,
        shared: false,
        page_size_log2: None,
    });
    module.section(&memories);
    let mut exports = ExportSection::new();
    exports.export("memory", ExportKind::Memory, 0);
    exports.export("_start", ExportKind::Func, 2);
    module.section(&exports);
    let mut codes = CodeSection::new();
    let mut f = Function::new(vec![(4, ValType::I32)]);
    f.instruction(&Instruction::I32Const(1024));
    f.instruction(&Instruction::LocalSet(0));
    f.instruction(&Instruction::I32Const(0));
    f.instruction(&Instruction::LocalSet(1));
    f.instruction(&Instruction::I32Const(1000));
    f.instruction(&Instruction::LocalSet(2));
    f.instruction(&Instruction::I32Const(1004));
    f.instruction(&Instruction::LocalSet(3));
    let flush = |f: &mut Function| {
        f.instruction(&Instruction::LocalGet(3));
        f.instruction(&Instruction::I32Const(0));
        f.instruction(&Instruction::I32Store(mem()));
        f.instruction(&Instruction::LocalGet(3));
        f.instruction(&Instruction::I32Const(4));
        f.instruction(&Instruction::I32Add);
        f.instruction(&Instruction::LocalGet(1));
        f.instruction(&Instruction::I32Store(mem()));
        f.instruction(&Instruction::I32Const(1));
        f.instruction(&Instruction::LocalGet(3));
        f.instruction(&Instruction::I32Const(1));
        f.instruction(&Instruction::LocalGet(3));
        f.instruction(&Instruction::I32Const(8));
        f.instruction(&Instruction::I32Add);
        f.instruction(&Instruction::Call(1));
        f.instruction(&Instruction::Drop);
    };
    for symb in program.chars() {
        match symb {
            '<' => {
                f.instruction(&Instruction::LocalGet(0));
                f.instruction(&Instruction::I32Const(4));
                f.instruction(&Instruction::I32Sub);
                f.instruction(&Instruction::LocalSet(0));
            }
            '>' => {
                f.instruction(&Instruction::LocalGet(0));
                f.instruction(&Instruction::I32Const(4));
                f.instruction(&Instruction::I32Add);
                f.instruction(&Instruction::LocalSet(0));
            }
            '+' => {
                f.instruction(&Instruction::LocalGet(0));
                f.instruction(&Instruction::LocalGet(0));
                f.instruction(&Instruction::I32Load(mem()));
                f.instruction(&Instruction::I32Const(1));
                f.instruction(&Instruction::I32Add);
                f.instruction(&Instruction::I32Store(mem()));
            }
            '-' => {
                f.instruction(&Instruction::LocalGet(0));
                f.instruction(&Instruction::LocalGet(0));
                f.instruction(&Instruction::I32Load(mem()));
                f.instruction(&Instruction::I32Const(1));
                f.instruction(&Instruction::I32Sub);
                f.instruction(&Instruction::I32Store(mem()));
            }
            '.' => {
                f.instruction(&Instruction::LocalGet(1));
                f.instruction(&Instruction::LocalGet(0));
                f.instruction(&Instruction::I32Load(mem()));
                f.instruction(&Instruction::I32Store8(mem()));
                f.instruction(&Instruction::LocalGet(1));
                f.instruction(&Instruction::I32Const(1));
                f.instruction(&Instruction::I32Add);
                f.instruction(&Instruction::LocalSet(1));
                f.instruction(&Instruction::Block(BlockType::Empty));
                f.instruction(&Instruction::LocalGet(1));
                f.instruction(&Instruction::LocalGet(2));
                f.instruction(&Instruction::I32LtS);
                f.instruction(&Instruction::BrIf(0));
                flush(&mut f);
                f.instruction(&Instruction::I32Const(0));
                f.instruction(&Instruction::LocalSet(1));
                f.instruction(&Instruction::End);
            }
            ',' => {
                f.instruction(&Instruction::LocalGet(3));
                f.instruction(&Instruction::LocalGet(0));
                f.instruction(&Instruction::I32Store(mem()));
                f.instruction(&Instruction::LocalGet(3));
                f.instruction(&Instruction::I32Const(4));
                f.instruction(&Instruction::I32Add);
                f.instruction(&Instruction::I32Const(1));
                f.instruction(&Instruction::I32Store(mem()));
                f.instruction(&Instruction::I32Const(0));
                f.instruction(&Instruction::LocalGet(3));
                f.instruction(&Instruction::I32Const(1));
                f.instruction(&Instruction::LocalGet(3));
                f.instruction(&Instruction::I32Const(8));
                f.instruction(&Instruction::I32Add);
                f.instruction(&Instruction::Call(0));
                f.instruction(&Instruction::Drop);
            }
            '[' => {
                f.instruction(&Instruction::Block(BlockType::Empty));
                f.instruction(&Instruction::LocalGet(0));
                f.instruction(&Instruction::I32Load(mem()));
                f.instruction(&Instruction::I32Eqz);
                f.instruction(&Instruction::BrIf(0));
                f.instruction(&Instruction::Loop(BlockType::Empty));
            }
            ']' => {
                f.instruction(&Instruction::LocalGet(0));
                f.instruction(&Instruction::I32Load(mem()));
                f.instruction(&Instruction::I32Const(0));
                f.instruction(&Instruction::I32Ne);
                f.instruction(&Instruction::BrIf(0));
                f.instruction(&Instruction::End);
                f.instruction(&Instruction::End);
            }
            _ => {
                f.instruction(&Instruction::Nop);
            }
        }
    }
    flush(&mut f);
    f.instruction(&Instruction::End);
    codes.function(&f);
    module.section(&codes);
    module.finish()
}

#[test]
fn generated_bytes_match_the_reference_encoder() {
    for program in ["", "+++.", ",.", "[-]", "+[-[.[,<>]]]>[<]"] {
        let mut lang = Language::new(false);
        lang.parse(&chars(program));
        lang.generate_wasm(&Target::Wasi).unwrap();
        assert_eq!(
            lang.wasm_bytes,
            reference_module(program),
            "byte mismatch for {:?}",
            program
        );
    }
}
