use brainfk_rs::cmd::{advance, Backend, Cli, Command, PipelineState, Target, TerminalAction};

#[test]
fn stages_advance_strictly_in_order() {
    assert_eq!(advance(&PipelineState::Parsed), Some(PipelineState::Generated));
    assert_eq!(advance(&PipelineState::Generated), Some(PipelineState::Validated));
    assert_eq!(advance(&PipelineState::Validated), Some(PipelineState::Optimized));
    assert_eq!(advance(&PipelineState::Optimized), Some(PipelineState::Compiled));
    assert_eq!(advance(&PipelineState::Compiled), Some(PipelineState::Terminal));
    assert_eq!(advance(&PipelineState::Terminal), None);
}

#[test]
fn only_module_generation_honors_a_requested_target() {
    let generate = Command::GenerateWasm {
        input_file: String::from("in.b"),
        output_file: String::from("out.wasm"),
        target: Target::Browser,
    };
    assert_eq!(generate.target(), Target::Browser);
    let run = Command::Run { input_file: String::from("in.b"), backend: Backend::Cranelift };
    assert_eq!(run.target(), Target::Wasi);
    let compile = Command::CompileWasmu {
        input_file: String::from("in.b"),
        output_file: String::from("out.wasmu"),
        backend: Backend::LLVM,
    };
    assert_eq!(compile.target(), Target::Wasi);
}

#[test]
fn a_command_line_carries_its_command() {
    let cli = Cli {
        command: Command::Run {
            input_file: String::from("in.b"),
            backend: Backend::Singlepass,
        },
    };
    assert_eq!(cli.command.target(), Target::Wasi);
    assert_eq!(cli.command.terminal_action(), TerminalAction::Execute);
}

#[test]
fn each_command_selects_its_terminal_action() {
    let generate = Command::GenerateWasm {
        input_file: String::from("in.b"),
        output_file: String::from("out.wasm"),
        target: Target::Wasi,
    };
    assert_eq!(generate.terminal_action(), TerminalAction::WriteRawBytes);
    let compile = Command::CompileWasmu {
        input_file: String::from("in.b"),
        output_file: String::from("out.wasmu"),
        backend: Backend::Singlepass,
    };
    assert_eq!(compile.terminal_action(), TerminalAction::Serialize);
    let binary = Command::CompileBinary {
        input_file: String::from("in.b"),
        output_file: String::from("out"),
        backend: Backend::Cranelift,
    };
    assert_eq!(binary.terminal_action(), TerminalAction::CompileStandalone);
    let run = Command::Run { input_file: String::from("in.b"), backend: Backend::Cranelift };
    assert_eq!(run.terminal_action(), TerminalAction::Execute);
}
