use vstd::prelude::*;

verus! {

/// Where a generated module is meant to run.
#[derive(Clone, Copy, Debug, PartialEq, Eq, Structural)]
pub enum Target {
    /// Browser-hosted embedding: deliberately unspecified. Every code path
    /// that needs it fails with `Error::UnsupportedTarget` before any bytes
    /// are emitted.
    Browser,
    /// Sandboxed host whose I/O is two vectored read/write host calls.
    Wasi,
}

/// How the backend compiler lowers validated module bytes to native code.
#[derive(Clone, Copy, Debug, PartialEq, Eq, Structural)]
pub enum Backend {
    /// Balanced compile-time/run-time tradeoff.
    Cranelift,
    /// High optimization, slowest compilation.
    LLVM,
    /// Fastest compilation, least optimized code.
    Singlepass,
}

/// What a pipeline run does with its artifact once the stages are through.
#[derive(Clone, Copy, Debug, PartialEq, Eq, Structural)]
pub enum TerminalAction {
    /// Run the compiled object's entry point to completion.
    Execute,
    /// Persist the compiled object in its backend-bound serialized form.
    Serialize,
    /// Persist the validated, optimized module bytes themselves.
    WriteRawBytes,
    /// Ahead-of-time native packaging: an explicit non-goal that must fail
    /// clearly rather than emit a corrupt artifact.
    CompileStandalone,
}

/// The stages of one pipeline run, strictly sequential: no skipping, no
/// re-entry.
#[derive(Clone, Copy, Debug, PartialEq, Eq, Structural)]
pub enum PipelineState {
    Parsed,
    Generated,
    Validated,
    Optimized,
    Compiled,
    Terminal,
}

/// The one stage that may follow `s`, if any.
pub open spec fn next_state(s: PipelineState) -> Option<PipelineState> {
    match s {
        PipelineState::Parsed => Some(PipelineState::Generated),
        PipelineState::Generated => Some(PipelineState::Validated),
        PipelineState::Validated => Some(PipelineState::Optimized),
        PipelineState::Optimized => Some(PipelineState::Compiled),
        PipelineState::Compiled => Some(PipelineState::Terminal),
        PipelineState::Terminal => None,
    }
}

/// Advance the orchestrator by exactly one stage; after the terminal stage
/// nothing follows.
pub fn advance(s: &PipelineState) -> (r: Option<PipelineState>)
    ensures
        r == next_state(*s),
{
    match s {
        PipelineState::Parsed => Some(PipelineState::Generated),
        PipelineState::Generated => Some(PipelineState::Validated),
        PipelineState::Validated => Some(PipelineState::Optimized),
        PipelineState::Optimized => Some(PipelineState::Compiled),
        PipelineState::Compiled => Some(PipelineState::Terminal),
        PipelineState::Terminal => None,
    }
}

/// One of the four operations the command surface offers.
#[derive(Debug)]
pub enum Command {
    /// Generate a module and persist its raw bytes.
    GenerateWasm { input_file: String, output_file: String, target: Target },
    /// Compile a module and persist the backend-bound serialized object.
    CompileWasmu { input_file: String, output_file: String, backend: Backend },
    /// Package a module as a standalone native binary (unimplemented).
    CompileBinary { input_file: String, output_file: String, backend: Backend },
    /// Compile a module and run it to completion.
    Run { input_file: String, backend: Backend },
}

impl Command {
    /// The target a command generates for. Only the sandboxed host can be
    /// compiled to native code or run, so every operation but plain module
    /// generation forces it.
    pub open spec fn spec_target(&self) -> Target {
        match self {
            Command::GenerateWasm { target, .. } => *target,
            _ => Target::Wasi,
        }
    }

    pub fn target(&self) -> (t: Target)
        ensures
            t == self.spec_target(),
    {
        match self {
            Command::GenerateWasm { target, .. } => *target,
            _ => Target::Wasi,
        }
    }

    /// The terminal action each operation selects.
    pub open spec fn spec_terminal_action(&self) -> TerminalAction {
        match self {
            Command::GenerateWasm { .. } => TerminalAction::WriteRawBytes,
            Command::CompileWasmu { .. } => TerminalAction::Serialize,
            Command::CompileBinary { .. } => TerminalAction::CompileStandalone,
            Command::Run { .. } => TerminalAction::Execute,
        }
    }

    pub fn terminal_action(&self) -> (a: TerminalAction)
        ensures
            a == self.spec_terminal_action(),
    {
        match self {
            Command::GenerateWasm { .. } => TerminalAction::WriteRawBytes,
            Command::CompileWasmu { .. } => TerminalAction::Serialize,
            Command::CompileBinary { .. } => TerminalAction::CompileStandalone,
            Command::Run { .. } => TerminalAction::Execute,
        }
    }
}

/// A parsed command line.
#[derive(Debug)]
pub struct Cli {
    pub command: Command,
}

} // verus!
