use vstd::prelude::*;

verus! {

/// A target architecture.
#[derive(Copy, Clone, Debug, PartialEq, Eq, Structural)]
pub enum Architecture {
    /// Arm
    Arm,
    /// AArch64
    AArch64,
    /// BPF
    Bpf,
    /// Hexagon
    Hexagon,
    /// MIPS
    Mips,
    /// PowerPC
    PowerPC,
    /// RISC-V
    RiscV,
    /// WASM
    Wasm,
    /// x86 and x86-64
    X86,
    /// Another target, which has no features
    Unsupported,
}

} // verus!
