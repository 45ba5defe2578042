//! The feature table: one entry per feature, in a fixed order.
//!
//! The table is held as parallel columns. A feature's identity is its row.

use crate::architecture::Architecture;
use vstd::prelude::*;

verus! {

/// Number of rows in the table.
pub const FEATURE_COUNT: usize = 52;

/// The architecture of each row.
pub const ARCHITECTURES: [Architecture; 52] = [
    Architecture::Arm,
    Architecture::Arm,
    Architecture::Arm,
    Architecture::Arm,
    Architecture::Arm,
    Architecture::Arm,
    Architecture::Arm,
    Architecture::Arm,
    Architecture::Arm,
    Architecture::AArch64,
    Architecture::AArch64,
    Architecture::AArch64,
    Architecture::AArch64,
    Architecture::AArch64,
    Architecture::AArch64,
    Architecture::AArch64,
    Architecture::AArch64,
    Architecture::AArch64,
    Architecture::AArch64,
    Architecture::Bpf,
    Architecture::Hexagon,
    Architecture::Hexagon,
    Architecture::Mips,
    Architecture::Mips,
    Architecture::PowerPC,
    Architecture::PowerPC,
    Architecture::PowerPC,
    Architecture::PowerPC,
    Architecture::RiscV,
    Architecture::RiscV,
    Architecture::RiscV,
    Architecture::RiscV,
    Architecture::RiscV,
    Architecture::Wasm,
    Architecture::Wasm,
    Architecture::Wasm,
    Architecture::Wasm,
    Architecture::X86,
    Architecture::X86,
    Architecture::X86,
    Architecture::X86,
    Architecture::X86,
    Architecture::X86,
    Architecture::X86,
    Architecture::X86,
    Architecture::X86,
    Architecture::X86,
    Architecture::X86,
    Architecture::X86,
    Architecture::X86,
    Architecture::X86,
    Architecture::X86,
];

/// The name of each row, unique within its architecture.
pub const NAMES: [&'static str; 52] = [
    "aes",
    "crc",
    "dsp",
    "neon",
    "sha2",
    "thumb2",
    "vfp2",
    "vfp3",
    "vfp4",
    "aes",
    "crc",
    "dotprod",
    "lse",
    "neon",
    "rcpc",
    "sha2",
    "sha3",
    "sve",
    "sve2",
    "alu32",
    "hvx",
    "hvx-length128b",
    "fp64",
    "msa",
    "altivec",
    "power8-vector",
    "power9-vector",
    "vsx",
    "a",
    "c",
    "d",
    "f",
    "m",
    "atomics",
    "bulk-memory",
    "relaxed-simd",
    "simd128",
    "adx",
    "aes",
    "avx",
    "avx2",
    "bmi1",
    "bmi2",
    "fma",
    "lzcnt",
    "popcnt",
    "sse",
    "sse2",
    "sse3",
    "sse4.1",
    "sse4.2",
    "ssse3",
];

/// The description of each row.
pub const DESCRIPTIONS: [&'static str; 52] = [
    "Enable AES support",
    "Enable support for CRC instructions",
    "Supports DSP instructions in ARM and/or Thumb2",
    "Enable NEON instructions",
    "Enable SHA1 and SHA256 support",
    "Enable Thumb2 instructions",
    "Enable VFP2 instructions",
    "Enable VFP3 instructions",
    "Enable VFP4 instructions",
    "Enable AES support",
    "Enable ARMv8 CRC-32 checksum instructions",
    "Enable dot product support",
    "Enable ARMv8.1 Large System Extension (LSE) atomic instructions",
    "Enable Advanced SIMD instructions",
    "Enable support for RCPC extension",
    "Enable SHA1 and SHA256 support",
    "Enable SHA512 and SHA3 support",
    "Enable Scalable Vector Extension (SVE) instructions",
    "Enable Scalable Vector Extension 2 (SVE2) instructions",
    "Enable ALU32 instructions",
    "Hexagon HVX instructions",
    "Hexagon HVX 128B instructions",
    "Support 64-bit FP registers",
    "Mips MSA ASE",
    "Enable Altivec instructions",
    "Enable POWER8 vector instructions",
    "Enable POWER9 vector instructions",
    "Enable VSX instructions",
    "'A' (Atomic Instructions)",
    "'C' (Compressed Instructions)",
    "'D' (Double-Precision Floating-Point)",
    "'F' (Single-Precision Floating-Point)",
    "'M' (Integer Multiplication and Division)",
    "Enable Atomics",
    "Enable bulk memory operations",
    "Enable relaxed-simd instructions",
    "Enable 128-bit SIMD",
    "Support ADX instructions",
    "Enable AES instructions",
    "Enable AVX instructions",
    "Enable AVX2 instructions",
    "Support BMI instructions",
    "Support BMI2 instructions",
    "Enable three-operand fused multiply-add",
    "Support LZCNT instruction",
    "Support POPCNT instruction",
    "Enable SSE instructions",
    "Enable SSE2 instructions",
    "Enable SSE3 instructions",
    "Enable SSE 4.1 instructions",
    "Enable SSE 4.2 instructions",
    "Enable SSSE3 instructions",
];

/// The rows that row `i` implies, in the order the table lists them. Each list is
/// closed: it names what the rows it lists imply as well.
pub open spec fn implied_indices(i: int) -> Seq<nat> {
    if i == 0 || i == 4 {
        seq![3nat, 7nat, 6nat]
    } else if i == 3 || i == 8 {
        seq![7nat, 6nat]
    } else if i == 7 {
        seq![6nat]
    } else if i == 9 || i == 11 || i == 15 || i == 17 {
        seq![13nat]
    } else if i == 16 {
        seq![15nat, 13nat]
    } else if i == 18 {
        seq![17nat, 13nat]
    } else if i == 21 {
        seq![20nat]
    } else if i == 23 {
        seq![22nat]
    } else if i == 25 {
        seq![27nat, 24nat]
    } else if i == 26 {
        seq![25nat, 27nat, 24nat]
    } else if i == 27 {
        seq![24nat]
    } else if i == 30 {
        seq![31nat]
    } else if i == 35 {
        seq![36nat]
    } else if i == 38 || i == 48 {
        seq![47nat, 46nat]
    } else if i == 39 {
        seq![50nat, 49nat, 51nat, 48nat, 47nat, 46nat]
    } else if i == 40 || i == 43 {
        seq![39nat, 50nat, 49nat, 51nat, 48nat, 47nat, 46nat]
    } else if i == 47 {
        seq![46nat]
    } else if i == 49 {
        seq![51nat, 48nat, 47nat, 46nat]
    } else if i == 50 {
        seq![49nat, 51nat, 48nat, 47nat, 46nat]
    } else if i == 51 {
        seq![48nat, 47nat, 46nat]
    } else {
        seq![]
    }
}

/// One row of the table, as contracts see it.
pub struct FeatureEntry {
    /// The architecture the feature belongs to.
    pub architecture: Architecture,
    /// The feature's name.
    pub name: Seq<char>,
    /// What the feature is, in words.
    pub description: Seq<char>,
    /// The rows whose support this feature guarantees.
    pub implies: Seq<nat>,
}

/// The table as a sequence of rows.
pub open spec fn feature_table() -> Seq<FeatureEntry> {
    Seq::new(
        FEATURE_COUNT as nat,
        |i: int|
            (FeatureEntry {
                architecture: ARCHITECTURES[i],
                name: NAMES[i]@,
                description: DESCRIPTIONS[i]@,
                implies: implied_indices(i),
            }),
    )
}

/// Row `i` belongs to `architecture` and is called `name`.
pub open spec fn entry_matches(i: int, architecture: Architecture, name: Seq<char>) -> bool {
    &&& 0 <= i < feature_table().len()
    &&& feature_table()[i].architecture == architecture
    &&& feature_table()[i].name == name
}

/// Row `e` lists row `f` among the rows it implies.
pub open spec fn entry_implies(e: nat, f: nat) -> bool {
    e < feature_table().len() && feature_table()[e as int].implies.contains(f)
}

/// The architecture of row `i`.
pub(crate) fn architecture_at(i: usize) -> (a: Architecture)
    requires
        i < feature_table().len(),
    ensures
        a == feature_table()[i as int].architecture,
{
    ARCHITECTURES[i]
}

/// The name of row `i`.
pub(crate) fn name_at(i: usize) -> (s: &'static str)
    requires
        i < feature_table().len(),
    ensures
        s@ == feature_table()[i as int].name,
{
    NAMES[i]
}

/// The description of row `i`.
pub(crate) fn description_at(i: usize) -> (s: &'static str)
    requires
        i < feature_table().len(),
    ensures
        s@ == feature_table()[i as int].description,
{
    DESCRIPTIONS[i]
}

} // verus!
