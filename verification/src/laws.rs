//! What holds of the table, of lookup and of targets, for all inputs.

use crate::architecture::Architecture;
use crate::feature::{is_first_match, lemma_first_match_is_lookup, lookup};
use crate::table::{entry_implies, entry_matches, feature_table};
use crate::target::TargetView;
use vstd::prelude::*;

verus! {

/// A row's number is one of the numbers below the table's length.
proof fn lemma_row_cases(i: int)
    requires
        0 <= i < feature_table().len(),
    ensures
        i == 0 || i == 1 || i == 2 || i == 3 || i == 4 || i == 5 || i == 6 || i == 7
            || i == 8 || i == 9 || i == 10 || i == 11 || i == 12 || i == 13 || i == 14 || i == 15
            || i == 16 || i == 17 || i == 18 || i == 19 || i == 20 || i == 21 || i == 22 || i == 23
            || i == 24 || i == 25 || i == 26 || i == 27 || i == 28 || i == 29 || i == 30 || i == 31
            || i == 32 || i == 33 || i == 34 || i == 35 || i == 36 || i == 37 || i == 38 || i == 39
            || i == 40 || i == 41 || i == 42 || i == 43 || i == 44 || i == 45 || i == 46 || i == 47
            || i == 48 || i == 49 || i == 50 || i == 51,
{
}

/// The architecture of each row.
proof fn lemma_row_architectures()
    ensures
        feature_table()[0].architecture == Architecture::Arm,
        feature_table()[1].architecture == Architecture::Arm,
        feature_table()[2].architecture == Architecture::Arm,
        feature_table()[3].architecture == Architecture::Arm,
        feature_table()[4].architecture == Architecture::Arm,
        feature_table()[5].architecture == Architecture::Arm,
        feature_table()[6].architecture == Architecture::Arm,
        feature_table()[7].architecture == Architecture::Arm,
        feature_table()[8].architecture == Architecture::Arm,
        feature_table()[9].architecture == Architecture::AArch64,
        feature_table()[10].architecture == Architecture::AArch64,
        feature_table()[11].architecture == Architecture::AArch64,
        feature_table()[12].architecture == Architecture::AArch64,
        feature_table()[13].architecture == Architecture::AArch64,
        feature_table()[14].architecture == Architecture::AArch64,
        feature_table()[15].architecture == Architecture::AArch64,
        feature_table()[16].architecture == Architecture::AArch64,
        feature_table()[17].architecture == Architecture::AArch64,
        feature_table()[18].architecture == Architecture::AArch64,
        feature_table()[19].architecture == Architecture::Bpf,
        feature_table()[20].architecture == Architecture::Hexagon,
        feature_table()[21].architecture == Architecture::Hexagon,
        feature_table()[22].architecture == Architecture::Mips,
        feature_table()[23].architecture == Architecture::Mips,
        feature_table()[24].architecture == Architecture::PowerPC,
        feature_table()[25].architecture == Architecture::PowerPC,
        feature_table()[26].architecture == Architecture::PowerPC,
        feature_table()[27].architecture == Architecture::PowerPC,
        feature_table()[28].architecture == Architecture::RiscV,
        feature_table()[29].architecture == Architecture::RiscV,
        feature_table()[30].architecture == Architecture::RiscV,
        feature_table()[31].architecture == Architecture::RiscV,
        feature_table()[32].architecture == Architecture::RiscV,
        feature_table()[33].architecture == Architecture::Wasm,
        feature_table()[34].architecture == Architecture::Wasm,
        feature_table()[35].architecture == Architecture::Wasm,
        feature_table()[36].architecture == Architecture::Wasm,
        feature_table()[37].architecture == Architecture::X86,
        feature_table()[38].architecture == Architecture::X86,
        feature_table()[39].architecture == Architecture::X86,
        feature_table()[40].architecture == Architecture::X86,
        feature_table()[41].architecture == Architecture::X86,
        feature_table()[42].architecture == Architecture::X86,
        feature_table()[43].architecture == Architecture::X86,
        feature_table()[44].architecture == Architecture::X86,
        feature_table()[45].architecture == Architecture::X86,
        feature_table()[46].architecture == Architecture::X86,
        feature_table()[47].architecture == Architecture::X86,
        feature_table()[48].architecture == Architecture::X86,
        feature_table()[49].architecture == Architecture::X86,
        feature_table()[50].architecture == Architecture::X86,
        feature_table()[51].architecture == Architecture::X86,
{
}

/// The name of each row.
proof fn lemma_row_names()
    ensures
        feature_table()[0].name == "aes"@,
        feature_table()[1].name == "crc"@,
        feature_table()[2].name == "dsp"@,
        feature_table()[3].name == "neon"@,
        feature_table()[4].name == "sha2"@,
        feature_table()[5].name == "thumb2"@,
        feature_table()[6].name == "vfp2"@,
        feature_table()[7].name == "vfp3"@,
        feature_table()[8].name == "vfp4"@,
        feature_table()[9].name == "aes"@,
        feature_table()[10].name == "crc"@,
        feature_table()[11].name == "dotprod"@,
        feature_table()[12].name == "lse"@,
        feature_table()[13].name == "neon"@,
        feature_table()[14].name == "rcpc"@,
        feature_table()[15].name == "sha2"@,
        feature_table()[16].name == "sha3"@,
        feature_table()[17].name == "sve"@,
        feature_table()[18].name == "sve2"@,
        feature_table()[19].name == "alu32"@,
        feature_table()[20].name == "hvx"@,
        feature_table()[21].name == "hvx-length128b"@,
        feature_table()[22].name == "fp64"@,
        feature_table()[23].name == "msa"@,
        feature_table()[24].name == "altivec"@,
        feature_table()[25].name == "power8-vector"@,
        feature_table()[26].name == "power9-vector"@,
        feature_table()[27].name == "vsx"@,
        feature_table()[28].name == "a"@,
        feature_table()[29].name == "c"@,
        feature_table()[30].name == "d"@,
        feature_table()[31].name == "f"@,
        feature_table()[32].name == "m"@,
        feature_table()[33].name == "atomics"@,
        feature_table()[34].name == "bulk-memory"@,
        feature_table()[35].name == "relaxed-simd"@,
        feature_table()[36].name == "simd128"@,
        feature_table()[37].name == "adx"@,
        feature_table()[38].name == "aes"@,
        feature_table()[39].name == "avx"@,
        feature_table()[40].name == "avx2"@,
        feature_table()[41].name == "bmi1"@,
        feature_table()[42].name == "bmi2"@,
        feature_table()[43].name == "fma"@,
        feature_table()[44].name == "lzcnt"@,
        feature_table()[45].name == "popcnt"@,
        feature_table()[46].name == "sse"@,
        feature_table()[47].name == "sse2"@,
        feature_table()[48].name == "sse3"@,
        feature_table()[49].name == "sse4.1"@,
        feature_table()[50].name == "sse4.2"@,
        feature_table()[51].name == "ssse3"@,
{
}

/// Each row implies the rows that its list names.
proof fn lemma_row_implications()
    ensures
        entry_implies(0, 3),
        entry_implies(0, 7),
        entry_implies(0, 6),
        entry_implies(3, 7),
        entry_implies(3, 6),
        entry_implies(4, 3),
        entry_implies(4, 7),
        entry_implies(4, 6),
        entry_implies(7, 6),
        entry_implies(8, 7),
        entry_implies(8, 6),
        entry_implies(9, 13),
        entry_implies(11, 13),
        entry_implies(15, 13),
        entry_implies(16, 15),
        entry_implies(16, 13),
        entry_implies(17, 13),
        entry_implies(18, 17),
        entry_implies(18, 13),
        entry_implies(21, 20),
        entry_implies(23, 22),
        entry_implies(25, 27),
        entry_implies(25, 24),
        entry_implies(26, 25),
        entry_implies(26, 27),
        entry_implies(26, 24),
        entry_implies(27, 24),
        entry_implies(30, 31),
        entry_implies(35, 36),
        entry_implies(38, 47),
        entry_implies(38, 46),
        entry_implies(39, 50),
        entry_implies(39, 49),
        entry_implies(39, 51),
        entry_implies(39, 48),
        entry_implies(39, 47),
        entry_implies(39, 46),
        entry_implies(40, 39),
        entry_implies(40, 50),
        entry_implies(40, 49),
        entry_implies(40, 51),
        entry_implies(40, 48),
        entry_implies(40, 47),
        entry_implies(40, 46),
        entry_implies(43, 39),
        entry_implies(43, 50),
        entry_implies(43, 49),
        entry_implies(43, 51),
        entry_implies(43, 48),
        entry_implies(43, 47),
        entry_implies(43, 46),
        entry_implies(47, 46),
        entry_implies(48, 47),
        entry_implies(48, 46),
        entry_implies(49, 51),
        entry_implies(49, 48),
        entry_implies(49, 47),
        entry_implies(49, 46),
        entry_implies(50, 49),
        entry_implies(50, 51),
        entry_implies(50, 48),
        entry_implies(50, 47),
        entry_implies(50, 46),
        entry_implies(51, 48),
        entry_implies(51, 47),
        entry_implies(51, 46),
{
    assert(feature_table()[0].implies[0] == 3);
    assert(feature_table()[0].implies[1] == 7);
    assert(feature_table()[0].implies[2] == 6);
    assert(feature_table()[3].implies[0] == 7);
    assert(feature_table()[3].implies[1] == 6);
    assert(feature_table()[4].implies[0] == 3);
    assert(feature_table()[4].implies[1] == 7);
    assert(feature_table()[4].implies[2] == 6);
    assert(feature_table()[7].implies[0] == 6);
    assert(feature_table()[8].implies[0] == 7);
    assert(feature_table()[8].implies[1] == 6);
    assert(feature_table()[9].implies[0] == 13);
    assert(feature_table()[11].implies[0] == 13);
    assert(feature_table()[15].implies[0] == 13);
    assert(feature_table()[16].implies[0] == 15);
    assert(feature_table()[16].implies[1] == 13);
    assert(feature_table()[17].implies[0] == 13);
    assert(feature_table()[18].implies[0] == 17);
    assert(feature_table()[18].implies[1] == 13);
    assert(feature_table()[21].implies[0] == 20);
    assert(feature_table()[23].implies[0] == 22);
    assert(feature_table()[25].implies[0] == 27);
    assert(feature_table()[25].implies[1] == 24);
    assert(feature_table()[26].implies[0] == 25);
    assert(feature_table()[26].implies[1] == 27);
    assert(feature_table()[26].implies[2] == 24);
    assert(feature_table()[27].implies[0] == 24);
    assert(feature_table()[30].implies[0] == 31);
    assert(feature_table()[35].implies[0] == 36);
    assert(feature_table()[38].implies[0] == 47);
    assert(feature_table()[38].implies[1] == 46);
    assert(feature_table()[39].implies[0] == 50);
    assert(feature_table()[39].implies[1] == 49);
    assert(feature_table()[39].implies[2] == 51);
    assert(feature_table()[39].implies[3] == 48);
    assert(feature_table()[39].implies[4] == 47);
    assert(feature_table()[39].implies[5] == 46);
    assert(feature_table()[40].implies[0] == 39);
    assert(feature_table()[40].implies[1] == 50);
    assert(feature_table()[40].implies[2] == 49);
    assert(feature_table()[40].implies[3] == 51);
    assert(feature_table()[40].implies[4] == 48);
    assert(feature_table()[40].implies[5] == 47);
    assert(feature_table()[40].implies[6] == 46);
    assert(feature_table()[43].implies[0] == 39);
    assert(feature_table()[43].implies[1] == 50);
    assert(feature_table()[43].implies[2] == 49);
    assert(feature_table()[43].implies[3] == 51);
    assert(feature_table()[43].implies[4] == 48);
    assert(feature_table()[43].implies[5] == 47);
    assert(feature_table()[43].implies[6] == 46);
    assert(feature_table()[47].implies[0] == 46);
    assert(feature_table()[48].implies[0] == 47);
    assert(feature_table()[48].implies[1] == 46);
    assert(feature_table()[49].implies[0] == 51);
    assert(feature_table()[49].implies[1] == 48);
    assert(feature_table()[49].implies[2] == 47);
    assert(feature_table()[49].implies[3] == 46);
    assert(feature_table()[50].implies[0] == 49);
    assert(feature_table()[50].implies[1] == 51);
    assert(feature_table()[50].implies[2] == 48);
    assert(feature_table()[50].implies[3] == 47);
    assert(feature_table()[50].implies[4] == 46);
    assert(feature_table()[51].implies[0] == 48);
    assert(feature_table()[51].implies[1] == 47);
    assert(feature_table()[51].implies[2] == 46);
}

/// No two rows of one architecture share a name.
pub proof fn lemma_names_unique(i: int, j: int)
    requires
        0 <= i < feature_table().len(),
        0 <= j < feature_table().len(),
        feature_table()[i].architecture == feature_table()[j].architecture,
        feature_table()[i].name == feature_table()[j].name,
    ensures
        i == j,
{
    // Two names differ in their length or in some character, so each name's
    // text is spelt out.
    reveal_strlit("aes");
    reveal_strlit("crc");
    reveal_strlit("dsp");
    reveal_strlit("neon");
    reveal_strlit("sha2");
    reveal_strlit("thumb2");
    reveal_strlit("vfp2");
    reveal_strlit("vfp3");
    reveal_strlit("vfp4");
    reveal_strlit("dotprod");
    reveal_strlit("lse");
    reveal_strlit("rcpc");
    reveal_strlit("sha3");
    reveal_strlit("sve");
    reveal_strlit("sve2");
    reveal_strlit("alu32");
    reveal_strlit("hvx");
    reveal_strlit("hvx-length128b");
    reveal_strlit("fp64");
    reveal_strlit("msa");
    reveal_strlit("altivec");
    reveal_strlit("power8-vector");
    reveal_strlit("power9-vector");
    reveal_strlit("vsx");
    reveal_strlit("a");
    reveal_strlit("c");
    reveal_strlit("d");
    reveal_strlit("f");
    reveal_strlit("m");
    reveal_strlit("atomics");
    reveal_strlit("bulk-memory");
    reveal_strlit("relaxed-simd");
    reveal_strlit("simd128");
    reveal_strlit("adx");
    reveal_strlit("avx");
    reveal_strlit("avx2");
    reveal_strlit("bmi1");
    reveal_strlit("bmi2");
    reveal_strlit("fma");
    reveal_strlit("lzcnt");
    reveal_strlit("popcnt");
    reveal_strlit("sse");
    reveal_strlit("sse2");
    reveal_strlit("sse3");
    reveal_strlit("sse4.1");
    reveal_strlit("sse4.2");
    reveal_strlit("ssse3");
    assert("aes"@.len() == 3 && "aes"@[0] == 'a' && "aes"@[1] == 'e' && "aes"@[2] == 's');
    assert("crc"@.len() == 3 && "crc"@[0] == 'c' && "crc"@[1] == 'r' && "crc"@[2] == 'c');
    assert("dsp"@.len() == 3 && "dsp"@[0] == 'd' && "dsp"@[1] == 's' && "dsp"@[2] == 'p');
    assert("neon"@.len() == 4 && "neon"@[0] == 'n' && "neon"@[1] == 'e' && "neon"@[2] == 'o' && "neon"@[3] == 'n');
    assert("sha2"@.len() == 4 && "sha2"@[0] == 's' && "sha2"@[1] == 'h' && "sha2"@[2] == 'a' && "sha2"@[3] == '2');
    assert("thumb2"@.len() == 6 && "thumb2"@[0] == 't' && "thumb2"@[1] == 'h' && "thumb2"@[2] == 'u' && "thumb2"@[3] == 'm' && "thumb2"@[4] == 'b' && "thumb2"@[5] == '2');
    assert("vfp2"@.len() == 4 && "vfp2"@[0] == 'v' && "vfp2"@[1] == 'f' && "vfp2"@[2] == 'p' && "vfp2"@[3] == '2');
    assert("vfp3"@.len() == 4 && "vfp3"@[0] == 'v' && "vfp3"@[1] == 'f' && "vfp3"@[2] == 'p' && "vfp3"@[3] == '3');
    assert("vfp4"@.len() == 4 && "vfp4"@[0] == 'v' && "vfp4"@[1] == 'f' && "vfp4"@[2] == 'p' && "vfp4"@[3] == '4');
    assert("dotprod"@.len() == 7 && "dotprod"@[0] == 'd' && "dotprod"@[1] == 'o' && "dotprod"@[2] == 't' && "dotprod"@[3] == 'p' && "dotprod"@[4] == 'r' && "dotprod"@[5] == 'o' && "dotprod"@[6] == 'd');
    assert("lse"@.len() == 3 && "lse"@[0] == 'l' && "lse"@[1] == 's' && "lse"@[2] == 'e');
    assert("rcpc"@.len() == 4 && "rcpc"@[0] == 'r' && "rcpc"@[1] == 'c' && "rcpc"@[2] == 'p' && "rcpc"@[3] == 'c');
    assert("sha3"@.len() == 4 && "sha3"@[0] == 's' && "sha3"@[1] == 'h' && "sha3"@[2] == 'a' && "sha3"@[3] == '3');
    assert("sve"@.len() == 3 && "sve"@[0] == 's' && "sve"@[1] == 'v' && "sve"@[2] == 'e');
    assert("sve2"@.len() == 4 && "sve2"@[0] == 's' && "sve2"@[1] == 'v' && "sve2"@[2] == 'e' && "sve2"@[3] == '2');
    assert("alu32"@.len() == 5 && "alu32"@[0] == 'a' && "alu32"@[1] == 'l' && "alu32"@[2] == 'u' && "alu32"@[3] == '3' && "alu32"@[4] == '2');
    assert("hvx"@.len() == 3 && "hvx"@[0] == 'h' && "hvx"@[1] == 'v' && "hvx"@[2] == 'x');
    assert("hvx-length128b"@.len() == 14 && "hvx-length128b"@[0] == 'h' && "hvx-length128b"@[1] == 'v' && "hvx-length128b"@[2] == 'x' && "hvx-length128b"@[3] == '-' && "hvx-length128b"@[4] == 'l' && "hvx-length128b"@[5] == 'e' && "hvx-length128b"@[6] == 'n' && "hvx-length128b"@[7] == 'g' && "hvx-length128b"@[8] == 't' && "hvx-length128b"@[9] == 'h' && "hvx-length128b"@[10] == '1' && "hvx-length128b"@[11] == '2' && "hvx-length128b"@[12] == '8' && "hvx-length128b"@[13] == 'b');
    assert("fp64"@.len() == 4 && "fp64"@[0] == 'f' && "fp64"@[1] == 'p' && "fp64"@[2] == '6' && "fp64"@[3] == '4');
    assert("msa"@.len() == 3 && "msa"@[0] == 'm' && "msa"@[1] == 's' && "msa"@[2] == 'a');
    assert("altivec"@.len() == 7 && "altivec"@[0] == 'a' && "altivec"@[1] == 'l' && "altivec"@[2] == 't' && "altivec"@[3] == 'i' && "altivec"@[4] == 'v' && "altivec"@[5] == 'e' && "altivec"@[6] == 'c');
    assert("power8-vector"@.len() == 13 && "power8-vector"@[0] == 'p' && "power8-vector"@[1] == 'o' && "power8-vector"@[2] == 'w' && "power8-vector"@[3] == 'e' && "power8-vector"@[4] == 'r' && "power8-vector"@[5] == '8' && "power8-vector"@[6] == '-' && "power8-vector"@[7] == 'v' && "power8-vector"@[8] == 'e' && "power8-vector"@[9] == 'c' && "power8-vector"@[10] == 't' && "power8-vector"@[11] == 'o' && "power8-vector"@[12] == 'r');
    assert("power9-vector"@.len() == 13 && "power9-vector"@[0] == 'p' && "power9-vector"@[1] == 'o' && "power9-vector"@[2] == 'w' && "power9-vector"@[3] == 'e' && "power9-vector"@[4] == 'r' && "power9-vector"@[5] == '9' && "power9-vector"@[6] == '-' && "power9-vector"@[7] == 'v' && "power9-vector"@[8] == 'e' && "power9-vector"@[9] == 'c' && "power9-vector"@[10] == 't' && "power9-vector"@[11] == 'o' && "power9-vector"@[12] == 'r');
    assert("vsx"@.len() == 3 && "vsx"@[0] == 'v' && "vsx"@[1] == 's' && "vsx"@[2] == 'x');
    assert("a"@.len() == 1 && "a"@[0] == 'a');
    assert("c"@.len() == 1 && "c"@[0] == 'c');
    assert("d"@.len() == 1 && "d"@[0] == 'd');
    assert("f"@.len() == 1 && "f"@[0] == 'f');
    assert("m"@.len() == 1 && "m"@[0] == 'm');
    assert("atomics"@.len() == 7 && "atomics"@[0] == 'a' && "atomics"@[1] == 't' && "atomics"@[2] == 'o' && "atomics"@[3] == 'm' && "atomics"@[4] == 'i' && "atomics"@[5] == 'c' && "atomics"@[6] == 's');
    assert("bulk-memory"@.len() == 11 && "bulk-memory"@[0] == 'b' && "bulk-memory"@[1] == 'u' && "bulk-memory"@[2] == 'l' && "bulk-memory"@[3] == 'k' && "bulk-memory"@[4] == '-' && "bulk-memory"@[5] == 'm' && "bulk-memory"@[6] == 'e' && "bulk-memory"@[7] == 'm' && "bulk-memory"@[8] == 'o' && "bulk-memory"@[9] == 'r' && "bulk-memory"@[10] == 'y');
    assert("relaxed-simd"@.len() == 12 && "relaxed-simd"@[0] == 'r' && "relaxed-simd"@[1] == 'e' && "relaxed-simd"@[2] == 'l' && "relaxed-simd"@[3] == 'a' && "relaxed-simd"@[4] == 'x' && "relaxed-simd"@[5] == 'e' && "relaxed-simd"@[6] == 'd' && "relaxed-simd"@[7] == '-' && "relaxed-simd"@[8] == 's' && "relaxed-simd"@[9] == 'i' && "relaxed-simd"@[10] == 'm' && "relaxed-simd"@[11] == 'd');
    assert("simd128"@.len() == 7 && "simd128"@[0] == 's' && "simd128"@[1] == 'i' && "simd128"@[2] == 'm' && "simd128"@[3] == 'd' && "simd128"@[4] == '1' && "simd128"@[5] == '2' && "simd128"@[6] == '8');
    assert("adx"@.len() == 3 && "adx"@[0] == 'a' && "adx"@[1] == 'd' && "adx"@[2] == 'x');
    assert("avx"@.len() == 3 && "avx"@[0] == 'a' && "avx"@[1] == 'v' && "avx"@[2] == 'x');
    assert("avx2"@.len() == 4 && "avx2"@[0] == 'a' && "avx2"@[1] == 'v' && "avx2"@[2] == 'x' && "avx2"@[3] == '2');
    assert("bmi1"@.len() == 4 && "bmi1"@[0] == 'b' && "bmi1"@[1] == 'm' && "bmi1"@[2] == 'i' && "bmi1"@[3] == '1');
    assert("bmi2"@.len() == 4 && "bmi2"@[0] == 'b' && "bmi2"@[1] == 'm' && "bmi2"@[2] == 'i' && "bmi2"@[3] == '2');
    assert("fma"@.len() == 3 && "fma"@[0] == 'f' && "fma"@[1] == 'm' && "fma"@[2] == 'a');
    assert("lzcnt"@.len() == 5 && "lzcnt"@[0] == 'l' && "lzcnt"@[1] == 'z' && "lzcnt"@[2] == 'c' && "lzcnt"@[3] == 'n' && "lzcnt"@[4] == 't');
    assert("popcnt"@.len() == 6 && "popcnt"@[0] == 'p' && "popcnt"@[1] == 'o' && "popcnt"@[2] == 'p' && "popcnt"@[3] == 'c' && "popcnt"@[4] == 'n' && "popcnt"@[5] == 't');
    assert("sse"@.len() == 3 && "sse"@[0] == 's' && "sse"@[1] == 's' && "sse"@[2] == 'e');
    assert("sse2"@.len() == 4 && "sse2"@[0] == 's' && "sse2"@[1] == 's' && "sse2"@[2] == 'e' && "sse2"@[3] == '2');
    assert("sse3"@.len() == 4 && "sse3"@[0] == 's' && "sse3"@[1] == 's' && "sse3"@[2] == 'e' && "sse3"@[3] == '3');
    assert("sse4.1"@.len() == 6 && "sse4.1"@[0] == 's' && "sse4.1"@[1] == 's' && "sse4.1"@[2] == 'e' && "sse4.1"@[3] == '4' && "sse4.1"@[4] == '.' && "sse4.1"@[5] == '1');
    assert("sse4.2"@.len() == 6 && "sse4.2"@[0] == 's' && "sse4.2"@[1] == 's' && "sse4.2"@[2] == 'e' && "sse4.2"@[3] == '4' && "sse4.2"@[4] == '.' && "sse4.2"@[5] == '2');
    assert("ssse3"@.len() == 5 && "ssse3"@[0] == 's' && "ssse3"@[1] == 's' && "ssse3"@[2] == 's' && "ssse3"@[3] == 'e' && "ssse3"@[4] == '3');
    lemma_row_architectures();
    lemma_row_names();
    lemma_row_cases(i);
    lemma_row_cases(j);
}

/// Whatever a row implies is another row of the table, of the same architecture.
pub proof fn lemma_implied_rows_belong(e: nat, f: nat)
    requires
        entry_implies(e, f),
    ensures
        f < feature_table().len(),
        f != e,
        feature_table()[f as int].architecture == feature_table()[e as int].architecture,
{
    let list = feature_table()[e as int].implies;
    let k = choose|k: int| 0 <= k < list.len() && list[k] == f;
    assert(0 <= k < list.len() && list[k] == f);
    lemma_row_architectures();
    lemma_row_cases(e as int);
}

/// Each row's list of implied rows is closed: it names what the rows it lists
/// imply in turn. Following implication one step therefore reaches all that any
/// number of steps would.
pub proof fn lemma_implication_is_closed(a: nat, b: nat, c: nat)
    requires
        entry_implies(a, b),
        entry_implies(b, c),
    ensures
        entry_implies(a, c),
{
    let first = feature_table()[a as int].implies;
    let i = choose|i: int| 0 <= i < first.len() && first[i] == b;
    assert(0 <= i < first.len() && first[i] == b);
    let second = feature_table()[b as int].implies;
    let j = choose|j: int| 0 <= j < second.len() && second[j] == c;
    assert(0 <= j < second.len() && second[j] == c);
    lemma_row_implications();
    lemma_row_cases(a as int);
}

/// A target supports what its enabled features imply through a chain of two
/// implications, as the table's lists are closed.
pub proof fn lemma_chained_implication_is_supported(target: TargetView, a: nat, b: nat, c: nat)
    requires
        target.enabled.contains(a),
        entry_implies(a, b),
        entry_implies(b, c),
    ensures
        target.supports(c),
{
    lemma_implication_is_closed(a, b, c);
}

/// Looking up a row's own architecture and name finds that row, so the handle
/// found has the row's name, description and architecture.
pub proof fn lemma_every_entry_is_found(i: int)
    requires
        0 <= i < feature_table().len(),
    ensures
        is_first_match(i, feature_table()[i].architecture, feature_table()[i].name),
        lookup(feature_table()[i].architecture, feature_table()[i].name) == Some(i as nat),
{
    let architecture = feature_table()[i].architecture;
    let name = feature_table()[i].name;
    assert forall|j: int| 0 <= j < i implies !entry_matches(j, architecture, name) by {
        if entry_matches(j, architecture, name) {
            lemma_names_unique(i, j);
        }
    }
    lemma_first_match_is_lookup(i, architecture, name);
}

/// A lookup that finds a row finds the only row of that architecture and name.
pub proof fn lemma_lookup_is_the_only_match(i: int, architecture: Architecture, name: Seq<char>)
    requires
        entry_matches(i, architecture, name),
    ensures
        lookup(architecture, name) == Some(i as nat),
{
    lemma_every_entry_is_found(i);
}

/// A target with nothing enabled supports no feature.
pub proof fn lemma_new_target_supports_nothing(architecture: Architecture, f: nat)
    ensures
        !TargetView::new(architecture).supports(f),
{
}

/// A target supports a feature as soon as the feature is enabled on it.
pub proof fn lemma_enabled_feature_is_supported(target: TargetView, f: nat)
    ensures
        target.with_feature(f).supports(f),
{
}

/// Enabling a feature on a fresh target and disabling it again leaves the
/// feature unsupported.
pub proof fn lemma_enable_then_disable(architecture: Architecture, f: nat)
    ensures
        !TargetView::new(architecture).with_feature(f).without_feature(f).supports(f),
        TargetView::new(architecture).with_feature(f).without_feature(f) == TargetView::new(
            architecture,
        ),
{
    let target = TargetView::new(architecture).with_feature(f).without_feature(f);
    assert(target.enabled =~= Set::empty());
}

/// Whatever an enabled feature lists as implied is supported, wherever in the
/// list it stands.
pub proof fn lemma_implied_feature_is_supported(target: TargetView, a: nat, b: nat)
    requires
        target.enabled.contains(a),
        entry_implies(a, b),
    ensures
        target.supports(b),
{
}

/// Enabling and disabling features of the target's architecture keeps every
/// enabled row within that architecture.
pub proof fn lemma_updates_keep_targets_well_formed(target: TargetView, f: nat)
    requires
        target.wf(),
        f < feature_table().len(),
        feature_table()[f as int].architecture == target.architecture,
    ensures
        TargetView::new(target.architecture).wf(),
        target.with_feature(f).wf(),
        target.without_feature(f).wf(),
{
}

} // verus!
