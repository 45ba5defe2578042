use target_features::table::{ARCHITECTURES, DESCRIPTIONS, FEATURE_COUNT, NAMES};
use target_features::{Architecture, Feature, UnknownFeature};

fn feature(architecture: Architecture, name: &str) -> Feature {
    match Feature::new(architecture, name) {
        Ok(f) => f,
        Err(_) => panic!("{} should be known", name),
    }
}

fn names(list: &[Feature]) -> Vec<&'static str> {
    list.iter().map(|f| f.name()).collect()
}

#[test]
fn every_entry_is_found_with_its_own_data() {
    assert_eq!(FEATURE_COUNT, 52);
    for i in 0..FEATURE_COUNT {
        let f = feature(ARCHITECTURES[i], NAMES[i]);
        assert_eq!(f.name(), NAMES[i]);
        assert_eq!(f.description(), DESCRIPTIONS[i]);
        assert_eq!(f.architecture(), ARCHITECTURES[i]);
    }
}

#[test]
fn no_two_entries_share_architecture_and_name() {
    for i in 0..FEATURE_COUNT {
        for j in 0..i {
            assert!(ARCHITECTURES[i] != ARCHITECTURES[j] || NAMES[i] != NAMES[j]);
        }
    }
}

#[test]
fn nonexistent_feature_is_unknown() {
    assert_eq!(Feature::new(Architecture::Arm, "nonexistent-feature"), Err(UnknownFeature));
}

#[test]
fn feature_of_another_architecture_is_unknown() {
    assert_eq!(Feature::new(Architecture::Arm, "avx2"), Err(UnknownFeature));
    assert_eq!(Feature::new(Architecture::X86, "neon"), Err(UnknownFeature));
    assert_eq!(Feature::new(Architecture::Bpf, "simd128"), Err(UnknownFeature));
}

#[test]
fn unsupported_architecture_has_no_features() {
    for i in 0..FEATURE_COUNT {
        assert_eq!(Feature::new(Architecture::Unsupported, NAMES[i]), Err(UnknownFeature));
    }
}

#[test]
fn names_are_compared_exactly() {
    assert_eq!(Feature::new(Architecture::X86, "AVX2"), Err(UnknownFeature));
    assert_eq!(Feature::new(Architecture::X86, "avx2 "), Err(UnknownFeature));
    assert_eq!(Feature::new(Architecture::X86, "av"), Err(UnknownFeature));
    assert_eq!(Feature::new(Architecture::X86, "avx22"), Err(UnknownFeature));
    assert_eq!(Feature::new(Architecture::X86, ""), Err(UnknownFeature));
    assert_eq!(Feature::new(Architecture::X86, "avx\u{e9}"), Err(UnknownFeature));
    assert!(Feature::new(Architecture::X86, "avx") != Feature::new(Architecture::X86, "avx2"));
}

#[test]
fn same_name_on_two_architectures_gives_two_features() {
    let arm = feature(Architecture::Arm, "aes");
    let aarch64 = feature(Architecture::AArch64, "aes");
    let x86 = feature(Architecture::X86, "aes");
    assert!(arm != aarch64);
    assert!(aarch64 != x86);
    assert_eq!(arm.architecture(), Architecture::Arm);
    assert_eq!(aarch64.architecture(), Architecture::AArch64);
    assert_eq!(x86.architecture(), Architecture::X86);
    assert_eq!(arm.description(), "Enable AES support");
    assert_eq!(x86.description(), "Enable AES instructions");
}

#[test]
fn equal_lookups_give_equal_features() {
    assert_eq!(feature(Architecture::Wasm, "simd128"), feature(Architecture::Wasm, "simd128"));
}

#[test]
fn accessors_project_the_entry() {
    let avx2 = feature(Architecture::X86, "avx2");
    assert_eq!(avx2.name(), "avx2");
    assert_eq!(avx2.description(), "Enable AVX2 instructions");
    assert_eq!(avx2.architecture(), Architecture::X86);
    let msa = feature(Architecture::Mips, "msa");
    assert_eq!(msa.name(), "msa");
    assert_eq!(msa.description(), "Mips MSA ASE");
    assert_eq!(msa.architecture(), Architecture::Mips);
}

#[test]
fn implies_lists_the_entry_in_order() {
    let avx2 = feature(Architecture::X86, "avx2");
    assert_eq!(
        names(avx2.implies()),
        vec!["avx", "sse4.2", "sse4.1", "ssse3", "sse3", "sse2", "sse"]
    );
    let neon = feature(Architecture::Arm, "neon");
    assert_eq!(names(neon.implies()), vec!["vfp3", "vfp2"]);
    let power9 = feature(Architecture::PowerPC, "power9-vector");
    assert_eq!(names(power9.implies()), vec!["power8-vector", "vsx", "altivec"]);
    let sse = feature(Architecture::X86, "sse");
    assert!(sse.implies().is_empty());
    let alu32 = feature(Architecture::Bpf, "alu32");
    assert!(alu32.implies().is_empty());
}

#[test]
fn implied_features_stay_within_the_architecture() {
    for i in 0..FEATURE_COUNT {
        let f = feature(ARCHITECTURES[i], NAMES[i]);
        for g in f.implies() {
            assert_eq!(g.architecture(), f.architecture());
            assert!(*g != f);
            assert_eq!(feature(g.architecture(), g.name()), *g);
        }
    }
}

#[test]
fn implication_lists_are_closed() {
    for i in 0..FEATURE_COUNT {
        let f = feature(ARCHITECTURES[i], NAMES[i]);
        for g in f.implies() {
            for h in g.implies() {
                assert!(f.implies().contains(h));
            }
        }
    }
}
