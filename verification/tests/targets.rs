use target_features::table::{ARCHITECTURES, FEATURE_COUNT, NAMES};
use target_features::{Architecture, Feature, Target};

fn known(architecture: Architecture, name: &str) -> Feature {
    match Feature::new(architecture, name) {
        Ok(f) => f,
        Err(_) => panic!("{} should be known", name),
    }
}

#[test]
fn new_target_keeps_its_architecture() {
    assert!(Target::new(Architecture::RiscV).architecture() == Architecture::RiscV);
    assert!(Target::new(Architecture::Unsupported).architecture() == Architecture::Unsupported);
}

#[test]
fn new_target_supports_nothing() {
    for i in 0..FEATURE_COUNT {
        let target = Target::new(ARCHITECTURES[i]);
        assert!(!target.supports_feature(known(ARCHITECTURES[i], NAMES[i])));
        assert!(!target.supports_feature_str(NAMES[i]));
    }
}

#[test]
fn enabled_feature_is_supported() {
    for i in 0..FEATURE_COUNT {
        let f = known(ARCHITECTURES[i], NAMES[i]);
        let target = Target::new(ARCHITECTURES[i]).with_feature(f);
        assert!(target.supports_feature(f));
        assert!(target.architecture() == ARCHITECTURES[i]);
    }
}

#[test]
fn enable_then_disable_round_trip() {
    for i in 0..FEATURE_COUNT {
        let f = known(ARCHITECTURES[i], NAMES[i]);
        let target = Target::new(ARCHITECTURES[i]).with_feature(f).without_feature(f);
        assert!(!target.supports_feature(f));
        assert!(target == Target::new(ARCHITECTURES[i]));
    }
}

#[test]
fn avx2_implies_avx() {
    let avx2 = known(Architecture::X86, "avx2");
    let avx = known(Architecture::X86, "avx");
    assert!(avx2.implies().contains(&avx));
    assert!(Target::new(Architecture::X86).with_feature(avx2).supports_feature(avx));
}

#[test]
fn second_implied_feature_is_supported() {
    let avx = known(Architecture::X86, "avx");
    let list = avx.implies();
    assert!(list.len() >= 2);
    assert_eq!(list[0].name(), "sse4.2");
    assert_eq!(list[1].name(), "sse4.1");
    let target = Target::new(Architecture::X86).with_feature(avx);
    assert!(target.supports_feature(list[1]));
    assert!(target.supports_feature(known(Architecture::X86, "sse4.1")));
}

#[test]
fn every_implied_feature_is_supported() {
    for i in 0..FEATURE_COUNT {
        let f = known(ARCHITECTURES[i], NAMES[i]);
        let target = Target::new(ARCHITECTURES[i]).with_feature(f);
        for g in f.implies() {
            assert!(target.supports_feature(*g));
        }
    }
}

#[test]
fn only_enabled_and_implied_features_are_supported() {
    for i in 0..FEATURE_COUNT {
        let f = known(ARCHITECTURES[i], NAMES[i]);
        let target = Target::new(ARCHITECTURES[i]).with_feature(f);
        for j in 0..FEATURE_COUNT {
            if ARCHITECTURES[j] == ARCHITECTURES[i] {
                let g = known(ARCHITECTURES[j], NAMES[j]);
                assert_eq!(target.supports_feature(g), g == f || f.implies().contains(&g));
            }
        }
    }
}

#[test]
fn implication_does_not_run_backwards() {
    let sse2 = known(Architecture::X86, "sse2");
    let target = Target::new(Architecture::X86).with_feature(sse2);
    assert!(target.supports_feature(known(Architecture::X86, "sse")));
    assert!(!target.supports_feature(known(Architecture::X86, "sse3")));
    assert!(!target.supports_feature(known(Architecture::X86, "avx")));
    assert!(!target.supports_feature(known(Architecture::X86, "adx")));
}

#[test]
fn implied_feature_survives_its_own_removal() {
    let avx2 = known(Architecture::X86, "avx2");
    let avx = known(Architecture::X86, "avx");
    let target = Target::new(Architecture::X86).with_feature(avx2).with_feature(avx);
    let target = target.without_feature(avx);
    assert!(target.supports_feature(avx));
    assert!(target == Target::new(Architecture::X86).with_feature(avx2));
    let target = target.without_feature(avx2);
    assert!(!target.supports_feature(avx));
    assert!(!target.supports_feature(avx2));
}

#[test]
fn enabling_twice_is_enabling_once() {
    let neon = known(Architecture::AArch64, "neon");
    let once = Target::new(Architecture::AArch64).with_feature(neon);
    let twice = once.with_feature(neon);
    assert!(once == twice);
    assert!(once != Target::new(Architecture::AArch64));
}

#[test]
fn removing_what_is_not_enabled_changes_nothing() {
    let lse = known(Architecture::AArch64, "lse");
    let crc = known(Architecture::AArch64, "crc");
    let target = Target::new(Architecture::AArch64).with_feature(lse);
    assert!(target.without_feature(crc) == target);
    assert!(target.without_feature(crc).supports_feature(lse));
}

#[test]
fn targets_of_different_architectures_differ() {
    assert!(Target::new(Architecture::Arm) != Target::new(Architecture::AArch64));
}

#[test]
fn features_by_name() {
    let target = Target::new(Architecture::PowerPC).with_feature_str("vsx");
    assert!(target.supports_feature_str("vsx"));
    assert!(target.supports_feature_str("altivec"));
    assert!(!target.supports_feature_str("power8-vector"));
    assert!(target == Target::new(Architecture::PowerPC).with_feature(known(Architecture::PowerPC, "vsx")));
    let target = target.with_feature_str("power8-vector").without_feature_str("vsx");
    assert!(target.supports_feature_str("power8-vector"));
    assert!(target.supports_feature_str("vsx"));
    let target = target.without_feature_str("power8-vector");
    assert!(!target.supports_feature_str("vsx"));
    assert!(target == Target::new(Architecture::PowerPC));
}

#[test]
fn by_name_uses_the_targets_architecture() {
    let target = Target::new(Architecture::Arm).with_feature_str("aes");
    assert!(target.supports_feature(known(Architecture::Arm, "aes")));
    assert!(target.supports_feature(known(Architecture::Arm, "neon")));
    assert!(target.supports_feature(known(Architecture::Arm, "vfp2")));
    assert!(!target.supports_feature(known(Architecture::AArch64, "aes")));
    assert!(!target.supports_feature(known(Architecture::X86, "aes")));
}

#[test]
fn several_enabled_features() {
    let target = Target::new(Architecture::RiscV).with_feature_str("d").with_feature_str("m");
    assert!(target.supports_feature_str("d"));
    assert!(target.supports_feature_str("f"));
    assert!(target.supports_feature_str("m"));
    assert!(!target.supports_feature_str("a"));
    assert!(!target.supports_feature_str("c"));
    let copy = target;
    assert!(copy.without_feature_str("d").supports_feature_str("m"));
    assert!(!copy.without_feature_str("d").supports_feature_str("f"));
    assert!(target.supports_feature_str("f"));
}
