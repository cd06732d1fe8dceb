use ndk_toolchain::{ConfigurationError, Toolchain};

#[test]
fn platform_arch() {
    let arch = Toolchain::platform_arch("i686-linux-android", 21);
    assert!(arch.is_ok());
    assert_eq!("x86", arch.unwrap());

    let arch = Toolchain::platform_arch("x86_64-linux-android", 21);
    assert!(arch.is_ok());
    assert_eq!("x86_64", arch.unwrap());

    let arch = Toolchain::platform_arch("aarch64-linux-android", 21);
    assert!(arch.is_ok());
    assert_eq!("arm64", arch.unwrap());

    let arch = Toolchain::platform_arch("arm-linux-androideabi", 21);
    assert!(arch.is_ok());
    assert_eq!("arm", arch.unwrap());

    let arch = Toolchain::platform_arch("armv7-linux-androideabi", 21);
    assert!(arch.is_ok());
    assert_eq!("arm", arch.unwrap());
}

#[test]
fn platform_arch_not_support_for_low_api_level() {
    assert!(Toolchain::platform_arch("i686-linux-android", 8).is_err());
    assert!(Toolchain::platform_arch("x86_64-linux-android", 8).is_err());
}

#[test]
fn platform_arch_downgrade_64_to_32bit_for_low_api_level() {
    let arch = Toolchain::platform_arch("x86_64-linux-android", 9);
    assert!(arch.is_ok());
    assert_eq!("x86", arch.unwrap());

    let arch = Toolchain::platform_arch("aarch64-linux-android", 9);
    assert!(arch.is_ok());
    assert_eq!("arm", arch.unwrap());
}

#[test]
fn platform_arch_low_api_level_reports_target_and_level() {
    assert_eq!(
        Toolchain::platform_arch("i686-linux-android", 8),
        Err(ConfigurationError::UnsupportedCombination {
            target: "i686-linux-android".to_string(),
            api_level: 8,
        })
    );
    assert_eq!(
        Toolchain::platform_arch("x86_64-linux-android", 8),
        Err(ConfigurationError::UnsupportedCombination {
            target: "x86_64-linux-android".to_string(),
            api_level: 8,
        })
    );
    assert_eq!(
        Toolchain::platform_arch("mips64-linux-android", 0),
        Err(ConfigurationError::UnsupportedCombination {
            target: "mips64-linux-android".to_string(),
            api_level: 0,
        })
    );
}

#[test]
fn platform_arch_arm_is_supported_at_every_level() {
    for api in 0..=255u8 {
        assert_eq!(Toolchain::platform_arch("arm-linux-androideabi", api), Ok("arm"));
        assert_eq!(Toolchain::platform_arch("armv7-linux-androideabi", api), Ok("arm"));
    }
}

#[test]
fn platform_arch_aarch64_falls_back_to_arm_below_first_multi_arch_level() {
    assert_eq!(Toolchain::platform_arch("aarch64-linux-android", 8), Ok("arm"));
    assert_eq!(Toolchain::platform_arch("aarch64-linux-android", 1), Ok("arm"));
}

#[test]
fn platform_arch_guard_boundary_is_nine() {
    assert!(Toolchain::platform_arch("i686-linux-android", 8).is_err());
    assert_eq!(Toolchain::platform_arch("i686-linux-android", 9), Ok("x86"));
    assert!(Toolchain::platform_arch("mips64-linux-android", 8).is_err());
    assert_eq!(Toolchain::platform_arch("mips64-linux-android", 9), Ok("mips"));
    assert!(Toolchain::platform_arch("riscv64-linux-android", 8).is_err());
    assert_eq!(Toolchain::platform_arch("riscv64-linux-android", 9), Ok("riscv64"));
}

#[test]
fn platform_arch_switches_to_64_bit_exactly_at_21() {
    for api in 9..=255u8 {
        let wide = api >= 21;
        assert_eq!(
            Toolchain::platform_arch("aarch64-linux-android", api),
            Ok(if wide { "arm64" } else { "arm" })
        );
        assert_eq!(
            Toolchain::platform_arch("x86_64-linux-android", api),
            Ok(if wide { "x86_64" } else { "x86" })
        );
        assert_eq!(
            Toolchain::platform_arch("mips64-linux-android", api),
            Ok(if wide { "mips64" } else { "mips" })
        );
    }
    assert_eq!(Toolchain::platform_arch("aarch64-linux-android", 20), Ok("arm"));
    assert_eq!(Toolchain::platform_arch("aarch64-linux-android", 21), Ok("arm64"));
    assert_eq!(Toolchain::platform_arch("x86_64-linux-android", 20), Ok("x86"));
    assert_eq!(Toolchain::platform_arch("x86_64-linux-android", 21), Ok("x86_64"));
    assert_eq!(Toolchain::platform_arch("mips64-linux-android", 20), Ok("mips"));
    assert_eq!(Toolchain::platform_arch("mips64-linux-android", 21), Ok("mips64"));
}

#[test]
fn platform_arch_passes_unknown_tokens_through() {
    assert_eq!(Toolchain::platform_arch("riscv64-linux-android", 35), Ok("riscv64"));
    assert_eq!(Toolchain::platform_arch("mips-linux-android", 14), Ok("mips"));
    assert_eq!(Toolchain::platform_arch("arm64-linux-android", 21), Ok("arm64"));
    assert_eq!(Toolchain::platform_arch("x86-linux-android", 21), Ok("x86"));
    assert_eq!(Toolchain::platform_arch("ARM-linux-androideabi", 21), Ok("ARM"));
    assert_eq!(Toolchain::platform_arch("armv7a-linux-androideabi", 21), Ok("armv7a"));
}

#[test]
fn platform_arch_reads_only_the_first_field() {
    assert_eq!(Toolchain::platform_arch("aarch64", 21), Ok("arm64"));
    assert_eq!(Toolchain::platform_arch("aarch64-", 21), Ok("arm64"));
    assert_eq!(Toolchain::platform_arch("aarch64-unknown-linux-gnu", 21), Ok("arm64"));
    assert_eq!(Toolchain::platform_arch("linux-aarch64", 21), Ok("linux"));
    assert_eq!(Toolchain::platform_arch("-aarch64", 21), Ok(""));
}

#[test]
fn platform_arch_rejects_the_empty_triple() {
    assert_eq!(Toolchain::platform_arch("", 21), Err(ConfigurationError::MalformedInput));
    assert_eq!(Toolchain::platform_arch("", 8), Err(ConfigurationError::MalformedInput));
    assert_eq!(Toolchain::platform_arch("", 0), Err(ConfigurationError::MalformedInput));
}

#[test]
fn platform_arch_gives_the_same_answer_each_time() {
    let triples = [
        "arm-linux-androideabi",
        "armv7-linux-androideabi",
        "aarch64-linux-android",
        "i686-linux-android",
        "x86_64-linux-android",
        "mips64-linux-android",
        "riscv64-linux-android",
    ];
    for triple in triples {
        for api in 0..=255u8 {
            let first = Toolchain::platform_arch(triple, api);
            let second = Toolchain::platform_arch(triple, api);
            assert_eq!(first, second);
            if api >= 9 {
                assert!(first.is_ok());
            }
        }
    }
}

#[test]
fn platform_arch_handles_characters_outside_ascii() {
    assert_eq!(Toolchain::platform_arch("b\u{e9}ta-linux", 21), Ok("b\u{e9}ta"));
    assert_eq!(Toolchain::platform_arch("\u{65e5}\u{672c}-x", 9), Ok("\u{65e5}\u{672c}"));
    assert_eq!(Toolchain::platform_arch("\u{1f600}", 9), Ok("\u{1f600}"));
    // U+012D is encoded as C4 AD and U+2D2D as E2 B4 AD: neither holds the byte of `-`.
    assert_eq!(Toolchain::platform_arch("\u{12d}\u{2d2d}-arm", 9), Ok("\u{12d}\u{2d2d}"));
}
