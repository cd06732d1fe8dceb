use ndk_toolchain::arch::{check_supported, map_arch};
use ndk_toolchain::host::{host_triple, normalize_host_os};
use ndk_toolchain::text::{push_decimal, str_eq};
use ndk_toolchain::triple::split_arch_token;

#[test]
fn str_eq_agrees_with_equality() {
    let words = ["", "a", "arm", "armv7", "arm64", "aarch64", "x86", "x86_64", "\u{e9}", "e"];
    for a in words {
        for b in words {
            assert_eq!(str_eq(a, b), a == b, "{:?} {:?}", a, b);
        }
    }
}

#[test]
fn split_arch_token_stops_at_the_first_dash() {
    assert_eq!(split_arch_token("aarch64-linux-android"), "aarch64");
    assert_eq!(split_arch_token("i686-linux-android"), "i686");
    assert_eq!(split_arch_token("x86_64"), "x86_64");
    assert_eq!(split_arch_token(""), "");
    assert_eq!(split_arch_token("-"), "");
    assert_eq!(split_arch_token("--"), "");
    assert_eq!(split_arch_token("a-"), "a");
    assert_eq!(split_arch_token("-a"), "");
    assert_eq!(split_arch_token("a--b"), "a");
    assert_eq!(split_arch_token("\u{e9}\u{1f600}-b"), "\u{e9}\u{1f600}");
}

#[test]
fn split_arch_token_agrees_with_split() {
    for triple in ["arm-linux-androideabi", "a", "", "-", "a-b-c", "\u{2d2d}-\u{12d}", "_-_"] {
        assert_eq!(Some(split_arch_token(triple)), triple.split('-').next());
    }
}

#[test]
fn map_arch_follows_the_table() {
    let rows: [(&str, u8, &str); 20] = [
        ("arm", 0, "arm"),
        ("arm", 21, "arm"),
        ("armv7", 0, "arm"),
        ("armv7", 255, "arm"),
        ("aarch64", 0, "arm"),
        ("aarch64", 20, "arm"),
        ("aarch64", 21, "arm64"),
        ("aarch64", 255, "arm64"),
        ("i686", 0, "x86"),
        ("i686", 21, "x86"),
        ("x86_64", 0, "x86"),
        ("x86_64", 20, "x86"),
        ("x86_64", 21, "x86_64"),
        ("mips64", 0, "mips"),
        ("mips64", 20, "mips"),
        ("mips64", 21, "mips64"),
        ("mips", 21, "mips"),
        ("arm64", 9, "arm64"),
        ("", 9, ""),
        ("AARCH64", 9, "AARCH64"),
    ];
    for (token, api, arch) in rows {
        assert_eq!(map_arch(token, api), arch, "{} {}", token, api);
    }
}

#[test]
fn check_supported_admits_only_arm_below_nine() {
    for api in 0..=255u8 {
        assert!(check_supported("arm", api));
        assert_eq!(check_supported("x86", api), api >= 9);
        assert_eq!(check_supported("mips", api), api >= 9);
        assert_eq!(check_supported("arm64", api), api >= 9);
        assert_eq!(check_supported("", api), api >= 9);
    }
}

#[test]
fn normalize_host_os_renames_macos_only() {
    assert_eq!(normalize_host_os("macos"), "darwin");
    assert_eq!(normalize_host_os("linux"), "linux");
    assert_eq!(normalize_host_os("windows"), "windows");
    assert_eq!(normalize_host_os("darwin"), "darwin");
    assert_eq!(normalize_host_os("MacOS"), "MacOS");
    assert_eq!(normalize_host_os("macosx"), "macosx");
    assert_eq!(normalize_host_os(""), "");
}

#[test]
fn host_triple_joins_with_a_dash() {
    assert_eq!(host_triple("macos", "x86_64"), "darwin-x86_64");
    assert_eq!(host_triple("macos", "aarch64"), "darwin-aarch64");
    assert_eq!(host_triple("linux", "x86_64"), "linux-x86_64");
    assert_eq!(host_triple("windows", "x86"), "windows-x86");
    assert_eq!(host_triple("", ""), "-");
}

#[test]
fn push_decimal_appends_the_numeral() {
    for n in 0..=255u8 {
        let mut out = String::from("v");
        push_decimal(&mut out, n);
        assert_eq!(out, format!("v{}", n));
    }
    let mut out = String::new();
    push_decimal(&mut out, 0);
    push_decimal(&mut out, 10);
    push_decimal(&mut out, 200);
    assert_eq!(out, "010200");
}
