use debstrip::cargo_args::{cargo_build_args, join_commas, pkg_config_path};
use debstrip::triple::{
    debian_architecture_from_rust_triple, debian_triple_from_rust_triple, ends_with, same_text,
    starts_with, triple_abi, triple_arch,
};

#[test]
fn multiarch_tuples() {
    assert_eq!(debian_triple_from_rust_triple("x86_64-unknown-linux-gnu"), "x86_64-linux-gnu");
    assert_eq!(debian_triple_from_rust_triple("i686-unknown-linux-gnu"), "i386-linux-gnu");
    assert_eq!(debian_triple_from_rust_triple("aarch64-unknown-linux-musl"), "aarch64-linux-gnu");
    assert_eq!(
        debian_triple_from_rust_triple("armv7-unknown-linux-gnueabihf"),
        "arm-linux-gnueabihf"
    );
    assert_eq!(debian_triple_from_rust_triple("thumbv7neon-unknown-linux-gnueabi"), "arm-linux-gnueabi");
    assert_eq!(debian_triple_from_rust_triple("riscv64gc-unknown-linux-gnu"), "riscv64-linux-gnu");
    assert_eq!(debian_triple_from_rust_triple("loongarch64-unknown-linux-gnu"), "loong64-linux-gnu");
    assert_eq!(
        debian_triple_from_rust_triple("powerpc64le-unknown-linux-gnu"),
        "powerpc64le-linux-gnu"
    );
    assert_eq!(debian_triple_from_rust_triple("sparc64"), "sparc64-linux-gnu");
}

#[test]
fn architectures() {
    assert_eq!(debian_architecture_from_rust_triple("aarch64-unknown-linux-gnu"), "arm64");
    assert_eq!(debian_architecture_from_rust_triple("x86_64-unknown-linux-gnu"), "amd64");
    assert_eq!(debian_architecture_from_rust_triple("x86_64-unknown-linux-gnux32"), "x32");
    assert_eq!(debian_architecture_from_rust_triple("i586-unknown-linux-gnu"), "i386");
    assert_eq!(debian_architecture_from_rust_triple("armv7-unknown-linux-gnueabihf"), "armhf");
    assert_eq!(debian_architecture_from_rust_triple("arm-unknown-linux-gnueabi"), "armel");
    assert_eq!(debian_architecture_from_rust_triple("mips64-unknown-linux-gnuabin32"), "mipsn32");
    assert_eq!(debian_architecture_from_rust_triple("mipsisa64r6el-unknown-linux-gnuabi64"), "mips64r6el");
    assert_eq!(debian_architecture_from_rust_triple("powerpc-unknown-linux-gnuspe"), "powerpcspe");
    assert_eq!(debian_architecture_from_rust_triple("powerpc64le-unknown-linux-gnu"), "ppc64el");
    assert_eq!(debian_architecture_from_rust_triple("riscv64gc-unknown-linux-gnu"), "riscv64");
    assert_eq!(debian_architecture_from_rust_triple("s390x-unknown-linux-gnu"), "s390x");
    assert_eq!(debian_architecture_from_rust_triple("x86"), "i386");
}

#[test]
fn triple_parts() {
    assert_eq!(triple_arch("x86_64-unknown-linux-gnu"), "x86_64");
    assert_eq!(triple_abi("x86_64-unknown-linux-gnu"), Some("gnu"));
    assert_eq!(triple_arch("wasm32"), "wasm32");
    assert_eq!(triple_abi("wasm32"), None);
    assert!(same_text("abc", "abc"));
    assert!(!same_text("abc", "abd"));
    assert!(starts_with("armv7", "arm"));
    assert!(!starts_with("ar", "arm"));
    assert!(ends_with("gnueabihf", "hf"));
    assert!(!ends_with("gnueabi", "hf"));
}

#[test]
fn cargo_arguments() {
    let flags = vec!["--release".to_string()];
    let features = vec!["a".to_string(), "b".to_string()];
    let args = cargo_build_args("build", &flags, true, Some("armv7-unknown-linux-gnueabihf"), false, &features);
    assert_eq!(
        args,
        vec![
            "build",
            "--release",
            "--verbose",
            "--target",
            "armv7-unknown-linux-gnueabihf",
            "--no-default-features",
            "--features",
            "a,b",
        ]
    );
    let plain = cargo_build_args("build", &vec![], false, None, true, &vec![]);
    assert_eq!(plain, vec!["build"]);
}

#[test]
fn comma_lists_and_pkg_config() {
    assert_eq!(join_commas(&vec![]), "");
    assert_eq!(join_commas(&vec!["x".to_string()]), "x");
    assert_eq!(
        pkg_config_path("aarch64-unknown-linux-gnu"),
        "/usr/lib/aarch64-linux-gnu/pkgconfig"
    );
}
