use kbuild::bindings::{arch_links, clang_args, clang_target_triple, header_links, DEFAULT_MACHINE};

fn owned(list: &[&str]) -> Vec<String> {
    list.iter().map(|s| s.to_string()).collect()
}

#[test]
fn links_of_each_machine() {
    assert_eq!(arch_links("amd64"), owned(&["x86", "i386"]));
    assert_eq!(arch_links("i386"), owned(&["x86"]));
    assert_eq!(arch_links("arm64"), owned(&[]));
    let links = header_links("amd64", "/sys");
    let expected = [
        ("machine", "/sys/amd64/include"),
        ("x86", "/sys/x86/include"),
        ("i386", "/sys/i386/include"),
    ];
    assert_eq!(links, expected.map(|(a, b)| (a.to_string(), b.to_string())));
    let links = header_links("arm64", "/sys");
    assert_eq!(links, [("machine".to_string(), "/sys/arm64/include".to_string())]);
}

#[test]
fn every_supported_machine_has_a_target() {
    assert_eq!(clang_target_triple("amd64"), Some("x86_64-unknown-freebsd14"));
    assert_eq!(clang_target_triple("arm64"), Some("aarch64-unknown-freebsd14"));
    assert_eq!(clang_target_triple("i386"), Some("i386-unknown-freebsd14"));
    assert_eq!(clang_target_triple("riscv64"), None);
    assert!(clang_target_triple(DEFAULT_MACHINE).is_some());
}

#[test]
fn arguments_of_the_header_parser() {
    assert_eq!(
        clang_args("t", "/out/ilinks", "/sys"),
        owned(&[
            "--target=t",
            "-D_KERNEL",
            "-DKLD_MODULE",
            "-nostdinc",
            "-I/out/ilinks",
            "-I/sys",
            "-I/sys/contrib/ck/include",
            "-fno-builtin",
            "-D__BSD_VISIBLE=1",
        ])
    );
}
