use kbuild::path::{extension, file_name, file_stem, join, parent, with_extension};
use std::path::{Path, PathBuf};

const PATHS: [&str; 46] = [
    "", "/", "//", ".", "..", "./", "../", "a", "a/", "a//", "/a", "/a/", "a/b", "a//b", "a/b/",
    "a/./b", "a/b/.", "a/b/./", "a/b/..", "a/..", "./a", ".//a", "/./a", "/.", "/..", "/../a",
    "././a", "a/.b", ".b", "..b", "a.", "a..", "a.b", "a.b.c", ".a.b", "/x/y.tar.gz", "x.qcow2.xz",
    "...", "a/...", "caf\u{e9}/\u{1f980}.ko", "a/ /b", ".//.", "./.", "a///b///", "//a", "/a/./.",
];

fn text(p: &Path) -> String {
    p.to_str().unwrap().to_string()
}

#[test]
fn joining_agrees_with_the_standard_library() {
    for a in PATHS {
        for b in PATHS {
            assert_eq!(join(a, b), text(&Path::new(a).join(b)), "{a:?} {b:?}");
        }
    }
    assert_eq!(join("target/kbuild", "kbuild-work"), "target/kbuild/kbuild-work");
    assert_eq!(join("a", "/b"), "/b");
}

#[test]
fn file_names_agree_with_the_standard_library() {
    for p in PATHS {
        let expected = Path::new(p).file_name().map(|n| n.to_str().unwrap());
        assert_eq!(file_name(p).as_deref(), expected, "{p:?}");
    }
    assert_eq!(file_name("/tmp/hello.ko").as_deref(), Some("hello.ko"));
    assert_eq!(file_name("/tmp/.."), None);
}

#[test]
fn parents_agree_with_the_standard_library() {
    for p in PATHS {
        let expected = Path::new(p).parent().map(text);
        assert_eq!(parent(p), expected, "{p:?}");
    }
    assert_eq!(parent("/w/crates/cargo-kbuild").as_deref(), Some("/w/crates"));
    assert_eq!(parent("/"), None);
}

#[test]
fn stems_and_extensions_agree_with_the_standard_library() {
    for p in PATHS {
        if let Some(name) = file_name(p) {
            let path = Path::new(p);
            assert_eq!(file_stem(&name), path.file_stem().unwrap().to_str().unwrap(), "{p:?}");
            let expected = path.extension().map(|e| e.to_str().unwrap());
            assert_eq!(extension(&name).as_deref(), expected, "{p:?}");
        }
    }
    assert_eq!(extension("a.o").as_deref(), Some("o"));
    assert_eq!(file_stem("x86_64-unknown-freebsd-kernel.json"), "x86_64-unknown-freebsd-kernel");
}

#[test]
fn changing_extensions_agrees_with_the_standard_library() {
    for p in PATHS {
        for ext in ["", "part", "qcow2.part"] {
            let mut path = PathBuf::from(p);
            path.set_extension(ext);
            let expected = text(&path);
            assert_eq!(with_extension(p, ext), expected, "{p:?} {ext:?}");
        }
    }
    assert_eq!(with_extension("c/image.qcow2.xz", "part"), "c/image.qcow2.part");
    assert_eq!(with_extension("c/image.qcow2.xz", ""), "c/image.qcow2");
}

#[test]
fn a_plain_name_is_found_again() {
    for dir in PATHS {
        assert_eq!(file_name(&join(dir, "hello.ko")).as_deref(), Some("hello.ko"), "{dir:?}");
        assert_eq!(with_extension(&join(dir, "a.xz"), "part"), join(dir, "a.part"), "{dir:?}");
        assert_ne!(with_extension(&join(dir, "a.xz"), "part"), join(dir, "a.xz"), "{dir:?}");
    }
}
