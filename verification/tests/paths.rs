use hazelnut::paths::{extension, file_name, file_stem, is_hidden, join, parent};
use std::path::Path;

fn samples() -> Vec<&'static str> {
    vec![
        "",
        "/",
        "//",
        ".",
        "..",
        "./",
        "./.",
        "/.",
        "/..",
        "a",
        "a/",
        "a//",
        "a/.",
        "a/./",
        "a/..",
        "a/b",
        "a//b",
        "a/./b",
        "./a",
        "./a/b",
        "../a",
        "/a",
        "//a",
        "/a/b/",
        "/a/b/.",
        "/a/./b/.//",
        "/tmp/test.pdf",
        "/tmp/test.PDF",
        "/tmp/.hidden",
        "/tmp/.hidden.txt",
        "/tmp/archive.tar.gz",
        "/tmp/noext",
        "/tmp/trailing.",
        "/tmp/..x",
        "/tmp/...",
        "foo.txt/.//",
        "foo.txt/..",
        "/tmp/Screenshot 2024-01-01.png",
        "/tmp/na\u{ef}ve.t\u{e9}xt",
    ]
}

#[test]
fn file_name_agrees_with_std() {
    for s in samples() {
        assert_eq!(file_name(s), Path::new(s).file_name().map(|n| n.to_string_lossy().to_string()), "path {:?}", s);
    }
}

#[test]
fn extension_agrees_with_std() {
    for s in samples() {
        assert_eq!(extension(s), Path::new(s).extension().map(|n| n.to_string_lossy().to_string()), "path {:?}", s);
    }
}

#[test]
fn file_stem_agrees_with_std() {
    for s in samples() {
        assert_eq!(file_stem(s), Path::new(s).file_stem().map(|n| n.to_string_lossy().to_string()), "path {:?}", s);
    }
}

#[test]
fn parent_agrees_with_std() {
    for s in samples() {
        let expected = Path::new(s).parent().map(|p| p.to_string_lossy().to_string());
        assert_eq!(parent(s), expected, "path {:?}", s);
    }
}

#[test]
fn join_agrees_with_std() {
    for base in samples() {
        for name in samples() {
            let expected = Path::new(base).join(name).to_string_lossy().to_string();
            assert_eq!(join(base, name), expected, "base {:?} name {:?}", base, name);
        }
    }
}

#[test]
fn hidden_files_begin_with_a_dot() {
    assert!(is_hidden("/tmp/.hidden"));
    assert!(is_hidden(".profile"));
    assert!(!is_hidden("/tmp/visible"));
    assert!(!is_hidden("/tmp/.config/visible"));
    assert!(!is_hidden("/"));
    assert!(!is_hidden(".."));
    assert!(!is_hidden(""));
}

#[test]
fn exact_path_parts() {
    assert_eq!(file_name("/tmp/test.pdf"), Some("test.pdf".to_string()));
    assert_eq!(extension("/tmp/test.pdf"), Some("pdf".to_string()));
    assert_eq!(file_stem("/tmp/test.pdf"), Some("test".to_string()));
    assert_eq!(parent("/tmp/test.pdf"), Some("/tmp".to_string()));
    assert_eq!(join("/out", "report.PDF"), "/out/report.PDF");
    assert_eq!(join("/out/", "report.PDF"), "/out/report.PDF");
    assert_eq!(join("/out", "/abs"), "/abs");
    assert_eq!(join("", "rel"), "rel");
}

/// Paths made of a few pieces, in every order up to a length.
fn mixtures(pieces: &[&str], depth: usize) -> Vec<String> {
    let mut all = vec![String::new()];
    let mut last = vec![String::new()];
    for _ in 0..depth {
        let mut next = Vec::new();
        for head in &last {
            for piece in pieces {
                next.push(format!("{}{}", head, piece));
            }
        }
        all.extend(next.iter().cloned());
        last = next;
    }
    all
}

#[test]
fn path_parts_agree_with_std_on_every_mixture() {
    for s in mixtures(&["/", ".", "a", "b.c", " "], 6) {
        let p = Path::new(&s);
        let text = |o: Option<&Path>| o.map(|x| x.to_string_lossy().to_string());
        assert_eq!(file_name(&s), p.file_name().map(|n| n.to_string_lossy().to_string()), "{:?}", s);
        assert_eq!(extension(&s), p.extension().map(|n| n.to_string_lossy().to_string()), "{:?}", s);
        assert_eq!(file_stem(&s), p.file_stem().map(|n| n.to_string_lossy().to_string()), "{:?}", s);
        assert_eq!(parent(&s), text(p.parent()), "{:?}", s);
        let expected: Vec<String> =
            p.components().map(|c| c.as_os_str().to_string_lossy().to_string()).collect();
        assert_eq!(hazelnut::paths::split_components(&s), expected, "{:?}", s);
    }
}

#[test]
fn path_relations_agree_with_std_on_every_mixture() {
    let all = mixtures(&["/", ".", "a", "b"], 4);
    for p in &all {
        for b in &all {
            assert_eq!(
                hazelnut::paths::starts_with(p, b),
                Path::new(p).starts_with(b),
                "{:?} under {:?}",
                p,
                b
            );
            assert_eq!(join(p, b), Path::new(p).join(b).to_string_lossy().to_string());
        }
    }
}
