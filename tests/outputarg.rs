use patharg::{OutputArg};
use std::path::{Path, PathBuf};

#[test]
fn test_assert_stdout_from_pathbuf() {
    let s = PathBuf::from("-");
    let p = OutputArg::from(s);
    assert!(p.is_stdout());
    assert!(!p.is_path());
}

#[test]
fn lib_test_assert_path_from_pathbuf() {
    let s = PathBuf::from("./-");
    let p = OutputArg::from(s);
    assert!(!p.is_stdout());
    assert!(p.is_path());
}

#[test]
fn test_assert_stdout_from_path() {
    let s = Path::new("-");
    let p = OutputArg::from(s);
    assert!(p.is_stdout());
    assert!(!p.is_path());
}

#[test]
fn lib_test_assert_path_from_path() {
    let s = Path::new("./-");
    let p = OutputArg::from(s);
    assert!(!p.is_stdout());
    assert!(p.is_path());
}

#[test]
fn test_assert_stdout_from_string() {
    let s = String::from("-");
    let p = OutputArg::from(s);
    assert!(p.is_stdout());
    assert!(!p.is_path());
}

#[test]
fn lib_test_assert_path_from_string() {
    let s = String::from("./-");
    let p = OutputArg::from(s);
    assert!(!p.is_stdout());
    assert!(p.is_path());
}

#[test]
fn test_assert_stdout_from_str() {
    let p = OutputArg::from("-");
    assert!(p.is_stdout());
    assert!(!p.is_path());
}

#[test]
fn lib_test_assert_path_from_str() {
    let p = OutputArg::from("./-");
    assert!(!p.is_stdout());
    assert!(p.is_path());
}

#[test]
fn lib_test_default() {
    assert_eq!(OutputArg::default(), OutputArg::Stdout);
}

#[test]
fn test_stdout_path_ref() {
    let p = OutputArg::Stdout;
    assert_eq!(p.path_ref(), None);
}

#[test]
fn lib_test_path_path_ref() {
    let p = OutputArg::Path(b"-".to_vec());
    assert_eq!(p.path_ref(), Some(&b"-".to_vec()));
}

#[test]
fn test_stdout_path_mut() {
    let mut p = OutputArg::Stdout;
    assert_eq!(p.path_mut(), None);
}

#[test]
fn lib_test_path_path_mut() {
    let mut p = OutputArg::Path(b"-".to_vec());
    assert_eq!(p.path_mut(), Some(&mut b"-".to_vec()));
}

#[test]
fn test_stdout_into_path() {
    let p = OutputArg::Stdout;
    assert_eq!(p.into_path(), None);
}

#[test]
fn lib_test_path_into_path() {
    let p = OutputArg::Path(b"-".to_vec());
    assert_eq!(p.into_path(), Some(b"-".to_vec()));
}

#[test]
fn test_display_stdout() {
    let p = OutputArg::Stdout;
    assert_eq!(p.to_string(), "-");
}

#[test]
fn test_display_alternate_stdout() {
    let p = OutputArg::Stdout;
    assert_eq!(p.to_string_alternate(), "<stdout>");
}

#[test]
fn lib_test_display_path() {
    let p = OutputArg::from_arg("./-");
    assert_eq!(p.to_string(), "./-");
}

#[test]
fn stdout_arg_edge_tokens_are_paths() {
    for t in ["", "-x", "./-", "--", " -", "-/"] {
        let p = OutputArg::from_arg(t);
        assert_eq!(p, OutputArg::Path(t.as_bytes().to_vec()));
    }
    assert_eq!(OutputArg::from_arg("-"), OutputArg::Stdout);
}

#[test]
fn stdout_arg_raw_non_utf8_token() {
    let raw = vec![0x66u8, 0xFF, 0x2D];
    let p = OutputArg::from_raw(raw.clone());
    assert!(p.is_path());
    assert_eq!(p.path_ref(), Some(&raw));
    assert_eq!(p.to_string(), "f\u{FFFD}-");
    assert_eq!(p.to_string_alternate(), "f\u{FFFD}-");
    assert_eq!(p.into_raw(), raw);
    assert_eq!(OutputArg::from_raw(vec![45u8]), OutputArg::Stdout);
}

#[test]
fn stdout_arg_raw_round_trip() {
    for t in [&b"-"[..], b"./-", b"", b"a\xC3\x28", b"dir/file.txt"] {
        assert_eq!(OutputArg::from_raw(t.to_vec()).into_raw(), t.to_vec());
    }
}

#[test]
fn stdout_arg_display_round_trip() {
    for t in ["-", "./-", "", "-x", "caf\u{e9}.txt", "\u{1F600}"] {
        assert_eq!(OutputArg::from_arg(t).to_string(), t);
    }
}

#[test]
fn stdout_arg_classification_is_exclusive() {
    for p in [OutputArg::Stdout, OutputArg::from_arg("-"), OutputArg::from_arg("x"), OutputArg::Path(Vec::new())] {
        assert_ne!(p.is_stdout(), p.is_path());
    }
}

#[test]
fn stdout_arg_accessors_follow_the_token() {
    for t in ["-", "./-", "file.txt", ""] {
        let p = OutputArg::from_arg(t);
        let expected = if t == "-" { None } else { Some(t.as_bytes().to_vec()) };
        assert_eq!(p.path_ref().cloned(), expected);
        assert_eq!(p.clone().into_path(), expected);
        let mut q = p.clone();
        assert_eq!(q.path_mut().map(|v| v.clone()), expected);
    }
}

#[test]
fn stdout_arg_path_mut_edits_in_place() {
    let mut p = OutputArg::from_arg("out");
    if let Some(v) = p.path_mut() {
        v.extend_from_slice(b".txt");
    }
    assert_eq!(p, OutputArg::Path(b"out.txt".to_vec()));
    let mut s = OutputArg::Stdout;
    assert!(s.path_mut().is_none());
    assert_eq!(s, OutputArg::Stdout);
}

#[test]
fn stdout_arg_text_form_of_records() {
    assert_eq!(OutputArg::Stdout.into_raw(), b"-".to_vec());
    assert_eq!(OutputArg::from(b"-".to_vec()), OutputArg::Stdout);
    assert_eq!(OutputArg::from(b"./-".to_vec()), OutputArg::Path(b"./-".to_vec()));
    assert_eq!(OutputArg::Path(b"foo.txt".to_vec()).into_raw(), b"foo.txt".to_vec());
}
