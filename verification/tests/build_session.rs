use build_helper::{is_valid_utf8, rerun_directive, utf8_cargo_path, Build, BuildError};

fn session() -> Build {
    Build::new(Some(b"/tmp/out".to_vec())).unwrap()
}

#[test]
fn new_without_out_dir_is_configuration_error() {
    let r = Build::new(None);
    assert_eq!(r.unwrap_err(), BuildError::ConfigurationError);
}

#[test]
fn new_stores_supplied_directory() {
    let b = Build::new(Some(b"/tmp/out".to_vec())).unwrap();
    assert_eq!(b.output_dir().as_slice(), b"/tmp/out");
}

#[test]
fn configuration_error_message() {
    assert_eq!(
        BuildError::ConfigurationError.message(),
        "could not find the output directory, are we running in a build.rs script?"
    );
}

#[test]
fn io_error_message_names_the_output_directory() {
    let e = BuildError::IoError { cause: "disk full".to_string() };
    assert_eq!(e.message(), "could not write file to `out` directory: disk full");
}

#[test]
fn encoding_error_message_shows_best_effort_path() {
    let e = BuildError::EncodingError { path: vec![b'a', 0xff, b'b', 0x07] };
    assert_eq!(e.message(), "cargo requires that paths are utf8, but \"a?b?\" is not");
}

#[test]
fn rerun_directive_line_is_exact() {
    let line = rerun_directive("src/main.rs");
    assert_eq!(line, "cargo:rerun-if-changed=src/main.rs");
}

#[test]
fn rerun_if_changed_accepts_text_path() {
    let b = session();
    assert!(b.rerun_if_changed(b"src/main.rs").is_ok());
}

#[test]
fn rerun_if_changed_rejects_bytes_that_are_not_text() {
    let b = session();
    let r = b.rerun_if_changed(&[0xff, 0xfe]);
    assert_eq!(r.unwrap_err(), BuildError::EncodingError { path: vec![0xff, 0xfe] });
}

#[test]
fn same_path_twice_gives_identical_lines() {
    let first = rerun_directive("assets/logo.svg");
    let second = rerun_directive("assets/logo.svg");
    assert_eq!(first, second);
    let b = session();
    assert!(b.rerun_if_changed(b"assets/logo.svg").is_ok());
    assert!(b.rerun_if_changed(b"assets/logo.svg").is_ok());
}

#[test]
fn utf8_cargo_path_returns_the_text() {
    assert_eq!(utf8_cargo_path(b"po/fr.po").unwrap(), "po/fr.po");
    let accented = "caf\u{e9}.rs";
    assert_eq!(utf8_cargo_path(accented.as_bytes()).unwrap(), accented);
}

#[test]
fn utf8_cargo_path_reports_the_offending_bytes() {
    let r = utf8_cargo_path(&[b'x', 0x80]);
    assert_eq!(r.unwrap_err(), BuildError::EncodingError { path: vec![b'x', 0x80] });
}

#[test]
fn output_path_joins_with_separator() {
    let b = session();
    assert_eq!(b.output_path(b"a.txt"), b"/tmp/out/a.txt".to_vec());
    assert_eq!(b.output_path(b"missing_dir/a.txt"), b"/tmp/out/missing_dir/a.txt".to_vec());
}

#[test]
fn output_path_does_not_double_a_trailing_separator() {
    let b = Build::new(Some(b"/tmp/out/".to_vec())).unwrap();
    assert_eq!(b.output_path(b"a.txt"), b"/tmp/out/a.txt".to_vec());
}

#[test]
fn output_path_keeps_an_absolute_path() {
    let b = session();
    assert_eq!(b.output_path(b"/etc/motd"), b"/etc/motd".to_vec());
}

#[test]
fn output_path_with_empty_directory_is_the_relative_path() {
    let b = Build::new(Some(Vec::new())).unwrap();
    assert_eq!(b.output_path(b"a.txt"), b"a.txt".to_vec());
}

#[test]
fn validator_accepts_what_the_standard_library_accepts() {
    let cases: Vec<Vec<u8>> = vec![
        vec![],
        b"plain ascii".to_vec(),
        vec![0xc3, 0xa9],
        vec![0xc2, 0x80],
        vec![0xdf, 0xbf],
        vec![0xe0, 0xa0, 0x80],
        vec![0xe0, 0x9f, 0xbf],
        vec![0xed, 0x9f, 0xbf],
        vec![0xed, 0xa0, 0x80],
        vec![0xee, 0x80, 0x80],
        vec![0xef, 0xbf, 0xbf],
        vec![0xf0, 0x90, 0x80, 0x80],
        vec![0xf0, 0x8f, 0xbf, 0xbf],
        vec![0xf4, 0x8f, 0xbf, 0xbf],
        vec![0xf4, 0x90, 0x80, 0x80],
        vec![0xf5, 0x80, 0x80, 0x80],
        vec![0xc0, 0x80],
        vec![0xc1, 0xbf],
        vec![0x80],
        vec![0xbf],
        vec![0xf8],
        vec![0xff],
        vec![0xc3],
        vec![0xe0, 0xa0],
        vec![0xf0, 0x90, 0x80],
        vec![0xc3, 0x28],
        vec![0x61, 0xc3, 0xa9, 0x62],
    ];
    for bytes in cases {
        assert_eq!(
            is_valid_utf8(&bytes),
            core::str::from_utf8(&bytes).is_ok(),
            "disagreement on {:?}",
            bytes
        );
    }
}

#[test]
fn validator_accepts_the_full_two_byte_range() {
    for b0 in 0u8..=0xff {
        for b1 in [0x00u8, 0x7f, 0x80, 0x9f, 0xa0, 0xbf, 0xc0, 0xff] {
            let bytes = [b0, b1];
            assert_eq!(
                is_valid_utf8(&bytes),
                core::str::from_utf8(&bytes).is_ok(),
                "disagreement on {:?}",
                bytes
            );
        }
    }
}
