use rustup_configurator::target::{
    install_arguments, list_arguments, parse_rustup_triple_list, read_targets, confirm_install,
    Target, TargetTriple,
};
use rustup_configurator::{CommandOutput, RustupTargetError};

fn debug_entries(parsed: &[Target]) -> String {
    let items: Vec<String> = parsed
        .iter()
        .map(|t| {
            let triple = match &t.triple {
                TargetTriple::Conied(c) => format!("Conied({:?})", c.triple()),
                TargetTriple::Uncoined(s) => format!("Uncoined({:?})", s),
            };
            format!("Target {{ triple: {}, installed: {} }}", triple, t.installed)
        })
        .collect();
    format!("[{}]", items.join(", "))
}

#[test]
fn test_parse_list() {
    let list = "aarch64-apple-darwin (installed)
aarch64-apple-ios (installed)
aarch64-apple-ios-sim (installed)
aarch64-fuchsiaarch64-linux-android (installed)
aarch64-pc-windows-msvc";

    let triples = parse_rustup_triple_list(list).unwrap();

    let re_composed = triples
        .iter()
        .map(|t| t.to_string())
        .collect::<Vec<_>>()
        .join("\n");
    assert_eq!(
        re_composed,
        "aarch64-apple-darwin - installed: true
aarch64-apple-ios - installed: true
aarch64-apple-ios-sim - installed: true
aarch64-fuchsiaarch64-linux-android - installed: true
aarch64-pc-windows-msvc - installed: false"
    );
}

#[test]
fn test_parse_list_uncoind_arch() {
    let list = "aarch64-apple-darwin (installed)
arch64-apple-ios (installed)
aarch64-pc-windows-msvc";

    let parsed_list = parse_rustup_triple_list(list).unwrap();
    let formated_list = debug_entries(&parsed_list);

    assert_eq!(
        formated_list,
        "[Target { triple: Conied(Triple { architecture: Aarch64(Aarch64), vendor: Apple, operating_system: Darwin, environment: Unknown, binary_format: Macho }), installed: true }, Target { triple: Uncoined(\"arch64-apple-ios\"), installed: true }, Target { triple: Conied(Triple { architecture: Aarch64(Aarch64), vendor: Pc, operating_system: Windows, environment: Msvc, binary_format: Coff }), installed: false }]"
    );
}

#[test]
fn end_to_end_three_lines() {
    let list = "aarch64-apple-darwin (installed)\naarch64-apple-ios (installed)\naarch64-pc-windows-msvc";
    let parsed = parse_rustup_triple_list(list).unwrap();
    assert_eq!(parsed.len(), 3);
    let flags: Vec<bool> = parsed.iter().map(|t| t.installed).collect();
    assert_eq!(flags, vec![true, true, false]);
    let texts: Vec<String> = parsed.iter().map(|t| t.triple.to_string()).collect();
    assert_eq!(
        texts,
        vec!["aarch64-apple-darwin", "aarch64-apple-ios", "aarch64-pc-windows-msvc"]
    );
    assert!(parsed.iter().all(|t| matches!(t.triple, TargetTriple::Conied(_))));
}

#[test]
fn rendering_reparses_to_the_same_identifier() {
    let list = "x86_64-unknown-linux-gnu (installed)\nwasm32-unknown-unknown\nnot-a-triple";
    for t in parse_rustup_triple_list(list).unwrap() {
        let text = t.triple.to_string();
        let again = TargetTriple::parse(&text);
        assert_eq!(again.to_string(), text);
        assert_eq!(
            matches!(again, TargetTriple::Conied(_)),
            matches!(t.triple, TargetTriple::Conied(_))
        );
    }
}

#[test]
fn installed_flags_follow_the_marker() {
    let list = "a-b (installed)\nx86_64-pc-windows-gnu\naarch64-linux-android (installed)\nriscv64gc-unknown-linux-gnu";
    let parsed = parse_rustup_triple_list(list).unwrap();
    assert_eq!(parsed.len(), 4);
    assert_eq!(parsed.iter().filter(|t| t.installed).count(), 2);
    let flags: Vec<bool> = parsed.iter().map(|t| t.installed).collect();
    assert_eq!(flags, vec![true, false, true, false]);
}

#[test]
fn preview_lines_are_left_out() {
    let list = "wasm32-wasip1-preview1-threads (installed)\nx86_64-unknown-linux-gnu\nwasm32-wasi-preview2";
    let parsed = parse_rustup_triple_list(list).unwrap();
    assert_eq!(parsed.len(), 1);
    assert_eq!(parsed[0].triple.to_string(), "x86_64-unknown-linux-gnu");
    assert!(!parsed[0].installed);
}

#[test]
fn malformed_line_is_kept_verbatim() {
    let parsed = parse_rustup_triple_list("arch64-apple-ios (installed)").unwrap();
    assert_eq!(parsed.len(), 1);
    assert!(parsed[0].installed);
    match &parsed[0].triple {
        TargetTriple::Uncoined(s) => assert_eq!(s, "arch64-apple-ios"),
        TargetTriple::Conied(_) => panic!("expected an uncoined identifier"),
    }
}

#[test]
fn empty_listing_is_empty() {
    assert!(parse_rustup_triple_list("").unwrap().is_empty());
}

#[test]
fn carriage_returns_and_trailing_newline() {
    let parsed =
        parse_rustup_triple_list("aarch64-apple-darwin (installed)\r\nx86_64-pc-windows-msvc\n").unwrap();
    assert_eq!(parsed.len(), 2);
    assert!(parsed[0].installed);
    assert_eq!(parsed[0].triple.to_string(), "aarch64-apple-darwin");
    assert_eq!(parsed[1].triple.to_string(), "x86_64-pc-windows-msvc");
}

#[test]
fn empty_line_gives_an_uncoined_entry() {
    let parsed = parse_rustup_triple_list("x86_64-pc-windows-msvc\n\naarch64-apple-ios").unwrap();
    assert_eq!(parsed.len(), 3);
    assert!(matches!(&parsed[1].triple, TargetTriple::Uncoined(s) if s.is_empty()));
}

#[test]
fn coined_triple_renders_canonically() {
    let t = TargetTriple::parse("aarch64-apple-darwin-macho");
    assert!(matches!(t, TargetTriple::Conied(_)));
    assert_eq!(t.to_string(), "aarch64-apple-darwin");
    if let TargetTriple::Conied(c) = &t {
        assert_eq!(c.text(), "aarch64-apple-darwin");
    }
}

#[test]
fn entry_text_names_the_flag() {
    let parsed = parse_rustup_triple_list("arch64-x\naarch64-apple-ios (installed)").unwrap();
    assert_eq!(parsed[0].to_string(), "arch64-x - installed: false");
    assert_eq!(parsed[1].to_string(), "aarch64-apple-ios - installed: true");
}

fn output(code: Option<i32>, stdout: &[u8], stderr: &[u8]) -> CommandOutput {
    CommandOutput { exit_code: code, stdout: stdout.to_vec(), stderr: stderr.to_vec() }
}

#[test]
fn escapes_are_stripped_before_parsing() {
    let out = output(Some(0), b"\x1b[32maarch64-apple-ios\x1b[0m (installed)\n", b"");
    let parsed = read_targets(Ok(out)).unwrap();
    assert_eq!(parsed.len(), 1);
    assert!(parsed[0].installed);
    assert_eq!(parsed[0].triple.to_string(), "aarch64-apple-ios");
}

#[test]
fn nonzero_exit_is_a_tool_failure() {
    let out = output(Some(1), b"partial", b"error: toolchain 'x' is not installed");
    match read_targets(Ok(out)) {
        Err(RustupTargetError::RustupError { exitcode, stderr, stdout }) => {
            assert_eq!(exitcode, Some(1));
            assert_eq!(stderr, "error: toolchain 'x' is not installed");
            assert_eq!(stdout, "partial");
        }
        other => panic!("unexpected {:?}", other),
    }
}

#[test]
fn killed_process_is_a_tool_failure_without_code() {
    let out = output(None, b"", b"");
    assert!(matches!(
        read_targets(Ok(out)),
        Err(RustupTargetError::RustupError { exitcode: None, .. })
    ));
}

#[test]
fn stderr_is_decoded_lossily() {
    let out = output(Some(2), b"", b"\xffbad");
    match confirm_install(Ok(out)) {
        Err(RustupTargetError::RustupError { exitcode, stderr, .. }) => {
            assert_eq!(exitcode, Some(2));
            assert_eq!(stderr, "\u{FFFD}bad");
        }
        other => panic!("unexpected {:?}", other),
    }
}

#[test]
fn stray_bytes_in_stdout_are_no_tool_failure() {
    let out = output(Some(0), b"\xff\xfe", b"");
    assert!(matches!(
        read_targets(Ok(out)),
        Ok(_) | Err(RustupTargetError::InvalidEncoding)
    ));
}

#[test]
fn unlaunchable_process_is_reported() {
    let e = std::io::Error::new(std::io::ErrorKind::NotFound, "rustup not found");
    match read_targets(Err(e)) {
        Err(RustupTargetError::ProcessFailed(e)) => {
            assert_eq!(e.kind(), std::io::ErrorKind::NotFound)
        }
        other => panic!("unexpected {:?}", other),
    }
    let e = std::io::Error::new(std::io::ErrorKind::PermissionDenied, "denied");
    assert!(matches!(confirm_install(Err(e)), Err(RustupTargetError::ProcessFailed(_))));
}

#[test]
fn successful_install_is_ok() {
    let out = output(Some(0), b"info: downloading component", b"");
    assert!(confirm_install(Ok(out)).is_ok());
}

#[test]
fn listing_arguments() {
    assert_eq!(list_arguments(false), vec!["target", "list"]);
    assert_eq!(list_arguments(true), vec!["target", "list", "--installed"]);
}

#[test]
fn install_arguments_render_each_identifier() {
    assert!(install_arguments(&[]).is_none());
    let ids = vec![
        TargetTriple::parse("aarch64-apple-ios"),
        TargetTriple::parse("arch64-odd"),
        TargetTriple::parse("aarch64-apple-darwin-macho"),
    ];
    assert_eq!(
        install_arguments(&ids).unwrap(),
        vec!["target", "add", "aarch64-apple-ios", "arch64-odd", "aarch64-apple-darwin"]
    );
}

#[test]
fn identifiers_parse_through_from_str() {
    let t: TargetTriple = "aarch64-apple-ios".parse().unwrap();
    assert!(matches!(t, TargetTriple::Conied(_)));
    assert_eq!(t.to_string(), "aarch64-apple-ios");
    let u: TargetTriple = "arch64-apple-ios".parse().unwrap();
    assert!(matches!(u, TargetTriple::Uncoined(_)));
}
