use enjo::cli::{parse_command, parse_status_args, parse_usize, Command, StatusArgsError};

fn args(v: &[&str]) -> Vec<String> {
    v.iter().map(|s| s.to_string()).collect()
}

#[test]
fn usize_parsing_matches_std() {
    for s in ["0", "40", "+7", "007", "18446744073709551615", "", "+", "-1", "4 ", "1e3", "18446744073709551616", "99999999999999999999x"] {
        assert_eq!(parse_usize(s), s.parse::<usize>().ok(), "input {s:?}");
    }
}

#[test]
fn commands_are_recognised() {
    assert!(matches!(parse_command(args(&[])), Command::Tui));
    assert!(matches!(parse_command(args(&["--help"])), Command::Help));
    assert!(matches!(parse_command(args(&["-h"])), Command::Help));
    assert!(matches!(parse_command(args(&["-V"])), Command::Version));
    assert!(matches!(parse_command(args(&["--version"])), Command::Version));
    match parse_command(args(&["status", "--tmux"])) {
        Command::Status(rest) => assert_eq!(rest, args(&["--tmux"])),
        _ => panic!("expected status"),
    }
    match parse_command(args(&["frobnicate"])) {
        Command::Unknown(a) => assert_eq!(a, "frobnicate"),
        _ => panic!("expected unknown"),
    }
}

#[test]
fn status_options() {
    let o = parse_status_args(&args(&[])).unwrap();
    assert!(!o.tmux);
    assert_eq!(o.max_len, 40);
    let o = parse_status_args(&args(&["--tmux", "--max-len", "12", "--max-len", "3"])).unwrap();
    assert!(o.tmux);
    assert_eq!(o.max_len, 3);
    let e = parse_status_args(&args(&["--max-len"])).unwrap_err();
    assert!(matches!(e, StatusArgsError::MissingMaxLen));
    assert_eq!(e.message(), "--max-len requires a value, e.g. --max-len 40");
    let e = parse_status_args(&args(&["--max-len", "-3"])).unwrap_err();
    assert_eq!(e.message(), "--max-len must be a non-negative integer, got '-3'");
    let e = parse_status_args(&args(&["--tmux", "--wide"])).unwrap_err();
    assert_eq!(e.message(), "unknown flag for 'enjo status': --wide");
}
