use dpm_level::args::{parse_args, usage, UsageError};
use dpm_level::level::PerfLevel;

fn args(words: &[&[u8]]) -> Vec<Vec<u8>> {
    words.iter().map(|word| word.to_vec()).collect()
}

#[test]
fn one_valid_token_is_accepted() {
    assert_eq!(parse_args(&args(&[b"low"])), Ok(PerfLevel::Low));
    assert_eq!(parse_args(&args(&[b"auto"])), Ok(PerfLevel::Auto));
    assert_eq!(parse_args(&args(&[b"high"])), Ok(PerfLevel::High));
}

#[test]
fn no_argument_is_missing() {
    assert_eq!(parse_args(&[]), Err(UsageError::Missing));
}

#[test]
fn unknown_word_is_an_invalid_level() {
    assert_eq!(
        parse_args(&args(&[b"turbo"])),
        Err(UsageError::InvalidLevel(b"turbo".to_vec()))
    );
    assert_eq!(parse_args(&args(&[b""])), Err(UsageError::InvalidLevel(Vec::new())));
    assert_eq!(parse_args(&args(&[b"LOW"])), Err(UsageError::InvalidLevel(b"LOW".to_vec())));
    assert_eq!(
        parse_args(&args(&[b"auto "])),
        Err(UsageError::InvalidLevel(b"auto ".to_vec()))
    );
}

#[test]
fn raw_bytes_are_matched_as_they_are() {
    let arg = vec![0x6c, 0x6f, 0x77, 0xff];
    assert_eq!(parse_args(&[arg.clone()]), Err(UsageError::InvalidLevel(arg)));
}

#[test]
fn second_argument_is_the_extra_one() {
    assert_eq!(
        parse_args(&args(&[b"low", b"high"])),
        Err(UsageError::ExtraArgument(b"high".to_vec()))
    );
    assert_eq!(
        parse_args(&args(&[b"turbo", b"auto"])),
        Err(UsageError::ExtraArgument(b"auto".to_vec()))
    );
    assert_eq!(
        parse_args(&args(&[b"auto", b"-v", b"more"])),
        Err(UsageError::ExtraArgument(b"-v".to_vec()))
    );
}

#[test]
fn usage_line_names_the_program_and_the_levels() {
    assert_eq!(usage("dpm-level"), "Usage: dpm-level [low|auto|high]");
    assert_eq!(usage(""), "Usage:  [low|auto|high]");
}

#[test]
fn message_for_a_missing_level() {
    assert_eq!(
        UsageError::Missing.message("dpm-level"),
        "dpm-level: missing performance level"
    );
}

#[test]
fn message_for_an_invalid_level_echoes_it() {
    let error = UsageError::InvalidLevel(b"turbo".to_vec());
    assert_eq!(error.message("dpm-level"), "dpm-level: invalid performance level: turbo");
}

#[test]
fn message_for_an_extra_argument_echoes_it() {
    let error = UsageError::ExtraArgument(b"high".to_vec());
    assert_eq!(error.message("dpm-level"), "dpm-level: invalid argument: high");
}

#[test]
fn echoed_argument_is_escaped() {
    let error = UsageError::InvalidLevel(b"lo\nw\x1b[31m\xff".to_vec());
    assert_eq!(
        error.message("dpm-level"),
        "dpm-level: invalid performance level: lo\\nw\\x1b[31m\\xff"
    );
    let error = UsageError::ExtraArgument(b"a \"b\"".to_vec());
    assert_eq!(error.message("p"), "p: invalid argument: a \\\"b\\\"");
}

#[test]
fn report_is_the_message_then_the_usage_line() {
    let error = UsageError::InvalidLevel(b"turbo".to_vec());
    assert_eq!(
        error.report("dpm-level"),
        vec![
            String::from("dpm-level: invalid performance level: turbo"),
            String::from("Usage: dpm-level [low|auto|high]"),
        ]
    );
    assert_eq!(
        UsageError::Missing.report("x"),
        vec![String::from("x: missing performance level"), String::from("Usage: x [low|auto|high]")]
    );
}

#[test]
fn turbo_is_refused_with_a_line_that_holds_the_word() {
    let error = parse_args(&args(&[b"turbo"])).unwrap_err();
    let lines = error.report("dpm-level");
    assert!(lines[0].contains("turbo"));
    assert!(lines[0].starts_with("dpm-level: "));
    assert_eq!(lines[1], usage("dpm-level"));
    assert!(lines.iter().all(|line| !line.contains('\n')));
}

#[test]
fn every_rejected_command_line_ends_with_the_usage_line() {
    let cases: Vec<Vec<Vec<u8>>> = vec![
        args(&[]),
        args(&[b"turbo"]),
        args(&[b"low", b"low"]),
        args(&[b"", b"", b""]),
        args(&[b"\xff"]),
    ];
    for case in cases {
        let error = parse_args(&case).unwrap_err();
        let lines = error.report("prog");
        assert_eq!(lines.len(), 2);
        assert_eq!(lines[1], "Usage: prog [low|auto|high]");
    }
}
