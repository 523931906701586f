use show::options::{ArgError, Options};

fn args(tokens: &[&str]) -> Vec<String> {
    tokens.iter().map(|t| t.to_string()).collect()
}

#[test]
fn new_options_are_empty() {
    let o = Options::new();
    assert!(!o.version);
    assert!(!o.verbose);
    assert_eq!(o.cmd.as_str(), "");
}

#[test]
fn no_arguments_keep_defaults() {
    let o = Options::parse_args_static(&args(&[])).unwrap();
    assert!(!o.version);
    assert!(!o.verbose);
    assert_eq!(o.cmd.as_str(), "");
}

#[test]
fn verbose_flag_and_command() {
    let o = Options::parse_args_static(&args(&["-V", "ip"])).unwrap();
    assert!(o.verbose);
    assert!(!o.version);
    assert_eq!(o.cmd.as_str(), "ip");
}

#[test]
fn long_flags_before_and_after_command() {
    let o = Options::parse_args_static(&args(&["--verbose", "time", "--version"])).unwrap();
    assert!(o.verbose);
    assert!(o.version);
    assert_eq!(o.cmd.as_str(), "time");
}

#[test]
fn short_version_flag_alone() {
    let o = Options::parse_args_static(&args(&["-v"])).unwrap();
    assert!(o.version);
    assert!(!o.verbose);
    assert_eq!(o.cmd.as_str(), "");
}

#[test]
fn unknown_option_is_rejected() {
    match Options::parse_args_static(&args(&["-x"])) {
        Err(ArgError::UnknownOption(t)) => assert_eq!(t.as_str(), "-x"),
        _ => panic!("expected an unknown-option error"),
    }
}

#[test]
fn second_positional_is_rejected() {
    match Options::parse_args_static(&args(&["ip", "time"])) {
        Err(ArgError::ExtraArgument(t)) => assert_eq!(t.as_str(), "time"),
        _ => panic!("expected an extra-argument error"),
    }
}

#[test]
fn help_flag_is_reported() {
    match Options::parse_args_static(&args(&["--help"])) {
        Err(ArgError::HelpRequested) => {},
        _ => panic!("expected a help request"),
    }
}

#[test]
fn single_dash_is_a_command_name() {
    let o = Options::parse_args_static(&args(&["-"])).unwrap();
    assert_eq!(o.cmd.as_str(), "-");
}

#[test]
fn parse_args_mutates_in_place() {
    let mut o = Options::new();
    o.parse_args(&args(&["-V", "cal"])).unwrap();
    assert!(o.verbose);
    assert_eq!(o.cmd.as_str(), "cal");
}

#[test]
fn parse_args_keeps_options_on_error() {
    let mut o = Options::new();
    let r = o.parse_args(&args(&["cal", "extra"]));
    assert!(r.is_err());
    assert_eq!(o.cmd.as_str(), "");
}
