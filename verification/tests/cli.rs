use fir::cli::{parse, Error, Request};

fn args(list: &[&str]) -> Vec<String> {
    list.iter().map(|s| s.to_string()).collect()
}

#[test]
fn short_help_flag_wins() {
    assert!(matches!(parse(args(&["-h"])), Ok(Request::Help)));
    assert!(matches!(parse(args(&["a.png", "-h", "b.png"])), Ok(Request::Help)));
}

#[test]
fn long_help_flag_wins() {
    assert!(matches!(parse(args(&["--help"])), Ok(Request::Help)));
}

#[test]
fn version_flags_win() {
    assert!(matches!(parse(args(&["-v"])), Ok(Request::Version)));
    assert!(matches!(parse(args(&["a.png", "--version"])), Ok(Request::Version)));
}

#[test]
fn unknown_option_is_rejected() {
    assert!(matches!(
        parse(args(&["--frobnicate"])),
        Err(Error::UnrecognizedOption)
    ));
    assert!(matches!(parse(args(&["a.png", "-x"])), Err(Error::UnrecognizedOption)));
}

#[test]
fn no_arguments_is_missing_argument() {
    assert!(matches!(parse(args(&[])), Err(Error::MissingArgument)));
}

#[test]
fn plain_arguments_are_files() {
    match parse(args(&["a.png", "b.jpg"])) {
        Ok(Request::View { files }) => {
            assert_eq!(files, vec!["a.png".to_string(), "b.jpg".to_string()]);
        }
        other => panic!("expected View, got {other:?}"),
    }
}

#[test]
fn earlier_flag_beats_later_files() {
    // the first dash argument decides, files before it are dropped
    assert!(matches!(parse(args(&["a.png", "-v", "-h"])), Ok(Request::Version)));
}

#[test]
fn error_messages_name_the_fault() {
    assert_eq!(Error::MissingArgument.message(), "missing argument");
    assert_eq!(Error::UnrecognizedOption.message(), "invalid option");
}
