use svgwatch::args::{
    check_if_dir, check_if_file, Config, ParseError, ParseStep, PathKind, PossibleArgs,
};
use svgwatch::which::WhichError;

type Lookup = Result<Option<String>, WhichError>;

fn words(args: &[&str]) -> Vec<String> {
    args.iter().map(|a| a.to_string()).collect()
}

fn found() -> Lookup {
    Ok(Some("/usr/bin/inkscape".to_string()))
}

fn failed(e: ParseError) -> ParseStep {
    ParseStep::Done(Err(e))
}

#[test]
fn options_are_known_by_their_spelling() {
    assert_eq!(PossibleArgs::from("--help"), PossibleArgs::Help);
    assert_eq!(PossibleArgs::from("-h"), PossibleArgs::Help);
    assert_eq!(PossibleArgs::from("--version"), PossibleArgs::Version);
    assert_eq!(PossibleArgs::from("-v"), PossibleArgs::Version);
    assert_eq!(PossibleArgs::from("--inkscape-path"), PossibleArgs::InkscapePath);
    assert_eq!(PossibleArgs::from("--aux-prefix"), PossibleArgs::AuxPrefix);
    assert_eq!(PossibleArgs::from("--do-not-regenerate"), PossibleArgs::DoNotRegenerate);
    assert_eq!(PossibleArgs::from("--not-recursively"), PossibleArgs::NotRecursively);
}

#[test]
fn anything_else_is_no_option() {
    assert_eq!(PossibleArgs::from(""), PossibleArgs::Other);
    assert_eq!(PossibleArgs::from("dir"), PossibleArgs::Other);
    assert_eq!(PossibleArgs::from("--Help"), PossibleArgs::Other);
    assert_eq!(PossibleArgs::from("--help "), PossibleArgs::Other);
    assert_eq!(PossibleArgs::from("--verbose"), PossibleArgs::Other);
}

#[test]
fn values_are_what_is_no_option() {
    assert!(PossibleArgs::is_not_an_arg("figures"));
    assert!(PossibleArgs::is_not_an_arg("-x"));
    assert!(!PossibleArgs::is_not_an_arg("-h"));
    assert!(!PossibleArgs::is_not_an_arg("--aux-prefix"));
}

#[test]
fn watch_root_has_to_be_a_directory() {
    assert_eq!(check_if_dir("w".to_string(), PathKind::Directory), Ok("w".to_string()));
    assert_eq!(
        check_if_dir("w".to_string(), PathKind::Missing),
        Err(ParseError::PathDoesNotExist("w".to_string()))
    );
    assert_eq!(
        check_if_dir("w".to_string(), PathKind::File),
        Err(ParseError::WatchPathIsNotDirectory("w".to_string()))
    );
    assert_eq!(
        check_if_dir("w".to_string(), PathKind::Other),
        Err(ParseError::WatchPathIsNotDirectory("w".to_string()))
    );
}

#[test]
fn renderer_has_to_be_a_file() {
    assert_eq!(check_if_file("i".to_string(), PathKind::File), Ok("i".to_string()));
    assert_eq!(
        check_if_file("i".to_string(), PathKind::Missing),
        Err(ParseError::PathDoesNotExist("i".to_string()))
    );
    assert_eq!(
        check_if_file("i".to_string(), PathKind::Directory),
        Err(ParseError::InkscapePathIsNotFile("i".to_string()))
    );
    assert_eq!(
        check_if_file("i".to_string(), PathKind::Other),
        Err(ParseError::InkscapePathIsNotFile("i".to_string()))
    );
}

#[test]
fn empty_command_line_misses_the_directory() {
    assert_eq!(
        Config::parse(&words(&[]), &vec![], None),
        failed(ParseError::MissingArgument("DIR".to_string()))
    );
}

#[test]
fn version_and_help_in_first_place() {
    assert_eq!(Config::parse(&words(&["--version"]), &vec![], None), failed(ParseError::Version));
    assert_eq!(Config::parse(&words(&["-v", "x"]), &vec![], None), failed(ParseError::Version));
    assert_eq!(Config::parse(&words(&["--help"]), &vec![], None), failed(ParseError::Help));
    assert_eq!(Config::parse(&words(&["--aux-prefix"]), &vec![], None), failed(ParseError::Help));
}

#[test]
fn version_after_the_directory_asks_for_help() {
    let args = words(&["w", "--version"]);
    assert_eq!(Config::parse(&args, &vec![PathKind::Directory], None), failed(ParseError::Help));
}

#[test]
fn root_is_probed_first() {
    let args = words(&["w", "--bogus"]);
    assert_eq!(Config::parse(&args, &vec![], None), ParseStep::ProbePath("w".to_string()));
    assert_eq!(
        Config::parse(&args, &vec![PathKind::Missing], None),
        failed(ParseError::PathDoesNotExist("w".to_string()))
    );
    assert_eq!(
        Config::parse(&args, &vec![PathKind::Directory], None),
        failed(ParseError::UnexpectedArgument("Not a valid argument -> --bogus <-".to_string()))
    );
}

#[test]
fn defaults_with_a_found_renderer() {
    let args = words(&["w"]);
    let kinds = vec![PathKind::Directory];
    assert_eq!(Config::parse(&args, &kinds, None), ParseStep::LocateRenderer);
    let lookup = found();
    assert_eq!(
        Config::parse(&args, &kinds, Some(&lookup)),
        ParseStep::Done(Ok(Config {
            watch_dir: "w".to_string(),
            inkscape_path: "/usr/bin/inkscape".to_string(),
            aux_prefix: String::new(),
            regenerate: true,
            recursively: true,
        }))
    );
}

#[test]
fn renderer_that_is_nowhere() {
    let lookup: Lookup = Ok(None);
    assert_eq!(
        Config::parse(&words(&["w"]), &vec![PathKind::Directory], Some(&lookup)),
        failed(ParseError::NotInPath("inkscape".to_string()))
    );
}

#[test]
fn search_that_failed() {
    let lookup: Lookup = Err(WhichError::VarError("not set".to_string()));
    assert_eq!(
        Config::parse(&words(&["w"]), &vec![PathKind::Directory], Some(&lookup)),
        failed(ParseError::WhichError(WhichError::VarError("not set".to_string())))
    );
}

#[test]
fn given_renderer_is_probed_and_not_searched() {
    let args = words(&["w", "--inkscape-path", "/opt/ink"]);
    assert_eq!(
        Config::parse(&args, &vec![PathKind::Directory], None),
        ParseStep::ProbePath("/opt/ink".to_string())
    );
    let kinds = vec![PathKind::Directory, PathKind::File];
    assert_eq!(
        Config::parse(&args, &kinds, None),
        ParseStep::Done(Ok(Config {
            watch_dir: "w".to_string(),
            inkscape_path: "/opt/ink".to_string(),
            aux_prefix: String::new(),
            regenerate: true,
            recursively: true,
        }))
    );
}

#[test]
fn given_renderer_has_to_be_a_file() {
    let args = words(&["w", "--inkscape-path", "/opt/ink"]);
    assert_eq!(
        Config::parse(&args, &vec![PathKind::Directory, PathKind::Missing], None),
        failed(ParseError::PathDoesNotExist("/opt/ink".to_string()))
    );
    assert_eq!(
        Config::parse(&args, &vec![PathKind::Directory, PathKind::Directory], None),
        failed(ParseError::InkscapePathIsNotFile("/opt/ink".to_string()))
    );
}

#[test]
fn option_values_may_be_missing_or_options() {
    let kinds = vec![PathKind::Directory];
    assert_eq!(
        Config::parse(&words(&["w", "--inkscape-path"]), &kinds, None),
        failed(ParseError::MissingArgument("--inkscape-path -> [PATH] <-".to_string()))
    );
    assert_eq!(
        Config::parse(&words(&["w", "--inkscape-path", "-h"]), &kinds, None),
        failed(ParseError::UnexpectedArgument("--inkscape-path -> [PATH] <-".to_string()))
    );
    assert_eq!(
        Config::parse(&words(&["w", "--aux-prefix"]), &kinds, None),
        failed(ParseError::MissingArgument("--aux-prefix -> [PREFIX] <-".to_string()))
    );
    assert_eq!(
        Config::parse(&words(&["w", "--aux-prefix", "--not-recursively"]), &kinds, None),
        failed(ParseError::UnexpectedArgument("--aux-prefix -> [PREFIX] <-".to_string()))
    );
}

#[test]
fn every_option_at_once() {
    let args = words(&[
        "w",
        "--do-not-regenerate",
        "--aux-prefix",
        "gen_",
        "--inkscape-path",
        "ink",
        "--not-recursively",
    ]);
    let kinds = vec![PathKind::Directory, PathKind::File];
    assert_eq!(
        Config::parse(&args, &kinds, None),
        ParseStep::Done(Ok(Config {
            watch_dir: "w".to_string(),
            inkscape_path: "ink".to_string(),
            aux_prefix: "gen_".to_string(),
            regenerate: false,
            recursively: false,
        }))
    );
}

#[test]
fn later_option_overrides_earlier() {
    let args =
        words(&["w", "--inkscape-path", "one", "--aux-prefix", "a", "--inkscape-path", "two"]);
    let kinds = vec![PathKind::Directory, PathKind::File];
    assert_eq!(Config::parse(&args, &kinds, None), ParseStep::ProbePath("two".to_string()));
    let kinds = vec![PathKind::Directory, PathKind::File, PathKind::File];
    match Config::parse(&args, &kinds, None) {
        ParseStep::Done(Ok(config)) => {
            assert_eq!(config.inkscape_path, "two");
            assert_eq!(config.aux_prefix, "a");
        }
        other => panic!("unexpected step {:?}", other),
    }
}

#[test]
fn first_fault_ends_the_reading() {
    let args = words(&["w", "--inkscape-path", "ink", "stray"]);
    let kinds = vec![PathKind::Directory, PathKind::Missing];
    assert_eq!(
        Config::parse(&args, &kinds, None),
        failed(ParseError::PathDoesNotExist("ink".to_string()))
    );
    let kinds = vec![PathKind::Directory, PathKind::File];
    assert_eq!(
        Config::parse(&args, &kinds, None),
        failed(ParseError::UnexpectedArgument("Not a valid argument -> stray <-".to_string()))
    );
}

#[test]
fn asking_again_with_each_answer_ends() {
    let args = words(&["w", "--inkscape-path", "a", "--inkscape-path", "b"]);
    let mut kinds = Vec::new();
    let mut asked = Vec::new();
    let config = loop {
        match Config::parse(&args, &kinds, None) {
            ParseStep::ProbePath(path) => {
                asked.push(path);
                kinds.push(if kinds.is_empty() { PathKind::Directory } else { PathKind::File });
            }
            ParseStep::LocateRenderer => panic!("the renderer was given"),
            ParseStep::Done(result) => break result.unwrap(),
        }
    };
    assert_eq!(asked, vec!["w".to_string(), "a".to_string(), "b".to_string()]);
    assert_eq!(config.inkscape_path, "b");
}
