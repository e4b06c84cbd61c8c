//! The command line: what each argument means, and the configuration that
//! a whole command line gives.
//!
//! Reading the command line needs answers from outside: what is at a path,
//! and where the renderer is. [`Config::parse`] is given the answers that
//! are known so far and either ends, or names the next question; it is then
//! called again with that answer added.

use vstd::prelude::*;
use vstd::string::*;
use crate::text::{str_eq, texts};
use crate::which::WhichError;

verus! {

/// Name under which the renderer is looked for where no path is given.
pub const INKSCAPE_BIN: &'static str = "inkscape";

/// What the filesystem has at a path.
#[derive(Debug, Clone, Copy, PartialEq, Eq, Structural)]
pub enum PathKind {
    /// Nothing.
    Missing,
    /// A directory.
    Directory,
    /// A regular file.
    File,
    /// Something else.
    Other,
}

/// Why the command line gives no configuration.
#[derive(Debug, Clone, PartialEq, Eq)]
pub enum ParseError {
    WatchPathIsNotDirectory(String),
    InkscapePathIsNotFile(String),
    PathDoesNotExist(String),
    NotInPath(String),
    WhichError(WhichError),
    MissingArgument(String),
    UnexpectedArgument(String),
    /// The help text was asked for.
    Help,
    /// The version was asked for.
    Version,
}

/// A [`ParseError`] with its texts as sequences of characters.
pub enum ParseFailure {
    WatchPathIsNotDirectory(Seq<char>),
    InkscapePathIsNotFile(Seq<char>),
    PathDoesNotExist(Seq<char>),
    NotInPath(Seq<char>),
    WhichError(Seq<char>),
    MissingArgument(Seq<char>),
    UnexpectedArgument(Seq<char>),
    Help,
    Version,
}

impl View for ParseError {
    type V = ParseFailure;

    open spec fn view(&self) -> ParseFailure {
        match self {
            ParseError::WatchPathIsNotDirectory(p) => ParseFailure::WatchPathIsNotDirectory(p@),
            ParseError::InkscapePathIsNotFile(p) => ParseFailure::InkscapePathIsNotFile(p@),
            ParseError::PathDoesNotExist(p) => ParseFailure::PathDoesNotExist(p@),
            ParseError::NotInPath(name) => ParseFailure::NotInPath(name@),
            ParseError::WhichError(WhichError::VarError(why)) => ParseFailure::WhichError(why@),
            ParseError::MissingArgument(what) => ParseFailure::MissingArgument(what@),
            ParseError::UnexpectedArgument(what) => ParseFailure::UnexpectedArgument(what@),
            ParseError::Help => ParseFailure::Help,
            ParseError::Version => ParseFailure::Version,
        }
    }
}

/// What the watcher runs with. It is made once, before anything runs, and
/// only read afterwards.
#[derive(Debug, Clone, PartialEq, Eq)]
pub struct Config {
    /// Root of the watch; a directory.
    pub watch_dir: String,
    /// The renderer; a regular file.
    pub inkscape_path: String,
    /// Put before the name of each derived file.
    pub aux_prefix: String,
    /// Whether every source is rendered once at startup.
    pub regenerate: bool,
    /// Whether subdirectories are walked and watched.
    pub recursively: bool,
}

/// A [`Config`] with its texts as sequences of characters.
pub struct Settings {
    pub watch_dir: Seq<char>,
    pub inkscape_path: Seq<char>,
    pub aux_prefix: Seq<char>,
    pub regenerate: bool,
    pub recursively: bool,
}

impl View for Config {
    type V = Settings;

    open spec fn view(&self) -> Settings {
        Settings {
            watch_dir: self.watch_dir@,
            inkscape_path: self.inkscape_path@,
            aux_prefix: self.aux_prefix@,
            regenerate: self.regenerate,
            recursively: self.recursively,
        }
    }
}

/// What an argument is.
#[derive(Debug, Clone, Copy, PartialEq, Eq, Structural)]
pub enum PossibleArgs {
    Help,
    Version,
    InkscapePath,
    AuxPrefix,
    DoNotRegenerate,
    NotRecursively,
    Other,
}

/// What the argument `arg` is: one of the options by its exact spelling,
/// and anything else otherwise.
pub open spec fn arg_meaning(arg: Seq<char>) -> PossibleArgs {
    if arg == "--help"@ || arg == "-h"@ {
        PossibleArgs::Help
    } else if arg == "--version"@ || arg == "-v"@ {
        PossibleArgs::Version
    } else if arg == "--inkscape-path"@ {
        PossibleArgs::InkscapePath
    } else if arg == "--aux-prefix"@ {
        PossibleArgs::AuxPrefix
    } else if arg == "--do-not-regenerate"@ {
        PossibleArgs::DoNotRegenerate
    } else if arg == "--not-recursively"@ {
        PossibleArgs::NotRecursively
    } else {
        PossibleArgs::Other
    }
}

impl PossibleArgs {
    /// Tells what an argument is.
    pub fn from(arg: &str) -> (meaning: PossibleArgs)
        ensures
            meaning == arg_meaning(arg@),
    {
        if str_eq(arg, "--help") || str_eq(arg, "-h") {
            PossibleArgs::Help
        } else if str_eq(arg, "--version") || str_eq(arg, "-v") {
            PossibleArgs::Version
        } else if str_eq(arg, "--inkscape-path") {
            PossibleArgs::InkscapePath
        } else if str_eq(arg, "--aux-prefix") {
            PossibleArgs::AuxPrefix
        } else if str_eq(arg, "--do-not-regenerate") {
            PossibleArgs::DoNotRegenerate
        } else if str_eq(arg, "--not-recursively") {
            PossibleArgs::NotRecursively
        } else {
            PossibleArgs::Other
        }
    }

    /// Whether `str` is none of the options, and so can be an option's
    /// value.
    pub fn is_not_an_arg(str: &str) -> (free: bool)
        ensures
            free == (arg_meaning(str@) == PossibleArgs::Other),
    {
        match PossibleArgs::from(str) {
            PossibleArgs::Other => true,
            _ => false,
        }
    }
}

/// What is wrong with `path` as the watch root, if anything: it has to
/// exist and to be a directory.
pub open spec fn dir_fault(path: Seq<char>, kind: PathKind) -> Option<ParseFailure> {
    match kind {
        PathKind::Missing => Some(ParseFailure::PathDoesNotExist(path)),
        PathKind::Directory => None,
        _ => Some(ParseFailure::WatchPathIsNotDirectory(path)),
    }
}

/// What is wrong with `path` as the renderer, if anything: it has to exist
/// and to be a regular file. Whether it can be executed shows when it is
/// run.
pub open spec fn file_fault(path: Seq<char>, kind: PathKind) -> Option<ParseFailure> {
    match kind {
        PathKind::Missing => Some(ParseFailure::PathDoesNotExist(path)),
        PathKind::File => None,
        _ => Some(ParseFailure::InkscapePathIsNotFile(path)),
    }
}

/// Accepts `path` as the watch root where `kind`, which is what the
/// filesystem has there, is a directory.
pub fn check_if_dir(path: String, kind: PathKind) -> (r: Result<String, ParseError>)
    ensures
        match r {
            Ok(p) => p == path && dir_fault(path@, kind) is None,
            Err(e) => dir_fault(path@, kind) == Some(e@),
        },
{
    match kind {
        PathKind::Missing => Err(ParseError::PathDoesNotExist(path)),
        PathKind::Directory => Ok(path),
        _ => Err(ParseError::WatchPathIsNotDirectory(path)),
    }
}

/// Accepts `path` as the renderer where `kind`, which is what the
/// filesystem has there, is a regular file.
pub fn check_if_file(path: String, kind: PathKind) -> (r: Result<String, ParseError>)
    ensures
        match r {
            Ok(p) => p == path && file_fault(path@, kind) is None,
            Err(e) => file_fault(path@, kind) == Some(e@),
        },
{
    match kind {
        PathKind::Missing => Err(ParseError::PathDoesNotExist(path)),
        PathKind::File => Ok(path),
        _ => Err(ParseError::InkscapePathIsNotFile(path)),
    }
}

/// Where reading the command line stands.
#[derive(Debug, PartialEq, Eq)]
pub enum ParseStep {
    /// It has to be known what is at this path. The answer is added to the
    /// end of the known kinds.
    ProbePath(String),
    /// The renderer has to be looked for under [`INKSCAPE_BIN`].
    LocateRenderer,
    /// Reading has ended.
    Done(Result<Config, ParseError>),
}

/// A [`ParseStep`] with its texts as sequences of characters.
pub enum Outcome {
    ProbePath(Seq<char>),
    LocateRenderer,
    Ready(Settings),
    Failed(ParseFailure),
}

impl View for ParseStep {
    type V = Outcome;

    open spec fn view(&self) -> Outcome {
        match self {
            ParseStep::ProbePath(p) => Outcome::ProbePath(p@),
            ParseStep::LocateRenderer => Outcome::LocateRenderer,
            ParseStep::Done(Ok(config)) => Outcome::Ready(config@),
            ParseStep::Done(Err(e)) => Outcome::Failed(e@),
        }
    }
}

/// What looking for the renderer gave.
pub enum Lookup {
    Found(Seq<char>),
    NotFound,
    Failed(Seq<char>),
}

/// What a finished search for the renderer says.
pub open spec fn lookup_of(found: Result<Option<String>, WhichError>) -> Lookup {
    match found {
        Ok(Some(path)) => Lookup::Found(path@),
        Ok(None) => Lookup::NotFound,
        Err(WhichError::VarError(why)) => Lookup::Failed(why@),
    }
}

/// What has been read of the options so far.
pub struct Draft {
    pub watch_dir: Seq<char>,
    pub inkscape_path: Option<Seq<char>>,
    pub aux_prefix: Seq<char>,
    pub regenerate: bool,
    pub recursively: bool,
}

/// The configuration that a draft gives once the renderer's path is known.
pub open spec fn settled(draft: Draft, inkscape_path: Seq<char>) -> Settings {
    Settings {
        watch_dir: draft.watch_dir,
        inkscape_path,
        aux_prefix: draft.aux_prefix,
        regenerate: draft.regenerate,
        recursively: draft.recursively,
    }
}

/// How reading ends once every argument is read: with the renderer that
/// was given, or else with the one that is found under its usual name.
pub open spec fn conclude(draft: Draft, renderer: Option<Lookup>) -> Outcome {
    match draft.inkscape_path {
        Some(path) => Outcome::Ready(settled(draft, path)),
        None => match renderer {
            None => Outcome::LocateRenderer,
            Some(Lookup::Found(path)) => Outcome::Ready(settled(draft, path)),
            Some(Lookup::NotFound) => Outcome::Failed(ParseFailure::NotInPath(INKSCAPE_BIN@)),
            Some(Lookup::Failed(why)) => Outcome::Failed(ParseFailure::WhichError(why)),
        },
    }
}

/// Reads the options from position `pos` on. `used` counts the known
/// kinds that earlier arguments have taken.
///
/// Options are read from left to right and the first fault ends the
/// reading. `--inkscape-path` and `--aux-prefix` take the next argument,
/// which may not be an option; the renderer's path is then probed.
/// `--do-not-regenerate` and `--not-recursively` switch their setting off.
/// A later option overrides an earlier one of its kind.
pub open spec fn read_options(
    args: Seq<Seq<char>>,
    pos: int,
    kinds: Seq<PathKind>,
    used: int,
    draft: Draft,
    renderer: Option<Lookup>,
) -> Outcome
    decreases args.len() - pos,
{
    if pos < 0 || pos >= args.len() {
        conclude(draft, renderer)
    } else {
        match arg_meaning(args[pos]) {
            PossibleArgs::Help | PossibleArgs::Version => Outcome::Failed(ParseFailure::Help),
            PossibleArgs::InkscapePath => {
                if pos + 1 >= args.len() {
                    Outcome::Failed(
                        ParseFailure::MissingArgument("--inkscape-path -> [PATH] <-"@),
                    )
                } else if arg_meaning(args[pos + 1]) != PossibleArgs::Other {
                    Outcome::Failed(
                        ParseFailure::UnexpectedArgument("--inkscape-path -> [PATH] <-"@),
                    )
                } else if used < 0 || used >= kinds.len() {
                    Outcome::ProbePath(args[pos + 1])
                } else {
                    match file_fault(args[pos + 1], kinds[used]) {
                        Some(fault) => Outcome::Failed(fault),
                        None => read_options(
                            args,
                            pos + 2,
                            kinds,
                            used + 1,
                            Draft { inkscape_path: Some(args[pos + 1]), ..draft },
                            renderer,
                        ),
                    }
                }
            },
            PossibleArgs::AuxPrefix => {
                if pos + 1 >= args.len() {
                    Outcome::Failed(ParseFailure::MissingArgument("--aux-prefix -> [PREFIX] <-"@))
                } else if arg_meaning(args[pos + 1]) != PossibleArgs::Other {
                    Outcome::Failed(
                        ParseFailure::UnexpectedArgument("--aux-prefix -> [PREFIX] <-"@),
                    )
                } else {
                    read_options(
                        args,
                        pos + 2,
                        kinds,
                        used,
                        Draft { aux_prefix: args[pos + 1], ..draft },
                        renderer,
                    )
                }
            },
            PossibleArgs::DoNotRegenerate => read_options(
                args,
                pos + 1,
                kinds,
                used,
                Draft { regenerate: false, ..draft },
                renderer,
            ),
            PossibleArgs::NotRecursively => read_options(
                args,
                pos + 1,
                kinds,
                used,
                Draft { recursively: false, ..draft },
                renderer,
            ),
            PossibleArgs::Other => Outcome::Failed(
                ParseFailure::UnexpectedArgument(
                    "Not a valid argument -> "@ + args[pos] + " <-"@,
                ),
            ),
        }
    }
}

/// Where reading the arguments `args` stands, given the kinds of the paths
/// probed so far, in the order in which they were asked for, and what the
/// search for the renderer gave, if it was made.
///
/// The first argument is the watch root; where it is an option instead,
/// the version or the help text is asked for. The root is probed before
/// the options are read, and without other word the prefix is empty and
/// both settings are on.
pub open spec fn parse_outcome(
    args: Seq<Seq<char>>,
    kinds: Seq<PathKind>,
    renderer: Option<Lookup>,
) -> Outcome {
    if args.len() == 0 {
        Outcome::Failed(ParseFailure::MissingArgument("DIR"@))
    } else {
        match arg_meaning(args[0]) {
            PossibleArgs::Other => {
                if kinds.len() == 0 {
                    Outcome::ProbePath(args[0])
                } else {
                    match dir_fault(args[0], kinds[0]) {
                        Some(fault) => Outcome::Failed(fault),
                        None => read_options(
                            args,
                            1,
                            kinds,
                            1,
                            Draft {
                                watch_dir: args[0],
                                inkscape_path: None,
                                aux_prefix: Seq::empty(),
                                regenerate: true,
                                recursively: true,
                            },
                            renderer,
                        ),
                    }
                }
            },
            PossibleArgs::Version => Outcome::Failed(ParseFailure::Version),
            _ => Outcome::Failed(ParseFailure::Help),
        }
    }
}

/// What is known of the search for the renderer.
pub open spec fn lookup_known(renderer: Option<&Result<Option<String>, WhichError>>) -> Option<
    Lookup,
> {
    match renderer {
        Some(found) => Some(lookup_of(*found)),
        None => None,
    }
}

impl Config {
    /// Ends the reading with the renderer's path, given or found.
    pub fn finish(
        watch_dir: String,
        inkscape_path: Option<String>,
        aux_prefix: String,
        regenerate: bool,
        recursively: bool,
        renderer: Option<&Result<Option<String>, WhichError>>,
    ) -> (step: ParseStep)
        ensures
            step@ == conclude(
                Draft {
                    watch_dir: watch_dir@,
                    inkscape_path: crate::text::opt_text(inkscape_path),
                    aux_prefix: aux_prefix@,
                    regenerate,
                    recursively,
                },
                lookup_known(renderer),
            ),
    {
        let inkscape_path = match inkscape_path {
            Some(path) => path,
            None => match renderer {
                None => {
                    return ParseStep::LocateRenderer;
                },
                Some(Ok(Some(path))) => path.clone(),
                Some(Ok(None)) => {
                    return ParseStep::Done(
                        Err(ParseError::NotInPath(String::from_str(INKSCAPE_BIN))),
                    );
                },
                Some(Err(WhichError::VarError(why))) => {
                    return ParseStep::Done(
                        Err(ParseError::WhichError(WhichError::VarError(why.clone()))),
                    );
                },
            },
        };
        ParseStep::Done(
            Ok(Config { watch_dir, inkscape_path, aux_prefix, regenerate, recursively }),
        )
    }

    /// Reads the command line `args`, which starts after the program's
    /// name.
    ///
    /// `kinds` holds what the filesystem has at each path that an earlier
    /// call asked about, in the order of asking; `renderer` holds what the
    /// search for the renderer gave, where an earlier call asked for it.
    /// With nothing known yet, pass an empty `kinds` and `None`.
    pub fn parse(
        args: &Vec<String>,
        kinds: &Vec<PathKind>,
        renderer: Option<&Result<Option<String>, WhichError>>,
    ) -> (step: ParseStep)
        ensures
            step@ == parse_outcome(texts(args@), kinds@, lookup_known(renderer)),
    {
        let ghost words = texts(args@);
        let ghost known = lookup_known(renderer);
        if args.len() == 0 {
            return ParseStep::Done(Err(ParseError::MissingArgument(String::from_str("DIR"))));
        }
        let first = &args[0];
        assert(words[0] == first@);
        match PossibleArgs::from(first.as_str()) {
            PossibleArgs::Other => {},
            PossibleArgs::Version => {
                return ParseStep::Done(Err(ParseError::Version));
            },
            _ => {
                return ParseStep::Done(Err(ParseError::Help));
            },
        }
        if kinds.len() == 0 {
            return ParseStep::ProbePath(first.clone());
        }
        let watch_dir = match check_if_dir(first.clone(), kinds[0]) {
            Ok(path) => path,
            Err(e) => {
                return ParseStep::Done(Err(e));
            },
        };

        let mut inkscape_path: Option<String> = None;
        let mut aux_prefix = String::new();
        let mut regenerate = true;
        let mut recursively = true;
        let mut used: usize = 1;
        let mut pos: usize = 1;

        while pos < args.len()
            invariant
                1 <= pos <= args.len() + 1,
                1 <= used <= kinds.len(),
                words == texts(args@),
                known == lookup_known(renderer),
                parse_outcome(words, kinds@, known) == read_options(
                    words,
                    pos as int,
                    kinds@,
                    used as int,
                    Draft {
                        watch_dir: watch_dir@,
                        inkscape_path: crate::text::opt_text(inkscape_path),
                        aux_prefix: aux_prefix@,
                        regenerate,
                        recursively,
                    },
                    known,
                ),
            decreases args.len() + 1 - pos,
        {
            let arg = &args[pos];
            assert(words[pos as int] == arg@);
            match PossibleArgs::from(arg.as_str()) {
                PossibleArgs::Help | PossibleArgs::Version => {
                    return ParseStep::Done(Err(ParseError::Help));
                },
                PossibleArgs::InkscapePath => {
                    if pos + 1 >= args.len() {
                        return ParseStep::Done(
                            Err(
                                ParseError::MissingArgument(
                                    String::from_str("--inkscape-path -> [PATH] <-"),
                                ),
                            ),
                        );
                    }
                    let path = &args[pos + 1];
                    assert(words[pos + 1] == path@);
                    if !PossibleArgs::is_not_an_arg(path.as_str()) {
                        return ParseStep::Done(
                            Err(
                                ParseError::UnexpectedArgument(
                                    String::from_str("--inkscape-path -> [PATH] <-"),
                                ),
                            ),
                        );
                    }
                    if used >= kinds.len() {
                        return ParseStep::ProbePath(path.clone());
                    }
                    match check_if_file(path.clone(), kinds[used]) {
                        Ok(checked) => {
                            inkscape_path = Some(checked);
                        },
                        Err(e) => {
                            return ParseStep::Done(Err(e));
                        },
                    }
                    used += 1;
                    pos += 2;
                },
                PossibleArgs::AuxPrefix => {
                    if pos + 1 >= args.len() {
                        return ParseStep::Done(
                            Err(
                                ParseError::MissingArgument(
                                    String::from_str("--aux-prefix -> [PREFIX] <-"),
                                ),
                            ),
                        );
                    }
                    let prefix = &args[pos + 1];
                    assert(words[pos + 1] == prefix@);
                    if !PossibleArgs::is_not_an_arg(prefix.as_str()) {
                        return ParseStep::Done(
                            Err(
                                ParseError::UnexpectedArgument(
                                    String::from_str("--aux-prefix -> [PREFIX] <-"),
                                ),
                            ),
                        );
                    }
                    aux_prefix = prefix.clone();
                    pos += 2;
                },
                PossibleArgs::DoNotRegenerate => {
                    regenerate = false;
                    pos += 1;
                },
                PossibleArgs::NotRecursively => {
                    recursively = false;
                    pos += 1;
                },
                PossibleArgs::Other => {
                    return ParseStep::Done(
                        Err(
                            ParseError::UnexpectedArgument(
                                String::from_str("Not a valid argument -> ").concat(
                                    arg.as_str(),
                                ).concat(" <-"),
                            ),
                        ),
                    );
                },
            }
        }
        Config::finish(watch_dir, inkscape_path, aux_prefix, regenerate, recursively, renderer)
    }
}

/// Whether reading has ended.
pub open spec fn is_final(outcome: Outcome) -> bool {
    outcome is Ready || outcome is Failed
}

/// Once reading the options has ended, further answers change nothing.
pub proof fn lemma_read_options_stable(
    args: Seq<Seq<char>>,
    pos: int,
    kinds: Seq<PathKind>,
    more: Seq<PathKind>,
    used: int,
    draft: Draft,
    renderer: Option<Lookup>,
)
    requires
        0 <= used,
        is_final(read_options(args, pos, kinds, used, draft, renderer)),
    ensures
        read_options(args, pos, kinds + more, used, draft, renderer) == read_options(
            args,
            pos,
            kinds,
            used,
            draft,
            renderer,
        ),
    decreases args.len() - pos,
{
    if 0 <= pos < args.len() {
        match arg_meaning(args[pos]) {
            PossibleArgs::InkscapePath => {
                if pos + 1 < args.len() && arg_meaning(args[pos + 1]) == PossibleArgs::Other
                    && used < kinds.len() {
                    assert((kinds + more)[used] == kinds[used]);
                    if file_fault(args[pos + 1], kinds[used]) is None {
                        lemma_read_options_stable(
                            args,
                            pos + 2,
                            kinds,
                            more,
                            used + 1,
                            Draft { inkscape_path: Some(args[pos + 1]), ..draft },
                            renderer,
                        );
                    }
                }
            },
            PossibleArgs::AuxPrefix => {
                if pos + 1 < args.len() && arg_meaning(args[pos + 1]) == PossibleArgs::Other {
                    lemma_read_options_stable(
                        args,
                        pos + 2,
                        kinds,
                        more,
                        used,
                        Draft { aux_prefix: args[pos + 1], ..draft },
                        renderer,
                    );
                }
            },
            PossibleArgs::DoNotRegenerate => {
                lemma_read_options_stable(
                    args,
                    pos + 1,
                    kinds,
                    more,
                    used,
                    Draft { regenerate: false, ..draft },
                    renderer,
                );
            },
            PossibleArgs::NotRecursively => {
                lemma_read_options_stable(
                    args,
                    pos + 1,
                    kinds,
                    more,
                    used,
                    Draft { recursively: false, ..draft },
                    renderer,
                );
            },
            _ => {},
        }
    }
}

/// Once reading the command line has ended, with a configuration or with
/// a fault, answers to questions that were never asked change nothing.
pub proof fn lemma_final_outcome_stands(
    args: Seq<Seq<char>>,
    kinds: Seq<PathKind>,
    more: Seq<PathKind>,
    renderer: Option<Lookup>,
)
    requires
        is_final(parse_outcome(args, kinds, renderer)),
    ensures
        parse_outcome(args, kinds + more, renderer) == parse_outcome(args, kinds, renderer),
{
    if args.len() > 0 && arg_meaning(args[0]) == PossibleArgs::Other {
        assert(kinds.len() > 0);
        assert((kinds + more)[0] == kinds[0]);
        if dir_fault(args[0], kinds[0]) is None {
            lemma_read_options_stable(
                args,
                1,
                kinds,
                more,
                1,
                Draft {
                    watch_dir: args[0],
                    inkscape_path: None,
                    aux_prefix: Seq::empty(),
                    regenerate: true,
                    recursively: true,
                },
                renderer,
            );
        }
    }
}

/// Where the options give a configuration, its watch root is the draft's,
/// and its renderer is the draft's, or was probed as a regular file, or
/// was found by the search.
pub proof fn lemma_read_options_checked(
    args: Seq<Seq<char>>,
    pos: int,
    kinds: Seq<PathKind>,
    used: int,
    draft: Draft,
    renderer: Option<Lookup>,
)
    requires
        0 <= used,
        read_options(args, pos, kinds, used, draft, renderer) is Ready,
    ensures
        ({
            let settings = read_options(args, pos, kinds, used, draft, renderer)->Ready_0;
            &&& settings.watch_dir == draft.watch_dir
            &&& (draft.inkscape_path == Some(settings.inkscape_path) || renderer == Some(
                Lookup::Found(settings.inkscape_path),
            ) || exists|k: int| used <= k < kinds.len() && #[trigger] kinds[k] == PathKind::File)
        }),
    decreases args.len() - pos,
{
    if 0 <= pos < args.len() {
        match arg_meaning(args[pos]) {
            PossibleArgs::InkscapePath => {
                lemma_read_options_checked(
                    args,
                    pos + 2,
                    kinds,
                    used + 1,
                    Draft { inkscape_path: Some(args[pos + 1]), ..draft },
                    renderer,
                );
                assert(kinds[used] == PathKind::File);
            },
            PossibleArgs::AuxPrefix => {
                lemma_read_options_checked(
                    args,
                    pos + 2,
                    kinds,
                    used,
                    Draft { aux_prefix: args[pos + 1], ..draft },
                    renderer,
                );
            },
            PossibleArgs::DoNotRegenerate => {
                lemma_read_options_checked(
                    args,
                    pos + 1,
                    kinds,
                    used,
                    Draft { regenerate: false, ..draft },
                    renderer,
                );
            },
            PossibleArgs::NotRecursively => {
                lemma_read_options_checked(
                    args,
                    pos + 1,
                    kinds,
                    used,
                    Draft { recursively: false, ..draft },
                    renderer,
                );
            },
            _ => {},
        }
    }
}

/// A configuration is never given for a watch root that was not probed as
/// a directory, nor with a renderer that was neither probed as a regular
/// file nor found by the search.
pub proof fn lemma_configuration_is_checked(
    args: Seq<Seq<char>>,
    kinds: Seq<PathKind>,
    renderer: Option<Lookup>,
)
    requires
        parse_outcome(args, kinds, renderer) is Ready,
    ensures
        ({
            let settings = parse_outcome(args, kinds, renderer)->Ready_0;
            &&& args.len() > 0
            &&& kinds.len() > 0
            &&& kinds[0] == PathKind::Directory
            &&& settings.watch_dir == args[0]
            &&& (renderer == Some(Lookup::Found(settings.inkscape_path)) || exists|k: int|
                1 <= k < kinds.len() && #[trigger] kinds[k] == PathKind::File)
        }),
{
    lemma_read_options_checked(
        args,
        1,
        kinds,
        1,
        Draft {
            watch_dir: args[0],
            inkscape_path: None,
            aux_prefix: Seq::empty(),
            regenerate: true,
            recursively: true,
        },
        renderer,
    );
}

/// A question about a path while the options are read belongs to an
/// argument of its own: there are fewer answers so far than arguments.
pub proof fn lemma_read_options_asks_in_bounds(
    args: Seq<Seq<char>>,
    pos: int,
    kinds: Seq<PathKind>,
    used: int,
    draft: Draft,
    renderer: Option<Lookup>,
)
    requires
        0 <= used <= pos,
        read_options(args, pos, kinds, used, draft, renderer) is ProbePath,
    ensures
        kinds.len() < args.len(),
    decreases args.len() - pos,
{
    if 0 <= pos < args.len() {
        match arg_meaning(args[pos]) {
            PossibleArgs::InkscapePath => {
                if used < kinds.len() {
                    lemma_read_options_asks_in_bounds(
                        args,
                        pos + 2,
                        kinds,
                        used + 1,
                        Draft { inkscape_path: Some(args[pos + 1]), ..draft },
                        renderer,
                    );
                }
            },
            PossibleArgs::AuxPrefix => {
                lemma_read_options_asks_in_bounds(
                    args,
                    pos + 2,
                    kinds,
                    used,
                    Draft { aux_prefix: args[pos + 1], ..draft },
                    renderer,
                );
            },
            PossibleArgs::DoNotRegenerate => {
                lemma_read_options_asks_in_bounds(
                    args,
                    pos + 1,
                    kinds,
                    used,
                    Draft { regenerate: false, ..draft },
                    renderer,
                );
            },
            PossibleArgs::NotRecursively => {
                lemma_read_options_asks_in_bounds(
                    args,
                    pos + 1,
                    kinds,
                    used,
                    Draft { recursively: false, ..draft },
                    renderer,
                );
            },
            _ => {},
        }
    }
}

/// The renderer is not asked for again once the search was made.
pub proof fn lemma_read_options_locates_once(
    args: Seq<Seq<char>>,
    pos: int,
    kinds: Seq<PathKind>,
    used: int,
    draft: Draft,
    renderer: Option<Lookup>,
)
    requires
        renderer is Some,
    ensures
        !(read_options(args, pos, kinds, used, draft, renderer) is LocateRenderer),
    decreases args.len() - pos,
{
    if 0 <= pos < args.len() {
        match arg_meaning(args[pos]) {
            PossibleArgs::InkscapePath => {
                if pos + 1 < args.len() {
                    lemma_read_options_locates_once(
                        args,
                        pos + 2,
                        kinds,
                        used + 1,
                        Draft { inkscape_path: Some(args[pos + 1]), ..draft },
                        renderer,
                    );
                }
            },
            PossibleArgs::AuxPrefix => {
                if pos + 1 < args.len() {
                    lemma_read_options_locates_once(
                        args,
                        pos + 2,
                        kinds,
                        used,
                        Draft { aux_prefix: args[pos + 1], ..draft },
                        renderer,
                    );
                }
            },
            PossibleArgs::DoNotRegenerate => {
                lemma_read_options_locates_once(
                    args,
                    pos + 1,
                    kinds,
                    used,
                    Draft { regenerate: false, ..draft },
                    renderer,
                );
            },
            PossibleArgs::NotRecursively => {
                lemma_read_options_locates_once(
                    args,
                    pos + 1,
                    kinds,
                    used,
                    Draft { recursively: false, ..draft },
                    renderer,
                );
            },
            _ => {},
        }
    }
}

/// Asking again with each answer comes to an end: a path is asked about
/// only while there are fewer answers than arguments, and the renderer is
/// asked for only while the search was not made.
pub proof fn lemma_questions_are_bounded(
    args: Seq<Seq<char>>,
    kinds: Seq<PathKind>,
    renderer: Option<Lookup>,
)
    ensures
        parse_outcome(args, kinds, renderer) is ProbePath ==> kinds.len() < args.len(),
        parse_outcome(args, kinds, renderer) is LocateRenderer ==> renderer is None,
{
    let start = Draft {
        watch_dir: args[0],
        inkscape_path: None,
        aux_prefix: Seq::empty(),
        regenerate: true,
        recursively: true,
    };
    if parse_outcome(args, kinds, renderer) is ProbePath && kinds.len() > 0 {
        lemma_read_options_asks_in_bounds(args, 1, kinds, 1, start, renderer);
    }
    if renderer is Some {
        lemma_read_options_locates_once(args, 1, kinds, 1, start, renderer);
    }
}

/// A command line that holds nothing but a watch root that is a directory
/// gives the defaults once the renderer is found: no prefix, a startup
/// batch, and subdirectories included.
pub proof fn lemma_defaults(root: Seq<char>, renderer: Seq<char>)
    requires
        arg_meaning(root) == PossibleArgs::Other,
    ensures
        parse_outcome(seq![root], seq![PathKind::Directory], Some(Lookup::Found(renderer)))
            == Outcome::Ready(
            Settings {
                watch_dir: root,
                inkscape_path: renderer,
                aux_prefix: Seq::empty(),
                regenerate: true,
                recursively: true,
            },
        ),
{
    reveal_with_fuel(read_options, 2);
}

} // verus!
