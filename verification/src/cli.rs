//! The command line, as clap reads it.
//!
//! Nothing in this file is proved: it states what is taken on trust from
//! clap. The rules of this tool are checked again, by verified code, on
//! whatever the parser hands back.

use vstd::prelude::*;

verus! {

/// Name of the program, as its usage shows it.
pub const PROGRAM: &'static str = "make-project";

/// Version that `--version` shows.
pub const VERSION: &'static str = "0.0";

/// What the help says of the program.
pub const ABOUT: &'static str = "a personalized project initializer.";

/// The positional argument that names the flake template.
pub const FLAKE: &'static str = "flake";

/// What the help says of `flake`.
pub const FLAKE_HELP: &'static str = "nix flake template";

/// The positional argument that gives the destination.
pub const PATH: &'static str = "path";

/// What the help says of `path`.
pub const PATH_HELP: &'static str = "directory to place project in";

/// The option that names the license template, also its long form.
pub const LICENSE: &'static str = "license";

/// Short form of the `license` option.
pub const LICENSE_SHORT: char = 'l';

/// The option that lists the setup scripts, also its long form.
pub const SCRIPTS: &'static str = "scripts";

/// Short form of the `scripts` option.
pub const SCRIPTS_SHORT: char = 's';

/// What stands between two names in the value of the `scripts` option.
pub const DELIMITER: char = ',';

/// `clap::ArgMatches`: what clap's parser has matched on a command line.
/// Nothing of its inside is known here; `matched` stands for what it
/// holds.
#[verifier::external_type_specification]
#[verifier::external_body]
pub struct ExArgMatches(clap::ArgMatches);

/// The text values that a set of matches holds, by argument identifier, each
/// list in the order in which the values stood on the command line. An
/// identifier without a text value has no entry.
pub uninterp spec fn matched(matches: clap::ArgMatches) -> Map<Seq<char>, Seq<Seq<char>>>;

/// What clap's parser makes of a command line for this tool, given the names
/// that each of the three template arguments may take: `None` where it turns
/// the command line down, else the values it matched.
pub uninterp spec fn parsed_command_line(
    args: Seq<Seq<char>>,
    flakes: Seq<Seq<char>>,
    scripts: Seq<Seq<char>>,
    licenses: Seq<Seq<char>>,
) -> Option<Map<Seq<char>, Seq<Seq<char>>>>;

/// The first value matched under `id`, if there is one.
pub open spec fn first_value(values: Map<Seq<char>, Seq<Seq<char>>>, id: Seq<char>) -> Option<
    Seq<char>,
> {
    if values.dom().contains(id) && values[id].len() > 0 {
        Some(values[id][0])
    } else {
        None
    }
}

/// All values matched under `id`, in order; none where `id` has no entry.
pub open spec fn all_values(values: Map<Seq<char>, Seq<Seq<char>>>, id: Seq<char>) -> Seq<
    Seq<char>,
> {
    if values.dom().contains(id) {
        values[id]
    } else {
        Seq::empty()
    }
}

/// Runs `clap::Command::try_get_matches_from` on the command that the
/// constants above describe: the options `license` and `scripts`, the
/// latter with its value split at the delimiter, and the required
/// positionals `flake` and `path`; the first three are given the names that
/// they may take as their `value_parser`. The first element of `args` is
/// taken as the program's name. Where the parser turns the command
/// line down, its error comes back as the text that its `Display` gives, of
/// which nothing is claimed. Trusted: whether the parser accepts, and what it
/// then matched, depends on these four lists alone.
#[verifier::external_body]
pub(crate) fn parse(
    args: &Vec<String>,
    flakes: &Vec<String>,
    scripts: &Vec<String>,
    licenses: &Vec<String>,
) -> (r: Result<clap::ArgMatches, String>)
    ensures
        match r {
            Ok(matches) => parsed_command_line(
                args.deep_view(),
                flakes.deep_view(),
                scripts.deep_view(),
                licenses.deep_view(),
            ) == Some(matched(matches)),
            Err(_) => parsed_command_line(
                args.deep_view(),
                flakes.deep_view(),
                scripts.deep_view(),
                licenses.deep_view(),
            ) is None,
        },
{
    clap::Command::new(PROGRAM)
        .version(VERSION)
        .about(ABOUT)
        .arg(clap::Arg::new(LICENSE).short(LICENSE_SHORT).long(LICENSE).value_parser(licenses.clone()))
        .arg(clap::Arg::new(SCRIPTS).short(SCRIPTS_SHORT).long(SCRIPTS).value_delimiter(DELIMITER).value_parser(scripts.clone()))
        .arg(clap::Arg::new(FLAKE).required(true).help(FLAKE_HELP).value_parser(flakes.clone()))
        .arg(clap::Arg::new(PATH).required(true).help(PATH_HELP))
        .try_get_matches_from(args)
        .map_err(|e| e.to_string())
}

/// Calls `clap::ArgMatches::try_get_one` for a text value. Trusted: it hands
/// out the first value held under `id`, and nothing where `id` holds no text
/// value or is unknown to the matches.
#[verifier::external_body]
pub(crate) fn one(matches: &clap::ArgMatches, id: &str) -> (r: Option<String>)
    ensures
        r.deep_view() == first_value(matched(*matches), id@),
{
    matches.try_get_one::<String>(id).ok().flatten().cloned()
}

/// Calls `clap::ArgMatches::try_get_many` for text values. Trusted: it hands
/// out every value held under `id`, in order, and none where `id` holds no
/// text value or is unknown to the matches.
#[verifier::external_body]
pub(crate) fn many(matches: &clap::ArgMatches, id: &str) -> (r: Vec<String>)
    ensures
        r.deep_view() == all_values(matched(*matches), id@),
{
    matches.try_get_many::<String>(id).ok().flatten().map(|v| v.cloned().collect()).unwrap_or_default()
}

} // verus!
