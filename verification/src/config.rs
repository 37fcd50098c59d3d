//! The parameters of one run, resolved from a command line against the
//! templates that were discovered.

use vstd::prelude::*;
use vstd::string::*;
use crate::cli::{all_values, first_value, many, one, parse, parsed_command_line};
use crate::cli::{FLAKE, LICENSE, PATH, SCRIPTS};
use crate::paths::{join, joined};
use crate::templates::{FLAKES, LICENSES};
use crate::text::{contains_name, framed, strip_prefix};

verus! {

/// The names that may be chosen, as discovered in the three template
/// folders.
#[derive(Debug, Clone, PartialEq, Eq)]
pub struct Catalog {
    pub flakes: Vec<String>,
    pub scripts: Vec<String>,
    pub licenses: Vec<String>,
}

/// A catalog, with its names as sequences of characters.
pub struct CatalogView {
    pub flakes: Seq<Seq<char>>,
    pub scripts: Seq<Seq<char>>,
    pub licenses: Seq<Seq<char>>,
}

impl View for Catalog {
    type V = CatalogView;

    open spec fn view(&self) -> CatalogView {
        CatalogView {
            flakes: self.flakes.deep_view(),
            scripts: self.scripts.deep_view(),
            licenses: self.licenses.deep_view(),
        }
    }
}

/// What a command line asks for, before it is held against the catalog.
#[derive(Debug, Clone, PartialEq, Eq)]
pub struct Request {
    pub flake: Option<String>,
    pub license: Option<String>,
    pub scripts: Vec<String>,
    pub path: Option<String>,
}

/// A request, with its texts as sequences of characters.
pub struct RequestView {
    pub flake: Option<Seq<char>>,
    pub license: Option<Seq<char>>,
    pub scripts: Seq<Seq<char>>,
    pub path: Option<Seq<char>>,
}

impl View for Request {
    type V = RequestView;

    open spec fn view(&self) -> RequestView {
        RequestView {
            flake: self.flake.deep_view(),
            license: self.license.deep_view(),
            scripts: self.scripts.deep_view(),
            path: self.path.deep_view(),
        }
    }
}

/// The resolved parameters of a run.
#[derive(Debug, Clone, PartialEq, Eq)]
pub struct Config {
    pub flake: String,
    pub scripts: Vec<String>,
    pub license: Option<String>,
    pub path: String,
}

/// A configuration, with its texts as sequences of characters.
pub struct ConfigView {
    pub flake: Seq<char>,
    pub scripts: Seq<Seq<char>>,
    pub license: Option<Seq<char>>,
    pub path: Seq<char>,
}

impl View for Config {
    type V = ConfigView;

    open spec fn view(&self) -> ConfigView {
        ConfigView {
            flake: self.flake@,
            scripts: self.scripts.deep_view(),
            license: self.license.deep_view(),
            path: self.path@,
        }
    }
}

/// A result whose two sides are text, as sequences of characters.
pub open spec fn text_result(r: Result<String, String>) -> Result<Seq<char>, Seq<char>> {
    match r {
        Ok(s) => Ok(s@),
        Err(e) => Err(e@),
    }
}

/// A resolution's result, by the views of its two sides.
pub open spec fn config_result(r: Result<Config, String>) -> Result<ConfigView, Seq<char>> {
    match r {
        Ok(c) => Ok(c@),
        Err(e) => Err(e@),
    }
}

/// The message for a required argument that the command line lacks.
pub open spec fn missing_message(what: Seq<char>) -> Seq<char> {
    "missing required argument `"@ + what + "`"@
}

/// The message for a value that is no template of the folder it is looked
/// up in.
pub open spec fn invalid_message(value: Seq<char>, what: Seq<char>, folder: Seq<char>) -> Seq<
    char,
> {
    "invalid value `"@ + value + "` for `"@ + what + "`: not a template under `"@ + folder + "`"@
}

/// The first of `names` that is not among `known`, if there is one.
pub open spec fn first_unknown(names: Seq<Seq<char>>, known: Seq<Seq<char>>) -> Option<Seq<char>>
    decreases names.len(),
{
    if names.len() == 0 {
        None
    } else if !known.contains(names[0]) {
        Some(names[0])
    } else {
        first_unknown(names.drop_first(), known)
    }
}

/// Every name that the configuration chooses is in the catalog.
pub open spec fn chosen_from(config: ConfigView, catalog: CatalogView) -> bool {
    &&& catalog.flakes.contains(config.flake)
    &&& config.license matches Some(name) ==> catalog.licenses.contains(name)
    &&& forall|i: int| 0 <= i < config.scripts.len() ==> catalog.scripts.contains(config.scripts[i])
}

/// What a request resolves to. The names are checked first, flake, license
/// and scripts in this order, then the destination, which is taken relative
/// to the working directory unless it is absolute.
pub open spec fn resolved(
    request: RequestView,
    cwd: Result<Seq<char>, Seq<char>>,
    catalog: CatalogView,
) -> Result<ConfigView, Seq<char>> {
    if request.flake is None {
        Err(missing_message(FLAKE@))
    } else if !catalog.flakes.contains(request.flake->0) {
        Err(invalid_message(request.flake->0, FLAKE@, FLAKES@))
    } else if request.license is Some && !catalog.licenses.contains(request.license->0) {
        Err(invalid_message(request.license->0, LICENSE@, LICENSES@))
    } else if first_unknown(request.scripts, catalog.scripts) is Some {
        Err(
            invalid_message(
                first_unknown(request.scripts, catalog.scripts)->0,
                SCRIPTS@,
                crate::templates::SCRIPTS@,
            ),
        )
    } else if request.path is None {
        Err(missing_message(PATH@))
    } else {
        match cwd {
            Err(e) => Err(e),
            Ok(dir) => Ok(
                ConfigView {
                    flake: request.flake->0,
                    scripts: request.scripts,
                    license: request.license,
                    path: joined(dir, request.path->0),
                },
            ),
        }
    }
}

/// The request that a set of matched values makes.
pub open spec fn request_of(values: Map<Seq<char>, Seq<Seq<char>>>) -> RequestView {
    RequestView {
        flake: first_value(values, FLAKE@),
        license: first_value(values, LICENSE@),
        scripts: all_values(values, SCRIPTS@),
        path: first_value(values, PATH@),
    }
}

/// `first_unknown` finds the name at `at` when every name before it is
/// known and it is not; it finds nothing when all names are known.
proof fn lemma_first_unknown(names: Seq<Seq<char>>, known: Seq<Seq<char>>, at: int)
    requires
        0 <= at <= names.len(),
        forall|k: int| 0 <= k < at ==> known.contains(names[k]),
        at < names.len() ==> !known.contains(names[at]),
    ensures
        at < names.len() ==> first_unknown(names, known) == Some(names[at]),
        at == names.len() ==> first_unknown(names, known) is None,
    decreases names.len(),
{
    if names.len() > 0 && at > 0 {
        let rest = names.drop_first();
        assert forall|k: int| 0 <= k < at - 1 implies known.contains(rest[k]) by {
            assert(rest[k] == names[k + 1]);
        }
        lemma_first_unknown(rest, known, at - 1);
    }
}

/// Where `first_unknown` finds nothing, every name is known.
proof fn lemma_all_known(names: Seq<Seq<char>>, known: Seq<Seq<char>>)
    requires
        first_unknown(names, known) is None,
    ensures
        forall|i: int| 0 <= i < names.len() ==> known.contains(names[i]),
    decreases names.len(),
{
    if names.len() > 0 {
        let rest = names.drop_first();
        lemma_all_known(rest, known);
        assert forall|i: int| 0 <= i < names.len() implies known.contains(names[i]) by {
            if i > 0 {
                assert(rest[i - 1] == names[i]);
            }
        }
    }
}

/// A request resolves to a configuration exactly when it names a known
/// flake, a known license if any, known scripts only, and a destination, and
/// the working directory is known. The configuration then chooses from the
/// catalog alone.
pub proof fn law_resolution(
    request: RequestView,
    cwd: Result<Seq<char>, Seq<char>>,
    catalog: CatalogView,
)
    ensures
        resolved(request, cwd, catalog) matches Ok(config) ==> chosen_from(config, catalog),
        resolved(request, cwd, catalog) is Ok <==> {
            &&& request.flake matches Some(flake) && catalog.flakes.contains(flake)
            &&& request.license matches Some(license) ==> catalog.licenses.contains(license)
            &&& forall|i: int|
                0 <= i < request.scripts.len() ==> catalog.scripts.contains(request.scripts[i])
            &&& request.path is Some
            &&& cwd is Ok
        },
{
    if first_unknown(request.scripts, catalog.scripts) is None {
        lemma_all_known(request.scripts, catalog.scripts);
    } else {
        if forall|i: int|
            0 <= i < request.scripts.len() ==> catalog.scripts.contains(request.scripts[i]) {
            lemma_first_unknown(request.scripts, catalog.scripts, request.scripts.len() as int);
        }
    }
}

/// Looks for the first of `names` that is not among `known`.
fn find_unknown(names: &Vec<String>, known: &Vec<String>) -> (r: Option<usize>)
    ensures
        match r {
            Some(i) => i < names.len() && first_unknown(names.deep_view(), known.deep_view())
                == Some(names[i as int]@),
            None => first_unknown(names.deep_view(), known.deep_view()) is None,
        },
{
    let mut i: usize = 0;
    while i < names.len()
        invariant
            i <= names.len(),
            forall|k: int| 0 <= k < i ==> known.deep_view().contains(names.deep_view()[k]),
        decreases names.len() - i,
    {
        if !contains_name(known, names[i].as_str()) {
            proof {
                lemma_first_unknown(names.deep_view(), known.deep_view(), i as int);
            }
            return Some(i);
        }
        i += 1;
    }
    proof {
        lemma_first_unknown(names.deep_view(), known.deep_view(), i as int);
    }
    None
}

impl Config {
    /// Holds a request against the catalog and resolves its destination.
    /// The first of these that is wrong gives the error: a missing flake, an
    /// unknown flake, an unknown license, the first unknown script, a
    /// missing destination, an unknown working directory.
    pub fn resolve(request: Request, cwd: Result<String, String>, catalog: &Catalog) -> (r: Result<
        Config,
        String,
    >)
        ensures
            config_result(r) == resolved(request@, text_result(cwd), catalog@),
            r matches Ok(config) ==> chosen_from(config@, catalog@),
    {
        proof {
            law_resolution(request@, text_result(cwd), catalog@);
        }
        let Request { flake, license, scripts, path } = request;
        let flake = match flake {
            Some(flake) => flake,
            None => {
                return Err(framed("missing required argument `", FLAKE, "`"));
            },
        };
        if !contains_name(&catalog.flakes, flake.as_str()) {
            return Err(invalid_value(flake.as_str(), FLAKE, FLAKES));
        }
        match &license {
            Some(name) => {
                if !contains_name(&catalog.licenses, name.as_str()) {
                    return Err(invalid_value(name.as_str(), LICENSE, LICENSES));
                }
            },
            None => {},
        }
        match find_unknown(&scripts, &catalog.scripts) {
            Some(i) => {
                return Err(invalid_value(scripts[i].as_str(), SCRIPTS, crate::templates::SCRIPTS));
            },
            None => {},
        }
        let path = match path {
            Some(path) => path,
            None => {
                return Err(framed("missing required argument `", PATH, "`"));
            },
        };
        match cwd {
            Err(e) => Err(e),
            Ok(dir) => {
                let path = join(dir.as_str(), path.as_str());
                Ok(Config { flake, scripts, license, path })
            },
        }
    }

    /// Reads a command line, with the program's name in front, and resolves
    /// it. The parser decides whether the command line is well formed; what
    /// it hands back is resolved as `resolve` says. Where the parser turns
    /// the command line down, the error is its complaint, without the
    /// `error: ` that it starts with.
    pub fn from_args(args: &Vec<String>, catalog: &Catalog, cwd: Result<String, String>) -> (r:
        Result<Config, String>)
        ensures
            match parsed_command_line(
                args.deep_view(),
                catalog@.flakes,
                catalog@.scripts,
                catalog@.licenses,
            ) {
                Some(values) => config_result(r) == resolved(
                    request_of(values),
                    text_result(cwd),
                    catalog@,
                ),
                None => r is Err,
            },
            r matches Ok(config) ==> chosen_from(config@, catalog@),
    {
        match parse(args, &catalog.flakes, &catalog.scripts, &catalog.licenses) {
            Err(text) => Err(strip_prefix(text.as_str(), "error: ")),
            Ok(matches) => {
                let request = Request {
                    flake: one(&matches, FLAKE),
                    license: one(&matches, LICENSE),
                    scripts: many(&matches, SCRIPTS),
                    path: one(&matches, PATH),
                };
                Config::resolve(request, cwd, catalog)
            },
        }
    }

    /// The path of `name` inside the destination directory.
    pub fn sub_path(&self, name: &str) -> (r: String)
        ensures
            r@ == joined(self@.path, name@),
    {
        join(self.path.as_str(), name)
    }
}

/// Builds the message for a value that is no template of `folder`.
fn invalid_value(value: &str, what: &str, folder: &str) -> (r: String)
    ensures
        r@ == invalid_message(value@, what@, folder@),
{
    let mut out = framed("invalid value `", value, "` for `");
    out.append(what);
    out.append("`: not a template under `");
    out.append(folder);
    out.append("`");
    out
}

} // verus!
