//! A project scaffolder: it discovers the templates that stand beside the
//! executable, resolves a command line against them, and lays out the steps
//! that create a new project directory from the chosen templates.
//!
//! Everything here computes on plain values. Reading directories, copying
//! files and running scripts is left to the caller, which performs each
//! [`project::Action`] and reports back with a [`project::Event`].

pub mod paths;
pub mod text;
pub mod cli;
pub mod config;
pub mod templates;
pub mod project;
pub mod laws;

use vstd::prelude::*;
use crate::cli::parsed_command_line;
use crate::config::{chosen_from, request_of, resolved, text_result, Config};
use crate::project::{start, Action, ActionView, Project, ProjectView};
use crate::templates::{catalog_of, discover, listing_view, Entry};

verus! {

/// Where a run stands once its command line is resolved: begun, with the
/// state that it begins in, or turned down with a message.
pub open spec fn begun(r: Result<(Project, Action), String>) -> Result<ProjectView, Seq<char>> {
    match r {
        Ok(pair) => Ok(pair.0@),
        Err(e) => Err(e@),
    }
}

/// Everything that a run decides before it touches the destination, from
/// what its surroundings hold: where the template directory is, what the
/// three template folders list, the command line, and the working
/// directory. The first of these that is wrong, in this order, ends the run
/// with its error; a command line that the parser or the catalog turns
/// down does so too. Otherwise the run begins.
pub fn run(
    template_dir: Result<String, String>,
    flakes: Result<Vec<Entry>, String>,
    scripts: Result<Vec<Entry>, String>,
    licenses: Result<Vec<Entry>, String>,
    args: &Vec<String>,
    cwd: Result<String, String>,
) -> (r: Result<(Project, Action), String>)
    ensures
        match text_result(template_dir) {
            Err(e) => begun(r) == Err::<ProjectView, Seq<char>>(e),
            Ok(dir) => match catalog_of(
                dir,
                listing_view(flakes),
                listing_view(scripts),
                listing_view(licenses),
            ) {
                Err(e) => begun(r) == Err::<ProjectView, Seq<char>>(e),
                Ok(catalog) => match parsed_command_line(
                    args.deep_view(),
                    catalog.flakes,
                    catalog.scripts,
                    catalog.licenses,
                ) {
                    None => r is Err,
                    Some(values) => match resolved(request_of(values), text_result(cwd), catalog) {
                        Err(e) => begun(r) == Err::<ProjectView, Seq<char>>(e),
                        Ok(config) => {
                            &&& chosen_from(config, catalog)
                            &&& begun(r) == Ok::<ProjectView, Seq<char>>(start(config, dir))
                            &&& r matches Ok(pair) && pair.1@ == pair.0@.pending()
                            &&& r matches Ok(pair) && pair.1@ == (ActionView::CheckAbsent {
                                path: config.path,
                            })
                        },
                    },
                },
            },
        },
{
    let template_dir = match template_dir {
        Ok(dir) => dir,
        Err(e) => {
            return Err(e);
        },
    };
    let catalog = match discover(template_dir.as_str(), flakes, scripts, licenses) {
        Ok(catalog) => catalog,
        Err(e) => {
            return Err(e);
        },
    };
    match Config::from_args(args, &catalog, cwd) {
        Ok(config) => Ok(config.make_project(template_dir.as_str())),
        Err(e) => Err(e),
    }
}

} // verus!
