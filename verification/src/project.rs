//! Laying a project out, one action at a time.
//!
//! The library decides what is done next; the caller does it. A run begins
//! with [`Config::make_project`], which hands out the first [`Action`]. The
//! caller carries the action out, reports what happened as an [`Event`] to
//! [`Project::advance`] and gets the next action, until that is
//! [`Action::Finish`] or [`Action::Abort`].

use vstd::prelude::*;
use vstd::string::*;
use crate::config::{Config, ConfigView};
use crate::paths::joined;
use crate::templates::{script_file, template_file, template_path};
use crate::templates::{FLAKES, FLAKE_EXT, LICENSES, LICENSE_EXT, SCRIPTS, SCRIPT_EXT};
use crate::text::framed;

verus! {

/// The program that starts a setup script.
pub const SCRIPT_ENV: &'static str = "/usr/bin/env";

/// The interpreter that `SCRIPT_ENV` looks up to run a setup script.
pub const SCRIPT_RUNNER: &'static str = "sh";

/// Name of the flake in a new project.
pub const FLAKE_FILE: &'static str = "flake.nix";

/// Name of the license in a new project.
pub const LICENSE_FILE: &'static str = "LICENSE.md";

/// What the caller is to do next.
#[derive(Debug, Clone, PartialEq, Eq)]
pub enum Action {
    /// Find out whether anything exists at `path`, and answer whether the
    /// path is free.
    CheckAbsent { path: String },
    /// Create the directory `path` with all its missing parents.
    CreateDir { path: String },
    /// Copy the file `from` to `to`, byte for byte.
    CopyFile { from: String, to: String },
    /// Print `notice`, run `program` with `args` in the directory `dir`, its
    /// input and output piped, wait for it, and answer whether it exited
    /// with status zero.
    RunScript { name: String, notice: String, program: String, args: Vec<String>, dir: String },
    /// Nothing is left to do: the project stands.
    Finish,
    /// The run has ended in an error, to be reported as `message`.
    Abort { message: String },
}

/// An action, with its texts as sequences of characters.
pub enum ActionView {
    CheckAbsent { path: Seq<char> },
    CreateDir { path: Seq<char> },
    CopyFile { from: Seq<char>, to: Seq<char> },
    RunScript {
        name: Seq<char>,
        notice: Seq<char>,
        program: Seq<char>,
        args: Seq<Seq<char>>,
        dir: Seq<char>,
    },
    Finish,
    Abort { message: Seq<char> },
}

impl View for Action {
    type V = ActionView;

    open spec fn view(&self) -> ActionView {
        match self {
            Action::CheckAbsent { path } => ActionView::CheckAbsent { path: path@ },
            Action::CreateDir { path } => ActionView::CreateDir { path: path@ },
            Action::CopyFile { from, to } => ActionView::CopyFile { from: from@, to: to@ },
            Action::RunScript { name, notice, program, args, dir } => ActionView::RunScript {
                name: name@,
                notice: notice@,
                program: program@,
                args: args.deep_view(),
                dir: dir@,
            },
            Action::Finish => ActionView::Finish,
            Action::Abort { message } => ActionView::Abort { message: message@ },
        }
    }
}

/// What came of the action that was handed out last.
#[derive(Debug, Clone, PartialEq, Eq)]
pub enum Event {
    /// The action was carried out. Where the action asks for an answer,
    /// `answer` holds it: the path is free, the script exited with status
    /// zero. The other actions ask nothing, and `answer` is not looked at.
    Completed { answer: bool },
    /// The operating system could not carry the action out, for `reason`.
    Failed { reason: String },
}

/// An event, with its text as a sequence of characters.
pub enum EventView {
    Completed { answer: bool },
    Failed { reason: Seq<char> },
}

impl View for Event {
    type V = EventView;

    open spec fn view(&self) -> EventView {
        match self {
            Event::Completed { answer } => EventView::Completed { answer: *answer },
            Event::Failed { reason } => EventView::Failed { reason: reason@ },
        }
    }
}

/// The complaint about a destination that is taken.
pub open spec fn exists_message() -> Seq<char> {
    "this directory already exists"@
}

/// The notice that goes out before the script `name` runs.
pub open spec fn script_notice(name: Seq<char>) -> Seq<char> {
    "[executing script `"@ + name + "`]"@
}

/// The complaint about the script `name` having exited with a status
/// other than zero.
pub open spec fn script_failed_message(name: Seq<char>) -> Seq<char> {
    "script `"@ + name + "` failed"@
}

/// The action that runs the setup script `name` for the project in
/// `project_dir`: the script's path is handed to `sh`, which `/usr/bin/env`
/// finds, with the project directory as the working directory.
pub open spec fn script_run(template_dir: Seq<char>, project_dir: Seq<char>, name: Seq<char>) -> ActionView {
    ActionView::RunScript {
        name,
        notice: script_notice(name),
        program: SCRIPT_ENV@,
        args: seq![SCRIPT_RUNNER@, script_file(template_dir, name)],
        dir: project_dir,
    }
}

/// The copy of the chosen license into the project, where one was chosen.
pub open spec fn license_steps(config: ConfigView, template_dir: Seq<char>) -> Seq<ActionView> {
    match config.license {
        Some(name) => seq![
            ActionView::CopyFile {
                from: template_file(template_dir, LICENSES@, name, LICENSE_EXT@),
                to: joined(config.path, LICENSE_FILE@),
            },
        ],
        None => Seq::empty(),
    }
}

/// The copy of the chosen flake into the project.
pub open spec fn flake_step(config: ConfigView, template_dir: Seq<char>) -> ActionView {
    ActionView::CopyFile {
        from: template_file(template_dir, FLAKES@, config.flake, FLAKE_EXT@),
        to: joined(config.path, FLAKE_FILE@),
    }
}

/// The runs of the chosen scripts, in the order in which they were chosen.
pub open spec fn script_steps(config: ConfigView, template_dir: Seq<char>) -> Seq<ActionView> {
    Seq::new(
        config.scripts.len(),
        |i: int| script_run(template_dir, config.path, config.scripts[i]),
    )
}

/// Everything that a run does when nothing goes wrong, in order: make sure
/// that the destination is free, create it, copy the license if one was
/// chosen, copy the flake, run the scripts.
pub open spec fn plan(config: ConfigView, template_dir: Seq<char>) -> Seq<ActionView> {
    seq![
        ActionView::CheckAbsent { path: config.path },
        ActionView::CreateDir { path: config.path },
    ] + license_steps(config, template_dir) + seq![flake_step(config, template_dir)]
        + script_steps(config, template_dir)
}

/// Whether an action asks for an answer.
pub open spec fn asks(action: ActionView) -> bool {
    action is CheckAbsent || action is RunScript
}

/// Whether an event lets the run go on past `action`.
pub open spec fn goes_on(action: ActionView, event: EventView) -> bool {
    event matches EventView::Completed { answer } && (asks(action) ==> answer)
}

/// The error that a run ends in when `event` does not let it go on past
/// `action`: the operating system's reason, or what the action's answer
/// means.
pub open spec fn stop_message(action: ActionView, event: EventView) -> Seq<char> {
    match event {
        EventView::Failed { reason } => reason,
        EventView::Completed { .. } => match action {
            ActionView::RunScript { name, .. } => script_failed_message(name),
            _ => exists_message(),
        },
    }
}

/// How far a run has come: the number of actions of its plan that are
/// done, and the error that it ended in, if it did.
pub struct ProjectView {
    pub config: ConfigView,
    pub template_dir: Seq<char>,
    pub done: nat,
    pub failure: Option<Seq<char>>,
}

impl ProjectView {
    /// The plan that this run follows.
    pub open spec fn plan(self) -> Seq<ActionView> {
        plan(self.config, self.template_dir)
    }

    /// Whether the run has ended, well or not.
    pub open spec fn over(self) -> bool {
        self.failure is Some || self.done >= self.plan().len()
    }

    /// The action that the caller is to carry out now.
    pub open spec fn pending(self) -> ActionView {
        match self.failure {
            Some(message) => ActionView::Abort { message },
            None => if self.done < self.plan().len() {
                self.plan()[self.done as int]
            } else {
                ActionView::Finish
            },
        }
    }

    /// The run after `event` has answered its pending action. A run that is
    /// over stays as it is.
    pub open spec fn step(self, event: EventView) -> ProjectView {
        if self.over() {
            self
        } else if goes_on(self.pending(), event) {
            ProjectView { done: self.done + 1, ..self }
        } else {
            ProjectView { failure: Some(stop_message(self.pending(), event)), ..self }
        }
    }

    /// The run after a series of events, each answering the action that was
    /// pending when it came.
    pub open spec fn replay(self, events: Seq<EventView>) -> ProjectView
        decreases events.len(),
    {
        if events.len() == 0 {
            self
        } else {
            self.replay(events.drop_last()).step(events.last())
        }
    }
}

/// A run that has not begun.
pub open spec fn start(config: ConfigView, template_dir: Seq<char>) -> ProjectView {
    ProjectView { config, template_dir, done: 0, failure: None }
}

/// Where a run stands in its plan.
#[derive(Debug)]
enum Stage {
    Checking,
    Creating,
    CopyingLicense,
    CopyingFlake,
    Running(usize),
}

/// A run in progress.
#[derive(Debug)]
pub struct Project {
    config: Config,
    template_dir: String,
    stage: Stage,
    failure: Option<String>,
}

impl Project {
    /// A run copies a license only where one was chosen, and never stands
    /// behind the end of its scripts.
    #[verifier::type_invariant]
    spec fn well_formed(self) -> bool {
        match self.stage {
            Stage::CopyingLicense => self.config.license is Some,
            Stage::Running(i) => i <= self.config.scripts.len(),
            _ => true,
        }
    }

    /// The number of license copies in this run's plan.
    spec fn offset(self) -> nat {
        if self.config.license is Some {
            1
        } else {
            0
        }
    }

    /// How far the run has come.
    pub closed spec fn view(&self) -> ProjectView {
        ProjectView {
            config: self.config@,
            template_dir: self.template_dir@,
            done: match self.stage {
                Stage::Checking => 0,
                Stage::Creating => 1,
                Stage::CopyingLicense => 2,
                Stage::CopyingFlake => 2 + self.offset(),
                Stage::Running(i) => 3 + self.offset() + i as nat,
            },
            failure: self.failure.deep_view(),
        }
    }

    /// The action that the caller is to carry out now.
    pub fn pending(&self) -> (action: Action)
        ensures
            action@ == self@.pending(),
    {
        proof {
            use_type_invariant(self);
        }
        match &self.failure {
            Some(message) => Action::Abort { message: message.clone() },
            None => match self.stage {
                Stage::Checking => Action::CheckAbsent { path: self.config.path.clone() },
                Stage::Creating => Action::CreateDir { path: self.config.path.clone() },
                Stage::CopyingLicense => match &self.config.license {
                    Some(name) => Action::CopyFile {
                        from: template_path(
                            self.template_dir.as_str(),
                            LICENSES,
                            name.as_str(),
                            LICENSE_EXT,
                        ),
                        to: self.config.sub_path(LICENSE_FILE),
                    },
                    None => Action::Finish,
                },
                Stage::CopyingFlake => Action::CopyFile {
                    from: template_path(
                        self.template_dir.as_str(),
                        FLAKES,
                        self.config.flake.as_str(),
                        FLAKE_EXT,
                    ),
                    to: self.config.sub_path(FLAKE_FILE),
                },
                Stage::Running(i) => if i < self.config.scripts.len() {
                    run_script(
                        self.template_dir.as_str(),
                        self.config.path.as_str(),
                        self.config.scripts[i].as_str(),
                    )
                } else {
                    Action::Finish
                },
            },
        }
    }

    /// Takes in what came of the pending action and hands out the next one.
    pub fn advance(&mut self, event: Event) -> (action: Action)
        ensures
            final(self)@ == old(self)@.step(event@),
            action@ == final(self)@.pending(),
    {
        proof {
            use_type_invariant(&*self);
        }
        let current = self.pending();
        let over = match &current {
            Action::Finish => true,
            Action::Abort { .. } => true,
            _ => false,
        };
        if !over {
            let asks = match &current {
                Action::CheckAbsent { .. } => true,
                Action::RunScript { .. } => true,
                _ => false,
            };
            match event {
                Event::Failed { reason } => {
                    self.failure = Some(reason);
                },
                Event::Completed { answer } => {
                    if asks && !answer {
                        let message = match current {
                            Action::RunScript { name, .. } => framed(
                                "script `",
                                name.as_str(),
                                "` failed",
                            ),
                            _ => String::from_str("this directory already exists"),
                        };
                        self.failure = Some(message);
                    } else {
                        let next = match self.stage {
                            Stage::Checking => Stage::Creating,
                            Stage::Creating => if self.config.license.is_some() {
                                Stage::CopyingLicense
                            } else {
                                Stage::CopyingFlake
                            },
                            Stage::CopyingLicense => Stage::CopyingFlake,
                            Stage::CopyingFlake => Stage::Running(0),
                            Stage::Running(i) => Stage::Running(i + 1),
                        };
                        self.stage = next;
                    }
                },
            }
        }
        self.pending()
    }
}

/// Builds the action that runs the setup script `name` for the project in
/// `project_dir`.
pub fn run_script(template_dir: &str, project_dir: &str, name: &str) -> (action: Action)
    ensures
        action@ == script_run(template_dir@, project_dir@, name@),
{
    let mut args: Vec<String> = Vec::new();
    args.push(String::from_str(SCRIPT_RUNNER));
    args.push(script_path(template_dir, name));
    assert(args.deep_view() =~= seq![SCRIPT_RUNNER@, script_file(template_dir@, name@)]);
    Action::RunScript {
        name: String::from_str(name),
        notice: framed("[executing script `", name, "`]"),
        program: String::from_str(SCRIPT_ENV),
        args,
        dir: String::from_str(project_dir),
    }
}

/// The path of the setup script `name`.
pub fn script_path(template_dir: &str, name: &str) -> (r: String)
    ensures
        r@ == script_file(template_dir@, name@),
{
    template_path(template_dir, SCRIPTS, name, SCRIPT_EXT)
}

impl Config {
    /// Begins the run that lays this configuration's project out from the
    /// templates in `template_dir`, and hands out its first action.
    pub fn make_project(self, template_dir: &str) -> (r: (Project, Action))
        ensures
            r.0@ == start(self@, template_dir@),
            r.1@ == r.0@.pending(),
            r.1@ == (ActionView::CheckAbsent { path: self@.path }),
    {
        let project = Project {
            config: self,
            template_dir: String::from_str(template_dir),
            stage: Stage::Checking,
            failure: None,
        };
        let first = project.pending();
        (project, first)
    }
}

} // verus!
