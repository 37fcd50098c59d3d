use make_project::config::Config;
use make_project::project::{run_script, Action, Event, Project};
use make_project::run;
use make_project::templates::Entry;

fn names(items: &[&str]) -> Vec<String> {
    items.iter().map(|s| s.to_string()).collect()
}

fn named(items: &[&str]) -> Result<Vec<Entry>, String> {
    Ok(items.iter().map(|s| Entry::Named(s.to_string())).collect())
}

fn config(license: Option<&str>, scripts: &[&str]) -> Config {
    Config {
        flake: "rust".to_string(),
        scripts: names(scripts),
        license: license.map(|s| s.to_string()),
        path: "/home/me/proj".to_string(),
    }
}

fn ok() -> Event {
    Event::Completed { answer: true }
}

fn no() -> Event {
    Event::Completed { answer: false }
}

fn failed(reason: &str) -> Event {
    Event::Failed { reason: reason.to_string() }
}

fn check() -> Action {
    Action::CheckAbsent { path: "/home/me/proj".to_string() }
}

fn create() -> Action {
    Action::CreateDir { path: "/home/me/proj".to_string() }
}

fn copy_license(name: &str) -> Action {
    Action::CopyFile {
        from: format!("/t/licenses/{}.md", name),
        to: "/home/me/proj/LICENSE.md".to_string(),
    }
}

fn copy_flake() -> Action {
    Action::CopyFile {
        from: "/t/flakes/rust.nix".to_string(),
        to: "/home/me/proj/flake.nix".to_string(),
    }
}

fn script(name: &str) -> Action {
    Action::RunScript {
        name: name.to_string(),
        notice: format!("[executing script `{}`]", name),
        program: "/usr/bin/env".to_string(),
        args: vec!["sh".to_string(), format!("/t/scripts/{}.sh", name)],
        dir: "/home/me/proj".to_string(),
    }
}

fn abort(message: &str) -> Action {
    Action::Abort { message: message.to_string() }
}

/// Feeds the events to a fresh run and collects every action handed out.
fn actions(config: Config, events: Vec<Event>) -> Vec<Action> {
    let (mut project, first): (Project, Action) = config.make_project("/t");
    let mut out = vec![first];
    for event in events {
        out.push(project.advance(event));
    }
    out
}

#[test]
fn run_script_describes_the_child_process() {
    assert_eq!(run_script("/t", "/home/me/proj", "init"), script("init"));
}

#[test]
fn a_run_without_trouble_follows_its_plan() {
    let got = actions(config(Some("mit"), &["a", "b", "c"]), vec![ok(), ok(), ok(), ok(), ok(), ok(), ok()]);
    assert_eq!(
        got,
        vec![
            check(),
            create(),
            copy_license("mit"),
            copy_flake(),
            script("a"),
            script("b"),
            script("c"),
            Action::Finish,
        ]
    );
}

#[test]
fn a_run_without_license_copies_the_flake_only() {
    let got = actions(config(None, &[]), vec![ok(), ok(), ok()]);
    assert_eq!(got, vec![check(), create(), copy_flake(), Action::Finish]);
}

#[test]
fn a_run_without_scripts_finishes_after_the_copies() {
    let got = actions(config(Some("gpl"), &[]), vec![ok(), ok(), ok(), ok()]);
    assert_eq!(got, vec![check(), create(), copy_license("gpl"), copy_flake(), Action::Finish]);
}

#[test]
fn scripts_run_in_the_order_given() {
    let got = actions(config(None, &["z", "a", "m"]), vec![ok(), ok(), ok(), ok(), ok(), ok()]);
    assert_eq!(&got[3..6], &[script("z"), script("a"), script("m")]);
}

#[test]
fn the_answer_of_a_copy_is_not_looked_at() {
    let got = actions(config(None, &[]), vec![ok(), no(), no()]);
    assert_eq!(got, vec![check(), create(), copy_flake(), Action::Finish]);
}

#[test]
fn a_taken_destination_ends_the_run_before_anything_is_made() {
    let got = actions(config(Some("mit"), &["a"]), vec![no()]);
    assert_eq!(got, vec![check(), abort("this directory already exists")]);
}

#[test]
fn a_second_run_on_the_same_destination_fails() {
    let first = actions(config(None, &[]), vec![ok(), ok(), ok()]);
    assert_eq!(first.last(), Some(&Action::Finish));
    // the directory is there now, so the check of the second run says no
    let second = actions(config(None, &[]), vec![no()]);
    assert_eq!(second, vec![check(), abort("this directory already exists")]);
}

#[test]
fn an_ended_run_stays_ended() {
    let got = actions(config(None, &["a"]), vec![no(), ok(), ok(), failed("late")]);
    assert_eq!(
        got,
        vec![
            check(),
            abort("this directory already exists"),
            abort("this directory already exists"),
            abort("this directory already exists"),
            abort("this directory already exists"),
        ]
    );
    let got = actions(config(None, &[]), vec![ok(), ok(), ok(), no(), failed("late")]);
    assert_eq!(&got[3..], &[Action::Finish, Action::Finish, Action::Finish]);
}

#[test]
fn a_directory_that_cannot_be_created_ends_the_run() {
    let got = actions(config(Some("mit"), &["a"]), vec![ok(), failed("Permission denied (os error 13)")]);
    assert_eq!(got, vec![check(), create(), abort("Permission denied (os error 13)")]);
}

#[test]
fn a_license_that_cannot_be_copied_ends_the_run() {
    let got = actions(config(Some("mit"), &["a"]), vec![ok(), ok(), failed("No such file or directory (os error 2)")]);
    assert_eq!(
        got,
        vec![check(), create(), copy_license("mit"), abort("No such file or directory (os error 2)")]
    );
}

#[test]
fn a_flake_that_cannot_be_copied_ends_the_run() {
    let got = actions(config(None, &["a"]), vec![ok(), ok(), failed("disk full")]);
    assert_eq!(got, vec![check(), create(), copy_flake(), abort("disk full")]);
}

#[test]
fn a_failing_script_ends_the_run_and_later_scripts_never_start() {
    let got = actions(config(None, &["a", "b", "c"]), vec![ok(), ok(), ok(), ok(), no(), ok()]);
    assert_eq!(
        got,
        vec![
            check(),
            create(),
            copy_flake(),
            script("a"),
            script("b"),
            abort("script `b` failed"),
            abort("script `b` failed"),
        ]
    );
    assert!(!got.contains(&script("c")));
}

#[test]
fn a_script_that_cannot_be_started_ends_the_run_with_the_reason() {
    let got = actions(config(None, &["a", "b"]), vec![ok(), ok(), ok(), failed("No such file or directory (os error 2)")]);
    assert_eq!(got.last(), Some(&abort("No such file or directory (os error 2)")));
    assert!(!got.contains(&script("b")));
}

#[test]
fn a_failure_while_checking_the_destination_ends_the_run() {
    let got = actions(config(None, &[]), vec![failed("stat failed")]);
    assert_eq!(got, vec![check(), abort("stat failed")]);
}

#[test]
fn pending_repeats_the_action_last_handed_out() {
    let (mut project, first) = config(None, &["a"]).make_project("/t");
    assert_eq!(project.pending(), first);
    let second = project.advance(ok());
    assert_eq!(project.pending(), second);
    assert_eq!(project.pending(), create());
}

#[test]
fn the_example_run_lays_out_myproj() {
    let args = names(&["make-project", "-l", "mit", "-s", "init", "rust", "./myproj"]);
    let (mut project, first) = run(
        Ok("/opt/bin/templates".to_string()),
        named(&["rust.nix"]),
        named(&["init.sh"]),
        named(&["mit.md"]),
        &args,
        Ok("/work".to_string()),
    )
    .unwrap();
    let mut got = vec![first];
    for _ in 0..5 {
        got.push(project.advance(ok()));
    }
    assert_eq!(
        got,
        vec![
            Action::CheckAbsent { path: "/work/./myproj".to_string() },
            Action::CreateDir { path: "/work/./myproj".to_string() },
            Action::CopyFile {
                from: "/opt/bin/templates/licenses/mit.md".to_string(),
                to: "/work/./myproj/LICENSE.md".to_string(),
            },
            Action::CopyFile {
                from: "/opt/bin/templates/flakes/rust.nix".to_string(),
                to: "/work/./myproj/flake.nix".to_string(),
            },
            Action::RunScript {
                name: "init".to_string(),
                notice: "[executing script `init`]".to_string(),
                program: "/usr/bin/env".to_string(),
                args: names(&["sh", "/opt/bin/templates/scripts/init.sh"]),
                dir: "/work/./myproj".to_string(),
            },
            Action::Finish,
        ]
    );
}

#[test]
fn run_reports_a_missing_template_directory_first() {
    let r = run(
        Err("template dir `/opt/bin/templates` does not exist".to_string()),
        Err("f".to_string()),
        Err("s".to_string()),
        Err("l".to_string()),
        &names(&["make-project", "bogus"]),
        Err("cwd".to_string()),
    );
    assert_eq!(r.err(), Some("template dir `/opt/bin/templates` does not exist".to_string()));
}

#[test]
fn run_reports_discovery_before_the_command_line() {
    let r = run(
        Ok("/t".to_string()),
        named(&["rust.nix"]),
        Err("scripts unreadable".to_string()),
        named(&["mit.md"]),
        &names(&["make-project", "bogus"]),
        Ok("/work".to_string()),
    );
    assert_eq!(r.err(), Some("scripts unreadable".to_string()));
}

#[test]
fn run_turns_unknown_names_down_before_any_action() {
    for args in [
        names(&["make-project", "zig", "proj"]),
        names(&["make-project", "-l", "gpl", "rust", "proj"]),
        names(&["make-project", "-s", "init,other", "rust", "proj"]),
    ] {
        let r = run(
            Ok("/t".to_string()),
            named(&["rust.nix"]),
            named(&["init.sh"]),
            named(&["mit.md"]),
            &args,
            Ok("/work".to_string()),
        );
        assert!(r.is_err(), "{:?}", args);
    }
}

#[test]
fn run_reports_the_command_line_before_the_working_directory() {
    let r = run(
        Ok("/t".to_string()),
        named(&["rust.nix"]),
        named(&[]),
        named(&[]),
        &names(&["make-project", "zig", "proj"]),
        Err("cwd gone".to_string()),
    );
    let message = r.err().unwrap();
    assert!(message.contains("zig"), "{}", message);
    let r = run(
        Ok("/t".to_string()),
        named(&["rust.nix"]),
        named(&[]),
        named(&[]),
        &names(&["make-project", "rust", "proj"]),
        Err("cwd gone".to_string()),
    );
    assert_eq!(r.err(), Some("cwd gone".to_string()));
}

#[test]
fn run_keeps_an_absolute_destination() {
    let (_, first) = run(
        Ok("/t".to_string()),
        named(&["rust.nix"]),
        named(&[]),
        named(&[]),
        &names(&["make-project", "rust", "/srv/proj"]),
        Ok("/work".to_string()),
    )
    .unwrap();
    assert_eq!(first, Action::CheckAbsent { path: "/srv/proj".to_string() });
}
