use make_project::config::{Catalog, Config, Request};

fn names(items: &[&str]) -> Vec<String> {
    items.iter().map(|s| s.to_string()).collect()
}

fn catalog() -> Catalog {
    Catalog {
        flakes: names(&["rust", "zig"]),
        scripts: names(&["init", "git", "hooks"]),
        licenses: names(&["mit", "gpl"]),
    }
}

fn cwd() -> Result<String, String> {
    Ok("/home/me".to_string())
}

#[test]
fn from_args_reads_the_full_command_line() {
    let args = names(&["make-project", "-l", "mit", "-s", "init", "rust", "./myproj"]);
    let config = Config::from_args(&args, &catalog(), cwd()).unwrap();
    assert_eq!(config.flake, "rust");
    assert_eq!(config.license, Some("mit".to_string()));
    assert_eq!(config.scripts, names(&["init"]));
    assert_eq!(config.path, "/home/me/./myproj");
}

#[test]
fn from_args_splits_scripts_at_commas_and_keeps_their_order() {
    let args = names(&["make-project", "--scripts", "hooks,init,git", "zig", "proj"]);
    let config = Config::from_args(&args, &catalog(), cwd()).unwrap();
    assert_eq!(config.scripts, names(&["hooks", "init", "git"]));
    assert_eq!(config.license, None);
    assert_eq!(config.path, "/home/me/proj");
}

#[test]
fn from_args_without_options_chooses_no_license_and_no_scripts() {
    let args = names(&["make-project", "rust", "/abs/proj"]);
    let config = Config::from_args(&args, &catalog(), cwd()).unwrap();
    assert_eq!(config.flake, "rust");
    assert_eq!(config.license, None);
    assert_eq!(config.scripts, Vec::<String>::new());
    assert_eq!(config.path, "/abs/proj");
}

#[test]
fn from_args_turns_an_unknown_flake_down() {
    let args = names(&["make-project", "cobol", "proj"]);
    let message = Config::from_args(&args, &catalog(), cwd()).unwrap_err();
    assert!(message.contains("cobol"), "{}", message);
    assert!(!message.starts_with("error: "), "{}", message);
}

#[test]
fn from_args_turns_an_unknown_license_down() {
    let args = names(&["make-project", "--license", "bsd", "rust", "proj"]);
    let message = Config::from_args(&args, &catalog(), cwd()).unwrap_err();
    assert!(message.contains("bsd"), "{}", message);
}

#[test]
fn from_args_turns_an_unknown_script_down() {
    let args = names(&["make-project", "-s", "init,nope", "rust", "proj"]);
    let message = Config::from_args(&args, &catalog(), cwd()).unwrap_err();
    assert!(message.contains("nope"), "{}", message);
}

#[test]
fn from_args_turns_a_missing_positional_down() {
    let args = names(&["make-project", "rust"]);
    assert!(Config::from_args(&args, &catalog(), cwd()).is_err());
    let args = names(&["make-project"]);
    assert!(Config::from_args(&args, &catalog(), cwd()).is_err());
}

#[test]
fn from_args_turns_an_unknown_flag_down() {
    let args = names(&["make-project", "--frobnicate", "rust", "proj"]);
    assert!(Config::from_args(&args, &catalog(), cwd()).is_err());
}

#[test]
fn from_args_reports_an_unknown_working_directory() {
    let args = names(&["make-project", "rust", "proj"]);
    let r = Config::from_args(&args, &catalog(), Err("no such directory".to_string()));
    assert_eq!(r, Err("no such directory".to_string()));
}

#[test]
fn resolve_accepts_known_names() {
    let request = Request {
        flake: Some("zig".to_string()),
        license: Some("gpl".to_string()),
        scripts: names(&["git", "init"]),
        path: Some("out".to_string()),
    };
    let config = Config::resolve(request, cwd(), &catalog()).unwrap();
    assert_eq!(
        config,
        Config {
            flake: "zig".to_string(),
            scripts: names(&["git", "init"]),
            license: Some("gpl".to_string()),
            path: "/home/me/out".to_string(),
        }
    );
}

#[test]
fn resolve_names_the_first_unknown_script() {
    let request = Request {
        flake: Some("zig".to_string()),
        license: None,
        scripts: names(&["git", "one", "two"]),
        path: Some("out".to_string()),
    };
    assert_eq!(
        Config::resolve(request, cwd(), &catalog()),
        Err("invalid value `one` for `scripts`: not a template under `scripts`".to_string())
    );
}

#[test]
fn resolve_checks_flake_then_license() {
    let request = Request {
        flake: Some("c".to_string()),
        license: Some("bsd".to_string()),
        scripts: names(&[]),
        path: Some("out".to_string()),
    };
    assert_eq!(
        Config::resolve(request, cwd(), &catalog()),
        Err("invalid value `c` for `flake`: not a template under `flakes`".to_string())
    );
    let request = Request {
        flake: Some("rust".to_string()),
        license: Some("bsd".to_string()),
        scripts: names(&[]),
        path: Some("out".to_string()),
    };
    assert_eq!(
        Config::resolve(request, cwd(), &catalog()),
        Err("invalid value `bsd` for `license`: not a template under `licenses`".to_string())
    );
}

#[test]
fn resolve_misses_required_arguments() {
    let request = Request { flake: None, license: None, scripts: names(&[]), path: Some("out".to_string()) };
    assert_eq!(
        Config::resolve(request, cwd(), &catalog()),
        Err("missing required argument `flake`".to_string())
    );
    let request = Request { flake: Some("rust".to_string()), license: None, scripts: names(&[]), path: None };
    assert_eq!(
        Config::resolve(request, cwd(), &catalog()),
        Err("missing required argument `path`".to_string())
    );
}

#[test]
fn resolve_reports_names_before_the_working_directory() {
    let request = Request {
        flake: Some("c".to_string()),
        license: None,
        scripts: names(&[]),
        path: Some("out".to_string()),
    };
    let r = Config::resolve(request, Err("gone".to_string()), &catalog());
    assert_eq!(r, Err("invalid value `c` for `flake`: not a template under `flakes`".to_string()));
}

#[test]
fn sub_path_stands_inside_the_destination() {
    let config = Config {
        flake: "rust".to_string(),
        scripts: names(&[]),
        license: None,
        path: "/home/me/proj".to_string(),
    };
    assert_eq!(config.sub_path("flake.nix"), "/home/me/proj/flake.nix");
    assert_eq!(config.sub_path("LICENSE.md"), "/home/me/proj/LICENSE.md");
}

#[test]
fn from_args_with_an_empty_catalog_accepts_nothing() {
    let empty = Catalog { flakes: names(&[]), scripts: names(&[]), licenses: names(&[]) };
    let args = names(&["make-project", "rust", "proj"]);
    assert!(Config::from_args(&args, &empty, cwd()).is_err());
}

#[test]
fn from_args_without_any_argument_is_turned_down() {
    assert!(Config::from_args(&names(&[]), &catalog(), cwd()).is_err());
}

#[test]
fn from_args_takes_names_that_occur_twice_in_the_catalog() {
    let twice = Catalog {
        flakes: names(&["rust", "rust"]),
        scripts: names(&["init", "init"]),
        licenses: names(&["mit", "mit"]),
    };
    let args = names(&["make-project", "-l", "mit", "-s", "init,init", "rust", "proj"]);
    let config = Config::from_args(&args, &twice, cwd()).unwrap();
    assert_eq!(config.scripts, names(&["init", "init"]));
}

#[test]
fn from_args_takes_names_of_any_shape() {
    let odd = Catalog {
        flakes: names(&["", "-x", "a b", "wörld", "a\nb"]),
        scripts: names(&["[x]", "'"]),
        licenses: names(&["--license"]),
    };
    let args = names(&["make-project", "-s", "[x],'", "wörld", "proj"]);
    let config = Config::from_args(&args, &odd, cwd()).unwrap();
    assert_eq!(config.flake, "wörld");
    assert_eq!(config.scripts, names(&["[x]", "'"]));
    let args = names(&["make-project", "-l=--license", "a b", "proj"]);
    let config = Config::from_args(&args, &odd, cwd()).unwrap();
    assert_eq!(config.license, Some("--license".to_string()));
    let args = names(&["make-project", "nope", "proj"]);
    assert!(Config::from_args(&args, &odd, cwd()).is_err());
}

#[test]
fn from_args_takes_the_long_license_option() {
    let args = names(&["make-project", "--license", "gpl", "rust", "proj"]);
    let config = Config::from_args(&args, &catalog(), cwd()).unwrap();
    assert_eq!(config.license, Some("gpl".to_string()));
}

#[test]
fn from_args_takes_options_after_the_positionals() {
    let args = names(&["make-project", "rust", "proj", "-s", "git", "-l", "mit"]);
    let config = Config::from_args(&args, &catalog(), cwd()).unwrap();
    assert_eq!(config.scripts, names(&["git"]));
    assert_eq!(config.license, Some("mit".to_string()));
}

#[test]
fn from_args_answers_a_request_for_help_with_the_usage() {
    let args = names(&["make-project", "--help"]);
    let message = Config::from_args(&args, &catalog(), cwd()).unwrap_err();
    assert!(message.contains("Usage"), "{}", message);
}
