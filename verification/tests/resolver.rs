use pager::resolver::{
    default_pager, find_pager, found_in_path, getenv, search_paths, which, Environment, Variable,
    DEFAULT_PAGER, DISABLE_MARKER, SEARCH_PATH,
};

const MORE: &str = "/bin/more";

fn variable(name: &str, value: &str) -> Variable {
    Variable { name: name.as_bytes().to_vec(), value: value.as_bytes().to_vec() }
}

fn paths(names: &[&str]) -> Vec<Vec<u8>> {
    names.iter().map(|name| name.as_bytes().to_vec()).collect()
}

/// A machine with `ls` and `more` in `/bin`, and a search path that reaches
/// `/bin` last.
fn linux() -> Environment {
    Environment {
        variables: vec![
            variable("HOME", "/root"),
            variable("PATH", "/usr/local/bin:/usr/bin:/bin"),
        ],
        existing: paths(&["/bin/ls", "/bin/more"]),
    }
}

fn with(mut environment: Environment, name: &str, value: &str) -> Environment {
    environment.variables.push(variable(name, value));
    environment
}

fn bytes(text: &str) -> Option<Vec<u8>> {
    Some(text.as_bytes().to_vec())
}

#[test]
fn ls_found_in_path() {
    assert!(found_in_path("ls", &linux()))
}

#[test]
fn ls123_not_found_in_path() {
    assert!(!found_in_path("ls123", &linux()))
}

#[test]
fn more_found_in_path() {
    assert!(which("more", &linux()).is_some())
}

#[test]
fn erom_not_found_in_path() {
    assert!(which("erom", &linux()).is_none())
}

#[test]
fn which_more() {
    assert_eq!(which("more", &linux()), bytes(MORE));
}

#[test]
fn usr_bin_more_default_pager() {
    assert_eq!(find_pager("__RANDOM_NAME", &linux()), bytes(MORE));
}

#[test]
fn names_of_the_environment() {
    assert_eq!(DISABLE_MARKER, "NOPAGER");
    assert_eq!(SEARCH_PATH, "PATH");
    assert_eq!(DEFAULT_PAGER, "more");
}

#[test]
fn disable_marker_beats_everything() {
    let environment = with(with(linux(), "MYPAGER", "less"), "NOPAGER", "");
    assert_eq!(find_pager("MYPAGER", &environment), None);
    assert_eq!(find_pager("__RANDOM_NAME", &environment), None);
    let environment = with(linux(), "NOPAGER", "1");
    assert_eq!(find_pager("PAGER", &environment), None);
}

#[test]
fn configured_pager_is_taken_verbatim() {
    let environment = with(linux(), "MYPAGER", "less -R");
    assert_eq!(find_pager("MYPAGER", &environment), bytes("less -R"));
    let environment = with(linux(), "MYPAGER", "/no/such/program");
    assert_eq!(find_pager("MYPAGER", &environment), bytes("/no/such/program"));
    let nowhere = Environment { variables: vec![variable("MYPAGER", "more")], existing: vec![] };
    assert_eq!(find_pager("MYPAGER", &nowhere), bytes("more"));
}

#[test]
fn unset_variable_falls_back_to_search() {
    assert_eq!(find_pager("MYPAGER", &linux()), bytes(MORE));
    let mut bare = linux();
    bare.existing = paths(&["/bin/ls"]);
    assert_eq!(find_pager("MYPAGER", &bare), None);
}

#[test]
fn empty_variable_falls_back_to_search() {
    let environment = with(linux(), "MYPAGER", "");
    assert_eq!(find_pager("MYPAGER", &environment), bytes(MORE));
}

#[test]
fn other_variable_is_not_consulted() {
    let environment = with(linux(), "PAGER", "less");
    assert_eq!(find_pager("MYPAGER", &environment), bytes(MORE));
    assert_eq!(find_pager("PAGER", &environment), bytes("less"));
}

#[test]
fn search_takes_the_first_match_in_listed_order() {
    let mut environment = linux();
    environment.existing = paths(&["/bin/more", "/usr/bin/more"]);
    assert_eq!(which("more", &environment), bytes("/usr/bin/more"));
    environment.existing = paths(&["/bin/more", "/usr/bin/more", "/usr/local/bin/more"]);
    assert_eq!(which("more", &environment), bytes("/usr/local/bin/more"));
}

#[test]
fn no_search_path_no_match() {
    let environment = Environment {
        variables: vec![variable("HOME", "/root")],
        existing: paths(&["/bin/more", "more"]),
    };
    assert_eq!(which("more", &environment), None);
    assert!(!found_in_path("more", &environment));
    assert_eq!(find_pager("PAGER", &environment), None);
    assert_eq!(search_paths("more", &environment), Vec::<Vec<u8>>::new());
}

#[test]
fn empty_search_path_means_here() {
    let environment =
        Environment { variables: vec![variable("PATH", "")], existing: paths(&["more"]) };
    assert_eq!(search_paths("more", &environment), paths(&["more"]));
    assert_eq!(which("more", &environment), bytes("more"));
}

#[test]
fn search_paths_lists_every_directory() {
    assert_eq!(
        search_paths("more", &linux()),
        paths(&["/usr/local/bin/more", "/usr/bin/more", "/bin/more"])
    );
    let environment = Environment { variables: vec![variable("PATH", "/a/::b:")], existing: vec![] };
    assert_eq!(search_paths("x", &environment), paths(&["/a/x", "x", "b/x", "x"]));
}

#[test]
fn first_variable_of_a_name_counts() {
    let environment = with(with(linux(), "MYPAGER", "first"), "MYPAGER", "second");
    assert_eq!(environment.var_os("MYPAGER"), Some(&b"first".to_vec()));
    assert_eq!(environment.var_os("HOME"), Some(&b"/root".to_vec()));
    assert_eq!(environment.var_os("HOM"), None);
    assert_eq!(environment.var_os("HOME2"), None);
}

#[test]
fn getenv_gives_the_value() {
    let environment = with(linux(), "MYPAGER", "less");
    assert_eq!(getenv("MYPAGER", &environment), bytes("less"));
    assert_eq!(getenv("PATH", &environment), bytes("/usr/local/bin:/usr/bin:/bin"));
    assert_eq!(getenv("YOURPAGER", &environment), None);
}

#[test]
fn getenv_refuses_a_zero_byte() {
    let mut environment = linux();
    environment.variables.push(Variable { name: b"MYPAGER".to_vec(), value: b"le\0ss".to_vec() });
    assert_eq!(getenv("MYPAGER", &environment), None);
    let environment = with(linux(), "MYPAGER", "");
    assert_eq!(getenv("MYPAGER", &environment), bytes(""));
}

#[test]
fn default_pager_is_the_bare_name() {
    assert_eq!(default_pager(&linux()), bytes("more"));
    let mut bare = linux();
    bare.existing = paths(&["/bin/ls"]);
    assert_eq!(default_pager(&bare), None);
}
