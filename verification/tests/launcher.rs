use pager::launcher::{Action, Event};
use pager::primitives::Failure;
use pager::resolver::{Environment, Variable};
use pager::Pager;

fn variable(name: &str, value: &str) -> Variable {
    Variable { name: name.as_bytes().to_vec(), value: value.as_bytes().to_vec() }
}

fn environment(variables: &[(&str, &str)], existing: &[&str]) -> Environment {
    Environment {
        variables: variables.iter().map(|(name, value)| variable(name, value)).collect(),
        existing: existing.iter().map(|path| path.as_bytes().to_vec()).collect(),
    }
}

/// `MYPAGER` is set to `more`, which the search path also leads to.
fn configured() -> Environment {
    environment(&[("PATH", "/usr/bin:/bin"), ("MYPAGER", "more")], &["/bin/more"])
}

fn created(read_end: i32, write_end: i32) -> Event {
    Event::PipeCreated { status: 0, read_end, write_end }
}

fn returned(status: i32) -> Event {
    Event::Returned { status }
}

/// A launcher for `MYPAGER` that has its pipe, 3 and 4, and waits for the
/// fork.
fn at_the_fork() -> Pager {
    let mut pager = Pager::new();
    pager.env("MYPAGER");
    assert_eq!(pager.setup(&configured()), Action::CreatePipe);
    assert_eq!(pager.advance(created(3, 4)), Action::Fork);
    pager
}

#[test]
fn new_pager_is_ok() {
    assert!(Pager::new().ok());
    assert!(Pager::default().ok());
}

#[test]
fn new_pager_consults_pager() {
    let set = environment(&[("PAGER", "less")], &[]);
    assert_eq!(Pager::new().setup(&set), Action::CreatePipe);
    assert_eq!(Pager::default().setup(&set), Action::CreatePipe);
    let other = environment(&[("MYPAGER", "less")], &[]);
    assert_eq!(Pager::new().setup(&other), Action::Done);
}

#[test]
fn env_selects_the_variable() {
    let other = environment(&[("MYPAGER", "less")], &[]);
    let mut pager = Pager::new();
    assert!(pager.env("MYPAGER").ok());
    assert_eq!(pager.setup(&other), Action::CreatePipe);
    let mut pager = Pager::new();
    pager.env("MYPAGER");
    pager.env("YOURPAGER");
    assert_eq!(pager.setup(&other), Action::Done);
}

#[test]
fn continuation_writes_into_the_pipe() {
    let mut pager = at_the_fork();
    assert_eq!(pager.advance(Event::Forked { pid: 0 }), Action::Duplicate { source: 4, target: 1 });
    assert_eq!(pager.advance(returned(1)), Action::Close { descriptor: 3 });
    assert_eq!(pager.advance(returned(0)), Action::Done);
    assert!(pager.ok());
}

#[test]
fn pager_process_reads_from_the_pipe_and_becomes_more() {
    let mut pager = at_the_fork();
    assert_eq!(
        pager.advance(Event::Forked { pid: 4242 }),
        Action::Duplicate { source: 3, target: 0 }
    );
    assert_eq!(pager.advance(returned(0)), Action::Close { descriptor: 4 });
    assert_eq!(pager.advance(returned(0)), Action::Replace { program: b"more".to_vec() });
}

#[test]
fn searched_pager_is_run_by_its_path() {
    let mut pager = Pager::new();
    let found = environment(&[("PATH", "/usr/bin:/bin")], &["/bin/more"]);
    assert_eq!(pager.setup(&found), Action::CreatePipe);
    assert_eq!(pager.advance(created(5, 6)), Action::Fork);
    assert_eq!(pager.advance(Event::Forked { pid: 1 }), Action::Duplicate { source: 5, target: 0 });
    assert_eq!(pager.advance(returned(0)), Action::Close { descriptor: 6 });
    assert_eq!(pager.advance(returned(0)), Action::Replace { program: b"/bin/more".to_vec() });
}

#[test]
fn failed_fork_closes_the_pipe_and_clears_ok() {
    let mut pager = at_the_fork();
    assert_eq!(pager.advance(Event::Forked { pid: -1 }), Action::Close { descriptor: 3 });
    assert!(pager.ok());
    assert_eq!(pager.advance(returned(0)), Action::Close { descriptor: 4 });
    assert_eq!(pager.advance(returned(0)), Action::Done);
    assert!(!pager.ok());
    assert_eq!(pager.advance(returned(0)), Action::Done);
    assert!(!pager.ok());
}

#[test]
fn disabled_paging_touches_nothing() {
    let disabled = environment(
        &[("NOPAGER", ""), ("PATH", "/usr/bin:/bin"), ("MYPAGER", "more")],
        &["/bin/more"],
    );
    let mut pager = Pager::new();
    pager.env("MYPAGER");
    assert_eq!(pager.setup(&disabled), Action::Done);
    assert!(pager.ok());
}

#[test]
fn no_pager_no_launch() {
    let nothing = environment(&[("PATH", "/usr/bin:/bin")], &[]);
    let mut pager = Pager::new();
    assert_eq!(pager.setup(&nothing), Action::Done);
    assert!(pager.ok());
    assert_eq!(pager.setup(&nothing), Action::Done);
    assert_eq!(pager.advance(created(3, 4)), Action::Done);
    assert_eq!(pager.advance(Event::Forked { pid: 0 }), Action::Done);
    assert_eq!(pager.advance(returned(0)), Action::Done);
    assert!(pager.ok());
}

#[test]
fn setup_counts_once() {
    let mut pager = Pager::new();
    pager.env("MYPAGER");
    let nothing = environment(&[], &[]);
    assert_eq!(pager.setup(&nothing), Action::Done);
    assert_eq!(pager.setup(&configured()), Action::Done);
    assert!(pager.ok());

    let mut pager = at_the_fork();
    assert_eq!(pager.advance(Event::Forked { pid: 0 }), Action::Duplicate { source: 4, target: 1 });
    assert_eq!(pager.advance(returned(1)), Action::Close { descriptor: 3 });
    assert_eq!(pager.advance(returned(0)), Action::Done);
    assert_eq!(pager.setup(&configured()), Action::Done);
}

#[test]
fn setup_in_the_middle_of_a_launch_aborts() {
    let mut pager = at_the_fork();
    assert_eq!(pager.setup(&configured()), Action::Abort { failure: Failure::OutOfTurn });
}

#[test]
fn pipe_failure_aborts() {
    let mut pager = Pager::new();
    pager.env("MYPAGER");
    assert_eq!(pager.setup(&configured()), Action::CreatePipe);
    assert_eq!(
        pager.advance(Event::PipeCreated { status: -1, read_end: 0, write_end: 0 }),
        Action::Abort { failure: Failure::Pipe }
    );
    assert_eq!(pager.advance(Event::Forked { pid: 0 }), Action::Abort { failure: Failure::Pipe });
    assert_eq!(pager.setup(&configured()), Action::Abort { failure: Failure::Pipe });
}

#[test]
fn duplicate_failure_aborts() {
    let mut pager = at_the_fork();
    assert_eq!(pager.advance(Event::Forked { pid: 0 }), Action::Duplicate { source: 4, target: 1 });
    assert_eq!(pager.advance(returned(-1)), Action::Abort { failure: Failure::Duplicate });
    let mut pager = at_the_fork();
    assert_eq!(pager.advance(Event::Forked { pid: 9 }), Action::Duplicate { source: 3, target: 0 });
    assert_eq!(pager.advance(returned(-1)), Action::Abort { failure: Failure::Duplicate });
}

#[test]
fn close_failure_aborts() {
    let mut pager = at_the_fork();
    assert_eq!(pager.advance(Event::Forked { pid: 0 }), Action::Duplicate { source: 4, target: 1 });
    assert_eq!(pager.advance(returned(1)), Action::Close { descriptor: 3 });
    assert_eq!(pager.advance(returned(-1)), Action::Abort { failure: Failure::Close });
    assert!(pager.ok());

    let mut pager = at_the_fork();
    assert_eq!(pager.advance(Event::Forked { pid: -1 }), Action::Close { descriptor: 3 });
    assert_eq!(pager.advance(returned(-1)), Action::Abort { failure: Failure::Close });
    assert!(pager.ok());
}

#[test]
fn replacement_that_returns_aborts() {
    let mut pager = at_the_fork();
    assert_eq!(pager.advance(Event::Forked { pid: 9 }), Action::Duplicate { source: 3, target: 0 });
    assert_eq!(pager.advance(returned(0)), Action::Close { descriptor: 4 });
    assert_eq!(pager.advance(returned(0)), Action::Replace { program: b"more".to_vec() });
    assert_eq!(pager.advance(returned(-1)), Action::Abort { failure: Failure::Replace });

    let mut pager = at_the_fork();
    pager.advance(Event::Forked { pid: 9 });
    pager.advance(returned(0));
    pager.advance(returned(0));
    assert_eq!(pager.advance(returned(0)), Action::Abort { failure: Failure::Replace });
    assert_eq!(pager.advance(returned(0)), Action::Abort { failure: Failure::Replace });
}

#[test]
fn answers_out_of_turn_abort() {
    let mut pager = Pager::new();
    assert_eq!(pager.advance(created(3, 4)), Action::Abort { failure: Failure::OutOfTurn });

    let mut pager = Pager::new();
    pager.env("MYPAGER");
    pager.setup(&configured());
    assert_eq!(pager.advance(Event::Forked { pid: 0 }), Action::Abort { failure: Failure::OutOfTurn });

    let mut pager = at_the_fork();
    assert_eq!(pager.advance(returned(0)), Action::Abort { failure: Failure::OutOfTurn });

    let mut pager = at_the_fork();
    pager.advance(Event::Forked { pid: 0 });
    assert_eq!(pager.advance(created(5, 6)), Action::Abort { failure: Failure::OutOfTurn });
    assert_eq!(pager.advance(returned(0)), Action::Abort { failure: Failure::OutOfTurn });
}

#[test]
fn pipe_on_the_standard_descriptors_is_passed_on_as_it_is() {
    let mut pager = Pager::new();
    pager.env("MYPAGER");
    pager.setup(&configured());
    assert_eq!(pager.advance(created(0, 1)), Action::Fork);
    assert_eq!(pager.advance(Event::Forked { pid: 0 }), Action::Duplicate { source: 1, target: 1 });
    assert_eq!(pager.advance(returned(1)), Action::Close { descriptor: 0 });
    assert_eq!(pager.advance(returned(0)), Action::Done);
}
