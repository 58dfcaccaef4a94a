//! The launch protocol: pipe, fork, and what each of the two processes does
//! with its descriptors before output flows.
//!
//! The launcher decides and the caller acts. Each decision is an `Action`
//! for the caller to perform; what the operating system answered comes back
//! as an `Event`, and the next decision follows from it. Nothing here
//! touches a descriptor or a process.

use crate::primitives::{
    close, close_succeeded, dup2, dup2_succeeded, execvp, fork, pipe, pipe_succeeded, role_of,
    standard_input, standard_output, Failure, Pipe, ProcessRole, STDIN_FILENO, STDOUT_FILENO,
};
use crate::resolver::{find_pager, Environment};
use crate::search::owned;
use vstd::prelude::*;
use vstd::string::*;
use vstd::utf8::encode_utf8;

verus! {

/// What the caller is to do next.
#[derive(Clone, Debug, PartialEq, Eq)]
pub enum Action {
    /// Create a pipe and report its two descriptors.
    CreatePipe,
    /// Fork and report what the call returned.
    Fork,
    /// Make `target` refer to what `source` refers to.
    Duplicate { source: i32, target: i32 },
    /// Release `descriptor`.
    Close { descriptor: i32 },
    /// Replace the image of this process with `program`, which is also its
    /// only argument.
    Replace { program: Vec<u8> },
    /// Nothing more: go on with the program's own work.
    Done,
    /// Terminate this process at once.
    Abort { failure: Failure },
}

/// The mathematical content of an `Action`.
pub enum ActionView {
    CreatePipe,
    Fork,
    Duplicate { source: i32, target: i32 },
    Close { descriptor: i32 },
    Replace { program: Seq<u8> },
    Done,
    Abort { failure: Failure },
}

impl View for Action {
    type V = ActionView;

    open spec fn view(&self) -> ActionView {
        match self {
            Action::CreatePipe => ActionView::CreatePipe,
            Action::Fork => ActionView::Fork,
            Action::Duplicate { source, target } => ActionView::Duplicate {
                source: *source,
                target: *target,
            },
            Action::Close { descriptor } => ActionView::Close { descriptor: *descriptor },
            Action::Replace { program } => ActionView::Replace { program: program@ },
            Action::Done => ActionView::Done,
            Action::Abort { failure } => ActionView::Abort { failure: *failure },
        }
    }
}

/// What the operating system answered to the last action.
#[derive(Clone, Copy, Debug, PartialEq, Eq, Structural)]
pub enum Event {
    /// What pipe returned, and the two descriptors it stored.
    PipeCreated { status: i32, read_end: i32, write_end: i32 },
    /// What fork returned.
    Forked { pid: i32 },
    /// What dup2, close or execvp returned.
    Returned { status: i32 },
}

/// How far a launch has come.
#[derive(Clone, Copy, Debug, PartialEq, Eq, Structural)]
pub enum Stage {
    /// Setup has not run.
    Idle,
    /// A pipe was asked for.
    AwaitingPipe,
    /// A fork was asked for.
    AwaitingFork,
    /// The fork is over, and action number `step` of this role's script was
    /// asked for.
    Running { role: ProcessRole, step: usize },
    /// Over: there is no pager to run, and nothing was touched.
    NotPaging,
    /// Over: the fork failed, the pipe is closed again, output is not paged.
    FailedGracefully,
    /// Over: this process writes its standard output into the pipe.
    Continuation,
    /// Over: a primitive failed, and this process is to terminate.
    Aborted { failure: Failure },
}

/// The pager launcher: which variable names the pager, whether setup went
/// well, and how far the launch has come.
#[derive(Debug)]
pub struct Pager {
    env: String,
    ok: bool,
    stage: Stage,
    program: Vec<u8>,
    pipe: Pipe,
}

/// The mathematical content of a `Pager`.
pub struct PagerView {
    /// The name of the variable that is consulted for the pager.
    pub env: Seq<char>,
    /// Whether setup went well so far: false only after a failed fork.
    pub ok: bool,
    /// How far the launch has come.
    pub stage: Stage,
    /// The pager to run, once setup has found one.
    pub program: Seq<u8>,
    /// The pipe, once it was created.
    pub pipe: Pipe,
}

/// What a process in `role` does after the fork, in order. Each process
/// turns one end of the pipe into a standard stream and closes the end it
/// has no use for; the pager process then replaces its image. After a fork
/// that failed, both ends are closed again.
pub open spec fn script(role: ProcessRole, pipe: Pipe, program: Seq<u8>) -> Seq<ActionView> {
    match role {
        ProcessRole::LaunchFailed => seq![
            ActionView::Close { descriptor: pipe.read_end },
            ActionView::Close { descriptor: pipe.write_end },
        ],
        ProcessRole::ContinuationProcess => seq![
            ActionView::Duplicate { source: pipe.write_end, target: STDOUT_FILENO },
            ActionView::Close { descriptor: pipe.read_end },
        ],
        ProcessRole::PagerProcess => seq![
            ActionView::Duplicate { source: pipe.read_end, target: STDIN_FILENO },
            ActionView::Close { descriptor: pipe.write_end },
            ActionView::Replace { program },
        ],
    }
}

/// Why `action` failed, going by the status that its primitive returned, or
/// `None` where it succeeded. A replacement that returns has failed,
/// whatever it returned.
pub open spec fn verdict(action: ActionView, status: int) -> Option<Failure> {
    match action {
        ActionView::Duplicate { .. } => if dup2_succeeded(status) {
            None
        } else {
            Some(Failure::Duplicate)
        },
        ActionView::Close { .. } => if close_succeeded(status) {
            None
        } else {
            Some(Failure::Close)
        },
        ActionView::Replace { .. } => Some(Failure::Replace),
        _ => Some(Failure::OutOfTurn),
    }
}

/// The stage in which a process ends that has gone through its script. The
/// pager process never does: its script ends in the replacement, and a
/// replacement that returns has failed.
pub open spec fn finished(role: ProcessRole) -> Stage {
    match role {
        ProcessRole::LaunchFailed => Stage::FailedGracefully,
        ProcessRole::ContinuationProcess => Stage::Continuation,
        ProcessRole::PagerProcess => Stage::Aborted { failure: Failure::Replace },
    }
}

impl PagerView {
    /// A launcher that has done nothing yet: it consults the variable
    /// `PAGER`, and holds no pager and no pipe.
    pub open spec fn fresh() -> PagerView {
        PagerView {
            env: "PAGER"@,
            ok: true,
            stage: Stage::Idle,
            program: Seq::<u8>::empty(),
            pipe: Pipe { read_end: -1i32, write_end: -1i32 },
        }
    }

    /// What holds of a launcher however far its launch has come: `ok` is
    /// false exactly after a fork that failed and a pipe that is closed
    /// again, and a launcher that runs a script stands at one of its
    /// actions.
    pub open spec fn consistent(self) -> bool {
        &&& self.ok == !(self.stage is FailedGracefully)
        &&& self.stage matches Stage::Running { role, step } ==> step < script(
            role,
            self.pipe,
            self.program,
        ).len()
    }

    /// A launch that ends here and now, for the reason given.
    pub open spec fn abort(self, failure: Failure) -> (PagerView, ActionView) {
        (PagerView { stage: Stage::Aborted { failure }, ..self }, ActionView::Abort { failure })
    }

    /// What a launch that is over answers to anything.
    pub open spec fn settled(self) -> (PagerView, ActionView) {
        match self.stage {
            Stage::NotPaging | Stage::FailedGracefully | Stage::Continuation => (
                self,
                ActionView::Done,
            ),
            Stage::Aborted { failure } => (self, ActionView::Abort { failure }),
            _ => self.abort(Failure::OutOfTurn),
        }
    }

    /// The launcher after setup, and the first action. `pager` is what the
    /// resolver found. Setup counts once: a later call changes nothing where
    /// the launch is over, and is out of turn where it is under way.
    pub open spec fn begin(self, pager: Option<Seq<u8>>) -> (PagerView, ActionView) {
        match self.stage {
            Stage::Idle => match pager {
                Some(program) => (
                    PagerView { stage: Stage::AwaitingPipe, program, ..self },
                    ActionView::CreatePipe,
                ),
                None => (PagerView { stage: Stage::NotPaging, ok: true, ..self }, ActionView::Done),
            },
            _ => self.settled(),
        }
    }

    /// The launcher after `event`, and the next action. Once the pipe is
    /// there the fork is next, then the script of the role that the fork
    /// gave, one action for each success; the first failure ends the launch.
    /// An event that answers no action of the launcher is out of turn.
    pub open spec fn next(self, event: Event) -> (PagerView, ActionView) {
        match self.stage {
            Stage::AwaitingPipe => match event {
                Event::PipeCreated { status, read_end, write_end } => if pipe_succeeded(
                    status as int,
                ) {
                    (
                        PagerView {
                            stage: Stage::AwaitingFork,
                            pipe: Pipe { read_end, write_end },
                            ..self
                        },
                        ActionView::Fork,
                    )
                } else {
                    self.abort(Failure::Pipe)
                },
                _ => self.abort(Failure::OutOfTurn),
            },
            Stage::AwaitingFork => match event {
                Event::Forked { pid } => {
                    let role = role_of(pid as int);
                    (
                        PagerView { stage: Stage::Running { role, step: 0 }, ..self },
                        script(role, self.pipe, self.program)[0],
                    )
                },
                _ => self.abort(Failure::OutOfTurn),
            },
            Stage::Running { role, step } => match event {
                Event::Returned { status } => {
                    let plan = script(role, self.pipe, self.program);
                    if step >= plan.len() {
                        self.abort(Failure::OutOfTurn)
                    } else {
                        match verdict(plan[step as int], status as int) {
                            Some(failure) => self.abort(failure),
                            None => if step + 1 < plan.len() {
                                (
                                    PagerView {
                                        stage: Stage::Running { role, step: (step + 1) as usize },
                                        ..self
                                    },
                                    plan[step + 1],
                                )
                            } else {
                                (
                                    PagerView {
                                        stage: finished(role),
                                        ok: role != ProcessRole::LaunchFailed,
                                        ..self
                                    },
                                    ActionView::Done,
                                )
                            },
                        }
                    }
                },
                _ => self.abort(Failure::OutOfTurn),
            },
            _ => self.settled(),
        }
    }
}

impl View for Pager {
    type V = PagerView;

    closed spec fn view(&self) -> PagerView {
        PagerView {
            env: self.env@,
            ok: self.ok,
            stage: self.stage,
            program: self.program@,
            pipe: self.pipe,
        }
    }
}

impl Pager {
    /// A launcher that consults the variable `PAGER` and has done nothing
    /// yet.
    pub fn new() -> (pager: Pager)
        ensures
            pager@ == PagerView::fresh(),
            pager@.consistent(),
    {
        Pager {
            env: "PAGER".to_owned(),
            ok: true,
            stage: Stage::Idle,
            program: Vec::new(),
            pipe: Pipe { read_end: -1, write_end: -1 },
        }
    }

    /// Names the variable that is consulted for the pager.
    pub fn env(&mut self, env: &str) -> (pager: &Self)
        ensures
            final(self)@ == (PagerView { env: env@, ..old(self)@ }),
            pager@ == final(self)@,
            old(self)@.consistent() ==> final(self)@.consistent(),
    {
        self.env = env.to_owned();
        self
    }

    /// Whether setup went well: false only where the fork failed.
    pub fn ok(&self) -> (ok: bool)
        ensures
            ok == self@.ok,
    {
        self.ok
    }

    /// Action number `step` of the script of `role`, if it has that many.
    fn scripted(&self, role: ProcessRole, step: usize) -> (action: Option<Action>)
        ensures
            match action {
                Some(action) => step < script(role, self@.pipe, self@.program).len()
                    && action@ == script(role, self@.pipe, self@.program)[step as int],
                None => step >= script(role, self@.pipe, self@.program).len(),
            },
    {
        match role {
            ProcessRole::LaunchFailed => if step == 0 {
                Some(Action::Close { descriptor: self.pipe.read_end })
            } else if step == 1 {
                Some(Action::Close { descriptor: self.pipe.write_end })
            } else {
                None
            },
            ProcessRole::ContinuationProcess => if step == 0 {
                Some(Action::Duplicate { source: self.pipe.write_end, target: standard_output() })
            } else if step == 1 {
                Some(Action::Close { descriptor: self.pipe.read_end })
            } else {
                None
            },
            ProcessRole::PagerProcess => if step == 0 {
                Some(Action::Duplicate { source: self.pipe.read_end, target: standard_input() })
            } else if step == 1 {
                Some(Action::Close { descriptor: self.pipe.write_end })
            } else if step == 2 {
                Some(Action::Replace { program: owned(self.program.as_slice()) })
            } else {
                None
            },
        }
    }

    /// Ends the launch for the reason given.
    fn abort(&mut self, failure: Failure) -> (action: Action)
        ensures
            (final(self)@, action@) == old(self)@.abort(failure),
    {
        self.stage = Stage::Aborted { failure };
        Action::Abort { failure }
    }

    /// Answers for a launch that is over.
    fn settled(&mut self) -> (action: Action)
        ensures
            (final(self)@, action@) == old(self)@.settled(),
    {
        match self.stage {
            Stage::NotPaging | Stage::FailedGracefully | Stage::Continuation => Action::Done,
            Stage::Aborted { failure } => Action::Abort { failure },
            _ => self.abort(Failure::OutOfTurn),
        }
    }

    /// Judges the status that the primitive behind `action` returned.
    fn judge(action: &Action, status: i32) -> (failure: Option<Failure>)
        ensures
            failure == verdict(action@, status as int),
    {
        match action {
            Action::Duplicate { .. } => match dup2(status) {
                Ok(_) => None,
                Err(failure) => Some(failure),
            },
            Action::Close { .. } => match close(status) {
                Ok(_) => None,
                Err(failure) => Some(failure),
            },
            Action::Replace { .. } => match execvp(status) {
                Ok(_) => Some(Failure::Replace),
                Err(failure) => Some(failure),
            },
            _ => Some(Failure::OutOfTurn),
        }
    }

    /// Resolves the pager from `environment` and begins the launch. Where
    /// there is no pager the launch is over at once: the answer is `Done`,
    /// no pipe is made and no process forked. Else the answer is
    /// `CreatePipe`, and `advance` takes it from there. Setup counts once: a
    /// later call changes nothing where the launch is over, and is out of
    /// turn where it is under way.
    pub fn setup(&mut self, environment: &Environment) -> (action: Action)
        ensures
            (final(self)@, action@) == old(self)@.begin(
                environment@.resolve(encode_utf8(old(self)@.env)),
            ),
            old(self)@.stage == Stage::Idle && environment@.resolve(encode_utf8(old(self)@.env))
                is None ==> action@ == ActionView::Done && final(self)@ == (PagerView {
                stage: Stage::NotPaging,
                ok: true,
                ..old(self)@
            }),
            old(self)@.consistent() ==> final(self)@.consistent(),
    {
        match self.stage {
            Stage::Idle => match find_pager(self.env.as_str(), environment) {
                Some(program) => {
                    self.program = program;
                    self.stage = Stage::AwaitingPipe;
                    Action::CreatePipe
                },
                None => {
                    self.ok = true;
                    self.stage = Stage::NotPaging;
                    Action::Done
                },
            },
            _ => self.settled(),
        }
    }

    /// Takes what the operating system answered to the last action and
    /// decides the next one.
    pub fn advance(&mut self, event: Event) -> (action: Action)
        ensures
            (final(self)@, action@) == old(self)@.next(event),
            old(self)@.consistent() ==> final(self)@.consistent(),
    {
        match self.stage {
            Stage::AwaitingPipe => match event {
                Event::PipeCreated { status, read_end, write_end } => match pipe(
                    status,
                    [read_end, write_end],
                ) {
                    Ok(created) => {
                        self.pipe = created;
                        self.stage = Stage::AwaitingFork;
                        Action::Fork
                    },
                    Err(failure) => self.abort(failure),
                },
                _ => self.abort(Failure::OutOfTurn),
            },
            Stage::AwaitingFork => match event {
                Event::Forked { pid } => {
                    let role = fork(pid);
                    match self.scripted(role, 0) {
                        Some(first) => {
                            self.stage = Stage::Running { role, step: 0 };
                            first
                        },
                        None => self.abort(Failure::OutOfTurn),
                    }
                },
                _ => self.abort(Failure::OutOfTurn),
            },
            Stage::Running { role, step } => match event {
                Event::Returned { status } => match self.scripted(role, step) {
                    Some(current) => match Self::judge(&current, status) {
                        Some(failure) => self.abort(failure),
                        None => match self.scripted(role, step + 1) {
                            Some(following) => {
                                self.stage = Stage::Running { role, step: step + 1 };
                                following
                            },
                            None => {
                                self.ok = match role {
                                    ProcessRole::LaunchFailed => false,
                                    _ => true,
                                };
                                self.stage = match role {
                                    ProcessRole::LaunchFailed => Stage::FailedGracefully,
                                    ProcessRole::ContinuationProcess => Stage::Continuation,
                                    ProcessRole::PagerProcess => Stage::Aborted {
                                        failure: Failure::Replace,
                                    },
                                };
                                Action::Done
                            },
                        },
                    },
                    None => self.abort(Failure::OutOfTurn),
                },
                _ => self.abort(Failure::OutOfTurn),
            },
            _ => self.settled(),
        }
    }
}

impl Default for Pager {
    /// The same as `Pager::new`.
    fn default() -> (pager: Pager)
        ensures
            pager@ == PagerView::fresh(),
            pager@.consistent(),
    {
        Pager::new()
    }
}

} // verus!
