//! A model of what the launch does to a process: which descriptor refers to
//! which stream, and which program the process runs. The launcher's scripts
//! are judged against it.

use crate::launcher::{script, ActionView};
use crate::primitives::{Pipe, ProcessRole, STDIN_FILENO, STDOUT_FILENO};
use vstd::prelude::*;

verus! {

/// What an open descriptor refers to.
pub enum Stream {
    /// The end of the launch's pipe that is read from.
    PipeRead,
    /// The end of the launch's pipe that is written to.
    PipeWrite,
    /// A stream that was open before the launch, known by a number.
    Inherited(int),
}

/// A process, as far as the launch is concerned.
pub struct Process {
    /// The open descriptors, each with the stream it refers to.
    pub descriptors: Map<int, Stream>,
    /// The program that has replaced the image of the process, if one has.
    pub image: Option<Seq<u8>>,
}

impl Process {
    /// Whether `descriptor` is open.
    pub open spec fn is_open(self, descriptor: int) -> bool {
        self.descriptors.dom().contains(descriptor)
    }

    /// Whether `descriptor` is open and refers to `stream`.
    pub open spec fn refers(self, descriptor: int, stream: Stream) -> bool {
        self.is_open(descriptor) && self.descriptors[descriptor] == stream
    }

    /// Whether any descriptor of the process refers to `stream`.
    pub open spec fn holds(self, stream: Stream) -> bool {
        exists|descriptor: int| self.refers(descriptor, stream)
    }

    /// The process after it has created `pipe`.
    pub open spec fn with_pipe(self, pipe: Pipe) -> Process {
        Process {
            descriptors: self.descriptors.insert(pipe.read_end as int, Stream::PipeRead).insert(
                pipe.write_end as int,
                Stream::PipeWrite,
            ),
            ..self
        }
    }

    /// Whether the descriptors of the process let `action` succeed: a
    /// descriptor that is duplicated or closed has to be open.
    pub open spec fn permits(self, action: ActionView) -> bool {
        match action {
            ActionView::Duplicate { source, .. } => self.is_open(source as int),
            ActionView::Close { descriptor } => self.is_open(descriptor as int),
            _ => true,
        }
    }

    /// The process after `action` has succeeded. Duplicating makes the
    /// target refer to the stream of the source, whatever the target
    /// referred to before; closing releases the descriptor; replacing
    /// changes the program and keeps the descriptors. The other actions
    /// are not part of any script and leave the process as it is.
    pub open spec fn perform(self, action: ActionView) -> Process {
        match action {
            ActionView::Duplicate { source, target } => Process {
                descriptors: self.descriptors.insert(target as int, self.descriptors[source as int]),
                ..self
            },
            ActionView::Close { descriptor } => Process {
                descriptors: self.descriptors.remove(descriptor as int),
                ..self
            },
            ActionView::Replace { program } => Process { image: Some(program), ..self },
            _ => self,
        }
    }

    /// The process after each of `actions` has succeeded, in order.
    pub open spec fn perform_all(self, actions: Seq<ActionView>) -> Process
        decreases actions.len(),
    {
        if actions.len() == 0 {
            self
        } else {
            self.perform(actions[0]).perform_all(actions.skip(1))
        }
    }

    /// Whether the descriptors let each of `actions` succeed in its turn.
    pub open spec fn permits_all(self, actions: Seq<ActionView>) -> bool
        decreases actions.len(),
    {
        if actions.len() == 0 {
            true
        } else {
            self.permits(actions[0]) && self.perform(actions[0]).permits_all(actions.skip(1))
        }
    }
}

/// Whether `pipe` can be what a call of pipe hands to `process`: two
/// different descriptors that were not open, for a pipe that no
/// descriptor of the process refers to yet.
pub open spec fn is_new_pipe(process: Process, pipe: Pipe) -> bool {
    &&& pipe.read_end != pipe.write_end
    &&& !process.is_open(pipe.read_end as int)
    &&& !process.is_open(pipe.write_end as int)
    &&& !process.holds(Stream::PipeRead)
    &&& !process.holds(Stream::PipeWrite)
}

/// What two actions in a row do to a process.
proof fn lemma_perform_two(process: Process, first: ActionView, second: ActionView)
    ensures
        process.perform_all(seq![first, second]) == process.perform(first).perform(second),
        process.permits_all(seq![first, second]) == (process.permits(first) && process.perform(
            first,
        ).permits(second)),
{
    let actions = seq![first, second];
    let rest = actions.skip(1);
    let after = process.perform(first);
    assert(after.perform_all(rest) == after.perform(second).perform_all(rest.skip(1)));
    assert(after.permits_all(rest) == (after.permits(second) && after.perform(second).permits_all(
        rest.skip(1),
    )));
}

/// What three actions in a row do to a process.
proof fn lemma_perform_three(
    process: Process,
    first: ActionView,
    second: ActionView,
    third: ActionView,
)
    ensures
        process.perform_all(seq![first, second, third]) == process.perform(first).perform(
            second,
        ).perform(third),
        process.permits_all(seq![first, second, third]) == (process.permits(first)
            && process.perform(first).permits(second) && process.perform(first).perform(
            second,
        ).permits(third)),
{
    let actions = seq![first, second, third];
    assert(actions.skip(1) == seq![second, third]);
    lemma_perform_two(process.perform(first), second, third);
}

/// Pipe duality. Once the fork has succeeded and both processes have gone
/// through their scripts, the standard output of the continuation process
/// is the write end of the pipe and the standard input of the pager process
/// is its read end. Neither process has kept the other end open under any
/// descriptor, so the standard output of the pager process is not the write
/// end, and the standard input of the continuation process is not the read
/// end. The pager process runs the pager; the continuation process runs
/// what it ran before. Every step finds the descriptor open that it needs.
///
/// This holds where the pipe's read end is not the descriptor of standard
/// output and its write end is not that of standard input: a process that
/// was started with one of these streams closed may be handed such a pipe.
pub proof fn lemma_pipe_duality(before: Process, pipe: Pipe, program: Seq<u8>)
    requires
        is_new_pipe(before, pipe),
        pipe.read_end != STDOUT_FILENO,
        pipe.write_end != STDIN_FILENO,
    ensures
        ({
            let forked = before.with_pipe(pipe);
            let continuation_script = script(ProcessRole::ContinuationProcess, pipe, program);
            let pager_script = script(ProcessRole::PagerProcess, pipe, program);
            let continuation = forked.perform_all(continuation_script);
            let pager = forked.perform_all(pager_script);
            &&& forked.permits_all(continuation_script)
            &&& forked.permits_all(pager_script)
            &&& continuation.refers(STDOUT_FILENO as int, Stream::PipeWrite)
            &&& !continuation.holds(Stream::PipeRead)
            &&& !continuation.refers(STDIN_FILENO as int, Stream::PipeRead)
            &&& continuation.image == before.image
            &&& pager.refers(STDIN_FILENO as int, Stream::PipeRead)
            &&& !pager.holds(Stream::PipeWrite)
            &&& !pager.refers(STDOUT_FILENO as int, Stream::PipeWrite)
            &&& pager.image == Some(program)
        }),
{
    let forked = before.with_pipe(pipe);
    let read = pipe.read_end as int;
    let write = pipe.write_end as int;

    let redirect_output = ActionView::Duplicate { source: pipe.write_end, target: STDOUT_FILENO };
    let close_read = ActionView::Close { descriptor: pipe.read_end };
    assert(script(ProcessRole::ContinuationProcess, pipe, program) == seq![
        redirect_output,
        close_read,
    ]);
    lemma_perform_two(forked, redirect_output, close_read);
    let continuation = forked.perform(redirect_output).perform(close_read);
    assert forall|descriptor: int| !continuation.refers(descriptor, Stream::PipeRead) by {
        if continuation.is_open(descriptor) && descriptor != STDOUT_FILENO && descriptor != write {
            assert(!before.refers(descriptor, Stream::PipeRead));
        }
    }

    let redirect_input = ActionView::Duplicate { source: pipe.read_end, target: STDIN_FILENO };
    let close_write = ActionView::Close { descriptor: pipe.write_end };
    let replace = ActionView::Replace { program };
    assert(script(ProcessRole::PagerProcess, pipe, program) == seq![
        redirect_input,
        close_write,
        replace,
    ]);
    lemma_perform_three(forked, redirect_input, close_write, replace);
    let pager = forked.perform(redirect_input).perform(close_write).perform(replace);
    assert forall|descriptor: int| !pager.refers(descriptor, Stream::PipeWrite) by {
        if pager.is_open(descriptor) && descriptor != STDIN_FILENO && descriptor != read {
            assert(!before.refers(descriptor, Stream::PipeWrite));
        }
    }
}

/// Why pipe duality asks for a pipe off the standard descriptors. Where the
/// read end of the pipe is the descriptor of standard output, the
/// continuation process closes its standard output with it; where the write
/// end is the descriptor of standard input, the pager process closes its
/// standard input.
pub proof fn lemma_pipe_on_standard_descriptor(before: Process, pipe: Pipe, program: Seq<u8>)
    requires
        is_new_pipe(before, pipe),
    ensures
        pipe.read_end == STDOUT_FILENO ==> !before.with_pipe(pipe).perform_all(
            script(ProcessRole::ContinuationProcess, pipe, program),
        ).is_open(STDOUT_FILENO as int),
        pipe.write_end == STDIN_FILENO ==> !before.with_pipe(pipe).perform_all(
            script(ProcessRole::PagerProcess, pipe, program),
        ).is_open(STDIN_FILENO as int),
{
    let forked = before.with_pipe(pipe);
    let redirect_output = ActionView::Duplicate { source: pipe.write_end, target: STDOUT_FILENO };
    let close_read = ActionView::Close { descriptor: pipe.read_end };
    assert(script(ProcessRole::ContinuationProcess, pipe, program) == seq![
        redirect_output,
        close_read,
    ]);
    lemma_perform_two(forked, redirect_output, close_read);
    let redirect_input = ActionView::Duplicate { source: pipe.read_end, target: STDIN_FILENO };
    let close_write = ActionView::Close { descriptor: pipe.write_end };
    let replace = ActionView::Replace { program };
    assert(script(ProcessRole::PagerProcess, pipe, program) == seq![
        redirect_input,
        close_write,
        replace,
    ]);
    lemma_perform_three(forked, redirect_input, close_write, replace);
}

/// Graceful degradation, as far as the process goes. After a fork that
/// failed, the script closes both ends of the pipe and replaces nothing:
/// the process has the descriptors and the program it had before the pipe
/// was made. Both closes find their descriptor open.
pub proof fn lemma_failed_launch_restores(before: Process, pipe: Pipe, program: Seq<u8>)
    requires
        is_new_pipe(before, pipe),
    ensures
        ({
            let failed_script = script(ProcessRole::LaunchFailed, pipe, program);
            let forked = before.with_pipe(pipe);
            &&& forked.permits_all(failed_script)
            &&& forked.perform_all(failed_script) == before
            &&& forall|i: int| 0 <= i < failed_script.len() ==> !(failed_script[i] is Replace)
        }),
{
    let forked = before.with_pipe(pipe);
    let close_read = ActionView::Close { descriptor: pipe.read_end };
    let close_write = ActionView::Close { descriptor: pipe.write_end };
    lemma_perform_two(forked, close_read, close_write);
    let after = forked.perform(close_read).perform(close_write);
    assert(after.descriptors == before.descriptors);
}

} // verus!
