//! Whole launches: what the launcher asks for, one action after another, as
//! the answers of the operating system come in.

use crate::launcher::{finished, script, verdict, ActionView, Event, PagerView, Stage};
use crate::primitives::{role_of, Failure, Pipe, ProcessRole};
use crate::process::Process;
use vstd::prelude::*;

verus! {

/// The launcher after it has taken `events`, one after another.
pub open spec fn state_after(state: PagerView, events: Seq<Event>) -> PagerView
    decreases events.len(),
{
    if events.len() == 0 {
        state
    } else {
        state_after(state, events.drop_last()).next(events.last()).0
    }
}

/// The actions with which the launcher answers `events`, one for each.
pub open spec fn actions_of(state: PagerView, events: Seq<Event>) -> Seq<ActionView>
    decreases events.len(),
{
    if events.len() == 0 {
        Seq::empty()
    } else {
        actions_of(state, events.drop_last()).push(
            state_after(state, events.drop_last()).next(events.last()).1,
        )
    }
}

/// The events of a launch in which the pipe was created as `pipe`, fork
/// returned `pid`, and the primitives of the first actions of the script
/// returned `statuses`.
pub open spec fn launch_events(pipe: Pipe, pid: i32, statuses: Seq<i32>) -> Seq<Event> {
    seq![
        Event::PipeCreated { status: 0, read_end: pipe.read_end, write_end: pipe.write_end },
        Event::Forked { pid },
    ] + Seq::new(statuses.len(), |i: int| Event::Returned { status: statuses[i] })
}

/// Whether a launch is over without a failure.
pub open spec fn is_over(stage: Stage) -> bool {
    stage is NotPaging || stage is FailedGracefully || stage is Continuation
}

/// The launcher follows the script. Take a launcher that has asked for a
/// pipe. Once the pipe is there it asks for the fork, and after the fork
/// for the actions of the script of its role, each as soon as the one
/// before has succeeded, and for nothing else. When the last has succeeded
/// the launch is over: the answer is `Done`, and `ok` is false exactly
/// after a fork that failed. (The script of the pager process ends in the
/// replacement, which never reports success.)
pub proof fn lemma_launch_follows_script(
    state: PagerView,
    pipe: Pipe,
    pid: i32,
    statuses: Seq<i32>,
)
    requires
        state.stage == Stage::AwaitingPipe,
        statuses.len() <= script(role_of(pid as int), pipe, state.program).len(),
        forall|i: int|
            0 <= i < statuses.len() ==> verdict(
                #[trigger] script(role_of(pid as int), pipe, state.program)[i],
                statuses[i] as int,
            ) is None,
    ensures
        ({
            let role = role_of(pid as int);
            let plan = script(role, pipe, state.program);
            let events = launch_events(pipe, pid, statuses);
            let end = state_after(state, events);
            let asked = actions_of(state, events);
            if statuses.len() < plan.len() {
                &&& asked == seq![ActionView::Fork] + plan.take(statuses.len() as int + 1)
                &&& end == (PagerView {
                    stage: Stage::Running { role, step: statuses.len() as usize },
                    pipe,
                    ..state
                })
            } else {
                &&& asked == seq![ActionView::Fork] + plan + seq![ActionView::Done]
                &&& end == (PagerView {
                    stage: finished(role),
                    ok: role != ProcessRole::LaunchFailed,
                    pipe,
                    ..state
                })
            }
        }),
    decreases statuses.len(),
{
    let plan = script(role_of(pid as int), pipe, state.program);
    let events = launch_events(pipe, pid, statuses);
    if statuses.len() == 0 {
        let nothing = Seq::<Event>::empty();
        let first = seq![
            Event::PipeCreated { status: 0, read_end: pipe.read_end, write_end: pipe.write_end },
        ];
        assert(events.drop_last() == first);
        assert(first.drop_last() == nothing);
        assert(state_after(state, nothing) == state);
        assert(actions_of(state, nothing) == Seq::<ActionView>::empty());
        assert(actions_of(state, first) == seq![ActionView::Fork]);
    } else {
        let earlier = statuses.drop_last();
        lemma_launch_follows_script(state, pipe, pid, earlier);
        assert(events.drop_last() == launch_events(pipe, pid, earlier));
        if statuses.len() == plan.len() {
            assert(actions_of(state, events) == seq![ActionView::Fork] + plan + seq![
                ActionView::Done,
            ]);
        }
    }
}

/// Graceful degradation. When the fork fails, the launcher asks for the
/// two ends of the pipe to be closed and for nothing else, least of all a
/// replacement; then the launch is over and `ok` is false.
pub proof fn lemma_graceful_degradation(state: PagerView, pipe: Pipe)
    requires
        state.stage == Stage::AwaitingPipe,
    ensures
        ({
            let events = launch_events(pipe, -1i32, seq![0i32, 0i32]);
            let end = state_after(state, events);
            let asked = actions_of(state, events);
            &&& asked == seq![
                ActionView::Fork,
                ActionView::Close { descriptor: pipe.read_end },
                ActionView::Close { descriptor: pipe.write_end },
                ActionView::Done,
            ]
            &&& end.stage == Stage::FailedGracefully
            &&& !end.ok
            &&& forall|i: int| 0 <= i < asked.len() ==> !(asked[i] is Replace)
        }),
{
    let plan = script(ProcessRole::LaunchFailed, pipe, state.program);
    lemma_launch_follows_script(state, pipe, -1i32, seq![0i32, 0i32]);
    assert(seq![ActionView::Fork] + plan + seq![ActionView::Done] == seq![
        ActionView::Fork,
        ActionView::Close { descriptor: pipe.read_end },
        ActionView::Close { descriptor: pipe.write_end },
        ActionView::Done,
    ]);
}

/// A launch that is over stays over: whatever is reported to it, the
/// launcher answers `Done` and does not change.
pub proof fn lemma_over_stays_over(state: PagerView, events: Seq<Event>)
    requires
        is_over(state.stage),
    ensures
        state_after(state, events) == state,
        actions_of(state, events).len() == events.len(),
        forall|i: int|
            0 <= i < events.len() ==> actions_of(state, events)[i] == ActionView::Done,
    decreases events.len(),
{
    if events.len() > 0 {
        lemma_over_stays_over(state, events.drop_last());
    }
}

/// A process that is only ever told `Done` stays as it is.
proof fn lemma_done_changes_nothing(process: Process, actions: Seq<ActionView>)
    requires
        forall|i: int| 0 <= i < actions.len() ==> actions[i] == ActionView::Done,
    ensures
        process.perform_all(actions) == process,
    decreases actions.len(),
{
    if actions.len() > 0 {
        lemma_done_changes_nothing(process, actions.skip(1));
    }
}

/// No pager, no launch. Where the resolver finds nothing, setup answers
/// `Done` at once and `ok` is true; from then on the launcher asks for
/// nothing at all, whatever is reported to it: no pipe, no fork, and the
/// process keeps every descriptor as it was.
pub proof fn lemma_no_pager_no_launch(state: PagerView, events: Seq<Event>, process: Process)
    requires
        state.stage == Stage::Idle,
    ensures
        ({
            let (begun, first) = state.begin(None);
            &&& first == ActionView::Done
            &&& begun == (PagerView { stage: Stage::NotPaging, ok: true, ..state })
            &&& state_after(begun, events) == begun
            &&& forall|i: int|
                0 <= i < events.len() ==> actions_of(begun, events)[i] == ActionView::Done
            &&& process.perform_all(seq![first] + actions_of(begun, events)) == process
        }),
{
    let (begun, first) = state.begin(None);
    lemma_over_stays_over(begun, events);
    lemma_done_changes_nothing(process, seq![first] + actions_of(begun, events));
}

/// A failure ends the launch for good: once the launcher has asked the
/// process to terminate, it asks for nothing else.
pub proof fn lemma_aborted_stays_aborted(state: PagerView, failure: Failure, events: Seq<Event>)
    requires
        state.stage == (Stage::Aborted { failure }),
    ensures
        state_after(state, events) == state,
        actions_of(state, events).len() == events.len(),
        forall|i: int|
            0 <= i < events.len() ==> actions_of(state, events)[i] == (ActionView::Abort {
                failure,
            }),
    decreases events.len(),
{
    if events.len() > 0 {
        lemma_aborted_stays_aborted(state, failure, events.drop_last());
    }
}

/// Every launcher is consistent: a fresh one is, and neither setup nor any
/// event makes a consistent launcher inconsistent.
pub proof fn lemma_consistency_is_kept(state: PagerView, pager: Option<Seq<u8>>, event: Event)
    requires
        state.consistent(),
    ensures
        PagerView::fresh().consistent(),
        state.begin(pager).0.consistent(),
        state.next(event).0.consistent(),
{
}

} // verus!
