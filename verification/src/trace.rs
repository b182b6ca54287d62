//! Whole runs: what holds of every sequence of events that a driver may be
//! handed, from its first step on.

use crate::driver::exit_status_after;
use crate::driver::faulted;
use crate::driver::tells_of_fault;
use crate::driver::transition;
use crate::driver::ActionView;
use crate::driver::Driver;
use crate::driver::EventView;
use crate::driver::Phase;
use vstd::prelude::*;

verus! {

/// The phase in which a run over `scripts` stands after `events`, handed to
/// a fresh driver one by one.
pub open spec fn phase_after(scripts: Seq<Seq<char>>, events: Seq<EventView>) -> Phase
    decreases events.len(),
{
    if events.len() == 0 {
        Phase::Idle
    } else {
        transition(scripts, phase_after(scripts, events.drop_last()), events.last()).0
    }
}

/// The action with which the driver answers the last of `events`.
pub open spec fn last_action(scripts: Seq<Seq<char>>, events: Seq<EventView>) -> ActionView
    recommends
        events.len() > 0,
{
    transition(scripts, phase_after(scripts, events.drop_last()), events.last()).1
}

/// Script `i` was being run at some point during `events`.
pub open spec fn has_run(scripts: Seq<Seq<char>>, events: Seq<EventView>, i: usize) -> bool {
    exists|m: int|
        0 <= m <= events.len() && #[trigger] phase_after(scripts, events.take(m))
            == Phase::Running(i)
}

/// No run returns to its first phase: once an event has been handed in, the
/// run is never idle again.
pub proof fn lemma_never_idle_again(scripts: Seq<Seq<char>>, events: Seq<EventView>)
    requires
        events.len() > 0,
    ensures
        phase_after(scripts, events) != Phase::Idle,
{
}

/// The engine is initialized at most once in a run, and the context built at
/// most once: only the first event can be answered by the initialization,
/// and only the second by the construction of the context.
pub proof fn lemma_one_engine_one_context(scripts: Seq<Seq<char>>, events: Seq<EventView>)
    requires
        events.len() > 0,
    ensures
        last_action(scripts, events) == ActionView::InitializeEngine ==> events.len() == 1,
        last_action(scripts, events) == ActionView::BuildContext ==> events.len() == 2,
{
    let before = events.drop_last();
    if before.len() > 0 {
        lemma_never_idle_again(scripts, before);
        if last_action(scripts, events) == ActionView::BuildContext {
            assert(phase_after(scripts, before) == Phase::Initializing);
            if before.drop_last().len() > 0 {
                lemma_never_idle_again(scripts, before.drop_last());
            }
        }
    }
}

/// Whenever script `j` is being compiled or run, or its diagnostic
/// reported, every script before it has been run earlier in the same run,
/// whether or not it threw. Applied to a bootstrap module, this is the
/// declared order; applied to the entry script, the last of `scripts`, it
/// says that every bootstrap module ran before it.
pub proof fn lemma_earlier_scripts_have_run(
    scripts: Seq<Seq<char>>,
    events: Seq<EventView>,
    j: usize,
    i: usize,
)
    requires
        1 <= scripts.len() <= usize::MAX + 1,
        phase_after(scripts, events) == Phase::Compiling(j) || phase_after(scripts, events)
            == Phase::Running(j) || phase_after(scripts, events) == Phase::Reporting(j),
        i < j,
    ensures
        has_run(scripts, events, i),
    decreases events.len(),
{
    if events.len() > 0 {
        let before = events.drop_last();
        let previous = phase_after(scripts, before);
        assert(events.take(events.len() - 1) == before);
        if phase_after(scripts, events) == Phase::Running(j) {
            assert(previous == Phase::Compiling(j));
            lemma_earlier_scripts_have_run(scripts, before, j, i);
        } else if phase_after(scripts, events) == Phase::Reporting(j) {
            assert(previous == Phase::Running(j));
            lemma_earlier_scripts_have_run(scripts, before, j, i);
        } else {
            let last = (j - 1) as usize;
            assert(previous == Phase::Running(last) || previous == Phase::Reporting(last));
            if i < j - 1 {
                lemma_earlier_scripts_have_run(scripts, before, last, i);
            } else if previous == Phase::Reporting(last) {
                assert(before.len() > 0);
                assert(phase_after(scripts, before.drop_last()) == Phase::Running(last));
                assert(events.take(events.len() - 2) == before.drop_last());
            }
        }
        if has_run(scripts, before, i) {
            let m = choose|m: int|
                0 <= m <= before.len() && #[trigger] phase_after(scripts, before.take(m))
                    == Phase::Running(i);
            assert(before.take(m) == events.take(m));
        }
    }
}

/// A fault is never forgotten: `faulted` holds of a run exactly when one of
/// its events tells of a script's fault.
pub proof fn lemma_faulted_is_some_fault(events: Seq<EventView>)
    ensures
        faulted(events) <==> exists|k: int|
            0 <= k < events.len() && tells_of_fault(#[trigger] events[k]),
    decreases events.len(),
{
    if events.len() > 0 {
        let before = events.drop_last();
        lemma_faulted_is_some_fault(before);
        if faulted(before) {
            let k = choose|k: int| 0 <= k < before.len() && tells_of_fault(#[trigger] before[k]);
            assert(tells_of_fault(events[k]));
        } else if tells_of_fault(events.last()) {
            assert(tells_of_fault(events[events.len() - 1]));
        } else {
            assert forall|k: int| 0 <= k < events.len() implies !tells_of_fault(
                #[trigger] events[k],
            ) by {
                if k < before.len() {
                    assert(events[k] == before[k]);
                }
            }
        }
    }
}

/// The process ends with status 0 exactly when no script was at fault and
/// the run was not abandoned. So a script that could not be read, did not
/// compile or threw, a bootstrap module or the entry script, gives a status
/// other than 0, whatever followed it.
pub proof fn lemma_exit_status(scripts: Seq<Seq<char>>, events: Seq<EventView>)
    ensures
        exit_status_after(scripts, events) == 0 || exit_status_after(scripts, events) == 1,
        exit_status_after(scripts, events) == 0 <==> phase_after(scripts, events) != Phase::Aborted
            && forall|k: int| 0 <= k < events.len() ==> !tells_of_fault(#[trigger] events[k]),
{
    lemma_faulted_is_some_fault(events);
}

/// Whether scripts are compiled or run, a failure reported or the engine
/// disposed of in `phase`.
pub open spec fn past_construction(phase: Phase) -> bool {
    phase is Compiling || phase is Running || phase is Reporting || phase == Phase::ShuttingDown
        || phase == Phase::Finished
}

/// Initialization comes first, the context second, and everything else
/// behind them: a run that compiles or runs a script, reports or shuts down
/// began with the start, the initialized engine and the built context, in
/// this order.
pub proof fn lemma_scripts_follow_construction(scripts: Seq<Seq<char>>, events: Seq<EventView>)
    ensures
        phase_after(scripts, events) == Phase::Initializing ==> events == seq![EventView::Start],
        phase_after(scripts, events) == Phase::BuildingContext ==> events == seq![
            EventView::Start,
            EventView::EngineInitialized,
        ],
        past_construction(phase_after(scripts, events)) ==> events.len() >= 3 && events.take(3)
            == seq![EventView::Start, EventView::EngineInitialized, EventView::ContextBuilt],
    decreases events.len(),
{
    if events.len() > 0 {
        let before = events.drop_last();
        lemma_scripts_follow_construction(scripts, before);
        assert(events == before.push(events.last()));
        let previous = phase_after(scripts, before);
        if phase_after(scripts, events) == Phase::Initializing {
            assert(previous == Phase::Idle);
            if before.len() > 0 {
                lemma_never_idle_again(scripts, before);
            }
            assert(events =~= seq![EventView::Start]);
        } else if phase_after(scripts, events) == Phase::BuildingContext {
            assert(previous == Phase::Initializing);
            assert(events =~= seq![EventView::Start, EventView::EngineInitialized]);
        } else if past_construction(phase_after(scripts, events)) {
            if previous == Phase::BuildingContext {
                assert(events.take(3) =~= seq![
                    EventView::Start,
                    EventView::EngineInitialized,
                    EventView::ContextBuilt,
                ]);
            } else {
                assert(past_construction(previous));
                assert(events.take(3) =~= before.take(3));
            }
        }
    }
}

/// A script is run only after it compiled: whenever script `j` is being
/// run, the event just before was its successful compilation.
pub proof fn lemma_running_script_compiled(
    scripts: Seq<Seq<char>>,
    events: Seq<EventView>,
    j: usize,
)
    requires
        phase_after(scripts, events) == Phase::Running(j),
    ensures
        events.len() > 0,
        events.last() == EventView::Compiled,
        phase_after(scripts, events.drop_last()) == Phase::Compiling(j),
        last_action(scripts, events) == ActionView::Run,
{
}

/// What the whole-run laws say of a driver as it stands: while it compiles
/// or runs script `j`, or reports its diagnostic, every script before `j`
/// has been run in its own history, which began with initialization and the
/// context.
pub proof fn lemma_driver_keeps_order(driver: &Driver, j: usize, i: usize)
    requires
        driver.wf(),
        driver.phase() == Phase::Compiling(j) || driver.phase() == Phase::Running(j)
            || driver.phase() == Phase::Reporting(j),
        i < j,
    ensures
        has_run(driver.scripts(), driver.history(), i),
        driver.history().len() >= 3,
        driver.history().take(3) == seq![
            EventView::Start,
            EventView::EngineInitialized,
            EventView::ContextBuilt,
        ],
{
    lemma_earlier_scripts_have_run(driver.scripts(), driver.history(), j, i);
    lemma_scripts_follow_construction(driver.scripts(), driver.history());
}

} // verus!
