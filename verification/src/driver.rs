//! The order of a run: engine initialization, context construction, the
//! bootstrap modules in their declared order, the entry script, the report
//! of every script that throws, shutdown, and the status the process ends
//! with. The driver decides; its caller performs each action and hands back
//! what happened.

use crate::lifecycle::execute_outcome;
use crate::lifecycle::Lifecycle;
use crate::lifecycle::LifecycleError;
use crate::lifecycle::LifecycleView;
use crate::lifecycle::Stage;
use crate::origin::origin_of;
use crate::origin::ScriptOrigin;
use crate::origin::ScriptOriginView;
use crate::trace::phase_after;
use vstd::prelude::*;
use vstd::string::StringExecFns;

verus! {

/// Where a run stands. Each phase but the first and the last two waits for
/// the outcome of the action that opened it.
#[derive(Clone, Copy, Debug, PartialEq, Eq, Structural)]
pub enum Phase {
    /// Nothing has happened yet.
    Idle,
    /// The engine is being initialized.
    Initializing,
    /// The execution context is being built.
    BuildingContext,
    /// The script with this index is being compiled.
    Compiling(usize),
    /// The script with this index is being run.
    Running(usize),
    /// The diagnostic of the script with this index, which threw, is being
    /// reported.
    Reporting(usize),
    /// The engine is being disposed of.
    ShuttingDown,
    /// The run is complete.
    Finished,
    /// The run was abandoned.
    Aborted,
}

/// What the caller reports back to the driver.
#[derive(Debug)]
pub enum Event {
    /// The process has started.
    Start,
    /// The engine is initialized.
    EngineInitialized,
    /// The execution context is built.
    ContextBuilt,
    /// The script's file could not be read; the text says why.
    SourceUnreadable(String),
    /// The script compiled.
    Compiled,
    /// The script did not compile; the text is the diagnostic.
    CompileFailed(String),
    /// The script ran to its end.
    RunSucceeded,
    /// The script threw; the text is the diagnostic.
    RunFailed(String),
    /// The diagnostic has been written to standard error.
    Reported,
    /// The engine is disposed of.
    EngineDisposed,
}

/// An event as contracts see it.
pub enum EventView {
    Start,
    EngineInitialized,
    ContextBuilt,
    SourceUnreadable(Seq<char>),
    Compiled,
    CompileFailed(Seq<char>),
    RunSucceeded,
    RunFailed(Seq<char>),
    Reported,
    EngineDisposed,
}

impl Event {
    /// Whether the event tells of the fault of a script.
    pub fn is_fault(&self) -> (fault: bool)
        ensures
            fault == tells_of_fault(self@),
    {
        match self {
            Event::SourceUnreadable(_) => true,
            Event::CompileFailed(_) => true,
            Event::RunFailed(_) => true,
            _ => false,
        }
    }
}

impl View for Event {
    type V = EventView;

    open spec fn view(&self) -> EventView {
        match self {
            Event::Start => EventView::Start,
            Event::EngineInitialized => EventView::EngineInitialized,
            Event::ContextBuilt => EventView::ContextBuilt,
            Event::SourceUnreadable(reason) => EventView::SourceUnreadable(reason@),
            Event::Compiled => EventView::Compiled,
            Event::CompileFailed(diagnostic) => EventView::CompileFailed(diagnostic@),
            Event::RunSucceeded => EventView::RunSucceeded,
            Event::RunFailed(diagnostic) => EventView::RunFailed(diagnostic@),
            Event::Reported => EventView::Reported,
            Event::EngineDisposed => EventView::EngineDisposed,
        }
    }
}

/// Why a run was abandoned.
#[derive(Clone, Copy, Debug, PartialEq, Eq, Structural)]
pub enum AbortReason {
    /// A script's file could not be read.
    SourceUnreadable,
    /// A script did not compile.
    CompileFailed,
    /// An event arrived that the phase does not wait for.
    UnexpectedEvent,
}

/// What the caller is to do next.
#[derive(Debug)]
pub enum Action {
    /// Initialize the platform and the engine.
    InitializeEngine,
    /// Build the execution context with the native surface.
    BuildContext,
    /// Read the script at the origin's locator and compile it under this
    /// origin.
    Compile(ScriptOrigin),
    /// Run the script that was just compiled.
    Run,
    /// Write this diagnostic to standard error.
    Report(String),
    /// Dispose of the engine and the platform.
    Shutdown,
    /// Nothing is left to do.
    Finish,
    /// Stop at once, with this text as the diagnostic.
    Abort(AbortReason, String),
}

/// An action as contracts see it.
pub enum ActionView {
    InitializeEngine,
    BuildContext,
    Compile(ScriptOriginView),
    Run,
    Report(Seq<char>),
    Shutdown,
    Finish,
    Abort(AbortReason, Seq<char>),
}

impl View for Action {
    type V = ActionView;

    open spec fn view(&self) -> ActionView {
        match self {
            Action::InitializeEngine => ActionView::InitializeEngine,
            Action::BuildContext => ActionView::BuildContext,
            Action::Compile(origin) => ActionView::Compile(origin@),
            Action::Run => ActionView::Run,
            Action::Report(diagnostic) => ActionView::Report(diagnostic@),
            Action::Shutdown => ActionView::Shutdown,
            Action::Finish => ActionView::Finish,
            Action::Abort(reason, diagnostic) => ActionView::Abort(*reason, diagnostic@),
        }
    }
}

/// The diagnostic of an event that the phase does not wait for.
pub open spec fn unexpected_event_text() -> Seq<char> {
    "event does not fit the phase of the run"@
}

/// The step that opens script `i` of `scripts`.
pub open spec fn open_script(scripts: Seq<Seq<char>>, i: int) -> (Phase, ActionView) {
    (Phase::Compiling(i as usize), ActionView::Compile(origin_of(scripts[i])))
}

/// The step that follows script `i` once it has run without failure, or
/// its diagnostic has been reported: the next script, or shutdown behind
/// the last.
pub open spec fn after_script(scripts: Seq<Seq<char>>, i: int) -> (Phase, ActionView) {
    if i + 1 < scripts.len() {
        open_script(scripts, i + 1)
    } else {
        (Phase::ShuttingDown, ActionView::Shutdown)
    }
}

/// The phase that follows `phase` on `event`, and the action to perform,
/// for a run over `scripts`: the bootstrap modules in declared order, then
/// the entry script.
///
/// A script that cannot be read or does not compile ends the run. The
/// diagnostic of a script that throws is reported, for a bootstrap module
/// as for the entry script; the run then goes on behind that script.
pub open spec fn transition(scripts: Seq<Seq<char>>, phase: Phase, event: EventView) -> (
    Phase,
    ActionView,
) {
    match (phase, event) {
        (Phase::Idle, EventView::Start) => (Phase::Initializing, ActionView::InitializeEngine),
        (Phase::Initializing, EventView::EngineInitialized) => (
            Phase::BuildingContext,
            ActionView::BuildContext,
        ),
        (Phase::BuildingContext, EventView::ContextBuilt) => open_script(scripts, 0),
        (Phase::Compiling(_), EventView::SourceUnreadable(reason)) => (
            Phase::Aborted,
            ActionView::Abort(AbortReason::SourceUnreadable, reason),
        ),
        (Phase::Compiling(i), EventView::Compiled) => (Phase::Running(i), ActionView::Run),
        (Phase::Compiling(_), EventView::CompileFailed(diagnostic)) => (
            Phase::Aborted,
            ActionView::Abort(AbortReason::CompileFailed, diagnostic),
        ),
        (Phase::Running(i), EventView::RunSucceeded) => after_script(scripts, i as int),
        (Phase::Running(i), EventView::RunFailed(diagnostic)) => (
            Phase::Reporting(i),
            ActionView::Report(diagnostic),
        ),
        (Phase::Reporting(i), EventView::Reported) => after_script(scripts, i as int),
        (Phase::ShuttingDown, EventView::EngineDisposed) => (Phase::Finished, ActionView::Finish),
        _ => (
            Phase::Aborted,
            ActionView::Abort(AbortReason::UnexpectedEvent, unexpected_event_text()),
        ),
    }
}

/// Whether `event` tells of the fault of a script: its source could not be
/// read, it did not compile, or it threw.
pub open spec fn tells_of_fault(event: EventView) -> bool {
    event is SourceUnreadable || event is CompileFailed || event is RunFailed
}

/// Whether one of `events` tells of the fault of a script.
pub open spec fn faulted(events: Seq<EventView>) -> bool
    decreases events.len(),
{
    if events.len() == 0 {
        false
    } else {
        faulted(events.drop_last()) || tells_of_fault(events.last())
    }
}

/// The status with which the process ends after `events`: 0 where no script
/// was at fault and the run was not abandoned, and 1 otherwise.
pub open spec fn exit_status_after(scripts: Seq<Seq<char>>, events: Seq<EventView>) -> int {
    if faulted(events) || phase_after(scripts, events) == Phase::Aborted {
        1
    } else {
        0
    }
}

/// The state of the engine's lifecycle while a run stands in `phase`. An
/// abandoned run is listed with a finished one, but keeps the state it was
/// abandoned in: `Driver::wf` asks nothing of it.
pub open spec fn lifecycle_in(phase: Phase) -> LifecycleView {
    match phase {
        Phase::Idle | Phase::Initializing => LifecycleView {
            stage: Stage::Created,
            context_built: false,
        },
        Phase::BuildingContext => LifecycleView { stage: Stage::Running, context_built: false },
        Phase::Compiling(_) | Phase::Running(_) | Phase::Reporting(_) | Phase::ShuttingDown => {
            LifecycleView { stage: Stage::Running, context_built: true }
        },
        Phase::Finished | Phase::Aborted => LifecycleView {
            stage: Stage::ShutDown,
            context_built: false,
        },
    }
}

/// Decides the order of a run over its scripts.
pub struct Driver {
    bootstrap: Vec<String>,
    entry: String,
    phase: Phase,
    lifecycle: Lifecycle,
    fault_seen: bool,
    history: Ghost<Seq<EventView>>,
}

/// The bootstrap modules of the standard run, in the order they execute.
pub open spec fn standard_bootstrap() -> Seq<Seq<char>> {
    seq!["./src/modules/require.js"@, "./src/modules/console.js"@, "./src/modules/colors.js"@]
}

/// The entry script of the standard run, relative to the working directory.
pub open spec fn standard_entry() -> Seq<char> {
    "./done.js"@
}

impl Driver {
    /// The paths of the scripts of the run: the bootstrap modules in declared
    /// order, then the entry script.
    pub closed spec fn scripts(&self) -> Seq<Seq<char>> {
        Seq::new(self.bootstrap@.len(), |i: int| self.bootstrap@[i]@).push(self.entry@)
    }

    /// The phase the run stands in.
    pub closed spec fn phase(&self) -> Phase {
        self.phase
    }

    /// The state of the engine's lifecycle.
    pub closed spec fn lifecycle(&self) -> LifecycleView {
        self.lifecycle@
    }

    /// The events that the driver has been handed so far, oldest first.
    pub closed spec fn history(&self) -> Seq<EventView> {
        self.history@
    }

    /// Whether the driver has noted the fault of a script.
    pub closed spec fn fault_seen(&self) -> bool {
        self.fault_seen
    }

    /// The phase is the one that the events so far lead to, a fault is noted
    /// exactly when one of them told of it, a script that is being compiled,
    /// run or reported on is one of the run's scripts, and unless the run was
    /// abandoned the lifecycle is in the state that belongs to the phase.
    pub open spec fn wf(&self) -> bool {
        &&& 1 <= self.scripts().len() <= usize::MAX + 1
        &&& self.phase() == phase_after(self.scripts(), self.history())
        &&& self.phase() matches Phase::Compiling(i) ==> i < self.scripts().len()
        &&& self.phase() matches Phase::Running(i) ==> i < self.scripts().len()
        &&& self.phase() matches Phase::Reporting(i) ==> i < self.scripts().len()
        &&& self.fault_seen() == faulted(self.history())
        &&& self.lifecycle().wf()
        &&& self.phase() != Phase::Aborted ==> self.lifecycle() == lifecycle_in(self.phase())
    }

    /// A driver for a run over the given bootstrap modules, in this order,
    /// and the entry script.
    pub fn new(bootstrap: Vec<String>, entry: String) -> (driver: Driver)
        ensures
            driver.scripts() == bootstrap@.map_values(|path: String| path@).push(entry@),
            driver.phase() == Phase::Idle,
            driver.history() == Seq::<EventView>::empty(),
            driver.wf(),
    {
        assert(bootstrap.len() <= usize::MAX);
        let driver = Driver {
            bootstrap,
            entry,
            phase: Phase::Idle,
            lifecycle: Lifecycle::new(),
            fault_seen: false,
            history: Ghost(Seq::empty()),
        };
        assert(driver.scripts() =~= bootstrap@.map_values(|path: String| path@).push(entry@));
        driver
    }

    /// A driver for the standard run: the module loader, the console and the
    /// colors module, then the entry script.
    pub fn standard() -> (driver: Driver)
        ensures
            driver.scripts() == standard_bootstrap().push(standard_entry()),
            driver.phase() == Phase::Idle,
            driver.history() == Seq::<EventView>::empty(),
            driver.wf(),
    {
        let mut bootstrap: Vec<String> = Vec::new();
        bootstrap.push(String::from_str("./src/modules/require.js"));
        bootstrap.push(String::from_str("./src/modules/console.js"));
        bootstrap.push(String::from_str("./src/modules/colors.js"));
        let driver = Driver::new(bootstrap, String::from_str("./done.js"));
        assert(driver.scripts() =~= standard_bootstrap().push(standard_entry()));
        driver
    }

    /// The phase the run stands in.
    pub fn current_phase(&self) -> (phase: Phase)
        ensures
            phase == self.phase(),
    {
        self.phase
    }

    /// The engine's lifecycle as the run has driven it.
    pub fn current_lifecycle(&self) -> (lifecycle: Lifecycle)
        ensures
            lifecycle@ == self.lifecycle(),
    {
        self.lifecycle
    }

    /// The status with which the process is to end as the run stands: 0
    /// where no script was at fault and the run was not abandoned, and 1
    /// otherwise.
    pub fn exit_status(&self) -> (code: i32)
        requires
            self.wf(),
        ensures
            code == exit_status_after(self.scripts(), self.history()),
            code == 0 <==> !faulted(self.history()) && self.phase() != Phase::Aborted,
    {
        if self.fault_seen {
            1
        } else {
            match self.phase {
                Phase::Aborted => 1,
                _ => 0,
            }
        }
    }

    /// The number of bootstrap modules, which is also the index of the
    /// entry script.
    pub fn bootstrap_count(&self) -> (n: usize)
        ensures
            n == self.scripts().len() - 1,
    {
        self.bootstrap.len()
    }

    /// Opens script `i`: its origin goes out to be compiled.
    fn open(&mut self, i: usize) -> (action: Action)
        requires
            i < old(self).scripts().len(),
            old(self).lifecycle() == lifecycle_in(Phase::Compiling(i)),
        ensures
            final(self).scripts() == old(self).scripts(),
            final(self).lifecycle() == old(self).lifecycle(),
            final(self).history() == old(self).history(),
            final(self).fault_seen() == old(self).fault_seen(),
            (final(self).phase(), action@) == open_script(old(self).scripts(), i as int),
    {
        let origin = if i < self.bootstrap.len() {
            ScriptOrigin::for_path(self.bootstrap[i].as_str())
        } else {
            ScriptOrigin::for_path(self.entry.as_str())
        };
        self.phase = Phase::Compiling(i);
        Action::Compile(origin)
    }

    /// Goes on behind script `i`: to the next script, or to shutdown.
    fn close(&mut self, i: usize) -> (action: Action)
        requires
            i < old(self).scripts().len(),
            old(self).lifecycle() == lifecycle_in(Phase::Running(i)),
        ensures
            final(self).scripts() == old(self).scripts(),
            final(self).lifecycle() == old(self).lifecycle(),
            final(self).history() == old(self).history(),
            final(self).fault_seen() == old(self).fault_seen(),
            (final(self).phase(), action@) == after_script(old(self).scripts(), i as int),
    {
        if i < self.bootstrap.len() {
            self.open(i + 1)
        } else {
            self.phase = Phase::ShuttingDown;
            Action::Shutdown
        }
    }

    /// Abandons the run.
    fn abort(&mut self, reason: AbortReason, diagnostic: String) -> (action: Action)
        ensures
            final(self).scripts() == old(self).scripts(),
            final(self).lifecycle() == old(self).lifecycle(),
            final(self).history() == old(self).history(),
            final(self).fault_seen() == old(self).fault_seen(),
            final(self).phase() == Phase::Aborted,
            action@ == ActionView::Abort(reason, diagnostic@),
    {
        self.phase = Phase::Aborted;
        Action::Abort(reason, diagnostic)
    }

    /// Takes what happened and says what to do next. The lifecycle moves
    /// with the phase; a run that is abandoned keeps the state it had.
    pub fn step(&mut self, event: Event) -> (action: Action)
        requires
            old(self).wf(),
        ensures
            final(self).wf(),
            final(self).scripts() == old(self).scripts(),
            final(self).history() == old(self).history().push(event@),
            faulted(final(self).history()) == (faulted(old(self).history()) || tells_of_fault(
                event@,
            )),
            (final(self).phase(), action@) == transition(
                old(self).scripts(),
                old(self).phase(),
                event@,
            ),
            final(self).phase() == Phase::Aborted ==> final(self).lifecycle() == old(
                self,
            ).lifecycle(),
    {
        let ghost handed = event@;
        if event.is_fault() {
            self.fault_seen = true;
        }
        let action = match (self.phase, event) {
            (Phase::Idle, Event::Start) => {
                self.phase = Phase::Initializing;
                Action::InitializeEngine
            },
            (Phase::Initializing, Event::EngineInitialized) => {
                // Accepted: in this phase the lifecycle is not yet initialized.
                let _started = self.lifecycle.initialize();
                self.phase = Phase::BuildingContext;
                Action::BuildContext
            },
            (Phase::BuildingContext, Event::ContextBuilt) => {
                // Accepted: the engine runs and has no context yet.
                let _built = self.lifecycle.create_context();
                self.open(0)
            },
            (Phase::Compiling(_), Event::SourceUnreadable(reason)) => {
                self.abort(AbortReason::SourceUnreadable, reason)
            },
            (Phase::Compiling(i), Event::Compiled) => {
                self.phase = Phase::Running(i);
                Action::Run
            },
            (Phase::Compiling(_), Event::CompileFailed(diagnostic)) => {
                self.abort(AbortReason::CompileFailed, diagnostic)
            },
            (Phase::Running(i), Event::RunSucceeded) => self.close(i),
            (Phase::Running(i), Event::RunFailed(diagnostic)) => {
                self.phase = Phase::Reporting(i);
                Action::Report(diagnostic)
            },
            (Phase::Reporting(i), Event::Reported) => self.close(i),
            (Phase::ShuttingDown, Event::EngineDisposed) => {
                // Accepted: the engine still runs.
                let _stopped = self.lifecycle.shutdown();
                self.phase = Phase::Finished;
                Action::Finish
            },
            _ => self.abort(
                AbortReason::UnexpectedEvent,
                String::from_str("event does not fit the phase of the run"),
            ),
        };
        proof {
            assert(old(self).history().push(handed).drop_last() == old(self).history());
        }
        self.history = Ghost(self.history@.push(handed));
        action
    }
}

/// Scripts are opened in their declared order: script 0 when the context
/// is built, and script `j` with `j > 0` only when script `j - 1` has just
/// run to its end, or has thrown and its diagnostic has just been reported.
/// So every bootstrap module has run before the next one is compiled, and
/// all of them before the entry script, which is the last.
pub proof fn lemma_scripts_open_in_order(
    scripts: Seq<Seq<char>>,
    phase: Phase,
    event: EventView,
    j: usize,
)
    requires
        1 <= scripts.len() <= usize::MAX + 1,
        transition(scripts, phase, event).0 == Phase::Compiling(j),
    ensures
        transition(scripts, phase, event).1 == ActionView::Compile(origin_of(scripts[j as int])),
        j < scripts.len(),
        j == 0 ==> phase == Phase::BuildingContext && event == EventView::ContextBuilt,
        j > 0 ==> (phase == Phase::Running((j - 1) as usize) && event == EventView::RunSucceeded)
            || (phase == Phase::Reporting((j - 1) as usize) && event == EventView::Reported),
{
}

/// A script is run only when it has just compiled, and it is the script that
/// compiled.
pub proof fn lemma_run_follows_compile(scripts: Seq<Seq<char>>, phase: Phase, event: EventView)
    requires
        transition(scripts, phase, event).1 == ActionView::Run,
    ensures
        event == EventView::Compiled,
        phase is Compiling,
        transition(scripts, phase, event).0 == Phase::Running(phase->Compiling_0),
{
}

/// Every script that throws has its diagnostic reported, a bootstrap module
/// as the entry script: a diagnostic is reported exactly when the script
/// that is being run threw, the text reported is the diagnostic as it came,
/// and the run waits for the report before it goes on.
pub proof fn lemma_every_exception_is_reported(
    scripts: Seq<Seq<char>>,
    phase: Phase,
    event: EventView,
    diagnostic: Seq<char>,
)
    ensures
        transition(scripts, phase, event).1 == ActionView::Report(diagnostic) <==> phase is Running
            && event == EventView::RunFailed(diagnostic),
        phase matches Phase::Running(i) ==> transition(
            scripts,
            phase,
            EventView::RunFailed(diagnostic),
        ) == (Phase::Reporting(i), ActionView::Report(diagnostic)),
{
}

/// Once a diagnostic has been reported the run goes on as after a script
/// that ran to its end: with the next script, or with shutdown behind the
/// last.
pub proof fn lemma_run_goes_on_after_report(scripts: Seq<Seq<char>>, i: usize)
    ensures
        transition(scripts, Phase::Reporting(i), EventView::Reported) == transition(
            scripts,
            Phase::Running(i),
            EventView::RunSucceeded,
        ),
        transition(scripts, Phase::Reporting(i), EventView::Reported) == after_script(
            scripts,
            i as int,
        ),
{
}

/// A run that has finished or was abandoned accepts nothing more: whatever
/// arrives is answered by an abort, never by silence or by another script.
pub proof fn lemma_nothing_follows_the_end(scripts: Seq<Seq<char>>, phase: Phase, event: EventView)
    requires
        phase == Phase::Finished || phase == Phase::Aborted,
    ensures
        transition(scripts, phase, event) == (
            Phase::Aborted,
            ActionView::Abort(AbortReason::UnexpectedEvent, unexpected_event_text()),
        ),
{
}

/// While a script is compiled or run, one engine and one context exist and
/// the lifecycle permits execution; once the run has finished the lifecycle
/// rejects it, the engine being shut down.
pub proof fn lemma_scripts_execute_within_lifecycle(phase: Phase)
    ensures
        phase is Compiling || phase is Running ==> execute_outcome(lifecycle_in(phase)) is Ok
            && lifecycle_in(phase).engines() == 1 && lifecycle_in(phase).contexts() == 1,
        phase == Phase::Finished ==> execute_outcome(lifecycle_in(phase)) == Err::<
            (),
            LifecycleError,
        >(LifecycleError::AlreadyShutDown),
{
}

} // verus!
