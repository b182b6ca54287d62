//! The lifecycle of the one engine instance and its one execution context.

use vstd::prelude::*;

verus! {

/// How far the engine has come.
#[derive(Clone, Copy, Debug, PartialEq, Eq, Structural)]
pub enum Stage {
    /// Not initialized yet.
    Created,
    /// Initialized and not yet shut down.
    Running,
    /// Shut down; nothing can follow.
    ShutDown,
}

/// Why a lifecycle operation was rejected.
#[derive(Clone, Copy, Debug, PartialEq, Eq, Structural)]
pub enum LifecycleError {
    /// The engine has not been initialized.
    NotInitialized,
    /// The engine is already initialized.
    AlreadyInitialized,
    /// The engine has been shut down.
    AlreadyShutDown,
    /// The execution context already exists.
    ContextExists,
    /// No execution context has been built.
    NoContext,
}

/// Tracks the engine instance and the execution context of a process.
#[derive(Clone, Copy, Debug)]
pub struct Lifecycle {
    stage: Stage,
    context_built: bool,
}

/// The state of a lifecycle as contracts see it.
pub struct LifecycleView {
    pub stage: Stage,
    pub context_built: bool,
}

/// Whether `initialize` is accepted in state `s`, and why not.
pub open spec fn initialize_outcome(s: LifecycleView) -> Result<(), LifecycleError> {
    match s.stage {
        Stage::Created => Ok(()),
        Stage::Running => Err(LifecycleError::AlreadyInitialized),
        Stage::ShutDown => Err(LifecycleError::AlreadyShutDown),
    }
}

/// Whether `create_context` is accepted in state `s`, and why not.
pub open spec fn create_context_outcome(s: LifecycleView) -> Result<(), LifecycleError> {
    match s.stage {
        Stage::Created => Err(LifecycleError::NotInitialized),
        Stage::Running => if s.context_built {
            Err(LifecycleError::ContextExists)
        } else {
            Ok(())
        },
        Stage::ShutDown => Err(LifecycleError::AlreadyShutDown),
    }
}

/// Whether a script may be compiled or run in state `s`, and why not.
pub open spec fn execute_outcome(s: LifecycleView) -> Result<(), LifecycleError> {
    match s.stage {
        Stage::Created => Err(LifecycleError::NotInitialized),
        Stage::Running => if s.context_built {
            Ok(())
        } else {
            Err(LifecycleError::NoContext)
        },
        Stage::ShutDown => Err(LifecycleError::AlreadyShutDown),
    }
}

/// Whether `shutdown` is accepted in state `s`, and why not.
pub open spec fn shutdown_outcome(s: LifecycleView) -> Result<(), LifecycleError> {
    match s.stage {
        Stage::Created => Err(LifecycleError::NotInitialized),
        Stage::Running => Ok(()),
        Stage::ShutDown => Err(LifecycleError::AlreadyShutDown),
    }
}

impl LifecycleView {
    /// The number of engine instances that exist in this state.
    pub open spec fn engines(self) -> nat {
        if self.stage == Stage::Running {
            1
        } else {
            0
        }
    }

    /// The number of execution contexts that exist in this state.
    pub open spec fn contexts(self) -> nat {
        if self.context_built {
            1
        } else {
            0
        }
    }

    /// A context exists only while the engine runs.
    pub open spec fn wf(self) -> bool {
        self.context_built ==> self.stage == Stage::Running
    }
}

impl View for Lifecycle {
    type V = LifecycleView;

    closed spec fn view(&self) -> LifecycleView {
        LifecycleView { stage: self.stage, context_built: self.context_built }
    }
}

impl Lifecycle {
    /// A lifecycle before initialization: no engine, no context.
    pub fn new() -> (lifecycle: Lifecycle)
        ensures
            lifecycle@ == (LifecycleView { stage: Stage::Created, context_built: false }),
            lifecycle@.wf(),
    {
        Lifecycle { stage: Stage::Created, context_built: false }
    }

    /// The stage the engine is in.
    pub fn stage(&self) -> (stage: Stage)
        ensures
            stage == self@.stage,
    {
        self.stage
    }

    /// Whether the execution context exists.
    pub fn has_context(&self) -> (built: bool)
        ensures
            built == self@.context_built,
    {
        self.context_built
    }

    /// Records that the engine is being initialized. Accepted once, before
    /// anything else; a rejected call changes nothing.
    pub fn initialize(&mut self) -> (outcome: Result<(), LifecycleError>)
        requires
            old(self)@.wf(),
        ensures
            outcome == initialize_outcome(old(self)@),
            outcome is Ok ==> final(self)@ == (LifecycleView {
                stage: Stage::Running,
                context_built: false,
            }),
            outcome is Err ==> final(self)@ == old(self)@,
            final(self)@.wf(),
    {
        match self.stage {
            Stage::Created => {
                self.stage = Stage::Running;
                Ok(())
            },
            Stage::Running => Err(LifecycleError::AlreadyInitialized),
            Stage::ShutDown => Err(LifecycleError::AlreadyShutDown),
        }
    }

    /// Records that the execution context is being built. Accepted once,
    /// while the engine runs; a rejected call changes nothing.
    pub fn create_context(&mut self) -> (outcome: Result<(), LifecycleError>)
        requires
            old(self)@.wf(),
        ensures
            outcome == create_context_outcome(old(self)@),
            outcome is Ok ==> final(self)@ == (LifecycleView {
                stage: Stage::Running,
                context_built: true,
            }),
            outcome is Err ==> final(self)@ == old(self)@,
            final(self)@.wf(),
    {
        match self.stage {
            Stage::Created => Err(LifecycleError::NotInitialized),
            Stage::Running => {
                if self.context_built {
                    Err(LifecycleError::ContextExists)
                } else {
                    self.context_built = true;
                    Ok(())
                }
            },
            Stage::ShutDown => Err(LifecycleError::AlreadyShutDown),
        }
    }

    /// Whether a script may be compiled or run now: only while the engine
    /// runs and its context exists.
    pub fn check_execute(&self) -> (outcome: Result<(), LifecycleError>)
        ensures
            outcome == execute_outcome(self@),
    {
        match self.stage {
            Stage::Created => Err(LifecycleError::NotInitialized),
            Stage::Running => {
                if self.context_built {
                    Ok(())
                } else {
                    Err(LifecycleError::NoContext)
                }
            },
            Stage::ShutDown => Err(LifecycleError::AlreadyShutDown),
        }
    }

    /// Records that the engine is being shut down, and its context with it.
    /// Accepted once, while the engine runs; a rejected call changes nothing.
    pub fn shutdown(&mut self) -> (outcome: Result<(), LifecycleError>)
        requires
            old(self)@.wf(),
        ensures
            outcome == shutdown_outcome(old(self)@),
            outcome is Ok ==> final(self)@ == (LifecycleView {
                stage: Stage::ShutDown,
                context_built: false,
            }),
            outcome is Err ==> final(self)@ == old(self)@,
            final(self)@.wf(),
    {
        match self.stage {
            Stage::Created => Err(LifecycleError::NotInitialized),
            Stage::Running => {
                self.stage = Stage::ShutDown;
                self.context_built = false;
                Ok(())
            },
            Stage::ShutDown => Err(LifecycleError::AlreadyShutDown),
        }
    }
}

impl LifecycleError {
    /// A sentence that names the error.
    pub fn message(&self) -> (text: String)
        ensures
            text@ == error_message(*self),
    {
        match self {
            LifecycleError::NotInitialized => "the engine has not been initialized".to_owned(),
            LifecycleError::AlreadyInitialized => "the engine is already initialized".to_owned(),
            LifecycleError::AlreadyShutDown => "the engine has been shut down".to_owned(),
            LifecycleError::ContextExists => "the execution context already exists".to_owned(),
            LifecycleError::NoContext => "no execution context has been built".to_owned(),
        }
    }
}

/// The sentence that names `e`.
pub open spec fn error_message(e: LifecycleError) -> Seq<char> {
    match e {
        LifecycleError::NotInitialized => "the engine has not been initialized"@,
        LifecycleError::AlreadyInitialized => "the engine is already initialized"@,
        LifecycleError::AlreadyShutDown => "the engine has been shut down"@,
        LifecycleError::ContextExists => "the execution context already exists"@,
        LifecycleError::NoContext => "no execution context has been built"@,
    }
}

/// In every well-formed state at most one engine instance and at most one
/// execution context exist, and a context exists only beside an engine.
pub proof fn lemma_single_engine_and_context(s: LifecycleView)
    requires
        s.wf(),
    ensures
        s.engines() <= 1,
        s.contexts() <= 1,
        s.contexts() <= s.engines(),
{
}

/// Scripts can execute exactly while one engine and one context exist.
pub proof fn lemma_execute_needs_both(s: LifecycleView)
    requires
        s.wf(),
    ensures
        execute_outcome(s) is Ok <==> s.engines() == 1 && s.contexts() == 1,
{
}

/// Once the engine is shut down, every operation is rejected with
/// `AlreadyShutDown`: initialization, context building, execution and a
/// second shutdown alike.
pub proof fn lemma_shut_down_is_final(s: LifecycleView)
    requires
        s.stage == Stage::ShutDown,
    ensures
        initialize_outcome(s) == Err::<(), LifecycleError>(LifecycleError::AlreadyShutDown),
        create_context_outcome(s) == Err::<(), LifecycleError>(LifecycleError::AlreadyShutDown),
        execute_outcome(s) == Err::<(), LifecycleError>(LifecycleError::AlreadyShutDown),
        shutdown_outcome(s) == Err::<(), LifecycleError>(LifecycleError::AlreadyShutDown),
{
}

} // verus!
