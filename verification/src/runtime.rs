//! Running code under the Lean runtime: the result of an `IO` action, and the
//! order in which the runtime is brought up, used and shut down.
use vstd::prelude::*;

use crate::object::{nil_value, Obj, Value};
use crate::typed::{IoResult, IoResultView, Layout, TObj};

verus! {

/// The result of an `IO` action: its value, or the error object it raised.
pub fn io<T: ?Sized>(res: TObj<IoResult<T>>) -> (r: Result<TObj<T>, Obj>)
    requires
        IoResult::<T>::unpackable(res@),
    ensures
        match IoResult::<T>::decode(res@) {
            IoResultView::Success(v) => r matches Ok(t) && t@ == v,
            IoResultView::Error(e) => r matches Err(x) && x@ == e,
        },
{
    match res.unpack() {
        IoResult::Success(val) => Ok(val),
        IoResult::Error(err) => Err(err),
    }
}

/// What the outcome of an initializer's `IO` result is: success, or its error.
pub open spec fn init_outcome(res: Value) -> Result<(), Value> {
    match IoResult::<()>::decode(res) {
        IoResultView::Success(_) => Ok(()),
        IoResultView::Error(e) => Err(e),
    }
}

/// The model of an outcome that carries an error object.
pub open spec fn outcome_view(r: Result<(), Obj>) -> Result<(), Value> {
    match r {
        Ok(()) => Ok(()),
        Err(e) => Err(e@),
    }
}

/// The next thing to do with the runtime.
#[derive(Debug, PartialEq, Eq)]
pub enum RunAction {
    /// Initialize the runtime (`lean_initialize`).
    InitializeRuntime,
    /// Turn the printing of panic messages on or off.
    SetPanicMessages(bool),
    /// Run the module initializer with this builtin flag, on this world token.
    CallInitializer { builtin: u8, world: Obj },
    /// Mark the end of initialization.
    MarkEndInitialization,
    /// Start the task manager.
    InitTaskManager,
    /// Run the body.
    CallBody,
    /// Shut the task manager down.
    FinalizeTaskManager,
    /// Stop, with this result.
    Finish(Result<(), Obj>),
}

/// What happened after an action.
pub enum RunEvent {
    /// The action was carried out.
    Done,
    /// The module initializer returned this `IO` result.
    InitializerReturned(TObj<IoResult<()>>),
    /// The body returned this result.
    BodyReturned(Result<(), Obj>),
}

/// Where a run stands: the last action it asked for.
#[derive(Debug, PartialEq, Eq)]
pub enum RunState {
    Initializing { with_initializer: bool },
    SilencingPanics,
    RunningInitializer,
    RestoringPanics { outcome: Result<(), Obj> },
    EndingInitialization { outcome: Result<(), Obj> },
    StartingTasks,
    RunningBody,
    Finalizing { outcome: Result<(), Obj> },
    Finished,
}

/// The model of an action.
pub enum ActionView {
    InitializeRuntime,
    SetPanicMessages(bool),
    CallInitializer { builtin: u8, world: Value },
    MarkEndInitialization,
    InitTaskManager,
    CallBody,
    FinalizeTaskManager,
    Finish(Result<(), Value>),
}

/// The model of an event.
pub enum EventView {
    Done,
    InitializerReturned(Value),
    BodyReturned(Result<(), Value>),
}

/// The model of a state.
pub enum StateView {
    Initializing { with_initializer: bool },
    SilencingPanics,
    RunningInitializer,
    RestoringPanics { outcome: Result<(), Value> },
    EndingInitialization { outcome: Result<(), Value> },
    StartingTasks,
    RunningBody,
    Finalizing { outcome: Result<(), Value> },
    Finished,
}

impl View for RunAction {
    type V = ActionView;

    open spec fn view(&self) -> ActionView {
        match self {
            RunAction::InitializeRuntime => ActionView::InitializeRuntime,
            RunAction::SetPanicMessages(b) => ActionView::SetPanicMessages(*b),
            RunAction::CallInitializer { builtin, world } => ActionView::CallInitializer {
                builtin: *builtin,
                world: world@,
            },
            RunAction::MarkEndInitialization => ActionView::MarkEndInitialization,
            RunAction::InitTaskManager => ActionView::InitTaskManager,
            RunAction::CallBody => ActionView::CallBody,
            RunAction::FinalizeTaskManager => ActionView::FinalizeTaskManager,
            RunAction::Finish(r) => ActionView::Finish(outcome_view(*r)),
        }
    }
}

impl View for RunEvent {
    type V = EventView;

    open spec fn view(&self) -> EventView {
        match self {
            RunEvent::Done => EventView::Done,
            RunEvent::InitializerReturned(r) => EventView::InitializerReturned(r@),
            RunEvent::BodyReturned(r) => EventView::BodyReturned(outcome_view(*r)),
        }
    }
}

impl View for RunState {
    type V = StateView;

    open spec fn view(&self) -> StateView {
        match self {
            RunState::Initializing { with_initializer } => StateView::Initializing {
                with_initializer: *with_initializer,
            },
            RunState::SilencingPanics => StateView::SilencingPanics,
            RunState::RunningInitializer => StateView::RunningInitializer,
            RunState::RestoringPanics { outcome } => StateView::RestoringPanics {
                outcome: outcome_view(*outcome),
            },
            RunState::EndingInitialization { outcome } => StateView::EndingInitialization {
                outcome: outcome_view(*outcome),
            },
            RunState::StartingTasks => StateView::StartingTasks,
            RunState::RunningBody => StateView::RunningBody,
            RunState::Finalizing { outcome } => StateView::Finalizing {
                outcome: outcome_view(*outcome),
            },
            RunState::Finished => StateView::Finished,
        }
    }
}

/// How the module initializer is called: in builtin mode (flag 1), on the
/// world token `box(0)`.
pub open spec fn initializer_call() -> ActionView {
    ActionView::CallInitializer { builtin: 1, world: nil_value() }
}

/// The event that each state waits for: the initializer's result after it was
/// called, the body's result after it was called, else the acknowledgement of the
/// last action.  Nothing follows the end.
pub open spec fn accepts(s: StateView, e: EventView) -> bool {
    match s {
        StateView::RunningInitializer => e matches EventView::InitializerReturned(r)
            && IoResult::<()>::unpackable(r),
        StateView::RunningBody => e is BodyReturned,
        StateView::Finished => false,
        _ => e is Done,
    }
}

/// One transition: the state that follows and the action it asks for.
pub open spec fn run_next(s: StateView, e: EventView) -> (StateView, ActionView) {
    match s {
        StateView::Initializing { with_initializer } => if with_initializer {
            (StateView::SilencingPanics, ActionView::SetPanicMessages(false))
        } else {
            (
                StateView::EndingInitialization { outcome: Ok(()) },
                ActionView::MarkEndInitialization,
            )
        },
        StateView::SilencingPanics => (StateView::RunningInitializer, initializer_call()),
        StateView::RunningInitializer => match e {
            EventView::InitializerReturned(r) => (
                StateView::RestoringPanics { outcome: init_outcome(r) },
                ActionView::SetPanicMessages(true),
            ),
            _ => (StateView::Finished, ActionView::Finish(Ok(()))),
        },
        StateView::RestoringPanics { outcome } => (
            StateView::EndingInitialization { outcome },
            ActionView::MarkEndInitialization,
        ),
        StateView::EndingInitialization { outcome } => match outcome {
            Ok(()) => (StateView::StartingTasks, ActionView::InitTaskManager),
            Err(e) => (
                StateView::Finalizing { outcome: Err(e) },
                ActionView::FinalizeTaskManager,
            ),
        },
        StateView::StartingTasks => (StateView::RunningBody, ActionView::CallBody),
        StateView::RunningBody => match e {
            EventView::BodyReturned(r) => (
                StateView::Finalizing { outcome: r },
                ActionView::FinalizeTaskManager,
            ),
            _ => (StateView::Finished, ActionView::Finish(Ok(()))),
        },
        StateView::Finalizing { outcome } => (StateView::Finished, ActionView::Finish(outcome)),
        StateView::Finished => (StateView::Finished, ActionView::Finish(Ok(()))),
    }
}

/// Starts a run: the runtime is initialized first.
pub fn run_start(with_initializer: bool) -> (r: (RunState, RunAction))
    ensures
        r.0@ == (StateView::Initializing { with_initializer }),
        r.1@ == ActionView::InitializeRuntime,
{
    (RunState::Initializing { with_initializer }, RunAction::InitializeRuntime)
}

/// Takes a run one step further, from what happened after its last action.
pub fn run_step(state: RunState, event: RunEvent) -> (r: (RunState, RunAction))
    requires
        accepts(state@, event@),
    ensures
        (r.0@, r.1@) == run_next(state@, event@),
{
    match state {
        RunState::Initializing { with_initializer } => if with_initializer {
            (RunState::SilencingPanics, RunAction::SetPanicMessages(false))
        } else {
            (
                RunState::EndingInitialization { outcome: Ok(()) },
                RunAction::MarkEndInitialization,
            )
        },
        RunState::SilencingPanics => (
            RunState::RunningInitializer,
            RunAction::CallInitializer { builtin: 1, world: Obj::nil() },
        ),
        RunState::RunningInitializer => match event {
            RunEvent::InitializerReturned(res) => {
                let outcome = match io(res) {
                    Ok(_) => Ok(()),
                    Err(e) => Err(e),
                };
                (RunState::RestoringPanics { outcome }, RunAction::SetPanicMessages(true))
            },
            _ => (RunState::Finished, RunAction::Finish(Ok(()))),
        },
        RunState::RestoringPanics { outcome } => (
            RunState::EndingInitialization { outcome },
            RunAction::MarkEndInitialization,
        ),
        RunState::EndingInitialization { outcome } => match outcome {
            Ok(()) => (RunState::StartingTasks, RunAction::InitTaskManager),
            Err(e) => (
                RunState::Finalizing { outcome: Err(e) },
                RunAction::FinalizeTaskManager,
            ),
        },
        RunState::StartingTasks => (RunState::RunningBody, RunAction::CallBody),
        RunState::RunningBody => match event {
            RunEvent::BodyReturned(r) => (
                RunState::Finalizing { outcome: r },
                RunAction::FinalizeTaskManager,
            ),
            _ => (RunState::Finished, RunAction::Finish(Ok(()))),
        },
        RunState::Finalizing { outcome } => (RunState::Finished, RunAction::Finish(outcome)),
        RunState::Finished => (RunState::Finished, RunAction::Finish(Ok(()))),
    }
}

/// The event that answers `a` when the initializer returns `init` and the body
/// returns `body`.
pub open spec fn response(a: ActionView, init: Value, body: Result<(), Value>) -> EventView {
    match a {
        ActionView::CallInitializer { .. } => EventView::InitializerReturned(init),
        ActionView::CallBody => EventView::BodyReturned(body),
        _ => EventView::Done,
    }
}

/// The actions a run asks for, from state `s` and pending action `a`, when every
/// action is answered as `response` says (at most `fuel` more steps).
pub open spec fn drive(
    s: StateView,
    a: ActionView,
    init: Value,
    body: Result<(), Value>,
    fuel: nat,
) -> Seq<ActionView>
    decreases fuel,
{
    if fuel == 0 || a is Finish {
        seq![a]
    } else {
        let (s2, a2) = run_next(s, response(a, init, body));
        seq![a].add(drive(s2, a2, init, body, (fuel - 1) as nat))
    }
}

/// The actions of a whole run.
pub open spec fn run_actions(
    with_initializer: bool,
    init: Value,
    body: Result<(), Value>,
) -> Seq<ActionView> {
    drive(
        StateView::Initializing { with_initializer },
        ActionView::InitializeRuntime,
        init,
        body,
        10,
    )
}

/// The order of a run: initialize the runtime; if there is an initializer, call
/// it once, in builtin mode on the world token, with panic messages silenced and turn them back on; mark the end of
/// initialization; then, only if initialization succeeded, start the task
/// manager and run the body; shut the task manager down in every case; and end
/// with the initializer's error, or else with the body's result.
pub open spec fn run_order(
    with_initializer: bool,
    init: Value,
    body: Result<(), Value>,
) -> Seq<ActionView> {
    let outcome = if with_initializer {
        init_outcome(init)
    } else {
        Ok(())
    };
    let start = if with_initializer {
        seq![
            ActionView::InitializeRuntime,
            ActionView::SetPanicMessages(false),
            initializer_call(),
            ActionView::SetPanicMessages(true),
            ActionView::MarkEndInitialization,
        ]
    } else {
        seq![ActionView::InitializeRuntime, ActionView::MarkEndInitialization]
    };
    match outcome {
        Ok(()) => start + seq![
            ActionView::InitTaskManager,
            ActionView::CallBody,
            ActionView::FinalizeTaskManager,
            ActionView::Finish(body),
        ],
        Err(e) => start + seq![ActionView::FinalizeTaskManager, ActionView::Finish(Err(e))],
    }
}

/// A run asks for its actions in the order that `run_order` describes, when
/// the initializer's result is one that can be read.
pub proof fn lemma_run_order(with_initializer: bool, init: Value, body: Result<(), Value>)
    requires
        with_initializer ==> IoResult::<()>::unpackable(init),
    ensures
        run_actions(with_initializer, init, body) == run_order(with_initializer, init, body),
{
    reveal_with_fuel(drive, 11);
    let got = run_actions(with_initializer, init, body);
    let want = run_order(with_initializer, init, body);
    assert(got =~= want);
}

/// Whatever the initializer and the body return, a run initializes the runtime
/// first; calls the initializer, in builtin mode (flag 1) on the world token
/// (the word 1), exactly when there is one; runs the body exactly when the
/// initializer did not fail (its result cell has tag 1 on failure); always shuts
/// the task manager down; and ends with the initializer's error object, or else
/// with the body's result.
pub proof fn lemma_run_properties(with_initializer: bool, init: Value, body: Result<(), Value>)
    requires
        with_initializer ==> IoResult::<()>::unpackable(init),
    ensures
        run_actions(with_initializer, init, body)[0] == ActionView::InitializeRuntime,
        run_actions(with_initializer, init, body).contains(
            ActionView::CallInitializer { builtin: 1, world: Value::Scalar(1) },
        ) <==> with_initializer,
        run_actions(with_initializer, init, body).contains(ActionView::CallBody) <==> !(
        with_initializer && init.heap_tag() == 1),
        run_actions(with_initializer, init, body).contains(ActionView::FinalizeTaskManager),
        run_actions(with_initializer, init, body).last() == ActionView::Finish(
            if with_initializer && init.heap_tag() == 1 {
                Err(init.field(0))
            } else {
                body
            },
        ),
{
    lemma_run_order(with_initializer, init, body);
    crate::layout_laws::lemma_small_boxes();
    let acts = run_actions(with_initializer, init, body);
    let call = ActionView::CallInitializer { builtin: 1, world: Value::Scalar(1) };
    assert(initializer_call() == call);
    if with_initializer {
        if init.heap_tag() == 1 {
            let want = seq![
                ActionView::InitializeRuntime,
                ActionView::SetPanicMessages(false),
                call,
                ActionView::SetPanicMessages(true),
                ActionView::MarkEndInitialization,
                ActionView::FinalizeTaskManager,
                ActionView::Finish(Err(init.field(0))),
            ];
            assert(acts =~= want);
            assert(acts[2] == call);
            assert(acts[5] == ActionView::FinalizeTaskManager);
            assert(!acts.contains(ActionView::CallBody)) by {
                assert forall|i: int| 0 <= i < acts.len() implies acts[i] != ActionView::CallBody by {
                }
            }
        } else {
            let want = seq![
                ActionView::InitializeRuntime,
                ActionView::SetPanicMessages(false),
                call,
                ActionView::SetPanicMessages(true),
                ActionView::MarkEndInitialization,
                ActionView::InitTaskManager,
                ActionView::CallBody,
                ActionView::FinalizeTaskManager,
                ActionView::Finish(body),
            ];
            assert(acts =~= want);
            assert(acts[2] == call);
            assert(acts[6] == ActionView::CallBody);
            assert(acts[7] == ActionView::FinalizeTaskManager);
        }
    } else {
        let want = seq![
            ActionView::InitializeRuntime,
            ActionView::MarkEndInitialization,
            ActionView::InitTaskManager,
            ActionView::CallBody,
            ActionView::FinalizeTaskManager,
            ActionView::Finish(body),
        ];
        assert(acts =~= want);
        assert(acts[3] == ActionView::CallBody);
        assert(acts[4] == ActionView::FinalizeTaskManager);
        assert(!acts.contains(call)) by {
            assert forall|i: int| 0 <= i < acts.len() implies acts[i] != call by {
            }
        }
    }
}

} // verus!
