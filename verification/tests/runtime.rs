use lean_base::{io, run_start, run_step, IoResult, Layout, Name, Obj, RunAction, RunEvent, RunState, TObj};

fn drive(with_init: bool, init_ok: bool, body: Result<(), Obj>) -> Vec<RunAction> {
    let (mut state, mut action) = run_start(with_init);
    let mut actions = Vec::new();
    loop {
        let event = match &action {
            RunAction::CallInitializer { builtin, world } => {
                assert_eq!(*builtin, 1);
                assert_eq!(*world, Obj::nil());
                let res: TObj<IoResult<()>> = if init_ok {
                    IoResult::Success(TObj::new(Obj::nil())).pack()
                } else {
                    IoResult::Error(Obj::mk_string("init failed")).pack()
                };
                RunEvent::InitializerReturned(res)
            }
            RunAction::CallBody => RunEvent::BodyReturned(body.clone()),
            RunAction::Finish(_) => {
                actions.push(action);
                return actions;
            }
            _ => RunEvent::Done,
        };
        actions.push(action);
        let (s, a) = run_step(state, event);
        state = s;
        action = a;
    }
}

#[test]
fn io_success_and_error() {
    let ok = IoResult::<Name>::Success(TObj::new(Obj::from_usize(3))).pack();
    assert_eq!(io(ok).ok().map(|t| t.into_obj()), Some(Obj::from_usize(3)));
    let err = IoResult::<Name>::Error(Obj::mk_string("e")).pack();
    assert_eq!(io(err).err(), Some(Obj::mk_string("e")));
}

#[test]
fn run_without_initializer() {
    let actions = drive(false, true, Ok(()));
    assert_eq!(
        actions,
        vec![
            RunAction::InitializeRuntime,
            RunAction::MarkEndInitialization,
            RunAction::InitTaskManager,
            RunAction::CallBody,
            RunAction::FinalizeTaskManager,
            RunAction::Finish(Ok(())),
        ]
    );
}

#[test]
fn run_with_initializer_then_body_error() {
    let actions = drive(true, true, Err(Obj::from_usize(5)));
    assert_eq!(
        actions,
        vec![
            RunAction::InitializeRuntime,
            RunAction::SetPanicMessages(false),
            RunAction::CallInitializer { builtin: 1, world: Obj::nil() },
            RunAction::SetPanicMessages(true),
            RunAction::MarkEndInitialization,
            RunAction::InitTaskManager,
            RunAction::CallBody,
            RunAction::FinalizeTaskManager,
            RunAction::Finish(Err(Obj::from_usize(5))),
        ]
    );
}

#[test]
fn run_with_failing_initializer_skips_body() {
    let actions = drive(true, false, Ok(()));
    assert_eq!(
        actions,
        vec![
            RunAction::InitializeRuntime,
            RunAction::SetPanicMessages(false),
            RunAction::CallInitializer { builtin: 1, world: Obj::nil() },
            RunAction::SetPanicMessages(true),
            RunAction::MarkEndInitialization,
            RunAction::FinalizeTaskManager,
            RunAction::Finish(Err(Obj::mk_string("init failed"))),
        ]
    );
}

#[test]
fn run_state_after_start() {
    let (state, action) = run_start(true);
    assert_eq!(state, RunState::Initializing { with_initializer: true });
    assert_eq!(action, RunAction::InitializeRuntime);
    let (state, action) = run_step(state, RunEvent::Done);
    assert_eq!(state, RunState::SilencingPanics);
    assert_eq!(action, RunAction::SetPanicMessages(false));
}
