use vstd::prelude::*;
use vstd::string::StringExecFns;
use crate::builder::BuilderState;
use crate::builder::PluginDescriptor;
use crate::builder::attach_model;
use crate::builder::empty_builder;
use crate::builder::register_all;

verus! {

/// The stage of the bootstrap at which a fatal condition arose.
#[derive(Clone, Copy, PartialEq, Eq, Structural, Debug)]
pub enum Stage {
    Construction,
    Initialization,
    Runtime,
}

/// The runner's position in the bootstrap. Transitions are strictly forward:
/// there is no retry edge, and `Exited` and `Aborted` are terminal.
#[derive(Clone, Copy, PartialEq, Eq, Structural, Debug)]
pub enum RunnerState {
    Idle,
    Building,
    Constructed,
    Initialized,
    Running,
    Exited,
    Aborted(Stage),
}

/// What the outside world reports to the runner: the request to start, and
/// the outcome of each piece of work the runner asked for.
#[derive(Clone, Copy, PartialEq, Eq, Structural, Debug)]
pub enum Event {
    StartRequested,
    ConstructionSucceeded,
    ConstructionFailed,
    InitSucceeded,
    InitFailed,
    EventLoopStarted,
    EventLoopExited,
    EventLoopFailed,
}

/// What the runner asks the shell to do next. `Wait` asks for nothing: the
/// runner is waiting for an outcome, is done, or ignored an event that its
/// state does not expect.
#[derive(Clone, Copy, PartialEq, Eq, Structural, Debug)]
pub enum Action {
    Configure,
    RunInitHook,
    StartEventLoop,
    ReportFatal(Stage),
    Wait,
}

/// The transition table of the bootstrap: from a state and an event to the
/// next state and the action owed. An event a state does not expect changes
/// nothing, so the two terminal states absorb every event.
pub open spec fn step_model(s: RunnerState, e: Event) -> (RunnerState, Action) {
    match (s, e) {
        (RunnerState::Idle, Event::StartRequested) => (RunnerState::Building, Action::Configure),
        (RunnerState::Building, Event::ConstructionSucceeded) => (
            RunnerState::Constructed,
            Action::RunInitHook,
        ),
        (RunnerState::Building, Event::ConstructionFailed) => (
            RunnerState::Aborted(Stage::Construction),
            Action::ReportFatal(Stage::Construction),
        ),
        (RunnerState::Constructed, Event::InitSucceeded) => (
            RunnerState::Initialized,
            Action::StartEventLoop,
        ),
        (RunnerState::Constructed, Event::InitFailed) => (
            RunnerState::Aborted(Stage::Initialization),
            Action::ReportFatal(Stage::Initialization),
        ),
        (RunnerState::Initialized, Event::EventLoopStarted) => (
            RunnerState::Running,
            Action::Wait,
        ),
        (RunnerState::Running, Event::EventLoopExited) => (RunnerState::Exited, Action::Wait),
        (RunnerState::Running, Event::EventLoopFailed) => (
            RunnerState::Aborted(Stage::Runtime),
            Action::ReportFatal(Stage::Runtime),
        ),
        _ => (s, Action::Wait),
    }
}

/// One transition of the runner, exactly the transition table.
pub fn step(s: RunnerState, e: Event) -> (r: (RunnerState, Action))
    ensures
        r == step_model(s, e),
{
    match (s, e) {
        (RunnerState::Idle, Event::StartRequested) => (RunnerState::Building, Action::Configure),
        (RunnerState::Building, Event::ConstructionSucceeded) => (
            RunnerState::Constructed,
            Action::RunInitHook,
        ),
        (RunnerState::Building, Event::ConstructionFailed) => (
            RunnerState::Aborted(Stage::Construction),
            Action::ReportFatal(Stage::Construction),
        ),
        (RunnerState::Constructed, Event::InitSucceeded) => (
            RunnerState::Initialized,
            Action::StartEventLoop,
        ),
        (RunnerState::Constructed, Event::InitFailed) => (
            RunnerState::Aborted(Stage::Initialization),
            Action::ReportFatal(Stage::Initialization),
        ),
        (RunnerState::Initialized, Event::EventLoopStarted) => (
            RunnerState::Running,
            Action::Wait,
        ),
        (RunnerState::Running, Event::EventLoopExited) => (RunnerState::Exited, Action::Wait),
        (RunnerState::Running, Event::EventLoopFailed) => (
            RunnerState::Aborted(Stage::Runtime),
            Action::ReportFatal(Stage::Runtime),
        ),
        _ => (s, Action::Wait),
    }
}

/// The state the runner reaches from `s` after the whole event sequence.
pub open spec fn run_state(s: RunnerState, events: Seq<Event>) -> RunnerState
    decreases events.len(),
{
    if events.len() == 0 {
        s
    } else {
        run_state(step_model(s, events[0]).0, events.drop_first())
    }
}

/// The actions the runner emits from `s` along the whole event sequence,
/// one per event, in order.
pub open spec fn trace_actions(s: RunnerState, events: Seq<Event>) -> Seq<Action>
    decreases events.len(),
{
    if events.len() == 0 {
        Seq::empty()
    } else {
        seq![step_model(s, events[0]).1] + trace_actions(
            step_model(s, events[0]).0,
            events.drop_first(),
        )
    }
}

/// Feeds an event sequence to the runner from the idle state and returns the
/// final state together with every action emitted, in order.
pub fn replay(events: &Vec<Event>) -> (r: (RunnerState, Vec<Action>))
    ensures
        r.0 == run_state(RunnerState::Idle, events@),
        r.1@ == trace_actions(RunnerState::Idle, events@),
{
    let mut s = RunnerState::Idle;
    let mut actions: Vec<Action> = Vec::new();
    let mut i: usize = 0;
    proof {
        assert(events@.skip(0) =~= events@);
        assert(actions@ + trace_actions(s, events@) =~= trace_actions(RunnerState::Idle, events@));
    }
    while i < events.len()
        invariant
            i <= events@.len(),
            run_state(RunnerState::Idle, events@) == run_state(s, events@.skip(i as int)),
            trace_actions(RunnerState::Idle, events@) == actions@ + trace_actions(
                s,
                events@.skip(i as int),
            ),
        decreases events@.len() - i,
    {
        proof {
            assert(events@.skip(i as int)[0] == events@[i as int]);
            assert(events@.skip(i as int).drop_first() =~= events@.skip(i as int + 1));
        }
        let ghost prefix = actions@;
        let ghost suffix = events@.skip(i as int);
        let (s2, a) = step(s, events[i]);
        proof {
            assert(trace_actions(s, suffix) == seq![a] + trace_actions(s2, suffix.drop_first()));
            assert(prefix + trace_actions(s, suffix) =~= (prefix + seq![a]) + trace_actions(
                s2,
                suffix.drop_first(),
            ));
        }
        s = s2;
        actions.push(a);
        i += 1;
    }
    proof {
        assert(events@.skip(i as int) =~= Seq::<Event>::empty());
        assert(actions@ + trace_actions(s, events@.skip(i as int)) =~= actions@);
    }
    (s, actions)
}

/// The one gate to the event loop: a transition asks for `StartEventLoop`
/// exactly when a constructed runner hears that initialization succeeded.
pub proof fn lemma_start_needs_init_success(s: RunnerState, e: Event)
    ensures
        step_model(s, e).1 == Action::StartEventLoop <==> (s == RunnerState::Constructed && e
            == Event::InitSucceeded),
{
}

/// If the initialization hook fails — the runner never hears that
/// initialization succeeded — the event loop is never started: no action
/// along the whole trace, from any starting state, is `StartEventLoop`.
pub proof fn lemma_init_failure_prevents_run(s: RunnerState, events: Seq<Event>)
    requires
        forall|i: int| 0 <= i < events.len() ==> events[i] != Event::InitSucceeded,
    ensures
        forall|j: int|
            0 <= j < trace_actions(s, events).len() ==> trace_actions(s, events)[j]
                != Action::StartEventLoop,
    decreases events.len(),
{
    if events.len() > 0 {
        let next = step_model(s, events[0]).0;
        lemma_start_needs_init_success(s, events[0]);
        lemma_init_failure_prevents_run(next, events.drop_first());
        assert forall|j: int| 0 <= j < trace_actions(s, events).len() implies trace_actions(
            s,
            events,
        )[j] != Action::StartEventLoop by {
            if j > 0 {
                assert(trace_actions(s, events)[j] == trace_actions(next, events.drop_first())[j
                    - 1]);
            }
        }
    }
}

/// Where each state stands along the one-way bootstrap, used to state that
/// the machine never moves backwards.
pub open spec fn progress_rank(s: RunnerState) -> int {
    match s {
        RunnerState::Idle => 0,
        RunnerState::Building => 1,
        RunnerState::Constructed => 2,
        RunnerState::Initialized => 3,
        RunnerState::Running => 4,
        RunnerState::Exited => 5,
        RunnerState::Aborted(_) => 5,
    }
}

/// Transitions are strictly forward: no event moves the runner to an earlier
/// stage of the bootstrap — in particular there is no retry edge.
pub proof fn lemma_transitions_forward_only(s: RunnerState, e: Event)
    ensures
        progress_rank(step_model(s, e).0) >= progress_rank(s),
{
}

/// `Exited` and `Aborted` are terminal: every event leaves them in place and
/// asks for nothing further.
pub proof fn lemma_terminal_states_absorb(s: RunnerState, e: Event)
    requires
        s == RunnerState::Exited || s matches RunnerState::Aborted(_),
    ensures
        step_model(s, e) == (s, Action::Wait),
{
}

/// The fixed, ordered set of capabilities this shell registers: currently
/// exactly one, the shell/file-open integration.
pub open spec fn known_plugins_model() -> Seq<PluginDescriptor> {
    seq![PluginDescriptor::Opener]
}

/// The fixed, ordered set of capabilities this shell registers.
pub fn known_plugins() -> (r: Vec<PluginDescriptor>)
    ensures
        r@ == known_plugins_model(),
{
    let mut v: Vec<PluginDescriptor> = Vec::new();
    v.push(PluginDescriptor::Opener);
    proof {
        assert(v@ =~= known_plugins_model());
    }
    v
}

/// The configure step of the bootstrap: every known capability registered on
/// a fresh accumulator, in order, then the generated context attached. The
/// result is ready for construction.
pub fn configure(context: Vec<u8>) -> (b: BuilderState)
    ensures
        b@ == attach_model(register_all(empty_builder(), known_plugins_model()), context@),
{
    let plugins = known_plugins();
    let mut b = BuilderState::new();
    let mut i: usize = 0;
    proof {
        assert(plugins@.take(0) =~= Seq::<PluginDescriptor>::empty());
        assert(b@ =~= register_all(empty_builder(), plugins@.take(0)));
    }
    while i < plugins.len()
        invariant
            i <= plugins@.len(),
            plugins@ == known_plugins_model(),
            b@ == register_all(empty_builder(), plugins@.take(i as int)),
        decreases plugins@.len() - i,
    {
        let d = plugins[i];
        let ghost before = b@;
        b = b.register_plugin(d);
        proof {
            crate::builder::lemma_register_all_appends(empty_builder(), plugins@.take(i as int));
            crate::builder::lemma_register_all_appends(
                empty_builder(),
                plugins@.take(i as int + 1),
            );
            assert(plugins@.take(i as int + 1) =~= plugins@.take(i as int).push(d));
            assert((empty_builder().plugins + plugins@.take(i as int)).push(d) =~= (
            empty_builder().plugins + plugins@.take(i as int + 1)));
            assert(b@ =~= register_all(empty_builder(), plugins@.take(i as int + 1)));
        }
        i += 1;
    }
    proof {
        assert(plugins@.take(i as int) =~= known_plugins_model());
    }
    b.attach_context(context)
}

/// The diagnostic the runner reports when the bootstrap aborts at a stage.
pub open spec fn fatal_message_model(stage: Stage) -> Seq<char> {
    match stage {
        Stage::Construction => "fatal: could not construct the application instance"@,
        Stage::Initialization => "fatal: one-time application initialization failed"@,
        Stage::Runtime => "fatal: the event loop terminated abnormally"@,
    }
}

/// The human-readable diagnostic for a fatal condition at the given stage.
pub fn fatal_message(stage: Stage) -> (r: String)
    ensures
        r@ == fatal_message_model(stage),
{
    match stage {
        Stage::Construction => String::from_str(
            "fatal: could not construct the application instance",
        ),
        Stage::Initialization => String::from_str(
            "fatal: one-time application initialization failed",
        ),
        Stage::Runtime => String::from_str("fatal: the event loop terminated abnormally"),
    }
}

/// The diagnostics tell the stages apart: equal messages can only come from
/// the same stage.
pub proof fn lemma_fatal_message_names_stage(a: Stage, b: Stage)
    ensures
        fatal_message_model(a) == fatal_message_model(b) ==> a == b,
{
    reveal_strlit("fatal: could not construct the application instance");
    reveal_strlit("fatal: one-time application initialization failed");
    reveal_strlit("fatal: the event loop terminated abnormally");
    assert(fatal_message_model(Stage::Construction).len() != fatal_message_model(
        Stage::Initialization,
    ).len());
    assert(fatal_message_model(Stage::Construction).len() != fatal_message_model(
        Stage::Runtime,
    ).len());
    assert(fatal_message_model(Stage::Initialization).len() != fatal_message_model(
        Stage::Runtime,
    ).len());
}

} // verus!
