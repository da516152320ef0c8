//! The click engine's decisions.
//!
//! The engine runs a worker thread fed by a command channel and publishes a
//! shared status (`running`, `clicks`). Everything that thread and the control
//! surface *decide* lives here, as plain functions:
//! * [`start_request`], [`stop_request`] and [`toggle_request`] say how a
//!   control call changes the shared status and which command it sends;
//! * [`WorkerState::step`] is the worker's state machine: given what just
//!   happened (a command arrived, a click finished, the interval elapsed), it
//!   returns the next state and the changes to publish;
//! * [`click_plan`] lists the input actions of one logical click.
//!
//! The caller performs the I/O: it waits on the channel, drives the input
//! backend, and stores the published status.

use crate::config::{ClickConfig, ClickType, MouseButton, Position, Repeat};
use crate::error::Error;
use crate::input::Point;
use vstd::prelude::*;

verus! {

/// A snapshot of engine state.
#[derive(Debug, Clone, Copy, PartialEq, Eq, Structural)]
pub struct Status {
    pub running: bool,
    pub clicks: u64,
}

/// Messages the control surface sends to the worker.
#[derive(Debug)]
pub enum Command {
    Start(ClickConfig),
    Stop,
    Shutdown,
}

/// A change to the shared status: an optional new `running` flag, and
/// whether the click counter goes back to zero.
#[derive(Debug, Clone, Copy, PartialEq, Eq)]
pub struct StatusUpdate {
    pub running: Option<bool>,
    pub reset_clicks: bool,
}

impl StatusUpdate {
    /// The status after this update is stored over `s`.
    pub open spec fn apply(self, s: Status) -> Status {
        Status {
            running: match self.running {
                Some(r) => r,
                None => s.running,
            },
            clicks: if self.reset_clicks {
                0
            } else {
                s.clicks
            },
        }
    }
}

/// What a control call stores in the shared status, and the command it sends.
#[derive(Debug)]
pub struct ControlRequest {
    pub update: StatusUpdate,
    pub command: Command,
}

/// The update a successful start stores: running, with the count reset.
pub open spec fn start_update() -> StatusUpdate {
    StatusUpdate { running: Some(true), reset_clicks: true }
}

/// The update a stop stores: not running, count kept.
pub open spec fn stop_update() -> StatusUpdate {
    StatusUpdate { running: Some(false), reset_clicks: false }
}

/// Validates `config` and, when it is valid, asks the worker to start (or
/// restart) with it. The status is updated by the caller before the command
/// is sent, so an immediately following status read sees the change.
pub fn start_request(config: ClickConfig) -> (r: Result<ControlRequest, Error>)
    ensures
        r is Ok <==> config.is_valid(),
        r matches Ok(q) ==> q.update == start_update() && q.command == Command::Start(config),
        r matches Err(e) ==> (e matches Error::InvalidConfig(m) && Some(m@)
            == config.invalid_reason()),
{
    match config.validate() {
        Ok(()) => Ok(
            ControlRequest {
                update: StatusUpdate { running: Some(true), reset_clicks: true },
                command: Command::Start(config),
            },
        ),
        Err(e) => Err(e),
    }
}

/// Stops clicking.
pub fn stop_request() -> (r: ControlRequest)
    ensures
        r.update == stop_update(),
        r.command == Command::Stop,
{
    ControlRequest {
        update: StatusUpdate { running: Some(false), reset_clicks: false },
        command: Command::Stop,
    }
}

/// Starts if stopped, stops if started; also returns the new running state.
pub fn toggle_request(running: bool, config: ClickConfig) -> (r: Result<(bool, ControlRequest), Error>)
    ensures
        running ==> (r matches Ok((now, q)) && !now && q.update == stop_update() && q.command
            == Command::Stop),
        !running ==> (r is Ok <==> config.is_valid()),
        !running ==> (r matches Ok((now, q)) ==> now && q.update == start_update() && q.command
            == Command::Start(config)),
        !running ==> (r matches Err(e) ==> (e matches Error::InvalidConfig(m) && Some(m@)
            == config.invalid_reason())),
{
    if running {
        Ok((false, stop_request()))
    } else {
        match start_request(config) {
            Ok(q) => Ok((true, q)),
            Err(e) => Err(e),
        }
    }
}

/// How a click session ended.
#[derive(Debug, Clone, Copy, PartialEq, Eq, Structural)]
pub enum SessionEnd {
    /// Return to the idle state and wait for the next start.
    Idle,
    /// Terminate the worker.
    Shutdown,
}

impl SessionEnd {
    /// Whether the worker terminates.
    pub fn is_shutdown(&self) -> (r: bool)
        ensures
            r == (*self == SessionEnd::Shutdown),
    {
        match self {
            SessionEnd::Shutdown => true,
            SessionEnd::Idle => false,
        }
    }
}

/// Where the worker is.
#[derive(Debug)]
pub enum WorkerState {
    /// No session: waiting for a command.
    Idle,
    /// In a session, about to perform one logical click.
    Clicking(ClickConfig),
    /// In a session, the click done: about to count it.
    Counting(ClickConfig),
    /// In a session, waiting out the interval (or a command).
    Waiting(ClickConfig),
    /// Terminated.
    Exited,
}

/// What the caller reports back to the worker.
#[derive(Debug)]
pub enum Event {
    /// A command arrived on the channel.
    Received(Command),
    /// The channel is closed: every sender is gone.
    Disconnected,
    /// The logical click was performed, or failed.
    Clicked(Result<(), Error>),
    /// The shared counter was incremented; this is its new value.
    Counted(u64),
    /// The interval elapsed without a command.
    TimedOut,
}

/// The changes a step publishes: a status update, and whether to seed a new
/// jitter generator (at the start of a session).
#[derive(Debug, Clone, Copy, PartialEq, Eq)]
pub struct Effects {
    pub update: StatusUpdate,
    pub reseed: bool,
}

/// No change at all.
pub open spec fn no_effects() -> Effects {
    Effects { update: StatusUpdate { running: None, reset_clicks: false }, reseed: false }
}

/// Leaving a session: the running flag drops.
pub open spec fn end_effects() -> Effects {
    Effects { update: StatusUpdate { running: Some(false), reset_clicks: false }, reseed: false }
}

/// Where a session goes when it ends in `end`.
pub open spec fn spec_end_session(end: SessionEnd) -> WorkerState {
    match end {
        SessionEnd::Idle => WorkerState::Idle,
        SessionEnd::Shutdown => WorkerState::Exited,
    }
}

/// The worker's transition: from `s`, on `e`, to a new state and effects.
/// An event the state does not wait for leaves it unchanged.
pub open spec fn spec_step(s: WorkerState, e: Event) -> (WorkerState, Effects) {
    match s {
        WorkerState::Idle => match e {
            Event::Received(Command::Start(c)) => (
                WorkerState::Clicking(c),
                Effects {
                    update: StatusUpdate { running: None, reset_clicks: true },
                    reseed: true,
                },
            ),
            Event::Received(Command::Shutdown) => (WorkerState::Exited, no_effects()),
            Event::Disconnected => (WorkerState::Exited, no_effects()),
            _ => (WorkerState::Idle, no_effects()),
        },
        WorkerState::Clicking(c) => match e {
            Event::Clicked(Ok(())) => (WorkerState::Counting(c), no_effects()),
            Event::Clicked(Err(_)) => (spec_end_session(SessionEnd::Idle), end_effects()),
            _ => (WorkerState::Clicking(c), no_effects()),
        },
        WorkerState::Counting(c) => match e {
            Event::Counted(done) => match c.repeat {
                Repeat::Count { times } if done >= times => (
                    spec_end_session(SessionEnd::Idle),
                    end_effects(),
                ),
                _ => (WorkerState::Waiting(c), no_effects()),
            },
            _ => (WorkerState::Counting(c), no_effects()),
        },
        WorkerState::Waiting(c) => match e {
            Event::TimedOut => (WorkerState::Clicking(c), no_effects()),
            Event::Received(Command::Start(n)) => (
                WorkerState::Clicking(n),
                Effects {
                    update: StatusUpdate { running: None, reset_clicks: true },
                    reseed: false,
                },
            ),
            Event::Received(Command::Stop) => (spec_end_session(SessionEnd::Idle), end_effects()),
            Event::Received(Command::Shutdown) => (
                spec_end_session(SessionEnd::Shutdown),
                end_effects(),
            ),
            Event::Disconnected => (spec_end_session(SessionEnd::Shutdown), end_effects()),
            _ => (WorkerState::Waiting(c), no_effects()),
        },
        WorkerState::Exited => (WorkerState::Exited, no_effects()),
    }
}

/// Ends the current session in `end`, dropping the running flag.
fn end_session(end: SessionEnd) -> (r: (WorkerState, Effects))
    ensures
        r == (spec_end_session(end), end_effects()),
{
    let fx = Effects {
        update: StatusUpdate { running: Some(false), reset_clicks: false },
        reseed: false,
    };
    if end.is_shutdown() {
        (WorkerState::Exited, fx)
    } else {
        (WorkerState::Idle, fx)
    }
}

fn quiet() -> (r: Effects)
    ensures
        r == no_effects(),
{
    Effects { update: StatusUpdate { running: None, reset_clicks: false }, reseed: false }
}

impl WorkerState {
    /// The worker's initial state.
    pub fn new() -> (r: WorkerState)
        ensures
            r == WorkerState::Idle,
    {
        WorkerState::Idle
    }

    /// The configuration of the running session, if there is one.
    pub fn session_config(&self) -> (r: Option<&ClickConfig>)
        ensures
            match *self {
                WorkerState::Clicking(c) => r == Some(&c),
                WorkerState::Counting(c) => r == Some(&c),
                WorkerState::Waiting(c) => r == Some(&c),
                _ => r is None,
            },
    {
        match self {
            WorkerState::Clicking(c) => Some(c),
            WorkerState::Counting(c) => Some(c),
            WorkerState::Waiting(c) => Some(c),
            _ => None,
        }
    }

    /// Advances the worker on `event`.
    pub fn step(self, event: Event) -> (r: (WorkerState, Effects))
        ensures
            r == spec_step(self, event),
    {
        match self {
            WorkerState::Idle => match event {
                Event::Received(Command::Start(c)) => (
                    WorkerState::Clicking(c),
                    Effects {
                        update: StatusUpdate { running: None, reset_clicks: true },
                        reseed: true,
                    },
                ),
                Event::Received(Command::Shutdown) => (WorkerState::Exited, quiet()),
                Event::Disconnected => (WorkerState::Exited, quiet()),
                _ => (WorkerState::Idle, quiet()),
            },
            WorkerState::Clicking(c) => match event {
                Event::Clicked(Ok(())) => (WorkerState::Counting(c), quiet()),
                Event::Clicked(Err(_)) => end_session(SessionEnd::Idle),
                _ => (WorkerState::Clicking(c), quiet()),
            },
            WorkerState::Counting(c) => match event {
                Event::Counted(done) => {
                    let finished = match c.repeat {
                        Repeat::Count { times } => done >= times,
                        Repeat::UntilStopped => false,
                    };
                    if finished {
                        end_session(SessionEnd::Idle)
                    } else {
                        (WorkerState::Waiting(c), quiet())
                    }
                },
                _ => (WorkerState::Counting(c), quiet()),
            },
            WorkerState::Waiting(c) => match event {
                Event::TimedOut => (WorkerState::Clicking(c), quiet()),
                Event::Received(Command::Start(n)) => (
                    WorkerState::Clicking(n),
                    Effects {
                        update: StatusUpdate { running: None, reset_clicks: true },
                        reseed: false,
                    },
                ),
                Event::Received(Command::Stop) => end_session(SessionEnd::Idle),
                Event::Received(Command::Shutdown) => end_session(SessionEnd::Shutdown),
                Event::Disconnected => end_session(SessionEnd::Shutdown),
                _ => (WorkerState::Waiting(c), quiet()),
            },
            WorkerState::Exited => (WorkerState::Exited, quiet()),
        }
    }
}

/// One step of synthesized input.
#[derive(Debug, Clone, Copy, PartialEq, Eq, Structural)]
pub enum InputAction {
    /// Move the cursor to a point.
    MoveTo(Point),
    /// Press and release a button.
    Press(MouseButton),
}

/// The input actions of one logical click under `config`, with `offset`
/// added (wrapping) to a fixed position: a move first for a fixed position,
/// then one press, or two for a double click.
pub open spec fn spec_click_plan(config: ClickConfig, offset: (i32, i32)) -> Seq<InputAction> {
    let moves = match config.position {
        Position::Fixed { x, y } => seq![
            InputAction::MoveTo(Point { x: x.wrapping_add(offset.0), y: y.wrapping_add(offset.1) }),
        ],
        Position::Current => Seq::<InputAction>::empty(),
    };
    let presses = match config.click_type {
        ClickType::Single => seq![InputAction::Press(config.button)],
        ClickType::Double => seq![
            InputAction::Press(config.button),
            InputAction::Press(config.button),
        ],
    };
    moves + presses
}

/// Lists the input actions of one logical click; the caller performs them in
/// order and stops at the first failure. `offset` is the position jitter, used
/// only for a fixed position.
pub fn click_plan(config: &ClickConfig, offset: (i32, i32)) -> (r: Vec<InputAction>)
    ensures
        r@ == spec_click_plan(*config, offset),
{
    let mut plan: Vec<InputAction> = Vec::new();
    if let Position::Fixed { x, y } = config.position {
        plan.push(
            InputAction::MoveTo(Point { x: x.wrapping_add(offset.0), y: y.wrapping_add(offset.1) }),
        );
    }
    plan.push(InputAction::Press(config.button));
    if config.click_type == ClickType::Double {
        plan.push(InputAction::Press(config.button));
    }
    assert(plan@ =~= spec_click_plan(*config, offset));
    plan
}


/// The state after feeding `events` to the worker from `s`.
pub open spec fn run_events(s: WorkerState, events: Seq<Event>) -> WorkerState
    decreases events.len(),
{
    if events.len() == 0 {
        s
    } else {
        run_events(spec_step(s, events[0]).0, events.drop_first())
    }
}

/// How many logical clicks the worker begins (enters [`WorkerState::Clicking`])
/// while it consumes `events` from `s`.
pub open spec fn clicks_begun(s: WorkerState, events: Seq<Event>) -> nat
    decreases events.len(),
{
    if events.len() == 0 {
        0
    } else {
        let next = spec_step(s, events[0]).0;
        (if next is Clicking {
            1nat
        } else {
            0nat
        }) + clicks_begun(next, events.drop_first())
    }
}

/// The events of an undisturbed counted session, from the click that makes
/// the count `done + 1` on: every click succeeds, the shared counter reports
/// each new total, and each interval elapses with no command.
pub open spec fn quiet_session_from(done: nat, times: nat) -> Seq<Event>
    decreases times - done,
{
    if done + 1 >= times {
        seq![Event::Clicked(Ok(())), Event::Counted((done + 1) as u64)]
    } else {
        seq![Event::Clicked(Ok(())), Event::Counted((done + 1) as u64), Event::TimedOut]
            + quiet_session_from(done + 1, times)
    }
}

proof fn lemma_run_cons(s: WorkerState, e: Event, rest: Seq<Event>)
    ensures
        run_events(s, seq![e] + rest) == run_events(spec_step(s, e).0, rest),
        clicks_begun(s, seq![e] + rest) == (if spec_step(s, e).0 is Clicking {
            1nat
        } else {
            0nat
        }) + clicks_begun(spec_step(s, e).0, rest),
{
    let evs = seq![e] + rest;
    assert(evs[0] == e);
    assert(evs.drop_first() =~= rest);
}

proof fn lemma_quiet_tail(c: ClickConfig, done: nat, times: nat)
    requires
        done < times <= u64::MAX,
        c.repeat == (Repeat::Count { times: times as u64 }),
    ensures
        run_events(WorkerState::Clicking(c), quiet_session_from(done, times)) == WorkerState::Idle,
        clicks_begun(WorkerState::Clicking(c), quiet_session_from(done, times)) == times - done
            - 1,
    decreases times - done,
{
    let k = (done + 1) as u64;
    if done + 1 >= times {
        let evs = quiet_session_from(done, times);
        let none = Seq::<Event>::empty();
        assert(evs =~= seq![Event::Clicked(Ok(()))] + (seq![Event::Counted(k)] + none));
        lemma_run_cons(
            WorkerState::Clicking(c),
            Event::Clicked(Ok(())),
            seq![Event::Counted(k)] + none,
        );
        lemma_run_cons(WorkerState::Counting(c), Event::Counted(k), none);
        assert(spec_step(WorkerState::Counting(c), Event::Counted(k)).0 == WorkerState::Idle);
        assert(run_events(WorkerState::Idle, none) == WorkerState::Idle);
        assert(clicks_begun(WorkerState::Idle, none) == 0);
    } else {
        let tail = quiet_session_from(done + 1, times);
        let evs = quiet_session_from(done, times);
        assert(evs =~= seq![Event::Clicked(Ok(()))] + (seq![Event::Counted(k)] + (
        seq![Event::TimedOut] + tail)));
        lemma_run_cons(
            WorkerState::Clicking(c),
            Event::Clicked(Ok(())),
            seq![Event::Counted(k)] + (seq![Event::TimedOut] + tail),
        );
        lemma_run_cons(
            WorkerState::Counting(c),
            Event::Counted(k),
            seq![Event::TimedOut] + tail,
        );
        lemma_run_cons(WorkerState::Waiting(c), Event::TimedOut, tail);
        lemma_quiet_tail(c, done + 1, times);
    }
}

/// A session started with `Count { times }` that is not disturbed (every
/// click succeeds, each interval elapses, no command arrives) begins exactly
/// `times` logical clicks and then returns to idle.
pub proof fn law_counted_session_clicks_exactly(c: ClickConfig, times: u64)
    requires
        c.repeat == (Repeat::Count { times }),
        times >= 1,
    ensures
        ({
            let events = seq![Event::Received(Command::Start(c))] + quiet_session_from(
                0,
                times as nat,
            );
            &&& run_events(WorkerState::Idle, events) == WorkerState::Idle
            &&& clicks_begun(WorkerState::Idle, events) == times
        }),
{
    lemma_run_cons(
        WorkerState::Idle,
        Event::Received(Command::Start(c)),
        quiet_session_from(0, times as nat),
    );
    lemma_quiet_tail(c, 0, times as nat);
}

/// A new click begins only from idle (on a start command) or after a wait
/// (when the interval elapses or a restart arrives), so a stop sent while a
/// click is under way is seen before any further click begins.
pub proof fn law_clicks_begin_only_after_a_wait(s: WorkerState, e: Event)
    requires
        spec_step(s, e).0 is Clicking,
        !(s is Clicking),
    ensures
        s is Idle || s is Waiting,
        e is TimedOut || e matches Event::Received(Command::Start(_)),
{
}

/// A start command that arrives during a session restarts it at once with
/// the new configuration and a zero count; the jitter generator is kept.
pub proof fn law_restart_adopts_new_config(c: ClickConfig, n: ClickConfig)
    ensures
        spec_step(WorkerState::Waiting(c), Event::Received(Command::Start(n))) == (
            WorkerState::Clicking(n),
            Effects {
                update: StatusUpdate { running: None, reset_clicks: true },
                reseed: false,
            },
        ),
{
}

/// Idle, the worker begins clicking only on a start command, and then with
/// exactly the configuration it carries.
pub proof fn law_idle_clicks_only_when_started(e: Event)
    ensures
        spec_step(WorkerState::Idle, e).0 is Clicking ==> (e matches Event::Received(
            Command::Start(c),
        ) && spec_step(WorkerState::Idle, e).0 == WorkerState::Clicking(c)),
{
}

/// Once exited, the worker stays exited and publishes nothing.
pub proof fn law_exited_is_final(e: Event)
    ensures
        spec_step(WorkerState::Exited, e) == (WorkerState::Exited, no_effects()),
{
}

/// Whenever a session ends (the worker leaves a session state for idle or
/// exit), the running flag is dropped in the same step.
pub proof fn law_session_end_clears_running(s: WorkerState, e: Event)
    requires
        s is Clicking || s is Counting || s is Waiting,
        spec_step(s, e).0 is Idle || spec_step(s, e).0 is Exited,
    ensures
        spec_step(s, e).1.update.running == Some(false),
{
}

/// While a session waits, a stop command ends it (back to idle) and a
/// shutdown command or a closed channel terminates the worker.
pub proof fn law_stop_and_shutdown_are_honoured(c: ClickConfig)
    ensures
        spec_step(WorkerState::Waiting(c), Event::Received(Command::Stop)).0 == WorkerState::Idle,
        spec_step(WorkerState::Waiting(c), Event::Received(Command::Shutdown)).0
            == WorkerState::Exited,
        spec_step(WorkerState::Waiting(c), Event::Disconnected).0 == WorkerState::Exited,
{
}

/// The running flag never goes up from the worker's side: only a start
/// request raises it.
pub proof fn law_worker_never_raises_running(s: WorkerState, e: Event)
    ensures
        spec_step(s, e).1.update.running != Some(true),
{
}

/// Toggling twice with a valid configuration returns the running flag to
/// where it was; toggling from running always stops.
pub proof fn law_toggle_twice_restores(s: Status)
    ensures
        ({
            let first = if s.running { stop_update() } else { start_update() };
            let s1 = first.apply(s);
            let second = if s1.running { stop_update() } else { start_update() };
            &&& s1.running == !s.running
            &&& second.apply(s1).running == s.running
        }),
{
}

/// Stopping is idempotent: a second stop changes nothing.
pub proof fn law_stop_is_idempotent(s: Status)
    ensures
        stop_update().apply(stop_update().apply(s)) == stop_update().apply(s),
{
}

/// A successful start leaves the status running with a zero count.
pub proof fn law_start_resets_status(s: Status)
    ensures
        start_update().apply(s) == (Status { running: true, clicks: 0 }),
{
}

/// The number of button presses in one logical click.
pub open spec fn presses_per_click(c: ClickConfig) -> nat {
    match c.click_type {
        ClickType::Single => 1,
        ClickType::Double => 2,
    }
}

/// One logical click presses the configured button once, or twice for a
/// double click, after at most one cursor move (only for a fixed position).
pub proof fn law_click_plan_presses(c: ClickConfig, offset: (i32, i32))
    ensures
        ({
            let plan = spec_click_plan(c, offset);
            let moves: nat = if c.position is Fixed { 1 } else { 0 };
            &&& plan.len() == moves + presses_per_click(c)
            &&& forall|i: int|
                moves <= i < plan.len() ==> plan[i] == InputAction::Press(c.button)
            &&& forall|i: int| 0 <= i < moves ==> plan[i] is MoveTo
        }),
{
}

/// Whether `s` is one of the session states, running `c`.
pub open spec fn in_session_with(s: WorkerState, c: ClickConfig) -> bool {
    s == WorkerState::Clicking(c) || s == WorkerState::Counting(c) || s == WorkerState::Waiting(c)
}

/// Whether `e` is what an undisturbed session sees: a successful click, a
/// count, or an elapsed interval.
pub open spec fn is_undisturbed_event(e: Event) -> bool {
    e matches Event::Clicked(Ok(())) || e is Counted || e is TimedOut
}

/// An until-stopped session never ends on its own: after any count it goes
/// on to wait for the next click, publishing nothing.
pub proof fn law_until_stopped_counts_never_end_the_session(c: ClickConfig, n: u64)
    requires
        c.repeat == Repeat::UntilStopped,
    ensures
        spec_step(WorkerState::Counting(c), Event::Counted(n)) == (
            WorkerState::Waiting(c),
            no_effects(),
        ),
{
}

/// An until-stopped session that sees only successful clicks, counts and
/// elapsed intervals, however many, stays in the session with the same
/// configuration: it ends only on a stop, a shutdown, a closed channel or a
/// failed click.
pub proof fn law_until_stopped_runs_until_stopped(
    s: WorkerState,
    c: ClickConfig,
    events: Seq<Event>,
)
    requires
        c.repeat == Repeat::UntilStopped,
        in_session_with(s, c),
        forall|i: int| 0 <= i < events.len() ==> is_undisturbed_event(#[trigger] events[i]),
    ensures
        in_session_with(run_events(s, events), c),
    decreases events.len(),
{
    if events.len() > 0 {
        let next = spec_step(s, events[0]).0;
        assert(is_undisturbed_event(events[0]));
        assert(in_session_with(next, c));
        let rest = events.drop_first();
        assert forall|i: int| 0 <= i < rest.len() implies is_undisturbed_event(#[trigger] rest[i]) by {
            assert(rest[i] == events[i + 1]);
        }
        law_until_stopped_runs_until_stopped(next, c, rest);
    }
}

/// For a fixed position the click first moves the cursor to that position
/// plus the jitter offset (wrapping at the ends of the `i32` range); with no
/// offset it moves to exactly the fixed point.
pub proof fn law_fixed_position_target(c: ClickConfig, offset: (i32, i32), x: i32, y: i32)
    requires
        c.position == (Position::Fixed { x, y }),
    ensures
        spec_click_plan(c, offset)[0] == InputAction::MoveTo(
            Point { x: x.wrapping_add(offset.0), y: y.wrapping_add(offset.1) },
        ),
        i32::MIN <= x + offset.0 <= i32::MAX && i32::MIN <= y + offset.1 <= i32::MAX
            ==> spec_click_plan(c, offset)[0] == InputAction::MoveTo(
            Point { x: (x + offset.0) as i32, y: (y + offset.1) as i32 },
        ),
        spec_click_plan(c, (0, 0))[0] == InputAction::MoveTo(Point { x, y }),
{
}

} // verus!
