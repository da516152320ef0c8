//! The engine's decisions, driven by a small synchronous simulator that plays
//! the part of the worker thread and of a counting input backend.

use stacco::config::{ClickConfig, ClickType, MouseButton, Position, Repeat};
use stacco::engine::{
    click_plan, start_request, stop_request, toggle_request, Command, Effects, Event,
    InputAction, SessionEnd, Status, StatusUpdate, WorkerState,
};
use stacco::error::Error;
use stacco::input::Point;

fn apply(status: &mut Status, update: StatusUpdate) {
    if let Some(r) = update.running {
        status.running = r;
    }
    if update.reset_clicks {
        status.clicks = 0;
    }
}

/// A worker thread and a counting backend, run step by step.
struct Sim {
    worker: Option<WorkerState>,
    status: Status,
    presses: u64,
    moves: Vec<Point>,
    reseeds: u64,
}

impl Sim {
    fn new() -> Self {
        Sim {
            worker: Some(WorkerState::new()),
            status: Status { running: false, clicks: 0 },
            presses: 0,
            moves: Vec::new(),
            reseeds: 0,
        }
    }

    fn feed(&mut self, event: Event) {
        let (next, fx): (WorkerState, Effects) = self.worker.take().unwrap().step(event);
        apply(&mut self.status, fx.update);
        if fx.reseed {
            self.reseeds += 1;
        }
        self.worker = Some(next);
    }

    fn state(&self) -> &WorkerState {
        self.worker.as_ref().unwrap()
    }

    /// Performs what the current state waits for, when that needs no command.
    fn tick(&mut self) -> bool {
        match self.state() {
            WorkerState::Clicking(cfg) => {
                for action in click_plan(cfg, (0, 0)) {
                    match action {
                        InputAction::MoveTo(p) => self.moves.push(p),
                        InputAction::Press(_) => self.presses += 1,
                    }
                }
                self.feed(Event::Clicked(Ok(())));
                true
            }
            WorkerState::Counting(_) => {
                self.status.clicks += 1;
                let done = self.status.clicks;
                self.feed(Event::Counted(done));
                true
            }
            WorkerState::Waiting(_) => {
                self.feed(Event::TimedOut);
                true
            }
            WorkerState::Idle | WorkerState::Exited => false,
        }
    }

    fn start(&mut self, cfg: ClickConfig) -> Result<(), Error> {
        let req = start_request(cfg)?;
        apply(&mut self.status, req.update);
        self.feed(Event::Received(req.command));
        Ok(())
    }

    fn run_until_idle(&mut self, limit: usize) {
        for _ in 0..limit {
            if !self.tick() {
                return;
            }
        }
        panic!("session did not finish in time");
    }
}

fn fast_config() -> ClickConfig {
    ClickConfig { interval_ms: 2, ..Default::default() }
}

#[test]
fn performs_exactly_the_requested_count() {
    let mut sim = Sim::new();
    sim.start(ClickConfig { repeat: Repeat::Count { times: 5 }, ..fast_config() }).unwrap();
    sim.run_until_idle(1000);
    assert!(!sim.status.running);
    assert_eq!(sim.status.clicks, 5);
    assert_eq!(sim.presses, 5);
}

#[test]
fn double_click_actuates_twice_per_tick() {
    let mut sim = Sim::new();
    sim.start(ClickConfig {
        click_type: ClickType::Double,
        repeat: Repeat::Count { times: 3 },
        ..fast_config()
    })
    .unwrap();
    sim.run_until_idle(1000);
    assert!(!sim.status.running);
    assert_eq!(sim.status.clicks, 3);
    assert_eq!(sim.presses, 6);
}

#[test]
fn stop_halts_clicking_promptly() {
    let mut sim = Sim::new();
    sim.start(ClickConfig { interval_ms: 5, ..Default::default() }).unwrap();
    while sim.status.clicks < 2 {
        assert!(sim.tick());
    }
    // Let the worker reach its wait, as the real one does after counting.
    while !matches!(sim.state(), WorkerState::Waiting(_)) {
        assert!(sim.tick());
    }
    let req = stop_request();
    apply(&mut sim.status, req.update);
    let at_stop = sim.status.clicks;
    sim.feed(Event::Received(req.command));
    for _ in 0..60 {
        sim.tick();
    }
    assert!(sim.status.clicks - at_stop <= 1);
    assert!(!sim.status.running);
    assert!(matches!(sim.state(), WorkerState::Idle));
}

#[test]
fn start_rejects_invalid_config() {
    let mut sim = Sim::new();
    let result = sim.start(ClickConfig { interval_ms: 0, ..Default::default() });
    assert!(result.is_err());
    assert!(!sim.status.running);
    assert!(matches!(sim.state(), WorkerState::Idle));
}

#[test]
fn start_sets_running_and_resets_count() {
    let req = start_request(ClickConfig::default()).unwrap();
    assert_eq!(req.update, StatusUpdate { running: Some(true), reset_clicks: true });
    assert!(matches!(req.command, Command::Start(ref c) if *c == ClickConfig::default()));
    let stop = stop_request();
    assert_eq!(stop.update, StatusUpdate { running: Some(false), reset_clicks: false });
    assert!(matches!(stop.command, Command::Stop));
}

#[test]
fn toggle_flips_the_running_state() {
    let (now, req) = toggle_request(false, ClickConfig::default()).unwrap();
    assert!(now);
    assert!(matches!(req.command, Command::Start(_)));
    let (now, req) = toggle_request(true, ClickConfig::default()).unwrap();
    assert!(!now);
    assert!(matches!(req.command, Command::Stop));
    // Stopping ignores the configuration, even an invalid one.
    let (now, _) = toggle_request(true, ClickConfig { interval_ms: 0, ..Default::default() }).unwrap();
    assert!(!now);
    match toggle_request(false, ClickConfig { interval_ms: 0, ..Default::default() }) {
        Err(Error::InvalidConfig(m)) => {
            assert_eq!(m, "interval 0 ms is outside the allowed range 1..=3600000 ms")
        }
        Err(other) => panic!("unexpected {other:?}"),
        Ok(_) => panic!("invalid config started"),
    }
}

#[test]
fn stop_is_idempotent() {
    let mut status = Status { running: true, clicks: 9 };
    apply(&mut status, stop_request().update);
    let once = status;
    apply(&mut status, stop_request().update);
    assert_eq!(status, once);
    assert_eq!(status, Status { running: false, clicks: 9 });
}

#[test]
fn live_reconfiguration_restarts_the_count() {
    let mut sim = Sim::new();
    sim.start(fast_config()).unwrap();
    for _ in 0..8 {
        sim.tick();
    }
    assert!(matches!(sim.state(), WorkerState::Waiting(_)));
    assert_eq!(sim.status.clicks, 3);
    let next = ClickConfig { repeat: Repeat::Count { times: 2 }, ..fast_config() };
    let req = start_request(next).unwrap();
    apply(&mut sim.status, req.update);
    sim.feed(Event::Received(req.command));
    assert_eq!(sim.status.clicks, 0);
    assert_eq!(sim.reseeds, 1);
    sim.run_until_idle(100);
    assert_eq!(sim.status.clicks, 2);
    assert_eq!(sim.presses, 5);
}

#[test]
fn a_failed_click_ends_the_session() {
    let mut sim = Sim::new();
    sim.start(fast_config()).unwrap();
    assert!(sim.status.running);
    sim.feed(Event::Clicked(Err(Error::Input("blocked".to_owned()))));
    assert!(!sim.status.running);
    assert!(matches!(sim.state(), WorkerState::Idle));
}

#[test]
fn shutdown_and_disconnect_exit_the_worker() {
    let mut sim = Sim::new();
    sim.feed(Event::Received(Command::Stop));
    assert!(matches!(sim.state(), WorkerState::Idle));
    sim.feed(Event::Received(Command::Shutdown));
    assert!(matches!(sim.state(), WorkerState::Exited));
    sim.feed(Event::Received(Command::Start(ClickConfig::default())));
    assert!(matches!(sim.state(), WorkerState::Exited));

    let mut sim = Sim::new();
    sim.start(fast_config()).unwrap();
    sim.tick();
    sim.tick();
    assert!(matches!(sim.state(), WorkerState::Waiting(_)));
    sim.feed(Event::Disconnected);
    assert!(matches!(sim.state(), WorkerState::Exited));
    assert!(!sim.status.running);

    let mut idle = Sim::new();
    idle.feed(Event::Disconnected);
    assert!(matches!(idle.state(), WorkerState::Exited));
}

#[test]
fn unexpected_events_are_ignored() {
    let mut sim = Sim::new();
    sim.feed(Event::TimedOut);
    sim.feed(Event::Counted(3));
    assert!(matches!(sim.state(), WorkerState::Idle));
    assert_eq!(sim.status, Status { running: false, clicks: 0 });
}

#[test]
fn session_end_kinds() {
    assert!(SessionEnd::Shutdown.is_shutdown());
    assert!(!SessionEnd::Idle.is_shutdown());
}

#[test]
fn session_config_is_exposed_only_in_a_session() {
    let w = WorkerState::new();
    assert!(w.session_config().is_none());
    let (w, _) = w.step(Event::Received(Command::Start(fast_config())));
    assert_eq!(w.session_config().map(|c| c.interval_ms), Some(2));
}

#[test]
fn click_plan_moves_then_presses() {
    let cfg = ClickConfig {
        button: MouseButton::Middle,
        click_type: ClickType::Double,
        position: Position::Fixed { x: 10, y: 20 },
        ..Default::default()
    };
    assert_eq!(
        click_plan(&cfg, (-3, 4)),
        vec![
            InputAction::MoveTo(Point { x: 7, y: 24 }),
            InputAction::Press(MouseButton::Middle),
            InputAction::Press(MouseButton::Middle),
        ]
    );
    let at_cursor = ClickConfig { button: MouseButton::Right, ..Default::default() };
    assert_eq!(click_plan(&at_cursor, (5, 5)), vec![InputAction::Press(MouseButton::Right)]);
    let edge = ClickConfig { position: Position::Fixed { x: i32::MAX, y: i32::MIN }, ..Default::default() };
    assert_eq!(
        click_plan(&edge, (1, -1))[0],
        InputAction::MoveTo(Point { x: i32::MIN, y: i32::MAX })
    );
}
