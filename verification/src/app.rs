//! The frame loop: its configuration, its state, and the rule by which it
//! moves from one step to the next.
//!
//! The loop needs a clock, a terminal and user code, none of which lives
//! here.  So the loop is written as a transition: a driver tells the
//! [`App`] what has just happened, as an [`Event`], and is told what to do
//! next, as an [`Action`].  Before it carries out an action the driver
//! sends the commands that the window holds pending.

use vstd::prelude::*;

use crate::command::{closing, frame, opening, Command};
use crate::keyboard::{Key, Keyboard};
use crate::terminal::{Window, WindowView};

verus! {

/// The line a driver prints when a frame has failed, before it waits for the
/// operator to press enter.
pub const RECOVERY_NOTICE: &'static str = "\n\n[Press 'enter' to recover the terminal]";

/// The nanoseconds in a second.
pub const NANOS_PER_SECOND: u64 = 1_000_000_000;

/// The time one frame may take at `fps` frames a second, in nanoseconds,
/// rounded down.
pub open spec fn frame_budget(fps: u32) -> nat
    recommends
        fps != 0,
{
    (NANOS_PER_SECOND as nat) / (fps as nat)
}

/// What the loop is configured with.
pub struct Config {
    /// The frames per second that the loop aims at.
    pub fps: u32,
}

impl Config {
    /// Thirty frames a second.
    pub fn new() -> (config: Config)
        ensures
            config.fps == 30,
    {
        Config { fps: 30 }
    }

    /// This configuration with another frame rate.
    pub fn fps(self, fps: u32) -> (config: Config)
        ensures
            config.fps == fps,
    {
        let mut config = self;
        config.fps = fps;
        config
    }
}

/// A loop state as a mathematical value.
pub struct StateView {
    /// Whether the loop goes on to another frame.
    pub running: bool,
    /// The keys of the current frame.
    pub keys: Seq<Key>,
    /// How long the last completed frame took, in nanoseconds.
    pub dt: nat,
    /// How many frames have completed.
    pub step: nat,
}

/// What the user callback sees of the loop.
pub struct State {
    running: bool,
    keyboard: Keyboard,
    dt: u128,
    step: usize,
}

impl View for State {
    type V = StateView;

    closed spec fn view(&self) -> StateView {
        StateView {
            running: self.running,
            keys: self.keyboard@,
            dt: self.dt as nat,
            step: self.step as nat,
        }
    }
}

impl State {
    /// The state before the first frame: not running, no keys, no time
    /// measured, no frame counted.
    pub fn new() -> (state: State)
        ensures
            state@ == (StateView { running: false, keys: Seq::empty(), dt: 0, step: 0 }),
    {
        State { running: false, keyboard: Keyboard::new(), dt: 0, step: 0 }
    }

    /// Marks the loop as running.
    pub fn run(&mut self)
        ensures
            final(self)@ == (StateView { running: true, ..old(self)@ }),
    {
        self.running = true;
    }

    /// Asks the loop to stop.  The frame under way is still completed.
    pub fn stop(&mut self)
        ensures
            final(self)@ == (StateView { running: false, ..old(self)@ }),
    {
        self.running = false;
    }

    /// Whether the loop goes on to another frame.
    pub fn is_running(&self) -> (running: bool)
        ensures
            running == self@.running,
    {
        self.running
    }

    /// The keys of the current frame.
    pub fn keyboard(&self) -> (keyboard: &Keyboard)
        ensures
            keyboard@ == self@.keys,
    {
        &self.keyboard
    }

    /// How long the last completed frame took, in nanoseconds.
    pub fn dt(&self) -> (dt: u128)
        ensures
            dt == self@.dt,
    {
        self.dt
    }

    /// How many frames have completed.
    pub fn step(&self) -> (step: usize)
        ensures
            step == self@.step,
    {
        self.step
    }
}

/// Where the loop stands: what it waits for the driver to report.
#[derive(Debug, Clone, Copy, PartialEq, Eq, Structural)]
pub enum Stage {
    /// The loop has never been entered.
    NotStarted,
    /// A frame is about to start: the loop waits for the display size and
    /// the keys.
    Preparing,
    /// The user callback is at work.
    Invoking,
    /// The frame is on its way to the terminal: the loop waits for the time
    /// it took.
    Presenting,
    /// The frame was faster than its budget: the loop sleeps the rest.
    Sleeping,
    /// A frame has failed and the terminal has been given back: the loop
    /// waits for the operator.
    Recovering,
    /// The loop has returned; it may be entered again.
    Finished,
}

/// What the driver reports to the loop.
#[derive(Debug)]
pub enum Event {
    /// The loop is entered.
    Start,
    /// A frame starts on a display of `display.0` columns and `display.1`
    /// rows; `keys` were pressed since the frame before.
    FrameReady { display: (u16, u16), keys: Vec<Key> },
    /// The user callback has returned.
    CallbackDone,
    /// The frame has been sent; `elapsed` nanoseconds have passed since it
    /// started.
    Presented { elapsed: u128 },
    /// The sleep is over.
    Woke,
    /// Something in the frame under way has failed beyond repair: the
    /// callback, or the terminal.
    Failure,
    /// The operator has pressed enter.
    Acknowledged,
}

/// What the loop asks of the driver next.  Whatever it is, the driver first
/// sends the window's pending commands.
#[derive(Debug, Clone, Copy, PartialEq, Eq, Structural)]
pub enum Action {
    /// Note the time, ask the terminal for its size, collect the keys
    /// pressed, and report [`Event::FrameReady`].
    BeginFrame,
    /// Call the user callback with the state and the window, and report
    /// [`Event::CallbackDone`].
    RunCallback,
    /// Measure the time since the frame started and report
    /// [`Event::Presented`].
    Present,
    /// Sleep for so many nanoseconds and report [`Event::Woke`].
    Sleep(u64),
    /// Print [`RECOVERY_NOTICE`], wait for one line of input, and report
    /// [`Event::Acknowledged`].
    AwaitAcknowledgement,
    /// Return to the caller: the loop is over.
    Return,
}

/// A loop as a mathematical value.
pub struct AppView {
    /// The configured frames per second.
    pub fps: u32,
    /// Where the loop stands.
    pub stage: Stage,
    /// What the user callback sees of the loop.
    pub state: StateView,
    /// The display surface.
    pub window: WindowView,
}

impl AppView {
    /// Whether `event` is one that the loop waits for where it stands.
    ///
    /// The loop is entered before its first run or after a run has
    /// returned, and only at a frame rate other than zero.  A frame can fail
    /// wherever one is under way.  A frame that has been presented is
    /// counted, so the counter must have room.
    pub open spec fn accepts(self, event: Event) -> bool {
        match event {
            Event::Start => (self.stage == Stage::NotStarted || self.stage == Stage::Finished)
                && self.fps != 0,
            Event::FrameReady { .. } => self.stage == Stage::Preparing,
            Event::CallbackDone => self.stage == Stage::Invoking,
            Event::Presented { .. } => self.stage == Stage::Presenting && self.fps != 0
                && self.state.step < usize::MAX,
            Event::Woke => self.stage == Stage::Sleeping,
            Event::Failure => self.stage == Stage::Preparing || self.stage == Stage::Invoking
                || self.stage == Stage::Presenting || self.stage == Stage::Sleeping,
            Event::Acknowledged => self.stage == Stage::Recovering,
        }
    }

    /// The top of the loop: on to the next frame while the loop is running;
    /// else the terminal is given back and the loop returns.
    pub open spec fn resume(self) -> (AppView, Action) {
        if self.state.running {
            (AppView { stage: Stage::Preparing, ..self }, Action::BeginFrame)
        } else {
            (
                AppView { stage: Stage::Finished, window: self.window.issue(closing()), ..self },
                Action::Return,
            )
        }
    }

    /// The loop after `event`, and what it asks of the driver next.
    pub open spec fn advance(self, event: Event) -> (AppView, Action) {
        match event {
            Event::Start => (
                AppView {
                    stage: Stage::Preparing,
                    state: StateView { running: true, ..self.state },
                    window: self.window.issue(opening(self.window.canvas.default_element)),
                    ..self
                },
                Action::BeginFrame,
            ),
            Event::FrameReady { display, keys } => (
                AppView {
                    stage: Stage::Invoking,
                    state: StateView { keys: keys@, ..self.state },
                    window: self.window.clear(display),
                    ..self
                },
                Action::RunCallback,
            ),
            Event::CallbackDone => (
                AppView {
                    stage: Stage::Presenting,
                    window: self.window.issue(frame(self.window.canvas)),
                    ..self
                },
                Action::Present,
            ),
            Event::Presented { elapsed } => {
                let counted = AppView {
                    state: StateView {
                        dt: elapsed as nat,
                        step: self.state.step + 1,
                        ..self.state
                    },
                    ..self
                };
                if elapsed < frame_budget(self.fps) {
                    (
                        AppView { stage: Stage::Sleeping, ..counted },
                        Action::Sleep((frame_budget(self.fps) - elapsed) as u64),
                    )
                } else {
                    counted.resume()
                }
            },
            Event::Woke => self.resume(),
            Event::Failure => (
                AppView {
                    stage: Stage::Recovering,
                    state: StateView { running: false, ..self.state },
                    window: self.window.issue(closing()),
                    ..self
                },
                Action::AwaitAcknowledgement,
            ),
            Event::Acknowledged => (
                AppView { stage: Stage::Finished, window: self.window.issue(closing()), ..self },
                Action::Return,
            ),
        }
    }
}

/// The frame loop: a configuration, a state and a display surface.
pub struct App {
    config: Config,
    state: State,
    window: Window,
    stage: Stage,
}

impl View for App {
    type V = AppView;

    closed spec fn view(&self) -> AppView {
        AppView {
            fps: self.config.fps,
            stage: self.stage,
            state: self.state@,
            window: self.window@,
        }
    }
}

impl App {
    /// A loop at thirty frames a second on a display of `display.0` columns
    /// and `display.1` rows.
    pub fn new(display: (u16, u16)) -> (app: App)
        ensures
            app@ == Self::initial(30, display),
    {
        App {
            config: Config::new(),
            state: State::new(),
            window: Window::new(display),
            stage: Stage::NotStarted,
        }
    }

    /// A loop with the given configuration on a display of `display.0`
    /// columns and `display.1` rows.
    pub fn config(config: Config, display: (u16, u16)) -> (app: App)
        ensures
            app@ == Self::initial(config.fps, display),
    {
        App { config, state: State::new(), window: Window::new(display), stage: Stage::NotStarted }
    }

    /// The loop before it is entered: a fresh state and a fresh window.
    pub open spec fn initial(fps: u32, display: (u16, u16)) -> AppView {
        AppView {
            fps,
            stage: Stage::NotStarted,
            state: StateView { running: false, keys: Seq::empty(), dt: 0, step: 0 },
            window: WindowView::initial(display),
        }
    }

    /// The display surface.
    pub fn window(&self) -> (window: &Window)
        ensures
            window@ == self@.window,
    {
        &self.window
    }

    /// What the user callback sees of the loop.
    pub fn state(&self) -> (state: &State)
        ensures
            state@ == self@.state,
    {
        &self.state
    }

    /// Where the loop stands.
    pub fn stage(&self) -> (stage: Stage)
        ensures
            stage == self@.stage,
    {
        self.stage
    }

    /// The state and the window, for the user callback to work on.  The
    /// loop then goes on with whatever the callback leaves behind the two
    /// references.
    pub fn state_and_window(&mut self) -> (parts: (&mut State, &mut Window))
        ensures
            parts.0@ == old(self)@.state,
            parts.1@ == old(self)@.window,
            final(self)@ == (AppView {
                state: final(parts.0)@,
                window: final(parts.1)@,
                ..old(self)@
            }),
    {
        (&mut self.state, &mut self.window)
    }

    /// Whether `event` is one that the loop waits for where it stands.
    pub fn accepts(&self, event: &Event) -> (accepted: bool)
        ensures
            accepted == self@.accepts(*event),
    {
        match event {
            Event::Start => (self.stage == Stage::NotStarted || self.stage == Stage::Finished)
                && self.config.fps != 0,
            Event::FrameReady { .. } => self.stage == Stage::Preparing,
            Event::CallbackDone => self.stage == Stage::Invoking,
            Event::Presented { .. } => self.stage == Stage::Presenting && self.config.fps != 0
                && self.state.step < usize::MAX,
            Event::Woke => self.stage == Stage::Sleeping,
            Event::Failure => self.stage == Stage::Preparing || self.stage == Stage::Invoking
                || self.stage == Stage::Presenting || self.stage == Stage::Sleeping,
            Event::Acknowledged => self.stage == Stage::Recovering,
        }
    }

    /// Takes the loop one step on: records what `event` reports and says
    /// what the driver is to do next.
    pub fn advance(&mut self, event: Event) -> (action: Action)
        requires
            old(self)@.accepts(event),
        ensures
            (final(self)@, action) == old(self)@.advance(event),
    {
        match event {
            Event::Start => {
                self.state.run();
                self.window.open();
                self.stage = Stage::Preparing;
                Action::BeginFrame
            },
            Event::FrameReady { display, keys } => {
                self.window.clear(display);
                self.state.keyboard.consume_key_events(keys);
                self.stage = Stage::Invoking;
                Action::RunCallback
            },
            Event::CallbackDone => {
                self.window.draw();
                self.stage = Stage::Presenting;
                Action::Present
            },
            Event::Presented { elapsed } => {
                self.state.dt = elapsed;
                self.state.step += 1;
                let budget: u64 = NANOS_PER_SECOND / (self.config.fps as u64);
                if elapsed < budget as u128 {
                    self.stage = Stage::Sleeping;
                    Action::Sleep(budget - elapsed as u64)
                } else {
                    self.resume()
                }
            },
            Event::Woke => self.resume(),
            Event::Failure => {
                self.state.stop();
                self.window.close();
                self.stage = Stage::Recovering;
                Action::AwaitAcknowledgement
            },
            Event::Acknowledged => {
                self.window.close();
                self.stage = Stage::Finished;
                Action::Return
            },
        }
    }

    fn resume(&mut self) -> (action: Action)
        ensures
            (final(self)@, action) == old(self)@.resume(),
    {
        if self.state.is_running() {
            self.stage = Stage::Preparing;
            Action::BeginFrame
        } else {
            self.window.close();
            self.stage = Stage::Finished;
            Action::Return
        }
    }
}

/// The frame budget is the second divided by the frame rate, rounded down:
/// never more than a second.
pub proof fn lemma_frame_budget_bounds(fps: u32)
    requires
        fps != 0,
    ensures
        frame_budget(fps) * fps <= NANOS_PER_SECOND < (frame_budget(fps) + 1) * fps,
        frame_budget(fps) <= NANOS_PER_SECOND,
{
    let budget = frame_budget(fps);
    assert(budget * fps <= NANOS_PER_SECOND < (budget + 1) * fps) by (nonlinear_arith)
        requires
            fps > 0,
            budget == (NANOS_PER_SECOND as nat) / (fps as nat),
    ;
    assert(budget <= NANOS_PER_SECOND) by (nonlinear_arith)
        requires
            budget * fps <= NANOS_PER_SECOND,
            fps >= 1,
    ;
}

/// Frame pacing.  A frame that took less than the budget is followed by a
/// sleep for exactly the rest, so that the frame and its sleep together
/// take the budget.  A frame that used the budget up or overran it is
/// followed by no sleep: the loop goes straight to its top, and nothing of
/// the overrun is taken from the frames that follow.
pub proof fn lemma_frame_pacing(app: AppView, elapsed: u128)
    requires
        app.accepts(Event::Presented { elapsed }),
    ensures
        elapsed < frame_budget(app.fps) ==> app.advance(Event::Presented { elapsed }).1
            == Action::Sleep((frame_budget(app.fps) - elapsed) as u64) && elapsed + ((
        frame_budget(app.fps) - elapsed) as u64) == frame_budget(app.fps),
        elapsed >= frame_budget(app.fps) ==> app.advance(Event::Presented { elapsed }).1 == (
        if app.state.running {
            Action::BeginFrame
        } else {
            Action::Return
        }),
{
    lemma_frame_budget_bounds(app.fps);
}

/// The frame counter goes up by one, and the frame time is taken, when a
/// frame has been presented, and at no other step.
pub proof fn lemma_only_presented_frames_count(app: AppView, event: Event)
    requires
        app.accepts(event),
    ensures
        app.advance(event).0.state.step == app.state.step + (if event is Presented {
            1nat
        } else {
            0nat
        }),
        app.advance(event).0.state.dt == (match event {
            Event::Presented { elapsed } => elapsed as nat,
            _ => app.state.dt,
        }),
        app.advance(event).0.fps == app.fps,
{
}

/// The loop returns only with the terminal given back: the step that ends
/// the loop issues the closing commands last, and no other step ends it.
pub proof fn lemma_return_gives_terminal_back(app: AppView, event: Event)
    requires
        app.accepts(event),
    ensures
        app.advance(event).1 == Action::Return <==> app.advance(event).0.stage
            == Stage::Finished,
        app.advance(event).1 == Action::Return ==> app.advance(event).0.window.pending
            == app.window.pending + closing(),
{
}

/// A loop that has returned waits for nothing but to be entered again.
pub proof fn lemma_finished_loop_only_starts_again(app: AppView, event: Event)
    requires
        app.stage == Stage::Finished,
        app.accepts(event),
    ensures
        event is Start,
{
}

/// The failure path.  Wherever a frame fails, the loop stops running, gives
/// the terminal back at once, raw mode first, and has the driver print the
/// notice and wait for the operator.  When the operator has answered, the
/// loop gives the terminal back a second time and returns.
pub proof fn lemma_failure_gives_terminal_back_twice(app: AppView)
    requires
        app.accepts(Event::Failure),
    ensures
        ({
            let (failed, wait) = app.advance(Event::Failure);
            let (done, last) = failed.advance(Event::Acknowledged);
            &&& wait == Action::AwaitAcknowledgement
            &&& !failed.state.running
            &&& failed.window.pending == app.window.pending + closing()
            &&& closing()[0] == Command::DisableRawMode
            &&& closing().contains(Command::LeaveAlternateScreen)
            &&& failed.accepts(Event::Acknowledged)
            &&& last == Action::Return
            &&& done.stage == Stage::Finished
            &&& done.window.pending == app.window.pending + closing() + closing()
            &&& done.state.step == app.state.step
        }),
{
    assert(closing()[4] == Command::LeaveAlternateScreen);
}

} // verus!
