use termgrid::app::{Action, App, Config, Event, Stage, State, RECOVERY_NOTICE};
use termgrid::command::Command;
use termgrid::keyboard::{Key, Keyboard};
use termgrid::spatial::Vec2;
use termgrid::terminal::{Color, Style, VisualElement, Window};

/// Runs the loop the way a driver does, without a terminal or a clock: every
/// frame takes `elapsed` nanoseconds, and `callback` says whether it failed.
/// Returns every command sent, every sleep asked for, and whether the
/// recovery notice was shown.
fn drive<F>(app: &mut App, display: (u16, u16), elapsed: u128, mut callback: F) -> Trace
where
    F: FnMut(&mut State, &mut Window) -> bool,
{
    let mut trace = Trace { sent: Vec::new(), sleeps: Vec::new(), acknowledged: 0 };
    let mut event = Event::Start;
    loop {
        assert!(app.accepts(&event));
        let action = app.advance(event);
        trace.sent.extend(app.state_and_window().1.take_commands());
        event = match action {
            Action::BeginFrame => Event::FrameReady { display, keys: Vec::new() },
            Action::RunCallback => {
                let (state, window) = app.state_and_window();
                if callback(state, window) {
                    Event::CallbackDone
                } else {
                    Event::Failure
                }
            }
            Action::Present => Event::Presented { elapsed },
            Action::Sleep(nanos) => {
                trace.sleeps.push(nanos);
                Event::Woke
            }
            Action::AwaitAcknowledgement => {
                trace.acknowledged += 1;
                Event::Acknowledged
            }
            Action::Return => return trace,
        };
    }
}

struct Trace {
    sent: Vec<Command>,
    sleeps: Vec<u64>,
    acknowledged: usize,
}

fn count(commands: &[Command], wanted: Command) -> usize {
    commands.iter().filter(|c| **c == wanted).count()
}

fn closing() -> Vec<Command> {
    vec![
        Command::DisableRawMode,
        Command::ShowCursor,
        Command::ResetAttributes,
        Command::ResetColor,
        Command::LeaveAlternateScreen,
        Command::Flush,
    ]
}

#[test]
fn config_defaults_to_thirty_frames_a_second() {
    assert_eq!(Config::new().fps, 30);
}

#[test]
fn config_builder_overrides_the_frame_rate() {
    assert_eq!(Config::new().fps(10).fps, 10);
    assert_eq!(Config::new().fps(10).fps(144).fps, 144);
}

#[test]
fn new_state_is_idle() {
    let state = State::new();
    assert!(!state.is_running());
    assert_eq!(state.dt(), 0);
    assert_eq!(state.step(), 0);
    assert!(state.keyboard().key_events().is_empty());
}

#[test]
fn state_runs_and_stops() {
    let mut state = State::new();
    state.run();
    assert!(state.is_running());
    state.stop();
    assert!(!state.is_running());
    state.stop();
    assert!(!state.is_running());
    assert_eq!(state.step(), 0);
}

#[test]
fn keyboard_holds_the_keys_of_the_last_frame_only() {
    let mut keyboard = Keyboard::new();
    assert!(keyboard.key_events().is_empty());
    keyboard.consume_key_events(vec![Key::Char('a'), Key::Enter]);
    assert_eq!(keyboard.key_events(), &vec![Key::Char('a'), Key::Enter]);
    keyboard.consume_key_events(vec![Key::Left]);
    assert_eq!(keyboard.key_events(), &vec![Key::Left]);
    keyboard.consume_key_events(Vec::new());
    assert!(keyboard.key_events().is_empty());
}

#[test]
fn new_app_has_not_started() {
    let app = App::new((4, 2));
    assert_eq!(app.stage(), Stage::NotStarted);
    assert!(!app.state().is_running());
    assert_eq!(app.state().step(), 0);
    assert_eq!(app.window().size(), Vec2::xy(4, 2));
    assert!(app.window().commands().is_empty());
}

#[test]
fn app_accepts_only_the_event_it_waits_for() {
    let mut app = App::new((1, 1));
    assert!(app.accepts(&Event::Start));
    assert!(!app.accepts(&Event::CallbackDone));
    assert!(!app.accepts(&Event::Failure));
    assert!(!app.accepts(&Event::Acknowledged));
    app.advance(Event::Start);
    assert!(!app.accepts(&Event::Start));
    assert!(app.accepts(&Event::FrameReady { display: (1, 1), keys: Vec::new() }));
    assert!(app.accepts(&Event::Failure));
    assert!(!app.accepts(&Event::Presented { elapsed: 0 }));
    assert!(!app.accepts(&Event::Woke));
}

#[test]
fn app_does_not_start_at_zero_frames_a_second() {
    let app = App::config(Config::new().fps(0), (1, 1));
    assert!(!app.accepts(&Event::Start));
}

#[test]
fn start_opens_the_window_and_asks_for_a_frame() {
    let mut app = App::new((2, 1));
    assert_eq!(app.advance(Event::Start), Action::BeginFrame);
    assert_eq!(app.stage(), Stage::Preparing);
    assert!(app.state().is_running());
    let commands = app.window().commands();
    assert_eq!(commands.len(), 9);
    assert_eq!(commands[0], Command::EnterAlternateScreen);
    assert_eq!(commands[7], Command::EnableRawMode);
    assert_eq!(commands[8], Command::Flush);
}

#[test]
fn frame_start_clears_the_canvas_and_takes_the_keys() {
    let mut app = App::new((2, 1));
    app.advance(Event::Start);
    let action = app.advance(Event::FrameReady { display: (3, 2), keys: vec![Key::Up, Key::Esc] });
    assert_eq!(action, Action::RunCallback);
    assert_eq!(app.stage(), Stage::Invoking);
    assert_eq!(app.window().size(), Vec2::xy(3, 2));
    assert_eq!(app.state().keyboard().key_events(), &vec![Key::Up, Key::Esc]);
    assert_eq!(app.state().step(), 0);
}

#[test]
fn callback_return_draws_the_frame() {
    let mut app = App::new((2, 1));
    app.advance(Event::Start);
    app.state_and_window().1.take_commands();
    app.advance(Event::FrameReady { display: (2, 1), keys: Vec::new() });
    assert_eq!(app.advance(Event::CallbackDone), Action::Present);
    assert_eq!(app.stage(), Stage::Presenting);
    let frame = app.window().commands();
    assert_eq!(frame.len(), 3 + 2 + 3 + 1);
    assert_eq!(frame.last(), Some(&Command::Flush));
}

#[test]
fn fast_frame_sleeps_the_rest_of_the_budget() {
    let mut app = App::new((1, 1));
    app.advance(Event::Start);
    app.advance(Event::FrameReady { display: (1, 1), keys: Vec::new() });
    app.advance(Event::CallbackDone);
    // 1_000_000_000 / 30 = 33_333_333
    assert_eq!(app.advance(Event::Presented { elapsed: 3_333_333 }), Action::Sleep(30_000_000));
    assert_eq!(app.stage(), Stage::Sleeping);
    assert_eq!(app.state().dt(), 3_333_333);
    assert_eq!(app.state().step(), 1);
    assert_eq!(app.advance(Event::Woke), Action::BeginFrame);
}

#[test]
fn instant_frame_sleeps_the_whole_budget() {
    let mut app = App::new((1, 1));
    app.advance(Event::Start);
    app.advance(Event::FrameReady { display: (1, 1), keys: Vec::new() });
    app.advance(Event::CallbackDone);
    assert_eq!(app.advance(Event::Presented { elapsed: 0 }), Action::Sleep(33_333_333));
}

#[test]
fn slow_frame_does_not_sleep() {
    let mut app = App::new((1, 1));
    app.advance(Event::Start);
    app.advance(Event::FrameReady { display: (1, 1), keys: Vec::new() });
    app.advance(Event::CallbackDone);
    assert_eq!(app.advance(Event::Presented { elapsed: 50_000_000 }), Action::BeginFrame);
    assert_eq!(app.stage(), Stage::Preparing);
    assert_eq!(app.state().dt(), 50_000_000);
    assert_eq!(app.state().step(), 1);
}

#[test]
fn frame_that_takes_exactly_the_budget_does_not_sleep() {
    let mut app = App::config(Config::new().fps(10), (1, 1));
    app.advance(Event::Start);
    app.advance(Event::FrameReady { display: (1, 1), keys: Vec::new() });
    app.advance(Event::CallbackDone);
    assert_eq!(app.advance(Event::Presented { elapsed: 100_000_000 }), Action::BeginFrame);
}

#[test]
fn frame_one_nanosecond_under_the_budget_sleeps_one() {
    let mut app = App::config(Config::new().fps(10), (1, 1));
    app.advance(Event::Start);
    app.advance(Event::FrameReady { display: (1, 1), keys: Vec::new() });
    app.advance(Event::CallbackDone);
    assert_eq!(app.advance(Event::Presented { elapsed: 99_999_999 }), Action::Sleep(1));
}

#[test]
fn very_long_frame_is_recorded_in_full() {
    let mut app = App::new((1, 1));
    app.advance(Event::Start);
    app.advance(Event::FrameReady { display: (1, 1), keys: Vec::new() });
    app.advance(Event::CallbackDone);
    assert_eq!(app.advance(Event::Presented { elapsed: u128::MAX }), Action::BeginFrame);
    assert_eq!(app.state().dt(), u128::MAX);
}

#[test]
fn budget_rounds_down_to_whole_nanoseconds() {
    for (fps, budget) in [(1u32, 1_000_000_000u64), (3, 333_333_333), (7, 142_857_142), (60, 16_666_666)] {
        let mut app = App::config(Config::new().fps(fps), (1, 1));
        app.advance(Event::Start);
        app.advance(Event::FrameReady { display: (1, 1), keys: Vec::new() });
        app.advance(Event::CallbackDone);
        assert_eq!(app.advance(Event::Presented { elapsed: 0 }), Action::Sleep(budget));
    }
}

#[test]
fn frame_rate_above_a_billion_never_sleeps() {
    let mut app = App::config(Config::new().fps(u32::MAX), (1, 1));
    app.advance(Event::Start);
    app.advance(Event::FrameReady { display: (1, 1), keys: Vec::new() });
    app.advance(Event::CallbackDone);
    assert_eq!(app.advance(Event::Presented { elapsed: 0 }), Action::BeginFrame);
}

#[test]
fn paced_frames_start_one_budget_apart() {
    // thirty frames a second, a callback that takes no time worth speaking of
    let mut app = App::new((2, 2));
    let mut frames = 0;
    let elapsed = 1_000u128;
    let trace = drive(&mut app, (2, 2), elapsed, |state, _| {
        frames += 1;
        if frames == 5 {
            state.stop();
        }
        true
    });
    assert_eq!(trace.sleeps.len(), 5);
    for sleep in trace.sleeps {
        assert_eq!(elapsed + sleep as u128, 33_333_333);
    }
}

#[test]
fn overrunning_frames_follow_each_other_at_once() {
    let mut app = App::new((2, 2));
    let mut frames = 0;
    let trace = drive(&mut app, (2, 2), 40_000_000, |state, _| {
        frames += 1;
        if frames == 5 {
            state.stop();
        }
        true
    });
    assert!(trace.sleeps.is_empty());
    assert_eq!(app.state().step(), 5);
}

#[test]
fn loop_stopped_after_three_frames_counts_three_and_closes_once() {
    let mut app = App::config(Config::new().fps(10), (4, 2));
    let mark = VisualElement {
        style: Style::Plain,
        background: Color::Black,
        foreground: Color::Yellow,
        value: '*',
    };
    let mut frames = 0;
    let trace = drive(&mut app, (4, 2), 2_000_000, |state, window| {
        *window.canvas_mut().elem_mut(Vec2::xy(1, 1)).unwrap() = mark;
        frames += 1;
        if frames == 3 {
            state.stop();
        }
        true
    });
    assert_eq!(frames, 3);
    assert_eq!(app.state().step(), 3);
    assert_eq!(app.state().dt(), 2_000_000);
    assert!(!app.state().is_running());
    assert_eq!(app.stage(), Stage::Finished);
    assert_eq!(trace.sleeps, vec![98_000_000, 98_000_000, 98_000_000]);
    assert_eq!(trace.acknowledged, 0);
    assert_eq!(count(&trace.sent, Command::EnableRawMode), 1);
    assert_eq!(count(&trace.sent, Command::DisableRawMode), 1);
    assert_eq!(count(&trace.sent, Command::EnterAlternateScreen), 1);
    assert_eq!(count(&trace.sent, Command::LeaveAlternateScreen), 1);
    assert_eq!(count(&trace.sent, Command::Print('*')), 3);
    assert_eq!(count(&trace.sent, Command::SetForeground(226)), 3);
    // opening, three frames, closing: one flush each
    assert_eq!(count(&trace.sent, Command::Flush), 5);
    assert!(trace.sent.ends_with(&closing()));
    assert_eq!(app.window().canvas().elem(Vec2::xy(1, 1)), Some(&mark));
}

#[test]
fn callback_that_stops_at_once_still_completes_its_frame() {
    let mut app = App::new((1, 1));
    let trace = drive(&mut app, (1, 1), 0, |state, _| {
        state.stop();
        true
    });
    assert_eq!(app.state().step(), 1);
    assert_eq!(trace.sleeps, vec![33_333_333]);
    assert_eq!(count(&trace.sent, Command::Print(' ')), 1);
    assert!(trace.sent.ends_with(&closing()));
}

#[test]
fn failure_in_the_second_frame_gives_the_terminal_back_and_waits() {
    let mut app = App::config(Config::new().fps(10), (2, 1));
    let mut frames = 0;
    let trace = drive(&mut app, (2, 1), 1_000_000, |_, _| {
        frames += 1;
        frames < 2
    });
    assert_eq!(frames, 2);
    // only the first frame completed
    assert_eq!(app.state().step(), 1);
    assert!(!app.state().is_running());
    assert_eq!(app.stage(), Stage::Finished);
    assert_eq!(trace.acknowledged, 1);
    // given back when the frame failed, and once more after the operator answered
    assert_eq!(count(&trace.sent, Command::DisableRawMode), 2);
    assert_eq!(count(&trace.sent, Command::LeaveAlternateScreen), 2);
    assert_eq!(count(&trace.sent, Command::EnableRawMode), 1);
    let mut twice = closing();
    twice.extend(closing());
    assert!(trace.sent.ends_with(&twice));
}

#[test]
fn failure_step_by_step() {
    let mut app = App::new((1, 1));
    app.advance(Event::Start);
    app.advance(Event::FrameReady { display: (1, 1), keys: Vec::new() });
    app.state_and_window().1.take_commands();
    assert_eq!(app.advance(Event::Failure), Action::AwaitAcknowledgement);
    assert_eq!(app.stage(), Stage::Recovering);
    assert!(!app.state().is_running());
    assert_eq!(app.state_and_window().1.take_commands(), closing());
    assert!(!app.accepts(&Event::Failure));
    assert!(app.accepts(&Event::Acknowledged));
    assert_eq!(app.advance(Event::Acknowledged), Action::Return);
    assert_eq!(app.stage(), Stage::Finished);
    assert_eq!(app.state_and_window().1.take_commands(), closing());
    assert!(!app.accepts(&Event::Acknowledged));
    assert!(!app.accepts(&Event::Failure));
}

#[test]
fn finished_loop_can_be_entered_again_and_goes_on_counting() {
    let mut app = App::new((1, 1));
    drive(&mut app, (1, 1), 0, |state, _| {
        state.stop();
        true
    });
    assert_eq!(app.stage(), Stage::Finished);
    assert_eq!(app.state().step(), 1);
    assert!(app.accepts(&Event::Start));
    let trace = drive(&mut app, (1, 1), 0, |state, _| {
        state.stop();
        true
    });
    assert_eq!(app.state().step(), 2);
    assert_eq!(trace.sent[0], Command::EnterAlternateScreen);
    assert!(trace.sent.ends_with(&closing()));
}

#[test]
fn failure_is_taken_at_every_step_of_a_frame() {
    let ready = || Event::FrameReady { display: (1, 1), keys: Vec::new() };
    for steps in 0..4 {
        let mut app = App::new((1, 1));
        app.advance(Event::Start);
        if steps >= 1 {
            app.advance(ready());
        }
        if steps >= 2 {
            app.advance(Event::CallbackDone);
        }
        if steps >= 3 {
            assert_eq!(app.advance(Event::Presented { elapsed: 0 }), Action::Sleep(33_333_333));
        }
        assert!(app.accepts(&Event::Failure));
        assert_eq!(app.advance(Event::Failure), Action::AwaitAcknowledgement);
        assert!(app.window().commands().ends_with(&closing()));
    }
}

#[test]
fn recovery_notice_asks_for_enter() {
    assert_eq!(RECOVERY_NOTICE, "\n\n[Press 'enter' to recover the terminal]");
}

#[test]
fn loop_follows_the_display_size_frame_by_frame() {
    let mut app = App::new((2, 2));
    let mut sizes = Vec::new();
    let mut event = Event::Start;
    let mut frame = 0u16;
    loop {
        let action = app.advance(event);
        event = match action {
            Action::BeginFrame => {
                frame += 1;
                Event::FrameReady { display: (frame, 2), keys: Vec::new() }
            }
            Action::RunCallback => {
                let (state, window) = app.state_and_window();
                sizes.push(window.size());
                assert!(window.canvas().data().iter().all(|c| *c == VisualElement::new()));
                window.canvas_mut().fill(&VisualElement {
                    style: Style::Plain,
                    background: Color::Red,
                    foreground: Color::Red,
                    value: '!',
                });
                if frame == 3 {
                    state.stop();
                }
                Event::CallbackDone
            }
            Action::Present => Event::Presented { elapsed: 1 },
            Action::Sleep(_) => Event::Woke,
            Action::AwaitAcknowledgement => unreachable!(),
            Action::Return => break,
        };
    }
    assert_eq!(sizes, vec![Vec2::xy(1, 2), Vec2::xy(2, 2), Vec2::xy(3, 2)]);
}
