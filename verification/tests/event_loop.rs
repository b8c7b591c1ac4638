use weather_dashboard::error::DashboardError;
use weather_dashboard::event_loop::{
    Command, EventLoop, LoopEvent, LoopState, Outcome, POLL_TIMEOUT_MS, QUIT_KEY,
};
use weather_dashboard::session::Session;

fn running() -> EventLoop {
    let mut session = Session::new();
    session.enter(true).expect("terminal granted");
    let (event_loop, first) = EventLoop::begin(session).expect("session open");
    assert_eq!(first, Command::Draw);
    event_loop
}

#[test]
fn loop_constants() {
    assert_eq!(POLL_TIMEOUT_MS, 100);
    assert_eq!(QUIT_KEY, 'q');
}

#[test]
fn loop_begins_running_with_a_draw() {
    let mut session = Session::new();
    session.enter(true).expect("terminal granted");
    let (event_loop, first) = EventLoop::begin(session).expect("session open");
    assert_eq!(first, Command::Draw);
    assert_eq!(event_loop.state(), LoopState::Running);
    assert!(event_loop.session_open());
}

#[test]
fn loop_does_not_begin_on_a_closed_session() {
    let result = EventLoop::begin(Session::new());
    assert_eq!(result.err(), Some(DashboardError::TerminalInitError));
    let mut session = Session::new();
    assert_eq!(session.enter(false), Err(DashboardError::TerminalInitError));
    assert_eq!(EventLoop::begin(session).err(), Some(DashboardError::TerminalInitError));
}

#[test]
fn drawn_frame_is_followed_by_a_bounded_poll() {
    let mut event_loop = running();
    assert_eq!(event_loop.step(LoopEvent::FrameDrawn), Command::Poll { timeout_ms: 100 });
    assert_eq!(event_loop.state(), LoopState::Running);
    assert!(event_loop.session_open());
}

#[test]
fn elapsed_poll_is_followed_by_a_draw() {
    let mut event_loop = running();
    event_loop.step(LoopEvent::FrameDrawn);
    assert_eq!(event_loop.step(LoopEvent::PollElapsed), Command::Draw);
    assert_eq!(event_loop.state(), LoopState::Running);
}

#[test]
fn quit_key_stops_the_loop() {
    let mut event_loop = running();
    event_loop.step(LoopEvent::FrameDrawn);
    assert_eq!(event_loop.step(LoopEvent::Key('q')), Command::Leave(Outcome::Quit));
    assert_eq!(event_loop.state(), LoopState::Stopped);
    assert!(!event_loop.session_open());
}

#[test]
fn quit_key_stops_the_loop_at_any_point() {
    let mut event_loop = running();
    assert_eq!(event_loop.step(LoopEvent::Key('q')), Command::Leave(Outcome::Quit));
    assert_eq!(event_loop.state(), LoopState::Stopped);

    let mut event_loop = running();
    for _ in 0..1000 {
        assert_eq!(event_loop.step(LoopEvent::FrameDrawn), Command::Poll { timeout_ms: 100 });
        assert_eq!(event_loop.step(LoopEvent::PollElapsed), Command::Draw);
    }
    assert_eq!(event_loop.step(LoopEvent::FrameDrawn), Command::Poll { timeout_ms: 100 });
    assert_eq!(event_loop.step(LoopEvent::Key('q')), Command::Leave(Outcome::Quit));
    assert_eq!(event_loop.state(), LoopState::Stopped);
    assert!(!event_loop.session_open());
}

#[test]
fn other_keys_are_ignored() {
    for key in ['Q', 'a', 'x', ' ', '\n', '\u{1b}', 'é', '1'] {
        let mut event_loop = running();
        event_loop.step(LoopEvent::FrameDrawn);
        assert_eq!(event_loop.step(LoopEvent::Key(key)), Command::Draw, "key {:?}", key);
        assert_eq!(event_loop.state(), LoopState::Running);
        assert!(event_loop.session_open());
    }
}

#[test]
fn other_input_is_ignored() {
    let mut event_loop = running();
    event_loop.step(LoopEvent::FrameDrawn);
    assert_eq!(event_loop.step(LoopEvent::OtherInput), Command::Draw);
    assert_eq!(event_loop.state(), LoopState::Running);
    assert!(event_loop.session_open());
}

#[test]
fn failed_draw_stops_with_a_draw_error() {
    let mut event_loop = running();
    assert_eq!(
        event_loop.step(LoopEvent::DrawFailed),
        Command::Leave(Outcome::Failed(DashboardError::DrawError))
    );
    assert_eq!(event_loop.state(), LoopState::Stopped);
    assert!(!event_loop.session_open());
}

#[test]
fn failed_input_stops_with_an_input_error() {
    let mut event_loop = running();
    event_loop.step(LoopEvent::FrameDrawn);
    assert_eq!(
        event_loop.step(LoopEvent::InputFailed),
        Command::Leave(Outcome::Failed(DashboardError::InputError))
    );
    assert_eq!(event_loop.state(), LoopState::Stopped);
    assert!(!event_loop.session_open());
}

#[test]
fn stopped_loop_stays_stopped() {
    let events = [
        LoopEvent::FrameDrawn,
        LoopEvent::DrawFailed,
        LoopEvent::PollElapsed,
        LoopEvent::Key('q'),
        LoopEvent::Key('x'),
        LoopEvent::OtherInput,
        LoopEvent::InputFailed,
    ];
    for event in events {
        let mut event_loop = running();
        event_loop.step(LoopEvent::Key('q'));
        assert_eq!(event_loop.step(event), Command::Idle, "event {:?}", event);
        assert_eq!(event_loop.state(), LoopState::Stopped);
        assert!(!event_loop.session_open());
    }
}

#[test]
fn leave_is_commanded_exactly_once() {
    let events = [
        LoopEvent::FrameDrawn,
        LoopEvent::OtherInput,
        LoopEvent::FrameDrawn,
        LoopEvent::Key('w'),
        LoopEvent::FrameDrawn,
        LoopEvent::PollElapsed,
        LoopEvent::DrawFailed,
        LoopEvent::Key('q'),
        LoopEvent::DrawFailed,
        LoopEvent::InputFailed,
        LoopEvent::FrameDrawn,
    ];
    let mut event_loop = running();
    let mut leaves = 0;
    for event in events {
        if let Command::Leave(outcome) = event_loop.step(event) {
            leaves += 1;
            assert_eq!(outcome, Outcome::Failed(DashboardError::DrawError));
        }
    }
    assert_eq!(leaves, 1);
    assert_eq!(event_loop.state(), LoopState::Stopped);
}

#[test]
fn every_short_history_keeps_the_loop_rules() {
    let alphabet = [
        LoopEvent::FrameDrawn,
        LoopEvent::DrawFailed,
        LoopEvent::PollElapsed,
        LoopEvent::Key('q'),
        LoopEvent::Key('k'),
        LoopEvent::OtherInput,
        LoopEvent::InputFailed,
    ];
    let length = 5;
    let total = alphabet.len().pow(length);
    for code in 0..total {
        let mut event_loop = running();
        let mut leaves = 0;
        let mut rest = code;
        for _ in 0..length {
            let event = alphabet[rest % alphabet.len()];
            rest /= alphabet.len();
            let was_running = event_loop.state() == LoopState::Running;
            let command = event_loop.step(event);
            match command {
                Command::Leave(_) => {
                    assert!(was_running);
                    leaves += 1;
                }
                Command::Idle => assert!(!was_running),
                Command::Poll { timeout_ms } => {
                    assert_eq!(timeout_ms, 100);
                    assert_eq!(event, LoopEvent::FrameDrawn);
                }
                Command::Draw => assert!(was_running),
            }
            assert_eq!(event_loop.session_open(), event_loop.state() == LoopState::Running);
        }
        let stopped = event_loop.state() == LoopState::Stopped;
        assert_eq!(leaves, if stopped { 1 } else { 0 });
    }
}
