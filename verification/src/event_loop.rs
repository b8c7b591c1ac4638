//! The interactive loop as a state machine: what the driver of the terminal
//! has to do next, given what its last action brought.
//!
//! The loop itself performs no input or output. Its driver draws, waits for
//! input and restores the terminal, and reports each result as an event; the
//! loop answers with the next command. One round is a draw followed by a
//! bounded wait for input, so the loop neither spins nor misses a key for
//! longer than one wait.

use vstd::prelude::*;
use crate::error::DashboardError;
use crate::session::{Session, SessionOp, open_after};

verus! {

/// Longest wait for input in one round, in milliseconds.
pub const POLL_TIMEOUT_MS: u64 = 100;

/// The key that ends the loop.
pub const QUIT_KEY: char = 'q';

/// The two states of the loop. `Stopped` is final.
#[derive(Clone, Copy, Debug, PartialEq, Eq, Structural)]
pub enum LoopState {
    Running,
    Stopped,
}

/// What the driver reports back to the loop.
#[derive(Clone, Copy, Debug, PartialEq, Eq, Structural)]
pub enum LoopEvent {
    /// The frame was drawn.
    FrameDrawn,
    /// Drawing the frame failed.
    DrawFailed,
    /// The wait for input ran out with nothing to read.
    PollElapsed,
    /// A character key was pressed.
    Key(char),
    /// Some other input arrived: a key without a character, the mouse, a
    /// change of the terminal's size or focus.
    OtherInput,
    /// Waiting for input, or reading it, failed.
    InputFailed,
}

/// How the loop ended.
#[derive(Clone, Copy, Debug, PartialEq, Eq, Structural)]
pub enum Outcome {
    /// The user asked to quit.
    Quit,
    /// The loop gave up on an error.
    Failed(DashboardError),
}

/// What the driver has to do next.
#[derive(Clone, Copy, Debug, PartialEq, Eq, Structural)]
pub enum Command {
    /// Compose the frame for the terminal's current size and draw it.
    Draw,
    /// Wait for input, at most `timeout_ms` milliseconds.
    Poll { timeout_ms: u64 },
    /// Restore the terminal, then hand the outcome to the caller.
    Leave(Outcome),
    /// Nothing: the loop had stopped before the event came.
    Idle,
}

/// The loop as a mathematical value: its state and whether its terminal
/// session is open.
pub struct LoopModel {
    pub state: LoopState,
    pub session_open: bool,
}

/// Whether `event` ends a running loop.
pub open spec fn stops(event: LoopEvent) -> bool {
    ||| event == LoopEvent::DrawFailed
    ||| event == LoopEvent::InputFailed
    ||| event == LoopEvent::Key(QUIT_KEY)
}

/// How a loop that `event` ends has ended.
pub open spec fn outcome_of(event: LoopEvent) -> Outcome
    recommends
        stops(event),
{
    match event {
        LoopEvent::DrawFailed => Outcome::Failed(DashboardError::DrawError),
        LoopEvent::InputFailed => Outcome::Failed(DashboardError::InputError),
        _ => Outcome::Quit,
    }
}

/// The state of the loop after `event` came in `state`.
pub open spec fn next_state(state: LoopState, event: LoopEvent) -> LoopState {
    if state == LoopState::Running && !stops(event) {
        LoopState::Running
    } else {
        LoopState::Stopped
    }
}

/// The command to wait for input: never longer than [`POLL_TIMEOUT_MS`].
pub open spec fn bounded_poll() -> Command {
    Command::Poll { timeout_ms: POLL_TIMEOUT_MS }
}

/// The command with which the loop answers `event` in `state`.
pub open spec fn command_for(state: LoopState, event: LoopEvent) -> Command {
    if state == LoopState::Stopped {
        Command::Idle
    } else if stops(event) {
        Command::Leave(outcome_of(event))
    } else if event == LoopEvent::FrameDrawn {
        bounded_poll()
    } else {
        Command::Draw
    }
}

/// The loop after `event`: when the loop stops its session is closed, and
/// while it runs the session is left alone.
pub open spec fn model_step(model: LoopModel, event: LoopEvent) -> LoopModel {
    let state = next_state(model.state, event);
    LoopModel {
        state,
        session_open: if state == LoopState::Stopped {
            open_after(model.session_open, SessionOp::Exit)
        } else {
            model.session_open
        },
    }
}

/// The loop as it begins: running, its session open.
pub open spec fn initial_model() -> LoopModel {
    LoopModel { state: LoopState::Running, session_open: true }
}

/// The loop after the events `events`, from its beginning.
pub open spec fn model_after(events: Seq<LoopEvent>) -> LoopModel
    decreases events.len(),
{
    if events.len() == 0 {
        initial_model()
    } else {
        model_step(model_after(events.drop_last()), events.last())
    }
}

/// The command the driver holds after the events `events`: at the beginning
/// it is to draw, afterwards it is the answer to the last event.
pub open spec fn command_after(events: Seq<LoopEvent>) -> Command
    decreases events.len(),
{
    if events.len() == 0 {
        Command::Draw
    } else {
        command_for(model_after(events.drop_last()).state, events.last())
    }
}

/// How often, up to and including the last of `events`, the driver was told
/// to restore the terminal and leave.
pub open spec fn leave_count(events: Seq<LoopEvent>) -> nat
    decreases events.len(),
{
    if events.len() == 0 {
        0
    } else {
        let before = leave_count(events.drop_last());
        if command_after(events) is Leave {
            before + 1
        } else {
            before
        }
    }
}

/// Whatever events come, the loop runs exactly as long as its session is
/// open, and a running loop has asked its driver either to draw or to wait
/// for input no longer than [`POLL_TIMEOUT_MS`].
pub proof fn lemma_running_iff_session_open(events: Seq<LoopEvent>)
    ensures
        model_after(events).state == LoopState::Running <==> model_after(events).session_open,
        model_after(events).state == LoopState::Running ==> {
            ||| command_after(events) == Command::Draw
            ||| command_after(events) == bounded_poll()
        },
    decreases events.len(),
{
    if events.len() > 0 {
        lemma_running_iff_session_open(events.drop_last());
    }
}

/// Whatever events come, a wait for input that the driver is told to make
/// is never longer than [`POLL_TIMEOUT_MS`], and it is told to wait only after
/// a frame was drawn.
pub proof fn lemma_poll_is_bounded(events: Seq<LoopEvent>)
    requires
        command_after(events) is Poll,
    ensures
        command_after(events) == bounded_poll(),
        command_after(events)->timeout_ms == POLL_TIMEOUT_MS,
        events.len() > 0 && events.last() == LoopEvent::FrameDrawn,
        model_after(events).state == LoopState::Running,
{
}

/// Whatever events come, the driver is told to restore the terminal and
/// leave exactly once if the loop has stopped, and not at all while it runs.
pub proof fn lemma_leaves_exactly_once(events: Seq<LoopEvent>)
    ensures
        leave_count(events) == if model_after(events).state == LoopState::Stopped {
            1nat
        } else {
            0nat
        },
    decreases events.len(),
{
    if events.len() > 0 {
        lemma_leaves_exactly_once(events.drop_last());
    }
}

/// A stopped loop stays stopped, its session stays closed, and it gives its
/// driver nothing more to do.
pub proof fn lemma_stopped_is_final(events: Seq<LoopEvent>, event: LoopEvent)
    requires
        model_after(events).state == LoopState::Stopped,
    ensures
        model_after(events.push(event)).state == LoopState::Stopped,
        !model_after(events.push(event)).session_open,
        command_after(events.push(event)) == Command::Idle,
{
    lemma_running_iff_session_open(events);
    assert(events.push(event).drop_last() =~= events);
}

/// The quit key stops a running loop at once, whatever came before: the
/// session is closed and the driver is told to restore the terminal and
/// leave without an error.
pub proof fn lemma_quit_key_stops(events: Seq<LoopEvent>)
    requires
        model_after(events).state == LoopState::Running,
    ensures
        model_after(events.push(LoopEvent::Key(QUIT_KEY))).state == LoopState::Stopped,
        !model_after(events.push(LoopEvent::Key(QUIT_KEY))).session_open,
        command_after(events.push(LoopEvent::Key(QUIT_KEY))) == Command::Leave(Outcome::Quit),
{
    assert(events.push(LoopEvent::Key(QUIT_KEY)).drop_last() =~= events);
}

/// A running loop that is drawing reaches the wait for input with the frame,
/// and a quit key read in that wait stops it: from any point of a round the
/// quit key takes effect within one wait.
pub proof fn lemma_quit_within_one_round(events: Seq<LoopEvent>)
    requires
        model_after(events).state == LoopState::Running,
    ensures
        command_after(events.push(LoopEvent::FrameDrawn)) == bounded_poll(),
        model_after(events.push(LoopEvent::FrameDrawn)).state == LoopState::Running,
        ({
            let round = events.push(LoopEvent::FrameDrawn).push(LoopEvent::Key(QUIT_KEY));
            &&& model_after(round).state == LoopState::Stopped
            &&& !model_after(round).session_open
            &&& command_after(round) == Command::Leave(Outcome::Quit)
        }),
{
    let drawn = events.push(LoopEvent::FrameDrawn);
    assert(drawn.drop_last() =~= events);
    lemma_quit_key_stops(drawn);
}

/// Input that is not the quit key changes nothing: the loop keeps running
/// and the next frame is drawn. This holds for a change of the terminal's
/// size as for any other input, and for a wait that ran out, so every round
/// draws for the size the terminal has then.
pub proof fn lemma_other_input_redraws(events: Seq<LoopEvent>, event: LoopEvent)
    requires
        model_after(events).state == LoopState::Running,
        event != LoopEvent::FrameDrawn,
        !stops(event),
    ensures
        model_after(events.push(event)).state == LoopState::Running,
        model_after(events.push(event)).session_open,
        command_after(events.push(event)) == Command::Draw,
{
    lemma_running_iff_session_open(events);
    assert(events.push(event).drop_last() =~= events);
}

/// A failed draw or a failed read stops a running loop with that error, and
/// the driver is still told to restore the terminal.
pub proof fn lemma_failure_stops(events: Seq<LoopEvent>, event: LoopEvent)
    requires
        model_after(events).state == LoopState::Running,
        event == LoopEvent::DrawFailed || event == LoopEvent::InputFailed,
    ensures
        model_after(events.push(event)).state == LoopState::Stopped,
        !model_after(events.push(event)).session_open,
        event == LoopEvent::DrawFailed ==> command_after(events.push(event)) == Command::Leave(
            Outcome::Failed(DashboardError::DrawError),
        ),
        event == LoopEvent::InputFailed ==> command_after(events.push(event)) == Command::Leave(
            Outcome::Failed(DashboardError::InputError),
        ),
{
    assert(events.push(event).drop_last() =~= events);
}

/// The interactive loop. It owns the terminal session from its beginning
/// and closes it when it stops.
#[derive(Debug)]
pub struct EventLoop {
    state: LoopState,
    session: Session,
}

impl View for EventLoop {
    type V = LoopModel;

    closed spec fn view(&self) -> LoopModel {
        LoopModel { state: self.state, session_open: self.session.is_open() }
    }
}

impl EventLoop {
    /// Begins the loop on a session that has been entered. The loop is
    /// running and its first command is to draw. A session that is not open
    /// cannot carry a loop: that is a terminal that was never initialised.
    pub fn begin(session: Session) -> (result: Result<(EventLoop, Command), DashboardError>)
        ensures
            match result {
                Ok((event_loop, command)) => {
                    &&& session.is_open()
                    &&& event_loop@ == initial_model()
                    &&& command == Command::Draw
                },
                Err(error) => {
                    &&& !session.is_open()
                    &&& error == DashboardError::TerminalInitError
                },
            },
    {
        if session.open() {
            Ok((EventLoop { state: LoopState::Running, session }, Command::Draw))
        } else {
            Err(DashboardError::TerminalInitError)
        }
    }

    /// The state of the loop.
    pub fn state(&self) -> (state: LoopState)
        ensures
            state == self@.state,
    {
        self.state
    }

    /// Whether the loop's terminal session is open.
    pub fn session_open(&self) -> (open: bool)
        ensures
            open == self@.session_open,
    {
        self.session.open()
    }

    /// Takes in what the driver's last action brought and answers with the
    /// next command.
    ///
    /// While the loop runs: a drawn frame is followed by a wait for input;
    /// a failed draw, a failed read and the quit key stop the loop; anything
    /// else is followed by the next draw. When the loop stops it closes its
    /// session and tells the driver to restore the terminal and leave. A
    /// stopped loop answers every event with [`Command::Idle`].
    pub fn step(&mut self, event: LoopEvent) -> (command: Command)
        ensures
            final(self)@ == model_step(old(self)@, event),
            command == command_for(old(self)@.state, event),
    {
        match self.state {
            LoopState::Stopped => {
                // A stopped loop holds no open session.
                self.session.exit();
                Command::Idle
            },
            LoopState::Running => {
                match event {
                    LoopEvent::FrameDrawn => Command::Poll { timeout_ms: POLL_TIMEOUT_MS },
                    LoopEvent::DrawFailed => self.stop(Outcome::Failed(DashboardError::DrawError)),
                    LoopEvent::InputFailed => self.stop(
                        Outcome::Failed(DashboardError::InputError),
                    ),
                    LoopEvent::Key(key) => {
                        if key == QUIT_KEY {
                            self.stop(Outcome::Quit)
                        } else {
                            Command::Draw
                        }
                    },
                    LoopEvent::PollElapsed => Command::Draw,
                    LoopEvent::OtherInput => Command::Draw,
                }
            },
        }
    }

    /// Stops the loop with `outcome` and closes its session.
    fn stop(&mut self, outcome: Outcome) -> (command: Command)
        ensures
            final(self)@ == (LoopModel { state: LoopState::Stopped, session_open: false }),
            command == Command::Leave(outcome),
    {
        self.state = LoopState::Stopped;
        self.session.exit();
        Command::Leave(outcome)
    }
}

} // verus!
