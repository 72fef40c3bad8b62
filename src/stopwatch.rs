use vstd::prelude::*;

use crate::elapsed::{elapsed_text, format_elapsed};
use crate::latest::SharedLatest;

verus! {

/// How often, in milliseconds, ticks are wanted while the stopwatch runs.
pub const TICK_INTERVAL_MILLIS: u64 = 10;

/// Where the stopwatch stands. Timestamps are nanoseconds on a monotonic
/// clock chosen by the caller.
#[derive(Clone, Copy, Debug, PartialEq, Eq, Structural)]
pub enum State {
    Idle,
    Ticking { last_tick: u64 },
}

/// What the UI asks of the stopwatch.
#[derive(Clone, Debug)]
pub enum Message {
    /// Start when idle, stop when running.
    Toggle,
    /// Set the accumulated duration back to zero.
    Reset,
    /// The clock read this timestamp.
    Tick(u64),
    /// A diagnostic text, to be logged and nothing else.
    SayIt(String),
}

/// Nanoseconds that a tick at `now` adds after the previous one at `last`;
/// a clock that went backwards adds nothing.
pub open spec fn tick_gain(last: u64, now: u64) -> nat {
    if now >= last {
        (now - last) as nat
    } else {
        0
    }
}

/// `a + b`, held at `u64::MAX`.
pub open spec fn saturating_sum(a: nat, b: nat) -> u64 {
    if a + b <= u64::MAX {
        (a + b) as u64
    } else {
        u64::MAX
    }
}

/// The duration and state after `message`, where `now` is the time at which
/// the message is handled.
pub open spec fn next(duration: u64, state: State, message: Message, now: u64) -> (u64, State) {
    match message {
        Message::Toggle => match state {
            State::Idle => (duration, State::Ticking { last_tick: now }),
            State::Ticking { .. } => (duration, State::Idle),
        },
        Message::Reset => (0, state),
        Message::Tick(t) => match state {
            State::Idle => (duration, State::Idle),
            State::Ticking { last_tick } => (
                saturating_sum(duration as nat, tick_gain(last_tick, t)),
                State::Ticking { last_tick: t },
            ),
        },
        Message::SayIt(_) => (duration, state),
    }
}

/// The duration and state after a tick at each timestamp of `ts`, in order.
pub open spec fn run_ticks(duration: u64, state: State, ts: Seq<u64>) -> (u64, State)
    decreases ts.len(),
{
    if ts.len() == 0 {
        (duration, state)
    } else {
        let (d, s) = next(duration, state, Message::Tick(ts[0]), ts[0]);
        run_ticks(d, s, ts.drop_first())
    }
}

pub open spec fn toggle_label_text(state: State) -> Seq<char> {
    match state {
        State::Idle => "Start"@,
        State::Ticking { .. } => "Stop"@,
    }
}

pub open spec fn echo_label_text(state: State) -> Seq<char> {
    match state {
        State::Idle => "->"@,
        State::Ticking { .. } => "-"@,
    }
}

/// What the UI shows: the latest status text, the elapsed time, and the
/// labels of the start/stop and diagnostic buttons.
pub struct ViewModel {
    pub status: String,
    pub elapsed: String,
    pub toggle_label: &'static str,
    pub echo_label: &'static str,
}

/// A stopwatch that accumulates the time between ticks while running, and
/// holds a handle on the latest status text for display.
pub struct Stopwatch {
    duration: u64,
    state: State,
    data: SharedLatest,
}

impl View for Stopwatch {
    /// The accumulated elapsed time, in nanoseconds, and the state.
    type V = (u64, State);

    closed spec fn view(&self) -> (u64, State) {
        (self.duration, self.state)
    }
}

impl Stopwatch {
    /// An idle stopwatch at zero, showing the status text of `data`.
    pub fn new(data: SharedLatest) -> (r: Stopwatch)
        ensures
            r@ == (0u64, State::Idle),
    {
        Stopwatch { duration: 0, state: State::Idle, data }
    }

    /// Handles `message` at time `now`. Returns the text of a diagnostic
    /// message, which the caller logs, and `None` for any other message.
    pub fn update(&mut self, message: Message, now: u64) -> (r: Option<String>)
        ensures
            final(self)@ == next(old(self)@.0, old(self)@.1, message, now),
            r == (match message {
                Message::SayIt(s) => Some(s),
                _ => None,
            }),
    {
        match message {
            Message::SayIt(s) => Some(s),
            Message::Toggle => {
                match self.state {
                    State::Idle => {
                        self.state = State::Ticking { last_tick: now };
                    },
                    State::Ticking { .. } => {
                        self.state = State::Idle;
                    },
                }
                None
            },
            Message::Tick(t) => {
                if let State::Ticking { last_tick } = self.state {
                    let gain = t.saturating_sub(last_tick);
                    self.duration = self.duration.saturating_add(gain);
                    self.state = State::Ticking { last_tick: t };
                }
                None
            },
            Message::Reset => {
                self.duration = 0;
                None
            },
        }
    }

    /// Accumulated elapsed time, in nanoseconds.
    pub fn duration(&self) -> (r: u64)
        ensures
            r == self@.0,
    {
        self.duration
    }

    pub fn state(&self) -> (r: State)
        ensures
            r == self@.1,
    {
        self.state
    }

    /// Whether ticks are wanted: only while running.
    pub fn tick_subscription_active(&self) -> (r: bool)
        ensures
            r == (self@.1 is Ticking),
    {
        match self.state {
            State::Idle => false,
            State::Ticking { .. } => true,
        }
    }

    /// Label of the start/stop button.
    pub fn toggle_label(&self) -> (r: &'static str)
        ensures
            r@ == toggle_label_text(self@.1),
    {
        match self.state {
            State::Idle => "Start",
            State::Ticking { .. } => "Stop",
        }
    }

    /// Label of the diagnostic button.
    pub fn echo_label(&self) -> (r: &'static str)
        ensures
            r@ == echo_label_text(self@.1),
    {
        match self.state {
            State::Idle => "->",
            State::Ticking { .. } => "-",
        }
    }

    /// What to render now; the status text is read afresh from the shared
    /// cell.
    pub fn render(&self) -> (r: ViewModel)
        ensures
            r.elapsed@ == elapsed_text(self@.0 as nat),
            r.toggle_label@ == toggle_label_text(self@.1),
            r.echo_label@ == echo_label_text(self@.1),
    {
        ViewModel {
            status: self.data.read(),
            elapsed: format_elapsed(self.duration),
            toggle_label: self.toggle_label(),
            echo_label: self.echo_label(),
        }
    }
}

/// Ticks at non-decreasing timestamps, delivered while running since `start`,
/// add exactly the time from `start` to the last tick, however the interval
/// is divided; the stopwatch keeps running at the last tick.
pub proof fn lemma_ticks_accumulate(duration: u64, start: u64, ts: Seq<u64>)
    requires
        ts.len() > 0,
        start <= ts[0],
        forall|i: int, j: int| 0 <= i <= j < ts.len() ==> ts[i] <= ts[j],
        duration + (ts.last() - start) <= u64::MAX,
    ensures
        run_ticks(duration, State::Ticking { last_tick: start }, ts) == (
            (duration + (ts.last() - start)) as u64,
            State::Ticking { last_tick: ts.last() },
        ),
    decreases ts.len(),
{
    let d = (duration + (ts[0] - start)) as u64;
    let rest = ts.drop_first();
    assert(next(duration, State::Ticking { last_tick: start }, Message::Tick(ts[0]), ts[0]) == (
        d,
        State::Ticking { last_tick: ts[0] },
    ));
    assert(run_ticks(duration, State::Ticking { last_tick: start }, ts) == run_ticks(
        d,
        State::Ticking { last_tick: ts[0] },
        rest,
    ));
    if rest.len() > 0 {
        assert(ts.last() == rest.last());
        assert(ts[0] <= ts[ts.len() - 1]);
        assert forall|i: int, j: int| 0 <= i <= j < rest.len() implies rest[i] <= rest[j] by {
            assert(rest[i] == ts[i + 1] && rest[j] == ts[j + 1]);
        }
        lemma_ticks_accumulate(d, ts[0], rest);
    }
}

/// Starting and then stopping, with a diagnostic message in between, leaves
/// an idle stopwatch with its duration exactly as it was.
pub proof fn lemma_toggle_twice_restores(
    duration: u64,
    start: u64,
    text: String,
    echo_at: u64,
    stop: u64,
)
    ensures
        ({
            let (d1, s1) = next(duration, State::Idle, Message::Toggle, start);
            let (d2, s2) = next(d1, s1, Message::SayIt(text), echo_at);
            next(d2, s2, Message::Toggle, stop)
        }) == (duration, State::Idle),
{
}

/// A reset sets the duration to zero and keeps the state, whatever both were.
pub proof fn lemma_reset_zeroes(duration: u64, state: State, now: u64)
    ensures
        next(duration, state, Message::Reset, now) == (0u64, state),
{
}

/// A tick delivered while idle changes nothing.
pub proof fn lemma_idle_ignores_ticks(duration: u64, t: u64, now: u64)
    ensures
        next(duration, State::Idle, Message::Tick(t), now) == (duration, State::Idle),
{
}

} // verus!
