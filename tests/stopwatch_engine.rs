use sensor_stopwatch::latest::SharedLatest;
use sensor_stopwatch::stopwatch::{Message, State, Stopwatch, TICK_INTERVAL_MILLIS};

const SEC: u64 = 1_000_000_000;

fn fresh() -> Stopwatch {
    Stopwatch::new(SharedLatest::new())
}

#[test]
fn starts_idle_at_zero() {
    let sw = fresh();
    assert_eq!(sw.duration(), 0);
    assert_eq!(sw.state(), State::Idle);
    assert!(!sw.tick_subscription_active());
    assert_eq!(TICK_INTERVAL_MILLIS, 10);
}

#[test]
fn toggle_tick_tick_toggle_renders_three_seconds() {
    let mut sw = fresh();
    sw.update(Message::Toggle, 0);
    sw.update(Message::Tick(SEC + SEC / 2), SEC + SEC / 2);
    sw.update(Message::Tick(3 * SEC), 3 * SEC);
    sw.update(Message::Toggle, 3 * SEC);
    assert_eq!(sw.state(), State::Idle);
    assert_eq!(sw.render().elapsed, "00:00:03.00");
}

#[test]
fn ticks_accumulate_from_start_to_last_tick() {
    let mut sw = fresh();
    sw.update(Message::Toggle, 5 * SEC);
    sw.update(Message::Tick(5 * SEC), 5 * SEC);
    for t in [6, 6, 7, 9, 12] {
        sw.update(Message::Tick(t * SEC), t * SEC);
    }
    assert_eq!(sw.duration(), 7 * SEC);
    assert_eq!(sw.state(), State::Ticking { last_tick: 12 * SEC });
}

#[test]
fn toggle_twice_keeps_duration() {
    let mut sw = fresh();
    sw.update(Message::Toggle, 0);
    sw.update(Message::Tick(2 * SEC), 2 * SEC);
    sw.update(Message::Toggle, 2 * SEC);
    let before = sw.duration();
    sw.update(Message::Toggle, 10 * SEC);
    sw.update(Message::SayIt(String::from("woohoo!")), 11 * SEC);
    sw.update(Message::Toggle, 20 * SEC);
    assert_eq!(sw.duration(), before);
    assert_eq!(sw.state(), State::Idle);
}

#[test]
fn reset_while_ticking_keeps_running() {
    let mut sw = fresh();
    sw.update(Message::Toggle, 0);
    sw.update(Message::Tick(4 * SEC), 4 * SEC);
    sw.update(Message::Reset, 4 * SEC);
    assert_eq!(sw.duration(), 0);
    assert_eq!(sw.state(), State::Ticking { last_tick: 4 * SEC });
    sw.update(Message::Tick(5 * SEC), 5 * SEC);
    assert_eq!(sw.duration(), SEC);
}

#[test]
fn reset_while_idle_zeroes() {
    let mut sw = fresh();
    sw.update(Message::Toggle, 0);
    sw.update(Message::Tick(4 * SEC), 4 * SEC);
    sw.update(Message::Toggle, 4 * SEC);
    sw.update(Message::Reset, 9 * SEC);
    assert_eq!(sw.duration(), 0);
    assert_eq!(sw.state(), State::Idle);
}

#[test]
fn ticks_while_idle_are_ignored() {
    let mut sw = fresh();
    sw.update(Message::Tick(7 * SEC), 7 * SEC);
    assert_eq!(sw.duration(), 0);
    assert_eq!(sw.state(), State::Idle);
}

#[test]
fn clock_going_back_adds_nothing() {
    let mut sw = fresh();
    sw.update(Message::Toggle, 10 * SEC);
    sw.update(Message::Tick(8 * SEC), 8 * SEC);
    assert_eq!(sw.duration(), 0);
    assert_eq!(sw.state(), State::Ticking { last_tick: 8 * SEC });
}

#[test]
fn duration_saturates() {
    let mut sw = fresh();
    sw.update(Message::Toggle, 0);
    sw.update(Message::Tick(u64::MAX), u64::MAX);
    sw.update(Message::Toggle, u64::MAX);
    sw.update(Message::Toggle, 0);
    sw.update(Message::Tick(5), 5);
    assert_eq!(sw.duration(), u64::MAX);
}

#[test]
fn say_it_hands_back_its_text_and_changes_nothing() {
    let mut sw = fresh();
    let echoed = sw.update(Message::SayIt(String::from("woohoo!")), 3);
    assert_eq!(echoed, Some(String::from("woohoo!")));
    assert_eq!(sw.update(Message::Toggle, 3), None);
    assert_eq!(sw.duration(), 0);
}

#[test]
fn labels_follow_state() {
    let mut sw = fresh();
    assert_eq!(sw.toggle_label(), "Start");
    assert_eq!(sw.echo_label(), "->");
    sw.update(Message::Toggle, 0);
    assert!(sw.tick_subscription_active());
    let view = sw.render();
    assert_eq!(view.toggle_label, "Stop");
    assert_eq!(view.echo_label, "-");
}

#[test]
fn render_reads_latest_status() {
    let latest = SharedLatest::new();
    let sw = Stopwatch::new(latest.clone());
    assert_eq!(sw.render().status, "");
    latest.write(String::from("hello"));
    assert_eq!(sw.render().status, "hello");
}
