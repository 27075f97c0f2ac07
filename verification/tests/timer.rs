use timer_api::timer::{Action, Command, Event, Timer, TimerMessage};

const MS: u64 = 1_000_000;

fn broadcast(action: Action) -> TimerMessage {
    match action {
        Action::Broadcast(msg) => msg,
        Action::Idle => panic!("the timer sent nothing"),
        Action::Stop => panic!("the timer stopped"),
    }
}

fn send(timer: &mut Timer, cmd: Command, now: u64) -> TimerMessage {
    broadcast(timer.handle(Event::Received(cmd), now))
}

/// Ticks every `step` nanoseconds from `from` (exclusive) to `to` (inclusive)
/// and returns the last message.
fn tick_until(timer: &mut Timer, from: u64, to: u64, step: u64) -> TimerMessage {
    let mut now = from;
    let mut last = timer.message();
    while now + step <= to {
        now += step;
        last = broadcast(timer.handle(Event::Tick, now));
    }
    last
}

#[test]
fn test_timer() {
    let mut timer = Timer::new();
    send(&mut timer, Command::Subscribe(1), 0);
    send(&mut timer, Command::SetTime(1000), 0);
    send(&mut timer, Command::StartCounter, 0);
    tick_until(&mut timer, 0, 100 * MS, 100 * MS);
    send(&mut timer, Command::StopCounter, 100 * MS);
    send(&mut timer, Command::StartCounter, 300 * MS);
    tick_until(&mut timer, 300 * MS, 800 * MS, 100 * MS);
    let msg = send(&mut timer, Command::SetTime(500), 800 * MS);
    assert_eq!(msg.current_time, 0);
    assert_eq!(msg.target_time, 500);
    assert_eq!(timer.handle(Event::Received(Command::Close), 1800 * MS), Action::Stop);
}

#[test]
fn test_timer_broadcasts_state() {
    let mut timer = Timer::new();
    let msg = send(&mut timer, Command::Subscribe(7), 0);
    assert_eq!(msg.current_time, 0);
    assert_eq!(msg.target_time, 0);
    assert!(!msg.is_running);
    assert_eq!(msg.client_count, 1);
    assert_eq!(timer.handle(Event::Received(Command::Close), MS), Action::Stop);
}

#[test]
fn test_timer_set_time() {
    let mut timer = Timer::new();
    let msg = send(&mut timer, Command::Subscribe(7), 0);
    assert_eq!(msg.target_time, 0);

    let msg = send(&mut timer, Command::SetTime(5000), MS);
    assert_eq!(msg.target_time, 5000);
    assert_eq!(msg.current_time, 0);
}

#[test]
fn test_timer_start_stop() {
    let mut timer = Timer::new();
    send(&mut timer, Command::Subscribe(7), 0);

    let msg = send(&mut timer, Command::StartCounter, 5 * MS);
    assert!(msg.is_running, "Timer should be running after start");
    tick_until(&mut timer, 5 * MS, 10 * MS, MS);

    let msg = send(&mut timer, Command::StopCounter, 10 * MS);
    assert!(!msg.is_running, "Timer should be stopped after stop");
    assert_eq!(msg.current_time, 5);
}

#[test]
fn test_timer_counting_with_paused_time() {
    let mut timer = Timer::new();
    send(&mut timer, Command::Subscribe(7), 0);
    send(&mut timer, Command::SetTime(1000), 5 * MS);
    send(&mut timer, Command::StartCounter, 10 * MS);
    let msg = tick_until(&mut timer, 10 * MS, 110 * MS, MS);
    assert!(
        msg.current_time >= 90 && msg.current_time <= 110,
        "Expected ~100ms, got {}ms",
        msg.current_time
    );
    assert_eq!(msg.current_time, 100);
}

#[test]
fn test_timer_multiple_subscribers() {
    let mut timer = Timer::new();
    send(&mut timer, Command::Subscribe(1), 0);
    let msg = send(&mut timer, Command::Subscribe(2), 0);
    assert_eq!(msg.client_count, 2, "First subscriber should see 2 clients");

    send(&mut timer, Command::Unsubscribe(1), 10 * MS);
    let msg = send(&mut timer, Command::SetTime(100), 15 * MS);
    assert_eq!(msg.client_count, 1, "Should only have 1 client after unsubscribe");

    send(&mut timer, Command::SetTime(200), 20 * MS);
    assert_eq!(timer.listeners(), vec![2u128], "Unsubscribed client should not receive new messages after unsubscribe");
}

#[test]
fn test_timer_subscribing_twice_counts_once() {
    let mut timer = Timer::new();
    send(&mut timer, Command::Subscribe(3), 0);
    let msg = send(&mut timer, Command::Subscribe(3), 0);
    assert_eq!(msg.client_count, 1);
    let msg = send(&mut timer, Command::Unsubscribe(4), 0);
    assert_eq!(msg.client_count, 1);
}

#[test]
fn test_timer_handles_rapid_commands() {
    let mut timer = Timer::new();
    send(&mut timer, Command::Subscribe(7), 0);
    for i in 0..10 {
        send(&mut timer, Command::SetTime(i * 100), 0);
        send(&mut timer, Command::StartCounter, 0);
        send(&mut timer, Command::StopCounter, 0);
    }
    assert_eq!(timer.handle(Event::Tick, 20 * MS), Action::Idle);
    let msg = timer.message();
    assert_eq!(msg.target_time, 900);
    assert!(!msg.is_running);
    assert_eq!(msg.current_time, 0);
}

#[test]
fn test_timer_handles_large_time_values() {
    let mut timer = Timer::new();
    send(&mut timer, Command::Subscribe(7), 0);
    let msg = send(&mut timer, Command::SetTime(i32::MAX), 5 * MS);
    assert_eq!(msg.target_time, i32::MAX);
}

#[test]
fn test_timer_closes_receiver_on_shutdown() {
    let mut timer = Timer::new();
    send(&mut timer, Command::Subscribe(7), 0);
    assert_eq!(timer.handle(Event::Received(Command::Close), 0), Action::Stop);
    assert_eq!(timer.handle(Event::ChannelClosed, 0), Action::Stop);
}

#[test]
fn test_timer_with_real_time() {
    let mut timer = Timer::new();
    send(&mut timer, Command::Subscribe(7), 0);
    send(&mut timer, Command::SetTime(3000), 0);
    send(&mut timer, Command::StartCounter, 0);
    let msg = tick_until(&mut timer, 0, 250 * MS, 100 * MS);
    assert!(msg.is_running, "Timer should be running");
    assert_eq!(msg.target_time, 3000);
    assert!(
        msg.current_time >= 200 && msg.current_time <= 350,
        "Expected ~250ms, got {}ms",
        msg.current_time
    );
}

#[test]
fn test_timer_with_production_tick_interval() {
    let mut timer = Timer::new();
    send(&mut timer, Command::Subscribe(7), 0);
    send(&mut timer, Command::SetTime(5000), 150 * MS);
    send(&mut timer, Command::StartCounter, 200 * MS);
    let msg = tick_until(&mut timer, 200 * MS, 1000 * MS, 100 * MS);
    assert!(msg.is_running);
    assert_eq!(msg.target_time, 5000);
    assert!(
        msg.current_time >= 700 && msg.current_time <= 850,
        "Expected ~750ms, got {}ms",
        msg.current_time
    );
}

#[test]
fn tick_counts_whole_milliseconds() {
    let mut timer = Timer::new();
    send(&mut timer, Command::StartCounter, 0);
    let msg = broadcast(timer.handle(Event::Tick, 1_999_999));
    assert_eq!(msg.current_time, 1);
    let msg = broadcast(timer.handle(Event::Tick, 2_000_000));
    assert_eq!(msg.current_time, 1);
}

#[test]
fn tick_while_stopped_changes_nothing() {
    let mut timer = Timer::new();
    send(&mut timer, Command::StartCounter, 0);
    broadcast(timer.handle(Event::Tick, 3 * MS));
    send(&mut timer, Command::StopCounter, 3 * MS);
    assert_eq!(timer.handle(Event::Tick, 50 * MS), Action::Idle);
    assert_eq!(timer.message().current_time, 3);
    assert!(!timer.is_counting());
}

#[test]
fn tick_saturates_at_i32_max() {
    let mut timer = Timer::new();
    send(&mut timer, Command::StartCounter, 0);
    let msg = broadcast(timer.handle(Event::Tick, u64::MAX));
    assert_eq!(msg.current_time, i32::MAX);
    let msg = broadcast(timer.handle(Event::Tick, u64::MAX));
    assert_eq!(msg.current_time, i32::MAX);
}

#[test]
fn tick_before_last_tick_adds_nothing() {
    let mut timer = Timer::new();
    send(&mut timer, Command::StartCounter, 10 * MS);
    let msg = broadcast(timer.handle(Event::Tick, 5 * MS));
    assert_eq!(msg.current_time, 0);
}

#[test]
fn forgotten_listener_is_no_longer_counted() {
    let mut timer = Timer::new();
    send(&mut timer, Command::Subscribe(1), 0);
    send(&mut timer, Command::Subscribe(2), 0);
    timer.forget_listener(1);
    assert_eq!(timer.message().client_count, 1);
    assert_eq!(timer.listeners(), vec![2u128]);
}

#[test]
fn counting_since_start_is_bounded_by_elapsed_time() {
    let mut timer = Timer::new();
    send(&mut timer, Command::StartCounter, 0);
    broadcast(timer.handle(Event::Tick, 7 * MS + 500_000));
    send(&mut timer, Command::StopCounter, 8 * MS);
    let c0 = timer.message().current_time;
    assert_eq!(c0, 7);
    // Stopped time is not counted: restart at 50 ms, tick at irregular instants.
    send(&mut timer, Command::StartCounter, 50 * MS);
    send(&mut timer, Command::Subscribe(1), 51 * MS);
    broadcast(timer.handle(Event::Tick, 52 * MS + 900_000));
    broadcast(timer.handle(Event::Tick, 53 * MS + 800_000));
    let msg = broadcast(timer.handle(Event::Tick, 60 * MS + 100_000));
    assert!(msg.current_time >= c0 && msg.current_time <= c0 + 10);
    // Whole milliseconds per tick: 2 + 0 + 6.
    assert_eq!(msg.current_time, c0 + 8);
}
