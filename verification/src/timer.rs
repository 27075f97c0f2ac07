use std::collections::HashMap;

use vstd::prelude::*;

verus! {

broadcast use vstd::std_specs::hash::group_hash_axioms;

/// The state a timer reports to each of its subscribers after every event.
#[derive(Clone, Copy, Debug, PartialEq, Eq, Structural)]
pub struct TimerMessage {
    pub is_running: bool,
    pub current_time: i32,
    pub target_time: i32,
    pub client_count: usize,
}

/// A command sent to a timer. Subscribers are named by their 128-bit
/// client id; the channel on which each one listens is kept by the caller.
#[derive(Clone, Copy, Debug, PartialEq, Eq, Structural)]
pub enum Command {
    StartCounter,
    StopCounter,
    SetTime(i32),
    Close,
    Subscribe(u128),
    Unsubscribe(u128),
}

/// What a running timer reacts to: a command, the end of its command
/// channel, or a tick of its interval.
#[derive(Clone, Copy, Debug, PartialEq, Eq, Structural)]
pub enum Event {
    Received(Command),
    ChannelClosed,
    Tick,
}

/// What the timer does after an event: send a message to every subscriber,
/// send nothing (a tick reaching a timer that does not count), or stop
/// running.
#[derive(Clone, Copy, Debug, PartialEq, Eq, Structural)]
pub enum Action {
    Broadcast(TimerMessage),
    Idle,
    Stop,
}

/// The abstract state of a timer. Instants are nanoseconds on the caller's
/// monotonic clock.
pub struct TimerModel {
    pub time: int,
    pub target_time: int,
    pub is_counting: bool,
    pub last_tick: nat,
    pub listeners: Set<u128>,
}

/// Whole milliseconds from `last` to `now`, zero if `now` comes first.
pub open spec fn elapsed_millis(last: nat, now: nat) -> int {
    if now >= last {
        (now - last) / 1_000_000
    } else {
        0
    }
}

/// `x`, capped at the largest `i32`.
pub open spec fn cap_i32(x: int) -> int {
    if x > i32::MAX {
        i32::MAX as int
    } else {
        x
    }
}

/// A tick adds the milliseconds elapsed since the last tick (at most
/// `i32::MAX`) to the counted time, saturating at `i32::MAX`, and remembers
/// the instant. A timer that is not counting ignores ticks.
pub open spec fn tick_model(m: TimerModel, now: nat) -> TimerModel {
    if m.is_counting {
        TimerModel {
            time: cap_i32(m.time + cap_i32(elapsed_millis(m.last_tick, now))),
            last_tick: now,
            ..m
        }
    } else {
        m
    }
}

/// The state after a command.
pub open spec fn command_model(m: TimerModel, cmd: Command, now: nat) -> TimerModel {
    match cmd {
        Command::StartCounter => TimerModel { is_counting: true, last_tick: now, ..m },
        Command::StopCounter => TimerModel { is_counting: false, ..m },
        Command::SetTime(t) => TimerModel { time: 0, target_time: t as int, ..m },
        Command::Close => m,
        Command::Subscribe(id) => TimerModel { listeners: m.listeners.insert(id), ..m },
        Command::Unsubscribe(id) => TimerModel { listeners: m.listeners.remove(id), ..m },
    }
}

/// The state after an event.
pub open spec fn next_model(m: TimerModel, event: Event, now: nat) -> TimerModel {
    match event {
        Event::Received(cmd) => command_model(m, cmd, now),
        Event::ChannelClosed => m,
        Event::Tick => tick_model(m, now),
    }
}

/// Whether an event ends the timer.
pub open spec fn stops(event: Event) -> bool {
    match event {
        Event::Received(Command::Close) => true,
        Event::ChannelClosed => true,
        _ => false,
    }
}

/// The message that reports a state.
pub open spec fn message_of(m: TimerModel) -> TimerMessage {
    TimerMessage {
        is_running: m.is_counting,
        current_time: m.time as i32,
        target_time: m.target_time as i32,
        client_count: m.listeners.len() as usize,
    }
}

/// The action after an event: stop on `Close` or a closed channel; nothing
/// for a tick while the timer does not count (a stopped timer only speaks
/// when it receives a command); else broadcast the new state.
pub open spec fn action_model(m: TimerModel, event: Event, now: nat) -> Action {
    if stops(event) {
        Action::Stop
    } else if event == Event::Tick && !m.is_counting {
        Action::Idle
    } else {
        Action::Broadcast(message_of(next_model(m, event, now)))
    }
}

/// The decision state of one timer: the counted and target times in
/// milliseconds, whether it is counting, the instant of the last tick, and
/// its subscribers, keyed by id (their channels are kept by the caller under
/// the same ids).
pub struct Timer {
    time: i32,
    target_time: i32,
    is_counting: bool,
    last_tick: u64,
    listeners: HashMap<u128, ()>,
}

impl View for Timer {
    type V = TimerModel;

    closed spec fn view(&self) -> TimerModel {
        TimerModel {
            time: self.time as int,
            target_time: self.target_time as int,
            is_counting: self.is_counting,
            last_tick: self.last_tick as nat,
            listeners: self.listeners@.dom(),
        }
    }
}

impl Timer {
    /// The counted time is never negative.
    #[verifier::type_invariant]
    closed spec fn inv(self) -> bool {
        self.time >= 0
    }

    /// A new timer: stopped, at time 0 with target 0, with no subscribers.
    pub fn new() -> (t: Self)
        ensures
            t@.time == 0,
            0 <= t@.time <= i32::MAX,
            t@.target_time == 0,
            !t@.is_counting,
            t@.last_tick == 0,
            t@.listeners == Set::<u128>::empty(),
    {
        let t = Timer { time: 0, target_time: 0, is_counting: false, last_tick: 0, listeners: HashMap::new() };
        proof {
            assert(t.listeners@.dom() =~= Set::<u128>::empty());
        }
        t
    }

    /// The message that reports the current state to subscribers.
    pub fn message(&self) -> (msg: TimerMessage)
        ensures
            msg == message_of(self@),
            0 <= self@.time <= i32::MAX,
            msg.current_time == self@.time,
    {
        proof {
            use_type_invariant(self);
        }
        TimerMessage {
            is_running: self.is_counting,
            current_time: self.time,
            target_time: self.target_time,
            client_count: self.listeners.len(),
        }
    }

    /// Whether the timer wants ticks of its interval (it is counting).
    pub fn is_counting(&self) -> (b: bool)
        ensures
            b == self@.is_counting,
    {
        self.is_counting
    }

    /// The ids of the current subscribers, each once.
    pub fn listeners(&self) -> (ids: Vec<u128>)
        ensures
            ids@.to_set() == self@.listeners,
            ids@.no_duplicates(),
            ids@.len() == self@.listeners.len(),
    {
        let ghost m = self.listeners@;
        let mut ids: Vec<u128> = Vec::new();
        for k in it: self.listeners.keys()
            invariant
                ids@ == it.seq().unref().take(it.index()),
                it.seq().unref().to_set() == m.dom(),
                it.seq().no_duplicates(),
                ids@.no_duplicates(),
                it.index() == it.seq().len() ==> ids@.to_set() == m.dom(),
        {
            ids.push(*k);
            proof {
                assert(it.seq().unref().take(it.index() + 1) == it.seq().unref().take(it.index()).push(*k));
                assert forall|a: int, b: int| 0 <= a < b < ids@.len() implies ids@[a] != ids@[b] by {
                    assert(ids@[a] == *it.seq()[a]);
                    assert(ids@[b] == *it.seq()[b]);
                }
                assert(it.index() + 1 == it.seq().len() ==> ids@ == it.seq().unref());
            }
        }
        proof {
            ids@.unique_seq_to_set();
        }
        ids
    }

    fn add_listener(&mut self, id: u128)
        ensures
            final(self)@ == (TimerModel { listeners: old(self)@.listeners.insert(id), ..old(self)@ }),
    {
        proof {
            use_type_invariant(&*self);
        }
        let mut ids = HashMap::new();
        std::mem::swap(&mut ids, &mut self.listeners);
        ids.insert(id, ());
        proof {
            assert(ids@.dom() =~= old(self)@.listeners.insert(id));
        }
        self.listeners = ids;
    }

    fn drop_listener(&mut self, id: u128)
        ensures
            final(self)@ == (TimerModel { listeners: old(self)@.listeners.remove(id), ..old(self)@ }),
    {
        proof {
            use_type_invariant(&*self);
        }
        let mut ids = HashMap::new();
        std::mem::swap(&mut ids, &mut self.listeners);
        ids.remove(&id);
        proof {
            assert(ids@.dom() =~= old(self)@.listeners.remove(id));
        }
        self.listeners = ids;
    }

    /// Forgets a subscriber whose channel is gone, as the broadcast does for
    /// every send that fails; nothing else changes.
    pub fn forget_listener(&mut self, id: u128)
        ensures
            final(self)@ == (TimerModel { listeners: old(self)@.listeners.remove(id), ..old(self)@ }),
    {
        self.drop_listener(id);
    }

    fn tick(&mut self, now: u64)
        ensures
            final(self)@ == tick_model(old(self)@, now as nat),
    {
        proof {
            use_type_invariant(&*self);
        }
        if self.is_counting {
            let elapsed_ns: u64 = if now >= self.last_tick { now - self.last_tick } else { 0 };
            let elapsed_ms_wide: u64 = elapsed_ns / 1_000_000;
            let elapsed_ms: i32 = if elapsed_ms_wide > i32::MAX as u64 {
                i32::MAX
            } else {
                elapsed_ms_wide as i32
            };
            let time: i32 = if self.time > i32::MAX - elapsed_ms {
                i32::MAX
            } else {
                self.time + elapsed_ms
            };
            self.time = time;
            self.last_tick = now;
        }
    }

    /// Reacts to one event and says what to do next. The new state is
    /// `next_model` of the old one; the action is `Stop` for `Close` or a
    /// closed channel, else a broadcast of the new state.
    pub fn handle(&mut self, event: Event, now: u64) -> (action: Action)
        ensures
            final(self)@ == next_model(old(self)@, event, now as nat),
            action == action_model(old(self)@, event, now as nat),
            0 <= final(self)@.time <= i32::MAX,
            event matches Event::Received(Command::SetTime(t)) ==> {
                &&& final(self)@.time == 0
                &&& final(self)@.target_time == t
                &&& final(self)@.is_counting == old(self)@.is_counting
                &&& final(self)@.last_tick == old(self)@.last_tick
                &&& final(self)@.listeners == old(self)@.listeners
                &&& action matches Action::Broadcast(msg) && msg.is_running == old(self)@.is_counting
                    && msg.current_time == 0 && msg.target_time == t
            },
            !(event matches Event::Received(Command::StartCounter)) && !(event matches Event::Received(
                Command::StopCounter,
            )) ==> final(self)@.is_counting == old(self)@.is_counting,
    {
        proof {
            use_type_invariant(&*self);
        }
        match event {
            Event::Received(cmd) => match cmd {
                Command::StartCounter => {
                    self.is_counting = true;
                    self.last_tick = now;
                },
                Command::StopCounter => {
                    self.is_counting = false;
                },
                Command::SetTime(t) => {
                    self.time = 0;
                    self.target_time = t;
                },
                Command::Close => {
                    return Action::Stop;
                },
                Command::Subscribe(id) => {
                    self.add_listener(id);
                },
                Command::Unsubscribe(id) => {
                    self.drop_listener(id);
                },
            },
            Event::ChannelClosed => {
                return Action::Stop;
            },
            Event::Tick => {
                if !self.is_counting {
                    return Action::Idle;
                }
                self.tick(now);
            },
        }
        Action::Broadcast(self.message())
    }
}

/// The counted time stays in `0..=i32::MAX`: every event keeps it there.
pub proof fn law_time_in_range(m: TimerModel, event: Event, now: nat)
    requires
        0 <= m.time <= i32::MAX,
    ensures
        0 <= next_model(m, event, now).time <= i32::MAX,
{
}

/// Setting the time resets the counted time to zero and sets the target;
/// the broadcast reports both.
pub proof fn law_set_time_resets(m: TimerModel, t: i32, now: nat)
    ensures
        next_model(m, Event::Received(Command::SetTime(t)), now).time == 0,
        next_model(m, Event::Received(Command::SetTime(t)), now).target_time == t,
        action_model(m, Event::Received(Command::SetTime(t)), now) matches Action::Broadcast(msg)
            && msg.current_time == 0 && msg.target_time == t,
{
}

/// Only setting the time and ticks change the counted time; only setting
/// the time changes the target.
pub proof fn law_only_set_time_and_ticks_change_time(m: TimerModel, event: Event, now: nat)
    requires
        !(event matches Event::Received(Command::SetTime(_))),
    ensures
        event != Event::Tick ==> next_model(m, event, now).time == m.time,
        next_model(m, event, now).target_time == m.target_time,
{
}

/// A stopped timer keeps its counted time and sends nothing on a tick: it
/// speaks only when it receives a command.
pub proof fn law_stopped_timer_holds(m: TimerModel, now: nat)
    requires
        !m.is_counting,
    ensures
        next_model(m, Event::Tick, now) == m,
        action_model(m, Event::Tick, now) == Action::Idle,
{
}

/// After a stop the timer reports that it is not running, with its counted
/// time kept; after a start it reports that it is running.
pub proof fn law_start_stop_reported(m: TimerModel, now: nat)
    ensures
        action_model(m, Event::Received(Command::StopCounter), now) matches Action::Broadcast(msg)
            && !msg.is_running && msg.current_time == m.time as i32,
        action_model(m, Event::Received(Command::StartCounter), now) matches Action::Broadcast(msg)
            && msg.is_running,
{
}

/// A tick never lowers the counted time; below saturation it adds exactly
/// the whole milliseconds since the last tick.
pub proof fn law_tick_adds_elapsed(m: TimerModel, now: nat)
    requires
        m.is_counting,
        0 <= m.time,
        m.time + elapsed_millis(m.last_tick, now) <= i32::MAX,
    ensures
        next_model(m, Event::Tick, now).time == m.time + elapsed_millis(m.last_tick, now),
        next_model(m, Event::Tick, now).time >= m.time,
        next_model(m, Event::Tick, now).last_tick == now,
{
}

/// Counting from a start at `t0` to a tick at `t1` adds the whole
/// milliseconds between them, below saturation.
pub proof fn law_start_then_tick(m: TimerModel, t0: nat, t1: nat)
    requires
        0 <= m.time,
        t0 <= t1,
        m.time + (t1 - t0) / 1_000_000 <= i32::MAX,
    ensures
        next_model(next_model(m, Event::Received(Command::StartCounter), t0), Event::Tick, t1).time
            == m.time + (t1 - t0) / 1_000_000,
{
}

/// Closing, or losing the command channel, stops the timer without
/// changing its state or broadcasting.
pub proof fn law_close_stops(m: TimerModel, now: nat)
    ensures
        action_model(m, Event::Received(Command::Close), now) == Action::Stop,
        action_model(m, Event::ChannelClosed, now) == Action::Stop,
        next_model(m, Event::Received(Command::Close), now) == m,
        next_model(m, Event::ChannelClosed, now) == m,
{
}

/// Every broadcast reports the number of distinct subscribers: subscribing
/// a new id adds one, subscribing a known id adds none, and unsubscribing a
/// known id removes one.
pub proof fn law_client_count(m: TimerModel, id: u128, now: nat)
    requires
        m.listeners.finite(),
    ensures
        next_model(m, Event::Received(Command::Subscribe(id)), now).listeners.len() == if m.listeners.contains(id) {
            m.listeners.len()
        } else {
            m.listeners.len() + 1
        },
        m.listeners.contains(id) ==> next_model(m, Event::Received(Command::Unsubscribe(id)), now).listeners.len() + 1 == m.listeners.len(),
        !m.listeners.contains(id) ==> next_model(m, Event::Received(Command::Unsubscribe(id)), now).listeners.len() == m.listeners.len(),
{
}

/// Subscribing a new id and then unsubscribing it restores the timer.
pub proof fn law_subscribe_unsubscribe(m: TimerModel, id: u128, t0: nat, t1: nat)
    requires
        !m.listeners.contains(id),
    ensures
        next_model(next_model(m, Event::Received(Command::Subscribe(id)), t0), Event::Received(Command::Unsubscribe(id)), t1) == m,
{
    assert(m.listeners.insert(id).remove(id) =~= m.listeners);
}

/// The state after a run of events, each at its instant, in order.
pub open spec fn run_model(m: TimerModel, events: Seq<(Event, nat)>) -> TimerModel
    decreases events.len(),
{
    if events.len() == 0 {
        m
    } else {
        run_model(next_model(m, events[0].0, events[0].1), events.drop_first())
    }
}

/// Whether an event leaves a counting timer counting without resetting its
/// time: anything but setting the time or stopping.
pub open spec fn keeps_counting(e: Event) -> bool {
    &&& !(e matches Event::Received(Command::SetTime(_)))
    &&& e != Event::Received(Command::StopCounter)
}

/// Events at instants in `lo..=hi`, in time order, none of which sets the
/// time or stops the timer.
pub open spec fn counting_run(events: Seq<(Event, nat)>, lo: nat, hi: nat) -> bool {
    &&& forall|i: int| 0 <= i < events.len() ==> keeps_counting(#[trigger] events[i].0)
    &&& forall|i: int| 0 <= i < events.len() ==> lo <= #[trigger] events[i].1 <= hi
    &&& forall|i: int, j: int| 0 <= i <= j < events.len() ==> #[trigger] events[i].1 <= #[trigger] events[j].1
}

proof fn lemma_div_add(a: int, b: int)
    requires
        a >= 0,
        b >= 0,
    ensures
        a / 1_000_000 + b / 1_000_000 <= (a + b) / 1_000_000,
{
    assert(a / 1_000_000 + b / 1_000_000 <= (a + b) / 1_000_000) by (nonlinear_arith)
        requires
            a >= 0,
            b >= 0,
    ;
}

proof fn lemma_div_monotone(a: int, b: int)
    requires
        0 <= a <= b,
    ensures
        a / 1_000_000 <= b / 1_000_000,
{
    assert(a / 1_000_000 <= b / 1_000_000) by (nonlinear_arith)
        requires
            0 <= a <= b,
    ;
}

proof fn lemma_counting_run(m: TimerModel, events: Seq<(Event, nat)>, s: nat, c0: int, n: nat)
    requires
        m.is_counting,
        0 <= c0 <= m.time,
        c0 <= i32::MAX,
        s <= m.last_tick <= n,
        m.time <= cap_i32(c0 + (m.last_tick - s) / 1_000_000),
        counting_run(events, m.last_tick, n),
    ensures
        c0 <= run_model(m, events).time <= cap_i32(c0 + (n - s) / 1_000_000),
    decreases events.len(),
{
    if events.len() == 0 {
        lemma_div_monotone(m.last_tick - s, n - s);
    } else {
        let (e, t) = events[0];
        assert(keeps_counting(events[0].0));
        assert(m.last_tick <= events[0].1 <= n);
        let m1 = next_model(m, e, t);
        lemma_div_monotone(m.last_tick - s, t - s);
        if e == Event::Tick {
            lemma_div_add(m.last_tick - s, t - m.last_tick);
            assert(m1.time <= cap_i32(c0 + (m1.last_tick - s) / 1_000_000));
        }
        assert(m1.is_counting);
        assert(m1.last_tick == m.last_tick || m1.last_tick == t);
        assert(m1.time <= cap_i32(c0 + (m1.last_tick - s) / 1_000_000));
        let rest = events.drop_first();
        assert forall|i: int| 0 <= i < rest.len() implies m1.last_tick <= #[trigger] rest[i].1 <= n by {
            assert(rest[i] == events[i + 1]);
            assert(events[0].1 <= events[i + 1].1);
        }
        assert forall|i: int| 0 <= i < rest.len() implies keeps_counting(#[trigger] rest[i].0) by {
            assert(rest[i] == events[i + 1]);
            assert(keeps_counting(events[i + 1].0));
        }
        assert forall|i: int, j: int| 0 <= i <= j < rest.len() implies #[trigger] rest[i].1 <= #[trigger] rest[j].1 by {
            assert(rest[i] == events[i + 1]);
            assert(rest[j] == events[j + 1]);
            assert(events[i + 1].1 <= events[j + 1].1);
        }
        lemma_counting_run(m1, rest, s, c0, n);
    }
}

/// Counting from a start: when the timer starts at instant `s` with counted
/// time `c0`, and up to instant `n` it receives, in time order, only events
/// that neither set the time nor stop it, its counted time stays between
/// `c0` and `c0` plus the whole milliseconds from `s` to `n` (saturating at
/// `i32::MAX`). Time before the start is never counted.
pub proof fn law_counting_since_start(m: TimerModel, s: nat, events: Seq<(Event, nat)>, n: nat)
    requires
        0 <= m.time <= i32::MAX,
        s <= n,
        counting_run(events, s, n),
    ensures
        m.time <= run_model(next_model(m, Event::Received(Command::StartCounter), s), events).time,
        run_model(next_model(m, Event::Received(Command::StartCounter), s), events).time <= cap_i32(
            m.time + (n - s) / 1_000_000,
        ),
{
    let m1 = next_model(m, Event::Received(Command::StartCounter), s);
    lemma_counting_run(m1, events, s, m.time, n);
}

/// Setting the time never starts or stops the timer: a running timer keeps
/// running (and keeps counting from 0), a stopped one stays stopped, and the
/// broadcast reports the same running state as before.
pub proof fn law_set_time_keeps_running_state(m: TimerModel, t: i32, now: nat)
    ensures
        next_model(m, Event::Received(Command::SetTime(t)), now).is_counting == m.is_counting,
        next_model(m, Event::Received(Command::SetTime(t)), now).last_tick == m.last_tick,
        action_model(m, Event::Received(Command::SetTime(t)), now) matches Action::Broadcast(msg)
            && msg.is_running == m.is_counting,
{
}

/// Only starting and stopping change whether the timer counts.
pub proof fn law_only_start_stop_change_running(m: TimerModel, event: Event, now: nat)
    requires
        event != Event::Received(Command::StartCounter),
        event != Event::Received(Command::StopCounter),
    ensures
        next_model(m, event, now).is_counting == m.is_counting,
{
}

/// A running timer whose time is set goes on counting from zero: a later
/// tick reports the whole milliseconds elapsed since the last tick.
pub proof fn law_set_time_then_tick(m: TimerModel, t: i32, now: nat, later: nat)
    requires
        m.is_counting,
        m.last_tick <= later,
        (later - m.last_tick) / 1_000_000 <= i32::MAX,
    ensures
        action_model(next_model(m, Event::Received(Command::SetTime(t)), now), Event::Tick, later)
            matches Action::Broadcast(msg) && msg.is_running && msg.target_time == t
            && msg.current_time == (later - m.last_tick) / 1_000_000,
{
}

} // verus!
