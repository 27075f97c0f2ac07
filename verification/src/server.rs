use std::collections::{HashMap, HashSet};

use vstd::prelude::*;

use crate::config::Config;
use crate::ids::{random_uuid, uuid_string, uuid_text};
use crate::timer;

verus! {

broadcast use vstd::std_specs::hash::group_hash_axioms;

/// Why the server refused a request.
#[derive(Clone, Copy, Debug, PartialEq, Eq, Structural)]
pub enum ServerError {
    /// The connection is not bound to a live timer.
    NoTimerForClient(u128),
}

/// The text of an error, as the server reports it to the client.
pub open spec fn error_text(e: ServerError) -> Seq<char> {
    match e {
        ServerError::NoTimerForClient(id) => "No timer found for client "@ + uuid_text(id),
    }
}

impl ServerError {
    /// The message for this error, naming the connection by its UUID.
    pub fn message(&self) -> (s: String)
        ensures
            s@ == error_text(*self),
    {
        match self {
            ServerError::NoTimerForClient(id) => {
                let text = uuid_string(*id);
                let prefix = String::from_str("No timer found for client ");
                prefix.concat(text.as_str())
            },
        }
    }
}

/// A request to the timer server, as a connection handler sends it. Timers
/// and connections are named by their 128-bit UUIDs.
#[derive(Clone, Copy, Debug, PartialEq, Eq, Structural)]
pub enum Command {
    Connect(u128),
    Disconnect(u128),
    StartCounter(u128),
    StopCounter(u128),
    SetTime(u128, i32),
    Shutdown,
}

/// The outcome of a connection: the new connection's id, and whether a timer
/// must be started for the requested id because none was running.
#[derive(Clone, Copy, Debug, PartialEq, Eq, Structural)]
pub struct Connection {
    pub client_id: u128,
    pub create_timer: bool,
}

/// The abstract state of the server: the timers that run, the timer each
/// connection is bound to, the instant (nanoseconds) at which each idle timer
/// was scheduled for cleanup, and the configuration.
pub struct ServerModel {
    pub timers: Set<u128>,
    pub clients: Map<u128, u128>,
    pub cleanup: Map<u128, nat>,
    pub config: Config,
}

/// Every connection is bound to a running timer that is not scheduled for
/// cleanup, and only running timers are scheduled.
pub open spec fn registry_invariant(m: ServerModel) -> bool {
    &&& forall|c: u128| #[trigger]
        m.clients.contains_key(c) ==> m.timers.contains(m.clients[c]) && !m.cleanup.contains_key(
            m.clients[c],
        )
    &&& forall|t: u128| #[trigger] m.cleanup.contains_key(t) ==> m.timers.contains(t)
}

/// The timer that serves a connection's requests, or the error when the
/// connection is unknown or its timer is gone.
pub open spec fn route(m: ServerModel, client: u128) -> Result<u128, ServerError> {
    if m.clients.contains_key(client) && m.timers.contains(m.clients[client]) {
        Ok(m.clients[client])
    } else {
        Err(ServerError::NoTimerForClient(client))
    }
}

/// Binding connection `client` to timer `timer`: the timer runs (it is
/// started if it did not), the connection is bound, and the timer is no
/// longer scheduled for cleanup.
pub open spec fn connect_model(m: ServerModel, timer: u128, client: u128) -> ServerModel {
    ServerModel {
        timers: m.timers.insert(timer),
        clients: m.clients.insert(client, timer),
        cleanup: m.cleanup.remove(timer),
        ..m
    }
}

/// Whether some connection is bound to `timer`.
pub open spec fn has_clients(clients: Map<u128, u128>, timer: u128) -> bool {
    exists|c: u128| #[trigger] clients.contains_key(c) && clients[c] == timer
}

/// The timer to schedule for cleanup when `client` leaves: its timer, if no
/// other connection is bound to it.
pub open spec fn orphaned_by(m: ServerModel, client: u128) -> Option<u128> {
    if m.clients.contains_key(client) && !has_clients(m.clients.remove(client), m.clients[client]) {
        Some(m.clients[client])
    } else {
        None
    }
}

/// Unbinding `client` at instant `now`: the binding goes, and a timer left
/// without connections is scheduled for cleanup at `now`.
pub open spec fn disconnect_model(m: ServerModel, client: u128, now: nat) -> ServerModel {
    match orphaned_by(m, client) {
        Some(t) => ServerModel { clients: m.clients.remove(client), cleanup: m.cleanup.insert(t, now), ..m },
        None => ServerModel { clients: m.clients.remove(client), ..m },
    }
}

/// Whether timer `t`, scheduled for cleanup, has been idle longer than the
/// configured maximum age at instant `now`.
pub open spec fn expired(m: ServerModel, t: u128, now: nat) -> bool {
    &&& m.cleanup.contains_key(t)
    &&& now > m.cleanup[t]
    &&& now - m.cleanup[t] > m.config.max_timer_age_ns
}

/// Cleanup at instant `now`: every expired timer stops running and leaves
/// the schedule.
pub open spec fn cleanup_model(m: ServerModel, now: nat) -> ServerModel {
    ServerModel {
        timers: m.timers.filter(|t: u128| !expired(m, t, now)),
        cleanup: m.cleanup.restrict(m.cleanup.dom().filter(|t: u128| !expired(m, t, now))),
        ..m
    }
}

/// What the caller does after the server handled a request.
#[derive(Clone, Copy, Debug, PartialEq, Eq)]
pub enum Step {
    /// Stop serving requests.
    Stop,
    /// Start the timer if `create_timer` says none ran, subscribe the new
    /// connection to it, and answer the requester.
    Connected(Connection, u128),
    /// Send the command to the timer, or answer with the error.
    Routed(Result<(u128, timer::Command), ServerError>),
    /// Unsubscribe the connection (second id) from its timer (first id),
    /// then report whether that worked with `finish_disconnect`.
    Unsubscribe(u128, u128),
    /// The connection is gone; the timer scheduled for cleanup, if any.
    Disconnected(Option<u128>),
}

/// The id of the new connection, if a step made one.
pub open spec fn step_client(step: Step) -> u128 {
    match step {
        Step::Connected(c, _) => c.client_id,
        _ => 0,
    }
}

/// Whether a request ends with a cleanup pass: every request but `Shutdown`
/// and a disconnection that must first unsubscribe from a running timer.
pub open spec fn cleans_up(m: ServerModel, cmd: Command) -> bool {
    match cmd {
        Command::Shutdown => false,
        Command::Disconnect(c) => route(m, c) is Err,
        _ => true,
    }
}

/// The state after a request, before the cleanup pass; `client` is the id
/// drawn for a new connection.
pub open spec fn request_model(m: ServerModel, cmd: Command, client: u128, now: nat) -> ServerModel {
    match cmd {
        Command::Connect(t) => connect_model(m, t, client),
        Command::Disconnect(c) => if route(m, c) is Err {
            disconnect_model(m, c, now)
        } else {
            m
        },
        _ => m,
    }
}

/// What the caller does after a request; `client` is the id drawn for a new
/// connection.
pub open spec fn step_model(m: ServerModel, cmd: Command, client: u128, now: nat) -> Step {
    match cmd {
        Command::Connect(t) => Step::Connected(Connection { client_id: client, create_timer: !m.timers.contains(t) }, t),
        Command::Disconnect(c) => match route(m, c) {
            Ok(t) => Step::Unsubscribe(t, c),
            Err(_) => Step::Disconnected(orphaned_by(m, c)),
        },
        Command::StartCounter(c) => Step::Routed(
            match route(m, c) {
                Ok(t) => Ok((t, timer::Command::StartCounter)),
                Err(e) => Err(e),
            },
        ),
        Command::StopCounter(c) => Step::Routed(
            match route(m, c) {
                Ok(t) => Ok((t, timer::Command::StopCounter)),
                Err(e) => Err(e),
            },
        ),
        Command::SetTime(c, time) => Step::Routed(
            match route(m, c) {
                Ok(t) => Ok((t, timer::Command::SetTime(time))),
                Err(e) => Err(e),
            },
        ),
        Command::Shutdown => Step::Stop,
    }
}

/// The timers a cleanup pass at `now` stops.
pub open spec fn expired_timers(m: ServerModel, now: nat) -> Set<u128> {
    m.timers.filter(|t: u128| expired(m, t, now))
}

/// The registry of the timer server: which timers run, which connection
/// listens to which timer, and which idle timers wait for cleanup. The
/// channels to the timers themselves are kept by the caller, by timer id.
pub struct TimerServer {
    timers: HashSet<u128>,
    clients: HashMap<u128, u128>,
    timers_to_cleanup: HashMap<u128, u64>,
    config: Config,
}

pub open spec fn cleanup_view(m: Map<u128, u64>) -> Map<u128, nat> {
    Map::new(|t: u128| m.contains_key(t), |t: u128| m[t] as nat)
}

impl View for TimerServer {
    type V = ServerModel;

    closed spec fn view(&self) -> ServerModel {
        ServerModel {
            timers: self.timers@,
            clients: self.clients@,
            cleanup: cleanup_view(self.timers_to_cleanup@),
            config: self.config,
        }
    }
}

impl TimerServer {
    #[verifier::type_invariant]
    closed spec fn inv(self) -> bool {
        registry_invariant(self@)
    }

    /// A server with the default configuration and nothing registered.
    pub fn new() -> (s: Self)
        ensures
            s@.timers == Set::<u128>::empty(),
            s@.clients == Map::<u128, u128>::empty(),
            s@.cleanup == Map::<u128, nat>::empty(),
            s@.config == crate::config::default_config(),
    {
        Self::with_config(Config::default())
    }

    /// A server with the given configuration and nothing registered.
    pub fn with_config(config: Config) -> (s: Self)
        ensures
            s@.timers == Set::<u128>::empty(),
            s@.clients == Map::<u128, u128>::empty(),
            s@.cleanup == Map::<u128, nat>::empty(),
            s@.config == config,
    {
        let s = TimerServer {
            timers: HashSet::new(),
            clients: HashMap::new(),
            timers_to_cleanup: HashMap::new(),
            config,
        };
        proof {
            assert(cleanup_view(s.timers_to_cleanup@) =~= Map::<u128, nat>::empty());
        }
        s
    }

    /// The configuration the server runs with.
    pub fn config(&self) -> (c: Config)
        ensures
            c == self@.config,
    {
        self.config
    }

    /// The timer that serves a connection: `Ok` with the id of the timer the
    /// connection is bound to, if that timer runs; else the error naming the
    /// connection.
    pub fn get_timer_handle_for_client(&self, conn_id: u128) -> (r: Result<u128, ServerError>)
        ensures
            r == route(self@, conn_id),
    {
        match self.clients.get(&conn_id) {
            Some(timer_id) => {
                if self.timers.contains(timer_id) {
                    Ok(*timer_id)
                } else {
                    Err(ServerError::NoTimerForClient(conn_id))
                }
            },
            None => Err(ServerError::NoTimerForClient(conn_id)),
        }
    }

    /// Routes a new target time to the connection's timer: the timer's id and
    /// the command to send it, or the error.
    pub fn set_time(&self, conn_id: u128, time: i32) -> (r: Result<(u128, timer::Command), ServerError>)
        ensures
            match route(self@, conn_id) {
                Ok(t) => r == Ok::<(u128, timer::Command), ServerError>((t, timer::Command::SetTime(time))),
                Err(e) => r == Err::<(u128, timer::Command), ServerError>(e),
            },
    {
        let timer_id: u128 = self.get_timer_handle_for_client(conn_id)?;
        Ok((timer_id, timer::Command::SetTime(time)))
    }

    /// Routes a start request to the connection's timer.
    pub fn start_counter(&self, conn_id: u128) -> (r: Result<(u128, timer::Command), ServerError>)
        ensures
            match route(self@, conn_id) {
                Ok(t) => r == Ok::<(u128, timer::Command), ServerError>((t, timer::Command::StartCounter)),
                Err(e) => r == Err::<(u128, timer::Command), ServerError>(e),
            },
    {
        let timer_id: u128 = self.get_timer_handle_for_client(conn_id)?;
        Ok((timer_id, timer::Command::StartCounter))
    }

    /// Routes a stop request to the connection's timer.
    pub fn stop_counter(&self, conn_id: u128) -> (r: Result<(u128, timer::Command), ServerError>)
        ensures
            match route(self@, conn_id) {
                Ok(t) => r == Ok::<(u128, timer::Command), ServerError>((t, timer::Command::StopCounter)),
                Err(e) => r == Err::<(u128, timer::Command), ServerError>(e),
            },
    {
        let timer_id: u128 = self.get_timer_handle_for_client(conn_id)?;
        Ok((timer_id, timer::Command::StopCounter))
    }

    /// Moves the three tables out, leaving empty ones behind.
    fn take_parts(&mut self) -> (parts: (HashSet<u128>, HashMap<u128, u128>, HashMap<u128, u64>))
        ensures
            parts.0@ == old(self)@.timers,
            parts.1@ == old(self)@.clients,
            cleanup_view(parts.2@) == old(self)@.cleanup,
            final(self)@.timers == Set::<u128>::empty(),
            final(self)@.clients == Map::<u128, u128>::empty(),
            final(self)@.cleanup == Map::<u128, nat>::empty(),
            final(self)@.config == old(self)@.config,
    {
        proof {
            use_type_invariant(&*self);
        }
        let mut clients = HashMap::new();
        proof {
            assert(registry_invariant(ServerModel { clients: clients@, ..self@ }));
        }
        std::mem::swap(&mut clients, &mut self.clients);
        let mut cleanup = HashMap::new();
        std::mem::swap(&mut cleanup, &mut self.timers_to_cleanup);
        let mut timers = HashSet::new();
        std::mem::swap(&mut timers, &mut self.timers);
        proof {
            assert(cleanup_view(self.timers_to_cleanup@) =~= Map::<u128, nat>::empty());
        }
        (timers, clients, cleanup)
    }

    /// Moves three tables in that satisfy the registry invariant.
    fn put_parts(&mut self, timers: HashSet<u128>, clients: HashMap<u128, u128>, cleanup: HashMap<u128, u64>)
        requires
            old(self)@.timers == Set::<u128>::empty(),
            old(self)@.clients == Map::<u128, u128>::empty(),
            old(self)@.cleanup == Map::<u128, nat>::empty(),
            registry_invariant(
                ServerModel {
                    timers: timers@,
                    clients: clients@,
                    cleanup: cleanup_view(cleanup@),
                    config: old(self)@.config,
                },
            ),
        ensures
            final(self)@ == (ServerModel {
                timers: timers@,
                clients: clients@,
                cleanup: cleanup_view(cleanup@),
                config: old(self)@.config,
            }),
    {
        self.timers = timers;
        proof {
            assert forall|t: u128| #[trigger] cleanup_view(self.timers_to_cleanup@).contains_key(t) implies self.timers@.contains(t) by {
                assert(old(self)@.cleanup.contains_key(t));
            }
        }
        proof {
            let m = ServerModel {
                timers: timers@,
                clients: clients@,
                cleanup: cleanup_view(cleanup@),
                config: old(self)@.config,
            };
            assert forall|t: u128| #[trigger] cleanup_view(cleanup@).contains_key(t) implies self.timers@.contains(t) by {
                assert(m.cleanup.contains_key(t));
            }
        }
        self.timers_to_cleanup = cleanup;
        self.clients = clients;
    }

    /// Binds a new connection to timer `timer_id`. The connection gets a
    /// fresh random UUID; the timer is marked running (the caller starts it
    /// when `create_timer` says none ran) and taken off the cleanup schedule.
    pub fn connect(&mut self, timer_id: u128) -> (c: Connection)
        ensures
            final(self)@ == connect_model(old(self)@, timer_id, c.client_id),
            final(self)@.timers == old(self)@.timers.insert(timer_id),
            final(self)@.clients == old(self)@.clients.insert(c.client_id, timer_id),
            final(self)@.cleanup == old(self)@.cleanup.remove(timer_id),
            final(self)@.config == old(self)@.config,
            c.create_timer == !old(self)@.timers.contains(timer_id),
            registry_invariant(final(self)@),
            (c.client_id >> 76u128) & 0xf == 4,
            (c.client_id >> 62u128) & 0x3 == 2,
    {
        proof {
            use_type_invariant(&*self);
        }
        let client_id: u128 = random_uuid();
        let (mut timers, mut clients, mut cleanup) = self.take_parts();
        let create_timer = !timers.contains(&timer_id);
        timers.insert(timer_id);
        clients.insert(client_id, timer_id);
        revive_timer(&mut cleanup, timer_id);
        proof {
            let m = connect_model(old(self)@, timer_id, client_id);
            assert(cleanup_view(cleanup@) == m.cleanup);
            assert(registry_invariant(m));
        }
        self.put_parts(timers, clients, cleanup);
        Connection { client_id, create_timer }
    }

    /// Unbinds connection `client_id` at instant `now`. When no other
    /// connection is bound to its timer, that timer is scheduled for cleanup
    /// and returned.
    pub fn disconnect(&mut self, client_id: u128, now: u64) -> (scheduled: Option<u128>)
        ensures
            final(self)@ == disconnect_model(old(self)@, client_id, now as nat),
            scheduled == orphaned_by(old(self)@, client_id),
            registry_invariant(final(self)@),
    {
        proof {
            use_type_invariant(&*self);
        }
        let (timers, mut clients, mut cleanup) = self.take_parts();
        let removed = clients.remove(&client_id);
        let result = match removed {
            Some(timer_id) => {
                if timer_has_clients(&clients, timer_id) {
                    None
                } else {
                    schedule_timer_cleanup(&mut cleanup, timer_id, now);
                    Some(timer_id)
                }
            },
            None => None,
        };
        proof {
            let m = disconnect_model(old(self)@, client_id, now as nat);
            assert(cleanup_view(cleanup@) == m.cleanup);
            assert(clients@ == m.clients);
            assert forall|c: u128| #[trigger] m.clients.contains_key(c) implies m.timers.contains(m.clients[c]) && !m.cleanup.contains_key(m.clients[c]) by {
                assert(old(self)@.clients.contains_key(c));
                if result is Some {
                    if m.clients[c] == result->0 {
                        assert(has_clients(clients@, result->0));
                    }
                }
            }
            assert(registry_invariant(m));
        }
        self.put_parts(timers, clients, cleanup);
        result
    }

    /// Stops every timer that has waited for cleanup longer than the
    /// configured maximum age at instant `now`: it leaves the schedule and the
    /// running timers. Returns the ids of the timers to close, each once.
    pub fn cleanup_timers(&mut self, now: u64) -> (closed: Vec<u128>)
        ensures
            final(self)@ == cleanup_model(old(self)@, now as nat),
            closed@.no_duplicates(),
            closed@.to_set() == old(self)@.timers.filter(|t: u128| expired(old(self)@, t, now as nat)),
            registry_invariant(final(self)@),
    {
        proof {
            use_type_invariant(&*self);
        }
        let ghost m0 = self@;
        let max_age_ns: u128 = self.config.max_timer_age_ns;
        let (mut timers, clients, mut cleanup) = self.take_parts();
        let keys = cleanup_keys(&cleanup);
        let mut closed: Vec<u128> = Vec::new();
        let mut i: usize = 0;
        while i < keys.len()
            invariant
                0 <= i <= keys@.len(),
                keys@.no_duplicates(),
                keys@.to_set() == m0.cleanup.dom(),
                m0.config.max_timer_age_ns == max_age_ns,
                forall|t: u128| #[trigger] cleanup_view(cleanup@).contains_key(t) <==> (m0.cleanup.contains_key(t) && !(keys@.take(i as int).contains(t) && expired(m0, t, now as nat))),
                forall|t: u128| #[trigger] cleanup_view(cleanup@).contains_key(t) ==> cleanup_view(cleanup@)[t] == m0.cleanup[t],
                forall|t: u128| #[trigger] timers@.contains(t) <==> (m0.timers.contains(t) && !(keys@.take(i as int).contains(t) && expired(m0, t, now as nat))),
                forall|t: u128| #[trigger] closed@.contains(t) <==> (m0.timers.contains(t) && keys@.take(i as int).contains(t) && expired(m0, t, now as nat)),
                closed@.no_duplicates(),
            decreases keys@.len() - i,
        {
            let t: u128 = keys[i];
            proof {
                assert(keys@.take(i as int + 1) == keys@.take(i as int).push(t));
                assert(!keys@.take(i as int).contains(t)) by {
                    if keys@.take(i as int).contains(t) {
                        let j: int = choose|j: int| 0 <= j < i && keys@.take(i as int)[j] == t;
                        assert(keys@[j] == keys@[i as int]);
                    }
                }
                assert(m0.cleanup.contains_key(t)) by {
                    assert(keys@.to_set().contains(t));
                }
                assert(cleanup_view(cleanup@).contains_key(t));
            }
            let created: u64 = *cleanup.get(&t).unwrap();
            let is_expired = now > created && ((now - created) as u128) > max_age_ns;
            proof {
                assert(created as nat == m0.cleanup[t]);
                assert(is_expired == expired(m0, t, now as nat));
            }
            if is_expired {
                let ghost before = cleanup@;
                cleanup.remove(&t);
                proof {
                    assert(cleanup_view(cleanup@) =~= cleanup_view(before).remove(t));
                }
                let was_running = timers.remove(&t);
                if was_running {
                    proof {
                        assert(!closed@.contains(t));
                    }
                    closed.push(t);
                }
            }
            i = i + 1;
            proof {
                broadcast use vstd::seq_lib::group_seq_properties;
                assert(keys@.take(i as int) == keys@.take(i - 1).push(t));
                assert forall|x: u128| #[trigger] cleanup_view(cleanup@).contains_key(x) <==> (m0.cleanup.contains_key(x) && !(keys@.take(i as int).contains(x) && expired(m0, x, now as nat))) by {
                    assert(keys@.take(i as int).contains(x) <==> (keys@.take(i - 1).contains(x) || x == t));
                }
                assert forall|x: u128| #[trigger] timers@.contains(x) <==> (m0.timers.contains(x) && !(keys@.take(i as int).contains(x) && expired(m0, x, now as nat))) by {
                    assert(keys@.take(i as int).contains(x) <==> (keys@.take(i - 1).contains(x) || x == t));
                }
                assert forall|x: u128| #[trigger] closed@.contains(x) <==> (m0.timers.contains(x) && keys@.take(i as int).contains(x) && expired(m0, x, now as nat)) by {
                    assert(keys@.take(i as int).contains(x) <==> (keys@.take(i - 1).contains(x) || x == t));
                }
            }
        }
        proof {
            assert(keys@.take(keys@.len() as int) == keys@);
            let m1 = cleanup_model(m0, now as nat);
            assert forall|t: u128| keys@.contains(t) <==> m0.cleanup.contains_key(t) by {
                assert(keys@.to_set().contains(t) <==> keys@.contains(t));
            }
            assert(timers@ =~= m1.timers);
            assert(cleanup_view(cleanup@) =~= m1.cleanup);
            assert(closed@.to_set() =~= m0.timers.filter(|t: u128| expired(m0, t, now as nat)));
            assert(clients@ == m1.clients);
            assert(registry_invariant(m1));
        }
        self.put_parts(timers, clients, cleanup);
        closed
    }

    /// Handles one request at instant `now`, as the server loop does: a
    /// connection is bound, a request is routed, a connection leaves, or the
    /// server stops; after every request but `Shutdown` (and a disconnection
    /// that first unsubscribes, see `finish_disconnect`) idle timers older than
    /// the maximum age are cleaned up. Returns what the caller does next and
    /// the timers to close, each once.
    pub fn step(&mut self, cmd: Command, now: u64) -> (r: (Step, Vec<u128>))
        ensures
            r.0 == step_model(old(self)@, cmd, step_client(r.0), now as nat),
            r.0 matches Step::Connected(c, _) ==> (c.client_id >> 76u128) & 0xf == 4 && (c.client_id >> 62u128)
                & 0x3 == 2,
            cmd matches Command::Connect(t) ==> r.0 matches Step::Connected(c, t2) && t2 == t && c.create_timer
                == !old(self)@.timers.contains(t),
            cmd matches Command::Connect(t) ==> route(final(self)@, step_client(r.0)) == Ok::<u128, ServerError>(t),
            final(self)@ == if cleans_up(old(self)@, cmd) {
                cleanup_model(request_model(old(self)@, cmd, step_client(r.0), now as nat), now as nat)
            } else {
                request_model(old(self)@, cmd, step_client(r.0), now as nat)
            },
            r.1@.no_duplicates(),
            r.1@.to_set() == if cleans_up(old(self)@, cmd) {
                expired_timers(request_model(old(self)@, cmd, step_client(r.0), now as nat), now as nat)
            } else {
                Set::<u128>::empty()
            },
            registry_invariant(final(self)@),
    {
        proof {
            use_type_invariant(&*self);
        }
        let step = match cmd {
            Command::Connect(t) => {
                let c = self.connect(t);
                Step::Connected(c, t)
            },
            Command::Disconnect(c) => match self.get_timer_handle_for_client(c) {
                Ok(t) => {
                    return (Step::Unsubscribe(t, c), Vec::new());
                },
                Err(_) => Step::Disconnected(self.disconnect(c, now)),
            },
            Command::StartCounter(c) => Step::Routed(self.start_counter(c)),
            Command::StopCounter(c) => Step::Routed(self.stop_counter(c)),
            Command::SetTime(c, time) => Step::Routed(self.set_time(c, time)),
            Command::Shutdown => {
                return (Step::Stop, Vec::new());
            },
        };
        let closed = self.cleanup_timers(now);
        (step, closed)
    }

    /// Ends a disconnection after the caller tried to unsubscribe the
    /// connection from its timer: if that worked, the connection leaves (its
    /// timer is scheduled for cleanup when no other connection uses it);
    /// either way the cleanup pass runs. Returns the timer scheduled for
    /// cleanup and the timers to close, each once.
    pub fn finish_disconnect(&mut self, client_id: u128, unsubscribed: bool, now: u64) -> (r: (Option<u128>, Vec<u128>))
        ensures
            r.0 == if unsubscribed {
                orphaned_by(old(self)@, client_id)
            } else {
                None
            },
            final(self)@ == cleanup_model(
                if unsubscribed {
                    disconnect_model(old(self)@, client_id, now as nat)
                } else {
                    old(self)@
                },
                now as nat,
            ),
            r.1@.no_duplicates(),
            r.1@.to_set() == expired_timers(
                if unsubscribed {
                    disconnect_model(old(self)@, client_id, now as nat)
                } else {
                    old(self)@
                },
                now as nat,
            ),
            registry_invariant(final(self)@),
    {
        let scheduled = if unsubscribed {
            self.disconnect(client_id, now)
        } else {
            None
        };
        let closed = self.cleanup_timers(now);
        (scheduled, closed)
    }
}

/// The ids scheduled for cleanup, each once.
fn cleanup_keys(cleanup: &HashMap<u128, u64>) -> (keys: Vec<u128>)
    ensures
        keys@.no_duplicates(),
        keys@.to_set() == cleanup@.dom(),
{
    let ghost m = cleanup@;
    let mut keys: Vec<u128> = Vec::new();
    for k in it: cleanup.keys()
        invariant
            keys@ == it.seq().unref().take(it.index()),
            it.seq().unref().to_set() == m.dom(),
            it.seq().no_duplicates(),
            keys@.no_duplicates(),
            it.index() == it.seq().len() ==> keys@.to_set() == m.dom(),
    {
        keys.push(*k);
        proof {
            assert(it.seq().unref().take(it.index() + 1) == it.seq().unref().take(it.index()).push(*k));
            assert forall|a: int, b: int| 0 <= a < b < keys@.len() implies keys@[a] != keys@[b] by {
                assert(keys@[a] == *it.seq()[a]);
                assert(keys@[b] == *it.seq()[b]);
            }
            assert(it.index() + 1 == it.seq().len() ==> keys@ == it.seq().unref());
        }
    }
    keys
}

/// Whether some connection in `clients` is bound to `timer_id`.
fn timer_has_clients(clients: &HashMap<u128, u128>, timer_id: u128) -> (b: bool)
    ensures
        b == has_clients(clients@, timer_id),
{
    let ghost m = clients@;
    for v in it: clients.values()
        invariant
            forall|i: int| 0 <= i < it.index() ==> *it.seq()[i] != timer_id,
            it.seq().unref().to_set() == m.values(),
            it.index() == it.seq().len() ==> !m.values().contains(timer_id),
    {
        if *v == timer_id {
            proof {
                assert(it.seq().unref()[it.index()] == timer_id);
                assert(it.seq().unref().to_set().contains(timer_id));
            }
            return true;
        }
    }
    false
}

/// Takes timer `timer_id` off the cleanup schedule.
fn revive_timer(cleanup: &mut HashMap<u128, u64>, timer_id: u128)
    ensures
        cleanup_view(final(cleanup)@) == cleanup_view(old(cleanup)@).remove(timer_id),
{
    cleanup.remove(&timer_id);
    proof {
        assert(cleanup_view(cleanup@) =~= cleanup_view(old(cleanup)@).remove(timer_id));
    }
}

/// Schedules timer `timer_id` for cleanup at instant `now`.
fn schedule_timer_cleanup(cleanup: &mut HashMap<u128, u64>, timer_id: u128, now: u64)
    ensures
        cleanup_view(final(cleanup)@) == cleanup_view(old(cleanup)@).insert(timer_id, now as nat),
{
    cleanup.insert(timer_id, now);
    proof {
        assert(cleanup_view(cleanup@) =~= cleanup_view(old(cleanup)@).insert(timer_id, now as nat));
    }
}

/// Every operation keeps the registry invariant: connecting, disconnecting
/// and cleanup.
pub proof fn law_invariant_preserved(m: ServerModel, timer: u128, client: u128, now: nat)
    requires
        registry_invariant(m),
    ensures
        registry_invariant(connect_model(m, timer, client)),
        registry_invariant(disconnect_model(m, client, now)),
        registry_invariant(cleanup_model(m, now)),
{
    let d = disconnect_model(m, client, now);
    assert forall|c: u128| #[trigger] d.clients.contains_key(c) implies d.timers.contains(d.clients[c])
        && !d.cleanup.contains_key(d.clients[c]) by {
        assert(m.clients.contains_key(c));
        if let Some(t) = orphaned_by(m, client) {
            if d.clients[c] == t {
                assert(has_clients(m.clients.remove(client), t));
            }
        }
    }
    let k = cleanup_model(m, now);
    assert forall|c: u128| #[trigger] k.clients.contains_key(c) implies k.timers.contains(k.clients[c])
        && !k.cleanup.contains_key(k.clients[c]) by {
        assert(!expired(m, k.clients[c], now));
    }
}

/// A connected client's requests always reach its timer: routing never
/// fails for a connection the server knows.
pub proof fn law_connected_client_routed(m: ServerModel, client: u128)
    requires
        registry_invariant(m),
        m.clients.contains_key(client),
    ensures
        route(m, client) == Ok::<u128, ServerError>(m.clients[client]),
{
}

/// An unknown connection's requests are refused with the error naming it.
pub proof fn law_unknown_client_refused(m: ServerModel, client: u128)
    requires
        !m.clients.contains_key(client),
    ensures
        route(m, client) == Err::<u128, ServerError>(ServerError::NoTimerForClient(client)),
{
}

/// After a connection to a timer, the connection's requests go to that
/// timer, and every other connection keeps its route.
pub proof fn law_connect_routes(m: ServerModel, timer: u128, client: u128, other: u128)
    requires
        other != client,
    ensures
        route(connect_model(m, timer, client), client) == Ok::<u128, ServerError>(timer),
        m.clients.contains_key(other) && m.timers.contains(m.clients[other]) ==> route(
            connect_model(m, timer, client),
            other,
        ) == route(m, other),
{
}

/// A second connection to the same timer reuses it: the timer already runs,
/// so none is created, and both connections reach it.
pub proof fn law_timer_reused(m: ServerModel, timer: u128, c1: u128, c2: u128)
    requires
        c1 != c2,
    ensures
        connect_model(m, timer, c1).timers.contains(timer),
        route(connect_model(connect_model(m, timer, c1), timer, c2), c1) == Ok::<u128, ServerError>(timer),
        route(connect_model(connect_model(m, timer, c1), timer, c2), c2) == Ok::<u128, ServerError>(timer),
{
}

/// When the last connection of a timer leaves, the timer is scheduled for
/// cleanup at that instant; while others remain it is not, and they keep
/// their route.
pub proof fn law_last_client_schedules_cleanup(m: ServerModel, client: u128, other: u128, now: nat)
    requires
        registry_invariant(m),
        m.clients.contains_key(client),
    ensures
        !has_clients(m.clients.remove(client), m.clients[client]) ==> disconnect_model(m, client, now).cleanup
            == m.cleanup.insert(m.clients[client], now),
        other != client && m.clients.contains_key(other) && m.clients[other] == m.clients[client] ==> {
            &&& disconnect_model(m, client, now).cleanup == m.cleanup
            &&& route(disconnect_model(m, client, now), other) == Ok::<u128, ServerError>(m.clients[client])
        },
{
    if other != client && m.clients.contains_key(other) && m.clients[other] == m.clients[client] {
        assert(m.clients.remove(client).contains_key(other));
    }
}

/// Cleanup only stops timers that no connection uses and that have been
/// idle longer than the maximum age; every connection keeps its route.
pub proof fn law_cleanup_spares_live_timers(m: ServerModel, t: u128, client: u128, now: nat)
    requires
        registry_invariant(m),
        m.timers.contains(t),
    ensures
        !cleanup_model(m, now).timers.contains(t) <==> expired(m, t, now),
        m.clients.contains_key(client) ==> route(cleanup_model(m, now), client) == route(m, client),
{
}

/// Connecting to a timer that waits for cleanup revives it: it leaves the
/// schedule and is not created again.
pub proof fn law_reconnect_revives(m: ServerModel, timer: u128, client: u128)
    requires
        registry_invariant(m),
        m.cleanup.contains_key(timer),
    ensures
        m.timers.contains(timer),
        !connect_model(m, timer, client).cleanup.contains_key(timer),
        connect_model(m, timer, client).timers == m.timers,
{
    assert(m.timers.insert(timer) =~= m.timers);
}

/// Connecting to a timer touches the cleanup schedule of that timer only:
/// every other idle timer keeps its entry and its instant, and every other
/// connection keeps its binding.
pub proof fn law_connect_touches_only_its_timer(m: ServerModel, timer: u128, client: u128, t: u128, c: u128)
    requires
        t != timer,
        c != client,
    ensures
        connect_model(m, timer, client).cleanup.contains_key(t) == m.cleanup.contains_key(t),
        m.cleanup.contains_key(t) ==> connect_model(m, timer, client).cleanup[t] == m.cleanup[t],
        !connect_model(m, timer, client).cleanup.contains_key(timer),
        connect_model(m, timer, client).timers.contains(t) == m.timers.contains(t),
        connect_model(m, timer, client).clients.contains_key(c) == m.clients.contains_key(c),
        m.clients.contains_key(c) ==> connect_model(m, timer, client).clients[c] == m.clients[c],
{
}

/// A connection asks for a new timer exactly when none runs under that id; a
/// timer waiting for cleanup still runs, so reconnecting to it reuses it
/// (with its state) instead of starting a fresh one.
pub proof fn law_connect_step_reuses_running_timer(m: ServerModel, t: u128, client: u128, now: nat)
    ensures
        step_model(m, Command::Connect(t), client, now) matches Step::Connected(c, t2) && t2 == t
            && c.client_id == client && (c.create_timer <==> !m.timers.contains(t)),
        registry_invariant(m) && m.cleanup.contains_key(t) ==> (step_model(m, Command::Connect(t), client, now)
            matches Step::Connected(c, _) && !c.create_timer),
{
}

/// After a connection step the new connection's requests reach the timer it
/// asked for, and the cleanup pass of that step never stops that timer.
pub proof fn law_connect_step_routes(m: ServerModel, t: u128, client: u128, now: nat)
    requires
        registry_invariant(m),
    ensures
        route(cleanup_model(request_model(m, Command::Connect(t), client, now), now), client)
            == Ok::<u128, ServerError>(t),
        !expired_timers(request_model(m, Command::Connect(t), client, now), now).contains(t),
{
}

} // verus!
