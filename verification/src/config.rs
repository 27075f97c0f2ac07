use vstd::prelude::*;

verus! {

/// Application configuration for timer behavior, WebSocket heartbeats and
/// cleanup. All durations are in nanoseconds, wide enough for
/// every `std::time::Duration`.
#[derive(Clone, Copy, Debug, PartialEq, Eq, Structural)]
pub struct Config {
    /// How often the timer ticks to update elapsed time.
    pub tick_interval_ns: u128,
    /// How often to send WebSocket ping messages.
    pub heartbeat_interval_ns: u128,
    /// How long to wait for client activity before timing the client out.
    pub client_timeout_ns: u128,
    /// How long to keep an idle timer before it is cleaned up.
    pub max_timer_age_ns: u128,
}

/// Production values: 100 ms ticks, 5 s heartbeats, 10 s client timeout,
/// 30 min idle timer age.
pub open spec fn default_config() -> Config {
    Config {
        tick_interval_ns: 100_000_000,
        heartbeat_interval_ns: 5_000_000_000,
        client_timeout_ns: 10_000_000_000,
        max_timer_age_ns: 1_800_000_000_000,
    }
}

/// Fast values for tests: 1 ms ticks, 10 ms heartbeats, 20 ms client
/// timeout, 100 ms idle timer age.
pub open spec fn testing_config() -> Config {
    Config {
        tick_interval_ns: 1_000_000,
        heartbeat_interval_ns: 10_000_000,
        client_timeout_ns: 20_000_000,
        max_timer_age_ns: 100_000_000,
    }
}

impl Default for Config {
    fn default() -> (config: Self)
        ensures
            config == default_config(),
    {
        Config {
            tick_interval_ns: 100_000_000,
            heartbeat_interval_ns: 5_000_000_000,
            client_timeout_ns: 10_000_000_000,
            max_timer_age_ns: 1_800_000_000_000,
        }
    }
}

impl Config {
    /// The configuration used by tests, with much shorter intervals.
    pub fn for_testing() -> (config: Self)
        ensures
            config == testing_config(),
    {
        Config {
            tick_interval_ns: 1_000_000,
            heartbeat_interval_ns: 10_000_000,
            client_timeout_ns: 20_000_000,
            max_timer_age_ns: 100_000_000,
        }
    }

    /// The part of the configuration that a timer reads.
    pub fn timer_config(&self) -> (c: TimerConfig)
        ensures
            c.tick_interval_ns == self.tick_interval_ns,
    {
        TimerConfig { tick_interval_ns: self.tick_interval_ns }
    }

    /// The part of the configuration that a connection handler reads.
    pub fn handler_config(&self) -> (c: HandlerConfig)
        ensures
            c.heartbeat_interval_ns == self.heartbeat_interval_ns,
            c.client_timeout_ns == self.client_timeout_ns,
    {
        HandlerConfig {
            heartbeat_interval_ns: self.heartbeat_interval_ns,
            client_timeout_ns: self.client_timeout_ns,
        }
    }

    /// The part of the configuration that the timer server reads.
    pub fn server_config(&self) -> (c: ServerConfig)
        ensures
            c.tick_interval_ns == self.tick_interval_ns,
            c.max_timer_age_ns == self.max_timer_age_ns,
    {
        ServerConfig {
            tick_interval_ns: self.tick_interval_ns,
            max_timer_age_ns: self.max_timer_age_ns,
        }
    }
}

/// Configuration of one timer: its tick interval in nanoseconds.
#[derive(Clone, Copy, Debug, PartialEq, Eq, Structural)]
pub struct TimerConfig {
    pub tick_interval_ns: u128,
}

/// Configuration of one WebSocket connection handler, in nanoseconds.
#[derive(Clone, Copy, Debug, PartialEq, Eq, Structural)]
pub struct HandlerConfig {
    pub heartbeat_interval_ns: u128,
    pub client_timeout_ns: u128,
}

/// Configuration of the timer server, in nanoseconds.
#[derive(Clone, Copy, Debug, PartialEq, Eq, Structural)]
pub struct ServerConfig {
    pub tick_interval_ns: u128,
    pub max_timer_age_ns: u128,
}

impl Default for TimerConfig {
    fn default() -> (c: Self)
        ensures
            c.tick_interval_ns == default_config().tick_interval_ns,
    {
        TimerConfig { tick_interval_ns: 100_000_000 }
    }
}

impl TimerConfig {
    pub fn for_testing() -> (c: Self)
        ensures
            c.tick_interval_ns == testing_config().tick_interval_ns,
    {
        TimerConfig { tick_interval_ns: 1_000_000 }
    }
}

impl Default for HandlerConfig {
    fn default() -> (c: Self)
        ensures
            c.heartbeat_interval_ns == default_config().heartbeat_interval_ns,
            c.client_timeout_ns == default_config().client_timeout_ns,
    {
        HandlerConfig { heartbeat_interval_ns: 5_000_000_000, client_timeout_ns: 10_000_000_000 }
    }
}

impl HandlerConfig {
    pub fn for_testing() -> (c: Self)
        ensures
            c.heartbeat_interval_ns == testing_config().heartbeat_interval_ns,
            c.client_timeout_ns == testing_config().client_timeout_ns,
    {
        HandlerConfig { heartbeat_interval_ns: 10_000_000, client_timeout_ns: 20_000_000 }
    }
}

impl Default for ServerConfig {
    fn default() -> (c: Self)
        ensures
            c.tick_interval_ns == default_config().tick_interval_ns,
            c.max_timer_age_ns == default_config().max_timer_age_ns,
    {
        ServerConfig { tick_interval_ns: 100_000_000, max_timer_age_ns: 1_800_000_000_000 }
    }
}

impl ServerConfig {
    pub fn for_testing() -> (c: Self)
        ensures
            c.tick_interval_ns == testing_config().tick_interval_ns,
            c.max_timer_age_ns == testing_config().max_timer_age_ns,
    {
        ServerConfig { tick_interval_ns: 1_000_000, max_timer_age_ns: 100_000_000 }
    }
}

} // verus!
