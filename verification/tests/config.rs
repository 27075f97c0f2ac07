use timer_api::config::{Config, HandlerConfig, ServerConfig, TimerConfig};

const MS: u128 = 1_000_000;

#[test]
fn default_config() {
    let config = Config::default();
    assert_eq!(config.tick_interval_ns, 100 * MS);
    assert_eq!(config.heartbeat_interval_ns, 5 * 1000 * MS);
    assert_eq!(config.client_timeout_ns, 10 * 1000 * MS);
    assert_eq!(config.max_timer_age_ns, 30 * 60 * 1000 * MS);
}

#[test]
fn testing_config_is_fast() {
    let config = Config::for_testing();
    assert_eq!(config.tick_interval_ns, MS);
    assert_eq!(config.heartbeat_interval_ns, 10 * MS);
    assert_eq!(config.client_timeout_ns, 20 * MS);
    assert_eq!(config.max_timer_age_ns, 100 * MS);
}

#[test]
fn config_parts_agree() {
    let config = Config::default();
    assert_eq!(config.timer_config(), TimerConfig::default());
    assert_eq!(config.handler_config(), HandlerConfig::default());
    assert_eq!(config.server_config(), ServerConfig::default());
    let fast = Config::for_testing();
    assert_eq!(fast.timer_config(), TimerConfig::for_testing());
    assert_eq!(fast.handler_config(), HandlerConfig::for_testing());
    assert_eq!(fast.server_config(), ServerConfig::for_testing());
}

#[test]
fn sub_millisecond_durations_are_kept() {
    let config = Config { tick_interval_ns: 250_000, ..Config::for_testing() };
    assert_eq!(config.timer_config().tick_interval_ns, 250_000);
}
