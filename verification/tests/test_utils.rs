use timer_api::config::{HandlerConfig, ServerConfig, TimerConfig};
use tokio::sync::mpsc;

/// The testing configurations for timer, handler and server.
fn fast_configs() -> (TimerConfig, HandlerConfig, ServerConfig) {
    (
        TimerConfig::for_testing(),
        HandlerConfig::for_testing(),
        ServerConfig::for_testing(),
    )
}

/// A pair of unbounded channels for passing messages in tests.
fn create_test_channels<T>() -> (mpsc::UnboundedSender<T>, mpsc::UnboundedReceiver<T>) {
    mpsc::unbounded_channel()
}

#[test]
fn fast_configs_returns_testing_configs() {
    let (timer_config, handler_config, server_config) = fast_configs();

    assert_eq!(timer_config, TimerConfig::for_testing());
    assert_eq!(handler_config, HandlerConfig::for_testing());
    assert_eq!(server_config, ServerConfig::for_testing());
}

#[test]
fn create_test_channels_works() {
    let (tx, mut rx) = create_test_channels::<i32>();

    tx.send(42).unwrap();
    let received = rx.try_recv().unwrap();
    assert_eq!(received, 42);
}
