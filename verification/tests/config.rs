use pingpong::config::{
    connection_sweep, Model, SocketOptions, DEFAULT_CLIENTS, STANDALONE_EXCHANGES,
    STANDALONE_PORT,
};

#[test]
fn sweep_doubles_from_one_to_sixty_four() {
    assert_eq!(connection_sweep(), vec![1, 2, 4, 8, 16, 32, 64]);
    assert_eq!(connection_sweep().len(), 7);
}

#[test]
fn standalone_defaults() {
    assert_eq!(STANDALONE_PORT, 3000);
    assert_eq!(STANDALONE_EXCHANGES, 1_000_000);
    assert_eq!(DEFAULT_CLIENTS, 1);
}

#[test]
fn both_sides_switch_off_send_coalescing() {
    assert_eq!(SocketOptions::client(), SocketOptions { no_delay: true, quick_ack: false });
    assert_eq!(SocketOptions::server(false), SocketOptions { no_delay: true, quick_ack: false });
    assert_eq!(SocketOptions::server(true), SocketOptions { no_delay: true, quick_ack: true });
}

#[test]
fn models_are_distinct() {
    assert_ne!(Model::ThreadPerConnection, Model::EventLoop);
}
