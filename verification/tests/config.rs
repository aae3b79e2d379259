use backend::config::{
    connect_timeout, extensions, idle_timeout, max_connections, min_connections, Connections,
    DBConfig, ServerConfig, Timeouts,
};

#[test]
fn connection_defaults() {
    assert_eq!(min_connections(), None);
    assert_eq!(max_connections(), 1024);
    assert_eq!(Connections::default(), Connections { min: None, max: 1024 });
}

#[test]
fn timeout_defaults() {
    assert_eq!(connect_timeout(), 3);
    assert_eq!(idle_timeout(), None);
    assert_eq!(Timeouts::default(), Timeouts { connect: 3, idle: None });
}

#[test]
fn no_extensions_by_default() {
    assert_eq!(extensions(), None);
}

#[test]
fn server_config_holds_both_stores_and_the_secret() {
    let store = DBConfig {
        host: "postgres://localhost/users".to_owned(),
        connections: Connections::default(),
        timeout: Timeouts::default(),
        extensions: extensions(),
    };
    let config = ServerConfig { blog: store.clone(), users: store.clone(), secret: "s".to_owned() };
    assert_eq!(config.blog, config.users);
    assert_eq!(config.users.connections.max, 1024);
    assert_eq!(config.users.timeout.connect, 3);
    assert_eq!(config.secret, "s");
}
