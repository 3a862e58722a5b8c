use actuality::config::server::usize_to_string;
use actuality::config::server::Server;

#[test]
fn config_server_string() {
    let server = Server::new();
    assert_eq!(server.to_string(), " --addr 0.0.0.0 --port 4222")
}

#[test]
fn config_server_defaults() {
    let server = Server::default();
    assert_eq!(server.addr, "0.0.0.0".to_string());
    assert_eq!(server.client_advertise, None);
    assert_eq!(server.config, None);
    assert_eq!(server.http_port, None);
    assert_eq!(server.https_port, None);
    assert_eq!(server.pid, None);
    assert_eq!(server.port, 4222);
}

#[test]
fn renders_numbers_in_decimal() {
    assert_eq!(usize_to_string(0).as_str(), "0");
    assert_eq!(usize_to_string(7).as_str(), "7");
    assert_eq!(usize_to_string(10).as_str(), "10");
    assert_eq!(usize_to_string(4222).as_str(), "4222");
    assert_eq!(usize_to_string(1000000).as_str(), "1000000");
    assert_eq!(usize_to_string(usize::MAX).as_str(), format!("{}", usize::MAX).as_str());
}

#[test]
fn renders_optional_flags_in_fixed_order() {
    let mut server = Server::new();
    server.pid = Some("/var/run/broker.pid".to_string());
    server.http_port = Some("8222".to_string());
    assert_eq!(
        server.to_string(),
        " --addr 0.0.0.0 --http_port 8222 --pid /var/run/broker.pid --port 4222"
    );
}
