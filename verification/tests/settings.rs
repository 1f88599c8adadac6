use demo_observe_rs::service::ServerState;
use demo_observe_rs::settings::{push_number, Settings};

#[test]
fn standard_settings_are_loopback_3000() {
    let s = Settings::standard();
    assert_eq!(s.host, "127.0.0.1");
    assert_eq!(s.port, 3000);
    assert_eq!(s.address(), "127.0.0.1:3000");
    assert_eq!(s.health_url(), "http://localhost:3000/health");
}

#[test]
fn address_joins_host_and_port() {
    let s = Settings { host: "0.0.0.0".to_string(), port: 8080 };
    assert_eq!(s.address(), "0.0.0.0:8080");
    let s = Settings { host: String::new(), port: 0 };
    assert_eq!(s.address(), ":0");
    assert_eq!(s.health_url(), "http://localhost:0/health");
}

#[test]
fn a_negative_port_is_written_with_its_sign() {
    let s = Settings { host: "h".to_string(), port: -1 };
    assert_eq!(s.address(), "h:-1");
    let s = Settings { host: "h".to_string(), port: i32::MIN };
    assert_eq!(s.address(), "h:-2147483648");
    let s = Settings { host: "h".to_string(), port: i32::MAX };
    assert_eq!(s.health_url(), "http://localhost:2147483647/health");
}

#[test]
fn push_number_appends_decimal_digits() {
    for n in [0, 7, 10, 99, 100, 3000, 65535, -5, -10, -120] {
        let mut out = String::from("x");
        push_number(&mut out, n);
        assert_eq!(out, format!("x{}", n));
    }
}

#[test]
fn settings_and_server_state_can_be_cloned() {
    let state = ServerState { settings: Settings { host: "h".to_string(), port: 42 } };
    let copy = state.clone();
    assert_eq!(copy.settings.host, "h");
    assert_eq!(copy.settings.port, 42);
}
