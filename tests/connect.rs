use port_cat::connect::{ConnectError, ConnectSession, ConnectStep, ConnectionInfo};
use port_cat::service::Service;

fn info(port: u16) -> ConnectionInfo {
    ConnectionInfo {
        host: "localhost".to_string(),
        port,
        timeout_secs: 5,
        recv_buffer_size: None,
        send_buffer_size: None,
        keepalive: None,
        reuse_address: None,
        remote_ip: "127.0.0.1".to_string(),
        remote_port: port,
        service: Some(Service::Http),
    }
}

#[test]
fn failure_stops_later_ports() {
    let mut s = ConnectSession::new(vec![80, 443, 8080]);
    assert_eq!(s.step(), ConnectStep::Attempt(80));
    s.connected(info(80));
    assert_eq!(s.step(), ConnectStep::Attempt(443));
    let err = ConnectError::Unreachable {
        address: "localhost:443".to_string(),
        reason: "connection refused".to_string(),
    };
    s.failed(err.clone());
    assert_eq!(s.step(), ConnectStep::Finished);
    assert_eq!(s.finish(), Err(err));
}

#[test]
fn resolution_failure_ends_at_once() {
    let mut s = ConnectSession::new(vec![22, 80]);
    let err = ConnectError::Resolution {
        address: "nohost.invalid:22".to_string(),
        reason: "failed to lookup address".to_string(),
    };
    s.failed(err.clone());
    assert_eq!(s.step(), ConnectStep::Finished);
    assert_eq!(s.finish(), Err(err));
}

#[test]
fn all_ports_connect() {
    let mut s = ConnectSession::new(vec![80, 443]);
    while let ConnectStep::Attempt(p) = s.step() {
        s.connected(info(p));
    }
    let records = s.finish().unwrap();
    assert_eq!(records, vec![info(80), info(443)]);
}

#[test]
fn no_ports_means_no_records() {
    let s = ConnectSession::new(Vec::new());
    assert_eq!(s.step(), ConnectStep::Finished);
    assert_eq!(s.finish(), Ok(Vec::new()));
}
