use port_cat::scan::{collect_open, OpenPort, PortReport, ProbeOutcome};
use port_cat::service::Service;

fn report(port: u16, outcome: ProbeOutcome) -> PortReport {
    PortReport { port, outcome }
}

#[test]
fn only_open_ports_are_listed_in_order() {
    let reports = vec![
        report(443, ProbeOutcome::Open { service: Some(Service::Http) }),
        report(21, ProbeOutcome::Closed),
        report(22, ProbeOutcome::Open { service: Some(Service::Ssh) }),
        report(23, ProbeOutcome::ResolutionFailed("no such host".to_string())),
        report(80, ProbeOutcome::Open { service: None }),
    ];
    assert_eq!(
        collect_open(&reports),
        vec![
            OpenPort { port: 22, service: Some(Service::Ssh) },
            OpenPort { port: 80, service: None },
            OpenPort { port: 443, service: Some(Service::Http) },
        ]
    );
}

#[test]
fn no_open_ports() {
    assert!(collect_open(&Vec::new()).is_empty());
    let reports = vec![report(1, ProbeOutcome::Closed), report(2, ProbeOutcome::Closed)];
    assert!(collect_open(&reports).is_empty());
}

#[test]
fn repeated_port_is_listed_once() {
    let reports = vec![
        report(8080, ProbeOutcome::Closed),
        report(8080, ProbeOutcome::Open { service: Some(Service::Redis) }),
        report(8080, ProbeOutcome::Open { service: Some(Service::Http) }),
    ];
    assert_eq!(
        collect_open(&reports),
        vec![OpenPort { port: 8080, service: Some(Service::Redis) }]
    );
}

#[test]
fn extreme_ports() {
    let reports = vec![
        report(65535, ProbeOutcome::Open { service: None }),
        report(0, ProbeOutcome::Open { service: Some(Service::Unknown) }),
    ];
    assert_eq!(
        collect_open(&reports),
        vec![
            OpenPort { port: 0, service: Some(Service::Unknown) },
            OpenPort { port: 65535, service: None },
        ]
    );
}
