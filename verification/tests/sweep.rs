use subdomain_scanner::hostname::Subdomain;
use subdomain_scanner::ports::{popular_ports, CONNECT_TIMEOUT_SECS, POPULAR_PORTS, PORT_COUNT};
use subdomain_scanner::probe::{ProbeResult, ProbeTarget, ResolutionFailure, SocketAddress};
use subdomain_scanner::report::{Line, Stream};
use subdomain_scanner::sweep::{Action, Event, Phase, Step, Sweep, SweepError};

const LOOPBACK: u32 = 0x7f00_0001;

fn addr(port: u16) -> SocketAddress {
    SocketAddress::V4 { ip: LOOPBACK, port }
}

fn start(host: &str) -> (Sweep, Step) {
    Sweep::start(Subdomain::new(host.to_string()))
}

/// Drives a sweep to its end. `open` says which ports accept a connection;
/// every host resolves to the loopback address.
fn drive(host: &str, open: &[u16]) -> (Vec<u16>, Vec<u16>, Vec<Line>) {
    let (mut sweep, first) = start(host);
    let mut resolved = Vec::new();
    let mut connected = Vec::new();
    let mut lines = Vec::new();
    let mut step = first;
    loop {
        lines.extend(step.line.clone());
        let event = match step.action {
            Action::Resolve(target) => {
                resolved.push(target.port);
                Event::Resolved(Ok(vec![addr(target.port)]))
            }
            Action::Connect { addr: SocketAddress::V4 { port, .. }, .. } => {
                connected.push(port);
                if open.contains(&port) {
                    Event::Connected(Ok(()))
                } else {
                    Event::Connected(Err("connection refused".to_string()))
                }
            }
            Action::Connect { .. } => unreachable!(),
            Action::Finish => break,
        };
        step = sweep.step(event).unwrap();
    }
    assert!(sweep.is_finished());
    (resolved, connected, lines)
}

#[test]
fn port_list_is_the_fixed_one() {
    assert_eq!(POPULAR_PORTS, [80, 443, 22, 21, 25, 3306, 8080, 8443]);
    assert_eq!(popular_ports(), vec![80, 443, 22, 21, 25, 3306, 8080, 8443]);
    assert_eq!(PORT_COUNT, 8);
}

#[test]
fn timeout_is_one_second() {
    assert_eq!(CONNECT_TIMEOUT_SECS, 1);
    let (mut sweep, _) = start("localhost");
    let step = sweep.step(Event::Resolved(Ok(vec![addr(80)]))).unwrap();
    assert_eq!(step.action, Action::Connect { addr: addr(80), timeout_secs: 1 });
}

#[test]
fn admitted_host_begins_with_the_first_port() {
    let (sweep, first) = start("a.example.com");
    assert_eq!(sweep.phase(), Phase::Resolving);
    assert!(!sweep.is_finished());
    assert_eq!(sweep.host().as_str(), "a.example.com");
    assert_eq!(
        sweep.target(),
        Some(ProbeTarget { host: Subdomain::new("a.example.com".to_string()), port: 80 })
    );
    assert_eq!(
        first,
        Step {
            result: None,
            line: None,
            action: Action::Resolve(ProbeTarget {
                host: Subdomain::new("a.example.com".to_string()),
                port: 80
            })
        }
    );
}

#[test]
fn wildcard_host_is_skipped_without_a_probe() {
    for name in ["*.example.com", "a?b.example.com"] {
        let (mut sweep, first) = start(name);
        assert!(sweep.is_finished());
        assert_eq!(sweep.phase(), Phase::Finished);
        assert_eq!(sweep.target(), None);
        assert_eq!(
            first,
            Step {
                result: Some(ProbeResult::Skipped("wildcard/invalid character".to_string())),
                line: Some(Line {
                    stream: Stream::Diagnostic,
                    text: format!("Skipping invalid subdomain: {}", name)
                }),
                action: Action::Finish
            }
        );
        assert_eq!(sweep.step(Event::Resolved(Ok(vec![addr(80)]))), Err(SweepError::UnexpectedEvent));
        assert_eq!(sweep.step(Event::Connected(Ok(()))), Err(SweepError::UnexpectedEvent));
        assert!(sweep.is_finished());
    }
}

#[test]
fn every_port_is_touched_exactly_once() {
    let (resolved, connected, _) = drive("a.example.com", &[]);
    assert_eq!(resolved, vec![80, 443, 22, 21, 25, 3306, 8080, 8443]);
    assert_eq!(connected, vec![80, 443, 22, 21, 25, 3306, 8080, 8443]);
}

#[test]
fn open_ports_do_not_end_the_sweep_early() {
    let (resolved, connected, lines) = drive("a.example.com", &[80, 443]);
    assert_eq!(resolved, POPULAR_PORTS.to_vec());
    assert_eq!(connected, POPULAR_PORTS.to_vec());
    assert_eq!(lines.len(), 2);
}

#[test]
fn outcomes_do_not_change_the_ports_attempted() {
    let all_closed = drive("a.example.com", &[]);
    let all_open = drive("a.example.com", &POPULAR_PORTS);
    let some_open = drive("a.example.com", &[22, 8443]);
    assert_eq!(all_closed.0, all_open.0);
    assert_eq!(all_closed.0, some_open.0);
    let other_host = drive("b.example.com", &[3306]);
    assert_eq!(other_host.0, all_closed.0);
    assert_eq!(all_open.2.len(), 8);
    assert_eq!(some_open.2.len(), 2);
    assert_eq!(all_closed.2.len(), 0);
}

#[test]
fn open_port_settles_with_its_line_and_moves_on() {
    let (mut sweep, _) = start("a.example.com");
    sweep.step(Event::Resolved(Ok(vec![addr(80)]))).unwrap();
    assert_eq!(sweep.phase(), Phase::Connecting);
    let step = sweep.step(Event::Connected(Ok(()))).unwrap();
    assert_eq!(
        step,
        Step {
            result: Some(ProbeResult::Open),
            line: Some(Line {
                stream: Stream::Standard,
                text: "Open port found: a.example.com:80".to_string()
            }),
            action: Action::Resolve(ProbeTarget {
                host: Subdomain::new("a.example.com".to_string()),
                port: 443
            })
        }
    );
    assert_eq!(sweep.phase(), Phase::Resolving);
}

#[test]
fn closed_port_settles_silently_and_moves_on() {
    let (mut sweep, _) = start("a.example.com");
    sweep.step(Event::Resolved(Ok(vec![addr(80)]))).unwrap();
    let step = sweep.step(Event::Connected(Err("timed out".to_string()))).unwrap();
    assert_eq!(step.result, Some(ProbeResult::Closed));
    assert_eq!(step.line, None);
    assert_eq!(
        step.action,
        Action::Resolve(ProbeTarget { host: Subdomain::new("a.example.com".to_string()), port: 443 })
    );
}

#[test]
fn failed_resolution_settles_with_a_diagnostic_and_moves_on() {
    let (mut sweep, _) = start("nowhere.invalid");
    let step = sweep.step(Event::Resolved(Err("no such host".to_string()))).unwrap();
    assert_eq!(
        step,
        Step {
            result: Some(ProbeResult::ResolutionFailed(ResolutionFailure {
                host: "nowhere.invalid".to_string(),
                port: 80,
                cause: "no such host".to_string()
            })),
            line: Some(Line {
                stream: Stream::Diagnostic,
                text: "Failed to resolve address nowhere.invalid:80: no such host".to_string()
            }),
            action: Action::Resolve(ProbeTarget {
                host: Subdomain::new("nowhere.invalid".to_string()),
                port: 443
            })
        }
    );
}

#[test]
fn resolution_without_addresses_is_a_failed_resolution() {
    let (mut sweep, _) = start("empty.example.com");
    let step = sweep.step(Event::Resolved(Ok(Vec::new()))).unwrap();
    assert_eq!(
        step.line,
        Some(Line {
            stream: Stream::Diagnostic,
            text: "Failed to resolve address empty.example.com:80: no addresses found".to_string()
        })
    );
    assert_eq!(sweep.phase(), Phase::Resolving);
    assert_eq!(sweep.target().unwrap().port, 443);
}

#[test]
fn connection_goes_to_the_first_address() {
    let (mut sweep, _) = start("a.example.com");
    let v6 = SocketAddress::V6 { ip: 1, port: 80, flowinfo: 0, scope_id: 0 };
    let step = sweep.step(Event::Resolved(Ok(vec![v6, addr(80)]))).unwrap();
    assert_eq!(step.result, None);
    assert_eq!(step.line, None);
    assert_eq!(step.action, Action::Connect { addr: v6, timeout_secs: 1 });
}

#[test]
fn unexpected_event_is_refused_and_changes_nothing() {
    let (mut sweep, _) = start("a.example.com");
    assert_eq!(sweep.step(Event::Connected(Ok(()))), Err(SweepError::UnexpectedEvent));
    assert_eq!(sweep.phase(), Phase::Resolving);
    assert_eq!(sweep.target().unwrap().port, 80);
    sweep.step(Event::Resolved(Ok(vec![addr(80)]))).unwrap();
    assert_eq!(sweep.step(Event::Resolved(Ok(vec![addr(80)]))), Err(SweepError::UnexpectedEvent));
    assert_eq!(sweep.phase(), Phase::Connecting);
    assert_eq!(sweep.target().unwrap().port, 80);
}

#[test]
fn finished_sweep_refuses_every_event() {
    let (mut sweep, mut step) = start("a.example.com");
    let mut events = 0;
    while step.action != Action::Finish {
        step = sweep.step(Event::Resolved(Err("down".to_string()))).unwrap();
        events += 1;
    }
    assert_eq!(events, 8);
    assert!(sweep.is_finished());
    assert_eq!(sweep.target(), None);
    assert_eq!(sweep.step(Event::Resolved(Err("down".to_string()))), Err(SweepError::UnexpectedEvent));
    assert_eq!(sweep.step(Event::Connected(Ok(()))), Err(SweepError::UnexpectedEvent));
}

#[test]
fn sweep_ends_after_two_events_for_each_port_at_most() {
    let (mut sweep, mut step) = start("a.example.com");
    let mut events = 0;
    while step.action != Action::Finish {
        let event = match step.action {
            Action::Resolve(target) => Event::Resolved(Ok(vec![addr(target.port)])),
            _ => Event::Connected(Ok(())),
        };
        step = sweep.step(event).unwrap();
        events += 1;
    }
    assert_eq!(events, 16);
}

#[test]
fn empty_hostname_is_swept_like_any_other() {
    let (sweep, first) = start("");
    assert_eq!(sweep.phase(), Phase::Resolving);
    assert_eq!(
        first.action,
        Action::Resolve(ProbeTarget { host: Subdomain::new(String::new()), port: 80 })
    );
}
