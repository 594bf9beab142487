use signal_pingpong::protocol::{CoordState, Coordinator, RespState, Responder, SignalKind};

#[test]
fn coordinator_single_round_summary_collapses() {
    // round_count = 1, payload_size = 1: one summary, average == min == max
    let mut c = Coordinator::new(1);
    assert_eq!(c.state(), CoordState::AwaitingHandshake);
    c.on_handshake(1_000);
    assert_eq!(c.state(), CoordState::Pinging);
    let kind = c.send_ping(1_100);
    assert_eq!(kind, SignalKind::Ping);
    let more = c.on_echo(1_175);
    assert!(!more);
    assert_eq!(c.state(), CoordState::Finalizing);
    let s = c.finalize(1_300, 1);
    assert_eq!(s.count, 1);
    assert_eq!(s.average_ns, 75);
    assert_eq!(s.minimum_ns, 75);
    assert_eq!(s.maximum_ns, 75);
    assert_eq!(s.variance_ns2, 0);
    assert!(c.is_done());
}

#[test]
fn coordinator_completes_after_exactly_n_rounds() {
    let n = 3usize;
    let mut c = Coordinator::new(n);
    c.on_handshake(0);
    let mut now = 0u64;
    let mut completed = 0usize;
    loop {
        now += 10;
        c.send_ping(now);
        assert_eq!(c.state(), CoordState::AwaitingEcho);
        now += 5;
        let more = c.on_echo(now);
        completed += 1;
        // never done before the configured count, done exactly at it
        if completed < n {
            assert!(more);
            assert_eq!(c.state(), CoordState::Pinging);
        } else {
            assert!(!more);
            assert_eq!(c.state(), CoordState::Finalizing);
            break;
        }
    }
    assert_eq!(completed, n);
    let s = c.finalize(now, 4);
    assert_eq!(s.count, n);
    assert!(c.is_done());
}

#[test]
fn coordinator_awaits_handshake_kind_for_echoes_too() {
    let mut c = Coordinator::new(2);
    assert_eq!(c.awaited_kind(), Some(SignalKind::Handshake));
    c.on_handshake(0);
    assert_eq!(c.awaited_kind(), None);
    c.send_ping(1);
    // the echo reuses the handshake kind
    assert_eq!(c.awaited_kind(), Some(SignalKind::Handshake));
}

#[test]
fn coordinator_without_echo_stays_waiting() {
    // the responder never echoes: the machine sits in AwaitingEcho,
    // neither crashing nor completing spuriously
    let mut c = Coordinator::new(1);
    c.on_handshake(0);
    c.send_ping(10);
    assert_eq!(c.state(), CoordState::AwaitingEcho);
    assert!(!c.is_done());
    assert_eq!(c.awaited_kind(), Some(SignalKind::Handshake));
}

#[test]
fn responder_echoes_exactly_n_times() {
    let n = 4usize;
    let mut r = Responder::new(n);
    assert_eq!(r.state(), RespState::Start);
    let hk = r.send_handshake();
    assert_eq!(hk, SignalKind::Handshake);
    let mut echoes = 0usize;
    loop {
        assert_eq!(r.state(), RespState::AwaitingPing);
        assert_eq!(r.awaited_kind(), Some(SignalKind::Ping));
        r.on_ping();
        assert_eq!(r.state(), RespState::Echoing);
        let (kind, more) = r.send_echo();
        assert_eq!(kind, SignalKind::Handshake);
        echoes += 1;
        if echoes < n {
            assert!(more);
        } else {
            assert!(!more);
            break;
        }
    }
    assert_eq!(echoes, n);
    assert_eq!(r.echoes_sent, n);
    assert!(r.is_done());
    assert_eq!(r.awaited_kind(), None);
}

#[test]
fn responder_single_round() {
    let mut r = Responder::new(1);
    r.send_handshake();
    r.on_ping();
    let (kind, more) = r.send_echo();
    assert_eq!(kind, SignalKind::Handshake);
    assert!(!more);
    assert_eq!(r.echoes_sent, 1);
    assert!(r.is_done());
}

#[test]
fn matched_roles_agree_on_round_count() {
    // both roles driven by the same configured count, delivered promptly:
    // the coordinator records exactly as many rounds as the responder echoes
    let n = 5usize;
    let mut c = Coordinator::new(n);
    let mut r = Responder::new(n);
    let mut now = 0u64;
    // handshake
    let hk = r.send_handshake();
    assert_eq!(hk, SignalKind::Handshake);
    c.on_handshake(now);
    loop {
        now += 7;
        let ping = c.send_ping(now);
        assert_eq!(ping, SignalKind::Ping);
        r.on_ping();
        let (echo, r_more) = r.send_echo();
        assert_eq!(echo, SignalKind::Handshake);
        now += 3;
        let c_more = c.on_echo(now);
        assert_eq!(c_more, r_more);
        if !c_more {
            break;
        }
    }
    assert!(r.is_done());
    let s = c.finalize(now, 1);
    assert_eq!(s.count, n);
    assert_eq!(r.echoes_sent, n);
}
