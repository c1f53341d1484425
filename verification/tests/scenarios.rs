//! End-to-end walks of the engine's decision surface, with the socket work
//! that an embedding application would do stood in by plain values: a
//! client's outbound half is a small integer, and each write's outcome is
//! supplied explicitly.

use ws_engine::connection::{conn_step, register_client, ConnAction, ConnEvent, ConnPhase};
use ws_engine::dispatch::{broadcast_report, lookup_target, route_outbound, unicast_report, OutboundRoute};
use ws_engine::server::{accept_step, AcceptDecision, AcceptEvent, EngineCore};

#[test]
fn one_client_ping_pong_then_disconnect() {
    // start: the bind succeeded and the accept loop runs.
    let mut eng: EngineCore<u32> = EngineCore::new();
    eng.on_bind_result(true).expect("server started");

    // One connection arrives.
    assert!(matches!(accept_step(eng.running, &AcceptEvent::Incoming), AcceptDecision::SpawnHandler));
    let (phase, action) = conn_step(&ConnPhase::Handshaking, &ConnEvent::HandshakeOk);
    assert!(matches!(action, ConnAction::Register));
    let (id, evicted) = register_client(&mut eng.registry, "127.0.0.1:50000".to_string(), 1);
    assert!(evicted.is_none());
    assert_eq!(eng.registry.len(), 1);

    // The client sends "ping": the frame is forwarded to the host tagged
    // with the client id.
    let inbound = "ping".to_string();
    let (phase, action) = conn_step(&phase, &ConnEvent::TextFrame);
    assert!(matches!(action, ConnAction::ForwardText));
    let host_saw = (id.clone(), inbound);
    assert_eq!(host_saw.1, "ping");

    // The host answers "pong" to that id: unicast resolves the client and
    // the (successful) write is reported as Ok.
    match route_outbound(&Some(host_saw.0.clone())) {
        OutboundRoute::ToClient(target) => {
            let client = lookup_target(&eng.registry, &target).expect("client is registered");
            assert_eq!(client.sender, 1);
            assert!(unicast_report(true).is_ok());
        }
        OutboundRoute::ToAll => panic!("a selected id routes unicast"),
    }

    // The client disconnects: the close path removes it and the host hears
    // of the disconnect exactly once.
    let (phase, action) = conn_step(&phase, &ConnEvent::CloseFrame);
    assert!(matches!(phase, ConnPhase::Closing));
    assert!(matches!(action, ConnAction::Deregister));
    let removed = eng.registry.remove(&id).expect("still registered");
    assert_eq!(removed.id, id);
    assert_eq!(eng.registry.len(), 0);
    let (phase, _) = conn_step(&phase, &ConnEvent::CleanupDone);
    assert!(matches!(phase, ConnPhase::Closed));
}

#[test]
fn three_clients_broadcast_then_stop() {
    let mut eng: EngineCore<u32> = EngineCore::new();
    eng.on_bind_result(true).expect("server started");

    // Three clients connect.
    let mut ids = Vec::new();
    for k in 0..3u32 {
        let (id, evicted) =
            register_client(&mut eng.registry, format!("127.0.0.1:{}", 50000 + k), k);
        assert!(evicted.is_none());
        ids.push(id);
    }
    assert_eq!(eng.registry.len(), 3);

    // broadcast "hi": the snapshot covers all three, every write succeeds,
    // so all three received it and the report is Ok.
    assert!(matches!(route_outbound(&None), OutboundRoute::ToAll));
    let snapshot = eng.registry.list();
    assert_eq!(snapshot.len(), 3);
    let mut attempts = Vec::new();
    for (id, _addr) in snapshot {
        let client = lookup_target(&eng.registry, &id).expect("snapshot id is registered");
        let delivered = ("hi", client.sender);
        attempts.push((id, delivered.0 == "hi"));
    }
    assert!(broadcast_report(&attempts).is_ok());

    // stop: every socket is handed out for its close frame, the registry is
    // cleared, and the accept loop's next check exits it.
    let to_close = eng.stop();
    assert_eq!(to_close.len(), 3);
    for c in &to_close {
        assert!(ids.contains(&c.id));
    }
    assert_eq!(eng.registry.len(), 0);
    assert!(matches!(accept_step(eng.running, &AcceptEvent::PollTick), AcceptDecision::Exit));

    // Each handler's close path now finds its entry already gone and
    // tolerates that.
    for id in &ids {
        assert!(eng.registry.remove(id).is_none());
    }
}
