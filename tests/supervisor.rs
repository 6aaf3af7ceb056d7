use sidecar_bridge::bridge::{finish_request, interpret_response, plan_get, BridgeError, ResponseParts};
use sidecar_bridge::supervisor::{
    launch_order, script_path, Launch, Probe, ScriptLocation, SidecarSlot, BUNDLED_EXECUTABLE,
    DEV_SCRIPT, DEV_SCRIPT_FALLBACK, SCRIPT_INTERPRETER,
};

fn probe(bundled: bool, primary: bool, fallback: bool) -> Probe {
    Probe {
        bundled_present: bundled,
        primary_script_present: primary,
        fallback_script_present: fallback,
    }
}

#[test]
fn bundled_executable_comes_first() {
    assert_eq!(
        launch_order(&probe(true, true, true)),
        vec![Launch::Bundled, Launch::Script(ScriptLocation::Primary)]
    );
    assert_eq!(launch_order(&probe(true, false, false)), vec![Launch::Bundled]);
}

#[test]
fn primary_script_is_preferred_to_fallback() {
    assert_eq!(
        launch_order(&probe(false, true, true)),
        vec![Launch::Script(ScriptLocation::Primary)]
    );
    assert_eq!(
        launch_order(&probe(false, false, true)),
        vec![Launch::Script(ScriptLocation::Fallback)]
    );
    assert_eq!(
        launch_order(&probe(true, false, true)),
        vec![Launch::Bundled, Launch::Script(ScriptLocation::Fallback)]
    );
}

#[test]
fn candidate_paths() {
    assert_eq!(script_path(ScriptLocation::Primary), "python/sidecar.py");
    assert_eq!(script_path(ScriptLocation::Fallback), "../python/sidecar.py");
    assert_eq!(DEV_SCRIPT, "python/sidecar.py");
    assert_eq!(DEV_SCRIPT_FALLBACK, "../python/sidecar.py");
    assert_eq!(BUNDLED_EXECUTABLE, "ovelo_server.exe");
    assert_eq!(SCRIPT_INTERPRETER, "python");
}

#[test]
fn new_slot_is_idle() {
    let slot: SidecarSlot<u32> = SidecarSlot::new();
    assert!(!slot.is_running());
}

#[test]
fn stop_when_idle_does_nothing() {
    let mut slot: SidecarSlot<u32> = SidecarSlot::new();
    assert_eq!(slot.release(), None);
    assert!(!slot.is_running());
    assert_eq!(slot.release(), None);
}

#[test]
fn start_hands_back_the_previous_worker() {
    let mut slot: SidecarSlot<u32> = SidecarSlot::new();
    assert_eq!(slot.track(11), None);
    assert!(slot.is_running());
    assert_eq!(slot.track(12), Some(11));
    assert_eq!(slot.track(13), Some(12));
    assert_eq!(slot.release(), Some(13));
    assert!(!slot.is_running());
}

#[test]
fn every_started_worker_is_handed_back_once() {
    let mut slot: SidecarSlot<u32> = SidecarSlot::new();
    let mut handed_back = Vec::new();
    for (i, op) in [true, true, false, false, true, true, true, false].iter().enumerate() {
        let out = if *op { slot.track(i as u32) } else { slot.release() };
        if let Some(h) = out {
            handed_back.push(h);
        }
    }
    assert_eq!(handed_back, vec![0, 1, 4, 5, 6]);
    assert!(!slot.is_running());
}

#[test]
fn nothing_found_leaves_nothing_tracked_and_calls_fail_in_transport() {
    let order = launch_order(&probe(false, false, false));
    assert!(order.is_empty());
    let slot: SidecarSlot<u32> = SidecarSlot::new();
    assert!(!slot.is_running());
    let plan = plan_get("/today_state");
    assert_eq!(plan.url, "http://127.0.0.1:5006/today_state");
    let r = finish_request(Err("connection refused".to_string()));
    assert!(matches!(r, Err(BridgeError::Transport(_))));
}

#[test]
fn started_dev_script_serves_payload_unchanged() {
    let order = launch_order(&probe(false, true, false));
    assert_eq!(order, vec![Launch::Script(ScriptLocation::Primary)]);
    let mut slot: SidecarSlot<u32> = SidecarSlot::new();
    assert_eq!(slot.track(4242), None);
    let payload = "{\"date\":\"2024-01-01\",\"minutes\":[1,2,3]}";
    let parts = ResponseParts { status: 200, content_length: Some(payload.len() as u64), body: Some(payload.as_bytes().to_vec()) };
    let r = interpret_response(parts).unwrap();
    let expected: serde_json::Value = serde_json::from_str(payload).unwrap();
    assert_eq!(r, expected);
}

#[test]
fn stop_then_request_is_a_transport_error() {
    let mut slot: SidecarSlot<u32> = SidecarSlot::new();
    slot.track(7);
    assert_eq!(slot.release(), Some(7));
    assert!(!slot.is_running());
    let r = finish_request(Err("connection refused".to_string()));
    match r {
        Err(e) => {
            assert!(matches!(e, BridgeError::Transport(_)));
            assert_eq!(e.message(), "connection refused");
        }
        Ok(v) => panic!("unexpected {}", v),
    }
}
