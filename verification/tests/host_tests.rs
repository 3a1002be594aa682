use module_host::api::{get_health, get_lib_health, get_service_stats, has_native_runner,
    has_runner, lock_error_response, thunder_response, u64_to_string};
use module_host::persistency::{new_memory_store, read_value};
use module_host::store::StateStore;
use module_host::supervisor::{complete_native_invocation, complete_runner_invocation,
    record_native_probe, record_worker_probe};

#[test]
fn decimal_rendering_is_exact() {
    assert_eq!(u64_to_string(0), "0");
    assert_eq!(u64_to_string(7), "7");
    assert_eq!(u64_to_string(42), "42");
    assert_eq!(u64_to_string(1234567890), "1234567890");
    assert_eq!(u64_to_string(u64::MAX), "18446744073709551615");
}

#[test]
fn each_module_lands_in_exactly_one_map() {
    let mut store = StateStore::new();
    store.register_worker("w.wasm".to_string());
    store.register_native_worker("n.so".to_string(), true);
    store.register_runner("r_run.wasm".to_string(), 0);
    store.register_native_runner("m_run.so".to_string(), 0, true);

    assert!(store.worker_states.contains_key("w.wasm"));
    assert!(!store.native_worker_states.contains_key("w.wasm"));
    assert!(!store.runner_states.contains_key("w.wasm"));
    assert!(!store.native_states.contains_key("w.wasm"));

    assert!(store.native_worker_states.contains_key("n.so"));
    assert!(!store.worker_states.contains_key("n.so"));

    assert!(store.runner_states.contains_key("r_run.wasm"));
    assert!(!store.native_states.contains_key("r_run.wasm"));

    assert!(store.native_states.contains_key("m_run.so"));
    assert!(!store.runner_states.contains_key("m_run.so"));

    assert!(store.knows_module("w.wasm"));
    assert!(!store.knows_module("ghost.wasm"));
}

#[test]
fn worker_state_never_alive_and_crashed() {
    let mut store = StateStore::new();
    store.register_worker("w.wasm".to_string());
    let out = "true".to_string();
    record_worker_probe(&mut store, "w.wasm", Some(&out));
    let s = store.worker_states.get("w.wasm").unwrap();
    assert!(!(s.alive && s.on_crash));
    record_worker_probe(&mut store, "w.wasm", None);
    let s = store.worker_states.get("w.wasm").unwrap();
    assert!(!(s.alive && s.on_crash));
    assert!(s.on_crash);
}

#[test]
fn alive_bytecode_worker_reports_ok() {
    let mut store = StateStore::new();
    store.register_worker("alive-mod.wasm".to_string());
    let out = "true".to_string();
    record_worker_probe(&mut store, "alive-mod.wasm", Some(&out));
    let r = get_health(&store, "alive-mod.wasm");
    assert_eq!(r.status, 200);
    assert_eq!(r.body, "OK");
}

#[test]
fn dead_bytecode_worker_reports_unavailable() {
    let mut store = StateStore::new();
    store.register_worker("dead-mod.wasm".to_string());
    let out = "dead".to_string();
    record_worker_probe(&mut store, "dead-mod.wasm", Some(&out));
    let r = get_health(&store, "dead-mod.wasm");
    assert_eq!(r.status, 503);
    assert_eq!(r.body, "Service is not available");
}

#[test]
fn unprobed_worker_reports_unavailable() {
    let mut store = StateStore::new();
    store.register_worker("w.wasm".to_string());
    let r = get_health(&store, "w.wasm");
    assert_eq!(r.status, 503);
}

#[test]
fn crashed_native_worker_reports_health_unavailable() {
    let mut store = StateStore::new();
    store.register_native_worker("c.so".to_string(), true);
    let out = "Crash\n".to_string();
    record_native_probe(&mut store, "c.so", Some(&out));
    let r = get_lib_health(&store, "c.so");
    assert_eq!(r.status, 500);
    assert_eq!(r.body, "Health service is not available");
}

#[test]
fn native_worker_load_failure_is_terminal() {
    let mut store = StateStore::new();
    store.register_native_worker("broken.so".to_string(), false);
    let r = get_lib_health(&store, "broken.so");
    assert_eq!(r.status, 500);
    assert_eq!(r.body, "Health service is not available");
}

#[test]
fn alive_native_worker_reports_ok() {
    let mut store = StateStore::new();
    store.register_native_worker("n.so".to_string(), true);
    let out = "True\nextra".to_string();
    record_native_probe(&mut store, "n.so", Some(&out));
    let r = get_lib_health(&store, "n.so");
    assert_eq!(r.status, 200);
    assert_eq!(r.body, "OK");
}

#[test]
fn unknown_module_reports_not_found() {
    let store = StateStore::new();
    assert_eq!(get_health(&store, "nope.wasm").status, 404);
    assert_eq!(get_health(&store, "nope.wasm").body, "Service not found");
    assert_eq!(get_lib_health(&store, "nope.so").status, 404);
    assert_eq!(get_service_stats(&store, "nope_run.wasm").status, 404);
    assert!(!has_runner(&store, "nope_run.wasm"));
    assert!(!has_native_runner(&store, "nope_run.so"));
    let r = thunder_response(false, false);
    assert_eq!(r.status, 404);
    assert_eq!(r.body, "Service not found");
}

#[test]
fn thunder_reports_send_outcome() {
    let ok = thunder_response(true, true);
    assert_eq!(ok.status, 200);
    assert_eq!(ok.body, "Service is running");
    let failed = thunder_response(true, false);
    assert_eq!(failed.status, 500);
    assert_eq!(failed.body, "Error sending trigger to service");
}

#[test]
fn lock_errors_are_internal_errors() {
    let r = lock_error_response();
    assert_eq!(r.status, 500);
    assert_eq!(r.body, "Error getting lock");
}

#[test]
fn runner_two_triggers_persist_last_value() {
    let mut store = StateStore::new();
    let mut conn = new_memory_store().unwrap();
    store.register_runner("r.wasm".to_string(), 0);

    let first = "KV:k###1\n".to_string();
    let flags = complete_runner_invocation(&mut store, &mut conn, "r.wasm", Some(&first), 10);
    assert_eq!(flags, vec![true]);

    let second = "KV:k###2\n".to_string();
    let flags = complete_runner_invocation(&mut store, &mut conn, "r.wasm", Some(&second), 20);
    assert_eq!(flags, vec![true]);

    assert_eq!(read_value(&conn, "k").unwrap(), Some("2".to_string()));

    let stats = get_service_stats(&store, "r.wasm");
    assert_eq!(stats.status, 200);
    assert_eq!(stats.body, "Service: r.wasm\nLast run: 20\nLast run success: true\n");
}

#[test]
fn runner_last_run_is_monotonic() {
    let mut store = StateStore::new();
    let mut conn = new_memory_store().unwrap();
    store.register_runner("r.wasm".to_string(), 5);
    let mut previous = store.runner_states.get("r.wasm").unwrap().last_run;
    let out = "no records".to_string();
    for now in [5, 8, 8, 13] {
        complete_runner_invocation(&mut store, &mut conn, "r.wasm", Some(&out), now);
        let current = store.runner_states.get("r.wasm").unwrap().last_run;
        assert!(current >= previous);
        previous = current;
    }
}

#[test]
fn failed_runner_invocation_skips_persistence() {
    let mut store = StateStore::new();
    let mut conn = new_memory_store().unwrap();
    store.register_runner("r.wasm".to_string(), 0);
    let flags = complete_runner_invocation(&mut store, &mut conn, "r.wasm", None, 7);
    assert!(flags.is_empty());
    let state = store.runner_states.get("r.wasm").unwrap();
    assert_eq!(state.last_run, 7);
    assert!(!state.last_run_success);
    let r = read_value(&conn, "k");
    assert!(r.is_err() || r.unwrap().is_none());
}

#[test]
fn native_runner_invocation_persists_and_keeps_crash_flag() {
    let mut store = StateStore::new();
    let mut conn = new_memory_store().unwrap();
    store.register_native_runner("n_run.so".to_string(), 0, true);
    let out = "KV:a###x\nKV:b###y\n".to_string();
    let flags = complete_native_invocation(&mut store, &mut conn, "n_run.so", Some(&out), 9);
    assert_eq!(flags, vec![true, true]);
    assert_eq!(read_value(&conn, "a").unwrap(), Some("x".to_string()));
    assert_eq!(read_value(&conn, "b").unwrap(), Some("y".to_string()));
    let state = store.native_states.get("n_run.so").unwrap();
    assert!(state.last_run_success);
    assert!(!state.on_crash);
    assert_eq!(state.last_run, 9);
}

#[test]
fn crashed_native_runner_keeps_flag_after_invocation() {
    let mut store = StateStore::new();
    let mut conn = new_memory_store().unwrap();
    store.register_native_runner("broken_run.so".to_string(), 0, false);
    assert!(store.native_states.get("broken_run.so").unwrap().on_crash);
    complete_native_invocation(&mut store, &mut conn, "broken_run.so", None, 3);
    let state = store.native_states.get("broken_run.so").unwrap();
    assert!(state.on_crash);
    assert!(!state.last_run_success);
}
