use module_host::health::{bytecode_alive, bytecode_worker_step, native_worker_step};
use module_host::output::{first_line, parse_kv_line, parse_output, split_lines};
use module_host::types::NativeWorkerStates;

#[test]
fn bytecode_liveness_is_byte_exact() {
    assert!(bytecode_alive("true"));
    assert!(!bytecode_alive("true\n"));
    assert!(!bytecode_alive(" true"));
    assert!(!bytecode_alive("TRUE"));
    assert!(!bytecode_alive("dead"));
    assert!(!bytecode_alive(""));
}

#[test]
fn bytecode_step_reflects_output() {
    let s = bytecode_worker_step("true");
    assert!(s.alive);
    assert!(!s.on_crash);
    let s = bytecode_worker_step("dead");
    assert!(!s.alive);
    assert!(!s.on_crash);
}

#[test]
fn native_step_reads_first_line() {
    let prev = NativeWorkerStates { on_crash: false, alive: false };
    let s = native_worker_step(&prev, "True\nsome detail");
    assert!(s.alive && !s.on_crash);
    let s = native_worker_step(&s, "False\n");
    assert!(!s.alive && !s.on_crash);
    let s = native_worker_step(&s, "Crash\n");
    assert!(!s.alive && s.on_crash);
}

#[test]
fn native_step_ignores_unknown_verdicts() {
    let prev = NativeWorkerStates { on_crash: false, alive: true };
    let s = native_worker_step(&prev, "Maybe\n");
    assert!(s.alive && !s.on_crash);
}

#[test]
fn native_probe_with_constant_output_stabilizes() {
    let s0 = NativeWorkerStates { on_crash: false, alive: false };
    let s1 = native_worker_step(&s0, "True\n");
    let s2 = native_worker_step(&s1, "True\n");
    assert_eq!(s1, s2);
}

#[test]
fn first_line_stops_at_newline() {
    assert_eq!(first_line("Crash\nrest"), "Crash");
    assert_eq!(first_line("True"), "True");
    assert_eq!(first_line(""), "");
    assert_eq!(first_line("\nx"), "");
}

#[test]
fn split_lines_keeps_empty_lines() {
    assert_eq!(split_lines("a\nb"), vec!["a", "b"]);
    assert_eq!(split_lines("a\n"), vec!["a", ""]);
    assert_eq!(split_lines(""), vec![""]);
    assert_eq!(split_lines("\n"), vec!["", ""]);
}

#[test]
fn kv_line_with_exactly_two_fields_parses() {
    let kv = parse_kv_line("KV:key###value").unwrap();
    assert_eq!(kv.key, "key");
    assert_eq!(kv.value, "value");
}

#[test]
fn kv_line_fields_may_be_empty() {
    let kv = parse_kv_line("KV:###").unwrap();
    assert_eq!(kv.key, "");
    assert_eq!(kv.value, "");
}

#[test]
fn kv_line_without_separator_is_ignored() {
    assert!(parse_kv_line("KV:key=value").is_none());
    assert!(parse_kv_line("KV:").is_none());
}

#[test]
fn kv_line_with_two_separators_is_ignored() {
    assert!(parse_kv_line("KV:a###b###c").is_none());
}

#[test]
fn non_kv_lines_are_ignored() {
    assert!(parse_kv_line("key###value").is_none());
    assert!(parse_kv_line("kv:key###value").is_none());
    assert!(parse_kv_line("").is_none());
}

#[test]
fn output_parsing_collects_records_in_order() {
    let out = "noise\nKV:k###1\nother\nKV:j###2\nKV:bad\n";
    let records = parse_output(out);
    assert_eq!(records.len(), 2);
    assert_eq!(records[0].key, "k");
    assert_eq!(records[0].value, "1");
    assert_eq!(records[1].key, "j");
    assert_eq!(records[1].value, "2");
}
