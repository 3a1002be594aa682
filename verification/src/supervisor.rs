use vstd::prelude::*;

use crate::health::{bytecode_step_spec, bytecode_worker_step, crashed_native_worker_state,
    crashed_worker_state, native_step_spec, native_worker_step};
use crate::output::kv_records_spec;
use crate::persistency::{apply_selected, stored_pairs};
use crate::runner::process_output;
use crate::store::StateStore;
use crate::types::{NativeWorkerStates, WorkerStates};

verus! {

/// One bytecode worker poll: write the probe's verdict into the store,
/// or the terminal crash state when the adapter invocation itself
/// failed (`probe` is the captured stdout, or nothing on failure).
pub fn record_worker_probe(store: &mut StateStore, name: &str, probe: Option<&String>)
    requires
        old(store).wf(),
        old(store).worker_states@.contains_key(name@),
    ensures
        final(store).wf(),
        final(store).worker_states@ == old(store).worker_states@.insert(
            name@,
            match probe {
                Some(stdout) => bytecode_step_spec(stdout@),
                None => WorkerStates { on_crash: true, alive: false },
            },
        ),
        final(store).native_worker_states@ == old(store).native_worker_states@,
        final(store).runner_states@ == old(store).runner_states@,
        final(store).native_states@ == old(store).native_states@,
{
    let state = match probe {
        Some(stdout) => bytecode_worker_step(stdout.as_str()),
        None => crashed_worker_state(),
    };
    store.set_worker_state(name, state);
}

/// One native worker poll: step the state machine on the first line of
/// what `start` returned, or write the terminal crash state when no
/// output could be obtained.
pub fn record_native_probe(store: &mut StateStore, name: &str, probe: Option<&String>)
    requires
        old(store).wf(),
        old(store).native_worker_states@.contains_key(name@),
    ensures
        final(store).wf(),
        final(store).native_worker_states@ == old(store).native_worker_states@.insert(
            name@,
            match probe {
                Some(output) => native_step_spec(
                    old(store).native_worker_states@[name@],
                    output@,
                ),
                None => NativeWorkerStates { on_crash: true, alive: false },
            },
        ),
        final(store).worker_states@ == old(store).worker_states@,
        final(store).runner_states@ == old(store).runner_states@,
        final(store).native_states@ == old(store).native_states@,
{
    let state = match probe {
        Some(output) => {
            let current = match store.native_worker_states.get(name) {
                Some(s) => *s,
                None => {
                    proof {
                        assert(false);
                    }
                    NativeWorkerStates { on_crash: false, alive: false }
                },
            };
            native_worker_step(&current, output.as_str())
        },
        None => crashed_native_worker_state(),
    };
    store.set_native_worker_state(name, state);
}

/// Bookkeeping after a bytecode runner invocation: when the adapter
/// delivered output, persist its records (best effort) and stamp the
/// runner successful; when it failed, skip persistence and stamp it
/// failed. Returns one persisted-or-not flag per record, for the caller
/// to log.
pub fn complete_runner_invocation(
    store: &mut StateStore,
    conn: &mut sqlite::Connection,
    name: &str,
    output: Option<&String>,
    now: u64,
) -> (flags: Vec<bool>)
    requires
        old(store).wf(),
        old(store).runner_states@.contains_key(name@),
    ensures
        final(store).wf(),
        match output {
            Some(stdout) => {
                &&& flags@.len() == kv_records_spec(stdout@).len()
                &&& stored_pairs(*final(conn)) == apply_selected(
                    stored_pairs(*old(conn)),
                    kv_records_spec(stdout@),
                    flags@,
                )
                &&& final(store).runner_states@[name@].last_run_success
            },
            None => {
                &&& flags@.len() == 0
                &&& stored_pairs(*final(conn)) == stored_pairs(*old(conn))
                &&& !final(store).runner_states@[name@].last_run_success
            },
        },
        final(store).runner_states@.contains_key(name@),
        final(store).runner_states@[name@].last_run == now,
        final(store).runner_states@[name@].module_name@ == name@,
        forall|n: Seq<char>|
            #[trigger] final(store).runner_states@.contains_key(n)
                <==> old(store).runner_states@.contains_key(n),
        forall|n: Seq<char>|
            n != name@ && old(store).runner_states@.contains_key(n)
                ==> final(store).runner_states@[n] == old(store).runner_states@[n],
        final(store).worker_states@ == old(store).worker_states@,
        final(store).native_worker_states@ == old(store).native_worker_states@,
        final(store).native_states@ == old(store).native_states@,
{
    match output {
        Some(stdout) => {
            let flags = process_output(stdout.as_str(), conn);
            store.set_runner_result(name, now, true);
            flags
        },
        None => {
            store.set_runner_result(name, now, false);
            Vec::new()
        },
    }
}

/// Bookkeeping after a native runner invocation: same contract as the
/// bytecode one, on the native runner map; the load-time crash flag is
/// preserved.
pub fn complete_native_invocation(
    store: &mut StateStore,
    conn: &mut sqlite::Connection,
    name: &str,
    output: Option<&String>,
    now: u64,
) -> (flags: Vec<bool>)
    requires
        old(store).wf(),
        old(store).native_states@.contains_key(name@),
    ensures
        final(store).wf(),
        match output {
            Some(returned) => {
                &&& flags@.len() == kv_records_spec(returned@).len()
                &&& stored_pairs(*final(conn)) == apply_selected(
                    stored_pairs(*old(conn)),
                    kv_records_spec(returned@),
                    flags@,
                )
                &&& final(store).native_states@[name@].last_run_success
            },
            None => {
                &&& flags@.len() == 0
                &&& stored_pairs(*final(conn)) == stored_pairs(*old(conn))
                &&& !final(store).native_states@[name@].last_run_success
            },
        },
        final(store).native_states@.contains_key(name@),
        final(store).native_states@[name@].last_run == now,
        final(store).native_states@[name@].on_crash == old(
            store,
        ).native_states@[name@].on_crash,
        forall|n: Seq<char>|
            #[trigger] final(store).native_states@.contains_key(n)
                <==> old(store).native_states@.contains_key(n),
        forall|n: Seq<char>|
            n != name@ && old(store).native_states@.contains_key(n)
                ==> final(store).native_states@[n] == old(store).native_states@[n],
        final(store).worker_states@ == old(store).worker_states@,
        final(store).native_worker_states@ == old(store).native_worker_states@,
        final(store).runner_states@ == old(store).runner_states@,
{
    match output {
        Some(returned) => {
            let flags = process_output(returned.as_str(), conn);
            store.set_native_result(name, now, true);
            flags
        },
        None => {
            store.set_native_result(name, now, false);
            Vec::new()
        },
    }
}

} // verus!
