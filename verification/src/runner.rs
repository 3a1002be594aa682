use vstd::prelude::*;

use crate::output::{kv_records_spec, parse_output, record_views};
use crate::persistency::{apply_selected, stored_pairs, KeyValuePair, Save};
use crate::types::{NativeStates, RunnerState};

verus! {

/// Persist every record, best effort: a store failure skips that record
/// only and is reported in the returned flags, one per record, for the
/// caller to log.
pub fn persist_records(records: &Vec<KeyValuePair>, conn: &mut sqlite::Connection) -> (flags: Vec<
    bool,
>)
    ensures
        flags@.len() == records@.len(),
        stored_pairs(*final(conn)) == apply_selected(
            stored_pairs(*old(conn)),
            record_views(records@),
            flags@,
        ),
{
    let ghost rv = record_views(records@);
    let mut flags: Vec<bool> = Vec::new();
    let mut i: usize = 0;
    while i < records.len()
        invariant
            i <= records@.len(),
            flags@.len() == i,
            rv == record_views(records@),
            rv.len() == records@.len(),
            stored_pairs(*conn) == apply_selected(stored_pairs(*old(conn)), rv.take(i as int), flags@),
        decreases records@.len() - i,
    {
        proof {
            assert(rv.take(i + 1).drop_last() =~= rv.take(i as int));
            assert(rv.take(i + 1).last() == rv[i as int]);
            assert(rv[i as int] == (records@[i as int].key@, records@[i as int].value@));
        }
        let ghost old_flags = flags@;
        let ok = records[i].persist(conn).is_ok();
        flags.push(ok);
        proof {
            assert(flags@.drop_last() =~= old_flags);
            assert(flags@.last() == ok);
        }
        i = i + 1;
    }
    proof {
        assert(rv.take(records@.len() as int) =~= rv);
    }
    flags
}

/// Parse a runner's output and persist each of its `KV:` records, best
/// effort. Returns one success flag per record, for the caller to log.
pub fn process_output(output: &str, conn: &mut sqlite::Connection) -> (flags: Vec<bool>)
    ensures
        flags@.len() == kv_records_spec(output@).len(),
        stored_pairs(*final(conn)) == apply_selected(
            stored_pairs(*old(conn)),
            kv_records_spec(output@),
            flags@,
        ),
{
    let records = parse_output(output);
    persist_records(&records, conn)
}

/// State of a bytecode runner after an invocation that finished at clock
/// reading `now`.
pub open spec fn runner_after_run(prev: RunnerState, now: u64, success: bool) -> RunnerState {
    RunnerState { module_name: prev.module_name, last_run: now, last_run_success: success }
}

/// Record the end of a bytecode runner invocation: `last_run` becomes the
/// current clock reading, `last_run_success` the invocation's outcome.
pub fn update_runner_after_run(state: &mut RunnerState, now: u64, success: bool)
    ensures
        *final(state) == runner_after_run(*old(state), now, success),
{
    state.last_run = now;
    state.last_run_success = success;
}

/// State of a native runner after an invocation that finished at clock
/// reading `now`. The load-time crash flag is never touched.
pub open spec fn native_after_run(prev: NativeStates, now: u64, success: bool) -> NativeStates {
    NativeStates { on_crash: prev.on_crash, last_run: now, last_run_success: success }
}

/// Record the end of a native runner invocation.
pub fn update_native_after_run(state: &mut NativeStates, now: u64, success: bool)
    ensures
        *final(state) == native_after_run(*old(state), now, success),
{
    state.last_run = now;
    state.last_run_success = success;
}

/// Law: a runner's `last_run` is monotonically non-decreasing over a
/// process lifetime — successive invocations read a monotonic clock, and
/// each update sets `last_run` to its reading.
pub proof fn lemma_last_run_monotonic(s: RunnerState, t1: u64, ok1: bool, t2: u64, ok2: bool)
    requires
        s.last_run <= t1 <= t2,
    ensures
        s.last_run <= runner_after_run(s, t1, ok1).last_run,
        runner_after_run(s, t1, ok1).last_run <= runner_after_run(
            runner_after_run(s, t1, ok1),
            t2,
            ok2,
        ).last_run,
{
}

/// Law: the same, for a native runner's `last_run`.
pub proof fn lemma_native_last_run_monotonic(s: NativeStates, t1: u64, ok1: bool, t2: u64, ok2: bool)
    requires
        s.last_run <= t1 <= t2,
    ensures
        s.last_run <= native_after_run(s, t1, ok1).last_run,
        native_after_run(s, t1, ok1).last_run <= native_after_run(
            native_after_run(s, t1, ok1),
            t2,
            ok2,
        ).last_run,
{
}

} // verus!
