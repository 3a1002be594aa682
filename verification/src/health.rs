use vstd::prelude::*;

use crate::output::{first_line, first_line_spec};
use crate::text::str_eq;
use crate::types::{NativeWorkerStates, WorkerStates};

verus! {

/// A bytecode worker is alive exactly when its captured stdout is the
/// literal `true`, byte for byte: no trimming, so a trailing newline
/// means dead.
pub open spec fn bytecode_alive_spec(stdout: Seq<char>) -> bool {
    stdout == "true"@
}

pub fn bytecode_alive(stdout: &str) -> (b: bool)
    ensures
        b == bytecode_alive_spec(stdout@),
{
    str_eq(stdout, "true")
}

/// Worker state written after a bytecode probe. It depends on the probe
/// output alone, never on the previous state, so probing with constant
/// output stabilizes after one probe.
pub open spec fn bytecode_step_spec(stdout: Seq<char>) -> WorkerStates {
    WorkerStates { on_crash: false, alive: bytecode_alive_spec(stdout) }
}

pub fn bytecode_worker_step(stdout: &str) -> (s: WorkerStates)
    ensures
        s == bytecode_step_spec(stdout@),
        s.wf(),
{
    WorkerStates { on_crash: false, alive: bytecode_alive(stdout) }
}

/// Terminal state of a worker whose adapter failed (compilation or
/// environment setup): dead and crashed; no further probes run.
pub fn crashed_worker_state() -> (s: WorkerStates)
    ensures
        s == (WorkerStates { on_crash: true, alive: false }),
        s.wf(),
{
    WorkerStates { on_crash: true, alive: false }
}

/// Terminal state of a native worker whose shared object failed to load.
pub fn crashed_native_worker_state() -> (s: NativeWorkerStates)
    ensures
        s == (NativeWorkerStates { on_crash: true, alive: false }),
        s.wf(),
{
    NativeWorkerStates { on_crash: true, alive: false }
}

/// Next state of a native worker, read from the first line of what its
/// `start` symbol returned: `True` and `False` set liveness, `Crash` is
/// terminal, and any other verdict leaves the state unchanged.
pub open spec fn native_step_spec(prev: NativeWorkerStates, output: Seq<char>) -> NativeWorkerStates {
    let head = first_line_spec(output);
    if head == "True"@ {
        NativeWorkerStates { on_crash: false, alive: true }
    } else if head == "False"@ {
        NativeWorkerStates { on_crash: false, alive: false }
    } else if head == "Crash"@ {
        NativeWorkerStates { on_crash: true, alive: false }
    } else {
        prev
    }
}

pub fn native_worker_step(prev: &NativeWorkerStates, output: &str) -> (next: NativeWorkerStates)
    ensures
        next == native_step_spec(*prev, output@),
        prev.wf() ==> next.wf(),
{
    let head = first_line(output);
    if str_eq(head.as_str(), "True") {
        NativeWorkerStates { on_crash: false, alive: true }
    } else if str_eq(head.as_str(), "False") {
        NativeWorkerStates { on_crash: false, alive: false }
    } else if str_eq(head.as_str(), "Crash") {
        NativeWorkerStates { on_crash: true, alive: false }
    } else {
        NativeWorkerStates { on_crash: prev.on_crash, alive: prev.alive }
    }
}

/// Law: a bytecode probe never yields a state that is both alive and
/// crashed, whatever the module printed.
pub proof fn lemma_bytecode_step_wf(stdout: Seq<char>)
    ensures
        bytecode_step_spec(stdout).wf(),
{
}

/// Law: a native probe preserves the worker-state invariant — starting
/// from a state that is not both alive and crashed, no output reaches
/// one.
pub proof fn lemma_native_step_wf(prev: NativeWorkerStates, output: Seq<char>)
    requires
        prev.wf(),
    ensures
        native_step_spec(prev, output).wf(),
{
}

/// Law: native health probing converges — with constant module output the
/// state stabilizes after one probe; a second probe with the same output
/// changes nothing. (For bytecode workers the probe result is a function
/// of the output alone, so their convergence is immediate from the shape
/// of `bytecode_step_spec`.)
pub proof fn lemma_native_probe_stable(prev: NativeWorkerStates, output: Seq<char>)
    ensures
        native_step_spec(native_step_spec(prev, output), output) == native_step_spec(prev, output),
{
}

} // verus!
