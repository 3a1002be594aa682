use vstd::prelude::*;

verus! {

/// The four flavors a discovered module can have, derived from its file
/// suffix: workers are polled on a schedule, runners execute on demand;
/// bytecode modules run inside the sandboxed engine, native modules are
/// shared objects called over the C ABI.
#[derive(PartialEq, Eq, Structural, Clone, Copy, Debug)]
pub enum ModuleKind {
    BytecodeWorker,
    BytecodeRunner,
    NativeWorker,
    NativeRunner,
}

/// A bytecode worker module: its payload is the raw module bytes.
#[derive(Debug)]
pub struct WasmWorker {
    pub module_name: String,
    pub bytes: Vec<u8>,
}

/// A bytecode runner module: its payload is the raw module bytes.
pub struct WasmRunner {
    pub module_name: String,
    pub bytes: Vec<u8>,
}

/// A native module (worker or runner): its payload is the canonical
/// filesystem path of the shared object.
pub struct DLLRunner {
    pub module_name: String,
    pub path: String,
}

/// Observable state of a bytecode worker.
#[derive(PartialEq, Eq, Structural, Clone, Copy, Debug)]
pub struct WorkerStates {
    pub on_crash: bool,
    pub alive: bool,
}

/// Observable state of a native worker.
#[derive(PartialEq, Eq, Structural, Clone, Copy, Debug)]
pub struct NativeWorkerStates {
    pub on_crash: bool,
    pub alive: bool,
}

/// Observable state of a bytecode runner. `last_run` is a millisecond
/// reading of the process's monotonic clock.
#[derive(Clone, Debug)]
pub struct RunnerState {
    pub module_name: String,
    pub last_run: u64,
    pub last_run_success: bool,
}

/// Observable state of a native runner. `on_crash` is set once at load
/// time if the shared object could not be loaded, and never cleared.
#[derive(PartialEq, Eq, Structural, Clone, Copy, Debug)]
pub struct NativeStates {
    pub on_crash: bool,
    pub last_run: u64,
    pub last_run_success: bool,
}

impl WorkerStates {
    /// A worker is never both alive and crashed.
    pub open spec fn wf(self) -> bool {
        !(self.alive && self.on_crash)
    }
}

impl NativeWorkerStates {
    /// A native worker is never both alive and crashed.
    pub open spec fn wf(self) -> bool {
        !(self.alive && self.on_crash)
    }
}

} // verus!
