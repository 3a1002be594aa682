use vstd::prelude::*;

use vstd::hash_map::StringHashMap;

use crate::runner::native_after_run;
use crate::types::{NativeStates, NativeWorkerStates, RunnerState, WorkerStates};

verus! {

/// The observable state of every supervised module, keyed by module
/// name: one map per module kind. Discovery-time classification puts a
/// module in exactly one of them.
pub struct StateStore {
    pub worker_states: StringHashMap<WorkerStates>,
    pub native_worker_states: StringHashMap<NativeWorkerStates>,
    pub runner_states: StringHashMap<RunnerState>,
    pub native_states: StringHashMap<NativeStates>,
}

impl StateStore {
    /// In how many of the four maps `name` appears.
    pub open spec fn appearances(self, name: Seq<char>) -> int {
        (if self.worker_states@.contains_key(name) {
            1int
        } else {
            0int
        }) + (if self.native_worker_states@.contains_key(name) {
            1int
        } else {
            0int
        }) + (if self.runner_states@.contains_key(name) {
            1int
        } else {
            0int
        }) + (if self.native_states@.contains_key(name) {
            1int
        } else {
            0int
        })
    }

    /// A module name the store knows, in whichever map.
    pub open spec fn knows(self, name: Seq<char>) -> bool {
        self.worker_states@.contains_key(name) || self.native_worker_states@.contains_key(name)
            || self.runner_states@.contains_key(name) || self.native_states@.contains_key(name)
    }

    /// Well-formedness: no module name appears in more than one map,
    /// every worker state satisfies its invariant, and a runner state
    /// carries its own key as module name.
    pub open spec fn wf(self) -> bool {
        &&& forall|n: Seq<char>| #[trigger] self.appearances(n) <= 1
        &&& forall|n: Seq<char>|
            #[trigger] self.worker_states@.contains_key(n) ==> self.worker_states@[n].wf()
        &&& forall|n: Seq<char>|
            #[trigger] self.native_worker_states@.contains_key(n)
                ==> self.native_worker_states@[n].wf()
        &&& forall|n: Seq<char>|
            #[trigger] self.runner_states@.contains_key(n) ==> self.runner_states@[n].module_name@
                == n
    }

    /// The store knows no module at all.
    pub open spec fn is_empty(self) -> bool {
        &&& self.worker_states@ == Map::<Seq<char>, WorkerStates>::empty()
        &&& self.native_worker_states@ == Map::<Seq<char>, NativeWorkerStates>::empty()
        &&& self.runner_states@ == Map::<Seq<char>, RunnerState>::empty()
        &&& self.native_states@ == Map::<Seq<char>, NativeStates>::empty()
    }

    /// The store before discovery hands any module over.
    pub fn new() -> (s: Self)
        ensures
            s.wf(),
            s.is_empty(),
    {
        StateStore {
            worker_states: StringHashMap::new(),
            native_worker_states: StringHashMap::new(),
            runner_states: StringHashMap::new(),
            native_states: StringHashMap::new(),
        }
    }

    /// Whether the store knows this module name.
    pub fn knows_module(&self, name: &str) -> (b: bool)
        ensures
            b == self.knows(name@),
    {
        self.worker_states.contains_key(name) || self.native_worker_states.contains_key(name)
            || self.runner_states.contains_key(name) || self.native_states.contains_key(name)
    }

    /// Register a bytecode worker at spawn time: initially dead and not
    /// crashed.
    pub fn register_worker(&mut self, name: String)
        requires
            old(self).wf(),
            !old(self).knows(name@),
        ensures
            final(self).wf(),
            final(self).worker_states@ == old(self).worker_states@.insert(
                name@,
                WorkerStates { on_crash: false, alive: false },
            ),
            final(self).native_worker_states@ == old(self).native_worker_states@,
            final(self).runner_states@ == old(self).runner_states@,
            final(self).native_states@ == old(self).native_states@,
    {
        let ghost prev = *self;
        self.worker_states.insert(name, WorkerStates { on_crash: false, alive: false });
        proof {
            assert forall|n: Seq<char>| #[trigger] self.appearances(n) <= 1 by {
                if n != name@ {
                    assert(self.appearances(n) == prev.appearances(n));
                }
            }
        }
    }

    /// Register a native worker at spawn time: initially dead; a failed
    /// shared-object load registers it as crashed instead.
    pub fn register_native_worker(&mut self, name: String, loaded: bool)
        requires
            old(self).wf(),
            !old(self).knows(name@),
        ensures
            final(self).wf(),
            final(self).native_worker_states@ == old(self).native_worker_states@.insert(
                name@,
                NativeWorkerStates { on_crash: !loaded, alive: false },
            ),
            final(self).worker_states@ == old(self).worker_states@,
            final(self).runner_states@ == old(self).runner_states@,
            final(self).native_states@ == old(self).native_states@,
    {
        let ghost prev = *self;
        self.native_worker_states.insert(
            name,
            NativeWorkerStates { on_crash: !loaded, alive: false },
        );
        proof {
            assert forall|n: Seq<char>| #[trigger] self.appearances(n) <= 1 by {
                if n != name@ {
                    assert(self.appearances(n) == prev.appearances(n));
                }
            }
        }
    }

    /// Register a bytecode runner at spawn time: `last_run` is the
    /// creation time, no run has succeeded yet.
    pub fn register_runner(&mut self, name: String, now: u64)
        requires
            old(self).wf(),
            !old(self).knows(name@),
        ensures
            final(self).wf(),
            final(self).runner_states@.contains_key(name@),
            final(self).runner_states@[name@].module_name@ == name@,
            final(self).runner_states@[name@].last_run == now,
            !final(self).runner_states@[name@].last_run_success,
            forall|n: Seq<char>|
                #[trigger] final(self).runner_states@.contains_key(n) <==> (
                old(self).runner_states@.contains_key(n) || n == name@),
            forall|n: Seq<char>|
                n != name@ && old(self).runner_states@.contains_key(n)
                    ==> final(self).runner_states@[n] == old(self).runner_states@[n],
            final(self).worker_states@ == old(self).worker_states@,
            final(self).native_worker_states@ == old(self).native_worker_states@,
            final(self).native_states@ == old(self).native_states@,
    {
        let ghost prev = *self;
        let state = RunnerState {
            module_name: name.clone(),
            last_run: now,
            last_run_success: false,
        };
        self.runner_states.insert(name, state);
        proof {
            assert forall|n: Seq<char>| #[trigger] self.appearances(n) <= 1 by {
                if n != name@ {
                    assert(self.appearances(n) == prev.appearances(n));
                }
            }
        }
    }

    /// Register a native runner at spawn time: `last_run` is the creation
    /// time; a failed shared-object load marks it crashed once and for
    /// all, suppressing invocations.
    pub fn register_native_runner(&mut self, name: String, now: u64, loaded: bool)
        requires
            old(self).wf(),
            !old(self).knows(name@),
        ensures
            final(self).wf(),
            final(self).native_states@ == old(self).native_states@.insert(
                name@,
                NativeStates { on_crash: !loaded, last_run: now, last_run_success: false },
            ),
            final(self).worker_states@ == old(self).worker_states@,
            final(self).native_worker_states@ == old(self).native_worker_states@,
            final(self).runner_states@ == old(self).runner_states@,
    {
        let ghost prev = *self;
        self.native_states.insert(
            name,
            NativeStates { on_crash: !loaded, last_run: now, last_run_success: false },
        );
        proof {
            assert forall|n: Seq<char>| #[trigger] self.appearances(n) <= 1 by {
                if n != name@ {
                    assert(self.appearances(n) == prev.appearances(n));
                }
            }
        }
    }

    /// Write a bytecode worker's state after a probe (or its terminal
    /// crash state).
    pub fn set_worker_state(&mut self, name: &str, state: WorkerStates)
        requires
            old(self).wf(),
            old(self).worker_states@.contains_key(name@),
            state.wf(),
        ensures
            final(self).wf(),
            final(self).worker_states@ == old(self).worker_states@.insert(name@, state),
            final(self).native_worker_states@ == old(self).native_worker_states@,
            final(self).runner_states@ == old(self).runner_states@,
            final(self).native_states@ == old(self).native_states@,
    {
        let ghost prev = *self;
        self.worker_states.insert(String::from_str(name), state);
        proof {
            assert forall|n: Seq<char>| #[trigger] self.appearances(n) <= 1 by {
                assert(self.appearances(n) == prev.appearances(n));
            }
        }
    }

    /// Write a native worker's state after a probe (or its terminal
    /// crash state).
    pub fn set_native_worker_state(&mut self, name: &str, state: NativeWorkerStates)
        requires
            old(self).wf(),
            old(self).native_worker_states@.contains_key(name@),
            state.wf(),
        ensures
            final(self).wf(),
            final(self).native_worker_states@ == old(self).native_worker_states@.insert(
                name@,
                state,
            ),
            final(self).worker_states@ == old(self).worker_states@,
            final(self).runner_states@ == old(self).runner_states@,
            final(self).native_states@ == old(self).native_states@,
    {
        let ghost prev = *self;
        self.native_worker_states.insert(String::from_str(name), state);
        proof {
            assert forall|n: Seq<char>| #[trigger] self.appearances(n) <= 1 by {
                assert(self.appearances(n) == prev.appearances(n));
            }
        }
    }

    /// Stamp a bytecode runner's state after an invocation: `last_run`
    /// becomes `now`, `last_run_success` the invocation's outcome.
    pub fn set_runner_result(&mut self, name: &str, now: u64, success: bool)
        requires
            old(self).wf(),
            old(self).runner_states@.contains_key(name@),
        ensures
            final(self).wf(),
            final(self).runner_states@.contains_key(name@),
            final(self).runner_states@[name@].module_name@ == name@,
            final(self).runner_states@[name@].last_run == now,
            final(self).runner_states@[name@].last_run_success == success,
            forall|n: Seq<char>|
                #[trigger] final(self).runner_states@.contains_key(n)
                    <==> old(self).runner_states@.contains_key(n),
            forall|n: Seq<char>|
                n != name@ && old(self).runner_states@.contains_key(n)
                    ==> final(self).runner_states@[n] == old(self).runner_states@[n],
            final(self).worker_states@ == old(self).worker_states@,
            final(self).native_worker_states@ == old(self).native_worker_states@,
            final(self).native_states@ == old(self).native_states@,
    {
        let ghost prev = *self;
        let state = RunnerState {
            module_name: String::from_str(name),
            last_run: now,
            last_run_success: success,
        };
        self.runner_states.insert(String::from_str(name), state);
        proof {
            assert forall|n: Seq<char>| #[trigger] self.appearances(n) <= 1 by {
                assert(self.appearances(n) == prev.appearances(n));
            }
        }
    }

    /// Stamp a native runner's state after an invocation; the load-time
    /// crash flag is preserved.
    pub fn set_native_result(&mut self, name: &str, now: u64, success: bool)
        requires
            old(self).wf(),
            old(self).native_states@.contains_key(name@),
        ensures
            final(self).wf(),
            final(self).native_states@ == old(self).native_states@.insert(
                name@,
                native_after_run(old(self).native_states@[name@], now, success),
            ),
            final(self).worker_states@ == old(self).worker_states@,
            final(self).native_worker_states@ == old(self).native_worker_states@,
            final(self).runner_states@ == old(self).runner_states@,
    {
        let ghost prev = *self;
        let current = match self.native_states.get(name) {
            Some(s) => *s,
            None => {
                proof {
                    assert(false);
                }
                NativeStates { on_crash: false, last_run: 0, last_run_success: false }
            },
        };
        self.native_states.insert(
            String::from_str(name),
            NativeStates { on_crash: current.on_crash, last_run: now, last_run_success: success },
        );
        proof {
            assert forall|n: Seq<char>| #[trigger] self.appearances(n) <= 1 by {
                assert(self.appearances(n) == prev.appearances(n));
            }
        }
    }

    /// Law: every module known to a well-formed store appears in exactly
    /// one of the four maps — never in two, never in none.
    pub proof fn lemma_module_in_exactly_one_map(self, name: Seq<char>)
        requires
            self.wf(),
            self.knows(name),
        ensures
            self.appearances(name) == 1,
    {
    }
}

} // verus!
