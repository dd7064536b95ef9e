//! Engine and module resource registry.
//!
//! Long-lived handles shared across invocations: one process-wide engine,
//! lazily created, and one compiled module per function version, keyed by
//! an identifier.  Callers hold the registry behind a mutual-exclusion lock
//! scoped narrowly to handle retrieval; what a method hands out is a clone
//! of the shared handle, released before the method returns, so no borrow
//! is held across a blocking engine call.

use vstd::prelude::*;

use crate::errors::WorkerError;
use crate::wasm::{valid_wasm_module, EngineResource, ModuleResource};

verus! {

/// Whether the registry holds a module under `id`.
pub open spec fn spec_has_module(s: Seq<(u64, ModuleResource)>, id: u64) -> bool {
    exists|i: int| 0 <= i < s.len() && s[i].0 == id
}

/// Well-formed registry contents: module identifiers are unique keys.
pub open spec fn spec_unique_ids(s: Seq<(u64, ModuleResource)>) -> bool {
    forall|i: int, j: int| 0 <= i < j < s.len() ==> s[i].0 != s[j].0
}

/// The long-lived resource registry.
pub struct Registry {
    engine: Option<EngineResource>,
    modules: Vec<(u64, ModuleResource)>,
}

impl Registry {
    /// Everything the contracts assume of a registry: module keys are
    /// unique.
    pub closed spec fn wf(&self) -> bool {
        spec_unique_ids(self.modules@)
    }

    /// Whether a module is registered under `id`.
    pub closed spec fn spec_has(&self, id: u64) -> bool {
        spec_has_module(self.modules@, id)
    }

    /// Whether the process-wide engine has been created yet.
    pub closed spec fn spec_has_engine(&self) -> bool {
        self.engine is Some
    }

    /// An empty registry: no engine yet, no modules.
    pub fn new() -> (r: Registry)
        ensures
            r.wf(),
            !r.spec_has_engine(),
            forall|id: u64| !r.spec_has(id),
    {
        Registry { engine: None, modules: Vec::new() }
    }

    /// A temporary borrow of the process-wide engine, created lazily on
    /// first use and shared afterwards.  A poisoned lock fails this call
    /// only.
    pub fn acquire_engine(&mut self) -> (r: Result<wasmtime::Engine, WorkerError>)
        requires
            old(self).wf(),
        ensures
            final(self).wf(),
            final(self).spec_has_engine(),
            forall|id: u64| final(self).spec_has(id) == old(self).spec_has(id),
            r matches Err(e) ==> e is ResourceUnavailable,
    {
        if self.engine.is_none() {
            self.engine = Some(EngineResource::new());
        }
        match &self.engine {
            Some(resource) => resource.acquire(),
            None => Err(WorkerError::ResourceUnavailable),
        }
    }

    /// The position of `id` among the registered modules.
    fn index_of(&self, id: u64) -> (r: Option<usize>)
        ensures
            r matches Some(i) ==> i < self.modules@.len() && self.modules@[i as int].0 == id,
            r is None ==> !self.spec_has(id),
    {
        let n: usize = self.modules.len();
        let mut i: usize = 0;
        while i < n
            invariant
                0 <= i <= n,
                n == self.modules@.len(),
                forall|j: int| 0 <= j < i ==> self.modules@[j].0 != id,
            decreases n - i,
        {
            if self.modules[i].0 == id {
                return Some(i);
            }
            i = i + 1;
        }
        None
    }

    /// Publishes a compiled module under `id`, replacing wholesale
    /// whatever the identifier held before.  Every other registration is
    /// untouched.
    pub fn register_module(&mut self, id: u64, module: ModuleResource)
        requires
            old(self).wf(),
        ensures
            final(self).wf(),
            final(self).spec_has(id),
            forall|other: u64|
                other != id ==> final(self).spec_has(other) == old(self).spec_has(other),
            final(self).spec_has_engine() == old(self).spec_has_engine(),
    {
        let ghost pre = self.modules@;
        if let Some(i) = self.index_of(id) {
            self.modules.remove(i);
            proof {
                let mid = pre.remove(i as int);
                assert forall|a: int, b: int| 0 <= a < b < mid.len() implies mid[a].0 != mid[b].0 by {
                    if b < i as int {
                        assert(mid[a] == pre[a] && mid[b] == pre[b]);
                    } else if a < i as int {
                        assert(mid[a] == pre[a] && mid[b] == pre[b + 1]);
                    } else {
                        assert(mid[a] == pre[a + 1] && mid[b] == pre[b + 1]);
                    }
                }
                assert forall|k: int| 0 <= k < mid.len() implies mid[k].0 != id by {
                    if k < i as int {
                        assert(mid[k] == pre[k]);
                        assert(spec_unique_ids(pre) && pre[i as int].0 == id);
                    } else {
                        assert(mid[k] == pre[k + 1]);
                        assert(spec_unique_ids(pre) && pre[i as int].0 == id);
                    }
                }
                assert forall|other: u64|
                    other != id && spec_has_module(pre, other) implies spec_has_module(
                    mid,
                    other,
                ) by {
                    let w = choose|w: int| 0 <= w < pre.len() && pre[w].0 == other;
                    if w < i as int {
                        assert(mid[w] == pre[w]);
                    } else {
                        assert(mid[w - 1] == pre[w]);
                    }
                }
                assert forall|other: u64|
                    other != id && spec_has_module(mid, other) implies spec_has_module(
                    pre,
                    other,
                ) by {
                    let w = choose|w: int| 0 <= w < mid.len() && mid[w].0 == other;
                    if w < i as int {
                        assert(mid[w] == pre[w]);
                    } else {
                        assert(mid[w] == pre[w + 1]);
                    }
                }
            }
        }
        let ghost trimmed = self.modules@;
        self.modules.push((id, module));
        proof {
            assert forall|a: int, b: int|
                0 <= a < b < self.modules@.len() implies self.modules@[a].0
                != self.modules@[b].0 by {
                if b < trimmed.len() {
                    assert(self.modules@[a] == trimmed[a] && self.modules@[b] == trimmed[b]);
                } else {
                    assert(self.modules@[a] == trimmed[a]);
                    assert(self.modules@[b].0 == id);
                }
            }
            assert(self.modules@[self.modules@.len() - 1].0 == id);
            assert forall|other: u64|
                other != id && spec_has_module(trimmed, other) implies spec_has_module(
                self.modules@,
                other,
            ) by {
                let w = choose|w: int| 0 <= w < trimmed.len() && trimmed[w].0 == other;
                assert(self.modules@[w] == trimmed[w]);
            }
            assert forall|other: u64|
                other != id && spec_has_module(self.modules@, other) implies spec_has_module(
                trimmed,
                other,
            ) by {
                let w = choose|w: int|
                    0 <= w < self.modules@.len() && self.modules@[w].0 == other;
                assert(w < trimmed.len());
                assert(self.modules@[w] == trimmed[w]);
            }
        }
    }

    /// Compiles `code` under the shared engine — created lazily if need
    /// be — and publishes the module under `id`, replacing wholesale
    /// whatever the identifier held.  Success needs valid module bytes;
    /// a failure leaves every registration as it was.
    pub fn compile_and_register(&mut self, id: u64, code: &[u8]) -> (r: Result<(), WorkerError>)
        requires
            old(self).wf(),
        ensures
            final(self).wf(),
            r is Ok ==> final(self).spec_has(id) && valid_wasm_module(code@),
            r matches Err(e) ==> (e is ResourceUnavailable || (e is Compile
                && !valid_wasm_module(code@))),
            r is Err ==> final(self).spec_has(id) == old(self).spec_has(id),
            forall|other: u64|
                other != id ==> final(self).spec_has(other) == old(self).spec_has(other),
    {
        let engine = match self.acquire_engine() {
            Ok(e) => e,
            Err(e) => {
                return Err(e);
            },
        };
        let module = match ModuleResource::new(&engine, code) {
            Ok(m) => m,
            Err(e) => {
                return Err(e);
            },
        };
        self.register_module(id, module);
        Ok(())
    }

    /// A temporary borrow of the module registered under `id`: a clone of
    /// the shared handle, or nothing when `id` is unregistered.  A
    /// poisoned lock fails this call only.
    pub fn acquire_module(&self, id: u64) -> (r: Result<Option<wasmtime::Module>, WorkerError>)
        ensures
            r matches Ok(m) ==> (m is Some <==> self.spec_has(id)),
            !self.spec_has(id) ==> r matches Ok(None),
            r matches Err(e) ==> e is ResourceUnavailable && self.spec_has(id),
    {
        match self.index_of(id) {
            Some(i) => {
                let resource = &self.modules[i].1;
                match resource.acquire() {
                    Ok(m) => Ok(Some(m)),
                    Err(e) => Err(e),
                }
            },
            None => Ok(None),
        }
    }
}

} // verus!
