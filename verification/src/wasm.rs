//! WebAssembly sandbox backend.
//!
//! Compiles a WASI-capable module into an executable handle and runs it with
//! virtualized standard streams: a fresh, never-reused execution context per
//! call, whose stdin carries the JSON-encoded arguments and whose stdout and
//! stderr are private in-memory buffers.  On normal return the stdout bytes
//! are the invocation's output; on a trap the stderr bytes are the only
//! diagnostic channel.

use vstd::prelude::*;

use crate::errors::WorkerError;

verus! {

#[verifier::external_type_specification]
#[verifier::external_body]
pub struct ExEngine(wasmtime::Engine);

#[verifier::external_type_specification]
#[verifier::external_body]
pub struct ExModule(wasmtime::Module);

#[verifier::external_type_specification]
#[verifier::external_body]
#[verifier::reject_recursive_types(T)]
pub struct ExStore<T: 'static>(wasmtime::Store<T>);

#[verifier::external_type_specification]
#[verifier::external_body]
#[verifier::reject_recursive_types(Params)]
#[verifier::reject_recursive_types(Results)]
pub struct ExTypedFunc<Params, Results>(wasmtime::TypedFunc<Params, Results>);

#[verifier::external_type_specification]
#[verifier::external_body]
pub struct ExWasiP1Ctx(wasmtime_wasi::p1::WasiP1Ctx);

#[verifier::external_type_specification]
#[verifier::external_body]
pub struct ExMemoryOutputPipe(wasmtime_wasi::p2::pipe::MemoryOutputPipe);

#[verifier::external_type_specification]
#[verifier::external_body]
#[verifier::reject_recursive_types(T)]
pub struct ExMutex<T: ?Sized>(std::sync::Mutex<T>);

/// Whether the byte sequence is a syntactically valid WebAssembly module
/// that the engine, under the library's one fixed configuration, accepts
/// for compilation.  Named but not written out: only the engine defines it.
pub uninterp spec fn valid_wasm_module(bytes: Seq<u8>) -> bool;

/// Relies on wasmtime's `Config` and `Engine::new`: a fresh engine with
/// the library's fixed configuration, which is the default except for a
/// modest linear-memory reservation, so that short-lived sandboxes do not
/// reserve gigabytes of address space per instance.  The two knobs only
/// tune memory placement; they do not change which modules compile.  Every
/// engine that reaches this library's compilation comes from here, so all
/// share that one configuration; should wasmtime reject it, the engine
/// falls back to wasmtime's default, never a panic of this library's own.
#[verifier::external_body]
fn fresh_engine() -> (e: wasmtime::Engine) {
    let mut config = wasmtime::Config::new();
    config.memory_reservation(1 << 26);
    config.memory_guard_size(1 << 16);
    wasmtime::Engine::new(&config).unwrap_or_else(|_| wasmtime::Engine::default())
}

/// Relies on wasmtime's `Module::from_binary`: validates and compiles the
/// byte sequence, succeeding exactly on valid modules (every engine of
/// this library carries the same fixed configuration, see `fresh_engine`);
/// a failure carries the engine's diagnostic text.
#[verifier::external_body]
fn module_from_binary(engine: &wasmtime::Engine, code: &[u8]) -> (r: Result<
    wasmtime::Module,
    String,
>)
    ensures
        r is Ok <==> valid_wasm_module(code@),
{
    wasmtime::Module::from_binary(engine, code).map_err(|e| format!("{e:?}"))
}

/// Relies on wasmtime-wasi's `MemoryOutputPipe::new`: a write pipe backed
/// by a fresh, private in-memory buffer, meant to stand in for stdout or
/// stderr of one sandboxed run.  The buffer grows with what is written:
/// the capacity bound is set out of reach.
#[verifier::external_body]
pub fn make_write_pipe() -> (p: wasmtime_wasi::p2::pipe::MemoryOutputPipe) {
    wasmtime_wasi::p2::pipe::MemoryOutputPipe::new(usize::MAX)
}

/// Relies on wasmtime-wasi's `MemoryOutputPipe::contents`: the bytes the
/// sandboxed run has written to this pipe so far.
#[verifier::external_body]
fn pipe_contents(p: &wasmtime_wasi::p2::pipe::MemoryOutputPipe) -> (r: Vec<u8>) {
    p.contents().to_vec()
}

/// Relies on wasmtime-wasi's `WasiCtxBuilder`: a WASI context whose stdin
/// reads the given argument string and whose stdout and stderr write to
/// the given capture pipes.
#[verifier::external_body]
fn wasi_context(
    args: &str,
    stdout: &wasmtime_wasi::p2::pipe::MemoryOutputPipe,
    stderr: &wasmtime_wasi::p2::pipe::MemoryOutputPipe,
) -> (ctx: wasmtime_wasi::p1::WasiP1Ctx) {
    wasmtime_wasi::WasiCtxBuilder::new()
        .stdin(wasmtime_wasi::p2::pipe::MemoryInputPipe::new(args.to_owned()))
        .stdout(stdout.clone())
        .stderr(stderr.clone())
        .build_p1()
}

/// A fresh instance of a module's entry function, bound to the store it
/// was instantiated in.  The pairing is private, so the entry can only
/// ever be called against its own store — wasmtime's typed call panics on
/// a function paired with a foreign store, and this shape makes such a
/// pair impossible to build in verified code.
pub struct EntryInstance {
    func: wasmtime::TypedFunc<(), ()>,
    store: wasmtime::Store<wasmtime_wasi::p1::WasiP1Ctx>,
}

/// Relies on wasmtime's `Store::new`, `Linker::new`,
/// `p1::add_to_linker_sync`, `Linker::instantiate` and
/// `Instance::get_typed_func`: builds a fresh store around the WASI
/// context, links the system-interface imports, instantiates the module
/// and looks up its parameterless, return-less conventional entry symbol
/// `_start`.  A failure carries the engine's diagnostic text.
#[verifier::external_body]
pub fn get_main_func(
    engine: &wasmtime::Engine,
    module: &wasmtime::Module,
    wasi: wasmtime_wasi::p1::WasiP1Ctx,
) -> (r: Result<EntryInstance, String>) {
    let mut store = wasmtime::Store::new(engine, wasi);
    let mut linker = wasmtime::Linker::new(engine);
    wasmtime_wasi::p1::add_to_linker_sync(&mut linker, |t| t).map_err(|e| format!("{e:?}"))?;
    let instance = linker.instantiate(&mut store, module).map_err(|e| format!("{e:?}"))?;
    let func = instance.get_typed_func::<(), ()>(&mut store, "_start").map_err(
        |e| format!("{e:?}"),
    )?;
    Ok(EntryInstance { func, store })
}

/// Relies on wasmtime's `TypedFunc::call`: runs the entry function to
/// completion against its own store; a normal return yields nothing, a
/// trap yields the trap's text.
#[verifier::external_body]
fn call_entry(entry: &mut EntryInstance) -> (r: Result<(), String>) {
    entry.func.call(&mut entry.store, ()).map_err(|e| format!("{e:?}"))
}

/// Relies on std's `Mutex::new`: puts the engine behind a lock.
#[verifier::external_body]
fn lock_new_engine(e: wasmtime::Engine) -> (m: std::sync::Mutex<wasmtime::Engine>) {
    std::sync::Mutex::new(e)
}

/// Relies on std's `Mutex::new`: puts the compiled module behind a lock.
#[verifier::external_body]
fn lock_new_module(m: wasmtime::Module) -> (r: std::sync::Mutex<wasmtime::Module>) {
    std::sync::Mutex::new(m)
}

/// Relies on std's `Mutex::lock` and wasmtime's `Engine::clone`: a clone of
/// the guarded engine, released before returning; nothing once the lock is
/// poisoned.
#[verifier::external_body]
fn lock_engine(m: &std::sync::Mutex<wasmtime::Engine>) -> (r: Option<wasmtime::Engine>) {
    m.lock().ok().map(|g| g.clone())
}

/// Relies on std's `Mutex::lock` and wasmtime's `Module::clone`: a clone of
/// the guarded module, released before returning; nothing once the lock is
/// poisoned.
#[verifier::external_body]
fn lock_module(m: &std::sync::Mutex<wasmtime::Module>) -> (r: Option<wasmtime::Module>) {
    m.lock().ok().map(|g| g.clone())
}

/// The process-wide engine handle: owns the runtime configuration, shared
/// by all compiled modules, guarded by a lock because concurrent
/// background threads acquire it.  Once published it is never mutated.
pub struct EngineResource {
    pub inner: std::sync::Mutex<wasmtime::Engine>,
}

impl EngineResource {
    /// Builds the engine handle with the library's fixed configuration.
    pub fn new() -> (r: EngineResource) {
        EngineResource { inner: lock_new_engine(fresh_engine()) }
    }

    /// A temporary borrow of the engine, released before this returns; a
    /// poisoned lock is fatal for the calling invocation only.
    pub fn acquire(&self) -> (r: Result<wasmtime::Engine, WorkerError>)
        ensures
            r matches Err(e) ==> e is ResourceUnavailable,
    {
        match lock_engine(&self.inner) {
            Some(e) => Ok(e),
            None => Err(WorkerError::ResourceUnavailable),
        }
    }
}

/// A compiled, validated module: built once per function version,
/// immutable after creation, lock-guarded only while the handle is read.
pub struct ModuleResource {
    pub inner: std::sync::Mutex<wasmtime::Module>,
}

impl ModuleResource {
    /// Validates and compiles the binary into a module handle; a failure
    /// reports the engine diagnostic text, and only invalid bytes fail.
    /// Crate-internal, so every engine handed in comes from
    /// [`EngineResource`] and carries the library's one configuration,
    /// which `module_from_binary`'s contract rests on.
    pub(crate) fn new(engine: &wasmtime::Engine, binary: &[u8]) -> (r: Result<
        ModuleResource,
        WorkerError,
    >)
        ensures
            r is Ok <==> valid_wasm_module(binary@),
            r matches Err(e) ==> e is Compile && !valid_wasm_module(binary@),
    {
        match module_from_binary(engine, binary) {
            Ok(module) => Ok(ModuleResource { inner: lock_new_module(module) }),
            Err(message) => Err(WorkerError::Compile { message }),
        }
    }

    /// A temporary borrow of the module, released before this returns; a
    /// poisoned lock is fatal for the calling invocation only.
    pub fn acquire(&self) -> (r: Result<wasmtime::Module, WorkerError>)
        ensures
            r matches Err(e) ==> e is ResourceUnavailable,
    {
        match lock_module(&self.inner) {
            Some(m) => Ok(m),
            None => Err(WorkerError::ResourceUnavailable),
        }
    }
}

/// Compiles the code under the shared engine handle.  CPU-bound: callers
/// must keep it off the thread serving the scheduler.
pub fn compile_module(engine_resource: &EngineResource, code: &[u8]) -> (r: Result<
    ModuleResource,
    WorkerError,
>)
    ensures
        r is Ok ==> valid_wasm_module(code@),
        r matches Err(e) ==> (e is ResourceUnavailable || (e is Compile && !valid_wasm_module(
            code@,
        ))),
{
    let engine = match engine_resource.acquire() {
        Ok(e) => e,
        Err(e) => {
            return Err(e);
        },
    };
    ModuleResource::new(&engine, code)
}

/// What one invocation produced: tagged success with the captured output
/// bytes, or failure with the captured diagnostic bytes.  A trap is not
/// classified further: the diagnostic stream is the only channel.
#[derive(Debug)]
pub enum ExecutionResult {
    Success { output: Vec<u8> },
    Failure { output: Vec<u8> },
}

/// Settles one finished call of a module's entry function: a normal
/// return surfaces exactly the captured stdout bytes as success, a trap
/// surfaces exactly the captured stderr bytes as failure.
pub fn settle_run(call: Result<(), String>, stdout: Vec<u8>, stderr: Vec<u8>) -> (r:
    ExecutionResult)
    ensures
        call is Ok ==> (r matches ExecutionResult::Success { output } && output@ == stdout@),
        call is Err ==> (r matches ExecutionResult::Failure { output } && output@ == stderr@),
{
    match call {
        Ok(_) => ExecutionResult::Success { output: stdout },
        Err(_) => ExecutionResult::Failure { output: stderr },
    }
}

/// Runs the compiled module once: acquires the shared handles, builds a
/// fresh execution context whose stdin reads `args` and whose stdout and
/// stderr are private capture buffers, links the system-interface imports,
/// instantiates, calls the conventional entry symbol and settles the
/// captured bytes.
///
/// The only errors are an unavailable resource lock and a link or
/// instantiate failure; a trap is a `Failure` result, not an error.
pub fn run_module_function(
    engine_resource: &EngineResource,
    module_resource: &ModuleResource,
    args: &str,
) -> (r: Result<ExecutionResult, WorkerError>)
    ensures
        r matches Err(e) ==> (e is ResourceUnavailable || e is Link),
{
    let engine = match engine_resource.acquire() {
        Ok(e) => e,
        Err(e) => {
            return Err(e);
        },
    };
    let module = match module_resource.acquire() {
        Ok(m) => m,
        Err(e) => {
            return Err(e);
        },
    };
    let stdout = make_write_pipe();
    let stderr = make_write_pipe();
    let wasi = wasi_context(args, &stdout, &stderr);
    let mut entry = match get_main_func(&engine, &module, wasi) {
        Ok(entry) => entry,
        Err(message) => {
            return Err(WorkerError::Link { message });
        },
    };
    let call = call_entry(&mut entry);
    let out_bytes = pipe_contents(&stdout);
    let err_bytes = pipe_contents(&stderr);
    Ok(settle_run(call, out_bytes, err_bytes))
}

} // verus!
