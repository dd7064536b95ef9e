use funless_worker::registry::Registry;
use funless_worker::wasm::{compile_module, EngineResource};

const EMPTY_WASM: [u8; 8] = [0, 97, 115, 109, 1, 0, 0, 0];

#[test]
fn engine_is_created_lazily_and_shared() {
    let mut registry = Registry::new();
    assert!(registry.acquire_engine().is_ok());
    assert!(registry.acquire_engine().is_ok());
}

#[test]
fn unregistered_module_is_absent() {
    let registry = Registry::new();
    assert!(matches!(registry.acquire_module(7), Ok(None)));
}

#[test]
fn registered_module_is_acquired_and_others_stay_absent() {
    let mut registry = Registry::new();
    let engine = EngineResource::new();
    let module = compile_module(&engine, &EMPTY_WASM).unwrap();
    registry.register_module(7, module);
    assert!(matches!(registry.acquire_module(7), Ok(Some(_))));
    assert!(matches!(registry.acquire_module(8), Ok(None)));
}

#[test]
fn compile_and_register_publishes_under_the_id() {
    let mut registry = Registry::new();
    assert!(registry.compile_and_register(3, &EMPTY_WASM).is_ok());
    assert!(matches!(registry.acquire_module(3), Ok(Some(_))));
    assert!(matches!(registry.acquire_module(4), Ok(None)));
}

#[test]
fn compile_and_register_rejects_invalid_bytes_and_registers_nothing() {
    let mut registry = Registry::new();
    let garbage: Vec<u8> = vec![9, 9, 9, 9];
    assert!(matches!(
        registry.compile_and_register(3, &garbage),
        Err(funless_worker::errors::WorkerError::Compile { .. })
    ));
    assert!(matches!(registry.acquire_module(3), Ok(None)));
}

#[test]
fn registration_replaces_wholesale() {
    let mut registry = Registry::new();
    let engine = EngineResource::new();
    let first = compile_module(&engine, &EMPTY_WASM).unwrap();
    let second = compile_module(&engine, &EMPTY_WASM).unwrap();
    registry.register_module(7, first);
    registry.register_module(7, second);
    assert!(matches!(registry.acquire_module(7), Ok(Some(_))));
    assert!(matches!(registry.acquire_module(8), Ok(None)));
}
