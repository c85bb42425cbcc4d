use wasmex::bridge::{AbortReason, CallbackRegistry};
use wasmex::dispatch::{finish_call, prepare_call, CallFailure};
use wasmex::memory::{check_range, ResourceError};
use wasmex::values::{
    encode_results, to_guest_value, GuestValue, HostNumber, HostValue, ValKind, WasmValue,
};
use wasmtime::{
    Caller, Config, Engine, FuncType, Linker, Memory, MemoryType, Module, Store, Trap, Val, ValType,
};

const ADD: &str = r#"(module
  (func (export "add") (param i32 i32) (result i32)
    local.get 0 local.get 1 i32.add))"#;

const FLOAT_ID: &str = r#"(module
  (func (export "id32") (param f32) (result f32) local.get 0)
  (func (export "id64") (param f64) (result f64) local.get 0))"#;

const CALLS_HOST: &str = r#"(module
  (import "host" "double" (func $double (param i32) (result i32)))
  (func (export "run") (result i32)
    i32.const 21 call $double))"#;

fn kind(t: ValType) -> ValKind {
    match t {
        ValType::I32 => ValKind::I32,
        ValType::I64 => ValKind::I64,
        ValType::F32 => ValKind::F32,
        ValType::F64 => ValKind::F64,
        ValType::V128 => ValKind::V128,
        ValType::FuncRef => ValKind::FuncRef,
        ValType::ExternRef => ValKind::ExternRef,
    }
}

fn to_val(g: GuestValue) -> Val {
    match g {
        GuestValue::I32(n) => Val::I32(n),
        GuestValue::I64(n) => Val::I64(n),
        GuestValue::F32(b) => Val::F32(b),
        GuestValue::F64(b) => Val::F64(b),
        GuestValue::V128(b) => Val::V128(b),
        GuestValue::FuncRef => Val::FuncRef(None),
        GuestValue::ExternRef => Val::ExternRef(None),
    }
}

fn from_val(v: &Val) -> GuestValue {
    match v {
        Val::I32(n) => GuestValue::I32(*n),
        Val::I64(n) => GuestValue::I64(*n),
        Val::F32(b) => GuestValue::F32(*b),
        Val::F64(b) => GuestValue::F64(*b),
        Val::V128(b) => GuestValue::V128(*b),
        Val::FuncRef(_) => GuestValue::FuncRef,
        Val::ExternRef(_) => GuestValue::ExternRef,
    }
}

/// Runs an export the way a worker does: resolve, prepare, call, finish.
fn run_export<T>(
    store: &mut Store<T>,
    instance: &wasmtime::Instance,
    name: &str,
    args: Vec<HostValue>,
) -> Result<Vec<HostNumber>, CallFailure> {
    let function = instance.get_func(&mut *store, name);
    let kinds = function.map(|f| f.ty(&*store).params().map(kind).collect::<Vec<_>>());
    let guest_args = prepare_call(&name.to_string(), &kinds, &args)?;
    let function = function.expect("prepared arguments imply a function");
    let args: Vec<Val> = guest_args.into_iter().map(to_val).collect();
    let mut results = vec![Val::I32(0); function.ty(&*store).results().len()];
    let outcome = function
        .call(&mut *store, &args, &mut results)
        .map(|()| results.iter().map(from_val).collect())
        .map_err(|e| e.to_string());
    finish_call(outcome)
}

/// Links `host.double` so that each call registers a callback, has `answer`
/// reply to it at once, and takes the outcome back into the guest.
fn instance_with_host(
    answer: fn(&mut CallbackRegistry, u64, Vec<HostNumber>),
) -> (Store<CallbackRegistry>, wasmtime::Instance) {
    let engine = Engine::default();
    let module = Module::new(&engine, CALLS_HOST).unwrap();
    let mut linker: Linker<CallbackRegistry> = Linker::new(&engine);
    let ty = FuncType::new([ValType::I32], [ValType::I32]);
    linker
        .func_new(
            "host",
            "double",
            ty,
            move |mut caller: Caller<'_, CallbackRegistry>, args: &[Val], out: &mut [Val]| {
                let guest: Vec<GuestValue> = args.iter().map(from_val).collect();
                let host_args = encode_results(&guest).unwrap();
                let registry = caller.data_mut();
                let token = registry.register(vec![ValKind::I32]).unwrap();
                answer(registry, token, host_args);
                match registry.take_reply(token) {
                    Some(Ok(values)) => {
                        for (slot, v) in out.iter_mut().zip(values) {
                            *slot = to_val(to_guest_value(v));
                        }
                        Ok(())
                    }
                    Some(Err(AbortReason::HostFailure)) => Err(Trap::new("host failure")),
                    Some(Err(AbortReason::BadResults(_))) => Err(Trap::new("bad results")),
                    None => Err(Trap::new("no reply")),
                }
            },
        )
        .unwrap();
    let mut store = Store::new(&engine, CallbackRegistry::new());
    let instance = linker.instantiate(&mut store, &module).unwrap();
    (store, instance)
}

#[test]
fn engine_add_export_returns_five() {
    let engine = Engine::default();
    let module = Module::new(&engine, ADD).unwrap();
    let mut store = Store::new(&engine, ());
    let instance = Linker::new(&engine).instantiate(&mut store, &module).unwrap();
    let r = run_export(
        &mut store,
        &instance,
        "add",
        vec![HostValue::Integer(2), HostValue::Integer(3)],
    );
    match r {
        Ok(values) => assert_eq!(values, vec![HostNumber::Integer(5)]),
        Err(e) => panic!("unexpected failure {:?}", e),
    }
}

#[test]
fn engine_missing_export_is_not_found() {
    let engine = Engine::default();
    let module = Module::new(&engine, ADD).unwrap();
    let mut store = Store::new(&engine, ());
    let instance = Linker::new(&engine).instantiate(&mut store, &module).unwrap();
    match run_export(&mut store, &instance, "sub", vec![]) {
        Err(CallFailure::ExportNotFound(name)) => assert_eq!(name, "sub"),
        other => panic!("unexpected {:?}", other),
    }
}

#[test]
fn engine_host_import_reply_flows_through() {
    let (mut store, instance) = instance_with_host(|registry, token, args| {
        assert_eq!(args, vec![HostNumber::Integer(21)]);
        registry
            .receive_callback_result(token, true, vec![HostValue::Integer(42)])
            .unwrap();
    });
    match run_export(&mut store, &instance, "run", vec![]) {
        Ok(values) => assert_eq!(values, vec![HostNumber::Integer(42)]),
        Err(e) => panic!("unexpected failure {:?}", e),
    }
    assert_eq!(store.data_mut().take_reply(0), None);
}

#[test]
fn engine_host_import_failure_traps() {
    let (mut store, instance) = instance_with_host(|registry, token, _args| {
        registry.receive_callback_result(token, false, vec![]).unwrap();
    });
    match run_export(&mut store, &instance, "run", vec![]) {
        Err(CallFailure::TrapOrHostError(_)) => {}
        other => panic!("unexpected {:?}", other),
    }
}

#[test]
fn engine_memory_grow_reports_previous_pages() {
    // Dynamic memories reserve only what they hold, not a large static region.
    let mut config = Config::new();
    config.static_memory_maximum_size(0);
    let engine = Engine::new(&config).unwrap();
    let mut store = Store::new(&engine, ());
    let memory = Memory::new(&mut store, MemoryType::new(1, None)).unwrap();
    assert_eq!(memory.grow(&mut store, 2).unwrap(), 1);
    assert_eq!(memory.size(&store), 3);
    let size = memory.data_size(&store);
    assert_eq!(size, 3 * 65536);
    assert_eq!(check_range(size, size - 1, 1), Ok(()));
    assert_eq!(check_range(size, size, 1), Err(ResourceError::OutOfBounds));
}

#[test]
fn decoded_values_reach_the_engine_bit_exact() {
    let decoded = vec![WasmValue::F64(0.1f64.to_bits()), WasmValue::F32(0.1f32.to_bits())];
    let vals: Vec<Val> = decoded.iter().map(|w| to_val(to_guest_value(*w))).collect();
    assert_eq!(vals[0].unwrap_f64().to_bits(), 0.1f64.to_bits());
    assert_eq!(vals[1].unwrap_f32().to_bits(), 0.1f32.to_bits());
}

#[test]
fn engine_float_identity_gives_back_the_float() {
    let engine = Engine::default();
    let module = Module::new(&engine, FLOAT_ID).unwrap();
    let mut store = Store::new(&engine, ());
    let instance = Linker::new(&engine).instantiate(&mut store, &module).unwrap();
    let x = 0.375f64;
    let arg = HostValue::Float { bits: x.to_bits(), narrowed: (x as f32).to_bits() };
    match run_export(&mut store, &instance, "id32", vec![arg]) {
        Ok(values) => assert_eq!(values, vec![HostNumber::Single(0.375f32.to_bits())]),
        Err(e) => panic!("unexpected failure {:?}", e),
    }
    match run_export(&mut store, &instance, "id64", vec![arg]) {
        Ok(values) => assert_eq!(values, vec![HostNumber::Double(x.to_bits())]),
        Err(e) => panic!("unexpected failure {:?}", e),
    }
}
