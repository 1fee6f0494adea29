use wasm_bridge::{BridgeError, HostValue, JSEngine, JSInstance, JSLinker, JSModule, JSStore, Value};

const PLAIN: &str = r#"
(module
  (func (export "seven") (result i32) i32.const 7))
"#;

const IMPORTING: &str = r#"
(module
  (import "host" "double" (func $double (param i32) (result i32)))
  (func (export "quadruple") (param i32) (result i32)
    local.get 0 call $double call $double))
"#;

const FAILING_START: &str = r#"
(module
  (func $start unreachable)
  (start $start))
"#;

fn compile(engine: &JSEngine, text: &str) -> JSModule {
    match JSModule::from_file(engine, text.as_bytes()) {
        Ok(module) => module,
        Err(e) => panic!("the module does not compile: {:?}", e),
    }
}

#[test]
fn module_compiles_from_text() {
    let engine = JSEngine::new();
    assert!(JSModule::from_file(&engine, PLAIN.as_bytes()).is_ok());
}

#[test]
fn module_compiles_from_binary() {
    let engine = JSEngine::new();
    // The empty module: magic number and version.
    let bytes: [u8; 8] = [0x00, 0x61, 0x73, 0x6d, 0x01, 0x00, 0x00, 0x00];
    assert!(JSModule::from_file(&engine, &bytes).is_ok());
}

#[test]
fn bytes_that_are_no_module_are_a_compilation_error() {
    let engine = JSEngine::new();
    match JSModule::from_file(&engine, b"\x00asm\x01\x00\x00\x00\xff\xff") {
        Err(BridgeError::Compilation(reason)) => assert!(reason.len() > 0),
        Err(other) => panic!("unexpected {:?}", other),
        Ok(_) => panic!("compiled"),
    }
    match JSModule::from_file(&engine, b"(module (func (result i32)))") {
        Err(BridgeError::Compilation(_)) => {}
        Err(other) => panic!("unexpected {:?}", other),
        Ok(_) => panic!("compiled"),
    }
    match JSModule::from_file(&engine, b"") {
        Err(BridgeError::Compilation(_)) => {}
        Err(other) => panic!("unexpected {:?}", other),
        Ok(_) => panic!("compiled"),
    }
}

#[test]
fn instance_of_a_module_without_imports() {
    let engine = JSEngine::new();
    let module = compile(&engine, PLAIN);
    let mut store = JSStore::new(&engine);
    let instance = JSInstance::new(&mut store, &module).ok().unwrap();
    let seven = instance.get_func(&mut store, String::from("seven")).unwrap();
    assert_eq!(seven.call(&mut store, &Vec::<HostValue>::new()), Ok(Some(Value::I32(7))));
}

#[test]
fn module_with_imports_does_not_instantiate_directly() {
    let engine = JSEngine::new();
    let module = compile(&engine, IMPORTING);
    let mut store = JSStore::new(&engine);
    match JSInstance::new(&mut store, &module) {
        Err(BridgeError::Instantiation(reason)) => assert!(reason.len() > 0),
        Err(other) => panic!("unexpected {:?}", other),
        Ok(_) => panic!("instantiated"),
    }
}

#[test]
fn trapping_start_function_is_an_instantiation_error() {
    let engine = JSEngine::new();
    let module = compile(&engine, FAILING_START);
    let mut store = JSStore::new(&engine);
    match JSInstance::new(&mut store, &module) {
        Err(BridgeError::Instantiation(_)) => {}
        Err(other) => panic!("unexpected {:?}", other),
        Ok(_) => panic!("instantiated"),
    }
}

#[test]
fn store_stays_usable_after_a_failed_instantiation() {
    let engine = JSEngine::new();
    let failing = compile(&engine, FAILING_START);
    let plain = compile(&engine, PLAIN);
    let mut store = JSStore::new(&engine);
    assert!(JSInstance::new(&mut store, &failing).is_err());
    let instance = JSInstance::new(&mut store, &plain).ok().unwrap();
    let seven = instance.get_func(&mut store, String::from("seven")).unwrap();
    assert_eq!(seven.call(&mut store, &Vec::<HostValue>::new()), Ok(Some(Value::I32(7))));
}

#[test]
fn module_of_another_engine_is_an_instantiation_error() {
    let engine = JSEngine::new();
    let other = JSEngine::new();
    let module = compile(&other, PLAIN);
    let mut store = JSStore::new(&engine);
    match JSInstance::new(&mut store, &module) {
        Err(BridgeError::Instantiation(_)) => {}
        Err(other) => panic!("unexpected {:?}", other),
        Ok(_) => panic!("instantiated"),
    }
}

#[test]
fn linker_instantiates_a_module_without_imports() {
    let engine = JSEngine::new();
    let module = compile(&engine, PLAIN);
    let mut store = JSStore::new(&engine);
    let linker = JSLinker::new(&engine);
    let instance = linker.instantiate(&mut store, &module).ok().unwrap();
    let seven = instance.get_func(&mut store, String::from("seven")).unwrap();
    assert_eq!(seven.call(&mut store, &Vec::<HostValue>::new()), Ok(Some(Value::I32(7))));
}

#[test]
fn linker_names_the_import_that_it_cannot_resolve() {
    let engine = JSEngine::new();
    let module = compile(&engine, IMPORTING);
    let mut store = JSStore::new(&engine);
    let linker = JSLinker::new(&engine);
    match linker.instantiate(&mut store, &module) {
        Err(BridgeError::UnresolvedImport(reason)) => {
            assert!(reason.contains("host"));
            assert!(reason.contains("double"));
        }
        Err(other) => panic!("unexpected {:?}", other),
        Ok(_) => panic!("instantiated"),
    }
}

#[test]
fn linker_reports_other_failures_as_instantiation_errors() {
    let engine = JSEngine::new();
    let module = compile(&engine, FAILING_START);
    let mut store = JSStore::new(&engine);
    let linker = JSLinker::new(&engine);
    match linker.instantiate(&mut store, &module) {
        Err(BridgeError::Instantiation(_)) => {}
        Err(other) => panic!("unexpected {:?}", other),
        Ok(_) => panic!("instantiated"),
    }
}

#[test]
fn one_module_in_two_instances() {
    let engine = JSEngine::new();
    let module = compile(&engine, PLAIN);
    let mut store = JSStore::new(&engine);
    let first = JSInstance::new(&mut store, &module).ok().unwrap();
    let second = JSInstance::new(&mut store, &module).ok().unwrap();
    let a = first.get_func(&mut store, String::from("seven")).unwrap();
    let b = second.get_func(&mut store, String::from("seven")).unwrap();
    assert_eq!(a.call(&mut store, &Vec::<HostValue>::new()), Ok(Some(Value::I32(7))));
    assert_eq!(b.call(&mut store, &Vec::<HostValue>::new()), Ok(Some(Value::I32(7))));
}

#[test]
fn engine_decides_by_the_contents() {
    let engine = JSEngine::new();
    let good = PLAIN.as_bytes();
    let bad: &[u8] = b"(module (func (result i32)))";
    assert!(JSModule::from_file(&engine, good).is_ok());
    assert!(JSModule::from_file(&engine, bad).is_err());
    assert!(JSModule::from_file(&engine, good).is_ok());
    assert!(JSModule::from_file(&engine, bad).is_err());
}
