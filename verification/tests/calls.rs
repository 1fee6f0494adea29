use wasm_bridge::{
    BridgeError, HostValue, JSEngine, JSInstance, JSModule, JSStore, Side, Value, ValueKind, WasmFunction,
};

const MODULE: &str = r#"
(module
  (global $count (mut i32) (i32.const 0))
  (table (export "table") 1 funcref)
  (global (export "answer") i32 (i32.const 42))
  (func (export "add") (param i32 i32) (result i32)
    local.get 0 local.get 1 i32.add)
  (func (export "add64") (param i64 i64) (result i64)
    local.get 0 local.get 1 i64.add)
  (func (export "addf") (param f64 f64) (result f64)
    local.get 0 local.get 1 f64.add)
  (func (export "add_as_double") (param i32 i32) (result f64)
    local.get 0 local.get 1 i32.add f64.convert_i32_s)
  (func (export "mixed") (param i32 i64 f64) (result f64)
    local.get 0 f64.convert_i32_s
    local.get 1 f64.convert_i64_s f64.add
    local.get 2 f64.add)
  (func (export "half") (result f32) f32.const 0.5)
  (func (export "div") (param i32 i32) (result i32)
    local.get 0 local.get 1 i32.div_s)
  (func (export "nop"))
  (func (export "pair") (result i32 i32) i32.const 1 i32.const 2)
  (func $bump (export "bump") (param i32) (result i32)
    global.get $count i32.const 1 i32.add global.set $count
    global.get $count)
  (func (export "count") (result i32) global.get $count)
  (func (export "single") (param f32) (result i32)
    global.get $count i32.const 1 i32.add global.set $count
    i32.const 0)
  (func (export "takes_ref") (param i32 externref) (result i32)
    global.get $count i32.const 1 i32.add global.set $count
    i32.const 0)
  (func (export "vector") (result v128)
    global.get $count i32.const 1 i32.add global.set $count
    v128.const i64x2 0 0)
  (func (export "reference") (param i32) (result funcref)
    global.get $count i32.const 1 i32.add global.set $count
    ref.null func)
  (func (export "bump_pair") (result i32 i32)
    global.get $count i32.const 1 i32.add global.set $count
    i32.const 1 i32.const 2)
)
"#;

fn number(x: f64) -> HostValue {
    HostValue::Number { int32: x as i32, int64: x as i64, double_bits: x.to_bits() }
}

fn text(s: &str) -> HostValue {
    HostValue::Text(String::from(s))
}

fn instantiate() -> (JSStore, JSInstance) {
    let engine = JSEngine::new();
    let module = match JSModule::from_file(&engine, MODULE.as_bytes()) {
        Ok(module) => module,
        Err(e) => panic!("the module does not compile: {:?}", e),
    };
    let mut store = JSStore::new(&engine);
    let instance = match JSInstance::new(&mut store, &module) {
        Ok(instance) => instance,
        Err(e) => panic!("the module does not instantiate: {:?}", e),
    };
    (store, instance)
}

fn export(store: &mut JSStore, instance: &JSInstance, name: &str) -> WasmFunction {
    match instance.get_func(store, String::from(name)) {
        Some(function) => function,
        None => panic!("no export named {}", name),
    }
}

fn count(store: &mut JSStore, instance: &JSInstance) -> Value {
    let counter = export(store, instance, "count");
    counter.call(store, &vec![]).unwrap().unwrap()
}

#[test]
fn add_two_integers() {
    let (mut store, instance) = instantiate();
    assert!(instance.get_func(&mut store, String::from("add")).is_some());
    let add = export(&mut store, &instance, "add");
    assert_eq!(add.call(&mut store, &vec![number(2.0), number(3.0)]), Ok(Some(Value::I32(5))));
    assert_eq!(
        add.call(&mut store, &vec![text("x"), number(3.0)]),
        Err(BridgeError::ArgumentType { position: 0 })
    );
}

#[test]
fn integer_sum_returned_as_a_double() {
    let (mut store, instance) = instantiate();
    let add = export(&mut store, &instance, "add_as_double");
    match add.call(&mut store, &vec![number(2.0), number(3.0)]) {
        Ok(Some(Value::F64(bits))) => assert_eq!(f64::from_bits(bits), 5.0),
        other => panic!("unexpected {:?}", other),
    }
}

#[test]
fn result_is_of_the_declared_kind() {
    let (mut store, instance) = instantiate();
    let cases = vec![
        ("add", vec![number(1.0), number(2.0)]),
        ("add64", vec![number(1.0), number(2.0)]),
        ("addf", vec![number(1.0), number(2.0)]),
        ("add_as_double", vec![number(1.0), number(2.0)]),
        ("mixed", vec![number(1.0), number(2.0), number(3.0)]),
        ("half", vec![]),
    ];
    for (name, args) in cases {
        let function = export(&mut store, &instance, name);
        let declared = function.ty(&mut store).results()[0];
        let value = function.call(&mut store, &args).unwrap().unwrap();
        assert_eq!(value.kind(), declared);
    }
}

#[test]
fn sixty_four_bit_integers_pass_through() {
    let (mut store, instance) = instantiate();
    let add = export(&mut store, &instance, "add64");
    let big = HostValue::Number { int32: 0, int64: 1 << 40, double_bits: ((1u64 << 40) as f64).to_bits() };
    assert_eq!(add.call(&mut store, &vec![big, number(1.0)]), Ok(Some(Value::I64((1 << 40) + 1))));
}

#[test]
fn integer_parameter_takes_the_integer_conversion() {
    let (mut store, instance) = instantiate();
    let add = export(&mut store, &instance, "add");
    let odd = HostValue::Number { int32: 10, int64: 20, double_bits: 30.0f64.to_bits() };
    assert_eq!(add.call(&mut store, &vec![odd, number(1.0)]), Ok(Some(Value::I32(11))));
    let add64 = export(&mut store, &instance, "add64");
    let odd = HostValue::Number { int32: 10, int64: 20, double_bits: 30.0f64.to_bits() };
    assert_eq!(add64.call(&mut store, &vec![odd, number(1.0)]), Ok(Some(Value::I64(21))));
}

#[test]
fn doubles_pass_by_their_bits() {
    let (mut store, instance) = instantiate();
    let add = export(&mut store, &instance, "addf");
    match add.call(&mut store, &vec![number(0.25), number(2.5)]) {
        Ok(Some(Value::F64(bits))) => assert_eq!(f64::from_bits(bits), 2.75),
        other => panic!("unexpected {:?}", other),
    }
    let odd = HostValue::Number { int32: 10, int64: 20, double_bits: 30.0f64.to_bits() };
    match add.call(&mut store, &vec![odd, number(1.0)]) {
        Ok(Some(Value::F64(bits))) => assert_eq!(f64::from_bits(bits), 31.0),
        other => panic!("unexpected {:?}", other),
    }
}

#[test]
fn mixed_parameter_kinds() {
    let (mut store, instance) = instantiate();
    let mixed = export(&mut store, &instance, "mixed");
    match mixed.call(&mut store, &vec![number(1.0), number(2.0), number(0.5)]) {
        Ok(Some(Value::F64(bits))) => assert_eq!(f64::from_bits(bits), 3.5),
        other => panic!("unexpected {:?}", other),
    }
}

#[test]
fn single_precision_result_comes_as_its_bits() {
    let (mut store, instance) = instantiate();
    let half = export(&mut store, &instance, "half");
    match half.call(&mut store, &vec![]) {
        Ok(Some(Value::F32(bits))) => {
            assert_eq!(bits, 0.5f32.to_bits());
            assert_eq!(f32::from_bits(bits) as f64, 0.5f64);
        }
        other => panic!("unexpected {:?}", other),
    }
}

#[test]
fn no_result_gives_nothing() {
    let (mut store, instance) = instantiate();
    let nop = export(&mut store, &instance, "nop");
    assert_eq!(nop.call(&mut store, &vec![]), Ok(None));
}

#[test]
fn extra_arguments_are_ignored() {
    let (mut store, instance) = instantiate();
    let add = export(&mut store, &instance, "add");
    assert_eq!(
        add.call(&mut store, &vec![number(2.0), number(3.0), text("more"), HostValue::Null]),
        Ok(Some(Value::I32(5)))
    );
}

#[test]
fn non_numeric_argument_is_refused_and_nothing_runs() {
    let (mut store, instance) = instantiate();
    let bump = export(&mut store, &instance, "bump");
    let cases = vec![
        HostValue::Undefined,
        HostValue::Null,
        HostValue::Boolean(true),
        text("1"),
        HostValue::Object,
    ];
    for bad in cases {
        assert_eq!(bump.call(&mut store, &vec![bad]), Err(BridgeError::ArgumentType { position: 0 }));
    }
    assert_eq!(count(&mut store, &instance), Value::I32(0));
    assert_eq!(bump.call(&mut store, &vec![number(0.0)]), Ok(Some(Value::I32(1))));
    assert_eq!(count(&mut store, &instance), Value::I32(1));
}

#[test]
fn missing_argument_is_refused_and_nothing_runs() {
    let (mut store, instance) = instantiate();
    let bump = export(&mut store, &instance, "bump");
    assert_eq!(bump.call(&mut store, &vec![]), Err(BridgeError::ArgumentType { position: 0 }));
    let add = export(&mut store, &instance, "add");
    assert_eq!(add.call(&mut store, &vec![number(1.0)]), Err(BridgeError::ArgumentType { position: 1 }));
    assert_eq!(count(&mut store, &instance), Value::I32(0));
}

#[test]
fn single_precision_parameter_is_unsupported() {
    let (mut store, instance) = instantiate();
    let single = export(&mut store, &instance, "single");
    assert_eq!(
        single.call(&mut store, &vec![number(1.0)]),
        Err(BridgeError::UnsupportedType { kind: ValueKind::F32, side: Side::Parameter, position: 0 })
    );
    assert_eq!(count(&mut store, &instance), Value::I32(0));
}

#[test]
fn reference_parameter_is_unsupported() {
    let (mut store, instance) = instantiate();
    let takes_ref = export(&mut store, &instance, "takes_ref");
    assert_eq!(
        takes_ref.call(&mut store, &vec![number(1.0), HostValue::Object]),
        Err(BridgeError::UnsupportedType { kind: ValueKind::Ref, side: Side::Parameter, position: 1 })
    );
    assert_eq!(
        takes_ref.call(&mut store, &vec![HostValue::Null, HostValue::Object]),
        Err(BridgeError::ArgumentType { position: 0 })
    );
    assert_eq!(count(&mut store, &instance), Value::I32(0));
}

#[test]
fn vector_result_is_unsupported() {
    let (mut store, instance) = instantiate();
    let vector = export(&mut store, &instance, "vector");
    assert_eq!(
        vector.call(&mut store, &vec![]),
        Err(BridgeError::UnsupportedType { kind: ValueKind::V128, side: Side::Result, position: 0 })
    );
    assert_eq!(count(&mut store, &instance), Value::I32(0));
}

#[test]
fn reference_result_is_unsupported() {
    let (mut store, instance) = instantiate();
    let reference = export(&mut store, &instance, "reference");
    assert_eq!(
        reference.call(&mut store, &vec![text("x")]),
        Err(BridgeError::UnsupportedType { kind: ValueKind::Ref, side: Side::Result, position: 0 })
    );
    assert_eq!(count(&mut store, &instance), Value::I32(0));
}

#[test]
fn two_results_are_refused() {
    let (mut store, instance) = instantiate();
    let pair = export(&mut store, &instance, "pair");
    assert_eq!(pair.call(&mut store, &vec![]), Err(BridgeError::MultiResultUnsupported));
}

#[test]
fn two_results_are_refused_after_the_callee_ran() {
    let (mut store, instance) = instantiate();
    let pair = export(&mut store, &instance, "bump_pair");
    assert_eq!(pair.call(&mut store, &vec![]), Err(BridgeError::MultiResultUnsupported));
    assert_eq!(count(&mut store, &instance), Value::I32(1));
}

#[test]
fn same_call_twice_gives_the_same() {
    let (mut store, instance) = instantiate();
    let add = export(&mut store, &instance, "add");
    let first = add.call(&mut store, &vec![number(20.0), number(22.0)]);
    let second = add.call(&mut store, &vec![number(20.0), number(22.0)]);
    assert_eq!(first, Ok(Some(Value::I32(42))));
    assert_eq!(first, second);
    let mixed = export(&mut store, &instance, "mixed");
    let first = mixed.call(&mut store, &vec![number(1.0), number(2.0), number(0.5)]);
    let second = mixed.call(&mut store, &vec![number(1.0), number(2.0), number(0.5)]);
    assert_eq!(first, second);
}

#[test]
fn trap_is_an_invocation_error_and_the_store_stays_usable() {
    let (mut store, instance) = instantiate();
    let div = export(&mut store, &instance, "div");
    match div.call(&mut store, &vec![number(1.0), number(0.0)]) {
        Err(BridgeError::Invocation(description)) => assert!(description.len() > 0),
        other => panic!("unexpected {:?}", other),
    }
    let add = export(&mut store, &instance, "add");
    assert_eq!(add.call(&mut store, &vec![number(2.0), number(3.0)]), Ok(Some(Value::I32(5))));
    assert_eq!(div.call(&mut store, &vec![number(7.0), number(2.0)]), Ok(Some(Value::I32(3))));
}

#[test]
fn state_of_the_store_lasts_between_calls() {
    let (mut store, instance) = instantiate();
    let bump = export(&mut store, &instance, "bump");
    assert_eq!(bump.call(&mut store, &vec![number(0.0)]), Ok(Some(Value::I32(1))));
    assert_eq!(bump.call(&mut store, &vec![number(0.0)]), Ok(Some(Value::I32(2))));
    assert_eq!(count(&mut store, &instance), Value::I32(2));
}

#[test]
fn absent_export_is_nothing() {
    let (mut store, instance) = instantiate();
    assert!(instance.get_func(&mut store, String::from("missing")).is_none());
    assert!(instance.get_func(&mut store, String::from("")).is_none());
    assert!(instance.get_func(&mut store, String::from("Add")).is_none());
}

#[test]
fn export_that_is_no_function_is_nothing() {
    let (mut store, instance) = instantiate();
    assert!(instance.get_func(&mut store, String::from("table")).is_none());
    assert!(instance.get_func(&mut store, String::from("answer")).is_none());
}

#[test]
fn signature_is_the_one_of_the_export() {
    let (mut store, instance) = instantiate();
    let mixed = export(&mut store, &instance, "mixed");
    let ty = mixed.ty(&mut store);
    assert_eq!(ty.params(), &vec![ValueKind::I32, ValueKind::I64, ValueKind::F64]);
    assert_eq!(ty.results(), &vec![ValueKind::F64]);
    let nop = export(&mut store, &instance, "nop");
    let ty = nop.ty(&mut store);
    assert_eq!(ty.params(), &Vec::<ValueKind>::new());
    assert_eq!(ty.results(), &Vec::<ValueKind>::new());
}

#[test]
fn signature_names_every_kind() {
    let (mut store, instance) = instantiate();
    let single = export(&mut store, &instance, "single");
    assert_eq!(single.ty(&mut store).params(), &vec![ValueKind::F32]);
    let takes_ref = export(&mut store, &instance, "takes_ref");
    assert_eq!(takes_ref.ty(&mut store).params(), &vec![ValueKind::I32, ValueKind::Ref]);
    let vector = export(&mut store, &instance, "vector");
    assert_eq!(vector.ty(&mut store).results(), &vec![ValueKind::V128]);
    let reference = export(&mut store, &instance, "reference");
    assert_eq!(reference.ty(&mut store).results(), &vec![ValueKind::Ref]);
    let pair = export(&mut store, &instance, "pair");
    assert_eq!(pair.ty(&mut store).results(), &vec![ValueKind::I32, ValueKind::I32]);
    let half = export(&mut store, &instance, "half");
    assert_eq!(half.ty(&mut store).results(), &vec![ValueKind::F32]);
}

#[test]
fn two_stores_of_one_engine_do_not_share_state() {
    let engine = JSEngine::new();
    let module = match JSModule::from_file(&engine, MODULE.as_bytes()) {
        Ok(module) => module,
        Err(e) => panic!("the module does not compile: {:?}", e),
    };
    let mut first = JSStore::new(&engine);
    let mut second = JSStore::new(&engine);
    let in_first = JSInstance::new(&mut first, &module).ok().unwrap();
    let in_second = JSInstance::new(&mut second, &module).ok().unwrap();
    let bump = export(&mut first, &in_first, "bump");
    assert_eq!(bump.call(&mut first, &vec![number(0.0)]), Ok(Some(Value::I32(1))));
    assert_eq!(count(&mut first, &in_first), Value::I32(1));
    assert_eq!(count(&mut second, &in_second), Value::I32(0));
}
