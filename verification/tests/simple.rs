use walrus::ir::Value;
use walrus::{ConstExpr, DataKind, GlobalKind, Module, ValType};
use wasm_share_memory::simple::{get_heap_base, relocate, relocate_module, Step};
use wasm_share_memory::{RelocateError, Symbol};

const STACK_POINTER: &str = "__stack_pointer";
const MEMORY_BASE: &str = "GOT.data.internal.__memory_base";

fn add_global(module: &mut Module, name: Option<&str>, value: i32) -> walrus::GlobalId {
    let id = module.globals.add_local(ValType::I32, true, false, ConstExpr::Value(Value::I32(value)));
    module.globals.get_mut(id).name = name.map(|text| text.to_string());
    id
}

fn add_segment(module: &mut Module, memory: walrus::MemoryId, offset: i32) {
    module.data.add(
        DataKind::Active { memory, offset: ConstExpr::Value(Value::I32(offset)) },
        vec![5, 6],
    );
}

fn global_values(module: &Module) -> Vec<Option<i32>> {
    module
        .globals
        .iter()
        .map(|global| match global.kind {
            GlobalKind::Local(ConstExpr::Value(Value::I32(value))) => Some(value),
            _ => None,
        })
        .collect()
}

fn named_global(module: &Module, name: &str) -> Option<i32> {
    let global = module.globals.iter().filter(|global| global.name.as_deref() == Some(name)).last()?;
    match global.kind {
        GlobalKind::Local(ConstExpr::Value(Value::I32(value))) => Some(value),
        _ => None,
    }
}

fn segment_offsets(module: &Module) -> Vec<Option<i32>> {
    module
        .data
        .iter()
        .map(|data| match data.kind {
            DataKind::Active { offset: ConstExpr::Value(Value::I32(value)), .. } => Some(value),
            _ => None,
        })
        .collect()
}

fn sample() -> Module {
    let mut module = Module::default();
    add_global(&mut module, Some(STACK_POINTER), 1024);
    add_global(&mut module, Some(MEMORY_BASE), 512);
    let heap = add_global(&mut module, None, 2048);
    add_global(&mut module, None, 1500);
    module.exports.add("__heap_base", heap);
    let memory = module.memories.add_local(false, false, 1, None, None);
    add_segment(&mut module, memory, 1100);
    module.data.add(DataKind::Passive, vec![7]);
    add_segment(&mut module, memory, 0);
    module
}

#[test]
fn reduced_relocation_in_place() {
    let mut module = sample();
    assert_eq!(relocate_module(&mut module, 4096), (Step::Patched, Step::Patched));
    // The memory base is the offset itself; the heap base and the other
    // globals stay.
    assert_eq!(global_values(&module), vec![Some(5120), Some(4096), Some(2048), Some(1500)]);
    assert_eq!(segment_offsets(&module), vec![Some(5196), None, Some(4096)]);
}

#[test]
fn reduced_relocation_through_the_bytes() {
    let wasm = sample().emit_wasm();
    let done = relocate(&wasm, 4096).unwrap();
    assert_eq!(done.memory_base, Step::Patched);
    assert_eq!(done.stack_pointer, Step::Patched);
    let module = Module::from_buffer(&done.wasm).unwrap();
    assert_eq!(named_global(&module, STACK_POINTER), Some(5120));
    assert_eq!(named_global(&module, MEMORY_BASE), Some(4096));
    assert_eq!(segment_offsets(&module), vec![Some(5196), None, Some(4096)]);
    assert_eq!(get_heap_base(&done.wasm), Ok(2048));
}

#[test]
fn reduced_relocation_needs_no_routine_and_no_heap_base() {
    let mut module = Module::default();
    add_global(&mut module, Some(STACK_POINTER), 100);
    let wasm = module.emit_wasm();
    let done = relocate(&wasm, -30).unwrap();
    assert_eq!(done.memory_base, Step::Missing);
    assert_eq!(done.stack_pointer, Step::Patched);
    let module = Module::from_buffer(&done.wasm).unwrap();
    assert_eq!(named_global(&module, STACK_POINTER), Some(70));
}

#[test]
fn missing_symbols_are_passed_over() {
    let mut module = Module::default();
    add_global(&mut module, None, 1024);
    let memory = module.memories.add_local(false, false, 1, None, None);
    add_segment(&mut module, memory, 8);
    assert_eq!(relocate_module(&mut module, 16), (Step::Missing, Step::Missing));
    assert_eq!(global_values(&module), vec![Some(1024)]);
    assert_eq!(segment_offsets(&module), vec![Some(24)]);
}

#[test]
fn symbols_of_another_kind_are_passed_over() {
    let mut module = Module::default();
    let wide = module.globals.add_local(ValType::I64, true, false, ConstExpr::Value(Value::I64(1024)));
    module.globals.get_mut(wide).name = Some(STACK_POINTER.to_string());
    let (imported, _) = module.add_import_global("env", "base", ValType::I32, false, false);
    module.globals.get_mut(imported).name = Some(MEMORY_BASE.to_string());
    assert_eq!(relocate_module(&mut module, 16), (Step::NotConstant, Step::NotConstant));
    assert!(matches!(
        module.globals.get(wide).kind,
        GlobalKind::Local(ConstExpr::Value(Value::I64(1024)))
    ));
    assert!(matches!(module.globals.get(imported).kind, GlobalKind::Import(_)));
}

#[test]
fn reduced_relocation_wraps_at_32_bits() {
    let mut module = Module::default();
    add_global(&mut module, Some(STACK_POINTER), i32::MAX);
    assert_eq!(relocate_module(&mut module, 1), (Step::Missing, Step::Patched));
    assert_eq!(global_values(&module), vec![Some(i32::MIN)]);
}

#[test]
fn reduced_relocation_refuses_malformed_bytes() {
    assert_eq!(relocate(&[1, 2, 3], 16).unwrap_err(), RelocateError::Malformed);
    assert_eq!(get_heap_base(&[1, 2, 3]), Err(RelocateError::Malformed));
}

#[test]
fn heap_base_is_asked_of_the_exports() {
    let mut module = Module::default();
    add_global(&mut module, Some("__heap_base"), 2048);
    let wasm = module.emit_wasm();
    assert_eq!(get_heap_base(&wasm), Err(RelocateError::MissingSymbol(Symbol::HeapBase)));
    let memory = module.memories.add_local(false, false, 1, None, None);
    module.exports.add("__heap_base", memory);
    let wasm = module.emit_wasm();
    assert_eq!(get_heap_base(&wasm), Err(RelocateError::WrongKind(Symbol::HeapBase)));
}
