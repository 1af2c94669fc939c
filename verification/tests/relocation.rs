use walrus::ir::{Instr, Value};
use walrus::{ConstExpr, DataKind, FunctionBuilder, FunctionKind, GlobalKind, Module, ValType};
use wasm_share_memory::layout::Layout;
use wasm_share_memory::relocate::{
    get_heap_base, heap_base, move_routine, move_segments, relocate, relocate_module,
    rewrite_symbols, survey, sweep_globals,
};
use wasm_share_memory::{Mismatch, RelocateError, Symbol};

const STACK_POINTER: &str = "__stack_pointer";
const MEMORY_BASE: &str = "GOT.data.internal.__memory_base";
const HEAP_BASE: &str = "__heap_base";
const INIT_MEMORY: &str = "__wasm_init_memory";

fn add_global(module: &mut Module, name: Option<&str>, value: i32) -> walrus::GlobalId {
    let id = module.globals.add_local(ValType::I32, true, false, ConstExpr::Value(Value::I32(value)));
    module.globals.get_mut(id).name = name.map(|text| text.to_string());
    id
}

fn add_routine(module: &mut Module, name: &str, constant: i32, padding: usize) {
    let mut builder = FunctionBuilder::new(&mut module.types, &[], &[]);
    builder.name(name.to_string());
    let mut body = builder.func_body();
    body.i32_const(constant).drop();
    for _ in 0..padding {
        body.block(None, |_| {});
    }
    builder.finish(vec![], &mut module.funcs);
}

fn add_segment(module: &mut Module, offset: i32) -> walrus::DataId {
    let first = module.memories.iter().next().map(|memory| memory.id());
    let memory = match first {
        Some(memory) => memory,
        None => module.memories.add_local(false, false, 1, None, None),
    };
    module.data.add(
        DataKind::Active { memory, offset: ConstExpr::Value(Value::I32(offset)) },
        vec![1, 2, 3],
    )
}

fn sample(stack_pointer: i32, heap_base: i32, memory_base: i32, segment: i32, constant: i32) -> Module {
    let mut module = Module::default();
    add_global(&mut module, Some(STACK_POINTER), stack_pointer);
    add_global(&mut module, Some(MEMORY_BASE), memory_base);
    let heap = add_global(&mut module, None, heap_base);
    module.exports.add(HEAP_BASE, heap);
    add_segment(&mut module, segment);
    add_routine(&mut module, INIT_MEMORY, constant, 2);
    module
}

fn scenario() -> Module {
    sample(1024, 2048, 512, 1100, 1200)
}

fn named_global(module: &Module, name: &str) -> Option<i32> {
    let global = module.globals.iter().filter(|global| global.name.as_deref() == Some(name)).last()?;
    match global.kind {
        GlobalKind::Local(ConstExpr::Value(Value::I32(value))) => Some(value),
        _ => None,
    }
}

fn global_values(module: &Module) -> Vec<Option<i32>> {
    module
        .globals
        .iter()
        .map(|global| match global.kind {
            GlobalKind::Local(ConstExpr::Value(Value::I32(value))) => Some(value),
            _ => None,
        })
        .collect()
}

fn segment_offsets(module: &Module) -> Vec<Option<i32>> {
    module
        .data
        .iter()
        .map(|data| match data.kind {
            DataKind::Active { offset: ConstExpr::Value(Value::I32(value)), .. } => Some(value),
            _ => None,
        })
        .collect()
}

fn routine_constants(module: &Module, name: &str) -> Vec<Option<i32>> {
    let id = module.funcs.by_name(name).unwrap();
    let FunctionKind::Local(local) = &module.funcs.get(id).kind else {
        panic!("the routine is imported");
    };
    local
        .block(local.entry_block())
        .instrs
        .iter()
        .map(|(instruction, _)| match instruction {
            Instr::Const(constant) => match constant.value {
                Value::I32(value) => Some(value),
                _ => None,
            },
            _ => None,
        })
        .collect()
}

fn exported_heap_base(module: &Module) -> Option<i32> {
    let export = module.exports.iter().filter(|export| export.name == HEAP_BASE).last()?;
    let walrus::ExportItem::Global(id) = export.item else {
        return None;
    };
    match module.globals.get(id).kind {
        GlobalKind::Local(ConstExpr::Value(Value::I32(value))) => Some(value),
        _ => None,
    }
}

#[test]
fn scenario_through_the_bytes() {
    let wasm = scenario().emit_wasm();
    let out = relocate(&wasm, 4096, 9000).unwrap();
    assert_ne!(out, wasm);
    let module = Module::from_buffer(&out).unwrap();
    assert_eq!(named_global(&module, STACK_POINTER), Some(5120));
    assert_eq!(named_global(&module, MEMORY_BASE), Some(4608));
    assert_eq!(segment_offsets(&module), vec![Some(5196)]);
    assert_eq!(routine_constants(&module, INIT_MEMORY), vec![Some(5296), None, None, None]);
    assert_eq!(exported_heap_base(&module), Some(9000));
}

#[test]
fn scenario_in_place() {
    let mut module = scenario();
    assert_eq!(relocate_module(&mut module, 4096, 9000), Ok(()));
    assert_eq!(global_values(&module), vec![Some(5120), Some(4608), Some(9000)]);
    assert_eq!(segment_offsets(&module), vec![Some(5196)]);
    assert_eq!(routine_constants(&module, INIT_MEMORY), vec![Some(5296), None, None, None]);
    assert_eq!(exported_heap_base(&module), Some(9000));
}

#[test]
fn survey_reads_the_layout() {
    let module = scenario();
    assert_eq!(
        survey(&module),
        Ok(Layout {
            heap_base: 2048,
            heap_base_global: 2,
            stack_pointer: 1024,
            stack_pointer_global: 0,
            memory_base: 512,
            memory_base_global: 1,
            routine: 0,
            constant: 1200,
        })
    );
}

#[test]
fn survey_takes_the_first_routine_of_that_name() {
    let mut module = Module::default();
    add_routine(&mut module, "other", 1, 2);
    add_routine(&mut module, INIT_MEMORY, 1200, 2);
    add_routine(&mut module, INIT_MEMORY, 1300, 2);
    add_global(&mut module, Some(STACK_POINTER), 1024);
    add_global(&mut module, Some(MEMORY_BASE), 512);
    let heap = add_global(&mut module, None, 2048);
    module.exports.add(HEAP_BASE, heap);
    let layout = survey(&module).unwrap();
    assert_eq!(layout.routine, 1);
    assert_eq!(layout.constant, 1200);
    assert_eq!(relocate_module(&mut module, 10, 3000), Ok(()));
    assert_eq!(routine_constants(&module, "other"), vec![Some(1), None, None, None]);
    let constants: Vec<Vec<Option<i32>>> = module
        .funcs
        .iter_local()
        .map(|(_, local)| {
            local
                .block(local.entry_block())
                .instrs
                .iter()
                .map(|(instruction, _)| match instruction {
                    Instr::Const(constant) => match constant.value {
                        Value::I32(value) => Some(value),
                        _ => None,
                    },
                    _ => None,
                })
                .collect()
        })
        .collect();
    assert_eq!(constants[1][0], Some(1210));
    assert_eq!(constants[2][0], Some(1300));
}

#[test]
fn globals_in_the_window_are_shifted() {
    let mut module = scenario();
    add_global(&mut module, None, 1023);
    add_global(&mut module, None, 1024);
    add_global(&mut module, Some("inside"), 1500);
    add_global(&mut module, None, 2048);
    add_global(&mut module, None, 2049);
    add_global(&mut module, None, -7);
    assert_eq!(relocate_module(&mut module, 100, 7000), Ok(()));
    assert_eq!(
        global_values(&module),
        vec![
            Some(1124),
            Some(612),
            Some(7000),
            Some(1023),
            Some(1124),
            Some(1600),
            Some(2148),
            Some(2049),
            Some(-7),
        ]
    );
}

#[test]
fn globals_of_other_kinds_are_left_alone() {
    let mut module = scenario();
    let wide = module.globals.add_local(ValType::I64, false, false, ConstExpr::Value(Value::I64(1500)));
    let first = module.globals.iter().next().unwrap().id();
    let copy = module.globals.add_local(ValType::I32, false, false, ConstExpr::Global(first));
    let (imported, _) = module.add_import_global("env", "base", ValType::I32, false, false);
    assert_eq!(relocate_module(&mut module, 100, 7000), Ok(()));
    assert!(matches!(
        module.globals.get(wide).kind,
        GlobalKind::Local(ConstExpr::Value(Value::I64(1500)))
    ));
    assert!(matches!(module.globals.get(copy).kind, GlobalKind::Local(ConstExpr::Global(_))));
    assert!(matches!(module.globals.get(imported).kind, GlobalKind::Import(_)));
    assert_eq!(
        global_values(&module),
        vec![Some(1124), Some(612), Some(7000), None, None, None]
    );
}

#[test]
fn memory_base_inside_the_window_is_shifted_once() {
    let mut module = sample(1024, 2048, 1030, 1100, 1200);
    assert_eq!(relocate_module(&mut module, 100, 7000), Ok(()));
    assert_eq!(named_global(&module, MEMORY_BASE), Some(1130));
    assert_eq!(named_global(&module, STACK_POINTER), Some(1124));
}

#[test]
fn segments_without_a_constant_address_are_left_alone() {
    let mut module = scenario();
    let passive = module.data.add(DataKind::Passive, vec![9, 8, 7]);
    let memory = module.memories.iter().next().unwrap().id();
    let base = module.globals.iter().next().unwrap().id();
    let computed = module.data.add(
        DataKind::Active { memory, offset: ConstExpr::Global(base) },
        vec![4],
    );
    add_segment(&mut module, -20);
    assert_eq!(relocate_module(&mut module, 4096, 9000), Ok(()));
    assert_eq!(segment_offsets(&module), vec![Some(5196), None, None, Some(4076)]);
    assert!(matches!(module.data.get(passive).kind, DataKind::Passive));
    assert_eq!(module.data.get(passive).value, vec![9, 8, 7]);
    assert!(matches!(
        module.data.get(computed).kind,
        DataKind::Active { offset: ConstExpr::Global(_), .. }
    ));
    assert_eq!(module.data.iter().next().unwrap().value, vec![1, 2, 3]);
}

#[test]
fn passive_segment_survives_the_bytes() {
    let mut module = scenario();
    module.data.add(DataKind::Passive, vec![9, 8, 7]);
    let wasm = module.emit_wasm();
    let out = relocate(&wasm, 4096, 9000).unwrap();
    let module = Module::from_buffer(&out).unwrap();
    assert_eq!(segment_offsets(&module), vec![Some(5196), None]);
    let values: Vec<Vec<u8>> = module.data.iter().map(|data| data.value.clone()).collect();
    assert_eq!(values, vec![vec![1, 2, 3], vec![9, 8, 7]]);
}

#[test]
fn heap_base_does_not_depend_on_the_offset() {
    for offset in [0, 1, 4096, -512, i32::MAX, i32::MIN] {
        let mut module = scenario();
        assert_eq!(relocate_module(&mut module, offset, 9000), Ok(()));
        assert_eq!(exported_heap_base(&module), Some(9000));
        assert_eq!(heap_base(&module), Ok(9000));
    }
}

#[test]
fn heap_base_round_trip() {
    let wasm = scenario().emit_wasm();
    assert_eq!(get_heap_base(&wasm), Ok(2048));
    let out = relocate(&wasm, 4096, 9000).unwrap();
    assert_eq!(get_heap_base(&out), Ok(9000));
    let out = relocate(&wasm, -8, -1).unwrap();
    assert_eq!(get_heap_base(&out), Ok(-1));
}

#[test]
fn two_relocations_shift_by_the_sum() {
    let wasm = scenario().emit_wasm();
    let once = relocate(&wasm, 4096, 9000).unwrap();
    let twice = relocate(&once, 1000, 20000).unwrap();
    let module = Module::from_buffer(&twice).unwrap();
    assert_eq!(named_global(&module, STACK_POINTER), Some(1024 + 4096 + 1000));
    assert_eq!(segment_offsets(&module), vec![Some(1100 + 4096 + 1000)]);
    assert_eq!(routine_constants(&module, INIT_MEMORY)[0], Some(1200 + 4096 + 1000));
    assert_eq!(exported_heap_base(&module), Some(20000));
    // The memory base lay below the stack pointer before and after the first
    // relocation, and is shifted each time all the same.
    assert_eq!(named_global(&module, MEMORY_BASE), Some(512 + 4096 + 1000));
}

#[test]
fn second_relocation_needs_the_constant_below_the_new_heap_base() {
    let mut module = scenario();
    assert_eq!(relocate_module(&mut module, 4096, 5296), Ok(()));
    assert_eq!(
        relocate_module(&mut module, 8, 6000),
        Err(RelocateError::ShapeMismatch(Mismatch::OutOfBounds))
    );
    assert_eq!(global_values(&module), vec![Some(5120), Some(4608), Some(5296)]);
}

#[test]
fn addresses_wrap_at_32_bits() {
    let mut module = sample(i32::MAX - 100, i32::MAX, 0, i32::MAX, i32::MAX - 50);
    assert_eq!(relocate_module(&mut module, 101, 5), Ok(()));
    assert_eq!(named_global(&module, STACK_POINTER), Some(i32::MIN));
    assert_eq!(named_global(&module, MEMORY_BASE), Some(101));
    assert_eq!(segment_offsets(&module), vec![Some(i32::MIN + 100)]);
    assert_eq!(routine_constants(&module, INIT_MEMORY)[0], Some(i32::MIN + 50));
    assert_eq!(exported_heap_base(&module), Some(5));
}

#[test]
fn steps_one_by_one() {
    let mut module = scenario();
    add_global(&mut module, None, 2000);
    let layout = survey(&module).unwrap();
    move_routine(&mut module, &layout, 10);
    assert_eq!(routine_constants(&module, INIT_MEMORY), vec![Some(1210), None, None, None]);
    assert_eq!(global_values(&module), vec![Some(1024), Some(512), Some(2048), Some(2000)]);
    sweep_globals(&mut module, &layout, 10);
    assert_eq!(global_values(&module), vec![Some(1034), Some(512), Some(2058), Some(2010)]);
    assert_eq!(segment_offsets(&module), vec![Some(1100)]);
    move_segments(&mut module, 10);
    assert_eq!(segment_offsets(&module), vec![Some(1110)]);
    rewrite_symbols(&mut module, &layout, 10, 77);
    assert_eq!(global_values(&module), vec![Some(1034), Some(522), Some(77), Some(2010)]);
}

#[test]
fn malformed_bytes_are_refused() {
    assert_eq!(relocate(&[], 16, 32), Err(RelocateError::Malformed));
    assert_eq!(relocate(b"not a module", 16, 32), Err(RelocateError::Malformed));
    assert_eq!(get_heap_base(&[0, 97, 115, 109]), Err(RelocateError::Malformed));
    let mut wasm = scenario().emit_wasm();
    wasm.truncate(wasm.len() / 2);
    assert_eq!(relocate(&wasm, 16, 32), Err(RelocateError::Malformed));
}

fn refused(mut module: Module, error: RelocateError) {
    let globals = global_values(&module);
    let segments = segment_offsets(&module);
    assert_eq!(survey(&module), Err(error));
    assert_eq!(relocate_module(&mut module, 4096, 9000), Err(error));
    assert_eq!(global_values(&module), globals);
    assert_eq!(segment_offsets(&module), segments);
    let wasm = module.emit_wasm();
    assert_eq!(relocate(&wasm, 4096, 9000), Err(error));
}

fn with_routine(constant: Option<i32>, length: usize) -> Module {
    let mut module = Module::default();
    add_global(&mut module, Some(STACK_POINTER), 1024);
    add_global(&mut module, Some(MEMORY_BASE), 512);
    let heap = add_global(&mut module, None, 2048);
    module.exports.add(HEAP_BASE, heap);
    add_segment(&mut module, 1100);
    let mut builder = FunctionBuilder::new(&mut module.types, &[], &[]);
    builder.name(INIT_MEMORY.to_string());
    let mut body = builder.func_body();
    let mut written = 0;
    if let Some(constant) = constant {
        if length >= 2 {
            body.i32_const(constant).drop();
            written = 2;
        }
    }
    for _ in written..length {
        body.block(None, |_| {});
    }
    builder.finish(vec![], &mut module.funcs);
    module
}

#[test]
fn routine_of_three_instructions_is_refused() {
    refused(with_routine(Some(1200), 3), RelocateError::ShapeMismatch(Mismatch::InstructionCount));
}

#[test]
fn routine_of_five_instructions_is_refused() {
    refused(with_routine(Some(1200), 5), RelocateError::ShapeMismatch(Mismatch::InstructionCount));
}

#[test]
fn empty_routine_is_refused() {
    refused(with_routine(None, 0), RelocateError::ShapeMismatch(Mismatch::InstructionCount));
}

#[test]
fn routine_that_starts_without_a_constant_is_refused() {
    refused(with_routine(None, 4), RelocateError::ShapeMismatch(Mismatch::FirstNotConstant));
}

#[test]
fn routine_that_starts_with_a_wide_constant_is_refused() {
    let mut module = Module::default();
    add_global(&mut module, Some(STACK_POINTER), 1024);
    add_global(&mut module, Some(MEMORY_BASE), 512);
    let heap = add_global(&mut module, None, 2048);
    module.exports.add(HEAP_BASE, heap);
    let mut builder = FunctionBuilder::new(&mut module.types, &[], &[]);
    builder.name(INIT_MEMORY.to_string());
    builder.func_body().i64_const(1200).drop().i32_const(1200).drop();
    builder.finish(vec![], &mut module.funcs);
    refused(module, RelocateError::ShapeMismatch(Mismatch::FirstNotConstant));
}

#[test]
fn constant_below_the_stack_pointer_is_refused() {
    refused(with_routine(Some(1023), 4), RelocateError::ShapeMismatch(Mismatch::OutOfBounds));
}

#[test]
fn constant_at_the_heap_base_is_refused() {
    refused(with_routine(Some(2048), 4), RelocateError::ShapeMismatch(Mismatch::OutOfBounds));
    refused(with_routine(Some(2049), 4), RelocateError::ShapeMismatch(Mismatch::OutOfBounds));
}

#[test]
fn constant_at_the_stack_pointer_is_taken() {
    let mut module = with_routine(Some(1024), 4);
    assert_eq!(relocate_module(&mut module, 1, 9000), Ok(()));
    assert_eq!(routine_constants(&module, INIT_MEMORY)[0], Some(1025));
    let mut module = with_routine(Some(2047), 4);
    assert_eq!(relocate_module(&mut module, 1, 9000), Ok(()));
    assert_eq!(routine_constants(&module, INIT_MEMORY)[0], Some(2048));
}

#[test]
fn stack_above_the_heap_is_refused() {
    refused(sample(2048, 1024, 512, 1100, 1200), RelocateError::ShapeMismatch(Mismatch::OutOfBounds));
    refused(sample(1024, 1024, 512, 1100, 1024), RelocateError::ShapeMismatch(Mismatch::OutOfBounds));
}

#[test]
fn missing_heap_base_is_refused() {
    let mut module = Module::default();
    add_global(&mut module, Some(STACK_POINTER), 1024);
    add_global(&mut module, Some(MEMORY_BASE), 512);
    add_global(&mut module, Some(HEAP_BASE), 2048);
    add_routine(&mut module, INIT_MEMORY, 1200, 2);
    assert_eq!(heap_base(&module), Err(RelocateError::MissingSymbol(Symbol::HeapBase)));
    refused(module, RelocateError::MissingSymbol(Symbol::HeapBase));
}

#[test]
fn heap_base_of_another_kind_is_refused() {
    let mut module = Module::default();
    add_global(&mut module, Some(STACK_POINTER), 1024);
    add_global(&mut module, Some(MEMORY_BASE), 512);
    let wide = module.globals.add_local(ValType::I64, false, false, ConstExpr::Value(Value::I64(2048)));
    module.exports.add(HEAP_BASE, wide);
    add_routine(&mut module, INIT_MEMORY, 1200, 2);
    assert_eq!(heap_base(&module), Err(RelocateError::WrongKind(Symbol::HeapBase)));
    refused(module, RelocateError::WrongKind(Symbol::HeapBase));
}

#[test]
fn heap_base_that_is_a_function_is_refused() {
    let mut module = Module::default();
    add_global(&mut module, Some(STACK_POINTER), 1024);
    add_global(&mut module, Some(MEMORY_BASE), 512);
    add_routine(&mut module, INIT_MEMORY, 1200, 2);
    let routine = module.funcs.by_name(INIT_MEMORY).unwrap();
    module.exports.add(HEAP_BASE, routine);
    assert_eq!(heap_base(&module), Err(RelocateError::WrongKind(Symbol::HeapBase)));
    refused(module, RelocateError::WrongKind(Symbol::HeapBase));
}

#[test]
fn imported_heap_base_is_refused() {
    let mut module = Module::default();
    let (imported, _) = module.add_import_global("env", "heap", ValType::I32, false, false);
    module.exports.add(HEAP_BASE, imported);
    add_global(&mut module, Some(STACK_POINTER), 1024);
    add_global(&mut module, Some(MEMORY_BASE), 512);
    add_routine(&mut module, INIT_MEMORY, 1200, 2);
    refused(module, RelocateError::WrongKind(Symbol::HeapBase));
}

#[test]
fn missing_stack_pointer_is_refused() {
    let mut module = Module::default();
    add_global(&mut module, Some(MEMORY_BASE), 512);
    let heap = add_global(&mut module, None, 2048);
    module.exports.add(HEAP_BASE, heap);
    module.exports.add(STACK_POINTER, heap);
    add_routine(&mut module, INIT_MEMORY, 1200, 2);
    refused(module, RelocateError::MissingSymbol(Symbol::StackPointer));
}

#[test]
fn stack_pointer_of_another_kind_is_refused() {
    let mut module = Module::default();
    let wide = module.globals.add_local(ValType::I64, true, false, ConstExpr::Value(Value::I64(1024)));
    module.globals.get_mut(wide).name = Some(STACK_POINTER.to_string());
    add_global(&mut module, Some(MEMORY_BASE), 512);
    let heap = add_global(&mut module, None, 2048);
    module.exports.add(HEAP_BASE, heap);
    add_routine(&mut module, INIT_MEMORY, 1200, 2);
    refused(module, RelocateError::WrongKind(Symbol::StackPointer));
}

#[test]
fn missing_memory_base_is_refused() {
    let mut module = Module::default();
    add_global(&mut module, Some(STACK_POINTER), 1024);
    let heap = add_global(&mut module, None, 2048);
    module.exports.add(HEAP_BASE, heap);
    add_routine(&mut module, INIT_MEMORY, 1200, 2);
    refused(module, RelocateError::MissingSymbol(Symbol::MemoryBase));
}

#[test]
fn imported_memory_base_is_refused() {
    let mut module = Module::default();
    let (imported, _) = module.add_import_global("env", "base", ValType::I32, false, false);
    module.globals.get_mut(imported).name = Some(MEMORY_BASE.to_string());
    add_global(&mut module, Some(STACK_POINTER), 1024);
    let heap = add_global(&mut module, None, 2048);
    module.exports.add(HEAP_BASE, heap);
    add_routine(&mut module, INIT_MEMORY, 1200, 2);
    refused(module, RelocateError::WrongKind(Symbol::MemoryBase));
}

#[test]
fn missing_routine_is_refused() {
    let mut module = Module::default();
    add_global(&mut module, Some(STACK_POINTER), 1024);
    add_global(&mut module, Some(MEMORY_BASE), 512);
    let heap = add_global(&mut module, None, 2048);
    module.exports.add(HEAP_BASE, heap);
    add_routine(&mut module, "__wasm_call_ctors", 1200, 2);
    refused(module, RelocateError::MissingSymbol(Symbol::InitMemory));
}

#[test]
fn imported_routine_is_refused() {
    let mut module = Module::default();
    add_global(&mut module, Some(STACK_POINTER), 1024);
    add_global(&mut module, Some(MEMORY_BASE), 512);
    let heap = add_global(&mut module, None, 2048);
    module.exports.add(HEAP_BASE, heap);
    let ty = module.types.add(&[], &[]);
    let (routine, _) = module.add_import_func("env", "init", ty);
    module.funcs.get_mut(routine).name = Some(INIT_MEMORY.to_string());
    refused(module, RelocateError::WrongKind(Symbol::InitMemory));
}

#[test]
fn checks_come_in_order() {
    // Nothing is there: the heap base is asked for first.
    refused(Module::default(), RelocateError::MissingSymbol(Symbol::HeapBase));
    // The heap base is there: the stack pointer is next.
    let mut module = Module::default();
    let heap = add_global(&mut module, None, 2048);
    module.exports.add(HEAP_BASE, heap);
    refused(module, RelocateError::MissingSymbol(Symbol::StackPointer));
}
