use wasmtime::{Caller, Config, Engine, Linker, Store};
use yara_wasm::scanner::{PatternMatches, ScanContext};
use yara_wasm::wasm::{is_pat_match, is_pat_match_at, is_pat_match_in, rule_match, ModuleBuilder};

fn linker(engine: &Engine) -> Linker<ScanContext> {
    let mut linker = Linker::<ScanContext>::new(engine);
    linker
        .func_wrap("internal", "rule_match", |mut c: Caller<'_, ScanContext>, id: i32| {
            rule_match(c.data_mut(), id)
        })
        .unwrap();
    linker
        .func_wrap("internal", "is_pat_match", |c: Caller<'_, ScanContext>, p: i32| {
            is_pat_match(c.data(), p)
        })
        .unwrap();
    linker
        .func_wrap("internal", "is_pat_match_at", |c: Caller<'_, ScanContext>, p: i32, o: i64| {
            is_pat_match_at(c.data(), p, o)
        })
        .unwrap();
    linker
        .func_wrap(
            "internal",
            "is_pat_match_in",
            |c: Caller<'_, ScanContext>, p: i32, lo: i64, hi: i64| is_pat_match_in(c.data(), p, lo, hi),
        )
        .unwrap();
    linker
}

#[test]
fn built_module_imports_host_functions_and_exports_main() {
    let builder = ModuleBuilder::new();
    let module = builder.build();
    let imports: Vec<(String, String)> =
        module.imports.iter().map(|i| (i.module.clone(), i.name.clone())).collect();
    assert_eq!(
        imports,
        vec![
            ("internal".to_string(), "rule_match".to_string()),
            ("internal".to_string(), "is_pat_match".to_string()),
            ("internal".to_string(), "is_pat_match_at".to_string()),
            ("internal".to_string(), "is_pat_match_in".to_string()),
        ]
    );
    let exports: Vec<String> = module.exports.iter().map(|e| e.name.clone()).collect();
    assert_eq!(exports, vec!["main".to_string()]);
}

#[test]
fn symbols_are_distinct() {
    let builder = ModuleBuilder::new();
    let s = builder.wasm_symbols();
    let funcs = [s.rule_match, s.is_pat_match, s.is_pat_match_at, s.is_pat_match_in];
    for i in 0..funcs.len() {
        for j in i + 1..funcs.len() {
            assert_ne!(funcs[i], funcs[j]);
        }
    }
    assert_ne!(s.i64_tmp, s.i32_tmp);
    assert_ne!(s.i32_tmp, s.exception_flag);
    assert_ne!(s.i64_tmp, s.exception_flag);
}

#[test]
fn generated_main_reports_matching_rule() {
    let mut builder = ModuleBuilder::new();
    let s = builder.wasm_symbols();
    // Rule 1's condition holds when pattern 5 was found at offset 10 and
    // somewhere in [12, 25]; rules 0 and 2 ask for offsets where it was not.
    {
        let mut body = builder.main_fn();
        body.i32_const(5).i64_const(15).call(s.is_pat_match_at).if_else(
            None,
            |then| {
                then.i32_const(0).call(s.rule_match);
            },
            |_| {},
        );
    }
    {
        let mut body = builder.main_fn();
        body.i32_const(5)
            .i64_const(10)
            .call(s.is_pat_match_at)
            .i32_const(5)
            .i64_const(12)
            .i64_const(25)
            .call(s.is_pat_match_in)
            .binop(walrus::ir::BinaryOp::I32And)
            .if_else(
                None,
                |then| {
                    then.i32_const(1).call(s.rule_match);
                },
                |_| {},
            );
    }
    {
        let mut body = builder.main_fn();
        body.i32_const(5).i64_const(0).i64_const(5).call(s.is_pat_match_in).if_else(
            None,
            |then| {
                then.i32_const(2).call(s.rule_match);
            },
            |_| {},
        );
    }
    let mut module = builder.build();
    let bytes = module.emit_wasm();

    let engine = Engine::new(&Config::default()).unwrap();
    let compiled = wasmtime::Module::new(&engine, &bytes).unwrap();
    let mut pm = PatternMatches::new(6);
    pm.record(5, 10);
    pm.record(5, 20);
    let mut store = Store::new(&engine, ScanContext::new(3, pm));
    let instance = linker(&engine).instantiate(&mut store, &compiled).unwrap();
    let main = instance.get_typed_func::<(), (), _>(&mut store, "main").unwrap();
    main.call(&mut store, ()).unwrap();
    assert_eq!(store.data().rules_matching_bitmap(), &vec![false, true, false]);
    assert_eq!(store.data().rules_matching(), &vec![1]);
}

#[test]
fn scratch_locals_have_their_types() {
    let builder = ModuleBuilder::new();
    let s = builder.wasm_symbols();
    let module = builder.build();
    assert_eq!(module.locals.get(s.i64_tmp).ty(), walrus::ValType::I64);
    assert_eq!(module.locals.get(s.i32_tmp).ty(), walrus::ValType::I32);
    assert_eq!(module.locals.get(s.exception_flag).ty(), walrus::ValType::I32);
}

#[test]
fn symbols_denote_imports_with_host_signatures() {
    let builder = ModuleBuilder::new();
    let s = builder.wasm_symbols();
    let module = builder.build();
    let expected: [(walrus::FunctionId, &str, Vec<walrus::ValType>, Vec<walrus::ValType>); 4] = [
        (s.rule_match, "rule_match", vec![walrus::ValType::I32], vec![]),
        (s.is_pat_match, "is_pat_match", vec![walrus::ValType::I32], vec![walrus::ValType::I32]),
        (
            s.is_pat_match_at,
            "is_pat_match_at",
            vec![walrus::ValType::I32, walrus::ValType::I64],
            vec![walrus::ValType::I32],
        ),
        (
            s.is_pat_match_in,
            "is_pat_match_in",
            vec![walrus::ValType::I32, walrus::ValType::I64, walrus::ValType::I64],
            vec![walrus::ValType::I32],
        ),
    ];
    for (id, name, params, results) in expected.iter() {
        let f = module.funcs.get(*id);
        match &f.kind {
            walrus::FunctionKind::Import(imp) => {
                let import = module.imports.get(imp.import);
                assert_eq!(import.module, "internal");
                assert_eq!(import.name, *name);
            }
            _ => panic!("host function is not an import"),
        }
        let ty = module.types.get(f.ty());
        assert_eq!(ty.params(), params.as_slice());
        assert_eq!(ty.results(), results.as_slice());
    }
}

#[test]
fn fresh_build_exports_empty_main() {
    let module = ModuleBuilder::new().build();
    let exports: Vec<&walrus::Export> = module.exports.iter().collect();
    assert_eq!(exports.len(), 1);
    let main_id = match exports[0].item {
        walrus::ExportItem::Function(f) => f,
        _ => panic!("main is not a function"),
    };
    let locals: Vec<&walrus::Function> = module
        .funcs
        .iter()
        .filter(|f| matches!(f.kind, walrus::FunctionKind::Local(_)))
        .collect();
    assert_eq!(locals.len(), 1);
    assert_eq!(locals[0].id(), main_id);
    let ty = module.types.get(locals[0].ty());
    assert!(ty.params().is_empty());
    assert!(ty.results().is_empty());
    match &locals[0].kind {
        walrus::FunctionKind::Local(lf) => assert!(lf.block(lf.entry_block()).instrs.is_empty()),
        _ => unreachable!(),
    }
}

#[test]
fn main_keeps_empty_signature_after_appends() {
    let mut builder = ModuleBuilder::new();
    let s = builder.wasm_symbols();
    builder.main_fn().i32_const(0).call(s.rule_match);
    builder.main_fn().i32_const(1).call(s.rule_match);
    let module = builder.build();
    let main_id = match module.exports.iter().next().unwrap().item {
        walrus::ExportItem::Function(f) => f,
        _ => panic!("main is not a function"),
    };
    let f = module.funcs.get(main_id);
    let ty = module.types.get(f.ty());
    assert!(ty.params().is_empty());
    assert!(ty.results().is_empty());
    match &f.kind {
        walrus::FunctionKind::Local(lf) => assert_eq!(lf.block(lf.entry_block()).instrs.len(), 4),
        _ => panic!("main is not defined in the module"),
    }
}
