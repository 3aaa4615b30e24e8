//! The WebAssembly module that evaluates the conditions of a compiled rule
//! set, and the host functions that it calls back.
//!
//! The module imports four host functions from the `internal` namespace,
//! keeps three locals for the code generator, and exports one function,
//! `main`, without parameters or results, that evaluates every condition.
use vstd::prelude::*;

use crate::scanner::{
    pattern_matched, pattern_matched_at, pattern_matched_in, report_step, PatternId, RuleId,
    ScanContext,
};

verus! {
#[verifier::external_type_specification]
#[verifier::external_body]
pub struct ExModule(walrus::Module);

#[verifier::external_type_specification]
#[verifier::external_body]
pub struct ExModuleConfig(walrus::ModuleConfig);

#[verifier::external_type_specification]
#[verifier::external_body]
pub struct ExFunctionBuilder(walrus::FunctionBuilder);

#[verifier::external_type_specification]
#[verifier::external_body]
pub struct ExInstrSeqBuilder<'a>(walrus::InstrSeqBuilder<'a>);

#[verifier::external_type_specification]
#[verifier::external_body]
#[verifier::reject_recursive_types(T)]
pub struct ExId<T>(id_arena::Id<T>);

#[verifier::external_type_specification]
#[verifier::external_body]
pub struct ExFunction(walrus::Function);

#[verifier::external_type_specification]
#[verifier::external_body]
pub struct ExLocal(walrus::Local);

#[verifier::external_type_specification]
#[verifier::external_body]
pub struct ExType(walrus::Type);

#[verifier::external_type_specification]
#[verifier::external_body]
pub struct ExTable(walrus::Table);

#[verifier::external_type_specification]
#[verifier::external_body]
pub struct ExMemory(walrus::Memory);

#[verifier::external_type_specification]
#[verifier::external_body]
pub struct ExGlobal(walrus::Global);

#[verifier::external_type_specification]
#[verifier::external_body]
pub struct ExInstrSeq(walrus::ir::InstrSeq);

#[verifier::external_type_specification]
#[verifier::external_body]
pub struct ExInstr(walrus::ir::Instr);

#[verifier::external_type_specification]
#[verifier::external_body]
pub struct ExInstrLocId(walrus::ir::InstrLocId);

#[verifier::external_type_specification]
pub struct ExValType(walrus::ValType);

#[verifier::external_type_specification]
pub struct ExExportItem(walrus::ExportItem);

/// The imported functions of a module, as (namespace, name, type, function
/// id) in the order in which they were added.
pub uninterp spec fn module_imports(m: walrus::Module) -> Seq<
    (Seq<char>, Seq<char>, walrus::TypeId, walrus::FunctionId),
>;

/// The parameters and results of the function type `ty` of a module.
pub uninterp spec fn module_type(m: walrus::Module, ty: walrus::TypeId) -> (
    Seq<walrus::ValType>,
    Seq<walrus::ValType>,
);

/// The ids of the types that a module holds.
pub uninterp spec fn module_type_ids(m: walrus::Module) -> Set<walrus::TypeId>;

/// The exports of a module, as (name, exported item) in the order in which
/// they were added.
pub uninterp spec fn module_exports(m: walrus::Module) -> Seq<(Seq<char>, walrus::ExportItem)>;

/// The locals of a module, as (id, value type) in the order in which they
/// were added.
pub uninterp spec fn module_locals(m: walrus::Module) -> Seq<(walrus::LocalId, walrus::ValType)>;

/// The functions defined in a module (not imported), as (id, type,
/// instructions of the body) in the order in which they were added.
pub uninterp spec fn module_local_funcs(m: walrus::Module) -> Seq<
    (walrus::FunctionId, walrus::TypeId, Seq<walrus::ir::Instr>),
>;

/// The type of the function that a function builder builds.
pub uninterp spec fn builder_type(f: walrus::FunctionBuilder) -> walrus::TypeId;

/// The instructions of the body of the function that a function builder
/// builds.
pub uninterp spec fn builder_body(f: walrus::FunctionBuilder) -> Seq<walrus::ir::Instr>;

/// The instruction sequence that is the body of the function that a
/// function builder builds.
pub uninterp spec fn builder_entry(f: walrus::FunctionBuilder) -> walrus::ir::InstrSeqId;

/// The instruction sequence that an instruction sequence builder appends to.
pub uninterp spec fn seq_builder_target(b: walrus::InstrSeqBuilder) -> walrus::ir::InstrSeqId;

/// Namespace of the host functions.
pub open spec fn host_namespace() -> Seq<char> {
    "internal"@
}

/// Names of the host functions that every module imports, in order.
pub open spec fn host_names() -> Seq<Seq<char>> {
    seq!["rule_match"@, "is_pat_match"@, "is_pat_match_at"@, "is_pat_match_in"@]
}

/// Signatures of the host functions, in the order of `host_names`:
/// `rule_match(rule_id: i32)`,
/// `is_pat_match(pattern_id: i32) -> i32`,
/// `is_pat_match_at(pattern_id: i32, offset: i64) -> i32`,
/// `is_pat_match_in(pattern_id: i32, lower_bound: i64, upper_bound: i64) -> i32`.
pub open spec fn host_signatures() -> Seq<(Seq<walrus::ValType>, Seq<walrus::ValType>)> {
    seq![
        (seq![walrus::ValType::I32], seq![]),
        (seq![walrus::ValType::I32], seq![walrus::ValType::I32]),
        (seq![walrus::ValType::I32, walrus::ValType::I64], seq![walrus::ValType::I32]),
        (
            seq![walrus::ValType::I32, walrus::ValType::I64, walrus::ValType::I64],
            seq![walrus::ValType::I32],
        ),
    ]
}

/// The signature of a function without parameters or results.
pub open spec fn no_params_no_results() -> (Seq<walrus::ValType>, Seq<walrus::ValType>) {
    (Seq::empty(), Seq::empty())
}

/// The module imports exactly the host functions, in order, each from the
/// host namespace, with its signature, and under a function id of its own.
pub open spec fn imports_host_functions(m: walrus::Module) -> bool {
    &&& module_imports(m).len() == 4
    &&& forall|k: int|
        0 <= k < 4 ==> {
            let imp = #[trigger] module_imports(m)[k];
            &&& imp.0 == host_namespace()
            &&& imp.1 == host_names()[k]
            &&& module_type(m, imp.2) == host_signatures()[k]
        }
    &&& forall|i: int, j: int|
        0 <= i < j < 4 ==> #[trigger] module_imports(m)[i].3 != #[trigger] module_imports(m)[j].3
}

/// Relies on walrus::ModuleConfig::new: the default configuration.
#[verifier::external_body]
fn default_config() -> (r: walrus::ModuleConfig) {
    walrus::ModuleConfig::new()
}

/// Relies on walrus::Module::with_config: a module with no imports,
/// exports, locals or functions.
#[verifier::external_body]
fn empty_module(config: walrus::ModuleConfig) -> (r: walrus::Module)
    ensures
        module_imports(r).len() == 0,
        module_exports(r).len() == 0,
        module_locals(r).len() == 0,
        module_local_funcs(r).len() == 0,
        module_type_ids(r) == Set::<walrus::TypeId>::empty(),
{
    walrus::Module::with_config(config)
}

/// Relies on walrus::ModuleTypes::add: the id of a function type with the
/// given parameters and results, which the module holds afterwards. Where
/// the module held that id already, it had this signature already; the
/// other types keep theirs. Nothing else changes.
#[verifier::external_body]
fn add_type(m: &mut walrus::Module, params: &[walrus::ValType], results: &[walrus::ValType]) -> (r:
    walrus::TypeId)
    ensures
        module_type(*final(m), r) == (params@, results@),
        forall|ty: walrus::TypeId|
            ty != r ==> #[trigger] module_type(*final(m), ty) == module_type(*old(m), ty),
        module_type_ids(*old(m)).contains(r) ==> module_type(*old(m), r) == (params@, results@),
        module_type_ids(*final(m)) == module_type_ids(*old(m)).insert(r),
        module_imports(*final(m)) == module_imports(*old(m)),
        module_exports(*final(m)) == module_exports(*old(m)),
        module_locals(*final(m)) == module_locals(*old(m)),
        module_local_funcs(*final(m)) == module_local_funcs(*old(m)),
{
    m.types.add(params, results)
}

/// Relies on walrus::Module::add_import_func: appends an import of a
/// function of type `ty`, under a new function id. Nothing else changes.
#[verifier::external_body]
fn add_import_func(m: &mut walrus::Module, namespace: &str, name: &str, ty: walrus::TypeId) -> (r:
    walrus::FunctionId)
    ensures
        module_imports(*final(m)) == module_imports(*old(m)).push((namespace@, name@, ty, r)),
        forall|k: int|
            0 <= k < module_imports(*old(m)).len() ==> #[trigger] module_imports(*old(m))[k].3 != r,
        forall|k: int|
            0 <= k < module_local_funcs(*old(m)).len() ==> #[trigger] module_local_funcs(
                *old(m),
            )[k].0 != r,
        forall|t: walrus::TypeId| #[trigger] module_type(*final(m), t) == module_type(*old(m), t),
        module_type_ids(*final(m)) == module_type_ids(*old(m)),
        module_exports(*final(m)) == module_exports(*old(m)),
        module_locals(*final(m)) == module_locals(*old(m)),
        module_local_funcs(*final(m)) == module_local_funcs(*old(m)),
{
    m.add_import_func(namespace, name, ty).0
}

/// Relies on walrus::ModuleLocals::add: appends a local of type `ty` under a
/// new local id. Nothing else changes.
#[verifier::external_body]
fn add_local(m: &mut walrus::Module, ty: walrus::ValType) -> (r: walrus::LocalId)
    ensures
        module_locals(*final(m)) == module_locals(*old(m)).push((r, ty)),
        forall|k: int|
            0 <= k < module_locals(*old(m)).len() ==> #[trigger] module_locals(*old(m))[k].0 != r,
        forall|t: walrus::TypeId| #[trigger] module_type(*final(m), t) == module_type(*old(m), t),
        module_type_ids(*final(m)) == module_type_ids(*old(m)),
        module_imports(*final(m)) == module_imports(*old(m)),
        module_exports(*final(m)) == module_exports(*old(m)),
        module_local_funcs(*final(m)) == module_local_funcs(*old(m)),
{
    m.locals.add(ty)
}

/// Relies on walrus::FunctionBuilder::new: a builder for a function with
/// the given signature and an empty body. It adds types to the module; the
/// types the module held already keep their signatures, and nothing else
/// changes.
#[verifier::external_body]
fn new_function(m: &mut walrus::Module, params: &[walrus::ValType], results: &[walrus::ValType]) -> (r:
    walrus::FunctionBuilder)
    ensures
        module_type(*final(m), builder_type(r)) == (params@, results@),
        builder_body(r).len() == 0,
        module_type_ids(*old(m)).subset_of(module_type_ids(*final(m))),
        module_type_ids(*final(m)).contains(builder_type(r)),
        forall|ty: walrus::TypeId|
            #[trigger] module_type_ids(*old(m)).contains(ty) ==> module_type(*final(m), ty)
                == module_type(*old(m), ty),
        module_imports(*final(m)) == module_imports(*old(m)),
        module_exports(*final(m)) == module_exports(*old(m)),
        module_locals(*final(m)) == module_locals(*old(m)),
        module_local_funcs(*final(m)) == module_local_funcs(*old(m)),
{
    walrus::FunctionBuilder::new(&mut m.types, params, results)
}

/// Relies on walrus::FunctionBuilder::func_body: a builder that appends
/// instructions to the function's body sequence. Its methods write
/// instructions only: the function keeps its type and its body sequence.
#[verifier::external_body]
fn func_body(f: &mut walrus::FunctionBuilder) -> (r: walrus::InstrSeqBuilder<'_>)
    ensures
        seq_builder_target(r) == builder_entry(*old(f)),
        builder_type(*final(f)) == builder_type(*old(f)),
        builder_entry(*final(f)) == builder_entry(*old(f)),
{
    f.func_body()
}

/// Relies on walrus::FunctionBuilder::finish: appends the built function,
/// with its type and body, to the module's functions under a new id.
/// Nothing else changes.
#[verifier::external_body]
fn finish_function(f: walrus::FunctionBuilder, m: &mut walrus::Module) -> (r: walrus::FunctionId)
    ensures
        module_local_funcs(*final(m)) == module_local_funcs(*old(m)).push(
            (r, builder_type(f), builder_body(f)),
        ),
        forall|k: int|
            0 <= k < module_imports(*old(m)).len() ==> #[trigger] module_imports(*old(m))[k].3 != r,
        forall|k: int|
            0 <= k < module_local_funcs(*old(m)).len() ==> #[trigger] module_local_funcs(
                *old(m),
            )[k].0 != r,
        forall|t: walrus::TypeId| #[trigger] module_type(*final(m), t) == module_type(*old(m), t),
        module_type_ids(*final(m)) == module_type_ids(*old(m)),
        module_imports(*final(m)) == module_imports(*old(m)),
        module_exports(*final(m)) == module_exports(*old(m)),
        module_locals(*final(m)) == module_locals(*old(m)),
{
    f.finish(Vec::new(), &mut m.funcs)
}

/// Relies on walrus::ModuleExports::add: appends an export of function `f`
/// under `name`. Nothing else changes.
#[verifier::external_body]
fn add_export(m: &mut walrus::Module, name: &str, f: walrus::FunctionId) -> (r: ())
    ensures
        module_exports(*final(m)) == module_exports(*old(m)).push(
            (name@, walrus::ExportItem::Function(f)),
        ),
        forall|t: walrus::TypeId| #[trigger] module_type(*final(m), t) == module_type(*old(m), t),
        module_type_ids(*final(m)) == module_type_ids(*old(m)),
        module_imports(*final(m)) == module_imports(*old(m)),
        module_locals(*final(m)) == module_locals(*old(m)),
        module_local_funcs(*final(m)) == module_local_funcs(*old(m)),
{
    m.exports.add(name, f);
}

/// Table with functions and variables used by the WebAssembly module: the
/// host functions it imports and the locals that generated code uses.
#[derive(Clone, Copy)]
pub struct WasmSymbols {
    /// Called when a rule matches.
    /// Signature: (rule_id: i32) -> ()
    pub rule_match: walrus::FunctionId,
    /// Asks whether a pattern matched or not.
    /// Signature: (pattern_id: i32) -> (i32)
    pub is_pat_match: walrus::FunctionId,
    /// Asks whether a pattern matched at a specific offset.
    /// Signature: (pattern_id: i32, offset: i64) -> (i32)
    pub is_pat_match_at: walrus::FunctionId,
    /// Asks whether a pattern matched within a range of offsets.
    /// Signature: (pattern_id: i32, lower_bound: i64, upper_bound: i64) -> (i32)
    pub is_pat_match_in: walrus::FunctionId,
    /// Local variables used for temporary storage.
    pub i64_tmp: walrus::LocalId,
    pub i32_tmp: walrus::LocalId,
    /// Set to 1 when an exception is raised, so that the code that follows
    /// can skip the rest of the evaluation.
    pub exception_flag: walrus::LocalId,
}

impl WasmSymbols {
    /// The host functions, in the order of `host_names`.
    pub open spec fn host_funcs(&self) -> Seq<walrus::FunctionId> {
        seq![self.rule_match, self.is_pat_match, self.is_pat_match_at, self.is_pat_match_in]
    }

    /// The scratch locals with their types: a 64-bit and a 32-bit
    /// temporary, and the exception flag.
    pub open spec fn scratch_locals(&self) -> Seq<(walrus::LocalId, walrus::ValType)> {
        seq![
            (self.i64_tmp, walrus::ValType::I64),
            (self.i32_tmp, walrus::ValType::I32),
            (self.exception_flag, walrus::ValType::I32),
        ]
    }

    /// The three scratch locals are distinct.
    pub open spec fn distinct_locals(&self) -> bool {
        &&& self.i64_tmp != self.i32_tmp
        &&& self.i64_tmp != self.exception_flag
        &&& self.i32_tmp != self.exception_flag
    }

    /// In module `m`, the symbols denote its host imports and its locals.
    pub open spec fn denote(&self, m: walrus::Module) -> bool {
        &&& imports_host_functions(m)
        &&& forall|k: int| 0 <= k < 4 ==> #[trigger] module_imports(m)[k].3 == self.host_funcs()[k]
        &&& module_locals(m) == self.scratch_locals()
        &&& self.distinct_locals()
    }
}

/// Builds the WebAssembly module for a set of compiled rules.
pub struct ModuleBuilder {
    module: walrus::Module,
    wasm_symbols: WasmSymbols,
    main_fn: walrus::FunctionBuilder,
}

impl ModuleBuilder {
    /// The module under construction.
    pub closed spec fn module(&self) -> walrus::Module {
        self.module
    }

    /// The symbols handed to the code generator.
    pub closed spec fn symbols(&self) -> WasmSymbols {
        self.wasm_symbols
    }

    /// The builder of the `main` function.
    pub closed spec fn main_builder(&self) -> walrus::FunctionBuilder {
        self.main_fn
    }

    /// The type of `main`.
    pub open spec fn main_type(&self) -> walrus::TypeId {
        builder_type(self.main_builder())
    }

    /// The instructions of the body of `main` so far.
    pub open spec fn main_body(&self) -> Seq<walrus::ir::Instr> {
        builder_body(self.main_builder())
    }

    /// The module imports the host functions and holds the scratch locals,
    /// as the symbols say; `main` takes no parameters and returns nothing;
    /// no function is defined and nothing is exported yet.
    pub open spec fn wf(&self) -> bool {
        &&& self.symbols().denote(self.module())
        &&& module_type(self.module(), self.main_type()) == no_params_no_results()
        &&& module_local_funcs(self.module()).len() == 0
        &&& module_exports(self.module()).len() == 0
    }

    /// Creates a new module builder: the host functions are imported, the
    /// scratch locals allocated, and the body of `main` is empty.
    pub fn new() -> (r: ModuleBuilder)
        ensures
            r.wf(),
            r.main_body().len() == 0,
    {
        let config = default_config();
        let mut module = empty_module(config);

        let t0 = add_type(&mut module, &[walrus::ValType::I32], &[]);
        let rule_match = add_import_func(&mut module, "internal", "rule_match", t0);
        let ghost m1 = module;

        let t1 = add_type(&mut module, &[walrus::ValType::I32], &[walrus::ValType::I32]);
        assert(module_imports(m1)[0].2 == t0);
        let is_pat_match = add_import_func(&mut module, "internal", "is_pat_match", t1);
        let ghost m2 = module;
        assert(module_imports(m2)[0].3 == rule_match);

        let t2 = add_type(
            &mut module,
            &[walrus::ValType::I32, walrus::ValType::I64],
            &[walrus::ValType::I32],
        );
        assert(module_imports(m2)[0].2 == t0);
        assert(module_imports(m2)[1].2 == t1);
        let is_pat_match_at = add_import_func(&mut module, "internal", "is_pat_match_at", t2);
        let ghost m3 = module;
        assert(module_imports(m3)[0].3 == rule_match);
        assert(module_imports(m3)[1].3 == is_pat_match);

        let t3 = add_type(
            &mut module,
            &[walrus::ValType::I32, walrus::ValType::I64, walrus::ValType::I64],
            &[walrus::ValType::I32],
        );
        assert(module_imports(m3)[0].2 == t0);
        assert(module_imports(m3)[1].2 == t1);
        assert(module_imports(m3)[2].2 == t2);
        let is_pat_match_in = add_import_func(&mut module, "internal", "is_pat_match_in", t3);
        let ghost m4 = module;
        assert(module_imports(m4)[0].3 == rule_match);
        assert(module_imports(m4)[1].3 == is_pat_match);
        assert(module_imports(m4)[2].3 == is_pat_match_at);
        assert(module_type(m4, t0) == host_signatures()[0]);
        assert(module_type(m4, t1) == host_signatures()[1]);
        assert(module_type(m4, t2) == host_signatures()[2]);
        assert(module_type(m4, t3) == host_signatures()[3]);

        let i64_tmp = add_local(&mut module, walrus::ValType::I64);
        let i32_tmp = add_local(&mut module, walrus::ValType::I32);
        assert(module_locals(module)[0].0 == i64_tmp);
        let exception_flag = add_local(&mut module, walrus::ValType::I32);
        assert(module_locals(module)[0].0 == i64_tmp);
        assert(module_locals(module)[1].0 == i32_tmp);
        let ghost m5 = module;
        assert(module_type_ids(m5).contains(t0));
        assert(module_type_ids(m5).contains(t1));
        assert(module_type_ids(m5).contains(t2));
        assert(module_type_ids(m5).contains(t3));

        let main_fn = new_function(&mut module, &[], &[]);
        let wasm_symbols = WasmSymbols {
            rule_match,
            is_pat_match,
            is_pat_match_at,
            is_pat_match_in,
            i64_tmp,
            i32_tmp,
            exception_flag,
        };
        proof {
            reveal_strlit("internal");
            reveal_strlit("rule_match");
            reveal_strlit("is_pat_match");
            reveal_strlit("is_pat_match_at");
            reveal_strlit("is_pat_match_in");
            assert(module_imports(m5)[0].2 == t0);
            assert(module_imports(m5)[1].2 == t1);
            assert(module_imports(m5)[2].2 == t2);
            assert(module_imports(m5)[3].2 == t3);
            assert(module_type(module, t0) == module_type(m4, t0));
            assert(module_type(module, t1) == module_type(m4, t1));
            assert(module_type(module, t2) == module_type(m4, t2));
            assert(module_type(module, t3) == module_type(m4, t3));
            assert(imports_host_functions(module));
            assert(module_locals(module) =~= wasm_symbols.scratch_locals());
            assert(module_type(module, builder_type(main_fn)) =~= no_params_no_results());
        }
        ModuleBuilder { module, wasm_symbols, main_fn }
    }

    /// Returns a builder that appends code to the body of the module's
    /// `main` function. The module, the symbols, and the type and body
    /// sequence of `main` stay as they were.
    pub fn main_fn(&mut self) -> (r: walrus::InstrSeqBuilder<'_>)
        ensures
            seq_builder_target(r) == builder_entry(old(self).main_builder()),
            builder_entry(final(self).main_builder()) == builder_entry(old(self).main_builder()),
            final(self).main_type() == old(self).main_type(),
            old(self).wf() ==> final(self).wf(),
            final(self).module() == old(self).module(),
            final(self).symbols() == old(self).symbols(),
    {
        func_body(&mut self.main_fn)
    }

    /// Returns the symbols imported by the module.
    pub fn wasm_symbols(&self) -> (r: WasmSymbols)
        ensures
            r == self.symbols(),
    {
        self.wasm_symbols
    }

    /// Builds the module and consumes the builder. The result defines one
    /// function, `main`, without parameters or results and with the body
    /// built so far, and exports it, and nothing else, under the name
    /// `main`. Its imports and locals are those of the
    /// builder, so the symbols still denote them.
    pub fn build(self) -> (r: walrus::Module)
        requires
            self.wf(),
        ensures
            self.symbols().denote(r),
            module_imports(r) == module_imports(self.module()),
            module_locals(r) == module_locals(self.module()),
            module_local_funcs(r).len() == 1,
            module_local_funcs(r)[0].1 == self.main_type(),
            module_local_funcs(r)[0].2 == self.main_body(),
            module_type(r, module_local_funcs(r)[0].1) == no_params_no_results(),
            forall|k: int| 0 <= k < 4 ==> #[trigger] module_imports(r)[k].3 != module_local_funcs(r)[0].0,
            module_exports(r) == seq![("main"@, walrus::ExportItem::Function(module_local_funcs(r)[0].0))],
    {
        let ModuleBuilder { mut module, wasm_symbols, main_fn } = self;
        let ghost m0 = module;
        let main_id = finish_function(main_fn, &mut module);
        add_export(&mut module, "main", main_id);
        proof {
            reveal_strlit("main");
            assert(module_local_funcs(module) =~= seq![(main_id, builder_type(main_fn), builder_body(main_fn))]);
            assert(module_exports(module) =~= seq![("main"@, walrus::ExportItem::Function(main_id))]);
            assert forall|k: int| 0 <= k < 4 implies #[trigger] module_imports(module)[k].3 != main_id by {
                assert(module_imports(m0)[k].3 != main_id);
            }
            assert forall|k: int| 0 <= k < 4 implies module_type(module, (#[trigger] module_imports(module)[k]).2) == host_signatures()[k] by {
                assert(module_imports(module)[k] == module_imports(m0)[k]);
            }
        }
        module
    }
}

/// Invoked from WebAssembly to notify that rule `rule_id` matched. An id
/// outside the compiled rule set is ignored.
pub fn rule_match(ctx: &mut ScanContext, rule_id: RuleId)
    requires
        old(ctx).wf(),
    ensures
        final(ctx).wf(),
        (final(ctx).bitmap(), final(ctx).matching()) == report_step(
            old(ctx).bitmap(),
            old(ctx).matching(),
            rule_id,
        ),
        final(ctx).patterns() == old(ctx).patterns(),
{
    ctx.report_match(rule_id)
}

/// Invoked from WebAssembly to ask whether a pattern matched or not.
/// Returns 1 if the pattern identified by `pattern_id` matched, 0 otherwise.
pub fn is_pat_match(ctx: &ScanContext, pattern_id: PatternId) -> (r: i32)
    requires
        ctx.wf(),
    ensures
        r == (if pattern_matched(ctx.patterns(), pattern_id as int) { 1i32 } else { 0i32 }),
{
    ctx.pattern_matches().is_match(pattern_id)
}

/// Invoked from WebAssembly to ask whether a pattern matched at a given
/// offset. Returns 1 if so, 0 otherwise.
pub fn is_pat_match_at(ctx: &ScanContext, pattern_id: PatternId, offset: i64) -> (r: i32)
    requires
        ctx.wf(),
    ensures
        r == (if pattern_matched_at(ctx.patterns(), pattern_id as int, offset as int) {
            1i32
        } else {
            0i32
        }),
{
    ctx.pattern_matches().is_match_at(pattern_id, offset)
}

/// Invoked from WebAssembly to ask whether a pattern matched at some offset
/// within the inclusive range [`lower_bound`, `upper_bound`]. Returns 1 if so,
/// 0 otherwise.
pub fn is_pat_match_in(ctx: &ScanContext, pattern_id: PatternId, lower_bound: i64, upper_bound: i64) -> (r: i32)
    requires
        ctx.wf(),
    ensures
        r == (if pattern_matched_in(
            ctx.patterns(),
            pattern_id as int,
            lower_bound as int,
            upper_bound as int,
        ) {
            1i32
        } else {
            0i32
        }),
{
    ctx.pattern_matches().is_match_in(pattern_id, lower_bound, upper_bound)
}

} // verus!
