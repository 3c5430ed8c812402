//! The whole template context of a spec: everything any template pack renders from.
use vstd::prelude::*;

use crate::context::guards::{all_guards, build_guard_contexts, guard_import_decls, guard_view, GuardContext};
use crate::context::hooks::{
    all_declared_hook_names, build_hook_contexts, build_hook_names, hook_context_is, kept_hook_positions, HookContext,
    HookKind,
};
use crate::context::imports::{collect_imported_types, collect_model_imports, all_selected, op_refs, selected_refs, sorted_set_is};
use crate::context::operations::{build_operation_contexts, kept_operation_positions, op_context_is, ContextKind, OperationContext};
use crate::context::schemas::{
    build_schema_contexts, collect_sse_event_types, event_type_views, schema_ctx_is, schema_names, schema_names_of,
    sse_event_entries, SchemaContext, SseEventTypeContext,
};
use crate::context::test_cases::{
    body_ref, build_python_test_contexts, build_test_operation_contexts, collect_test_type_imports, kept_test_positions,
    op_test_refs, py_test_is, test_context_is, test_count_fn, PyTestContext, TestContext,
};
use crate::dedup::{flags_match, group_kept};
use crate::ir::{IrOperation, IrSpec};
use crate::pack::TypeMapConfig;
use crate::seqs::{first_occurrences, flat_positions};
use crate::text::views;

verus! {

/// Everything templates render from.
#[derive(Debug)]
pub struct TemplateContext {
    pub title: String,
    pub schemas: Vec<SchemaContext>,
    pub sse_event_types: Vec<SseEventTypeContext>,
    /// Names that the guard module imports.
    pub imports: Vec<String>,
    pub guards: Vec<GuardContext>,
    pub operations: Vec<OperationContext>,
    pub hooks: Vec<HookContext>,
    pub imported_types: Vec<String>,
    pub hook_imported_types: Vec<String>,
    pub model_imports: Vec<String>,
    pub has_sse: bool,
    pub has_queries: bool,
    pub has_mutations: bool,
    pub has_hook_sse: bool,
    pub test_operations: Vec<TestContext>,
    pub test_type_imports: Vec<String>,
    pub py_test_operations: Vec<PyTestContext>,
    pub py_model_imports: Vec<String>,
    pub hook_names: Vec<String>,
}

/// For each of `n` operations, whether one of the kept positions belongs to it.
pub open spec fn kept_flags(kept: Seq<(int, int)>, n: nat) -> Seq<bool> {
    Seq::new(n, |x: int| group_kept(kept, x))
}

proof fn lemma_flags(flags: Seq<bool>, kept: Seq<(int, int)>, n: nat)
    requires
        flags_match(flags, kept, n as int),
    ensures
        flags == kept_flags(kept, n),
{
    assert(flags =~= kept_flags(kept, n));
}

/// `r` is the template context of `ir` under the type map and casings.
pub open spec fn template_context_is(
    r: TemplateContext,
    ir: IrSpec,
    tm: TypeMapConfig,
    field_casing: Seq<char>,
    operation_casing: Seq<char>,
) -> bool {
    let ops = ir.operations@;
    let kept_ops = kept_operation_positions(ops, operation_casing);
    let kept_hooks = kept_hook_positions(ops);
    let kept_tests = kept_test_positions(ops);
    let py_pos = flat_positions(ops, test_count_fn());
    &&& r.title@ == ir.info.title@
    &&& r.schemas@.len() == ir.schemas@.len()
    &&& forall|k: int| 0 <= k < r.schemas@.len() ==> schema_ctx_is(#[trigger] r.schemas@[k], ir.schemas@[k], tm, field_casing)
    &&& event_type_views(r.sse_event_types@) == sse_event_entries(ops, schema_names_of(ir.schemas@), tm)
    &&& views(r.imports@) == first_occurrences(guard_import_decls(ir.schemas@))
    &&& r.guards@.map_values(|g: GuardContext| guard_view(g)) == all_guards(ir.schemas@)
    &&& r.operations@.len() == kept_ops.len()
    &&& forall|k: int| 0 <= k < kept_ops.len() ==> op_context_is(#[trigger] r.operations@[k], ops[kept_ops[k].0],
        kept_ops[k].1, tm, field_casing, operation_casing)
    &&& r.hooks@.len() == kept_hooks.len()
    &&& forall|k: int| 0 <= k < kept_hooks.len() ==> hook_context_is(#[trigger] r.hooks@[k], ops[kept_hooks[k].0], kept_hooks[k].1, tm)
    &&& sorted_set_is(r.imported_types@, selected_refs(ops, kept_flags(kept_ops, ops.len()), |op: IrOperation| op_refs(op)))
    &&& sorted_set_is(r.hook_imported_types@, selected_refs(ops, kept_flags(kept_hooks, ops.len()), |op: IrOperation| op_refs(op)))
    &&& sorted_set_is(r.model_imports@, selected_refs(ops, all_selected(ops.len()), |op: IrOperation| op_refs(op)))
    &&& r.has_sse == exists|k: int| 0 <= k < r.operations@.len() && (#[trigger] r.operations@[k]).kind == ContextKind::Sse
    &&& r.has_queries == exists|k: int| 0 <= k < r.hooks@.len() && (#[trigger] r.hooks@[k]).kind == HookKind::Query
    &&& r.has_mutations == exists|k: int| 0 <= k < r.hooks@.len() && (#[trigger] r.hooks@[k]).kind == HookKind::Mutation
    &&& r.has_hook_sse == exists|k: int| 0 <= k < r.hooks@.len() && (#[trigger] r.hooks@[k]).kind == HookKind::Sse
    &&& r.test_operations@.len() == kept_tests.len()
    &&& forall|k: int| 0 <= k < kept_tests.len() ==> test_context_is(#[trigger] r.test_operations@[k], ops[kept_tests[k].0],
        kept_tests[k].1, tm)
    &&& sorted_set_is(r.test_type_imports@, selected_refs(ops, kept_flags(kept_tests, ops.len()), |op: IrOperation| op_test_refs(op)))
    &&& r.py_test_operations@.len() == py_pos.len()
    &&& forall|k: int| 0 <= k < py_pos.len() ==> py_test_is(#[trigger] r.py_test_operations@[k], ops[py_pos[k].0], py_pos[k].1)
    &&& sorted_set_is(r.py_model_imports@, selected_refs(ops, all_selected(ops.len()), |op: IrOperation| body_ref(op)))
    &&& views(r.hook_names@) == first_occurrences(all_declared_hook_names(ops))
}

fn any_operation_of_kind(ops: &Vec<OperationContext>, kind: ContextKind) -> (r: bool)
    ensures
        r == exists|k: int| 0 <= k < ops@.len() && (#[trigger] ops@[k]).kind == kind,
{
    let mut i: usize = 0;
    while i < ops.len()
        invariant
            i <= ops@.len(),
            forall|k: int| 0 <= k < i ==> (#[trigger] ops@[k]).kind != kind,
        decreases ops@.len() - i,
    {
        if ops[i].kind == kind {
            return true;
        }
        i = i + 1;
    }
    false
}

fn any_hook_of_kind(hooks: &Vec<HookContext>, kind: HookKind) -> (r: bool)
    ensures
        r == exists|k: int| 0 <= k < hooks@.len() && (#[trigger] hooks@[k]).kind == kind,
{
    let mut i: usize = 0;
    while i < hooks.len()
        invariant
            i <= hooks@.len(),
            forall|k: int| 0 <= k < i ==> (#[trigger] hooks@[k]).kind != kind,
        decreases hooks@.len() - i,
    {
        if hooks[i].kind == kind {
            return true;
        }
        i = i + 1;
    }
    false
}

/// Builds the universal template context of a spec.
pub fn build_context(ir: &IrSpec, tm: &TypeMapConfig, field_casing: &str, operation_casing: &str) -> (r: TemplateContext)
    ensures
        template_context_is(r, *ir, *tm, field_casing@, operation_casing@),
{
    let ghost ops = ir.operations@;
    let schemas = build_schema_contexts(ir, tm, field_casing);
    let names = schema_names(ir);
    let sse_event_types = collect_sse_event_types(ir, &names, tm);
    let guards = build_guard_contexts(ir);
    let (operations, used_ops) = build_operation_contexts(ir, tm, field_casing, operation_casing);
    let (hooks, hook_ops) = build_hook_contexts(ir, tm, operation_casing);
    let imported_types = collect_imported_types(&ir.operations, &used_ops, tm);
    let hook_imported_types = collect_imported_types(&ir.operations, &hook_ops, tm);
    let model_imports = collect_model_imports(ir);
    let has_sse = any_operation_of_kind(&operations, ContextKind::Sse);
    let has_queries = any_hook_of_kind(&hooks, HookKind::Query);
    let has_mutations = any_hook_of_kind(&hooks, HookKind::Mutation);
    let has_hook_sse = any_hook_of_kind(&hooks, HookKind::Sse);
    let (test_operations, test_ops) = build_test_operation_contexts(ir, tm, operation_casing);
    let test_type_imports = collect_test_type_imports(&ir.operations, &test_ops);
    let (py_test_operations, py_model_imports) = build_python_test_contexts(ir);
    let hook_names = build_hook_names(ir);
    proof {
        lemma_flags(used_ops@, kept_operation_positions(ops, operation_casing@), ops.len());
        lemma_flags(hook_ops@, kept_hook_positions(ops), ops.len());
        lemma_flags(test_ops@, kept_test_positions(ops), ops.len());
    }
    TemplateContext {
        title: ir.info.title.clone(),
        schemas,
        sse_event_types,
        imports: guards.imports,
        guards: guards.guards,
        operations,
        hooks,
        imported_types,
        hook_imported_types,
        model_imports,
        has_sse,
        has_queries,
        has_mutations,
        has_hook_sse,
        test_operations,
        test_type_imports,
        py_test_operations,
        py_model_imports,
        hook_names,
    }
}

} // verus!
