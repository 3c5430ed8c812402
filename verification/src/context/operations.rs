//! Client method contexts, one or two per operation, deduplicated by method name.
use vstd::prelude::*;

use crate::context::params::{
    body_content_type_text, build_params, build_ts_params_signature, cased, header_entry_of, is_multipart_op,
    multipart_op, op_name, params_result_is, path_param_of, path_param_views, py_param_of, py_param_views,
    query_param_of, query_param_views, ts_params_signature, ParamsResult, PathParamContext, PyParamContext,
    QueryParamContext,
};
use crate::ir::{HttpMethod, IrOperation, IrReturnType, IrSpec, IrType};
use crate::pack::{dup_vec, TypeMapConfig};
use crate::dedup::{absorb_group, dedup_state, flags_match, group_positions, lemma_group_flags, Keyed};
use crate::seqs::{flat_positions, flat_prefix, kept_first, lemma_flat_prefix_next};
use crate::text::{owned, views};
use crate::type_map::{map_type, type_text};

verus! {

/// What a client method returns.
#[derive(Debug, Clone, Copy, PartialEq, Eq, Structural)]
pub enum ContextKind {
    Standard,
    Void,
    Sse,
}

impl ContextKind {
    /// The kind as templates spell it.
    pub fn as_str(&self) -> (r: &'static str)
        ensures
            r@ == kind_text(*self),
    {
        match self {
            ContextKind::Standard => "standard",
            ContextKind::Void => "void",
            ContextKind::Sse => "sse",
        }
    }
}

/// The kind as templates spell it.
pub open spec fn kind_text(k: ContextKind) -> Seq<char> {
    match k {
        ContextKind::Standard => "standard"@,
        ContextKind::Void => "void"@,
        ContextKind::Sse => "sse"@,
    }
}

/// One client method as templates see it.
#[derive(Debug)]
pub struct OperationContext {
    pub kind: ContextKind,
    pub method_name: String,
    pub name: String,
    pub http_method: HttpMethod,
    pub path: String,
    pub params_signature: String,
    pub return_type: String,
    /// The event type, for streaming methods.
    pub event_type: Option<String>,
    pub path_params: Vec<PathParamContext>,
    pub query_params: Vec<QueryParamContext>,
    pub params: Vec<PyParamContext>,
    pub header_params_obj: String,
    pub has_body: bool,
    pub body_type: String,
    pub body_param_name: String,
    pub body_content_type: String,
    pub is_multipart: bool,
    pub has_path_params: bool,
    pub has_query_params: bool,
    pub has_header_params: bool,
    pub summary: Option<String>,
    pub description: Option<String>,
    pub deprecated: bool,
}

/// The mapped request body type, empty without a body.
pub open spec fn body_type_text(op: IrOperation, tm: TypeMapConfig) -> Seq<char> {
    match op.request_body {
        Some(b) => type_text(b.body_type, tm),
        None => Seq::empty(),
    }
}

/// The name of the streaming method of an SSE operation: `<camel>Stream` when
/// the operation also answers with JSON.
pub open spec fn sse_method_name(op: IrOperation) -> Seq<char> {
    match op.return_type {
        IrReturnType::Sse(sse) => if sse.also_has_json {
            op.name.camel_case@ + "Stream"@
        } else {
            op.name.camel_case@
        },
        _ => op.name.camel_case@,
    }
}

/// The event type of an SSE operation: its named event type, else the mapped event type.
pub open spec fn sse_event_text(op: IrOperation, tm: TypeMapConfig) -> Seq<char> {
    match op.return_type {
        IrReturnType::Sse(sse) => match sse.event_type_name {
            Some(n) => n@,
            None => type_text(sse.event_type, tm),
        },
        _ => Seq::empty(),
    }
}

/// How many client methods an operation yields: two for an SSE operation that
/// also answers with JSON, else one.
pub open spec fn op_context_count(op: IrOperation) -> nat {
    match op.return_type {
        IrReturnType::Sse(sse) => if sse.json_response is Some { 2 } else { 1 },
        _ => 1,
    }
}

/// The method name of the `j`-th client method of an operation.
pub open spec fn op_method_name_at(op: IrOperation, j: int, casing: Seq<char>) -> Seq<char> {
    match op.return_type {
        IrReturnType::Sse(_) => if j == 0 { sse_method_name(op) } else { cased(op.name, casing) },
        _ => cased(op.name, casing),
    }
}

/// The optional-string view.
pub open spec fn opt_view(o: Option<String>) -> Option<Seq<char>> {
    match o {
        Some(s) => Some(s@),
        None => None,
    }
}

/// The fields that every client method of `op` shares.
pub open spec fn op_ctx_common(c: OperationContext, op: IrOperation, tm: TypeMapConfig, field_casing: Seq<char>) -> bool {
    let ps = op.parameters@;
    &&& c.name@ == op.name.snake_case@
    &&& c.http_method == op.method
    &&& c.path@ == op.path@
    &&& path_param_views(c.path_params@) == collect_path_params(op, field_casing)
    &&& query_param_views(c.query_params@) == crate::seqs::collect(ps, query_param_of(field_casing))
    &&& py_param_views(c.params@) == crate::seqs::collect(ps, py_param_of(tm, field_casing))
    &&& c.header_params_obj@ == crate::text::seq_join(crate::seqs::collect(ps, header_entry_of(field_casing)), ", "@)
    &&& c.has_body == (op.request_body is Some)
    &&& c.body_type@ == body_type_text(op, tm)
    &&& c.body_param_name@ == "body"@
    &&& c.body_content_type@ == body_content_type_text(op)
    &&& c.is_multipart == multipart_op(op)
    &&& c.has_path_params == (collect_path_params(op, field_casing).len() > 0)
    &&& c.has_query_params == (crate::seqs::collect(ps, query_param_of(field_casing)).len() > 0)
    &&& c.has_header_params == (crate::seqs::collect(ps, header_entry_of(field_casing)).len() > 0)
    &&& c.summary == op.summary
    &&& c.deprecated == op.deprecated
}

/// The path parameters of `op`: (name, original name).
pub open spec fn collect_path_params(op: IrOperation, casing: Seq<char>) -> Seq<(Seq<char>, Seq<char>)> {
    crate::seqs::collect(op.parameters@, path_param_of(casing))
}

/// `c` is the `j`-th client method of `op`.
#[verifier::opaque]
pub open spec fn op_context_is(
    c: OperationContext,
    op: IrOperation,
    j: int,
    tm: TypeMapConfig,
    field_casing: Seq<char>,
    operation_casing: Seq<char>,
) -> bool {
    &&& op_ctx_common(c, op, tm, field_casing)
    &&& c.method_name@ == op_method_name_at(op, j, operation_casing)
    &&& match op.return_type {
        IrReturnType::Standard(resp) => {
            &&& c.kind == ContextKind::Standard
            &&& c.params_signature@ == ts_params_signature(op, tm, field_casing, false)
            &&& c.return_type@ == type_text(resp.response_type, tm)
            &&& c.event_type is None
            &&& c.description == op.description
        },
        IrReturnType::Void => {
            &&& c.kind == ContextKind::Void
            &&& c.params_signature@ == ts_params_signature(op, tm, field_casing, false)
            &&& c.return_type@ == type_text(IrType::Void, tm)
            &&& c.event_type is None
            &&& c.description == op.description
        },
        IrReturnType::Sse(sse) => if j == 0 {
            &&& c.kind == ContextKind::Sse
            &&& c.params_signature@ == ts_params_signature(op, tm, field_casing, true)
            &&& c.return_type@ == sse_event_text(op, tm)
            &&& opt_view(c.event_type) == Some(sse_event_text(op, tm))
            &&& c.description == op.description
        } else {
            &&& c.kind == ContextKind::Standard
            &&& c.params_signature@ == ts_params_signature(op, tm, field_casing, false)
            &&& c.return_type@ == type_text(sse.json_response.unwrap().response_type, tm)
            &&& c.event_type is None
            &&& opt_view(c.description) == Some(
                match op.description {
                    Some(d) => d@,
                    None => Seq::empty(),
                } + " (JSON response)"@,
            )
        },
    }
}

fn dup_opt_string(o: &Option<String>) -> (r: Option<String>)
    ensures
        r == *o,
{
    match o {
        Some(s) => Some(s.clone()),
        None => None,
    }
}

fn make_context(
    op: &IrOperation,
    p: &ParamsResult,
    tm: &TypeMapConfig,
    Ghost(field_casing): Ghost<Seq<char>>,
    kind: ContextKind,
    method_name: String,
    params_signature: String,
    return_type: String,
    event_type: Option<String>,
    description: Option<String>,
) -> (r: OperationContext)
    requires
        params_result_is(*p, *op, *tm, field_casing),
    ensures
        op_ctx_common(r, *op, *tm, field_casing),
        r.kind == kind,
        r.method_name == method_name,
        r.params_signature == params_signature,
        r.return_type == return_type,
        r.event_type == event_type,
        r.description == description,
{
    let body_type = match &op.request_body {
        Some(b) => map_type(&b.body_type, tm),
        None => String::new(),
    };
    OperationContext {
        kind,
        method_name,
        name: op.name.snake_case.clone(),
        http_method: op.method,
        path: op.path.clone(),
        params_signature,
        return_type,
        event_type,
        path_params: dup_vec(&p.path_params),
        query_params: dup_vec(&p.query_params),
        params: dup_vec(&p.py_params),
        header_params_obj: p.header_params_obj.clone(),
        has_body: p.has_body,
        body_type,
        body_param_name: owned("body"),
        body_content_type: p.body_content_type.clone(),
        is_multipart: is_multipart_op(op),
        has_path_params: p.has_path_params,
        has_query_params: p.has_query_params,
        has_header_params: p.has_header_params,
        summary: dup_opt_string(&op.summary),
        description,
        deprecated: op.deprecated,
    }
}

/// Builds the client method contexts of one operation: one per operation,
/// plus a JSON method for an SSE operation that also answers with JSON.
pub fn build_single_operation_contexts(
    op: &IrOperation,
    tm: &TypeMapConfig,
    field_casing: &str,
    operation_casing: &str,
) -> (r: Vec<OperationContext>)
    ensures
        r@.len() == op_context_count(*op),
        forall|j: int| 0 <= j < r@.len() ==> op_context_is(#[trigger] r@[j], *op, j, *tm, field_casing@, operation_casing@),
        forall|j: int| 0 <= j < r@.len() ==> (#[trigger] r@[j]).method_name@ == op_method_name_at(*op, j, operation_casing@),
{
    reveal(op_context_is);
    let mut results: Vec<OperationContext> = Vec::new();
    let method_name = op_name(op, operation_casing);
    let p = build_params(op, tm, field_casing);
    let params_signature = build_ts_params_signature(op, tm, field_casing, false);
    match &op.return_type {
        IrReturnType::Standard(resp) => {
            let return_type = map_type(&resp.response_type, tm);
            results.push(make_context(op, &p, tm, Ghost(field_casing@), ContextKind::Standard, method_name,
                params_signature, return_type, None, dup_opt_string(&op.description)));
        },
        IrReturnType::Void => {
            let return_type = map_type(&IrType::Void, tm);
            results.push(make_context(op, &p, tm, Ghost(field_casing@), ContextKind::Void, method_name,
                params_signature, return_type, None, dup_opt_string(&op.description)));
        },
        IrReturnType::Sse(sse) => {
            let return_type = match &sse.event_type_name {
                Some(name) => name.clone(),
                None => map_type(&sse.event_type, tm),
            };
            let sse_name = if sse.also_has_json {
                op.name.camel_case.clone().concat("Stream")
            } else {
                op.name.camel_case.clone()
            };
            let sse_params_sig = build_ts_params_signature(op, tm, field_casing, true);
            let event_type = return_type.clone();
            results.push(make_context(op, &p, tm, Ghost(field_casing@), ContextKind::Sse, sse_name,
                sse_params_sig, return_type, Some(event_type), dup_opt_string(&op.description)));
            match &sse.json_response {
                Some(json_resp) => {
                    let json_return_type = map_type(&json_resp.response_type, tm);
                    let desc = match &op.description {
                        Some(d) => d.clone(),
                        None => String::new(),
                    };
                    let json_desc = desc.concat(" (JSON response)");
                    results.push(make_context(op, &p, tm, Ghost(field_casing@), ContextKind::Standard,
                        method_name, params_signature, json_return_type, None, Some(json_desc)));
                },
                None => {},
            }
        },
    }
    results
}


impl Keyed for OperationContext {
    open spec fn key_view(&self) -> Seq<char> {
        self.method_name@
    }

    fn key_str(&self) -> (r: &str) {
        self.method_name.as_str()
    }
}

/// How many client methods each operation yields.
pub open spec fn op_count_fn() -> spec_fn(IrOperation) -> nat {
    |op: IrOperation| op_context_count(op)
}

/// The method name at a position (operation index, method index).
pub open spec fn op_key_fn(ops: Seq<IrOperation>, operation_casing: Seq<char>) -> spec_fn((int, int)) -> Seq<char> {
    |p: (int, int)| op_method_name_at(ops[p.0], p.1, operation_casing)
}

/// The context at a position is the client method there.
pub open spec fn op_ok_fn(
    ops: Seq<IrOperation>,
    tm: TypeMapConfig,
    field_casing: Seq<char>,
    operation_casing: Seq<char>,
) -> spec_fn(OperationContext, (int, int)) -> bool {
    |c: OperationContext, p: (int, int)| op_context_is(c, ops[p.0], p.1, tm, field_casing, operation_casing)
}

/// The positions (operation index, method index) of the client methods that
/// survive deduplication by method name: the first method of each name, in
/// operation order.
pub open spec fn kept_operation_positions(ops: Seq<IrOperation>, operation_casing: Seq<char>) -> Seq<(int, int)> {
    kept_first(flat_positions(ops, op_count_fn()), op_key_fn(ops, operation_casing))
}

/// Builds the client methods of every operation, keeping only the first method
/// of each name; also tells for each operation whether it kept a method.
pub fn build_operation_contexts(
    ir: &IrSpec,
    tm: &TypeMapConfig,
    field_casing: &str,
    operation_casing: &str,
) -> (r: (Vec<OperationContext>, Vec<bool>))
    ensures
        ({
            let ops = ir.operations@;
            let kept = kept_operation_positions(ops, operation_casing@);
            &&& r.0@.len() == kept.len()
            &&& forall|k: int| 0 <= k < kept.len() ==> op_context_is(#[trigger] r.0@[k], ops[kept[k].0],
                kept[k].1, *tm, field_casing@, operation_casing@)
            &&& flags_match(r.1@, kept, ops.len() as int)
        }),
{
    let ghost ops = ir.operations@;
    let ghost count = op_count_fn();
    let ghost key = op_key_fn(ops, operation_casing@);
    let ghost ok = op_ok_fn(ops, *tm, field_casing@, operation_casing@);
    let mut operations: Vec<OperationContext> = Vec::new();
    let mut seen: Vec<String> = Vec::new();
    let mut used: Vec<bool> = Vec::new();
    let mut i: usize = 0;
    assert(ops.take(0) =~= Seq::<IrOperation>::empty());
    assert(views(seen@) =~= kept_first(flat_positions(ops.take(0), count), key).map_values(key));
    while i < ir.operations.len()
        invariant
            ops == ir.operations@,
            count == op_count_fn(),
            key == op_key_fn(ops, operation_casing@),
            ok == op_ok_fn(ops, *tm, field_casing@, operation_casing@),
            i <= ops.len(),
            dedup_state(operations@, seen@, flat_positions(ops.take(i as int), count), key, ok),
            forall|k: int| 0 <= k < kept_first(flat_positions(ops.take(i as int), count), key).len()
                ==> (#[trigger] kept_first(flat_positions(ops.take(i as int), count), key)[k]).0 < i,
            flags_match(used@, kept_first(flat_positions(ops.take(i as int), count), key), i as int),
        decreases ops.len() - i,
    {
        let ghost prefix = flat_positions(ops.take(i as int), count);
        let ghost before = kept_first(prefix, key);
        let ctxs = build_single_operation_contexts(&ir.operations[i], tm, field_casing, operation_casing);
        let ghost n = ctxs@.len();
        let any = absorb_group(&mut operations, &mut seen, ctxs, Ghost(prefix), Ghost(i as int), Ghost(key), Ghost(ok));
        used.push(any);
        proof {
            lemma_flat_prefix_next(ops, count, i as int);
            assert(prefix + group_positions(i as int, n) == flat_prefix(ops, count, i as int, n as int));
            lemma_group_flags(used@, before, kept_first(flat_positions(ops.take(i + 1), count), key), i as int, any);
        }
        i = i + 1;
    }
    proof {
        crate::seqs::lemma_take_all(ops);
        let kept = kept_first(flat_positions(ops, count), key);
        assert forall|k: int| 0 <= k < kept.len() implies op_context_is(#[trigger] operations@[k], ops[kept[k].0],
            kept[k].1, *tm, field_casing@, operation_casing@) by {
            assert(ok(operations@[k], kept[k]));
        }
    }
    (operations, used)
}

} // verus!
