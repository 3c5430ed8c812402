//! React/SWR hook contexts: queries, mutations and streaming hooks.
use vstd::prelude::*;

use crate::context::operations::sse_event_text;
use crate::context::params::{cat3, optional_entry, required_entry};
use crate::dedup::{absorb_group, dedup_state, flags_match, group_positions, lemma_group_flags, Keyed};
use crate::ir::{HttpMethod, IrOperation, IrParameter, IrParameterLocation, IrReturnType, IrSpec, IrType};
use crate::pack::TypeMapConfig;
use crate::seqs::{collect, first_occurrences, flat_positions, flat_prefix, kept_first, lemma_collect_step, lemma_flat_prefix_next, lemma_take_all, push_first_occurrence};
use crate::text::{contains_char, join_strings, owned, seq_join, views};
use crate::type_map::{map_type, type_text};

verus! {

/// Parameters that hooks pass on: all but cookies.
pub open spec fn hook_param(p: IrParameter) -> bool {
    p.location != IrParameterLocation::Cookie
}

/// Hook parameters that must be given: required ones and path parameters.
pub open spec fn hook_required(p: IrParameter) -> bool {
    p.required || p.location == IrParameterLocation::Path
}

/// Required signature entries (`camel: type`).
pub open spec fn hook_sig_req_of(tm: TypeMapConfig) -> spec_fn(IrParameter) -> Option<Seq<char>> {
    |p: IrParameter|
        if hook_param(p) && hook_required(p) {
            Some(required_entry(p.name.camel_case@, type_text(p.param_type, tm)))
        } else {
            None
        }
}

/// Optional signature entries (`camel?: type`).
pub open spec fn hook_sig_opt_of(tm: TypeMapConfig) -> spec_fn(IrParameter) -> Option<Seq<char>> {
    |p: IrParameter|
        if hook_param(p) && !hook_required(p) {
            Some(optional_entry(p.name.camel_case@, type_text(p.param_type, tm)))
        } else {
            None
        }
}

/// Names of required hook parameters.
pub open spec fn hook_call_req_of() -> spec_fn(IrParameter) -> Option<Seq<char>> {
    |p: IrParameter| if hook_param(p) && hook_required(p) { Some(p.name.camel_case@) } else { None }
}

/// Names of optional hook parameters.
pub open spec fn hook_call_opt_of() -> spec_fn(IrParameter) -> Option<Seq<char>> {
    |p: IrParameter| if hook_param(p) && !hook_required(p) { Some(p.name.camel_case@) } else { None }
}

/// Names of all hook parameters (the SWR key parts).
pub open spec fn hook_key_of() -> spec_fn(IrParameter) -> Option<Seq<char>> {
    |p: IrParameter| if hook_param(p) { Some(p.name.camel_case@) } else { None }
}

/// Mapped types of all hook parameters (the SWR key type parts).
pub open spec fn hook_key_type_of(tm: TypeMapConfig) -> spec_fn(IrParameter) -> Option<Seq<char>> {
    |p: IrParameter| if hook_param(p) { Some(type_text(p.param_type, tm)) } else { None }
}

/// Dependency-list entries (`, camel`).
pub open spec fn hook_dep_of() -> spec_fn(IrParameter) -> Option<Seq<char>> {
    |p: IrParameter| if hook_param(p) { Some(", "@ + p.name.camel_case@) } else { None }
}

/// The hook signature: required entries, then optional ones.
pub open spec fn hook_signature(op: IrOperation, tm: TypeMapConfig) -> Seq<char> {
    seq_join(collect(op.parameters@, hook_sig_req_of(tm)) + collect(op.parameters@, hook_sig_opt_of(tm)), ", "@)
}

/// The argument names of the client call: required names, then optional ones.
pub open spec fn hook_call_names(op: IrOperation) -> Seq<Seq<char>> {
    collect(op.parameters@, hook_call_req_of()) + collect(op.parameters@, hook_call_opt_of())
}

/// The SWR key: the quoted path, or a const tuple of the path and the parameter names.
pub open spec fn swr_key_text(op: IrOperation) -> Seq<char> {
    let keys = collect(op.parameters@, hook_key_of());
    if keys.len() == 0 {
        "\""@ + op.path@ + "\""@
    } else {
        "[\""@ + op.path@ + "\", "@ + seq_join(keys, ", "@) + "] as const"@
    }
}

/// The SWR key type of a mutation.
pub open spec fn swr_key_type_text(op: IrOperation, tm: TypeMapConfig) -> Seq<char> {
    let types = collect(op.parameters@, hook_key_type_of(tm));
    if types.len() == 0 {
        "string"@
    } else {
        "readonly [string, "@ + seq_join(types, ", "@) + "]"@
    }
}

/// The per-parameter lists that hook contexts are assembled from.
pub struct HookParamLists {
    pub sig_req: Vec<String>,
    pub sig_opt: Vec<String>,
    pub call_req: Vec<String>,
    pub call_opt: Vec<String>,
    pub keys: Vec<String>,
    pub key_types: Vec<String>,
    pub deps: Vec<String>,
}

/// Collects the hook parameter lists of an operation.
pub fn hook_param_lists(op: &IrOperation, tm: &TypeMapConfig) -> (r: HookParamLists)
    ensures
        views(r.sig_req@) == collect(op.parameters@, hook_sig_req_of(*tm)),
        views(r.sig_opt@) == collect(op.parameters@, hook_sig_opt_of(*tm)),
        views(r.call_req@) == collect(op.parameters@, hook_call_req_of()),
        views(r.call_opt@) == collect(op.parameters@, hook_call_opt_of()),
        views(r.keys@) == collect(op.parameters@, hook_key_of()),
        views(r.key_types@) == collect(op.parameters@, hook_key_type_of(*tm)),
        views(r.deps@) == collect(op.parameters@, hook_dep_of()),
{
    let ghost ps = op.parameters@;
    let mut l = HookParamLists {
        sig_req: Vec::new(),
        sig_opt: Vec::new(),
        call_req: Vec::new(),
        call_opt: Vec::new(),
        keys: Vec::new(),
        key_types: Vec::new(),
        deps: Vec::new(),
    };
    let mut i: usize = 0;
    while i < op.parameters.len()
        invariant
            ps == op.parameters@,
            i <= ps.len(),
            views(l.sig_req@) == collect(ps.take(i as int), hook_sig_req_of(*tm)),
            views(l.sig_opt@) == collect(ps.take(i as int), hook_sig_opt_of(*tm)),
            views(l.call_req@) == collect(ps.take(i as int), hook_call_req_of()),
            views(l.call_opt@) == collect(ps.take(i as int), hook_call_opt_of()),
            views(l.keys@) == collect(ps.take(i as int), hook_key_of()),
            views(l.key_types@) == collect(ps.take(i as int), hook_key_type_of(*tm)),
            views(l.deps@) == collect(ps.take(i as int), hook_dep_of()),
        decreases ps.len() - i,
    {
        let param = &op.parameters[i];
        proof {
            lemma_collect_step(ps, hook_sig_req_of(*tm), i as int);
            lemma_collect_step(ps, hook_sig_opt_of(*tm), i as int);
            lemma_collect_step(ps, hook_call_req_of(), i as int);
            lemma_collect_step(ps, hook_call_opt_of(), i as int);
            lemma_collect_step(ps, hook_key_of(), i as int);
            lemma_collect_step(ps, hook_key_type_of(*tm), i as int);
            lemma_collect_step(ps, hook_dep_of(), i as int);
        }
        if param.location != IrParameterLocation::Cookie {
            let ts = map_type(&param.param_type, tm);
            let camel = param.name.camel_case.as_str();
            let is_required = param.required || param.location == IrParameterLocation::Path;
            if is_required {
                l.sig_req.push(cat3(camel, ": ", ts.as_str()));
                l.call_req.push(owned(camel));
            } else {
                l.sig_opt.push(cat3(camel, "?: ", ts.as_str()));
                l.call_opt.push(owned(camel));
            }
            l.keys.push(owned(camel));
            l.deps.push(owned(", ").concat(camel));
            l.key_types.push(ts);
        }
        proof {
            assert(views(l.sig_req@) =~= collect(ps.take(i + 1), hook_sig_req_of(*tm)));
            assert(views(l.sig_opt@) =~= collect(ps.take(i + 1), hook_sig_opt_of(*tm)));
            assert(views(l.call_req@) =~= collect(ps.take(i + 1), hook_call_req_of()));
            assert(views(l.call_opt@) =~= collect(ps.take(i + 1), hook_call_opt_of()));
            assert(views(l.keys@) =~= collect(ps.take(i + 1), hook_key_of()));
            assert(views(l.key_types@) =~= collect(ps.take(i + 1), hook_key_type_of(*tm)));
            assert(views(l.deps@) =~= collect(ps.take(i + 1), hook_dep_of()));
        }
        i = i + 1;
    }
    proof {
        lemma_take_all(ps);
    }
    l
}

fn concat_lists(a: Vec<String>, b: Vec<String>) -> (r: Vec<String>)
    ensures
        views(r@) == views(a@) + views(b@),
{
    let mut a = a;
    let mut b = b;
    let ghost va = views(a@);
    let ghost vb = views(b@);
    a.append(&mut b);
    assert(views(a@) =~= va + vb);
    a
}

fn swr_key(op: &IrOperation, keys: &Vec<String>) -> (r: String)
    requires
        views(keys@) == collect(op.parameters@, hook_key_of()),
    ensures
        r@ == swr_key_text(*op),
{
    if keys.len() == 0 {
        cat3("\"", op.path.as_str(), "\"")
    } else {
        let joined = join_strings(keys, ", ");
        cat3("[\"", op.path.as_str(), "\", ").concat(joined.as_str()).concat("] as const")
    }
}

/// The signature, SWR key and call arguments of a query hook.
pub fn build_hook_query_params(op: &IrOperation, tm: &TypeMapConfig) -> (r: (String, String, String))
    ensures
        r.0@ == hook_signature(*op, *tm),
        r.1@ == swr_key_text(*op),
        r.2@ == seq_join(hook_call_names(*op), ", "@),
{
    let l = hook_param_lists(op, tm);
    let swr = swr_key(op, &l.keys);
    let sig_parts = concat_lists(l.sig_req, l.sig_opt);
    let call_parts = concat_lists(l.call_req, l.call_opt);
    (join_strings(&sig_parts, ", "), swr, join_strings(&call_parts, ", "))
}

/// The call names of a mutation hook: the parameter names, then `arg` when there is a body.
pub open spec fn mutation_call_names(op: IrOperation) -> Seq<Seq<char>> {
    if op.request_body is Some {
        hook_call_names(op).push("arg"@)
    } else {
        hook_call_names(op)
    }
}

/// The path-parameter signature, SWR key, call arguments and SWR key type of a mutation hook.
pub fn build_hook_mutation_params(op: &IrOperation, tm: &TypeMapConfig) -> (r: (String, String, String, String))
    ensures
        r.0@ == hook_signature(*op, *tm),
        r.1@ == swr_key_text(*op),
        r.2@ == seq_join(mutation_call_names(*op), ", "@),
        r.3@ == swr_key_type_text(*op, *tm),
{
    let l = hook_param_lists(op, tm);
    let swr = swr_key(op, &l.keys);
    let sig_parts = concat_lists(l.sig_req, l.sig_opt);
    let mut call_parts = concat_lists(l.call_req, l.call_opt);
    if op.request_body.is_some() {
        call_parts.push(owned("arg"));
    }
    assert(views(call_parts@) =~= mutation_call_names(*op));
    let swr_key_type = if l.key_types.len() == 0 {
        owned("string")
    } else {
        let joined = join_strings(&l.key_types, ", ");
        cat3("readonly [string, ", joined.as_str(), "]")
    };
    (join_strings(&sig_parts, ", "), swr, join_strings(&call_parts, ", "), swr_key_type)
}

/// The trigger parameters of a streaming hook: the body entry, or nothing.
pub open spec fn trigger_params_text(op: IrOperation, tm: TypeMapConfig) -> Seq<char> {
    match op.request_body {
        Some(b) => if b.required {
            required_entry("body"@, type_text(b.body_type, tm))
        } else {
            optional_entry("body"@, type_text(b.body_type, tm))
        },
        None => Seq::empty(),
    }
}

/// The stream call names: the parameter names, then `body` when there is a body.
pub open spec fn stream_call_names(op: IrOperation) -> Seq<Seq<char>> {
    if op.request_body is Some {
        hook_call_names(op).push("body"@)
    } else {
        hook_call_names(op)
    }
}

/// The path-parameter signature, trigger parameters, stream call arguments and
/// effect dependencies of a streaming hook.
pub fn build_hook_sse_params(op: &IrOperation, tm: &TypeMapConfig) -> (r: (String, String, String, String))
    ensures
        r.0@ == hook_signature(*op, *tm),
        r.1@ == trigger_params_text(*op, *tm),
        r.2@ == seq_join(stream_call_names(*op), ", "@),
        r.3@ == seq_join(collect(op.parameters@, hook_dep_of()), ""@),
{
    let l = hook_param_lists(op, tm);
    let sig_parts = concat_lists(l.sig_req, l.sig_opt);
    let mut stream_call_parts = concat_lists(l.call_req, l.call_opt);
    let trigger_params = match &op.request_body {
        Some(body) => {
            let ts = map_type(&body.body_type, tm);
            stream_call_parts.push(owned("body"));
            if body.required {
                cat3("body", ": ", ts.as_str())
            } else {
                cat3("body", "?: ", ts.as_str())
            }
        },
        None => String::new(),
    };
    assert(views(stream_call_parts@) =~= stream_call_names(*op));
    (join_strings(&sig_parts, ", "), trigger_params, join_strings(&stream_call_parts, ", "), join_strings(&l.deps, ""))
}


/// What a hook does.
#[derive(Debug, Clone, Copy, PartialEq, Eq, Structural)]
pub enum HookKind {
    Query,
    Mutation,
    Sse,
}

/// One React hook as templates see it. Fields that a kind of hook does not
/// use are left empty.
#[derive(Debug)]
pub struct HookContext {
    pub kind: HookKind,
    pub hook_name: String,
    pub method_name: String,
    /// Query hooks: the parameter list.
    pub params_signature: String,
    /// Mutation and streaming hooks: the parameter list.
    pub path_params_signature: String,
    pub return_type: String,
    pub has_body: bool,
    pub body_type: String,
    pub swr_key: String,
    pub swr_key_type: String,
    pub call_args: String,
    pub event_type: String,
    pub event_type_array: String,
    pub trigger_params: String,
    pub stream_call_args: String,
    pub deps: String,
    pub description: Option<String>,
}

impl Keyed for HookContext {
    open spec fn key_view(&self) -> Seq<char> {
        self.hook_name@
    }

    fn key_str(&self) -> (r: &str) {
        self.hook_name.as_str()
    }
}

/// `summary`, else `description`.
pub open spec fn hook_description(op: IrOperation) -> Option<String> {
    match op.summary {
        Some(s) => Some(s),
        None => op.description,
    }
}

/// The mapped request body type, or the mapped void type without a body.
pub open spec fn hook_body_type(op: IrOperation, tm: TypeMapConfig) -> Seq<char> {
    match op.request_body {
        Some(b) => type_text(b.body_type, tm),
        None => type_text(IrType::Void, tm),
    }
}

/// `use<Pascal>`.
pub open spec fn use_name(op: IrOperation) -> Seq<char> {
    "use"@ + op.name.pascal_case@
}

/// How many hooks an operation yields: two for an SSE operation that also answers with JSON.
pub open spec fn hook_count(op: IrOperation) -> nat {
    match op.return_type {
        IrReturnType::Sse(sse) => if sse.json_response is Some { 2 } else { 1 },
        _ => 1,
    }
}

/// The name of the `j`-th hook of an operation.
pub open spec fn hook_name_at(op: IrOperation, j: int) -> Seq<char> {
    match op.return_type {
        IrReturnType::Sse(sse) => if j == 0 && sse.also_has_json {
            use_name(op) + "Stream"@
        } else {
            use_name(op)
        },
        _ => use_name(op),
    }
}

/// `h` is the query hook of `op` returning `return_type`.
pub open spec fn query_hook_is(h: HookContext, op: IrOperation, tm: TypeMapConfig, return_type: Seq<char>) -> bool {
    &&& h.kind == HookKind::Query
    &&& h.hook_name@ == use_name(op)
    &&& h.method_name@ == op.name.camel_case@
    &&& h.params_signature@ == hook_signature(op, tm)
    &&& h.return_type@ == return_type
    &&& h.swr_key@ == swr_key_text(op)
    &&& h.call_args@ == seq_join(hook_call_names(op), ", "@)
    &&& h.description == hook_description(op)
}

/// `h` is the mutation hook of `op` returning `return_type`.
pub open spec fn mutation_hook_is(h: HookContext, op: IrOperation, tm: TypeMapConfig, return_type: Seq<char>) -> bool {
    &&& h.kind == HookKind::Mutation
    &&& h.hook_name@ == use_name(op)
    &&& h.method_name@ == op.name.camel_case@
    &&& h.path_params_signature@ == hook_signature(op, tm)
    &&& h.return_type@ == return_type
    &&& h.has_body == (op.request_body is Some)
    &&& h.body_type@ == hook_body_type(op, tm)
    &&& h.swr_key@ == swr_key_text(op)
    &&& h.swr_key_type@ == swr_key_type_text(op, tm)
    &&& h.call_args@ == seq_join(mutation_call_names(op), ", "@)
    &&& h.description == hook_description(op)
}

/// The event type array: parenthesized when the event type is a union.
pub open spec fn event_array_text(event: Seq<char>) -> Seq<char> {
    if event.contains('|') {
        "("@ + event + ")[]"@
    } else {
        event + "[]"@
    }
}

/// `h` is the streaming hook of `op`.
pub open spec fn sse_hook_is(h: HookContext, op: IrOperation, tm: TypeMapConfig) -> bool {
    &&& h.kind == HookKind::Sse
    &&& h.hook_name@ == hook_name_at(op, 0)
    &&& h.method_name@ == crate::context::operations::sse_method_name(op)
    &&& h.path_params_signature@ == hook_signature(op, tm)
    &&& h.event_type@ == sse_event_text(op, tm)
    &&& h.event_type_array@ == event_array_text(sse_event_text(op, tm))
    &&& h.trigger_params@ == trigger_params_text(op, tm)
    &&& h.stream_call_args@ == seq_join(stream_call_names(op), ", "@)
    &&& h.deps@ == seq_join(collect(op.parameters@, hook_dep_of()), ""@)
    &&& h.description == hook_description(op)
}

/// `h` is the `j`-th hook of `op`: GET operations with a standard response get
/// a query hook, other standard and void operations a mutation hook, and SSE
/// operations a streaming hook followed, when they also answer with JSON, by a
/// query (GET) or mutation hook for the JSON response.
#[verifier::opaque]
pub open spec fn hook_context_is(h: HookContext, op: IrOperation, j: int, tm: TypeMapConfig) -> bool {
    match op.return_type {
        IrReturnType::Standard(resp) => if op.method == HttpMethod::Get {
            query_hook_is(h, op, tm, type_text(resp.response_type, tm))
        } else {
            mutation_hook_is(h, op, tm, type_text(resp.response_type, tm))
        },
        IrReturnType::Void => mutation_hook_is(h, op, tm, type_text(IrType::Void, tm)),
        IrReturnType::Sse(sse) => if j == 0 {
            sse_hook_is(h, op, tm)
        } else {
            let rt = type_text(sse.json_response.unwrap().response_type, tm);
            if op.method == HttpMethod::Get {
                query_hook_is(h, op, tm, rt)
            } else {
                mutation_hook_is(h, op, tm, rt)
            }
        },
    }
}

fn dup_opt_string(o: &Option<String>) -> (r: Option<String>)
    ensures
        r == *o,
{
    match o {
        Some(s) => Some(s.clone()),
        None => None,
    }
}

fn description_of(op: &IrOperation) -> (r: Option<String>)
    ensures
        r == hook_description(*op),
{
    match &op.summary {
        Some(s) => Some(s.clone()),
        None => dup_opt_string(&op.description),
    }
}

fn query_hook(op: &IrOperation, tm: &TypeMapConfig, return_type: String) -> (r: HookContext)
    ensures
        query_hook_is(r, *op, *tm, return_type@),
{
    let (params_sig, swr_key, call_args) = build_hook_query_params(op, tm);
    HookContext {
        kind: HookKind::Query,
        hook_name: owned("use").concat(op.name.pascal_case.as_str()),
        method_name: op.name.camel_case.clone(),
        params_signature: params_sig,
        path_params_signature: String::new(),
        return_type,
        has_body: false,
        body_type: String::new(),
        swr_key,
        swr_key_type: String::new(),
        call_args,
        event_type: String::new(),
        event_type_array: String::new(),
        trigger_params: String::new(),
        stream_call_args: String::new(),
        deps: String::new(),
        description: description_of(op),
    }
}

fn mutation_hook(op: &IrOperation, tm: &TypeMapConfig, return_type: String) -> (r: HookContext)
    ensures
        mutation_hook_is(r, *op, *tm, return_type@),
{
    let has_body = op.request_body.is_some();
    let body_type = match &op.request_body {
        Some(b) => map_type(&b.body_type, tm),
        None => map_type(&IrType::Void, tm),
    };
    let (path_params_sig, swr_key, call_args, swr_key_type) = build_hook_mutation_params(op, tm);
    HookContext {
        kind: HookKind::Mutation,
        hook_name: owned("use").concat(op.name.pascal_case.as_str()),
        method_name: op.name.camel_case.clone(),
        params_signature: String::new(),
        path_params_signature: path_params_sig,
        return_type,
        has_body,
        body_type,
        swr_key,
        swr_key_type,
        call_args,
        event_type: String::new(),
        event_type_array: String::new(),
        trigger_params: String::new(),
        stream_call_args: String::new(),
        deps: String::new(),
        description: description_of(op),
    }
}

/// Builds the hooks of one operation.
pub fn build_single_hook_contexts(op: &IrOperation, tm: &TypeMapConfig) -> (r: Vec<HookContext>)
    ensures
        r@.len() == hook_count(*op),
        forall|j: int| 0 <= j < r@.len() ==> hook_context_is(#[trigger] r@[j], *op, j, *tm),
        forall|j: int| 0 <= j < r@.len() ==> (#[trigger] r@[j]).hook_name@ == hook_name_at(*op, j),
{
    reveal(hook_context_is);
    let mut results: Vec<HookContext> = Vec::new();
    match &op.return_type {
        IrReturnType::Standard(resp) => {
            let return_type = map_type(&resp.response_type, tm);
            if op.method == HttpMethod::Get {
                results.push(query_hook(op, tm, return_type));
            } else {
                results.push(mutation_hook(op, tm, return_type));
            }
        },
        IrReturnType::Void => {
            let return_type = map_type(&IrType::Void, tm);
            results.push(mutation_hook(op, tm, return_type));
        },
        IrReturnType::Sse(sse) => {
            let event_type = match &sse.event_type_name {
                Some(name) => name.clone(),
                None => map_type(&sse.event_type, tm),
            };
            let event_type_array = if contains_char(event_type.as_str(), '|') {
                cat3("(", event_type.as_str(), ")[]")
            } else {
                event_type.clone().concat("[]")
            };
            let method_name = if sse.also_has_json {
                op.name.camel_case.clone().concat("Stream")
            } else {
                op.name.camel_case.clone()
            };
            let hook_name = if sse.also_has_json {
                cat3("use", op.name.pascal_case.as_str(), "Stream")
            } else {
                owned("use").concat(op.name.pascal_case.as_str())
            };
            let (path_params_sig, trigger_params, stream_call_args, deps) = build_hook_sse_params(op, tm);
            results.push(HookContext {
                kind: HookKind::Sse,
                hook_name,
                method_name,
                params_signature: String::new(),
                path_params_signature: path_params_sig,
                return_type: String::new(),
                has_body: false,
                body_type: String::new(),
                swr_key: String::new(),
                swr_key_type: String::new(),
                call_args: String::new(),
                event_type,
                event_type_array,
                trigger_params,
                stream_call_args,
                deps,
                description: description_of(op),
            });
            match &sse.json_response {
                Some(json_resp) => {
                    let return_type = map_type(&json_resp.response_type, tm);
                    if op.method == HttpMethod::Get {
                        results.push(query_hook(op, tm, return_type));
                    } else {
                        results.push(mutation_hook(op, tm, return_type));
                    }
                },
                None => {},
            }
        },
    }
    results
}

/// How many hooks each operation yields.
pub open spec fn hook_count_fn() -> spec_fn(IrOperation) -> nat {
    |op: IrOperation| hook_count(op)
}

/// The hook name at a position (operation index, hook index).
pub open spec fn hook_key_fn(ops: Seq<IrOperation>) -> spec_fn((int, int)) -> Seq<char> {
    |p: (int, int)| hook_name_at(ops[p.0], p.1)
}

/// The hook at a position is the hook there.
pub open spec fn hook_ok_fn(ops: Seq<IrOperation>, tm: TypeMapConfig) -> spec_fn(HookContext, (int, int)) -> bool {
    |h: HookContext, p: (int, int)| hook_context_is(h, ops[p.0], p.1, tm)
}

/// The positions of the hooks that survive deduplication by hook name.
pub open spec fn kept_hook_positions(ops: Seq<IrOperation>) -> Seq<(int, int)> {
    kept_first(flat_positions(ops, hook_count_fn()), hook_key_fn(ops))
}

/// Builds the hooks of every operation, keeping only the first hook of each
/// name; also tells for each operation whether it kept a hook.
pub fn build_hook_contexts(ir: &IrSpec, tm: &TypeMapConfig, operation_casing: &str) -> (r: (Vec<HookContext>, Vec<bool>))
    ensures
        ({
            let ops = ir.operations@;
            let kept = kept_hook_positions(ops);
            &&& r.0@.len() == kept.len()
            &&& forall|k: int| 0 <= k < kept.len() ==> hook_context_is(#[trigger] r.0@[k], ops[kept[k].0], kept[k].1, *tm)
            &&& flags_match(r.1@, kept, ops.len() as int)
        }),
{
    let ghost ops = ir.operations@;
    let ghost count = hook_count_fn();
    let ghost key = hook_key_fn(ops);
    let ghost ok = hook_ok_fn(ops, *tm);
    let mut hooks: Vec<HookContext> = Vec::new();
    let mut seen: Vec<String> = Vec::new();
    let mut used: Vec<bool> = Vec::new();
    let mut i: usize = 0;
    assert(ops.take(0) =~= Seq::<IrOperation>::empty());
    assert(views(seen@) =~= kept_first(flat_positions(ops.take(0), count), key).map_values(key));
    while i < ir.operations.len()
        invariant
            ops == ir.operations@,
            count == hook_count_fn(),
            key == hook_key_fn(ops),
            ok == hook_ok_fn(ops, *tm),
            i <= ops.len(),
            dedup_state(hooks@, seen@, flat_positions(ops.take(i as int), count), key, ok),
            forall|k: int| 0 <= k < kept_first(flat_positions(ops.take(i as int), count), key).len()
                ==> (#[trigger] kept_first(flat_positions(ops.take(i as int), count), key)[k]).0 < i,
            flags_match(used@, kept_first(flat_positions(ops.take(i as int), count), key), i as int),
        decreases ops.len() - i,
    {
        let ghost prefix = flat_positions(ops.take(i as int), count);
        let ghost before = kept_first(prefix, key);
        let group = build_single_hook_contexts(&ir.operations[i], tm);
        let ghost n = group@.len();
        let any = absorb_group(&mut hooks, &mut seen, group, Ghost(prefix), Ghost(i as int), Ghost(key), Ghost(ok));
        used.push(any);
        proof {
            lemma_flat_prefix_next(ops, count, i as int);
            assert(prefix + group_positions(i as int, n) == flat_prefix(ops, count, i as int, n as int));
            lemma_group_flags(used@, before, kept_first(flat_positions(ops.take(i + 1), count), key), i as int, any);
        }
        i = i + 1;
    }
    proof {
        lemma_take_all(ops);
        let kept = kept_first(flat_positions(ops, count), key);
        assert forall|k: int| 0 <= k < kept.len() implies hook_context_is(#[trigger] hooks@[k], ops[kept[k].0], kept[k].1, *tm) by {
            assert(ok(hooks@[k], kept[k]));
        }
    }
    (hooks, used)
}

/// The hook names an operation declares: for a stream that also answers with
/// JSON, the streaming hook and then the JSON hook.
pub open spec fn declared_hook_names(op: IrOperation) -> Seq<Seq<char>> {
    match op.return_type {
        IrReturnType::Sse(sse) => if sse.also_has_json {
            seq![use_name(op) + "Stream"@, use_name(op)]
        } else {
            seq![use_name(op)]
        },
        _ => seq![use_name(op)],
    }
}

/// The hook names of all operations, in order, with repeats.
pub open spec fn all_declared_hook_names(ops: Seq<IrOperation>) -> Seq<Seq<char>>
    decreases ops.len(),
{
    if ops.len() == 0 {
        Seq::empty()
    } else {
        all_declared_hook_names(ops.drop_last()) + declared_hook_names(ops.last())
    }
}

/// The hook names of all operations, each name once, in order of first declaration.
pub fn build_hook_names(ir: &IrSpec) -> (r: Vec<String>)
    ensures
        views(r@) == first_occurrences(all_declared_hook_names(ir.operations@)),
{
    let ghost ops = ir.operations@;
    let mut names: Vec<String> = Vec::new();
    let mut i: usize = 0;
    assert(ops.take(0) =~= Seq::<IrOperation>::empty());
    assert(views(names@) =~= first_occurrences(all_declared_hook_names(ops.take(0))));
    while i < ir.operations.len()
        invariant
            ops == ir.operations@,
            i <= ops.len(),
            views(names@) == first_occurrences(all_declared_hook_names(ops.take(i as int))),
        decreases ops.len() - i,
    {
        let op = &ir.operations[i];
        let ghost before = all_declared_hook_names(ops.take(i as int));
        assert(ops.take(i + 1).drop_last() =~= ops.take(i as int));
        let base = owned("use").concat(op.name.pascal_case.as_str());
        let two = match &op.return_type {
            IrReturnType::Sse(sse) => sse.also_has_json,
            _ => false,
        };
        if two {
            let stream = base.clone().concat("Stream");
            push_first_occurrence(&mut names, stream, Ghost(before));
            push_first_occurrence(&mut names, base, Ghost(before.push(use_name(*op) + "Stream"@)));
            assert(before.push(use_name(*op) + "Stream"@).push(use_name(*op)) =~= all_declared_hook_names(ops.take(i + 1)));
        } else {
            push_first_occurrence(&mut names, base, Ghost(before));
            assert(before.push(use_name(*op)) =~= all_declared_hook_names(ops.take(i + 1)));
        }
        i = i + 1;
    }
    proof {
        crate::seqs::lemma_take_all(ops);
    }
    names
}

} // verus!
