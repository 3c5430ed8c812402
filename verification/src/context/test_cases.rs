//! Contexts of the generated test suites (TypeScript and Python).
use vstd::prelude::*;

use crate::context::imports::{all_selected, selected_refs, sorted_set_is};
use crate::context::operations::{op_context_count, sse_event_text, sse_method_name, ContextKind};
use crate::context::params::cat3;
use crate::dedup::{absorb_group, dedup_state, flags_match, group_positions, lemma_group_flags, Keyed};
use crate::ir::{HttpMethod, IrOperation, IrParameter, IrParameterLocation, IrReturnType, IrSpec, IrType};
use crate::pack::TypeMapConfig;
use crate::seqs::{collect, flat_positions, flat_prefix, insert_sorted, kept_first, lemma_collect_step, lemma_flat_prefix_next, lemma_take_all, sorted_strict};
use crate::text::{ends_with, has_suffix, i64_text, int_text, join_strings, owned, replace_all, replace_str, seq_join, str_eq, views};
use crate::type_map::{map_type, type_text};

verus! {

/// A TypeScript literal that fits a value of the type.
pub open spec fn mock_ts(t: IrType) -> Seq<char>
    decreases t,
{
    match t {
        IrType::String => "\"test\""@,
        IrType::DateTime => "\"test\""@,
        IrType::StringLiteral(s) => "\""@ + s@ + "\""@,
        IrType::Number => "1"@,
        IrType::Integer => "1"@,
        IrType::IntegerLiteral(i) => int_text(i as int),
        IrType::Boolean => "true"@,
        IrType::Null => "undefined"@,
        IrType::Void => "undefined"@,
        IrType::Array(_) => "[]"@,
        IrType::Object(_) => "{}"@,
        IrType::MapOf(_) => "{}"@,
        IrType::Any => "{}"@,
        IrType::Ref(name) => "{} as "@ + name@,
        IrType::Binary => "new Blob()"@,
        IrType::Union(vs) => if vs@.len() > 0 { mock_ts(vs@[0]) } else { "{}"@ },
        IrType::Intersection(vs) => if vs@.len() > 0 { mock_ts(vs@[0]) } else { "{}"@ },
    }
}

/// A TypeScript literal that fits a value of the type.
pub fn mock_value_ts(ir_type: &IrType) -> (r: String)
    ensures
        r@ == mock_ts(*ir_type),
    decreases ir_type,
{
    match ir_type {
        IrType::String | IrType::DateTime => owned("\"test\""),
        IrType::StringLiteral(s) => cat3("\"", s.as_str(), "\""),
        IrType::Number | IrType::Integer => owned("1"),
        IrType::IntegerLiteral(i) => i64_text(*i),
        IrType::Boolean => owned("true"),
        IrType::Null | IrType::Void => owned("undefined"),
        IrType::Array(_) => owned("[]"),
        IrType::Object(_) | IrType::MapOf(_) | IrType::Any => owned("{}"),
        IrType::Ref(name) => owned("{} as ").concat(name.as_str()),
        IrType::Binary => owned("new Blob()"),
        IrType::Union(variants) | IrType::Intersection(variants) => {
            if variants.len() > 0 {
                proof {
                    assert(decreases_to!(variants => variants@));
                    assert(decreases_to!(variants@ => variants@[0]));
                }
                mock_value_ts(&variants[0])
            } else {
                owned("{}")
            }
        },
    }
}

/// A Python literal that fits a value of the type.
pub open spec fn mock_py(t: IrType) -> Seq<char>
    decreases t,
{
    match t {
        IrType::String => "\"test\""@,
        IrType::DateTime => "\"test\""@,
        IrType::StringLiteral(s) => "\""@ + s@ + "\""@,
        IrType::Number => "1"@,
        IrType::Integer => "1"@,
        IrType::IntegerLiteral(i) => int_text(i as int),
        IrType::Boolean => "True"@,
        IrType::Null => "None"@,
        IrType::Void => "None"@,
        IrType::Array(_) => "[]"@,
        IrType::Ref(name) => name@ + ".model_construct()"@,
        IrType::Object(_) => "{}"@,
        IrType::MapOf(_) => "{}"@,
        IrType::Any => "{}"@,
        IrType::Binary => "b\"test\""@,
        IrType::Union(vs) => if vs@.len() > 0 { mock_py(vs@[0]) } else { "{}"@ },
        IrType::Intersection(vs) => if vs@.len() > 0 { mock_py(vs@[0]) } else { "{}"@ },
    }
}

/// A Python literal that fits a value of the type.
pub fn mock_value_python(ir_type: &IrType) -> (r: String)
    ensures
        r@ == mock_py(*ir_type),
    decreases ir_type,
{
    match ir_type {
        IrType::String | IrType::DateTime => owned("\"test\""),
        IrType::StringLiteral(s) => cat3("\"", s.as_str(), "\""),
        IrType::Number | IrType::Integer => owned("1"),
        IrType::IntegerLiteral(i) => i64_text(*i),
        IrType::Boolean => owned("True"),
        IrType::Null | IrType::Void => owned("None"),
        IrType::Array(_) => owned("[]"),
        IrType::Ref(name) => name.clone().concat(".model_construct()"),
        IrType::Object(_) | IrType::MapOf(_) | IrType::Any => owned("{}"),
        IrType::Binary => owned("b\"test\""),
        IrType::Union(variants) | IrType::Intersection(variants) => {
            if variants.len() > 0 {
                proof {
                    assert(decreases_to!(variants => variants@));
                    assert(decreases_to!(variants@ => variants@[0]));
                }
                mock_value_python(&variants[0])
            } else {
                owned("{}")
            }
        },
    }
}

/// The value substituted for a path parameter in a test URL: `1` for numbers, else `test`.
pub open spec fn mock_path(t: IrType) -> Seq<char> {
    match t {
        IrType::Integer => "1"@,
        IrType::Number => "1"@,
        _ => "test"@,
    }
}

/// The value substituted for a path parameter in a test URL.
pub fn mock_path_value_ts(ir_type: &IrType) -> (r: String)
    ensures
        r@ == mock_path(*ir_type),
{
    match ir_type {
        IrType::Integer | IrType::Number => owned("1"),
        _ => owned("test"),
    }
}

/// `path` with each `{name}` placeholder of a path parameter replaced by its
/// test value, parameter by parameter.
pub open spec fn test_path_text(path: Seq<char>, ps: Seq<IrParameter>) -> Seq<char>
    decreases ps.len(),
{
    if ps.len() == 0 {
        path
    } else {
        let prev = test_path_text(path, ps.drop_last());
        let p = ps.last();
        if p.location == IrParameterLocation::Path {
            replace_all(prev, "{"@ + p.original_name@ + "}"@, mock_path(p.param_type))
        } else {
            prev
        }
    }
}

/// Substitutes test values for the path parameters of `op` in `path`.
pub fn build_python_test_path(path: &str, op: &IrOperation) -> (r: String)
    ensures
        r@ == test_path_text(path@, op.parameters@),
{
    let ghost ps = op.parameters@;
    let mut result = owned(path);
    let mut i: usize = 0;
    assert(ps.take(0).len() == 0);
    while i < op.parameters.len()
        invariant
            ps == op.parameters@,
            i <= ps.len(),
            result@ == test_path_text(path@, ps.take(i as int)),
        decreases ps.len() - i,
    {
        let param = &op.parameters[i];
        assert(ps.take(i + 1).drop_last() =~= ps.take(i as int));
        if param.location == IrParameterLocation::Path {
            let placeholder = cat3("{", param.original_name.as_str(), "}");
            proof {
                reveal_strlit("{");
            }
            let value = mock_path_value_ts(&param.param_type);
            result = replace_str(result.as_str(), placeholder.as_str(), value.as_str());
        }
        i = i + 1;
    }
    proof {
        lemma_take_all(ps);
    }
    result
}

/// The URL a test expects the client to call.
pub fn build_ts_expected_url_pattern(op: &IrOperation) -> (r: String)
    ensures
        r@ == test_path_text(op.path@, op.parameters@),
{
    build_python_test_path(op.path.as_str(), op)
}

/// Arguments of a test call: mock values of path parameters, of required query
/// and header parameters, then of the body.
pub open spec fn test_arg_of() -> spec_fn(IrParameter) -> Option<Seq<char>> {
    |p: IrParameter|
        if p.location == IrParameterLocation::Path || ((p.location == IrParameterLocation::Query
            || p.location == IrParameterLocation::Header) && p.required) {
            Some(mock_ts(p.param_type))
        } else {
            None
        }
}

/// The argument list of a test call.
pub open spec fn test_call_args_text(op: IrOperation) -> Seq<char> {
    let args = collect(op.parameters@, test_arg_of());
    seq_join(
        match op.request_body {
            Some(b) => args.push(mock_ts(b.body_type)),
            None => args,
        },
        ", "@,
    )
}

/// Builds the argument list of a test call.
pub fn build_ts_test_call_args(op: &IrOperation) -> (r: String)
    ensures
        r@ == test_call_args_text(*op),
{
    let ghost ps = op.parameters@;
    let mut args: Vec<String> = Vec::new();
    let mut i: usize = 0;
    while i < op.parameters.len()
        invariant
            ps == op.parameters@,
            i <= ps.len(),
            views(args@) == collect(ps.take(i as int), test_arg_of()),
        decreases ps.len() - i,
    {
        let param = &op.parameters[i];
        proof {
            lemma_collect_step(ps, test_arg_of(), i as int);
        }
        let take = match param.location {
            IrParameterLocation::Path => true,
            IrParameterLocation::Query | IrParameterLocation::Header => param.required,
            IrParameterLocation::Cookie => false,
        };
        if take {
            args.push(mock_value_ts(&param.param_type));
        }
        assert(views(args@) =~= collect(ps.take(i + 1), test_arg_of()));
        i = i + 1;
    }
    proof {
        lemma_take_all(ps);
    }
    match &op.request_body {
        Some(body) => {
            args.push(mock_value_ts(&body.body_type));
        },
        None => {},
    }
    assert(views(args@) =~= match op.request_body {
        Some(b) => collect(ps, test_arg_of()).push(mock_ts(b.body_type)),
        None => collect(ps, test_arg_of()),
    });
    join_strings(&args, ", ")
}

/// The type that a mapped return type is taken to be when building a mock response.
pub open spec fn guessed_type(r: IrType, return_type: Seq<char>) -> bool {
    if return_type == "string"@ {
        r == IrType::String
    } else if return_type == "number"@ {
        r == IrType::Number
    } else if return_type == "boolean"@ {
        r == IrType::Boolean
    } else if return_type == "void"@ {
        r == IrType::Void
    } else if has_suffix(return_type, "[]"@) {
        r matches IrType::Array(inner) && *inner == IrType::Any
    } else {
        r matches IrType::Ref(name) && name@ == return_type
    }
}

/// Guesses the IR type behind a mapped TypeScript return type.
pub fn guess_mock_type(return_type: &str) -> (r: IrType)
    ensures
        guessed_type(r, return_type@),
{
    if str_eq(return_type, "string") {
        IrType::String
    } else if str_eq(return_type, "number") {
        IrType::Number
    } else if str_eq(return_type, "boolean") {
        IrType::Boolean
    } else if str_eq(return_type, "void") {
        IrType::Void
    } else if ends_with(return_type, "[]") {
        IrType::Array(Box::new(IrType::Any))
    } else {
        IrType::Ref(owned(return_type))
    }
}

/// The mock response of a test for a method returning `return_type`.
pub open spec fn mock_response_text(return_type: Seq<char>) -> Seq<char> {
    if return_type == "void"@ {
        "undefined"@
    } else if return_type == "string"@ {
        "\"test\""@
    } else if return_type == "number"@ {
        "1"@
    } else if return_type == "boolean"@ {
        "true"@
    } else if has_suffix(return_type, "[]"@) {
        "[]"@
    } else {
        "{} as "@ + return_type
    }
}

/// One client-method test as templates see it.
#[derive(Debug)]
pub struct TestContext {
    pub kind: ContextKind,
    pub method_name: String,
    pub http_method: HttpMethod,
    pub return_type: String,
    pub has_body: bool,
    pub test_call_args: String,
    pub expected_url_pattern: String,
    pub mock_response: String,
}

impl Keyed for TestContext {
    open spec fn key_view(&self) -> Seq<char> {
        self.method_name@
    }

    fn key_str(&self) -> (r: &str) {
        self.method_name.as_str()
    }
}

/// `c` is the test of the method `method_name` of `op`, of the given kind and return type.
pub open spec fn test_context_fields(c: TestContext, op: IrOperation, kind: ContextKind, method_name: Seq<char>, return_type: Seq<char>) -> bool {
    &&& c.kind == kind
    &&& c.method_name@ == method_name
    &&& c.http_method == op.method
    &&& c.return_type@ == return_type
    &&& c.has_body == (op.request_body is Some)
    &&& c.test_call_args@ == test_call_args_text(op)
    &&& c.expected_url_pattern@ == test_path_text(op.path@, op.parameters@)
    &&& c.mock_response@ == mock_response_text(return_type)
}

/// Builds the test context of one client method.
pub fn build_ts_test_context(op: &IrOperation, kind: ContextKind, method_name: &str, return_type: &str) -> (r: TestContext)
    ensures
        test_context_fields(r, *op, kind, method_name@, return_type@),
{
    let has_body = op.request_body.is_some();
    let test_call_args = build_ts_test_call_args(op);
    let expected_url_pattern = build_ts_expected_url_pattern(op);
    let mock_type = if str_eq(return_type, "void") {
        IrType::Void
    } else {
        guess_mock_type(return_type)
    };
    let mock_response = mock_value_ts(&mock_type);
    TestContext {
        kind,
        method_name: owned(method_name),
        http_method: op.method,
        return_type: owned(return_type),
        has_body,
        test_call_args,
        expected_url_pattern,
        mock_response,
    }
}

/// The method name of the `j`-th test of an operation.
pub open spec fn test_method_name_at(op: IrOperation, j: int) -> Seq<char> {
    match op.return_type {
        IrReturnType::Sse(_) => if j == 0 { sse_method_name(op) } else { op.name.camel_case@ },
        _ => op.name.camel_case@,
    }
}

/// `c` is the `j`-th test of `op`: one test per client method, named as the
/// method, with the method's return type (`void` for operations without one).
pub open spec fn test_context_is(c: TestContext, op: IrOperation, j: int, tm: TypeMapConfig) -> bool {
    match op.return_type {
        IrReturnType::Standard(resp) => test_context_fields(
            c,
            op,
            ContextKind::Standard,
            op.name.camel_case@,
            type_text(resp.response_type, tm),
        ),
        IrReturnType::Void => test_context_fields(c, op, ContextKind::Void, op.name.camel_case@, "void"@),
        IrReturnType::Sse(sse) => if j == 0 {
            test_context_fields(c, op, ContextKind::Sse, sse_method_name(op), sse_event_text(op, tm))
        } else {
            test_context_fields(
                c,
                op,
                ContextKind::Standard,
                op.name.camel_case@,
                type_text(sse.json_response.unwrap().response_type, tm),
            )
        },
    }
}

/// Builds the tests of one operation: one per client method.
pub fn build_single_test_contexts(op: &IrOperation, tm: &TypeMapConfig) -> (r: Vec<TestContext>)
    ensures
        r@.len() == op_context_count(*op),
        forall|j: int| 0 <= j < r@.len() ==> test_context_is(#[trigger] r@[j], *op, j, *tm),
        forall|j: int| 0 <= j < r@.len() ==> (#[trigger] r@[j]).method_name@ == test_method_name_at(*op, j),
{
    let mut results: Vec<TestContext> = Vec::new();
    match &op.return_type {
        IrReturnType::Standard(resp) => {
            let return_type = map_type(&resp.response_type, tm);
            results.push(build_ts_test_context(op, ContextKind::Standard, op.name.camel_case.as_str(), return_type.as_str()));
        },
        IrReturnType::Void => {
            results.push(build_ts_test_context(op, ContextKind::Void, op.name.camel_case.as_str(), "void"));
        },
        IrReturnType::Sse(sse) => {
            let sse_name = if sse.also_has_json {
                op.name.camel_case.clone().concat("Stream")
            } else {
                op.name.camel_case.clone()
            };
            let return_type = match &sse.event_type_name {
                Some(name) => name.clone(),
                None => map_type(&sse.event_type, tm),
            };
            results.push(build_ts_test_context(op, ContextKind::Sse, sse_name.as_str(), return_type.as_str()));
            match &sse.json_response {
                Some(json_resp) => {
                    let rt = map_type(&json_resp.response_type, tm);
                    results.push(build_ts_test_context(op, ContextKind::Standard, op.name.camel_case.as_str(), rt.as_str()));
                },
                None => {},
            }
        },
    }
    results
}

/// How many tests each operation yields.
pub open spec fn test_count_fn() -> spec_fn(IrOperation) -> nat {
    |op: IrOperation| op_context_count(op)
}

/// The test name at a position (operation index, test index).
pub open spec fn test_key_fn(ops: Seq<IrOperation>) -> spec_fn((int, int)) -> Seq<char> {
    |p: (int, int)| test_method_name_at(ops[p.0], p.1)
}

/// The context at a position is the test there.
pub open spec fn test_ok_fn(ops: Seq<IrOperation>, tm: TypeMapConfig) -> spec_fn(TestContext, (int, int)) -> bool {
    |c: TestContext, p: (int, int)| test_context_is(c, ops[p.0], p.1, tm)
}

/// The positions (operation index, test index) of the tests that survive
/// deduplication by method name: the first test of each name, in operation order.
pub open spec fn kept_test_positions(ops: Seq<IrOperation>) -> Seq<(int, int)> {
    kept_first(flat_positions(ops, test_count_fn()), test_key_fn(ops))
}

/// Builds the tests of every operation, keeping only the first test of each
/// method name; also tells for each operation whether it kept a test.
pub fn build_test_operation_contexts(
    ir: &IrSpec,
    tm: &TypeMapConfig,
    _operation_casing: &str,
) -> (r: (Vec<TestContext>, Vec<bool>))
    ensures
        ({
            let ops = ir.operations@;
            let kept = kept_test_positions(ops);
            &&& r.0@.len() == kept.len()
            &&& forall|k: int| 0 <= k < kept.len() ==> test_context_is(#[trigger] r.0@[k], ops[kept[k].0], kept[k].1, *tm)
            &&& flags_match(r.1@, kept, ops.len() as int)
        }),
{
    let ghost ops = ir.operations@;
    let ghost count = test_count_fn();
    let ghost key = test_key_fn(ops);
    let ghost ok = test_ok_fn(ops, *tm);
    let mut tests: Vec<TestContext> = Vec::new();
    let mut seen: Vec<String> = Vec::new();
    let mut used: Vec<bool> = Vec::new();
    let mut i: usize = 0;
    assert(ops.take(0) =~= Seq::<IrOperation>::empty());
    assert(views(seen@) =~= kept_first(flat_positions(ops.take(0), count), key).map_values(key));
    while i < ir.operations.len()
        invariant
            ops == ir.operations@,
            count == test_count_fn(),
            key == test_key_fn(ops),
            ok == test_ok_fn(ops, *tm),
            i <= ops.len(),
            dedup_state(tests@, seen@, flat_positions(ops.take(i as int), count), key, ok),
            forall|k: int| 0 <= k < kept_first(flat_positions(ops.take(i as int), count), key).len()
                ==> (#[trigger] kept_first(flat_positions(ops.take(i as int), count), key)[k]).0 < i,
            flags_match(used@, kept_first(flat_positions(ops.take(i as int), count), key), i as int),
        decreases ops.len() - i,
    {
        let ghost prefix = flat_positions(ops.take(i as int), count);
        let ghost before = kept_first(prefix, key);
        let ctxs = build_single_test_contexts(&ir.operations[i], tm);
        let ghost n = ctxs@.len();
        let any = absorb_group(&mut tests, &mut seen, ctxs, Ghost(prefix), Ghost(i as int), Ghost(key), Ghost(ok));
        used.push(any);
        proof {
            lemma_flat_prefix_next(ops, count, i as int);
            assert(prefix + group_positions(i as int, n) == flat_prefix(ops, count, i as int, n as int));
            lemma_group_flags(used@, before, kept_first(flat_positions(ops.take(i + 1), count), key), i as int, any);
        }
        i = i + 1;
    }
    proof {
        lemma_take_all(ops);
        let kept = kept_first(flat_positions(ops, count), key);
        assert forall|k: int| 0 <= k < kept.len() implies test_context_is(#[trigger] tests@[k], ops[kept[k].0],
            kept[k].1, *tm) by {
            assert(ok(tests@[k], kept[k]));
        }
    }
    (tests, used)
}

/// The schema names that a type refers to as test code sees them: through
/// arrays, unions and intersections, not through maps or inline objects.
pub open spec fn test_refs_of(t: IrType) -> Set<Seq<char>>
    decreases t,
{
    match t {
        IrType::Ref(name) => set![name@],
        IrType::Array(inner) => test_refs_of(*inner),
        IrType::Union(vs) => test_refs_of_seq(vs@),
        IrType::Intersection(vs) => test_refs_of_seq(vs@),
        _ => Set::empty(),
    }
}

/// The schema names that a sequence of types refers to, as test code sees them.
pub open spec fn test_refs_of_seq(vs: Seq<IrType>) -> Set<Seq<char>>
    decreases vs,
{
    if vs.len() == 0 {
        Set::empty()
    } else {
        test_refs_of_seq(vs.drop_last()).union(test_refs_of(vs.last()))
    }
}

/// Adds the schema names that `ir_type` refers to as test code sees them.
pub fn collect_test_ref_names(ir_type: &IrType, names: &mut Vec<String>)
    requires
        sorted_strict(views(old(names)@)),
    ensures
        sorted_set_is(final(names)@, views(old(names)@).to_set().union(test_refs_of(*ir_type))),
    decreases ir_type, 1nat,
{
    let ghost start = views(names@).to_set();
    match ir_type {
        IrType::Ref(name) => {
            insert_sorted(names, name.clone());
            assert(start.insert(name@) =~= start.union(set![name@]));
        },
        IrType::Array(inner) => collect_test_ref_names(inner, names),
        IrType::Union(vs) | IrType::Intersection(vs) => collect_test_ref_names_of(vs, names),
        _ => {
            assert(start.union(Set::empty()) =~= start);
        },
    }
}

fn collect_test_ref_names_of(vs: &Vec<IrType>, names: &mut Vec<String>)
    requires
        sorted_strict(views(old(names)@)),
    ensures
        sorted_set_is(final(names)@, views(old(names)@).to_set().union(test_refs_of_seq(vs@))),
    decreases vs, 0nat,
{
    let ghost start = views(names@).to_set();
    let mut i: usize = 0;
    assert(vs@.take(0) =~= Seq::<IrType>::empty());
    assert(start.union(test_refs_of_seq(vs@.take(0))) =~= start);
    while i < vs.len()
        invariant
            i <= vs@.len(),
            sorted_set_is(names@, start.union(test_refs_of_seq(vs@.take(i as int)))),
        decreases vs@.len() - i,
    {
        proof {
            assert(decreases_to!(vs => vs@));
            assert(decreases_to!(vs@ => vs@[i as int]));
        }
        collect_test_ref_names(&vs[i], names);
        proof {
            assert(vs@.take(i + 1).drop_last() =~= vs@.take(i as int));
            assert(start.union(test_refs_of_seq(vs@.take(i as int))).union(test_refs_of(vs@[i as int]))
                =~= start.union(test_refs_of_seq(vs@.take(i + 1))));
        }
        i = i + 1;
    }
    assert(vs@.take(vs@.len() as int) =~= vs@);
}

/// The schema names that the tests of an operation mention: those of its body
/// and of its JSON response (never the events of a stream).
pub open spec fn op_test_refs(op: IrOperation) -> Set<Seq<char>> {
    let body = match op.request_body {
        Some(b) => test_refs_of(b.body_type),
        None => Set::empty(),
    };
    let ret = match op.return_type {
        IrReturnType::Standard(resp) => test_refs_of(resp.response_type),
        IrReturnType::Sse(sse) => match sse.json_response {
            Some(j) => test_refs_of(j.response_type),
            None => Set::empty(),
        },
        IrReturnType::Void => Set::empty(),
    };
    body.union(ret)
}

/// The sorted schema names that the tests of the selected operations mention.
pub fn collect_test_type_imports(ops: &Vec<IrOperation>, selected: &Vec<bool>) -> (r: Vec<String>)
    requires
        selected@.len() == ops@.len(),
    ensures
        sorted_set_is(r@, selected_refs(ops@, selected@, |op: IrOperation| op_test_refs(op))),
{
    let mut names: Vec<String> = Vec::new();
    let mut i: usize = 0;
    assert(views(names@).to_set() =~= Set::<Seq<char>>::empty());
    assert(ops@.take(0) =~= Seq::<IrOperation>::empty());
    while i < ops.len()
        invariant
            selected@.len() == ops@.len(),
            i <= ops@.len(),
            sorted_set_is(names@, selected_refs(ops@.take(i as int), selected@, |op: IrOperation| op_test_refs(op))),
        decreases ops@.len() - i,
    {
        let ghost before = views(names@).to_set();
        if selected[i] {
            let op = &ops[i];
            match &op.request_body {
                Some(body) => collect_test_ref_names(&body.body_type, &mut names),
                None => {},
            }
            match &op.return_type {
                IrReturnType::Standard(resp) => collect_test_ref_names(&resp.response_type, &mut names),
                IrReturnType::Sse(sse) => match &sse.json_response {
                    Some(json_resp) => collect_test_ref_names(&json_resp.response_type, &mut names),
                    None => {},
                },
                IrReturnType::Void => {},
            }
            assert(views(names@).to_set() =~= before.union(op_test_refs(*op)));
        }
        proof {
            assert(ops@.take(i + 1).drop_last() =~= ops@.take(i as int));
            assert(views(names@).to_set() =~= selected_refs(ops@.take(i + 1), selected@, |op: IrOperation| op_test_refs(op)));
        }
        i = i + 1;
    }
    assert(ops@.take(ops@.len() as int) =~= ops@);
    names
}

/// The HTTP method as the Python test client calls it; methods it lacks fall back to `get`.
pub open spec fn py_method_text(m: HttpMethod) -> Seq<char> {
    match m {
        HttpMethod::Get => "get"@,
        HttpMethod::Post => "post"@,
        HttpMethod::Put => "put"@,
        HttpMethod::Delete => "delete"@,
        HttpMethod::Patch => "patch"@,
        _ => "get"@,
    }
}

/// The HTTP method as the Python test client calls it.
pub fn py_method_str(m: HttpMethod) -> (r: &'static str)
    ensures
        r@ == py_method_text(m),
{
    match m {
        HttpMethod::Get => "get",
        HttpMethod::Post => "post",
        HttpMethod::Put => "put",
        HttpMethod::Delete => "delete",
        HttpMethod::Patch => "patch",
        _ => "get",
    }
}

/// One Python test as templates see it.
#[derive(Debug)]
pub struct PyTestContext {
    pub kind: ContextKind,
    pub name: String,
    pub http_method: String,
    pub path: String,
    pub test_path: String,
    pub has_body: bool,
    pub mock_body: String,
}

/// The mock request body of a Python test: `{}` without a body.
pub open spec fn py_mock_body(op: IrOperation) -> Seq<char> {
    match op.request_body {
        Some(b) => mock_py(b.body_type),
        None => "{}"@,
    }
}

/// `c` is the `j`-th Python test of `op`: the test of the operation's own kind,
/// then, for a stream that also answers with JSON, a standard test.
pub open spec fn py_test_is(c: PyTestContext, op: IrOperation, j: int) -> bool {
    &&& c.kind == match op.return_type {
        IrReturnType::Standard(_) => ContextKind::Standard,
        IrReturnType::Void => ContextKind::Void,
        IrReturnType::Sse(_) => if j == 0 { ContextKind::Sse } else { ContextKind::Standard },
    }
    &&& c.name@ == op.name.snake_case@
    &&& c.http_method@ == py_method_text(op.method)
    &&& c.path@ == op.path@
    &&& c.test_path@ == test_path_text(op.path@, op.parameters@)
    &&& c.has_body == (op.request_body is Some)
    &&& c.mock_body@ == py_mock_body(op)
}

fn make_py_test(op: &IrOperation, kind: ContextKind, test_path: &String, mock_body: &String) -> (r: PyTestContext)
    ensures
        r.kind == kind,
        r.name@ == op.name.snake_case@,
        r.http_method@ == py_method_text(op.method),
        r.path@ == op.path@,
        r.test_path@ == test_path@,
        r.has_body == (op.request_body is Some),
        r.mock_body@ == mock_body@,
{
    PyTestContext {
        kind,
        name: op.name.snake_case.clone(),
        http_method: owned(py_method_str(op.method)),
        path: op.path.clone(),
        test_path: test_path.clone(),
        has_body: op.request_body.is_some(),
        mock_body: mock_body.clone(),
    }
}

/// Builds the Python tests of one operation.
pub fn build_single_python_test_context(op: &IrOperation) -> (r: Vec<PyTestContext>)
    ensures
        r@.len() == op_context_count(*op),
        forall|j: int| 0 <= j < r@.len() ==> py_test_is(#[trigger] r@[j], *op, j),
{
    let mut results: Vec<PyTestContext> = Vec::new();
    let test_path = build_python_test_path(op.path.as_str(), op);
    let mock_body = match &op.request_body {
        Some(b) => mock_value_python(&b.body_type),
        None => owned("{}"),
    };
    match &op.return_type {
        IrReturnType::Standard(_) => {
            results.push(make_py_test(op, ContextKind::Standard, &test_path, &mock_body));
        },
        IrReturnType::Void => {
            results.push(make_py_test(op, ContextKind::Void, &test_path, &mock_body));
        },
        IrReturnType::Sse(sse) => {
            results.push(make_py_test(op, ContextKind::Sse, &test_path, &mock_body));
            if sse.json_response.is_some() {
                results.push(make_py_test(op, ContextKind::Standard, &test_path, &mock_body));
            }
        },
    }
    results
}

/// The name of the schema that an operation's body refers to directly, if any.
pub open spec fn body_ref(op: IrOperation) -> Set<Seq<char>> {
    match op.request_body {
        Some(b) => match b.body_type {
            IrType::Ref(name) => set![name@],
            _ => Set::empty(),
        },
        None => Set::empty(),
    }
}

/// The Python tests of every operation in order (no deduplication), and the
/// sorted names of the schemas that request bodies refer to directly.
pub fn build_python_test_contexts(ir: &IrSpec) -> (r: (Vec<PyTestContext>, Vec<String>))
    ensures
        ({
            let ops = ir.operations@;
            let pos = flat_positions(ops, test_count_fn());
            &&& r.0@.len() == pos.len()
            &&& forall|k: int| 0 <= k < pos.len() ==> py_test_is(#[trigger] r.0@[k], ops[pos[k].0], pos[k].1)
            &&& sorted_set_is(r.1@, selected_refs(ops, all_selected(ops.len()), |op: IrOperation| body_ref(op)))
        }),
{
    let ghost ops = ir.operations@;
    let ghost count = test_count_fn();
    let mut model_imports: Vec<String> = Vec::new();
    let mut operations: Vec<PyTestContext> = Vec::new();
    let mut i: usize = 0;
    assert(ops.take(0) =~= Seq::<IrOperation>::empty());
    assert(views(model_imports@).to_set() =~= Set::<Seq<char>>::empty());
    while i < ir.operations.len()
        invariant
            ops == ir.operations@,
            count == test_count_fn(),
            i <= ops.len(),
            operations@.len() == flat_positions(ops.take(i as int), count).len(),
            forall|k: int| 0 <= k < operations@.len() ==> py_test_is(#[trigger] operations@[k],
                ops[flat_positions(ops.take(i as int), count)[k].0], flat_positions(ops.take(i as int), count)[k].1),
            sorted_set_is(model_imports@, selected_refs(ops.take(i as int), all_selected(ops.len()), |op: IrOperation| body_ref(op))),
        decreases ops.len() - i,
    {
        let op = &ir.operations[i];
        let ghost before = views(model_imports@).to_set();
        let ghost old_ops = operations@;
        let ghost prefix = flat_positions(ops.take(i as int), count);
        match &op.request_body {
            Some(b) => match &b.body_type {
                IrType::Ref(name) => {
                    insert_sorted(&mut model_imports, name.clone());
                    assert(before.insert(name@) =~= before.union(body_ref(*op)));
                },
                _ => {
                    assert(before =~= before.union(body_ref(*op)));
                },
            },
            None => {
                assert(before =~= before.union(body_ref(*op)));
            },
        }
        let mut ctxs = build_single_python_test_context(op);
        let ghost group = ctxs@;
        operations.append(&mut ctxs);
        proof {
            assert(ops.take(i + 1).drop_last() =~= ops.take(i as int));
            assert(views(model_imports@).to_set() =~= selected_refs(ops.take(i + 1), all_selected(ops.len()), |op: IrOperation| body_ref(op)));
            lemma_flat_prefix_next(ops, count, i as int);
            let next = flat_positions(ops.take(i + 1), count);
            assert(next == prefix + Seq::new(count(ops[i as int]), |jj: int| (i as int, jj)));
            assert forall|k: int| 0 <= k < operations@.len() implies py_test_is(#[trigger] operations@[k], ops[next[k].0], next[k].1) by {
                if k < old_ops.len() {
                    assert(operations@[k] == old_ops[k]);
                    assert(next[k] == prefix[k]);
                } else {
                    assert(operations@[k] == group[k - old_ops.len()]);
                    assert(next[k] == (i as int, k - old_ops.len()));
                }
            }
        }
        i = i + 1;
    }
    proof {
        lemma_take_all(ops);
    }
    (operations, model_imports)
}

} // verus!
