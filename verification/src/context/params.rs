//! Parameters of an operation: names, signatures and per-location details.
use vstd::prelude::*;

use crate::ir::{IrOperation, IrParameter, IrParameterLocation, IrType, NormalizedName};
use crate::named_map::Duplicate;
use crate::pack::TypeMapConfig;
use crate::seqs::{collect, lemma_collect_step, lemma_take_all};
use crate::text::{join_strings, owned, seq_join, str_eq, views};
use crate::type_map::{map_type, type_text};

verus! {

/// The name in the requested casing: `"snake"`, `"pascal"`, anything else camel case.
pub open spec fn cased(n: NormalizedName, casing: Seq<char>) -> Seq<char> {
    if casing == "snake"@ {
        n.snake_case@
    } else if casing == "pascal"@ {
        n.pascal_case@
    } else {
        n.camel_case@
    }
}

/// The name in the requested casing.
pub fn cased_name(n: &NormalizedName, casing: &str) -> (r: String)
    ensures
        r@ == cased(*n, casing@),
{
    if str_eq(casing, "snake") {
        n.snake_case.clone()
    } else if str_eq(casing, "pascal") {
        n.pascal_case.clone()
    } else {
        n.camel_case.clone()
    }
}

/// The method name of an operation in the requested casing.
pub fn op_name(op: &IrOperation, casing: &str) -> (r: String)
    ensures
        r@ == cased(op.name, casing@),
{
    cased_name(&op.name, casing)
}

/// How a query parameter's value is shaped.
pub open spec fn param_kind_text(t: IrType) -> Seq<char> {
    match t {
        IrType::Array(_) => "array"@,
        IrType::MapOf(_) => "map"@,
        IrType::Object(_) => "object"@,
        IrType::Ref(_) => "object"@,
        _ => "primitive"@,
    }
}

/// Classifies a parameter type as `array`, `map`, `object` or `primitive`.
pub fn classify_param_type(ir_type: &IrType) -> (r: &'static str)
    ensures
        r@ == param_kind_text(*ir_type),
{
    match ir_type {
        IrType::Array(_) => "array",
        IrType::MapOf(_) => "map",
        IrType::Object(_) | IrType::Ref(_) => "object",
        _ => "primitive",
    }
}

/// `name: type`.
pub open spec fn required_entry(name: Seq<char>, ty: Seq<char>) -> Seq<char> {
    name + ": "@ + ty
}

/// `name?: type`.
pub open spec fn optional_entry(name: Seq<char>, ty: Seq<char>) -> Seq<char> {
    name + "?: "@ + ty
}

/// Query and header parameters.
pub open spec fn is_query_or_header(l: IrParameterLocation) -> bool {
    l == IrParameterLocation::Query || l == IrParameterLocation::Header
}

/// Signature entries of parameters that must be passed: path parameters and
/// required query and header parameters.
pub open spec fn sig_required_of(tm: TypeMapConfig, casing: Seq<char>) -> spec_fn(IrParameter) -> Option<Seq<char>> {
    |p: IrParameter|
        if p.location == IrParameterLocation::Path || (is_query_or_header(p.location) && p.required) {
            Some(required_entry(cased(p.name, casing), type_text(p.param_type, tm)))
        } else {
            None
        }
}

/// Signature entries of optional query and header parameters.
pub open spec fn sig_optional_of(tm: TypeMapConfig, casing: Seq<char>) -> spec_fn(IrParameter) -> Option<Seq<char>> {
    |p: IrParameter|
        if is_query_or_header(p.location) && !p.required {
            Some(optional_entry(cased(p.name, casing), type_text(p.param_type, tm)))
        } else {
            None
        }
}

/// The body entry of a signature, in the required or the optional group.
pub open spec fn body_entries(op: IrOperation, tm: TypeMapConfig, required: bool) -> Seq<Seq<char>> {
    match op.request_body {
        Some(b) => if b.required == required {
            if required {
                seq![required_entry("body"@, type_text(b.body_type, tm))]
            } else {
                seq![optional_entry("body"@, type_text(b.body_type, tm))]
            }
        } else {
            Seq::empty()
        },
        None => Seq::empty(),
    }
}

/// The trailing options entry of a signature.
pub open spec fn options_entry(is_sse: bool) -> Seq<char> {
    if is_sse {
        "options?: SSEOptions"@
    } else {
        "options?: RequestOptions"@
    }
}

/// The TypeScript parameter list of a client method: required entries (path,
/// required query/header parameters, a required body), then optional ones,
/// then the options entry, separated by `", "`.
pub open spec fn ts_params_signature(op: IrOperation, tm: TypeMapConfig, casing: Seq<char>, is_sse: bool) -> Seq<char> {
    seq_join(
        collect(op.parameters@, sig_required_of(tm, casing)) + body_entries(op, tm, true) + collect(
            op.parameters@,
            sig_optional_of(tm, casing),
        ) + body_entries(op, tm, false) + seq![options_entry(is_sse)],
        ", "@,
    )
}

/// `a + b + c` as a new string.
pub fn cat3(a: &str, b: &str, c: &str) -> (r: String)
    ensures
        r@ == a@ + b@ + c@,
{
    let mut s = owned(a);
    s.append(b);
    s.append(c);
    s
}

/// Builds the TypeScript parameter list of a client method.
pub fn build_ts_params_signature(op: &IrOperation, tm: &TypeMapConfig, field_casing: &str, is_sse: bool) -> (r: String)
    ensures
        r@ == ts_params_signature(*op, *tm, field_casing@, is_sse),
{
    let ghost ps = op.parameters@;
    let ghost freq = sig_required_of(*tm, field_casing@);
    let ghost fopt = sig_optional_of(*tm, field_casing@);
    let mut required_parts: Vec<String> = Vec::new();
    let mut optional_parts: Vec<String> = Vec::new();
    let mut i: usize = 0;
    while i < op.parameters.len()
        invariant
            ps == op.parameters@,
            freq == sig_required_of(*tm, field_casing@),
            fopt == sig_optional_of(*tm, field_casing@),
            i <= ps.len(),
            views(required_parts@) == collect(ps.take(i as int), freq),
            views(optional_parts@) == collect(ps.take(i as int), fopt),
        decreases ps.len() - i,
    {
        let param = &op.parameters[i];
        proof {
            lemma_collect_step(ps, freq, i as int);
            lemma_collect_step(ps, fopt, i as int);
        }
        let type_str = map_type(&param.param_type, tm);
        let name = cased_name(&param.name, field_casing);
        let is_path = param.location == IrParameterLocation::Path;
        let is_qh = param.location == IrParameterLocation::Query || param.location == IrParameterLocation::Header;
        if is_path || (is_qh && param.required) {
            required_parts.push(cat3(name.as_str(), ": ", type_str.as_str()));
        } else if is_qh {
            optional_parts.push(cat3(name.as_str(), "?: ", type_str.as_str()));
        }
        proof {
            assert(views(required_parts@) =~= collect(ps.take(i + 1), freq));
            assert(views(optional_parts@) =~= collect(ps.take(i + 1), fopt));
        }
        i = i + 1;
    }
    proof {
        lemma_take_all(ps);
    }
    match &op.request_body {
        Some(body) => {
            let type_str = map_type(&body.body_type, tm);
            if body.required {
                required_parts.push(cat3("body", ": ", type_str.as_str()));
            } else {
                optional_parts.push(cat3("body", "?: ", type_str.as_str()));
            }
        },
        None => {},
    }
    let options_type = if is_sse {
        owned("options?: SSEOptions")
    } else {
        owned("options?: RequestOptions")
    };
    optional_parts.push(options_type);
    let ghost req_v = views(required_parts@);
    let ghost opt_v = views(optional_parts@);
    let mut parts = required_parts;
    parts.append(&mut optional_parts);
    assert(views(parts@) =~= req_v + opt_v);
    assert(views(parts@) =~= collect(ps, freq) + body_entries(*op, *tm, true) + collect(ps, fopt)
        + body_entries(*op, *tm, false) + seq![options_entry(is_sse)]);
    join_strings(&parts, ", ")
}


/// A path parameter as templates see it.
#[derive(Debug)]
pub struct PathParamContext {
    pub name: String,
    pub original_name: String,
}

impl Duplicate for PathParamContext {
    fn duplicate(&self) -> (r: PathParamContext) {
        PathParamContext { name: self.name.clone(), original_name: self.original_name.clone() }
    }
}

/// A query parameter as templates see it.
#[derive(Debug)]
pub struct QueryParamContext {
    pub name: String,
    pub original_name: String,
    pub style: String,
    pub explode: bool,
    pub type_kind: &'static str,
}

impl Duplicate for QueryParamContext {
    fn duplicate(&self) -> (r: QueryParamContext) {
        QueryParamContext {
            name: self.name.clone(),
            original_name: self.original_name.clone(),
            style: self.style.clone(),
            explode: self.explode,
            type_kind: self.type_kind,
        }
    }
}

/// A parameter as Python-style templates see it.
#[derive(Debug)]
pub struct PyParamContext {
    pub name: String,
    pub original_name: String,
    pub type_str: String,
    pub location: IrParameterLocation,
    pub required: bool,
    pub needs_alias: bool,
}

impl Duplicate for PyParamContext {
    fn duplicate(&self) -> (r: PyParamContext) {
        PyParamContext {
            name: self.name.clone(),
            original_name: self.original_name.clone(),
            type_str: self.type_str.clone(),
            location: self.location,
            required: self.required,
            needs_alias: self.needs_alias,
        }
    }
}

/// Structured parameter data of an operation.
#[derive(Debug)]
pub struct ParamsResult {
    pub path_params: Vec<PathParamContext>,
    pub query_params: Vec<QueryParamContext>,
    pub py_params: Vec<PyParamContext>,
    pub header_params_obj: String,
    pub has_body: bool,
    pub body_content_type: String,
    pub has_path_params: bool,
    pub has_query_params: bool,
    pub has_header_params: bool,
}

/// Path parameters: (name, original name).
pub open spec fn path_param_of(casing: Seq<char>) -> spec_fn(IrParameter) -> Option<(Seq<char>, Seq<char>)> {
    |p: IrParameter|
        if p.location == IrParameterLocation::Path {
            Some((cased(p.name, casing), p.original_name@))
        } else {
            None
        }
}

/// The serialization style of a query parameter (`form` by default).
pub open spec fn style_text(p: IrParameter) -> Seq<char> {
    match p.style {
        Some(s) => s@,
        None => "form"@,
    }
}

/// Whether a query parameter is exploded (by default exactly when its style is `form`).
pub open spec fn explode_of(p: IrParameter) -> bool {
    match p.explode {
        Some(e) => e,
        None => style_text(p) == "form"@,
    }
}

/// Query parameters: (name, original name, style, explode, kind).
pub open spec fn query_param_of(casing: Seq<char>) -> spec_fn(IrParameter) -> Option<(Seq<char>, Seq<char>, Seq<char>, bool, Seq<char>)> {
    |p: IrParameter|
        if p.location == IrParameterLocation::Query {
            Some((cased(p.name, casing), p.original_name@, style_text(p), explode_of(p), param_kind_text(p.param_type)))
        } else {
            None
        }
}

/// Header parameters as `"original": name` object entries.
pub open spec fn header_entry_of(casing: Seq<char>) -> spec_fn(IrParameter) -> Option<Seq<char>> {
    |p: IrParameter|
        if p.location == IrParameterLocation::Header {
            Some("\""@ + p.original_name@ + "\": "@ + cased(p.name, casing))
        } else {
            None
        }
}

/// Every parameter in Python form: (name, original name, type, location, required, needs alias).
pub open spec fn py_param_of(tm: TypeMapConfig, casing: Seq<char>) -> spec_fn(IrParameter) -> Option<(Seq<char>, Seq<char>, Seq<char>, IrParameterLocation, bool, bool)> {
    |p: IrParameter|
        Some((
            cased(p.name, casing),
            p.original_name@,
            type_text(p.param_type, tm),
            p.location,
            p.required,
            p.name.snake_case@ != p.original_name@,
        ))
}

/// Views of path parameter contexts.
pub open spec fn path_param_views(v: Seq<PathParamContext>) -> Seq<(Seq<char>, Seq<char>)> {
    v.map_values(|c: PathParamContext| (c.name@, c.original_name@))
}

/// Views of query parameter contexts.
pub open spec fn query_param_views(v: Seq<QueryParamContext>) -> Seq<(Seq<char>, Seq<char>, Seq<char>, bool, Seq<char>)> {
    v.map_values(|c: QueryParamContext| (c.name@, c.original_name@, c.style@, c.explode, c.type_kind@))
}

/// Views of Python parameter contexts.
pub open spec fn py_param_views(v: Seq<PyParamContext>) -> Seq<(Seq<char>, Seq<char>, Seq<char>, IrParameterLocation, bool, bool)> {
    v.map_values(|c: PyParamContext| (c.name@, c.original_name@, c.type_str@, c.location, c.required, c.needs_alias))
}

/// The content type of the request body (`application/json` without a body).
pub open spec fn body_content_type_text(op: IrOperation) -> Seq<char> {
    match op.request_body {
        Some(b) => b.content_type@,
        None => "application/json"@,
    }
}

/// `r` is the structured parameter data of `op`.
pub open spec fn params_result_is(r: ParamsResult, op: IrOperation, tm: TypeMapConfig, casing: Seq<char>) -> bool {
    let ps = op.parameters@;
    &&& path_param_views(r.path_params@) == collect(ps, path_param_of(casing))
    &&& query_param_views(r.query_params@) == collect(ps, query_param_of(casing))
    &&& py_param_views(r.py_params@) == collect(ps, py_param_of(tm, casing))
    &&& r.header_params_obj@ == seq_join(collect(ps, header_entry_of(casing)), ", "@)
    &&& r.has_body == (op.request_body is Some)
    &&& r.body_content_type@ == body_content_type_text(op)
    &&& r.has_path_params == (collect(ps, path_param_of(casing)).len() > 0)
    &&& r.has_query_params == (collect(ps, query_param_of(casing)).len() > 0)
    &&& r.has_header_params == (collect(ps, header_entry_of(casing)).len() > 0)
}

/// Builds structured parameter data for an operation.
pub fn build_params(op: &IrOperation, tm: &TypeMapConfig, field_casing: &str) -> (r: ParamsResult)
    ensures
        params_result_is(r, *op, *tm, field_casing@),
{
    let ghost ps = op.parameters@;
    let ghost casing = field_casing@;
    let mut path_params: Vec<PathParamContext> = Vec::new();
    let mut query_params: Vec<QueryParamContext> = Vec::new();
    let mut header_parts: Vec<String> = Vec::new();
    let mut py_params: Vec<PyParamContext> = Vec::new();
    let mut i: usize = 0;
    while i < op.parameters.len()
        invariant
            ps == op.parameters@,
            casing == field_casing@,
            i <= ps.len(),
            path_param_views(path_params@) == collect(ps.take(i as int), path_param_of(casing)),
            query_param_views(query_params@) == collect(ps.take(i as int), query_param_of(casing)),
            views(header_parts@) == collect(ps.take(i as int), header_entry_of(casing)),
            py_param_views(py_params@) == collect(ps.take(i as int), py_param_of(*tm, casing)),
        decreases ps.len() - i,
    {
        let param = &op.parameters[i];
        proof {
            lemma_collect_step(ps, path_param_of(casing), i as int);
            lemma_collect_step(ps, query_param_of(casing), i as int);
            lemma_collect_step(ps, header_entry_of(casing), i as int);
            lemma_collect_step(ps, py_param_of(*tm, casing), i as int);
        }
        let name = cased_name(&param.name, field_casing);
        let type_str = map_type(&param.param_type, tm);
        match param.location {
            IrParameterLocation::Path => {
                path_params.push(PathParamContext { name: name.clone(), original_name: param.original_name.clone() });
            },
            IrParameterLocation::Query => {
                let style = match &param.style {
                    Some(s) => s.clone(),
                    None => owned("form"),
                };
                let explode = match param.explode {
                    Some(e) => e,
                    None => str_eq(style.as_str(), "form"),
                };
                query_params.push(QueryParamContext {
                    name: name.clone(),
                    original_name: param.original_name.clone(),
                    style,
                    explode,
                    type_kind: classify_param_type(&param.param_type),
                });
            },
            IrParameterLocation::Header => {
                let quoted = cat3("\"", param.original_name.as_str(), "\": ");
                header_parts.push(quoted.concat(name.as_str()));
            },
            IrParameterLocation::Cookie => {},
        }
        let needs_alias = !str_eq(param.name.snake_case.as_str(), param.original_name.as_str());
        py_params.push(PyParamContext {
            name,
            original_name: param.original_name.clone(),
            type_str,
            location: param.location,
            required: param.required,
            needs_alias,
        });
        proof {
            assert(path_param_views(path_params@) =~= collect(ps.take(i + 1), path_param_of(casing)));
            assert(query_param_views(query_params@) =~= collect(ps.take(i + 1), query_param_of(casing)));
            assert(views(header_parts@) =~= collect(ps.take(i + 1), header_entry_of(casing)));
            assert(py_param_views(py_params@) =~= collect(ps.take(i + 1), py_param_of(*tm, casing)));
        }
        i = i + 1;
    }
    proof {
        lemma_take_all(ps);
    }
    let has_body = op.request_body.is_some();
    let body_content_type = match &op.request_body {
        Some(b) => b.content_type.clone(),
        None => owned("application/json"),
    };
    let has_path_params = path_params.len() > 0;
    let has_query_params = query_params.len() > 0;
    let has_header_params = header_parts.len() > 0;
    let header_params_obj = join_strings(&header_parts, ", ");
    ParamsResult {
        path_params,
        query_params,
        py_params,
        header_params_obj,
        has_body,
        body_content_type,
        has_path_params,
        has_query_params,
        has_header_params,
    }
}

/// Whether the operation sends a `multipart/form-data` body.
pub open spec fn multipart_op(op: IrOperation) -> bool {
    match op.request_body {
        Some(b) => b.content_type@ == "multipart/form-data"@,
        None => false,
    }
}

/// Whether the operation sends a `multipart/form-data` body.
pub fn is_multipart_op(op: &IrOperation) -> (r: bool)
    ensures
        r == multipart_op(*op),
{
    match &op.request_body {
        Some(b) => str_eq(b.content_type.as_str(), "multipart/form-data"),
        None => false,
    }
}

} // verus!
