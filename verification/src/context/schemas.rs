//! Schema contexts: objects with their fields, enums, aliases and unions.
use vstd::prelude::*;

use crate::context::params::{cased, cased_name, cat3};
use crate::ir::{schema_name, IrEnumSchema, IrEnumVariant, IrField, IrObjectSchema, IrOperation, IrReturnType, IrSchema, IrSpec};
use crate::pack::TypeMapConfig;
use crate::text::{contains_str, i64_text, int_text, nat_text, owned, str_eq, u64_text, views};
use crate::type_map::{field_type_text, map_field_type, map_type, map_types, type_text, type_texts};

verus! {

/// What `heck::AsUpperCamelCase` writes for a string: the words of the string,
/// each capitalised, joined without separators.
pub uninterp spec fn upper_camel(s: Seq<char>) -> Seq<char>;

/// `heck::AsUpperCamelCase(s).to_string()`: its result is taken to be
/// `upper_camel` of the argument; how heck splits and capitalises words is not
/// restated here.
#[verifier::external_body]
fn upper_camel_case(s: &str) -> (r: String)
    ensures
        r@ == upper_camel(s@),
{
    heck::AsUpperCamelCase(s).to_string()
}

/// One field of an object schema as templates see it.
#[derive(Debug)]
pub struct FieldContext {
    pub name: String,
    pub original_name: String,
    pub type_str: String,
    pub field_type_str: String,
    pub required: bool,
    pub description: Option<String>,
    pub needs_alias: bool,
}

/// The name of a field in the requested casing: `"original"` keeps the name
/// as the spec writes it; otherwise as for other names (`"snake"`, `"pascal"`,
/// anything else camel case).
pub open spec fn field_name_text(f: IrField, casing: Seq<char>) -> Seq<char> {
    if casing == "original"@ {
        f.original_name@
    } else {
        cased(f.name, casing)
    }
}

/// `c` is the field `f` under the type map and field casing.
pub open spec fn field_ctx_is(c: FieldContext, f: IrField, tm: TypeMapConfig, casing: Seq<char>) -> bool {
    &&& c.name@ == field_name_text(f, casing)
    &&& c.original_name@ == f.original_name@
    &&& c.type_str@ == type_text(f.field_type, tm)
    &&& c.field_type_str@ == field_type_text(f.field_type, f.required, tm)
    &&& c.required == f.required
    &&& c.description == f.description
    &&& c.needs_alias == (f.name.snake_case@ != f.original_name@)
}

/// An object schema as templates see it.
#[derive(Debug)]
pub struct ObjectContext {
    pub name: String,
    pub description: Option<String>,
    pub fields: Vec<FieldContext>,
    pub additional_properties: Option<String>,
    pub has_additional_properties: bool,
}

/// A name/value pair of a Python enum.
#[derive(Debug)]
pub struct PyVariantContext {
    pub name: String,
    pub value: String,
}

/// An enum schema as templates see it.
#[derive(Debug)]
pub struct EnumContext {
    pub name: String,
    pub description: Option<String>,
    pub variants: Vec<String>,
    pub py_variants: Vec<PyVariantContext>,
    pub is_integer: bool,
}

/// An alias schema as templates see it.
#[derive(Debug)]
pub struct AliasContext {
    pub name: String,
    pub description: Option<String>,
    pub target: String,
}

/// A union schema as templates see it.
#[derive(Debug)]
pub struct UnionContext {
    pub name: String,
    pub description: Option<String>,
    pub variants: Vec<String>,
}

/// A schema as templates see it; the variant is its `kind`.
#[derive(Debug)]
pub enum SchemaContext {
    Object(ObjectContext),
    Enum(EnumContext),
    Alias(AliasContext),
    Union(UnionContext),
}

impl SchemaContext {
    /// The kind as templates spell it.
    pub fn kind(&self) -> (r: &'static str)
        ensures
            r@ == schema_kind_text(*self),
    {
        match self {
            SchemaContext::Object(_) => "object",
            SchemaContext::Enum(_) => "enum",
            SchemaContext::Alias(_) => "alias",
            SchemaContext::Union(_) => "union",
        }
    }
}

/// The kind as templates spell it.
pub open spec fn schema_kind_text(c: SchemaContext) -> Seq<char> {
    match c {
        SchemaContext::Object(_) => "object"@,
        SchemaContext::Enum(_) => "enum"@,
        SchemaContext::Alias(_) => "alias"@,
        SchemaContext::Union(_) => "union"@,
    }
}

/// A TypeScript enum value: a quoted string or the integer.
pub open spec fn ts_variant_text(v: IrEnumVariant) -> Seq<char> {
    match v {
        IrEnumVariant::String(s) => "\""@ + s@ + "\""@,
        IrEnumVariant::Integer(i) => int_text(i as int),
    }
}

/// The Python member name of an enum value: the upper camel case of a string,
/// `Neg<abs>` for a negative integer, `Value<i>` otherwise.
pub open spec fn py_variant_name(v: IrEnumVariant) -> Seq<char> {
    match v {
        IrEnumVariant::String(s) => upper_camel(s@),
        IrEnumVariant::Integer(i) => if i < 0 {
            "Neg"@ + nat_text((-i) as nat)
        } else {
            "Value"@ + nat_text(i as nat)
        },
    }
}

/// An enum is an integer enum when it has values and all of them are integers.
pub open spec fn integer_enum(e: IrEnumSchema) -> bool {
    e.variants@.len() > 0 && forall|k: int| 0 <= k < e.variants@.len() ==> #[trigger] e.variants@[k] is Integer
}

/// The pairs of a Python enum.
pub open spec fn py_variant_views(v: Seq<PyVariantContext>) -> Seq<(Seq<char>, Seq<char>)> {
    v.map_values(|p: PyVariantContext| (p.name@, p.value@))
}

/// The optional-string view.
pub open spec fn opt_text(o: Option<String>) -> Option<Seq<char>> {
    match o {
        Some(s) => Some(s@),
        None => None,
    }
}

/// `c` is the context of schema `s` under the type map and field casing.
pub open spec fn schema_ctx_is(c: SchemaContext, s: IrSchema, tm: TypeMapConfig, casing: Seq<char>) -> bool {
    match (c, s) {
        (SchemaContext::Object(o), IrSchema::Object(obj)) => {
            &&& o.name@ == obj.name.pascal_case@
            &&& o.description == obj.description
            &&& o.fields@.len() == obj.fields@.len()
            &&& forall|k: int| 0 <= k < o.fields@.len() ==> field_ctx_is(#[trigger] o.fields@[k], obj.fields@[k], tm, casing)
            &&& opt_text(o.additional_properties) == match obj.additional_properties {
                Some(t) => Some(type_text(t, tm)),
                None => None,
            }
            &&& o.has_additional_properties == (obj.additional_properties is Some)
        },
        (SchemaContext::Enum(c), IrSchema::Enum(e)) => {
            &&& c.name@ == e.name.pascal_case@
            &&& c.description == e.description
            &&& views(c.variants@) == e.variants@.map_values(|v: IrEnumVariant| ts_variant_text(v))
            &&& py_variant_views(c.py_variants@) == e.variants@.map_values(
                |v: IrEnumVariant| (py_variant_name(v), ts_variant_text(v)),
            )
            &&& c.is_integer == integer_enum(e)
        },
        (SchemaContext::Alias(c), IrSchema::Alias(a)) => {
            &&& c.name@ == a.name.pascal_case@
            &&& c.description == a.description
            &&& c.target@ == type_text(a.target, tm)
        },
        (SchemaContext::Union(c), IrSchema::Union(u)) => {
            &&& c.name@ == u.name.pascal_case@
            &&& c.description == u.description
            &&& views(c.variants@) == type_texts(u.variants@, tm)
        },
        _ => false,
    }
}

fn dup_opt(o: &Option<String>) -> (r: Option<String>)
    ensures
        r == *o,
{
    match o {
        Some(s) => Some(s.clone()),
        None => None,
    }
}

/// The context of one object field.
pub fn field_to_ctx(f: &IrField, tm: &TypeMapConfig, field_casing: &str) -> (r: FieldContext)
    ensures
        field_ctx_is(r, *f, *tm, field_casing@),
{
    let name = if str_eq(field_casing, "original") {
        f.original_name.clone()
    } else {
        cased_name(&f.name, field_casing)
    };
    FieldContext {
        name,
        original_name: f.original_name.clone(),
        type_str: map_type(&f.field_type, tm),
        field_type_str: map_field_type(&f.field_type, f.required, tm),
        required: f.required,
        description: dup_opt(&f.description),
        needs_alias: !str_eq(f.name.snake_case.as_str(), f.original_name.as_str()),
    }
}

/// The context of an object schema.
pub fn object_to_ctx(obj: &IrObjectSchema, tm: &TypeMapConfig, field_casing: &str) -> (r: ObjectContext)
    ensures
        schema_ctx_is(SchemaContext::Object(r), IrSchema::Object(*obj), *tm, field_casing@),
{
    let mut fields: Vec<FieldContext> = Vec::new();
    let mut i: usize = 0;
    while i < obj.fields.len()
        invariant
            i <= obj.fields@.len(),
            fields@.len() == i,
            forall|k: int| 0 <= k < i ==> field_ctx_is(#[trigger] fields@[k], obj.fields@[k], *tm, field_casing@),
        decreases obj.fields@.len() - i,
    {
        fields.push(field_to_ctx(&obj.fields[i], tm, field_casing));
        i = i + 1;
    }
    let additional_properties = match &obj.additional_properties {
        Some(t) => Some(map_type(t, tm)),
        None => None,
    };
    ObjectContext {
        name: obj.name.pascal_case.clone(),
        description: dup_opt(&obj.description),
        fields,
        additional_properties,
        has_additional_properties: obj.additional_properties.is_some(),
    }
}

/// The TypeScript text of an enum value.
pub fn ts_variant(v: &IrEnumVariant) -> (r: String)
    ensures
        r@ == ts_variant_text(*v),
{
    match v {
        IrEnumVariant::String(s) => cat3("\"", s.as_str(), "\""),
        IrEnumVariant::Integer(i) => i64_text(*i),
    }
}

/// The Python member name of an enum value.
pub fn py_variant(v: &IrEnumVariant) -> (r: String)
    ensures
        r@ == py_variant_name(*v),
{
    match v {
        IrEnumVariant::String(s) => upper_camel_case(s.as_str()),
        IrEnumVariant::Integer(i) => {
            if *i < 0 {
                let abs: u64 = ((-(*i + 1)) as u64) + 1;
                owned("Neg").concat(u64_text(abs).as_str())
            } else {
                owned("Value").concat(u64_text(*i as u64).as_str())
            }
        },
    }
}

/// The context of an enum schema.
pub fn enum_to_ctx(e: &IrEnumSchema) -> (r: EnumContext)
    ensures
        forall|tm: TypeMapConfig, casing: Seq<char>| #[trigger] schema_ctx_is(SchemaContext::Enum(r), IrSchema::Enum(*e), tm, casing),
{
    let ghost vs = e.variants@;
    let mut variants: Vec<String> = Vec::new();
    let mut py_variants: Vec<PyVariantContext> = Vec::new();
    let mut all_integer = true;
    let mut i: usize = 0;
    while i < e.variants.len()
        invariant
            vs == e.variants@,
            i <= vs.len(),
            views(variants@) == vs.take(i as int).map_values(|v: IrEnumVariant| ts_variant_text(v)),
            py_variant_views(py_variants@) == vs.take(i as int).map_values(
                |v: IrEnumVariant| (py_variant_name(v), ts_variant_text(v)),
            ),
            all_integer == forall|k: int| 0 <= k < i ==> #[trigger] vs[k] is Integer,
        decreases vs.len() - i,
    {
        let v = &e.variants[i];
        let ghost before_ts = views(variants@);
        let ghost before_py = py_variant_views(py_variants@);
        variants.push(ts_variant(v));
        py_variants.push(PyVariantContext { name: py_variant(v), value: ts_variant(v) });
        match v {
            IrEnumVariant::String(_) => {
                all_integer = false;
            },
            IrEnumVariant::Integer(_) => {},
        }
        proof {
            assert(vs.take(i + 1) =~= vs.take(i as int).push(vs[i as int]));
            assert(views(variants@) =~= before_ts.push(ts_variant_text(vs[i as int])));
            assert(py_variant_views(py_variants@) =~= before_py.push((py_variant_name(vs[i as int]), ts_variant_text(vs[i as int]))));
        }
        i = i + 1;
    }
    proof {
        assert(vs.take(vs.len() as int) =~= vs);
    }
    EnumContext {
        name: e.name.pascal_case.clone(),
        description: dup_opt(&e.description),
        variants,
        py_variants,
        is_integer: e.variants.len() > 0 && all_integer,
    }
}

/// The context of one schema.
pub fn schema_to_ctx(schema: &IrSchema, tm: &TypeMapConfig, field_casing: &str) -> (r: SchemaContext)
    ensures
        schema_ctx_is(r, *schema, *tm, field_casing@),
{
    match schema {
        IrSchema::Object(obj) => SchemaContext::Object(object_to_ctx(obj, tm, field_casing)),
        IrSchema::Enum(e) => {
            let c = enum_to_ctx(e);
            assert(schema_ctx_is(SchemaContext::Enum(c), IrSchema::Enum(*e), *tm, field_casing@));
            SchemaContext::Enum(c)
        },
        IrSchema::Alias(a) => SchemaContext::Alias(AliasContext {
            name: a.name.pascal_case.clone(),
            description: dup_opt(&a.description),
            target: map_type(&a.target, tm),
        }),
        IrSchema::Union(u) => SchemaContext::Union(UnionContext {
            name: u.name.pascal_case.clone(),
            description: dup_opt(&u.description),
            variants: map_types(&u.variants, tm),
        }),
    }
}

/// The contexts of all schemas, in order.
pub fn build_schema_contexts(ir: &IrSpec, tm: &TypeMapConfig, field_casing: &str) -> (r: Vec<SchemaContext>)
    ensures
        r@.len() == ir.schemas@.len(),
        forall|k: int| 0 <= k < r@.len() ==> schema_ctx_is(#[trigger] r@[k], ir.schemas@[k], *tm, field_casing@),
{
    let mut out: Vec<SchemaContext> = Vec::new();
    let mut i: usize = 0;
    while i < ir.schemas.len()
        invariant
            i <= ir.schemas@.len(),
            out@.len() == i,
            forall|k: int| 0 <= k < i ==> schema_ctx_is(#[trigger] out@[k], ir.schemas@[k], *tm, field_casing@),
        decreases ir.schemas@.len() - i,
    {
        out.push(schema_to_ctx(&ir.schemas[i], tm, field_casing));
        i = i + 1;
    }
    out
}

/// The names of all schemas, in order (pascal case).
pub open spec fn schema_names_of(schemas: Seq<IrSchema>) -> Seq<Seq<char>> {
    schemas.map_values(|s: IrSchema| schema_name(s).pascal_case@)
}

/// The names of all schemas, in order (pascal case).
pub fn schema_names(ir: &IrSpec) -> (r: Vec<String>)
    ensures
        views(r@) == schema_names_of(ir.schemas@),
{
    let mut out: Vec<String> = Vec::new();
    let mut i: usize = 0;
    while i < ir.schemas.len()
        invariant
            i <= ir.schemas@.len(),
            views(out@) == schema_names_of(ir.schemas@.take(i as int)),
        decreases ir.schemas@.len() - i,
    {
        let ghost before = views(out@);
        let name = ir.schemas[i].name();
        out.push(name.pascal_case.clone());
        proof {
            let x = schema_name(ir.schemas@[i as int]).pascal_case@;
            assert(views(out@) =~= before.push(x));
            assert(schema_names_of(ir.schemas@.take(i + 1)) =~= schema_names_of(ir.schemas@.take(i as int)).push(x));
        }
        i = i + 1;
    }
    assert(ir.schemas@.take(ir.schemas@.len() as int) =~= ir.schemas@);
    out
}

/// A named SSE event type as templates see it: its name and mapped variants.
#[derive(Debug)]
pub struct SseEventTypeContext {
    pub name: String,
    pub variants: Vec<String>,
}

/// The (name, variants) pairs of event type contexts.
pub open spec fn event_type_views(v: Seq<SseEventTypeContext>) -> Seq<(Seq<char>, Seq<Seq<char>>)> {
    v.map_values(|c: SseEventTypeContext| (c.name@, views(c.variants@)))
}

/// The named event types that streaming operations declare, in order: each
/// name once, skipping names of schemas and event types without variants.
pub open spec fn sse_event_entries(
    ops: Seq<IrOperation>,
    schema_names: Seq<Seq<char>>,
    tm: TypeMapConfig,
) -> Seq<(Seq<char>, Seq<Seq<char>>)>
    decreases ops.len(),
{
    if ops.len() == 0 {
        Seq::empty()
    } else {
        let rest = sse_event_entries(ops.drop_last(), schema_names, tm);
        match ops.last().return_type {
            IrReturnType::Sse(sse) => match sse.event_type_name {
                Some(n) => if !rest.map_values(|e: (Seq<char>, Seq<Seq<char>>)| e.0).contains(n@)
                    && !schema_names.contains(n@) && sse.variants@.len() > 0 {
                    rest.push((n@, type_texts(sse.variants@, tm)))
                } else {
                    rest
                },
                None => rest,
            },
            _ => rest,
        }
    }
}

/// Collects the named event types of streaming operations that no schema
/// already declares, each once, with their mapped variants.
pub fn collect_sse_event_types(ir: &IrSpec, schema_names: &Vec<String>, tm: &TypeMapConfig) -> (r: Vec<SseEventTypeContext>)
    ensures
        event_type_views(r@) == sse_event_entries(ir.operations@, views(schema_names@), *tm),
{
    let ghost ops = ir.operations@;
    let ghost names = views(schema_names@);
    let mut event_types: Vec<SseEventTypeContext> = Vec::new();
    let mut seen: Vec<String> = Vec::new();
    let mut i: usize = 0;
    assert(ops.take(0) =~= Seq::<IrOperation>::empty());
    assert(event_type_views(event_types@) =~= Seq::<(Seq<char>, Seq<Seq<char>>)>::empty());
    while i < ir.operations.len()
        invariant
            ops == ir.operations@,
            names == views(schema_names@),
            i <= ops.len(),
            event_type_views(event_types@) == sse_event_entries(ops.take(i as int), names, *tm),
            views(seen@) == sse_event_entries(ops.take(i as int), names, *tm).map_values(
                |e: (Seq<char>, Seq<Seq<char>>)| e.0,
            ),
        decreases ops.len() - i,
    {
        let ghost before = sse_event_entries(ops.take(i as int), names, *tm);
        assert(ops.take(i + 1).drop_last() =~= ops.take(i as int));
        let op = &ir.operations[i];
        match &op.return_type {
            IrReturnType::Sse(sse) => match &sse.event_type_name {
                Some(event_name) => {
                    if !contains_str(&seen, event_name.as_str()) && !contains_str(schema_names, event_name.as_str())
                        && sse.variants.len() > 0 {
                        let ghost old_events = event_type_views(event_types@);
                        let ghost old_seen = views(seen@);
                        let variants = map_types(&sse.variants, tm);
                        seen.push(event_name.clone());
                        event_types.push(SseEventTypeContext { name: event_name.clone(), variants });
                        proof {
                            let entry = (event_name@, type_texts(sse.variants@, *tm));
                            assert(event_type_views(event_types@) =~= old_events.push(entry));
                            assert(views(seen@) =~= old_seen.push(event_name@));
                            assert(before.push(entry).map_values(|e: (Seq<char>, Seq<Seq<char>>)| e.0)
                                =~= before.map_values(|e: (Seq<char>, Seq<Seq<char>>)| e.0).push(event_name@));
                        }
                    }
                },
                None => {},
            },
            _ => {},
        }
        i = i + 1;
    }
    assert(ops.take(ops.len() as int) =~= ops);
    event_types
}

} // verus!
