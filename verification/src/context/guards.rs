//! Type guards for discriminated unions.
use vstd::prelude::*;

use crate::ir::{IrDiscriminator, IrSchema, IrSpec, IrType, IrUnionSchema};
use crate::seqs::{first_occurrences, push_first_occurrence};
use crate::text::{i64_literal, parses_as_i64, str_eq, views};

verus! {

/// `t` refers to the schema `name`.
pub open spec fn is_ref_to(t: IrType, name: Seq<char>) -> bool {
    match t {
        IrType::Ref(n) => n@ == name,
        _ => false,
    }
}

/// Some variant refers to the schema `name`.
pub open spec fn has_ref_variant(vs: Seq<IrType>, name: Seq<char>) -> bool {
    exists|k: int| 0 <= k < vs.len() && #[trigger] is_ref_to(vs[k], name)
}

/// Whether some variant refers to the schema `name`.
pub fn any_ref_variant(vs: &Vec<IrType>, name: &str) -> (r: bool)
    ensures
        r == has_ref_variant(vs@, name@),
{
    let mut i: usize = 0;
    while i < vs.len()
        invariant
            i <= vs@.len(),
            forall|k: int| 0 <= k < i ==> !#[trigger] is_ref_to(vs@[k], name@),
        decreases vs@.len() - i,
    {
        match &vs[i] {
            IrType::Ref(n) => {
                if str_eq(n.as_str(), name) {
                    assert(is_ref_to(vs@[i as int], name@));
                    return true;
                }
            },
            _ => {},
        }
        i = i + 1;
    }
    false
}

/// One type guard as templates see it.
#[derive(Debug)]
pub struct GuardContext {
    pub union_name: String,
    pub variant_name: String,
    pub property_name: String,
    pub discriminator_value: String,
    pub is_integer_discriminator: bool,
}

/// The fields of a guard: union, variant, property, discriminator value, integer or not.
pub open spec fn guard_view(g: GuardContext) -> (Seq<char>, Seq<char>, Seq<char>, Seq<char>, bool) {
    (g.union_name@, g.variant_name@, g.property_name@, g.discriminator_value@, g.is_integer_discriminator)
}

/// The guards of a discriminated union: one per mapping entry whose schema is a
/// variant of the union, in mapping order.
pub open spec fn mapping_guards(
    union_name: Seq<char>,
    disc: IrDiscriminator,
    vs: Seq<IrType>,
    m: Seq<(String, String)>,
) -> Seq<(Seq<char>, Seq<char>, Seq<char>, Seq<char>, bool)>
    decreases m.len(),
{
    if m.len() == 0 {
        Seq::empty()
    } else {
        let rest = mapping_guards(union_name, disc, vs, m.drop_last());
        let (value, schema) = m.last();
        if has_ref_variant(vs, schema@) {
            rest.push((union_name, schema@, disc.property_name@, value@, i64_literal(value@)))
        } else {
            rest
        }
    }
}

/// The schema names of the mapping entries that are variants of the union.
pub open spec fn mapping_imports(vs: Seq<IrType>, m: Seq<(String, String)>) -> Seq<Seq<char>>
    decreases m.len(),
{
    if m.len() == 0 {
        Seq::empty()
    } else {
        let rest = mapping_imports(vs, m.drop_last());
        if has_ref_variant(vs, m.last().1@) {
            rest.push(m.last().1@)
        } else {
            rest
        }
    }
}

/// The guards of all discriminated unions, in schema order.
pub open spec fn all_guards(schemas: Seq<IrSchema>) -> Seq<(Seq<char>, Seq<char>, Seq<char>, Seq<char>, bool)>
    decreases schemas.len(),
{
    if schemas.len() == 0 {
        Seq::empty()
    } else {
        let rest = all_guards(schemas.drop_last());
        match schemas.last() {
            IrSchema::Union(u) => match u.discriminator {
                Some(d) => rest + mapping_guards(u.name.pascal_case@, d, u.variants@, d.mapping@),
                None => rest,
            },
            _ => rest,
        }
    }
}

/// The names guard code imports, with repeats: each discriminated union, then
/// the schemas it guards.
pub open spec fn guard_import_decls(schemas: Seq<IrSchema>) -> Seq<Seq<char>>
    decreases schemas.len(),
{
    if schemas.len() == 0 {
        Seq::empty()
    } else {
        let rest = guard_import_decls(schemas.drop_last());
        match schemas.last() {
            IrSchema::Union(u) => match u.discriminator {
                Some(d) => rest.push(u.name.pascal_case@) + mapping_imports(u.variants@, d.mapping@),
                None => rest,
            },
            _ => rest,
        }
    }
}

/// The imports and guards of the guard module.
#[derive(Debug)]
pub struct GuardsContext {
    pub imports: Vec<String>,
    pub guards: Vec<GuardContext>,
}

fn add_union_guards(
    u: &IrUnionSchema,
    disc: &IrDiscriminator,
    imports: &mut Vec<String>,
    guards: &mut Vec<GuardContext>,
    Ghost(decls): Ghost<Seq<Seq<char>>>,
)
    requires
        views(old(imports)@) == first_occurrences(decls),
    ensures
        views(final(imports)@) == first_occurrences(decls.push(u.name.pascal_case@) + mapping_imports(u.variants@, disc.mapping@)),
        final(guards)@.map_values(|g: GuardContext| guard_view(g)) == old(guards)@.map_values(|g: GuardContext| guard_view(g))
            + mapping_guards(u.name.pascal_case@, *disc, u.variants@, disc.mapping@),
{
    let ghost m = disc.mapping@;
    let ghost vs = u.variants@;
    let ghost g0 = guards@.map_values(|g: GuardContext| guard_view(g));
    let union_name = u.name.pascal_case.clone();
    push_first_occurrence(imports, union_name.clone(), Ghost(decls));
    let ghost base = decls.push(union_name@);
    let mut i: usize = 0;
    assert(m.take(0) =~= Seq::<(String, String)>::empty());
    assert(base + mapping_imports(vs, m.take(0)) =~= base);
    assert(g0 + mapping_guards(union_name@, *disc, vs, m.take(0)) =~= g0);
    while i < disc.mapping.len()
        invariant
            m == disc.mapping@,
            vs == u.variants@,
            union_name@ == u.name.pascal_case@,
            i <= m.len(),
            views(imports@) == first_occurrences(base + mapping_imports(vs, m.take(i as int))),
            guards@.map_values(|g: GuardContext| guard_view(g)) == g0 + mapping_guards(union_name@, *disc, vs, m.take(i as int)),
        decreases m.len() - i,
    {
        let (disc_value, schema_name) = &disc.mapping[i];
        assert(m.take(i + 1).drop_last() =~= m.take(i as int));
        let ghost imps = base + mapping_imports(vs, m.take(i as int));
        let ghost gs = guards@.map_values(|g: GuardContext| guard_view(g));
        if any_ref_variant(&u.variants, schema_name.as_str()) {
            push_first_occurrence(imports, schema_name.clone(), Ghost(imps));
            assert(imps.push(schema_name@) =~= base + mapping_imports(vs, m.take(i + 1)));
            let g = GuardContext {
                union_name: union_name.clone(),
                variant_name: schema_name.clone(),
                property_name: disc.property_name.clone(),
                discriminator_value: disc_value.clone(),
                is_integer_discriminator: parses_as_i64(disc_value.as_str()),
            };
            guards.push(g);
            assert(guards@.map_values(|g: GuardContext| guard_view(g)) =~= gs.push(guard_view(g)));
        }
        i = i + 1;
    }
    assert(m.take(m.len() as int) =~= m);
}

/// The guard module's context: a type guard for each variant of each
/// discriminated union that its mapping names, and the names to import, each once.
pub fn build_guard_contexts(ir: &IrSpec) -> (r: GuardsContext)
    ensures
        views(r.imports@) == first_occurrences(guard_import_decls(ir.schemas@)),
        r.guards@.map_values(|g: GuardContext| guard_view(g)) == all_guards(ir.schemas@),
{
    let ghost ss = ir.schemas@;
    let mut imports: Vec<String> = Vec::new();
    let mut guards: Vec<GuardContext> = Vec::new();
    let mut i: usize = 0;
    assert(ss.take(0) =~= Seq::<IrSchema>::empty());
    assert(views(imports@) =~= first_occurrences(guard_import_decls(ss.take(0))));
    assert(guards@.map_values(|g: GuardContext| guard_view(g)) =~= all_guards(ss.take(0)));
    while i < ir.schemas.len()
        invariant
            ss == ir.schemas@,
            i <= ss.len(),
            views(imports@) == first_occurrences(guard_import_decls(ss.take(i as int))),
            guards@.map_values(|g: GuardContext| guard_view(g)) == all_guards(ss.take(i as int)),
        decreases ss.len() - i,
    {
        assert(ss.take(i + 1).drop_last() =~= ss.take(i as int));
        match &ir.schemas[i] {
            IrSchema::Union(u) => match &u.discriminator {
                Some(disc) => {
                    add_union_guards(u, disc, &mut imports, &mut guards, Ghost(guard_import_decls(ss.take(i as int))));
                },
                None => {},
            },
            _ => {},
        }
        i = i + 1;
    }
    assert(ss.take(ss.len() as int) =~= ss);
    GuardsContext { imports, guards }
}

} // verus!
