//! Mapping IR types to the type syntax of a target language.
use vstd::prelude::*;

use crate::ir::IrType;
use crate::pack::TypeMapConfig;
use crate::text::{i64_text, int_text, join_strings, replace_all, replace_str, seq_join, views};

verus! {

/// The `{value}` placeholder.
pub open spec fn value_hole() -> Seq<char> {
    seq!['{', 'v', 'a', 'l', 'u', 'e', '}']
}

/// The `{name}` placeholder.
pub open spec fn name_hole() -> Seq<char> {
    seq!['{', 'n', 'a', 'm', 'e', '}']
}

/// The `{inner}` placeholder.
pub open spec fn inner_hole() -> Seq<char> {
    seq!['{', 'i', 'n', 'n', 'e', 'r', '}']
}

/// The `{fields}` placeholder.
pub open spec fn fields_hole() -> Seq<char> {
    seq!['{', 'f', 'i', 'e', 'l', 'd', 's', '}']
}

/// The `{type}` placeholder.
pub open spec fn type_hole() -> Seq<char> {
    seq!['{', 't', 'y', 'p', 'e', '}']
}

/// The language type that `t` maps to under the type map `tm`.
pub open spec fn type_text(t: IrType, tm: TypeMapConfig) -> Seq<char>
    decreases t,
{
    match t {
        IrType::String => tm.string@,
        IrType::StringLiteral(s) => replace_all(tm.string_literal@, value_hole(), s@),
        IrType::IntegerLiteral(i) => replace_all(tm.integer_literal@, value_hole(), int_text(i as int)),
        IrType::Number => tm.number@,
        IrType::Integer => tm.integer@,
        IrType::Boolean => tm.boolean@,
        IrType::Null => tm.null@,
        IrType::DateTime => tm.datetime@,
        IrType::Binary => tm.binary@,
        IrType::Any => tm.any@,
        IrType::Void => tm.void@,
        IrType::Ref(name) => replace_all(tm.ref_type@, name_hole(), name@),
        IrType::Array(inner) => {
            let template = match (*inner, tm.array_union) {
                (IrType::Union(_), Some(au)) => au@,
                _ => tm.array@,
            };
            replace_all(template, inner_hole(), type_text(*inner, tm))
        },
        IrType::MapOf(inner) => replace_all(tm.map@, inner_hole(), type_text(*inner, tm)),
        IrType::Object(fields) => {
            if fields@.len() == 0 {
                tm.object_empty@
            } else {
                replace_all(tm.object@, fields_hole(), seq_join(field_texts(fields@, tm), tm.object_field_separator@))
            }
        },
        IrType::Union(vs) => seq_join(type_texts(vs@, tm), tm.union_separator@),
        IrType::Intersection(vs) => seq_join(type_texts(vs@, tm), tm.intersection_separator@),
    }
}

/// The mapped types of a sequence of types, in order.
pub open spec fn type_texts(vs: Seq<IrType>, tm: TypeMapConfig) -> Seq<Seq<char>>
    decreases vs,
{
    if vs.len() == 0 {
        Seq::empty()
    } else {
        type_texts(vs.drop_last(), tm).push(type_text(vs.last(), tm))
    }
}

/// The text of one inline object field: the required or optional field template
/// with `{name}` and then `{type}` filled in.
pub open spec fn field_text(f: (String, IrType, bool), tm: TypeMapConfig) -> Seq<char>
    decreases f,
{
    let template = if f.2 { tm.object_field_required@ } else { tm.object_field_optional@ };
    replace_all(replace_all(template, name_hole(), f.0@), type_hole(), type_text(f.1, tm))
}

/// The texts of a sequence of inline object fields, in order.
pub open spec fn field_texts(fs: Seq<(String, IrType, bool)>, tm: TypeMapConfig) -> Seq<Seq<char>>
    decreases fs,
{
    if fs.len() == 0 {
        Seq::empty()
    } else {
        field_texts(fs.drop_last(), tm).push(field_text(fs.last(), tm))
    }
}

/// The mapped type of a field: the suffix for optional fields is appended when
/// the field is not required and the suffix is not empty.
pub open spec fn field_type_text(t: IrType, required: bool, tm: TypeMapConfig) -> Seq<char> {
    if required || tm.optional_suffix@.len() == 0 {
        type_text(t, tm)
    } else {
        type_text(t, tm) + tm.optional_suffix@
    }
}

proof fn lemma_holes()
    ensures
        "{value}"@ == value_hole(),
        "{name}"@ == name_hole(),
        "{inner}"@ == inner_hole(),
        "{fields}"@ == fields_hole(),
        "{type}"@ == type_hole(),
{
    reveal_strlit("{value}");
    reveal_strlit("{name}");
    reveal_strlit("{inner}");
    reveal_strlit("{fields}");
    reveal_strlit("{type}");
    assert("{value}"@ =~= value_hole());
    assert("{name}"@ =~= name_hole());
    assert("{inner}"@ =~= inner_hole());
    assert("{fields}"@ =~= fields_hole());
    assert("{type}"@ =~= type_hole());
}

pub(crate) fn map_types(vs: &Vec<IrType>, tm: &TypeMapConfig) -> (r: Vec<String>)
    ensures
        views(r@) == type_texts(vs@, *tm),
    decreases vs, 0nat,
{
    let mut out: Vec<String> = Vec::new();
    let mut i: usize = 0;
    while i < vs.len()
        invariant
            i <= vs@.len(),
            views(out@) == type_texts(vs@.take(i as int), *tm),
        decreases vs@.len() - i,
    {
        proof {
            assert(decreases_to!(vs => vs@));
            assert(decreases_to!(vs@ => vs@[i as int]));
        }
        let s = map_type(&vs[i], tm);
        out.push(s);
        proof {
            assert(vs@.take(i + 1).drop_last() =~= vs@.take(i as int));
            assert(views(out@) =~= type_texts(vs@.take(i + 1), *tm));
        }
        i = i + 1;
    }
    assert(vs@.take(vs@.len() as int) =~= vs@);
    out
}

fn map_fields(fs: &Vec<(String, IrType, bool)>, tm: &TypeMapConfig) -> (r: Vec<String>)
    ensures
        views(r@) == field_texts(fs@, *tm),
    decreases fs, 0nat,
{
    let mut out: Vec<String> = Vec::new();
    let mut i: usize = 0;
    proof {
        lemma_holes();
    }
    while i < fs.len()
        invariant
            i <= fs@.len(),
            views(out@) == field_texts(fs@.take(i as int), *tm),
            "{name}"@ == name_hole(),
            "{type}"@ == type_hole(),
        decreases fs@.len() - i,
    {
        proof {
            assert(decreases_to!(fs => fs@));
            assert(decreases_to!(fs@ => fs@[i as int]));
            assert(decreases_to!(fs@[i as int] => fs@[i as int].1));
        }
        let (name, ty, required) = &fs[i];
        let type_str = map_type(ty, tm);
        let template = if *required { &tm.object_field_required } else { &tm.object_field_optional };
        let named = replace_str(template.as_str(), "{name}", name.as_str());
        let s = replace_str(named.as_str(), "{type}", type_str.as_str());
        proof {
            let f = fs@[i as int];
            assert(f.0 == *name && f.1 == *ty && f.2 == *required);
            assert(s@ == field_text(f, *tm));
        }
        out.push(s);
        proof {
            assert(fs@.take(i + 1).drop_last() =~= fs@.take(i as int));
            assert(views(out@) =~= field_texts(fs@.take(i + 1), *tm));
        }
        i = i + 1;
    }
    assert(fs@.take(fs@.len() as int) =~= fs@);
    out
}

/// Maps an IR type to a language type string using the declarative type map.
pub fn map_type(ir_type: &IrType, tm: &TypeMapConfig) -> (r: String)
    ensures
        r@ == type_text(*ir_type, *tm),
    decreases ir_type, 1nat,
{
    proof {
        lemma_holes();
    }
    match ir_type {
        IrType::String => tm.string.clone(),
        IrType::StringLiteral(s) => replace_str(tm.string_literal.as_str(), "{value}", s.as_str()),
        IrType::IntegerLiteral(i) => {
            let digits = i64_text(*i);
            replace_str(tm.integer_literal.as_str(), "{value}", digits.as_str())
        },
        IrType::Number => tm.number.clone(),
        IrType::Integer => tm.integer.clone(),
        IrType::Boolean => tm.boolean.clone(),
        IrType::Null => tm.null.clone(),
        IrType::DateTime => tm.datetime.clone(),
        IrType::Binary => tm.binary.clone(),
        IrType::Any => tm.any.clone(),
        IrType::Void => tm.void.clone(),
        IrType::Ref(name) => replace_str(tm.ref_type.as_str(), "{name}", name.as_str()),
        IrType::Array(inner) => {
            let inner_str = map_type(inner, tm);
            let is_union = match &**inner {
                IrType::Union(_) => true,
                _ => false,
            };
            if is_union {
                match &tm.array_union {
                    Some(array_union) => {
                        return replace_str(array_union.as_str(), "{inner}", inner_str.as_str());
                    },
                    None => {},
                }
            }
            replace_str(tm.array.as_str(), "{inner}", inner_str.as_str())
        },
        IrType::MapOf(value_type) => {
            let inner_str = map_type(value_type, tm);
            replace_str(tm.map.as_str(), "{inner}", inner_str.as_str())
        },
        IrType::Object(fields) => {
            if fields.len() == 0 {
                return tm.object_empty.clone();
            }
            let field_strs = map_fields(fields, tm);
            let joined = join_strings(&field_strs, tm.object_field_separator.as_str());
            replace_str(tm.object.as_str(), "{fields}", joined.as_str())
        },
        IrType::Union(variants) => {
            let variant_strs = map_types(variants, tm);
            join_strings(&variant_strs, tm.union_separator.as_str())
        },
        IrType::Intersection(parts) => {
            let part_strs = map_types(parts, tm);
            join_strings(&part_strs, tm.intersection_separator.as_str())
        },
    }
}

/// Maps an IR type to a field type string, appending the optional suffix for
/// fields that are not required.
pub fn map_field_type(ir_type: &IrType, required: bool, tm: &TypeMapConfig) -> (r: String)
    ensures
        r@ == field_type_text(*ir_type, required, *tm),
{
    let base = map_type(ir_type, tm);
    if required || tm.optional_suffix.as_str().unicode_len() == 0 {
        base
    } else {
        base.concat(tm.optional_suffix.as_str())
    }
}

} // verus!
