//! Properties of the library as a whole, stated over the contracts of its functions.
use vstd::prelude::*;

use crate::context::hooks::{all_declared_hook_names, hook_context_is, hook_count_fn, hook_key_fn, hook_name_at, kept_hook_positions};
use crate::context::operations::{kept_operation_positions, op_context_is, op_count_fn, op_key_fn, op_method_name_at};
use crate::context::schemas::sse_event_entries;
use crate::context::template::{template_context_is, TemplateContext};
use crate::context::test_cases::{kept_test_positions, test_count_fn, test_key_fn, test_method_name_at};
use crate::github::{first_index_of, pack_spec_parts};
use crate::ir::{IrOperation, IrReturnType, IrSpec};
use crate::pack::TypeMapConfig;
use crate::seqs::{first_occurrences, flat_positions, kept_first, lemma_first_occurrences, lemma_kept_first_keys};
use crate::pack::TemplatePack;
use crate::context::params::{cased, ts_params_signature};
use crate::context::hooks::swr_key_text;
use crate::context::schemas::{field_ctx_is, schema_ctx_is, SchemaContext};
use crate::ir::{IrParameter, IrParameterLocation, IrSchema, IrType};
use crate::seqs::collect;
use crate::sse_detector::{sse_return_is, MediaType};
use crate::type_map::type_text;
use crate::ir::{IrSseReturn, same_type};
use crate::text::seq_join;
use crate::text::{all_digits, digit_char, digits_value, i64_literal, int_text, is_digit, nat_text, unsigned_part, views};

verus! {

/// Key positions kept by first occurrence carry distinct keys.
proof fn lemma_kept_distinct(s: Seq<(int, int)>, key: spec_fn((int, int)) -> Seq<char>, i: int, j: int)
    requires
        0 <= i < j < kept_first(s, key).len(),
    ensures
        key(kept_first(s, key)[i]) != key(kept_first(s, key)[j]),
{
    lemma_kept_first_keys(s, key);
    let m = kept_first(s, key).map_values(key);
    assert(m[i] != m[j]);
}

/// In a template context, no two client methods share a method name, no two
/// hooks share a hook name, and no two tests share a method name: each name
/// is kept once, for the first operation that declares it.
pub proof fn template_names_unique(
    r: TemplateContext,
    ir: IrSpec,
    tm: TypeMapConfig,
    field_casing: Seq<char>,
    operation_casing: Seq<char>,
)
    requires
        template_context_is(r, ir, tm, field_casing, operation_casing),
    ensures
        forall|i: int, j: int| 0 <= i < j < r.operations@.len()
            ==> #[trigger] r.operations@[i].method_name@ != #[trigger] r.operations@[j].method_name@,
        forall|i: int, j: int| 0 <= i < j < r.hooks@.len()
            ==> #[trigger] r.hooks@[i].hook_name@ != #[trigger] r.hooks@[j].hook_name@,
        forall|i: int, j: int| 0 <= i < j < r.test_operations@.len()
            ==> #[trigger] r.test_operations@[i].method_name@ != #[trigger] r.test_operations@[j].method_name@,
{
    reveal(op_context_is);
    reveal(hook_context_is);
    let ops = ir.operations@;
    let ko = kept_operation_positions(ops, operation_casing);
    let kh = kept_hook_positions(ops);
    let kt = kept_test_positions(ops);
    assert forall|i: int, j: int| 0 <= i < j < r.operations@.len()
        implies #[trigger] r.operations@[i].method_name@ != #[trigger] r.operations@[j].method_name@ by {
        lemma_kept_distinct(flat_positions(ops, op_count_fn()), op_key_fn(ops, operation_casing), i, j);
        assert(op_context_is(r.operations@[i], ops[ko[i].0], ko[i].1, tm, field_casing, operation_casing));
        assert(op_context_is(r.operations@[j], ops[ko[j].0], ko[j].1, tm, field_casing, operation_casing));
    }
    assert forall|i: int, j: int| 0 <= i < j < r.hooks@.len()
        implies #[trigger] r.hooks@[i].hook_name@ != #[trigger] r.hooks@[j].hook_name@ by {
        lemma_kept_distinct(flat_positions(ops, hook_count_fn()), hook_key_fn(ops), i, j);
        assert(hook_context_is(r.hooks@[i], ops[kh[i].0], kh[i].1, tm));
        assert(hook_context_is(r.hooks@[j], ops[kh[j].0], kh[j].1, tm));
    }
    assert forall|i: int, j: int| 0 <= i < j < r.test_operations@.len()
        implies #[trigger] r.test_operations@[i].method_name@ != #[trigger] r.test_operations@[j].method_name@ by {
        lemma_kept_distinct(flat_positions(ops, test_count_fn()), test_key_fn(ops), i, j);
    }
}

/// The hook names of a spec name every hook that any operation declares, each once.
pub proof fn hook_names_complete_and_distinct(ops: Seq<IrOperation>)
    ensures
        first_occurrences(all_declared_hook_names(ops)).no_duplicates(),
        first_occurrences(all_declared_hook_names(ops)).to_set() == all_declared_hook_names(ops).to_set(),
{
    lemma_first_occurrences(all_declared_hook_names(ops));
}

/// The named event types of a spec are distinct, and none is the name of a schema.
pub proof fn sse_event_names_fresh(ops: Seq<IrOperation>, schema_names: Seq<Seq<char>>, tm: TypeMapConfig)
    ensures
        forall|i: int, j: int| 0 <= i < j < sse_event_entries(ops, schema_names, tm).len()
            ==> (#[trigger] sse_event_entries(ops, schema_names, tm)[i]).0 != (#[trigger] sse_event_entries(ops, schema_names, tm)[j]).0,
        forall|i: int| 0 <= i < sse_event_entries(ops, schema_names, tm).len()
            ==> !schema_names.contains((#[trigger] sse_event_entries(ops, schema_names, tm)[i]).0),
    decreases ops.len(),
{
    if ops.len() > 0 {
        let rest = sse_event_entries(ops.drop_last(), schema_names, tm);
        sse_event_names_fresh(ops.drop_last(), schema_names, tm);
        let all = sse_event_entries(ops, schema_names, tm);
        if all.len() > rest.len() {
            assert(all == rest.push(all.last()));
            let f = |e: (Seq<char>, Seq<Seq<char>>)| e.0;
            assert forall|i: int| 0 <= i < rest.len() implies #[trigger] rest[i].0 != all.last().0 by {
                assert(rest.map_values(f)[i] == rest[i].0);
            }
        } else {
            assert(all == rest);
        }
    }
}

/// A specifier `id@ref`, with no `@` in the id and a non-empty ref, names the
/// pack `id` at `ref`; a specifier without `@` names the pack at `main`.
pub proof fn pack_specifier_parts(id: Seq<char>, git_ref: Seq<char>)
    requires
        !id.contains('@'),
    ensures
        git_ref.len() > 0 ==> pack_spec_parts(id + seq!['@'] + git_ref) == (id, git_ref),
        pack_spec_parts(id) == (id, "main"@),
{
    lemma_no_index(id);
    let s = id + seq!['@'] + git_ref;
    lemma_first_at(id, git_ref);
    assert(s.subrange(0, id.len() as int) =~= id);
    assert(s.subrange(id.len() + 1int, s.len() as int) =~= git_ref);
}

proof fn lemma_no_index(s: Seq<char>)
    requires
        !s.contains('@'),
    ensures
        first_index_of(s, '@') is None,
    decreases s.len(),
{
    if s.len() > 0 {
        assert(s.last() == s[s.len() - 1]);
        assert(!s.drop_last().contains('@')) by {
            if s.drop_last().contains('@') {
                let k = choose|k: int| 0 <= k < s.drop_last().len() && s.drop_last()[k] == '@';
                assert(s[k] == '@');
            }
        }
        lemma_no_index(s.drop_last());
    }
}

proof fn lemma_first_at(id: Seq<char>, rest: Seq<char>)
    requires
        first_index_of(id, '@') is None,
    ensures
        first_index_of(id + seq!['@'] + rest, '@') == Some(id.len() as int),
    decreases rest.len(),
{
    let s = id + seq!['@'] + rest;
    if rest.len() == 0 {
        assert(s.drop_last() =~= id);
    } else {
        assert(s.drop_last() =~= id + seq!['@'] + rest.drop_last());
        lemma_first_at(id, rest.drop_last());
    }
}

proof fn lemma_digit_char(d: int)
    requires
        0 <= d < 10,
    ensures
        is_digit(digit_char(d)),
        (digit_char(d) as int) - ('0' as int) == d,
{
    assert('0' as int == 48);
    assert('9' as int == 57);
    if d == 0 { assert(digit_char(d) as int == 48); }
    else if d == 1 { assert(digit_char(1) as int == 49); }
    else if d == 2 { assert(digit_char(2) as int == 50); }
    else if d == 3 { assert(digit_char(3) as int == 51); }
    else if d == 4 { assert(digit_char(4) as int == 52); }
    else if d == 5 { assert(digit_char(5) as int == 53); }
    else if d == 6 { assert(digit_char(6) as int == 54); }
    else if d == 7 { assert(digit_char(7) as int == 55); }
    else if d == 8 { assert(digit_char(8) as int == 56); }
    else { assert(digit_char(9) as int == 57); }
}

proof fn lemma_nat_text_digits(n: nat)
    ensures
        nat_text(n).len() > 0,
        all_digits(nat_text(n)),
        digits_value(nat_text(n)) == n,
    decreases n,
{
    if n < 10 {
        lemma_digit_char(n as int);
        assert(nat_text(n).drop_last() =~= Seq::<char>::empty());
        assert(digits_value(Seq::<char>::empty()) == 0);
        assert(nat_text(n).last() == digit_char(n as int));
    } else {
        lemma_digit_char((n % 10) as int);
        lemma_nat_text_digits(n / 10);
        let t = nat_text(n);
        assert(t.drop_last() =~= nat_text(n / 10));
        assert(t.last() == digit_char((n % 10) as int));
        assert(digits_value(t) == 10 * digits_value(nat_text(n / 10)) + (n % 10));
        assert(10 * (n / 10) + (n % 10) == n);
        assert forall|k: int| 0 <= k < t.len() implies is_digit(#[trigger] t[k]) by {
            if k < t.len() - 1 {
                assert(t[k] == nat_text(n / 10)[k]);
            }
        }
    }
}

/// Every integer written in decimal (as `i64::to_string` writes it) is
/// accepted as an `i64` literal; in particular an integer discriminator value
/// is recognised as one.
pub proof fn decimal_text_is_i64_literal(i: i64)
    ensures
        i64_literal(int_text(i as int)),
{
    if i < 0 {
        let m = (-i) as nat;
        lemma_nat_text_digits(m);
        let s = int_text(i as int);
        assert(s.skip(1) =~= nat_text(m));
        assert(unsigned_part(s) == nat_text(m));
    } else {
        lemma_nat_text_digits(i as nat);
        let s = nat_text(i as nat);
        assert(is_digit(s[0]));
        assert(unsigned_part(s) == s);
    }
}

/// A pack that extends another keeps every template of its base that it does
/// not define itself, and its own templates win; no other template appears.
pub proof fn extending_pack_templates(base: TemplatePack, extending: TemplatePack, merged: TemplatePack)
    requires
        merged.templates@ == base.templates@.union_prefer_right(extending.templates@),
    ensures
        forall|k: Seq<char>| #[trigger] extending.templates@.contains_key(k)
            ==> merged.templates@.contains_key(k) && merged.templates@[k] == extending.templates@[k],
        forall|k: Seq<char>| base.templates@.contains_key(k) && !extending.templates@.contains_key(k)
            ==> #[trigger] merged.templates@.contains_key(k) && merged.templates@[k] == base.templates@[k],
        forall|k: Seq<char>| #[trigger] merged.templates@.contains_key(k)
            ==> base.templates@.contains_key(k) || extending.templates@.contains_key(k),
{
}

/// An element whose image is `Some` is kept by `collect`.
proof fn lemma_collect_keeps<A, B>(s: Seq<A>, f: spec_fn(A) -> Option<B>, i: int)
    requires
        0 <= i < s.len(),
        f(s[i]) is Some,
    ensures
        collect(s, f).contains(f(s[i]).unwrap()),
    decreases s.len(),
{
    let rest = collect(s.drop_last(), f);
    if i == s.len() - 1 {
        assert(collect(s, f) == rest.push(f(s[i]).unwrap()));
        assert(collect(s, f)[rest.len() as int] == f(s[i]).unwrap());
    } else {
        assert(s.drop_last()[i] == s[i]);
        lemma_collect_keeps(s.drop_last(), f, i);
        let k = choose|k: int| 0 <= k < rest.len() && rest[k] == f(s[i]).unwrap();
        match f(s.last()) {
            Some(b) => {
                assert(collect(s, f) == rest.push(b));
                assert(collect(s, f)[k] == rest[k]);
            },
            None => {},
        }
    }
}

/// Every query and header parameter of an operation takes part in its client
/// method's parameter list: the list is made of `", "`-separated entries, and
/// among them is `name: type` for a required parameter and `name?: type` for
/// an optional one (name in the field casing, type mapped by the type map).
pub proof fn query_and_header_params_in_signature(
    op: IrOperation,
    tm: TypeMapConfig,
    casing: Seq<char>,
    is_sse: bool,
    i: int,
)
    requires
        0 <= i < op.parameters@.len(),
        op.parameters@[i].location == IrParameterLocation::Query || op.parameters@[i].location == IrParameterLocation::Header,
    ensures
        exists|entries: Seq<Seq<char>>|
            ts_params_signature(op, tm, casing, is_sse) == seq_join(entries, ", "@) && entries.contains(
                if op.parameters@[i].required {
                    cased(op.parameters@[i].name, casing) + ": "@ + type_text(op.parameters@[i].param_type, tm)
                } else {
                    cased(op.parameters@[i].name, casing) + "?: "@ + type_text(op.parameters@[i].param_type, tm)
                },
            ),
{
    let ps = op.parameters@;
    let req = collect(ps, crate::context::params::sig_required_of(tm, casing));
    let opt = collect(ps, crate::context::params::sig_optional_of(tm, casing));
    let b1 = crate::context::params::body_entries(op, tm, true);
    let b2 = crate::context::params::body_entries(op, tm, false);
    let last = seq![crate::context::params::options_entry(is_sse)];
    let entries = req + b1 + opt + b2 + last;
    assert(ts_params_signature(op, tm, casing, is_sse) == seq_join(entries, ", "@));
    let p = ps[i];
    if p.required {
        let x = cased(p.name, casing) + ": "@ + type_text(p.param_type, tm);
        lemma_collect_keeps(ps, crate::context::params::sig_required_of(tm, casing), i);
        let k = choose|k: int| 0 <= k < req.len() && req[k] == x;
        assert(entries[k] == x);
        assert(entries.contains(x));
    } else {
        let x = cased(p.name, casing) + "?: "@ + type_text(p.param_type, tm);
        lemma_collect_keeps(ps, crate::context::params::sig_optional_of(tm, casing), i);
        let k = choose|k: int| 0 <= k < opt.len() && opt[k] == x;
        assert(entries[req.len() + b1.len() + k] == x);
        assert(entries.contains(x));
    }
}

/// The SWR key of a hook: with no non-cookie parameter, the quoted path;
/// otherwise the tuple `["<path>", <names>] as const`, whose names include
/// the camel-case name of every non-cookie parameter.
pub proof fn swr_key_names_every_parameter(op: IrOperation)
    ensures
        (forall|j: int| 0 <= j < op.parameters@.len() ==> (#[trigger] op.parameters@[j]).location == IrParameterLocation::Cookie)
            ==> swr_key_text(op) == "\""@ + op.path@ + "\""@,
        (exists|j: int| 0 <= j < op.parameters@.len() && (#[trigger] op.parameters@[j]).location != IrParameterLocation::Cookie)
            ==> exists|names: Seq<Seq<char>>|
            swr_key_text(op) == "[\""@ + op.path@ + "\", "@ + seq_join(names, ", "@) + "] as const"@
                && forall|j: int| 0 <= j < op.parameters@.len() && (#[trigger] op.parameters@[j]).location
                    != IrParameterLocation::Cookie ==> names.contains(op.parameters@[j].name.camel_case@),
{
    let ps = op.parameters@;
    let f = crate::context::hooks::hook_key_of();
    let keys = collect(ps, f);
    assert forall|j: int| 0 <= j < ps.len() && (#[trigger] ps[j]).location != IrParameterLocation::Cookie
        implies keys.contains(ps[j].name.camel_case@) by {
        lemma_collect_keeps(ps, f, j);
    }
    if exists|j: int| 0 <= j < ps.len() && (#[trigger] ps[j]).location != IrParameterLocation::Cookie {
        let j = choose|j: int| 0 <= j < ps.len() && (#[trigger] ps[j]).location != IrParameterLocation::Cookie;
        assert(keys.contains(ps[j].name.camel_case@));
        assert(keys.len() > 0);
        assert(swr_key_text(op) == "[\""@ + op.path@ + "\", "@ + seq_join(keys, ", "@) + "] as const"@);
        assert(exists|names: Seq<Seq<char>>|
            swr_key_text(op) == "[\""@ + op.path@ + "\", "@ + seq_join(names, ", "@) + "] as const"@
                && forall|j: int| 0 <= j < op.parameters@.len() && (#[trigger] op.parameters@[j]).location
                    != IrParameterLocation::Cookie ==> names.contains(op.parameters@[j].name.camel_case@));
    }
    if forall|j: int| 0 <= j < ps.len() ==> (#[trigger] ps[j]).location == IrParameterLocation::Cookie {
        lemma_collect_none(ps, f);
    }
}

proof fn lemma_collect_none(s: Seq<IrParameter>, f: spec_fn(IrParameter) -> Option<Seq<char>>)
    requires
        f == crate::context::hooks::hook_key_of(),
        forall|j: int| 0 <= j < s.len() ==> (#[trigger] s[j]).location == IrParameterLocation::Cookie,
    ensures
        collect(s, f).len() == 0,
    decreases s.len(),
{
    if s.len() > 0 {
        assert(s.last() == s[s.len() - 1]);
        lemma_collect_none(s.drop_last(), f);
    }
}

/// An object field's declared type: the mapped type, followed by the type
/// map's optional suffix exactly when the field is not required and the
/// suffix is not empty.
pub proof fn optional_fields_carry_the_suffix(
    c: SchemaContext,
    obj: crate::ir::IrObjectSchema,
    tm: TypeMapConfig,
    casing: Seq<char>,
    k: int,
)
    requires
        schema_ctx_is(c, IrSchema::Object(obj), tm, casing),
        0 <= k < obj.fields@.len(),
    ensures
        c matches SchemaContext::Object(o) && k < o.fields@.len() && (if !obj.fields@[k].required && tm.optional_suffix@.len() > 0 {
            o.fields@[k].field_type_str@ == type_text(obj.fields@[k].field_type, tm) + tm.optional_suffix@
        } else {
            o.fields@[k].field_type_str@ == type_text(obj.fields@[k].field_type, tm)
        }),
{
    match c {
        SchemaContext::Object(o) => {
            assert(field_ctx_is(o.fields@[k], obj.fields@[k], tm, casing));
        },
        _ => {},
    }
}

/// Each primitive IR type maps to its own entry of the type map.
pub proof fn primitives_map_to_their_entries(tm: TypeMapConfig)
    ensures
        type_text(IrType::String, tm) == tm.string@,
        type_text(IrType::Number, tm) == tm.number@,
        type_text(IrType::Integer, tm) == tm.integer@,
        type_text(IrType::Boolean, tm) == tm.boolean@,
        type_text(IrType::Null, tm) == tm.null@,
        type_text(IrType::DateTime, tm) == tm.datetime@,
        type_text(IrType::Binary, tm) == tm.binary@,
        type_text(IrType::Any, tm) == tm.any@,
        type_text(IrType::Void, tm) == tm.void@,
{
}

/// An event stream without an item schema has the type of its schema as its
/// event type, and `Any` only when it has no schema; it has no variants and no
/// event type name.
pub proof fn stream_event_type_from_schema(
    r: IrSseReturn,
    operation_pascal: Seq<char>,
    sse: MediaType,
    json: Option<MediaType>,
)
    requires
        sse_return_is(r, operation_pascal, sse, json),
        sse.item_schema is None,
    ensures
        sse.schema matches Some(s) ==> same_type(r.event_type, s),
        sse.schema is None ==> r.event_type == IrType::Any,
        r.variants@.len() == 0,
        r.event_type_name is None,
{
}

} // verus!
