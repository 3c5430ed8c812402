//! The names of the schemas that generated modules import.
use vstd::prelude::*;

use crate::ir::{IrOperation, IrReturnType, IrSpec, IrType};
use crate::pack::TypeMapConfig;
use crate::seqs::{insert_sorted, sorted_strict};
use crate::text::views;

verus! {

/// The schema names that a type refers to, however deeply nested.
pub open spec fn refs_of(t: IrType) -> Set<Seq<char>>
    decreases t,
{
    match t {
        IrType::Ref(name) => set![name@],
        IrType::Array(inner) => refs_of(*inner),
        IrType::MapOf(inner) => refs_of(*inner),
        IrType::Union(vs) => refs_of_seq(vs@),
        IrType::Intersection(vs) => refs_of_seq(vs@),
        IrType::Object(fields) => refs_of_fields(fields@),
        _ => Set::empty(),
    }
}

/// The schema names that a sequence of types refers to.
pub open spec fn refs_of_seq(vs: Seq<IrType>) -> Set<Seq<char>>
    decreases vs,
{
    if vs.len() == 0 {
        Set::empty()
    } else {
        refs_of_seq(vs.drop_last()).union(refs_of(vs.last()))
    }
}

/// The schema names that the types of inline object fields refer to.
pub open spec fn refs_of_fields(fs: Seq<(String, IrType, bool)>) -> Set<Seq<char>>
    decreases fs,
{
    if fs.len() == 0 {
        Set::empty()
    } else {
        refs_of_fields(fs.drop_last()).union(refs_of(fs.last().1))
    }
}

/// The strings of a sorted string vector hold `set`.
pub open spec fn sorted_set_is(v: Seq<String>, set: Set<Seq<char>>) -> bool {
    sorted_strict(views(v)) && views(v).to_set() == set
}

/// Adds the schema names that `ir_type` refers to.
pub fn collect_refs_from_ir_type(ir_type: &IrType, types: &mut Vec<String>)
    requires
        sorted_strict(views(old(types)@)),
    ensures
        sorted_set_is(final(types)@, views(old(types)@).to_set().union(refs_of(*ir_type))),
    decreases ir_type, 1nat,
{
    let ghost start = views(types@).to_set();
    match ir_type {
        IrType::Ref(name) => {
            insert_sorted(types, name.clone());
            assert(start.insert(name@) =~= start.union(set![name@]));
        },
        IrType::Array(inner) => collect_refs_from_ir_type(inner, types),
        IrType::MapOf(inner) => collect_refs_from_ir_type(inner, types),
        IrType::Union(vs) => collect_refs_from_types(vs, types),
        IrType::Intersection(vs) => collect_refs_from_types(vs, types),
        IrType::Object(fields) => collect_refs_from_fields(fields, types),
        _ => {
            assert(start.union(Set::empty()) =~= start);
        },
    }
}

fn collect_refs_from_fields(fields: &Vec<(String, IrType, bool)>, types: &mut Vec<String>)
    requires
        sorted_strict(views(old(types)@)),
    ensures
        sorted_set_is(final(types)@, views(old(types)@).to_set().union(refs_of_fields(fields@))),
    decreases fields, 0nat,
{
    let ghost start = views(types@).to_set();
    let mut i: usize = 0;
    assert(fields@.take(0) =~= Seq::<(String, IrType, bool)>::empty());
    assert(start.union(refs_of_fields(fields@.take(0))) =~= start);
    while i < fields.len()
        invariant
            i <= fields@.len(),
            sorted_set_is(types@, start.union(refs_of_fields(fields@.take(i as int)))),
        decreases fields@.len() - i,
    {
        proof {
            assert(decreases_to!(fields => fields@));
            assert(decreases_to!(fields@ => fields@[i as int]));
            assert(decreases_to!(fields@[i as int] => fields@[i as int].1));
        }
        collect_refs_from_ir_type(&fields[i].1, types);
        proof {
            assert(fields@.take(i + 1).drop_last() =~= fields@.take(i as int));
            assert(start.union(refs_of_fields(fields@.take(i as int))).union(refs_of(fields@[i as int].1))
                =~= start.union(refs_of_fields(fields@.take(i + 1))));
        }
        i = i + 1;
    }
    assert(fields@.take(fields@.len() as int) =~= fields@);
}

fn collect_refs_from_types(vs: &Vec<IrType>, types: &mut Vec<String>)
    requires
        sorted_strict(views(old(types)@)),
    ensures
        sorted_set_is(final(types)@, views(old(types)@).to_set().union(refs_of_seq(vs@))),
    decreases vs, 0nat,
{
    let ghost start = views(types@).to_set();
    let mut i: usize = 0;
    assert(vs@.take(0) =~= Seq::<IrType>::empty());
    assert(start.union(refs_of_seq(vs@.take(0))) =~= start);
    while i < vs.len()
        invariant
            i <= vs@.len(),
            sorted_set_is(types@, start.union(refs_of_seq(vs@.take(i as int)))),
        decreases vs@.len() - i,
    {
        proof {
            assert(decreases_to!(vs => vs@));
            assert(decreases_to!(vs@ => vs@[i as int]));
        }
        collect_refs_from_ir_type(&vs[i], types);
        proof {
            assert(vs@.take(i + 1).drop_last() =~= vs@.take(i as int));
            assert(start.union(refs_of_seq(vs@.take(i as int))).union(refs_of(vs@[i as int]))
                =~= start.union(refs_of_seq(vs@.take(i + 1))));
        }
        i = i + 1;
    }
    assert(vs@.take(vs@.len() as int) =~= vs@);
}

/// The schema names that a return type refers to: the named event type of a
/// stream stands for its event type.
pub open spec fn return_refs(ret: IrReturnType) -> Set<Seq<char>> {
    match ret {
        IrReturnType::Standard(resp) => refs_of(resp.response_type),
        IrReturnType::Sse(sse) => {
            let events = match sse.event_type_name {
                Some(name) => set![name@],
                None => refs_of(sse.event_type),
            };
            let json = match sse.json_response {
                Some(j) => refs_of(j.response_type),
                None => Set::empty(),
            };
            events.union(json)
        },
        IrReturnType::Void => Set::empty(),
    }
}

/// Adds the schema names that a return type refers to.
pub fn collect_types_from_return(ret: &IrReturnType, types: &mut Vec<String>)
    requires
        sorted_strict(views(old(types)@)),
    ensures
        sorted_set_is(final(types)@, views(old(types)@).to_set().union(return_refs(*ret))),
{
    let ghost start = views(types@).to_set();
    match ret {
        IrReturnType::Standard(resp) => {
            collect_refs_from_ir_type(&resp.response_type, types);
        },
        IrReturnType::Sse(sse) => {
            match &sse.event_type_name {
                Some(name) => {
                    insert_sorted(types, name.clone());
                    assert(start.insert(name@) =~= start.union(set![name@]));
                },
                None => {
                    collect_refs_from_ir_type(&sse.event_type, types);
                },
            }
            match &sse.json_response {
                Some(json) => {
                    collect_refs_from_ir_type(&json.response_type, types);
                },
                None => {},
            }
            assert(views(types@).to_set() =~= start.union(return_refs(*ret)));
        },
        IrReturnType::Void => {
            assert(start.union(Set::empty()) =~= start);
        },
    }
}

/// The schema names that the return type, body and parameters of an operation refer to.
pub open spec fn op_refs(op: IrOperation) -> Set<Seq<char>> {
    return_refs(op.return_type).union(match op.request_body {
        Some(b) => refs_of(b.body_type),
        None => Set::empty(),
    }).union(param_refs(op.parameters@))
}

/// The schema names that parameter types refer to.
pub open spec fn param_refs(ps: Seq<crate::ir::IrParameter>) -> Set<Seq<char>>
    decreases ps.len(),
{
    if ps.len() == 0 {
        Set::empty()
    } else {
        param_refs(ps.drop_last()).union(refs_of(ps.last().param_type))
    }
}

/// Adds the schema names that an operation refers to.
pub fn collect_op_refs(op: &IrOperation, types: &mut Vec<String>)
    requires
        sorted_strict(views(old(types)@)),
    ensures
        sorted_set_is(final(types)@, views(old(types)@).to_set().union(op_refs(*op))),
{
    let ghost start = views(types@).to_set();
    collect_types_from_return(&op.return_type, types);
    match &op.request_body {
        Some(body) => {
            collect_refs_from_ir_type(&body.body_type, types);
        },
        None => {},
    }
    let ghost mid = views(types@).to_set();
    let ghost ps = op.parameters@;
    let mut i: usize = 0;
    assert(ps.take(0) =~= Seq::<crate::ir::IrParameter>::empty());
    assert(mid.union(param_refs(ps.take(0))) =~= mid);
    while i < op.parameters.len()
        invariant
            ps == op.parameters@,
            i <= ps.len(),
            sorted_set_is(types@, mid.union(param_refs(ps.take(i as int)))),
        decreases ps.len() - i,
    {
        collect_refs_from_ir_type(&op.parameters[i].param_type, types);
        proof {
            assert(ps.take(i + 1).drop_last() =~= ps.take(i as int));
            assert(mid.union(param_refs(ps.take(i as int))).union(refs_of(ps[i as int].param_type))
                =~= mid.union(param_refs(ps.take(i + 1))));
        }
        i = i + 1;
    }
    assert(ps.take(ps.len() as int) =~= ps);
    assert(views(types@).to_set() =~= start.union(op_refs(*op)));
}

/// The schema names that the selected operations refer to.
pub open spec fn selected_refs(ops: Seq<IrOperation>, selected: Seq<bool>, refs: spec_fn(IrOperation) -> Set<Seq<char>>) -> Set<Seq<char>>
    decreases ops.len(),
{
    if ops.len() == 0 {
        Set::empty()
    } else {
        let rest = selected_refs(ops.drop_last(), selected, refs);
        if selected[ops.len() - 1] {
            rest.union(refs(ops.last()))
        } else {
            rest
        }
    }
}

/// The sorted names of the schemas that the selected operations refer to
/// through their return types, bodies and parameters.
pub fn collect_imported_types(ops: &Vec<IrOperation>, selected: &Vec<bool>, _tm: &TypeMapConfig) -> (r: Vec<String>)
    requires
        selected@.len() == ops@.len(),
    ensures
        sorted_set_is(r@, selected_refs(ops@, selected@, |op: IrOperation| op_refs(op))),
{
    collect_selected_refs(ops, selected)
}

fn collect_selected_refs(ops: &Vec<IrOperation>, selected: &Vec<bool>) -> (r: Vec<String>)
    requires
        selected@.len() == ops@.len(),
    ensures
        sorted_set_is(r@, selected_refs(ops@, selected@, |op: IrOperation| op_refs(op))),
{
    let mut types: Vec<String> = Vec::new();
    let mut i: usize = 0;
    assert(views(types@).to_set() =~= Set::<Seq<char>>::empty());
    assert(ops@.take(0) =~= Seq::<IrOperation>::empty());
    while i < ops.len()
        invariant
            selected@.len() == ops@.len(),
            i <= ops@.len(),
            sorted_set_is(types@, selected_refs(ops@.take(i as int), selected@, |op: IrOperation| op_refs(op))),
        decreases ops@.len() - i,
    {
        let ghost before = views(types@).to_set();
        if selected[i] {
            collect_op_refs(&ops[i], &mut types);
        }
        proof {
            assert(ops@.take(i + 1).drop_last() =~= ops@.take(i as int));
            if !selected@[i as int] {
                assert(views(types@).to_set() == before);
            }
            assert(views(types@).to_set() =~= selected_refs(ops@.take(i + 1), selected@, |op: IrOperation| op_refs(op)));
        }
        i = i + 1;
    }
    assert(ops@.take(ops@.len() as int) =~= ops@);
    types
}

/// Every operation selected.
pub open spec fn all_selected(n: nat) -> Seq<bool> {
    Seq::new(n, |i: int| true)
}

/// The sorted names of the schemas that any operation refers to (the model
/// imports of Python-style generators).
pub fn collect_model_imports(ir: &IrSpec) -> (r: Vec<String>)
    ensures
        sorted_set_is(r@, selected_refs(ir.operations@, all_selected(ir.operations@.len()), |op: IrOperation| op_refs(op))),
{
    let mut selected: Vec<bool> = Vec::new();
    let mut i: usize = 0;
    while i < ir.operations.len()
        invariant
            i <= ir.operations@.len(),
            selected@ == all_selected(i as nat),
        decreases ir.operations@.len() - i,
    {
        selected.push(true);
        assert(selected@ =~= all_selected((i + 1) as nat));
        i = i + 1;
    }
    collect_selected_refs(&ir.operations, &selected)
}

} // verus!
